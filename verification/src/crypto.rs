//! The cryptographic primitives that request signing rests on, taken from the
//! `hmac`, `sha2`, `hex` and `subtle` crates.

use vstd::prelude::*;
use hmac::{Hmac, KeyInit, Mac};
use sha2::Sha256;
use subtle::ConstantTimeEq;

verus! {

/// `hmac::digest::InvalidLength`, the error of keyed MAC construction.
#[verifier::external_type_specification]
#[verifier::external_body]
pub struct ExInvalidLength(hmac::digest::InvalidLength);

/// The HMAC-SHA256 tag of `data` under `key`, as the `hmac` crate computes it.
pub uninterp spec fn hmac_sha256_spec(key: Seq<u8>, data: Seq<u8>) -> Seq<u8>;

/// `Hmac::<Sha256>::new_from_slice(key)`, then `update(data)` and `finalize().into_bytes()`.
/// Claimed: key setup accepts a key of any length (the crate's source pads or hashes
/// the key and always returns `Ok`), and the tag is the crate's HMAC-SHA256 of
/// `data` under `key`, 32 bytes long (SHA-256's output size).
#[verifier::external_body]
pub(crate) fn hmac_sha256(key: &[u8], data: &[u8]) -> (res: Result<Vec<u8>, hmac::digest::InvalidLength>)
    ensures
        res is Ok,
        res matches Ok(tag) ==> tag@ == hmac_sha256_spec(key@, data@) && tag@.len() == 32,
{
    let mut mac = match <Hmac<Sha256> as KeyInit>::new_from_slice(key) {
        Ok(mac) => mac,
        Err(e) => return Err(e),
    };
    mac.update(data);
    Ok(mac.finalize().into_bytes().to_vec())
}

/// The lower-case hexadecimal digit for a nibble.
pub open spec fn hex_digit(n: int) -> char {
    if n < 10 {
        (48 + n) as char
    } else {
        (87 + n) as char
    }
}

/// Lower-case hexadecimal encoding: two digits per byte, high nibble first.
pub open spec fn hex_lower_spec(bytes: Seq<u8>) -> Seq<char>
    decreases bytes.len(),
{
    if bytes.len() == 0 {
        Seq::empty()
    } else {
        hex_lower_spec(bytes.drop_last()) + seq![
            hex_digit(bytes.last() as int / 16),
            hex_digit(bytes.last() as int % 16),
        ]
    }
}

/// `hex::encode(bytes)`. Claimed: the lower-case hexadecimal text of `bytes`, two
/// digits per byte from the alphabet `0123456789abcdef`, high nibble first.
#[verifier::external_body]
pub(crate) fn hex_encode(bytes: &[u8]) -> (res: String)
    ensures
        res@ == hex_lower_spec(bytes@),
{
    hex::encode(bytes)
}

/// `<[u8] as subtle::ConstantTimeEq>::ct_eq(a, b)`, read as a `bool`. Claimed: true
/// exactly when the two slices have the same length and the same bytes.
#[verifier::external_body]
pub(crate) fn ct_eq_bytes(a: &[u8], b: &[u8]) -> (res: bool)
    ensures
        res == (a@ == b@),
{
    bool::from(a.ct_eq(b))
}

} // verus!

verus! {

/// Hex encoding writes two digits per byte, high nibble first, each byte after the
/// ones before it, from the alphabet `0123456789abcdef`.
pub proof fn lemma_hex_lower_layout(bytes: Seq<u8>, b: u8)
    ensures
        hex_lower_spec(Seq::empty()) == Seq::<char>::empty(),
        hex_lower_spec(bytes.push(b)) == hex_lower_spec(bytes) + seq![
            hex_digit(b as int / 16),
            hex_digit(b as int % 16),
        ],
        hex_lower_spec(bytes).len() == 2 * bytes.len(),
        forall|n: int| 0 <= n < 16 ==> #[trigger] hex_digit(n) == "0123456789abcdef"@[n],
    decreases bytes.len(),
{
    assert(bytes.push(b).drop_last() == bytes);
    if bytes.len() > 0 {
        lemma_hex_lower_layout(bytes.drop_last(), bytes.last());
    }
    reveal_strlit("0123456789abcdef");
    assert forall|n: int| 0 <= n < 16 implies #[trigger] hex_digit(n) == "0123456789abcdef"@[n] by {
        reveal_strlit("0123456789abcdef");
    }
}

} // verus!
