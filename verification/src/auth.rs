//! Request authentication: every signed request carries a millisecond timestamp
//! and a lower-case hex HMAC-SHA256 signature of `"<timestamp>.<payload>"` under the
//! shared secret. A request is accepted when the timestamp is a valid `i64`, lies
//! within five minutes of the server clock, and the signature matches.

use vstd::prelude::*;
use crate::crypto::{ct_eq_bytes, hex_encode, hex_lower_spec, hmac_sha256, hmac_sha256_spec};
use crate::number::{parse_i64, parse_i64_spec};
use crate::text::utf8_str;

verus! {

/// Why a signed request was refused.
#[derive(Debug, Clone, Copy, PartialEq, Eq, Structural)]
pub enum AuthError {
    /// The `x-signature` header is absent or not visible ASCII.
    MissingSignature,
    /// The `x-timestamp` header is absent or not visible ASCII.
    MissingTimestamp,
    /// The request body is not UTF-8.
    InvalidUtf8Body,
    /// The query string lacks the signing parameters or does not parse.
    InvalidQueryParams,
    /// The timestamp is not a decimal `i64`.
    InvalidTimestamp,
    /// The timestamp is more than five minutes away from the server clock.
    TimestampOutsideWindow,
    /// The secret was refused as a MAC key.
    InvalidSecret,
    /// The signature does not match.
    InvalidSignature,
}

impl AuthError {
    /// The text that the service answers with, under status 401.
    pub open spec fn message_spec(self) -> Seq<char> {
        match self {
            AuthError::MissingSignature => "Missing x-signature header"@,
            AuthError::MissingTimestamp => "Missing x-timestamp header"@,
            AuthError::InvalidUtf8Body => "Invalid UTF-8 body"@,
            AuthError::InvalidQueryParams => "Missing or invalid HMAC query params"@,
            AuthError::InvalidTimestamp => "Invalid x-timestamp"@,
            AuthError::TimestampOutsideWindow => "Request timestamp outside of window"@,
            AuthError::InvalidSecret => "Invalid HMAC secret"@,
            AuthError::InvalidSignature => "Invalid HMAC signature"@,
        }
    }

    /// The text that the service answers with, under status 401.
    pub fn message(&self) -> (res: String)
        ensures
            res@ == self.message_spec(),
    {
        match self {
            AuthError::MissingSignature => "Missing x-signature header".to_owned(),
            AuthError::MissingTimestamp => "Missing x-timestamp header".to_owned(),
            AuthError::InvalidUtf8Body => "Invalid UTF-8 body".to_owned(),
            AuthError::InvalidQueryParams => "Missing or invalid HMAC query params".to_owned(),
            AuthError::InvalidTimestamp => "Invalid x-timestamp".to_owned(),
            AuthError::TimestampOutsideWindow => "Request timestamp outside of window".to_owned(),
            AuthError::InvalidSecret => "Invalid HMAC secret".to_owned(),
            AuthError::InvalidSignature => "Invalid HMAC signature".to_owned(),
        }
    }

    /// The HTTP status of every refusal: 401 Unauthorized.
    pub fn status(&self) -> (res: u16)
        ensures
            res == 401,
    {
        401
    }
}

/// How far, in milliseconds, a request's timestamp may lie from the server clock.
pub const SIGNATURE_WINDOW_MS: i64 = 5 * 60 * 1000;

/// The shared secret: the configured one, or `"default_secret"` when none is set.
pub open spec fn signing_secret_spec(configured: Option<Seq<char>>) -> Seq<char> {
    match configured {
        Some(s) => s,
        None => "default_secret"@,
    }
}

/// The shared secret: the configured one, or `"default_secret"` when none is set.
pub fn signing_secret(configured: Option<String>) -> (res: String)
    ensures
        res@ == signing_secret_spec(
            match configured {
                Some(s) => Some(s@),
                None => None,
            },
        ),
{
    match configured {
        Some(s) => s,
        None => "default_secret".to_owned(),
    }
}

/// The signature that a client holding `secret` sends for `data`: the lower-case
/// hex HMAC-SHA256 of the UTF-8 bytes of `data` under those of `secret`.
pub open spec fn expected_signature(secret: Seq<char>, data: Seq<char>) -> Seq<char> {
    hex_lower_spec(hmac_sha256_spec(vstd::utf8::encode_utf8(secret), vstd::utf8::encode_utf8(data)))
}

/// Whether `timestamp` lies within the window around `now`.
pub open spec fn within_window(now: int, timestamp: int) -> bool {
    -SIGNATURE_WINDOW_MS <= now - timestamp <= SIGNATURE_WINDOW_MS
}

/// The verdict on a signature at clock reading `now`.
pub open spec fn verify_hmac_spec(
    signature: Seq<char>,
    timestamp: Seq<char>,
    data: Seq<char>,
    secret: Seq<char>,
    now: i64,
) -> Result<(), AuthError> {
    match parse_i64_spec(timestamp) {
        None => Err(AuthError::InvalidTimestamp),
        Some(t) => if !within_window(now as int, t as int) {
            Err(AuthError::TimestampOutsideWindow)
        } else if signature == expected_signature(secret, data) {
            Ok(())
        } else {
            Err(AuthError::InvalidSignature)
        },
    }
}

/// Whether `now - timestamp` and its absolute value are `i64`s, so that the window
/// check computes in `i64` without overflow.
pub open spec fn clock_difference_fits(timestamp: Seq<char>, now: i64) -> bool {
    match parse_i64_spec(timestamp) {
        Some(t) => i64::MIN < now - t <= i64::MAX,
        None => true,
    }
}

/// Checks `signature` against `data` and `timestamp` at clock reading `now`.
pub fn verify_hmac_at(signature: &str, timestamp: &str, data: &str, secret: &str, now: i64) -> (res:
    Result<(), AuthError>)
    requires
        clock_difference_fits(timestamp@, now),
    ensures
        res == verify_hmac_spec(signature@, timestamp@, data@, secret@, now),
{
    let t = match parse_i64(timestamp) {
        Some(t) => t,
        None => return Err(AuthError::InvalidTimestamp),
    };
    let diff = now - t;
    let distance = if diff < 0 {
        -diff
    } else {
        diff
    };
    if distance > SIGNATURE_WINDOW_MS {
        return Err(AuthError::TimestampOutsideWindow);
    }
    let tag = match hmac_sha256(secret.as_bytes(), data.as_bytes()) {
        Ok(tag) => tag,
        Err(_) => return Err(AuthError::InvalidSecret),
    };
    let expected = hex_encode(tag.as_slice());
    let same = ct_eq_bytes(signature.as_bytes(), expected.as_str().as_bytes());
    proof {
        crate::text::lemma_utf8_injective(signature@, expected@);
    }
    if !same {
        return Err(AuthError::InvalidSignature);
    }
    Ok(())
}

/// The verdict at clock reading `now`, where a timestamp so far from `now` that the
/// difference leaves the `i64` range is refused as outside the window.
pub open spec fn verify_hmac_outcome(
    signature: Seq<char>,
    timestamp: Seq<char>,
    data: Seq<char>,
    secret: Seq<char>,
    now: i64,
) -> Result<(), AuthError> {
    if clock_difference_fits(timestamp, now) {
        verify_hmac_spec(signature, timestamp, data, secret, now)
    } else {
        Err(AuthError::TimestampOutsideWindow)
    }
}

/// `chrono::Utc::now().timestamp_millis()`: the system clock in milliseconds since
/// the Unix epoch. Nothing is claimed of the reading.
#[verifier::external_body]
fn now_millis() -> i64 {
    chrono::Utc::now().timestamp_millis()
}

/// Checks `signature` against `data` and `timestamp` at clock reading `now`,
/// refusing as outside the window a timestamp whose distance from `now` leaves the
/// `i64` range.
pub fn verify_hmac_checked_at(
    signature: &str,
    timestamp: &str,
    data: &str,
    secret: &str,
    now: i64,
) -> (res: Result<(), AuthError>)
    ensures
        res == verify_hmac_outcome(signature@, timestamp@, data@, secret@, now),
{
    let fits = match parse_i64(timestamp) {
        Some(t) => {
            let d: i128 = now as i128 - t as i128;
            -9223372036854775807i128 <= d && d <= 9223372036854775807i128
        },
        None => true,
    };
    if !fits {
        Err(AuthError::TimestampOutsideWindow)
    } else {
        verify_hmac_at(signature, timestamp, data, secret, now)
    }
}

/// Checks `signature` against `data` and `timestamp` at the current time.
pub fn verify_hmac(signature: &str, timestamp: &str, data: &str, secret: &str) -> (res: Result<
    (),
    AuthError,
>)
    ensures
        exists|now: i64| res == verify_hmac_outcome(signature@, timestamp@, data@, secret@, now),
{
    let now = now_millis();
    let res = verify_hmac_checked_at(signature, timestamp, data, secret, now);
    assert(res == verify_hmac_outcome(signature@, timestamp@, data@, secret@, now));
    res
}

} // verus!

verus! {

/// What is signed for a request: the timestamp, a dot, then the payload.
pub open spec fn signed_payload(timestamp: Seq<char>, payload: Seq<char>) -> Seq<char> {
    timestamp + seq!['.'] + payload
}

/// The characters of a header value that was present.
pub open spec fn header_view(h: Option<&str>) -> Option<Seq<char>> {
    match h {
        Some(s) => Some(s@),
        None => None,
    }
}

/// The characters of an accepted payload, or the refusal.
pub open spec fn outcome_view(r: Result<String, AuthError>) -> Result<Seq<char>, AuthError> {
    match r {
        Ok(s) => Ok(s@),
        Err(e) => Err(e),
    }
}

/// The verdict on a request with a signed body, at clock reading `now`: the
/// signature header is checked first, then the timestamp header, then the body's
/// encoding, then the signature over `"<timestamp>.<body>"`. On success, the body's text.
pub open spec fn signed_body_outcome(
    signature: Option<Seq<char>>,
    timestamp: Option<Seq<char>>,
    body: Seq<u8>,
    secret: Seq<char>,
    now: i64,
) -> Result<Seq<char>, AuthError> {
    match signature {
        None => Err(AuthError::MissingSignature),
        Some(sig) => match timestamp {
            None => Err(AuthError::MissingTimestamp),
            Some(ts) => if !vstd::utf8::valid_utf8(body) {
                Err(AuthError::InvalidUtf8Body)
            } else {
                let text = vstd::utf8::decode_utf8(body);
                match verify_hmac_outcome(sig, ts, signed_payload(ts, text), secret, now) {
                    Ok(()) => Ok(text),
                    Err(e) => Err(e),
                }
            },
        },
    }
}

/// Authenticates a request whose body is signed, at clock reading `now`; on success
/// returns the body as text, ready to be deserialized.
pub fn check_signed_body_at(
    signature: Option<&str>,
    timestamp: Option<&str>,
    body: &[u8],
    secret: &str,
    now: i64,
) -> (res: Result<String, AuthError>)
    ensures
        outcome_view(res) == signed_body_outcome(
            header_view(signature),
            header_view(timestamp),
            body@,
            secret@,
            now,
        ),
{
    let sig = match signature {
        Some(s) => s,
        None => return Err(AuthError::MissingSignature),
    };
    let ts = match timestamp {
        Some(t) => t,
        None => return Err(AuthError::MissingTimestamp),
    };
    let text = match utf8_str(body) {
        Some(t) => t,
        None => return Err(AuthError::InvalidUtf8Body),
    };
    proof {
        vstd::utf8::encode_utf8_decode_utf8(text@);
    }
    let mut data = ts.to_owned();
    data.append(".");
    data.append(text);
    proof {
        reveal_strlit(".");
        assert(data@ == signed_payload(ts@, text@));
    }
    match verify_hmac_checked_at(sig, ts, data.as_str(), secret, now) {
        Ok(()) => Ok(text.to_owned()),
        Err(e) => Err(e),
    }
}

/// Authenticates a request whose body is signed, at the current time; on success
/// returns the body as text, ready to be deserialized.
pub fn check_signed_body(
    signature: Option<&str>,
    timestamp: Option<&str>,
    body: &[u8],
    secret: &str,
) -> (res: Result<String, AuthError>)
    ensures
        exists|now: i64|
            outcome_view(res) == signed_body_outcome(
                header_view(signature),
                header_view(timestamp),
                body@,
                secret@,
                now,
            ),
{
    let now = now_millis();
    let res = check_signed_body_at(signature, timestamp, body, secret, now);
    assert(outcome_view(res) == signed_body_outcome(
        header_view(signature),
        header_view(timestamp),
        body@,
        secret@,
        now,
    ));
    res
}

} // verus!

verus! {

/// Whether key `a` sorts strictly before key `b`: lexicographic order of code points,
/// which is the order of `str` (byte-wise on UTF-8) and so of an ordered map's keys.
pub open spec fn key_less(a: Seq<char>, b: Seq<char>) -> bool
    decreases a.len(),
{
    if b.len() == 0 {
        false
    } else if a.len() == 0 {
        true
    } else if (a[0] as u32) < (b[0] as u32) {
        true
    } else if (a[0] as u32) == (b[0] as u32) {
        key_less(a.drop_first(), b.drop_first())
    } else {
        false
    }
}

/// No key sorts before itself.
pub proof fn lemma_key_less_irreflexive(a: Seq<char>)
    ensures
        !key_less(a, a),
    decreases a.len(),
{
    if a.len() > 0 {
        lemma_key_less_irreflexive(a.drop_first());
    }
}

/// The key order is transitive.
pub proof fn lemma_key_less_transitive(a: Seq<char>, b: Seq<char>, c: Seq<char>)
    requires
        key_less(a, b),
        key_less(b, c),
    ensures
        key_less(a, c),
    decreases a.len(),
{
    if a.len() > 0 && (a[0] as u32) == (b[0] as u32) && (b[0] as u32) == (c[0] as u32) {
        lemma_key_less_transitive(a.drop_first(), b.drop_first(), c.drop_first());
    }
}

/// Decides `key_less`.
pub fn key_precedes(a: &str, b: &str) -> (res: bool)
    ensures
        res == key_less(a@, b@),
{
    let va = crate::text::chars_of(a);
    let vb = crate::text::chars_of(b);
    let mut i: usize = 0;
    assert(va@.skip(0) == va@);
    assert(vb@.skip(0) == vb@);
    while i < va.len() && i < vb.len()
        invariant
            i <= va@.len(),
            i <= vb@.len(),
            key_less(a@, b@) == key_less(va@.skip(i as int), vb@.skip(i as int)),
            va@ == a@,
            vb@ == b@,
        decreases va.len() - i,
    {
        let ca = va[i] as u32;
        let cb = vb[i] as u32;
        if ca < cb {
            return true;
        }
        if ca > cb {
            return false;
        }
        assert(va@.skip(i as int).drop_first() == va@.skip(i + 1));
        assert(vb@.skip(i as int).drop_first() == vb@.skip(i + 1));
        i = i + 1;
    }
    i == va.len() && i < vb.len()
}

/// Whether the keys of `pairs` strictly ascend: sorted, each key once.
pub open spec fn keys_ascend(pairs: Seq<(Seq<char>, Seq<char>)>) -> bool {
    forall|i: int, j: int| 0 <= i < j < pairs.len() ==> key_less(#[trigger] pairs[i].0, #[trigger] pairs[j].0)
}

/// The characters of signed query parameters.
pub struct QueryView {
    pub timestamp: Seq<char>,
    pub signature: Seq<char>,
    pub pairs: Seq<(Seq<char>, Seq<char>)>,
}

/// The signing parameters of a query string and its remaining parameters, the latter
/// as key/value pairs whose keys strictly ascend, as the entries of an ordered map do.
pub struct HmacQueryParams {
    x_timestamp: String,
    x_signature: String,
    extra: Vec<(String, String)>,
}

impl View for HmacQueryParams {
    type V = QueryView;

    closed spec fn view(&self) -> QueryView {
        QueryView {
            timestamp: self.x_timestamp@,
            signature: self.x_signature@,
            pairs: pairs_view(self.extra@),
        }
    }
}

impl HmacQueryParams {
    #[verifier::type_invariant]
    spec fn pairs_in_key_order(self) -> bool {
        keys_ascend(pairs_view(self.extra@))
    }

    /// The parameters, when the keys of `extra` strictly ascend.
    pub fn new(x_timestamp: String, x_signature: String, extra: Vec<(String, String)>) -> (res:
        Option<HmacQueryParams>)
        ensures
            (res is Some) == keys_ascend(pairs_view(extra@)),
            res matches Some(p) ==> (p@ == (QueryView {
                timestamp: x_timestamp@,
                signature: x_signature@,
                pairs: pairs_view(extra@),
            })),
    {
        let ghost pv = pairs_view(extra@);
        let mut i: usize = 1;
        while i < extra.len()
            invariant
                1 <= i,
                pv == pairs_view(extra@),
                forall|a: int, b: int| 0 <= a < b < i && b < pv.len() ==> key_less(#[trigger] pv[a].0, #[trigger] pv[b].0),
            decreases extra.len() - i,
        {
            if !key_precedes(extra[i - 1].0.as_str(), extra[i].0.as_str()) {
                assert(pv[i - 1].0 == extra@[i - 1].0@);
                assert(pv[i as int].0 == extra@[i as int].0@);
                assert(!keys_ascend(pv));
                return None;
            }
            assert forall|a: int, b: int| 0 <= a < b < i + 1 && b < pv.len() implies key_less(#[trigger] pv[a].0, #[trigger] pv[b].0) by {
                if b == i && a < i - 1 {
                    lemma_key_less_transitive(pv[a].0, pv[i - 1].0, pv[b].0);
                }
            }
            i = i + 1;
        }
        Some(HmacQueryParams { x_timestamp, x_signature, extra })
    }

    /// The request's timestamp.
    pub fn x_timestamp(&self) -> (res: &str)
        ensures
            res@ == self@.timestamp,
    {
        self.x_timestamp.as_str()
    }

    /// The request's signature.
    pub fn x_signature(&self) -> (res: &str)
        ensures
            res@ == self@.signature,
    {
        self.x_signature.as_str()
    }

    /// The remaining parameters, their keys strictly ascending.
    pub fn extra(&self) -> (res: &Vec<(String, String)>)
        ensures
            pairs_view(res@) == self@.pairs,
            keys_ascend(self@.pairs),
    {
        proof {
            use_type_invariant(self);
        }
        &self.extra
    }

    /// The timestamp, the signature and the remaining parameters.
    pub fn into_parts(self) -> (res: (String, String, Vec<(String, String)>))
        ensures
            res.0@ == self@.timestamp,
            res.1@ == self@.signature,
            pairs_view(res.2@) == self@.pairs,
    {
        (self.x_timestamp, self.x_signature, self.extra)
    }
}

/// The characters of each key/value pair.
pub open spec fn pairs_view(pairs: Seq<(String, String)>) -> Seq<(Seq<char>, Seq<char>)> {
    pairs.map_values(|p: (String, String)| (p.0@, p.1@))
}

/// `key=value`.
pub open spec fn query_pair_spec(p: (Seq<char>, Seq<char>)) -> Seq<char> {
    p.0 + seq!['='] + p.1
}

/// The canonical query string: the pairs as `key=value`, joined by `&`.
pub open spec fn canonical_query_spec(pairs: Seq<(Seq<char>, Seq<char>)>) -> Seq<char>
    decreases pairs.len(),
{
    if pairs.len() == 0 {
        Seq::empty()
    } else if pairs.len() == 1 {
        query_pair_spec(pairs[0])
    } else {
        canonical_query_spec(pairs.drop_last()) + seq!['&'] + query_pair_spec(pairs.last())
    }
}

/// Builds the canonical query string of `pairs`.
pub fn canonical_query(pairs: &Vec<(String, String)>) -> (res: String)
    ensures
        res@ == canonical_query_spec(pairs_view(pairs@)),
{
    let mut res = String::new();
    let mut i: usize = 0;
    while i < pairs.len()
        invariant
            i <= pairs@.len(),
            res@ == canonical_query_spec(pairs_view(pairs@).take(i as int)),
        decreases pairs.len() - i,
    {
        let ghost before = res@;
        if i > 0 {
            res.append("&");
        }
        res.append(pairs[i].0.as_str());
        res.append("=");
        res.append(pairs[i].1.as_str());
        proof {
            reveal_strlit("&");
            reveal_strlit("=");
            let pv = pairs_view(pairs@);
            assert(pv.take(i + 1).drop_last() == pv.take(i as int));
            assert(pv.take(i + 1).last() == (pairs@[i as int].0@, pairs@[i as int].1@));
            if i == 0 {
                assert(before == Seq::<char>::empty());
            }
        }
        i = i + 1;
    }
    assert(pairs_view(pairs@).take(pairs@.len() as int) == pairs_view(pairs@));
    res
}

/// The verdict on a signed query at clock reading `now`: the signature covers
/// `"<x_timestamp>.<canonical query>"`. On success, the canonical query string.
pub open spec fn signed_query_outcome(
    timestamp: Seq<char>,
    signature: Seq<char>,
    pairs: Seq<(Seq<char>, Seq<char>)>,
    secret: Seq<char>,
    now: i64,
) -> Result<Seq<char>, AuthError> {
    let canonical = canonical_query_spec(pairs);
    match verify_hmac_outcome(signature, timestamp, signed_payload(timestamp, canonical), secret, now) {
        Ok(()) => Ok(canonical),
        Err(e) => Err(e),
    }
}

/// Authenticates a signed query at clock reading `now`; on success returns the
/// canonical string of the remaining parameters, ready to be deserialized.
pub fn check_signed_query_at(params: &HmacQueryParams, secret: &str, now: i64) -> (res: Result<
    String,
    AuthError,
>)
    ensures
        outcome_view(res) == signed_query_outcome(
            params@.timestamp,
            params@.signature,
            params@.pairs,
            secret@,
            now,
        ),
{
    let canonical = canonical_query(params.extra());
    let mut data = params.x_timestamp().to_owned();
    data.append(".");
    data.append(canonical.as_str());
    proof {
        reveal_strlit(".");
        assert(data@ == signed_payload(params@.timestamp, canonical@));
    }
    match verify_hmac_checked_at(params.x_signature(), params.x_timestamp(), data.as_str(), secret, now) {
        Ok(()) => Ok(canonical),
        Err(e) => Err(e),
    }
}

/// Authenticates a signed query at the current time; on success returns the
/// canonical string of the remaining parameters, ready to be deserialized.
pub fn check_signed_query(params: &HmacQueryParams, secret: &str) -> (res: Result<String, AuthError>)
    ensures
        exists|now: i64|
            outcome_view(res) == signed_query_outcome(
                params@.timestamp,
                params@.signature,
                params@.pairs,
                secret@,
                now,
            ),
{
    let now = now_millis();
    let res = check_signed_query_at(params, secret, now);
    assert(outcome_view(res) == signed_query_outcome(
        params@.timestamp,
        params@.signature,
        params@.pairs,
        secret@,
        now,
    ));
    res
}

/// A JSON body that arrived with a valid signature.
pub struct HmacJson<T>(pub T);

/// Query parameters that arrived with a valid signature.
pub struct HmacQuery<T>(pub T);

impl<T> HmacJson<T> {
    /// The authenticated value, by value.
    pub fn into_inner(self) -> (res: T)
        ensures
            res == self.0,
    {
        self.0
    }
}

impl<T> HmacQuery<T> {
    /// The authenticated value, by value.
    pub fn into_inner(self) -> (res: T)
        ensures
            res == self.0,
    {
        self.0
    }
}

} // verus!

verus! {

impl<T> std::ops::Deref for HmacJson<T> {
    type Target = T;

    fn deref(&self) -> (res: &T)
        ensures
            *res == self.0,
    {
        &self.0
    }
}

impl<T> std::ops::Deref for HmacQuery<T> {
    type Target = T;

    fn deref(&self) -> (res: &T)
        ensures
            *res == self.0,
    {
        &self.0
    }
}

} // verus!

verus! {

/// A body signed with the shared secret over `"<timestamp>.<body>"`, with a timestamp
/// within the window of the server clock, is accepted and handed on unchanged.
pub proof fn lemma_signed_body_accepted(
    timestamp: Seq<char>,
    body: Seq<u8>,
    secret: Seq<char>,
    now: i64,
)
    requires
        parse_i64_spec(timestamp) is Some,
        within_window(now as int, parse_i64_spec(timestamp)->0 as int),
        vstd::utf8::valid_utf8(body),
    ensures
        signed_body_outcome(
            Some(expected_signature(secret, signed_payload(timestamp, vstd::utf8::decode_utf8(body)))),
            Some(timestamp),
            body,
            secret,
            now,
        ) == Ok::<Seq<char>, AuthError>(vstd::utf8::decode_utf8(body)),
{
}

/// Any signature other than the expected one is refused, whatever the body.
pub proof fn lemma_forged_signature_refused(
    signature: Seq<char>,
    timestamp: Seq<char>,
    body: Seq<u8>,
    secret: Seq<char>,
    now: i64,
)
    requires
        parse_i64_spec(timestamp) is Some,
        within_window(now as int, parse_i64_spec(timestamp)->0 as int),
        vstd::utf8::valid_utf8(body),
        signature != expected_signature(secret, signed_payload(timestamp, vstd::utf8::decode_utf8(body))),
    ensures
        signed_body_outcome(Some(signature), Some(timestamp), body, secret, now) == Err::<
            Seq<char>,
            AuthError,
        >(AuthError::InvalidSignature),
{
}

/// A timestamp more than five minutes away from the server clock is refused, even
/// with a correct signature: signed requests cannot be replayed later.
pub proof fn lemma_stale_request_refused(
    signature: Seq<char>,
    timestamp: Seq<char>,
    body: Seq<u8>,
    secret: Seq<char>,
    now: i64,
)
    requires
        parse_i64_spec(timestamp) is Some,
        !within_window(now as int, parse_i64_spec(timestamp)->0 as int),
        vstd::utf8::valid_utf8(body),
    ensures
        signed_body_outcome(Some(signature), Some(timestamp), body, secret, now) == Err::<
            Seq<char>,
            AuthError,
        >(AuthError::TimestampOutsideWindow),
{
}

/// A query signed with the shared secret over `"<timestamp>.<canonical query>"`,
/// within the window, is accepted and yields the canonical query.
pub proof fn lemma_signed_query_accepted(
    timestamp: Seq<char>,
    pairs: Seq<(Seq<char>, Seq<char>)>,
    secret: Seq<char>,
    now: i64,
)
    requires
        parse_i64_spec(timestamp) is Some,
        within_window(now as int, parse_i64_spec(timestamp)->0 as int),
    ensures
        signed_query_outcome(
            timestamp,
            expected_signature(secret, signed_payload(timestamp, canonical_query_spec(pairs))),
            pairs,
            secret,
            now,
        ) == Ok::<Seq<char>, AuthError>(canonical_query_spec(pairs)),
{
}

/// Any query signature other than the expected one is refused.
pub proof fn lemma_forged_query_refused(
    timestamp: Seq<char>,
    signature: Seq<char>,
    pairs: Seq<(Seq<char>, Seq<char>)>,
    secret: Seq<char>,
    now: i64,
)
    requires
        parse_i64_spec(timestamp) is Some,
        within_window(now as int, parse_i64_spec(timestamp)->0 as int),
        signature != expected_signature(secret, signed_payload(timestamp, canonical_query_spec(pairs))),
    ensures
        signed_query_outcome(timestamp, signature, pairs, secret, now) == Err::<
            Seq<char>,
            AuthError,
        >(AuthError::InvalidSignature),
{
}

} // verus!

verus! {

proof fn lemma_ascending_is_determined(a: Seq<(Seq<char>, Seq<char>)>, b: Seq<(Seq<char>, Seq<char>)>)
    requires
        keys_ascend(a),
        keys_ascend(b),
        forall|x: (Seq<char>, Seq<char>)| a.contains(x) == b.contains(x),
    ensures
        a == b,
    decreases a.len(),
{
    if a.len() == 0 {
        if b.len() > 0 {
            assert(b.contains(b[0]));
        }
        assert(a =~= b);
    } else {
        assert(a.contains(a[0]));
        let j = choose|j: int| 0 <= j < b.len() && b[j] == a[0];
        assert(b.contains(b[0]));
        let i = choose|i: int| 0 <= i < a.len() && a[i] == b[0];
        if i > 0 && j > 0 {
            assert(key_less(a[0].0, a[i].0));
            assert(key_less(b[0].0, b[j].0));
            lemma_key_less_transitive(a[0].0, b[0].0, a[0].0);
            lemma_key_less_irreflexive(a[0].0);
        }
        assert(a[0] == b[0]);
        let a1 = a.drop_first();
        let b1 = b.drop_first();
        assert forall|x: (Seq<char>, Seq<char>)| a1.contains(x) == b1.contains(x) by {
            if a1.contains(x) {
                let k = choose|k: int| 0 <= k < a1.len() && a1[k] == x;
                assert(a[k + 1] == x);
                assert(key_less(a[0].0, a[k + 1].0));
                lemma_key_less_irreflexive(x.0);
                assert(b.contains(x));
                let m = choose|m: int| 0 <= m < b.len() && b[m] == x;
                assert(m != 0);
                assert(b1[m - 1] == x);
            }
            if b1.contains(x) {
                let k = choose|k: int| 0 <= k < b1.len() && b1[k] == x;
                assert(b[k + 1] == x);
                assert(key_less(b[0].0, b[k + 1].0));
                lemma_key_less_irreflexive(x.0);
                assert(a.contains(x));
                let m = choose|m: int| 0 <= m < a.len() && a[m] == x;
                assert(m != 0);
                assert(a1[m - 1] == x);
            }
        }
        assert forall|p: int, q: int| 0 <= p < q < a1.len() implies key_less(#[trigger] a1[p].0, #[trigger] a1[q].0) by {
            assert(key_less(a[p + 1].0, a[q + 1].0));
        }
        assert forall|p: int, q: int| 0 <= p < q < b1.len() implies key_less(#[trigger] b1[p].0, #[trigger] b1[q].0) by {
            assert(key_less(b[p + 1].0, b[q + 1].0));
        }
        lemma_ascending_is_determined(a1, b1);
        assert forall|k: int| 0 <= k < a.len() implies a[k] == b[k] by {
            if k > 0 {
                assert(a[k] == a1[k - 1]);
                assert(b[k] == b1[k - 1]);
            }
        }
        assert(a =~= b);
    }
}

/// Signing a query does not depend on the order of its parameters: two queries with
/// the same timestamp, signature and parameters, whatever order they came in, are
/// judged alike, since parameters are held in key order.
pub proof fn lemma_signed_query_order_independent(p: QueryView, q: QueryView, secret: Seq<char>, now: i64)
    requires
        keys_ascend(p.pairs),
        keys_ascend(q.pairs),
        p.timestamp == q.timestamp,
        p.signature == q.signature,
        forall|x: (Seq<char>, Seq<char>)| p.pairs.contains(x) == q.pairs.contains(x),
    ensures
        p.pairs == q.pairs,
        signed_query_outcome(p.timestamp, p.signature, p.pairs, secret, now) == signed_query_outcome(
            q.timestamp,
            q.signature,
            q.pairs,
            secret,
            now,
        ),
{
    lemma_ascending_is_determined(p.pairs, q.pairs);
}

} // verus!

verus! {

/// The canonical query: nothing for no pair, `key=value` for one, and every further
/// pair after exactly one `&`, for any number of pairs.
pub proof fn lemma_canonical_query_shape(pairs: Seq<(Seq<char>, Seq<char>)>, p: (Seq<char>, Seq<char>))
    ensures
        canonical_query_spec(Seq::empty()) == Seq::<char>::empty(),
        canonical_query_spec(seq![p]) == p.0 + seq!['='] + p.1,
        pairs.len() > 0 ==> canonical_query_spec(pairs.push(p)) == canonical_query_spec(pairs)
            + seq!['&'] + p.0 + seq!['='] + p.1,
{
    assert(seq![p].len() == 1);
    assert(pairs.push(p).drop_last() == pairs);
    let c = canonical_query_spec(pairs);
    assert(c + seq!['&'] + (p.0 + seq!['='] + p.1) =~= c + seq!['&'] + p.0 + seq!['='] + p.1);
}

/// The canonical query is the pairs, each as `key=value`, joined by `&`.
pub proof fn lemma_canonical_query_is_join(pairs: Seq<(Seq<char>, Seq<char>)>)
    ensures
        canonical_query_spec(pairs) == crate::text::join_spec(
            pairs.map_values(|p: (Seq<char>, Seq<char>)| p.0 + seq!['='] + p.1),
            seq!['&'],
        ),
    decreases pairs.len(),
{
    let f = |p: (Seq<char>, Seq<char>)| p.0 + seq!['='] + p.1;
    if pairs.len() > 1 {
        lemma_canonical_query_is_join(pairs.drop_last());
        assert(pairs.map_values(f).drop_last() == pairs.drop_last().map_values(f));
        assert(pairs.map_values(f).last() == f(pairs.last()));
    } else if pairs.len() == 1 {
        assert(pairs.map_values(f)[0] == f(pairs[0]));
    }
}

} // verus!

verus! {

/// The window is five minutes either way, bounds included: a correctly signed
/// request 300000 ms from the clock is accepted and one 300001 ms away is not.
pub proof fn lemma_window_is_five_minutes(timestamp: Seq<char>, data: Seq<char>, secret: Seq<char>, now: i64)
    requires
        parse_i64_spec(timestamp) is Some,
    ensures
        ({
            let t = parse_i64_spec(timestamp)->0 as int;
            let sig = expected_signature(secret, data);
            &&& (now - t == 300000 || t - now == 300000) ==> verify_hmac_outcome(
                sig,
                timestamp,
                data,
                secret,
                now,
            ) == Ok::<(), AuthError>(())
            &&& (now - t == 300001 || t - now == 300001) ==> verify_hmac_outcome(
                sig,
                timestamp,
                data,
                secret,
                now,
            ) == Err::<(), AuthError>(AuthError::TimestampOutsideWindow)
        }),
{
}

/// Every refusal is answered with status 401 and a text of its own, naming its cause.
pub proof fn lemma_refusal_texts()
    ensures
        AuthError::MissingSignature.message_spec() == "Missing x-signature header"@,
        AuthError::MissingTimestamp.message_spec() == "Missing x-timestamp header"@,
        AuthError::InvalidUtf8Body.message_spec() == "Invalid UTF-8 body"@,
        AuthError::InvalidQueryParams.message_spec() == "Missing or invalid HMAC query params"@,
        AuthError::InvalidTimestamp.message_spec() == "Invalid x-timestamp"@,
        AuthError::TimestampOutsideWindow.message_spec() == "Request timestamp outside of window"@,
        AuthError::InvalidSecret.message_spec() == "Invalid HMAC secret"@,
        AuthError::InvalidSignature.message_spec() == "Invalid HMAC signature"@,
        signing_secret_spec(None) == "default_secret"@,
        forall|s: Seq<char>| signing_secret_spec(Some(s)) == s,
{
}

/// The signed data is the timestamp, one dot, and the payload.
pub proof fn lemma_signed_payload_layout(timestamp: Seq<char>, payload: Seq<char>)
    ensures
        signed_payload(timestamp, payload).len() == timestamp.len() + 1 + payload.len(),
        signed_payload(timestamp, payload).subrange(0, timestamp.len() as int) == timestamp,
        signed_payload(timestamp, payload)[timestamp.len() as int] == '.',
        signed_payload(timestamp, payload).subrange(
            timestamp.len() as int + 1,
            signed_payload(timestamp, payload).len() as int,
        ) == payload,
{
    let s = signed_payload(timestamp, payload);
    assert(s.subrange(0, timestamp.len() as int) =~= timestamp);
    assert(s.subrange(timestamp.len() as int + 1, s.len() as int) =~= payload);
}

} // verus!

verus! {

/// Keys sort as text does: a key sorts before any longer key that it begins, and
/// otherwise by the first character in which they differ.
pub proof fn lemma_key_order_is_text_order(a: Seq<char>, b: Seq<char>, c: char, d: char)
    ensures
        key_less(a, a.push(c)),
        !key_less(a.push(c), a),
        (c as u32) < (d as u32) ==> key_less(a.push(c) + b, a.push(d)),
        (c as u32) < (d as u32) ==> !key_less(a.push(d), a.push(c) + b),
    decreases a.len(),
{
    if a.len() > 0 {
        lemma_key_order_is_text_order(a.drop_first(), b, c, d);
        assert(a.push(c).drop_first() == a.drop_first().push(c));
        assert(a.push(d).drop_first() == a.drop_first().push(d));
        assert((a.push(c) + b).drop_first() == a.drop_first().push(c) + b);
        assert(a.push(c)[0] == a[0]);
        assert(a.push(d)[0] == a[0]);
        assert((a.push(c) + b)[0] == a[0]);
    } else {
        assert(a.push(c)[0] == c);
        assert(a.push(d)[0] == d);
        assert((a.push(c) + b)[0] == c);
    }
}

} // verus!
