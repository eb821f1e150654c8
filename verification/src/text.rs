//! Character-level string helpers with exact specifications.

use vstd::prelude::*;

verus! {

/// Appends one character to a `String` (`String::push`).
#[verifier::external_body]
pub(crate) fn push_char(s: &mut String, c: char)
    ensures
        final(s)@ == old(s)@.push(c),
{
    s.push(c);
}

/// The characters of `s`, in order.
pub fn chars_of(s: &str) -> (res: Vec<char>)
    ensures
        res@ == s@,
{
    let mut res: Vec<char> = Vec::new();
    for c in it: s.chars()
        invariant
            res@ == it.seq().take(it.index() as int),
            it.seq() == s@,
    {
        res.push(c);
    }
    assert(res@ == s@.take(s@.len() as int));
    res
}

} // verus!

verus! {

/// Rust's `char::is_whitespace`: the Unicode `White_Space` property.
pub open spec fn is_ws(c: char) -> bool {
    let u = c as u32;
    ||| 0x09 <= u <= 0x0d
    ||| u == 0x20
    ||| u == 0x85
    ||| u == 0xa0
    ||| u == 0x1680
    ||| 0x2000 <= u <= 0x200a
    ||| u == 0x2028
    ||| u == 0x2029
    ||| u == 0x202f
    ||| u == 0x205f
    ||| u == 0x3000
}

/// `s` without its leading whitespace.
pub open spec fn trim_start_spec(s: Seq<char>) -> Seq<char>
    decreases s.len(),
{
    if s.len() > 0 && is_ws(s[0]) {
        trim_start_spec(s.drop_first())
    } else {
        s
    }
}

/// `s` without its trailing whitespace.
pub open spec fn trim_end_spec(s: Seq<char>) -> Seq<char>
    decreases s.len(),
{
    if s.len() > 0 && is_ws(s.last()) {
        trim_end_spec(s.drop_last())
    } else {
        s
    }
}

/// `str::trim`: `s` without leading and trailing whitespace.
pub open spec fn trim_spec(s: Seq<char>) -> Seq<char> {
    trim_end_spec(trim_start_spec(s))
}

/// Whether every character of `s` is whitespace.
pub open spec fn all_ws(s: Seq<char>) -> bool {
    forall|i: int| 0 <= i < s.len() ==> is_ws(#[trigger] s[i])
}

/// Decides `is_ws`.
pub fn is_whitespace(c: char) -> (res: bool)
    ensures
        res == is_ws(c),
{
    let u = c as u32;
    (0x09 <= u && u <= 0x0d) || u == 0x20 || u == 0x85 || u == 0xa0 || u == 0x1680 || (0x2000 <= u
        && u <= 0x200a) || u == 0x2028 || u == 0x2029 || u == 0x202f || u == 0x205f || u == 0x3000
}

/// The string made of `v[lo..hi]`.
pub fn string_of(v: &Vec<char>, lo: usize, hi: usize) -> (res: String)
    requires
        lo <= hi <= v.len(),
    ensures
        res@ == v@.subrange(lo as int, hi as int),
{
    let mut res = String::new();
    let mut k = lo;
    while k < hi
        invariant
            lo <= k <= hi <= v.len(),
            res@ == v@.subrange(lo as int, k as int),
        decreases hi - k,
    {
        push_char(&mut res, v[k]);
        assert(v@.subrange(lo as int, k + 1) == v@.subrange(lo as int, k as int).push(v@[k as int]));
        k = k + 1;
    }
    res
}

proof fn lemma_trim_start_skip(s: Seq<char>, i: int)
    requires
        0 <= i <= s.len(),
        forall|k: int| 0 <= k < i ==> is_ws(#[trigger] s[k]),
    ensures
        trim_start_spec(s) == trim_start_spec(s.subrange(i, s.len() as int)),
    decreases i,
{
    if i > 0 {
        assert(is_ws(s[0]));
        assert(s.drop_first() == s.subrange(1, s.len() as int));
        lemma_trim_start_skip(s.drop_first(), i - 1);
        assert(s.drop_first().subrange(i - 1, s.drop_first().len() as int) == s.subrange(
            i,
            s.len() as int,
        ));
    } else {
        assert(s.subrange(0, s.len() as int) == s);
    }
}

proof fn lemma_trim_end_skip(s: Seq<char>, j: int)
    requires
        0 <= j <= s.len(),
        forall|k: int| j <= k < s.len() ==> is_ws(#[trigger] s[k]),
    ensures
        trim_end_spec(s) == trim_end_spec(s.subrange(0, j)),
    decreases s.len() - j,
{
    if j < s.len() {
        assert(s.drop_last() == s.subrange(0, s.len() - 1));
        lemma_trim_end_skip(s.drop_last(), j);
        assert(s.drop_last().subrange(0, j) == s.subrange(0, j));
    } else {
        assert(s.subrange(0, j) == s);
    }
}

/// `str::trim`.
pub fn trim(s: &str) -> (res: String)
    ensures
        res@ == trim_spec(s@),
{
    let v = chars_of(s);
    let n = v.len();
    let mut i: usize = 0;
    while i < n && is_whitespace(v[i])
        invariant
            i <= n == v@.len(),
            forall|k: int| 0 <= k < i ==> is_ws(#[trigger] v@[k]),
        decreases n - i,
    {
        i = i + 1;
    }
    proof {
        lemma_trim_start_skip(v@, i as int);
    }
    let ghost t = v@.subrange(i as int, n as int);
    assert(trim_start_spec(t) == t);
    let mut j: usize = n;
    while j > i && is_whitespace(v[j - 1])
        invariant
            i <= j <= n == v@.len(),
            t == v@.subrange(i as int, n as int),
            forall|k: int| j <= k < n ==> is_ws(#[trigger] v@[k]),
        decreases j,
    {
        j = j - 1;
    }
    proof {
        assert forall|k: int| j - i <= k < t.len() implies is_ws(#[trigger] t[k]) by {
            assert(t[k] == v@[k + i]);
        }
        lemma_trim_end_skip(t, j - i);
        assert(t.subrange(0, j - i) == v@.subrange(i as int, j as int));
    }
    string_of(&v, i, j)
}

} // verus!

verus! {

proof fn lemma_trim_start_shape(s: Seq<char>)
    ensures
        exists|k: int|
            0 <= k <= s.len() && trim_start_spec(s) == s.subrange(k, s.len() as int) && (forall|
                i: int,
            | 0 <= i < k ==> is_ws(#[trigger] s[i])) && (k < s.len() ==> !is_ws(s[k])),
    decreases s.len(),
{
    if s.len() > 0 && is_ws(s[0]) {
        lemma_trim_start_shape(s.drop_first());
        let k = choose|k: int|
            0 <= k <= s.drop_first().len() && trim_start_spec(s.drop_first())
                == s.drop_first().subrange(k, s.drop_first().len() as int) && (forall|i: int|
                0 <= i < k ==> is_ws(#[trigger] s.drop_first()[i])) && (k < s.drop_first().len()
                ==> !is_ws(s.drop_first()[k]));
        assert(s.drop_first().subrange(k, s.drop_first().len() as int) == s.subrange(
            k + 1,
            s.len() as int,
        ));
        assert forall|i: int| 0 <= i < k + 1 implies is_ws(#[trigger] s[i]) by {
            if i > 0 {
                assert(s[i] == s.drop_first()[i - 1]);
            }
        }
    } else {
        assert(s.subrange(0, s.len() as int) == s);
    }
}

proof fn lemma_trim_end_shape(s: Seq<char>)
    ensures
        exists|m: int|
            0 <= m <= s.len() && trim_end_spec(s) == s.subrange(0, m) && (forall|i: int|
                m <= i < s.len() ==> is_ws(#[trigger] s[i])) && (m > 0 ==> !is_ws(s[m - 1])),
    decreases s.len(),
{
    if s.len() > 0 && is_ws(s.last()) {
        lemma_trim_end_shape(s.drop_last());
        let m = choose|m: int|
            0 <= m <= s.drop_last().len() && trim_end_spec(s.drop_last())
                == s.drop_last().subrange(0, m) && (forall|i: int|
                m <= i < s.drop_last().len() ==> is_ws(#[trigger] s.drop_last()[i])) && (m > 0
                ==> !is_ws(s.drop_last()[m - 1]));
        assert(s.drop_last().subrange(0, m) == s.subrange(0, m));
        assert forall|i: int| m <= i < s.len() implies is_ws(#[trigger] s[i]) by {
            if i < s.len() - 1 {
                assert(s[i] == s.drop_last()[i]);
            }
        }
    } else {
        assert(s.subrange(0, s.len() as int) == s);
    }
}

/// A string trims to nothing exactly when every character of it is whitespace.
pub proof fn lemma_trim_empty_iff_all_ws(s: Seq<char>)
    ensures
        (trim_spec(s).len() == 0) == all_ws(s),
{
    lemma_trim_start_shape(s);
    let k = choose|k: int|
        0 <= k <= s.len() && trim_start_spec(s) == s.subrange(k, s.len() as int) && (forall|i: int|
            0 <= i < k ==> is_ws(#[trigger] s[i])) && (k < s.len() ==> !is_ws(s[k]));
    let t = trim_start_spec(s);
    lemma_trim_end_shape(t);
    let m = choose|m: int|
        0 <= m <= t.len() && trim_end_spec(t) == t.subrange(0, m) && (forall|i: int|
            m <= i < t.len() ==> is_ws(#[trigger] t[i])) && (m > 0 ==> !is_ws(t[m - 1]));
    if k < s.len() {
        assert(t[0] == s[k]);
        if m == 0 {
            assert(is_ws(t[0]));
        }
        assert(!is_ws(s[k]));
    } else {
        assert(t.len() == 0);
    }
}

/// Whether `s` holds nothing but whitespace (`s.trim().is_empty()`).
pub fn is_blank(s: &str) -> (res: bool)
    ensures
        res == (trim_spec(s@).len() == 0),
        res == all_ws(s@),
{
    proof {
        lemma_trim_empty_iff_all_ws(s@);
    }
    let v = chars_of(s);
    let mut i: usize = 0;
    while i < v.len()
        invariant
            i <= v@.len(),
            v@ == s@,
            forall|k: int| 0 <= k < i ==> is_ws(#[trigger] v@[k]),
        decreases v.len() - i,
    {
        if !is_whitespace(v[i]) {
            assert(!is_ws(s@[i as int]));
            proof {
                lemma_trim_empty_iff_all_ws(s@);
            }
            return false;
        }
        i = i + 1;
    }
    true
}

} // verus!

verus! {

/// `std::str::from_utf8(bytes).ok()`. Claimed, as std documents it: `Some` exactly
/// when `bytes` is well-formed UTF-8, and then the string's UTF-8 encoding is `bytes`.
#[verifier::external_body]
pub(crate) fn utf8_str(bytes: &[u8]) -> (res: Option<&str>)
    ensures
        res is Some <==> vstd::utf8::valid_utf8(bytes@),
        res matches Some(s) ==> vstd::utf8::encode_utf8(s@) == bytes@,
{
    std::str::from_utf8(bytes).ok()
}

/// Two strings are equal exactly when their UTF-8 encodings are.
pub proof fn lemma_utf8_injective(a: Seq<char>, b: Seq<char>)
    ensures
        (vstd::utf8::encode_utf8(a) == vstd::utf8::encode_utf8(b)) == (a == b),
{
    vstd::utf8::encode_utf8_decode_utf8(a);
    vstd::utf8::encode_utf8_decode_utf8(b);
}

} // verus!

verus! {

/// `items` joined by `sep` (`[String]::join`).
pub open spec fn join_spec(items: Seq<Seq<char>>, sep: Seq<char>) -> Seq<char>
    decreases items.len(),
{
    if items.len() == 0 {
        Seq::empty()
    } else if items.len() == 1 {
        items[0]
    } else {
        join_spec(items.drop_last(), sep) + sep + items.last()
    }
}

} // verus!

verus! {

/// Trimming splits a string into leading whitespace, the trimmed text, and trailing
/// whitespace: the trimmed text is a middle piece of `s`, everything cut off is
/// whitespace, and it neither starts nor ends with whitespace.
pub proof fn lemma_trim_characterized(s: Seq<char>)
    ensures
        exists|i: int, j: int|
            0 <= i <= j <= s.len() && trim_spec(s) == s.subrange(i, j) && (forall|k: int|
                0 <= k < i ==> is_ws(#[trigger] s[k])) && (forall|k: int|
                j <= k < s.len() ==> is_ws(#[trigger] s[k])) && (i < j ==> !is_ws(s[i]) && !is_ws(
                s[j - 1],
            )),
{
    lemma_trim_start_shape(s);
    let i = choose|k: int|
        0 <= k <= s.len() && trim_start_spec(s) == s.subrange(k, s.len() as int) && (forall|x: int|
            0 <= x < k ==> is_ws(#[trigger] s[x])) && (k < s.len() ==> !is_ws(s[k]));
    let t = trim_start_spec(s);
    lemma_trim_end_shape(t);
    let m = choose|m: int|
        0 <= m <= t.len() && trim_end_spec(t) == t.subrange(0, m) && (forall|x: int|
            m <= x < t.len() ==> is_ws(#[trigger] t[x])) && (m > 0 ==> !is_ws(t[m - 1]));
    let j = i + m;
    assert(t.subrange(0, m) == s.subrange(i, j));
    assert forall|k: int| j <= k < s.len() implies is_ws(#[trigger] s[k]) by {
        assert(s[k] == t[k - i]);
    }
    if i < j {
        assert(s[j - 1] == t[m - 1]);
    }
    assert(0 <= i <= j <= s.len() && trim_spec(s) == s.subrange(i, j) && (forall|k: int|
        0 <= k < i ==> is_ws(#[trigger] s[k])) && (forall|k: int|
        j <= k < s.len() ==> is_ws(#[trigger] s[k])) && (i < j ==> !is_ws(s[i]) && !is_ws(
        s[j - 1],
    )));
}

/// A string that neither starts nor ends with whitespace is left as it is by trimming.
pub proof fn lemma_trim_keeps_clean_text(s: Seq<char>)
    requires
        s.len() == 0 || (!is_ws(s[0]) && !is_ws(s.last())),
    ensures
        trim_spec(s) == s,
{
    assert(trim_start_spec(s) == s);
}

/// Joining: nothing for no items, the item itself for one, and each further item
/// after exactly one separator.
pub proof fn lemma_join_shape(items: Seq<Seq<char>>, x: Seq<char>, sep: Seq<char>)
    ensures
        join_spec(Seq::empty(), sep) == Seq::<char>::empty(),
        join_spec(seq![x], sep) == x,
        items.len() > 0 ==> join_spec(items.push(x), sep) == join_spec(items, sep) + sep + x,
{
    assert(seq![x].len() == 1);
    assert(items.push(x).drop_last() == items);
}

} // verus!

verus! {

/// Whitespace is the Unicode `White_Space` set: tab through carriage return, space,
/// next line, no-break space, ogham space mark, the en quad through the hair space,
/// the line and paragraph separators, the narrow no-break space, the medium
/// mathematical space and the ideographic space; letters, digits and the zero-width
/// space are not whitespace.
pub proof fn lemma_whitespace_set()
    ensures
        is_ws('\t') && is_ws('\n') && is_ws('\u{0b}') && is_ws('\u{0c}') && is_ws('\r'),
        is_ws(' ') && is_ws('\u{85}') && is_ws('\u{a0}') && is_ws('\u{1680}'),
        is_ws('\u{2000}') && is_ws('\u{2005}') && is_ws('\u{200a}'),
        is_ws('\u{2028}') && is_ws('\u{2029}') && is_ws('\u{202f}') && is_ws('\u{205f}') && is_ws(
            '\u{3000}',
        ),
        !is_ws('a') && !is_ws('0') && !is_ws('\u{08}') && !is_ws('\u{0e}') && !is_ws('\u{200b}')
            && !is_ws('\u{1f}') && !is_ws('\u{2030}') && !is_ws('\u{feff}'),
{
}

} // verus!
