//! Decimal integer parsing with the semantics of `str::parse::<i64>`.

use vstd::prelude::*;
use crate::text::chars_of;

verus! {

/// An ASCII decimal digit.
pub open spec fn is_digit(c: char) -> bool {
    '0' <= c <= '9'
}

/// Whether every character of `s` is an ASCII decimal digit.
pub open spec fn all_digits(s: Seq<char>) -> bool {
    forall|i: int| 0 <= i < s.len() ==> is_digit(#[trigger] s[i])
}

/// The value of a sequence of decimal digits, most significant first.
pub open spec fn digits_value(s: Seq<char>) -> nat
    decreases s.len(),
{
    if s.len() == 0 {
        0
    } else {
        digits_value(s.drop_last()) * 10 + ((s.last() as u32) - ('0' as u32)) as nat
    }
}

/// The value of an optionally signed decimal numeral, before any range check:
/// `None` when `s` is empty, a bare sign, or holds a character that is not a digit
/// after the optional leading `+` or `-`.
pub open spec fn signed_numeral_value(s: Seq<char>) -> Option<int> {
    let negative = s.len() > 0 && s[0] == '-';
    let body = if s.len() > 0 && (s[0] == '-' || s[0] == '+') {
        s.drop_first()
    } else {
        s
    };
    if body.len() == 0 || !all_digits(body) {
        None
    } else if negative {
        Some(-(digits_value(body) as int))
    } else {
        Some(digits_value(body) as int)
    }
}

/// `str::parse::<i64>`: the numeral's value when it is well formed and fits in an `i64`.
pub open spec fn parse_i64_spec(s: Seq<char>) -> Option<i64> {
    match signed_numeral_value(s) {
        Some(v) => if i64::MIN <= v <= i64::MAX {
            Some(v as i64)
        } else {
            None
        },
        None => None,
    }
}

proof fn lemma_digits_value_prefix(s: Seq<char>, k: int)
    requires
        0 <= k <= s.len(),
        all_digits(s),
    ensures
        digits_value(s.take(k)) <= digits_value(s),
    decreases s.len(),
{
    if k < s.len() {
        assert(s.drop_last().take(k) == s.take(k));
        assert(is_digit(s.last()));
        lemma_digits_value_prefix(s.drop_last(), k);
    } else {
        assert(s.take(k) == s);
    }
}

/// Parses an optionally signed decimal `i64`, as `str::parse::<i64>` does.
pub fn parse_i64(s: &str) -> (res: Option<i64>)
    ensures
        res == parse_i64_spec(s@),
{
    let v = chars_of(s);
    let n = v.len();
    let negative = n > 0 && v[0] == '-';
    let start: usize = if n > 0 && (v[0] == '-' || v[0] == '+') {
        1
    } else {
        0
    };
    let ghost body = v@.subrange(start as int, n as int);
    assert(body == (if s@.len() > 0 && (s@[0] == '-' || s@[0] == '+') {
        s@.drop_first()
    } else {
        s@
    }));
    if start == n {
        return None;
    }
    let bound: u128 = 9223372036854775808;
    let mut mag: u128 = 0;
    let mut i: usize = start;
    while i < n
        invariant
            start <= i <= n == v@.len(),
            body == v@.subrange(start as int, n as int),
            all_digits(body.take(i - start)),
            mag == digits_value(body.take(i - start)),
            mag <= bound,
            bound == 9223372036854775808,
            v@ == s@,
            body == (if s@.len() > 0 && (s@[0] == '-' || s@[0] == '+') {
                s@.drop_first()
            } else {
                s@
            }),
        decreases n - i,
    {
        let c = v[i];
        if !('0' <= c && c <= '9') {
            assert(body[i - start] == c);
            return None;
        }
        let d = (c as u32) - ('0' as u32);
        assert(body.take(i - start + 1).drop_last() == body.take(i - start));
        assert(body.take(i - start + 1).last() == c);
        mag = mag * 10 + d as u128;
        assert forall|k: int| 0 <= k < i - start + 1 implies is_digit(
            #[trigger] body.take(i - start + 1)[k],
        ) by {
            if k < i - start {
                assert(body.take(i - start + 1)[k] == body.take(i - start)[k]);
            }
        }
        i = i + 1;
        if mag > bound {
            proof {
                if all_digits(body) {
                    lemma_digits_value_prefix(body, i - start);
                }
            }
            return None;
        }
    }
    assert(body.take(n - start) == body);
    if negative {
        if mag == bound {
            Some(-9223372036854775807i64 - 1)
        } else {
            Some(-(mag as i64))
        }
    } else if mag == bound {
        None
    } else {
        Some(mag as i64)
    }
}

} // verus!

verus! {

/// A numeral is an optional sign then at least one digit: nothing, a bare sign, or a
/// character other than a digit after the sign parses to nothing; digits read most
/// significant first, each shifting the value by one decimal place; `+` keeps the
/// value, `-` negates it, and a value beyond the `i64` range parses to nothing.
pub proof fn lemma_parse_i64_reads_numerals(digits: Seq<char>, c: char)
    ensures
        parse_i64_spec(Seq::empty()) is None,
        parse_i64_spec(seq!['-']) is None,
        parse_i64_spec(seq!['+']) is None,
        is_digit(c) ==> digits_value(digits.push(c)) == 10 * digits_value(digits) + (c as int - 48),
        !is_digit(c) && c != '-' && c != '+' ==> parse_i64_spec(digits.push(c)) is None,
        all_digits(digits) && digits.len() > 0 && digits_value(digits) <= i64::MAX ==> {
            &&& parse_i64_spec(digits) == Some(digits_value(digits) as i64)
            &&& parse_i64_spec(seq!['+'] + digits) == Some(digits_value(digits) as i64)
            &&& parse_i64_spec(seq!['-'] + digits) == Some((-(digits_value(digits) as int)) as i64)
        },
        all_digits(digits) && digits.len() > 0 && digits_value(digits) > i64::MAX + 1 ==> {
            &&& parse_i64_spec(digits) is None
            &&& parse_i64_spec(seq!['-'] + digits) is None
        },
{
    assert(seq!['-'].drop_first().len() == 0);
    assert(seq!['+'].drop_first().len() == 0);
    assert(digits.push(c).drop_last() == digits);
    if !is_digit(c) && c != '-' && c != '+' {
        let s = digits.push(c);
        if s.len() > 0 && (s[0] == '-' || s[0] == '+') {
            assert(s.drop_first()[s.len() - 2] == c);
        } else {
            assert(s[s.len() - 1] == c);
        }
    }
    if all_digits(digits) && digits.len() > 0 {
        assert(is_digit(digits[0]));
        assert((seq!['+'] + digits).drop_first() == digits);
        assert((seq!['-'] + digits).drop_first() == digits);
        assert((seq!['+'] + digits)[0] == '+');
        assert((seq!['-'] + digits)[0] == '-');
    }
}

} // verus!
