//! Small text utilities shared by the wire encoder and decoder.

use vstd::prelude::*;
use vstd::string::StrSliceExecFns;

verus! {

/// The JSON string literal that stands for `s`: quotes, escapes and all.
pub uninterp spec fn json_string_literal(s: Seq<char>) -> Seq<char>;

/// Relies on serde_json's `Display` for `Value::String`, which writes the text
/// as one JSON string literal, with quotes and escapes.
#[verifier::external_body]
pub(crate) fn quote(s: &str) -> (r: String)
    ensures
        r@ == json_string_literal(s@),
{
    serde_json::Value::String(s.to_owned()).to_string()
}

/// Whether two strings hold the same characters.
pub fn same_text(a: &str, b: &str) -> (r: bool)
    ensures
        r == (a@ == b@),
{
    let n = a.unicode_len();
    if n != b.unicode_len() {
        return false;
    }
    let mut i: usize = 0;
    while i < n
        invariant
            n == a@.len(),
            n == b@.len(),
            i <= n,
            a@.subrange(0, i as int) == b@.subrange(0, i as int),
        decreases n - i,
    {
        if a.get_char(i) != b.get_char(i) {
            assert(a@[i as int] != b@[i as int]);
            return false;
        }
        assert(a@.subrange(0, i + 1) == a@.subrange(0, i as int).push(a@[i as int]));
        assert(b@.subrange(0, i + 1) == b@.subrange(0, i as int).push(b@[i as int]));
        i = i + 1;
    }
    assert(a@ == a@.subrange(0, n as int));
    assert(b@ == b@.subrange(0, n as int));
    true
}

pub open spec fn is_digit(c: char) -> bool {
    '0' <= c && c <= '9'
}

pub open spec fn digit_value(c: char) -> nat {
    (c as u32 - '0' as u32) as nat
}

/// The number that a string of decimal digits stands for.
pub open spec fn digits_value(s: Seq<char>) -> nat
    decreases s.len(),
{
    if s.len() == 0 {
        0
    } else {
        digits_value(s.drop_last()) * 10 + digit_value(s.last())
    }
}

pub open spec fn all_digits(s: Seq<char>) -> bool {
    forall|i: int| 0 <= i < s.len() ==> is_digit(#[trigger] s[i])
}

/// The `u16` written in decimal by `s`, if `s` is one.
pub open spec fn decimal_u16(s: Seq<char>) -> Option<u16> {
    if s.len() > 0 && all_digits(s) && digits_value(s) <= 65535 {
        Some(digits_value(s) as u16)
    } else {
        None
    }
}

proof fn lemma_digits_value_grows(s: Seq<char>, i: int, j: int)
    requires
        0 <= i <= j <= s.len(),
    ensures
        digits_value(s.subrange(0, i)) <= digits_value(s.subrange(0, j)),
    decreases j - i,
{
    if i < j {
        lemma_digits_value_grows(s, i, j - 1);
        assert(s.subrange(0, j).drop_last() == s.subrange(0, j - 1));
    }
}

/// Reads a `u16` written in decimal digits, as a JSON number holds it.
pub fn parse_decimal_u16(s: &str) -> (r: Option<u16>)
    ensures
        r == decimal_u16(s@),
{
    let n = s.unicode_len();
    let mut value: u32 = 0;
    let mut i: usize = 0;
    while i < n
        invariant
            n == s@.len(),
            i <= n,
            all_digits(s@.subrange(0, i as int)),
            value == digits_value(s@.subrange(0, i as int)),
            value <= 65535,
        decreases n - i,
    {
        let c = s.get_char(i);
        if !('0' <= c && c <= '9') {
            assert(!is_digit(s@[i as int]));
            return None;
        }
        let d = (c as u32) - ('0' as u32);
        assert(s@.subrange(0, i + 1).drop_last() == s@.subrange(0, i as int));
        let next = value * 10 + d;
        if next > 65535 {
            proof {
                lemma_digits_value_grows(s@, i + 1, n as int);
                assert(s@ == s@.subrange(0, n as int));
            }
            return None;
        }
        value = next;
        i = i + 1;
        assert forall|k: int| 0 <= k < i implies is_digit(#[trigger] s@.subrange(0, i as int)[k]) by {
            if k < i - 1 {
                assert(s@.subrange(0, i as int)[k] == s@.subrange(0, i - 1)[k]);
            }
        }
    }
    assert(s@ == s@.subrange(0, n as int));
    if n == 0 {
        None
    } else {
        Some(value as u16)
    }
}

} // verus!
