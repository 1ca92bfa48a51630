//! The grammar of an email address: `local@domain`, where the local part is a
//! dot-separated run of RFC 5322 `atext` characters and the domain is a
//! dot-separated run of labels made of letters, digits and inner hyphens.

use vstd::prelude::*;
use vstd::string::StrSliceExecFns;

verus! {

pub open spec fn is_alnum(c: char) -> bool {
    ('a' <= c && c <= 'z') || ('A' <= c && c <= 'Z') || ('0' <= c && c <= '9')
}

/// A character that may stand in the local part, besides the dot.
pub open spec fn is_atext(c: char) -> bool {
    is_alnum(c) || c == '!' || c == '#' || c == '$' || c == '%' || c == '&' || c == '\''
        || c == '*' || c == '+' || c == '-' || c == '/' || c == '=' || c == '?' || c == '^'
        || c == '_' || c == '`' || c == '{' || c == '|' || c == '}' || c == '~'
}

/// A character that may stand in a domain label.
pub open spec fn is_label_char(c: char) -> bool {
    is_alnum(c) || c == '-'
}

/// Non-empty, neither starts nor ends with a dot, and holds no two dots in a row.
pub open spec fn dots_well_placed(s: Seq<char>) -> bool {
    &&& s.len() > 0
    &&& s[0] != '.'
    &&& s[s.len() - 1] != '.'
    &&& forall|i: int| 0 <= i < s.len() - 1 ==> !(#[trigger] s[i] == '.' && s[i + 1] == '.')
}

pub open spec fn is_local_part(s: Seq<char>) -> bool {
    &&& dots_well_placed(s)
    &&& forall|i: int| 0 <= i < s.len() ==> is_atext(#[trigger] s[i]) || s[i] == '.'
}

/// A hyphen never begins or ends a label.
pub open spec fn hyphens_inside_labels(s: Seq<char>) -> bool {
    forall|i: int|
        0 <= i < s.len() && #[trigger] s[i] == '-' ==> 0 < i < s.len() - 1 && s[i - 1] != '.'
            && s[i + 1] != '.'
}

pub open spec fn is_domain(s: Seq<char>) -> bool {
    &&& dots_well_placed(s)
    &&& forall|i: int| 0 <= i < s.len() ==> is_label_char(#[trigger] s[i]) || s[i] == '.'
    &&& hyphens_inside_labels(s)
}

/// A syntactically valid email address.
pub open spec fn is_valid_address(s: Seq<char>) -> bool {
    exists|k: int|
        0 <= k < s.len() && #[trigger] s[k] == '@' && is_local_part(s.subrange(0, k))
            && is_domain(s.subrange(k + 1, s.len() as int))
}

fn is_alnum_char(c: char) -> (r: bool)
    ensures
        r == is_alnum(c),
{
    ('a' <= c && c <= 'z') || ('A' <= c && c <= 'Z') || ('0' <= c && c <= '9')
}

fn is_atext_char(c: char) -> (r: bool)
    ensures
        r == is_atext(c),
{
    is_alnum_char(c) || c == '!' || c == '#' || c == '$' || c == '%' || c == '&' || c == '\''
        || c == '*' || c == '+' || c == '-' || c == '/' || c == '=' || c == '?' || c == '^'
        || c == '_' || c == '`' || c == '{' || c == '|' || c == '}' || c == '~'
}

/// Checks `s[lo..hi]` against the local-part grammar (`domain` false) or the
/// domain grammar (`domain` true).
fn check_segment(s: &str, lo: usize, hi: usize, domain: bool) -> (r: bool)
    requires
        lo <= hi <= s@.len(),
    ensures
        r == if domain {
            is_domain(s@.subrange(lo as int, hi as int))
        } else {
            is_local_part(s@.subrange(lo as int, hi as int))
        },
{
    let ghost t = s@.subrange(lo as int, hi as int);
    if lo == hi {
        return false;
    }
    let mut i: usize = lo;
    let mut prev: char = '.';
    while i < hi
        invariant
            lo <= i <= hi <= s@.len(),
            lo < hi,
            t == s@.subrange(lo as int, hi as int),
            i == lo ==> prev == '.',
            i > lo ==> prev == t[i - lo - 1],
            t[0] != '.' || i == lo,
            forall|j: int| 0 <= j < i - lo ==> (if domain {
                is_label_char(#[trigger] t[j])
            } else {
                is_atext(t[j])
            }) || t[j] == '.',
            forall|j: int| 0 <= j < i - lo - 1 ==> !(#[trigger] t[j] == '.' && t[j + 1] == '.'),
            domain ==> forall|j: int|
                0 <= j < i - lo && #[trigger] t[j] == '-' ==> 0 < j && t[j - 1] != '.' && (j
                    + 1 < i - lo ==> t[j + 1] != '.'),
            domain && i > lo && prev == '-' ==> i - lo - 1 > 0,
        decreases hi - i,
    {
        let c = s.get_char(i);
        assert(c == t[i - lo]);
        if c == '.' {
            if prev == '.' {
                if i > lo {
                    assert(t[i - lo - 1] == '.' && t[i - lo] == '.');
                }
                return false;
            }
            if domain && prev == '-' {
                assert(t[i - lo - 1] == '-');
                return false;
            }
        } else if domain {
            if !(is_alnum_char(c) || c == '-') {
                assert(!(is_label_char(t[i - lo]) || t[i - lo] == '.'));
                return false;
            }
            if c == '-' && prev == '.' {
                if i == lo {
                    assert(t[0] == '-');
                } else {
                    assert(t[i - lo - 1] == '.');
                }
                return false;
            }
        } else if !is_atext_char(c) {
            assert(!(is_atext(t[i - lo]) || t[i - lo] == '.'));
            return false;
        }
        prev = c;
        i = i + 1;
    }
    if prev == '.' {
        assert(t[t.len() - 1] == '.');
        return false;
    }
    if domain && prev == '-' {
        assert(t[t.len() - 1] == '-');
        return false;
    }
    true
}

/// Whether `s` is a syntactically valid email address.
pub fn is_valid_email_address(s: &str) -> (r: bool)
    ensures
        r == is_valid_address(s@),
{
    let n = s.unicode_len();
    let mut k: usize = 0;
    while k < n && s.get_char(k) != '@'
        invariant
            n == s@.len(),
            k <= n,
            forall|j: int| 0 <= j < k ==> s@[j] != '@',
        decreases n - k,
    {
        k = k + 1;
    }
    if k == n {
        return false;
    }
    assert(s@[k as int] == '@');
    let local_ok = check_segment(s, 0, k, false);
    let domain_ok = check_segment(s, k + 1, n, true);
    proof {
        if !(local_ok && domain_ok) && is_valid_address(s@) {
            let k2 = choose|k2: int|
                0 <= k2 < s@.len() && #[trigger] s@[k2] == '@' && is_local_part(
                    s@.subrange(0, k2),
                ) && is_domain(s@.subrange(k2 + 1, s@.len() as int));
            if k2 > k {
                assert(s@.subrange(0, k2)[k as int] == '@');
            }
            assert(k2 == k);
        }
    }
    local_ok && domain_ok
}

} // verus!
