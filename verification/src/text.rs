//! Small verified text utilities: decimal parsing for configuration
//! overrides and substring search for failure-message classification.

use vstd::prelude::*;
use vstd::string::StrSliceExecFns;

verus! {

pub open spec fn is_digit(c: char) -> bool {
    48 <= c as u32 <= 57
}

pub open spec fn all_digits(s: Seq<char>) -> bool {
    forall|i: int| 0 <= i < s.len() ==> is_digit(#[trigger] s[i])
}

pub open spec fn digit_val(c: char) -> int {
    c as u32 - 48
}

/// The value of a digit string read in base 10.
pub open spec fn decimal_value(s: Seq<char>) -> int
    decreases s.len(),
{
    if s.len() == 0 {
        0
    } else {
        decimal_value(s.drop_last()) * 10 + digit_val(s.last())
    }
}

proof fn lemma_decimal_value_nonneg(s: Seq<char>)
    requires
        all_digits(s),
    ensures
        decimal_value(s) >= 0,
    decreases s.len(),
{
    if s.len() > 0 {
        lemma_decimal_value_nonneg(s.drop_last());
    }
}

/// A digit string is worth at least any of its prefixes.
proof fn lemma_decimal_value_prefix_le(s: Seq<char>, i: int)
    requires
        all_digits(s),
        0 <= i <= s.len(),
    ensures
        decimal_value(s.take(i)) <= decimal_value(s),
    decreases s.len(),
{
    if i == s.len() {
        assert(s.take(i) =~= s);
    } else {
        assert(s.drop_last().take(i) =~= s.take(i));
        lemma_decimal_value_prefix_le(s.drop_last(), i);
        lemma_decimal_value_nonneg(s.drop_last());
    }
}

/// Parse a string as an unsigned decimal integer. Returns the value exactly
/// when the string is a nonempty run of ASCII digits whose value fits;
/// anything else is rejected.
pub fn parse_u64(s: &str) -> (r: Option<u64>)
    ensures
        match r {
            Some(v) => s@.len() > 0 && all_digits(s@) && v == decimal_value(s@),
            None => s@.len() == 0 || !all_digits(s@) || decimal_value(s@) > u64::MAX,
        },
{
    let n = s.unicode_len();
    if n == 0 {
        return None;
    }
    let mut acc: u64 = 0;
    let mut i: usize = 0;
    while i < n
        invariant
            n == s@.len(),
            0 <= i <= n,
            all_digits(s@.take(i as int)),
            acc == decimal_value(s@.take(i as int)),
        decreases n - i,
    {
        let c = s.get_char(i);
        let u = c as u32;
        let ghost pre = s@.take(i as int);
        let ghost post = s@.take(i + 1 as int);
        proof {
            assert(post.drop_last() =~= pre);
            assert(post.last() == s@[i as int]);
        }
        if u < 48 || u > 57 {
            return None;
        }
        let d = (u - 48) as u64;
        let next: Option<u64> = match acc.checked_mul(10) {
            Some(p) => p.checked_add(d),
            None => None,
        };
        match next {
            Some(v) => {
                acc = v;
            },
            None => {
                proof {
                    assert(decimal_value(post) > u64::MAX);
                    if all_digits(s@) {
                        lemma_decimal_value_prefix_le(s@, i + 1);
                    }
                }
                return None;
            },
        }
        i = i + 1;
    }
    proof {
        assert(s@.take(n as int) =~= s@);
    }
    Some(acc)
}

/// The needle occurs in `h` starting at position `k`.
pub open spec fn match_at(h: Seq<char>, needle: Seq<char>, k: int) -> bool {
    forall|j: int| 0 <= j < needle.len() ==> h[k + j] == #[trigger] needle[j]
}

/// The needle occurs somewhere in `h`.
pub open spec fn contains_seq(h: Seq<char>, needle: Seq<char>) -> bool {
    exists|k: int| 0 <= k <= h.len() - needle.len() && #[trigger] match_at(h, needle, k)
}

fn matches_at(hay: &str, needle: &str, k: usize) -> (m: bool)
    requires
        k + needle@.len() <= hay@.len(),
    ensures
        m == match_at(hay@, needle@, k as int),
{
    let hn = hay.unicode_len();
    let nn = needle.unicode_len();
    let mut j: usize = 0;
    while j < nn
        invariant
            hn == hay@.len(),
            nn == needle@.len(),
            k + nn <= hay@.len(),
            0 <= j <= nn,
            forall|j2: int| 0 <= j2 < j ==> hay@[k + j2] == #[trigger] needle@[j2],
        decreases nn - j,
    {
        if hay.get_char(k + j) != needle.get_char(j) {
            return false;
        }
        j = j + 1;
    }
    true
}

/// Substring search: whether `needle` occurs anywhere in `hay`, by
/// character.
pub fn contains_str(hay: &str, needle: &str) -> (found: bool)
    ensures
        found == contains_seq(hay@, needle@),
{
    let hn = hay.unicode_len();
    let nn = needle.unicode_len();
    if nn > hn {
        return false;
    }
    let mut k: usize = 0;
    while k <= hn - nn
        invariant
            nn <= hn,
            hn == hay@.len(),
            nn == needle@.len(),
            0 <= k <= hn - nn + 1,
            forall|k2: int| 0 <= k2 < k ==> !#[trigger] match_at(hay@, needle@, k2),
        decreases hn - nn + 1 - k,
    {
        if matches_at(hay, needle, k) {
            return true;
        }
        k = k + 1;
    }
    false
}

} // verus!
