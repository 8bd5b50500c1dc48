//! Character-level helpers on strings.

use vstd::prelude::*;
use vstd::std_specs::iter::IteratorSpec;

verus! {

/// The view of an optional borrowed string.
pub open spec fn opt_view(s: Option<&str>) -> Option<Seq<char>> {
    match s {
        Some(t) => Some(t@),
        None => None,
    }
}

/// The view of an optional owned string.
pub open spec fn option_view(s: Option<String>) -> Option<Seq<char>> {
    match s {
        Some(t) => Some(t@),
        None => None,
    }
}

/// Whether a text is given and is not empty.
pub open spec fn has_text(s: Option<Seq<char>>) -> bool {
    s is Some && s->0.len() > 0
}

/// Whether `c` carries the Unicode `White_Space` property.
pub open spec fn is_whitespace(c: char) -> bool {
    ||| ('\u{9}' <= c && c <= '\u{d}')
    ||| c == ' '
    ||| c == '\u{85}'
    ||| c == '\u{a0}'
    ||| c == '\u{1680}'
    ||| ('\u{2000}' <= c && c <= '\u{200a}')
    ||| c == '\u{2028}'
    ||| c == '\u{2029}'
    ||| c == '\u{202f}'
    ||| c == '\u{205f}'
    ||| c == '\u{3000}'
}

/// Whether every character of `s` is white space, so that nothing is left of
/// `s` once white space is trimmed from both ends.
pub open spec fn is_blank(s: Seq<char>) -> bool {
    forall|i: int| 0 <= i < s.len() ==> is_whitespace(#[trigger] s[i])
}

/// Tests one character for the `White_Space` property.
pub fn char_is_whitespace(c: char) -> (r: bool)
    ensures
        r == is_whitespace(c),
{
    ('\u{9}' <= c && c <= '\u{d}') || c == ' ' || c == '\u{85}' || c == '\u{a0}' || c == '\u{1680}'
        || ('\u{2000}' <= c && c <= '\u{200a}') || c == '\u{2028}' || c == '\u{2029}' || c
        == '\u{202f}' || c == '\u{205f}' || c == '\u{3000}'
}

/// Tests whether `s` is empty once trimmed.
pub fn str_is_blank(s: &str) -> (r: bool)
    ensures
        r == is_blank(s@),
{
    let mut it = s.chars();
    let ghost mut seen: int = 0;
    loop
        invariant
            0 <= seen <= s@.len(),
            it.remaining() == s@.subrange(seen, s@.len() as int),
            forall|i: int| 0 <= i < seen ==> is_whitespace(#[trigger] s@[i]),
        decreases s@.len() - seen,
    {
        match it.next() {
            Some(c) => {
                if !char_is_whitespace(c) {
                    return false;
                }
                proof {
                    seen = seen + 1;
                }
            },
            None => {
                return true;
            },
        }
    }
}

/// Whether `s` begins with `prefix`.
pub fn starts_with(s: &str, prefix: &str) -> (r: bool)
    ensures
        r == prefix@.is_prefix_of(s@),
{
    let mut rest = s.chars();
    let mut wanted = prefix.chars();
    let ghost mut seen: int = 0;
    loop
        invariant
            0 <= seen <= s@.len(),
            seen <= prefix@.len(),
            rest.remaining() == s@.subrange(seen, s@.len() as int),
            wanted.remaining() == prefix@.subrange(seen, prefix@.len() as int),
            s@.subrange(0, seen) == prefix@.subrange(0, seen),
        decreases prefix@.len() - seen,
    {
        match wanted.next() {
            None => {
                return true;
            },
            Some(p) => {
                match rest.next() {
                    None => {
                        return false;
                    },
                    Some(c) => {
                        if c != p {
                            return false;
                        }
                        proof {
                            seen = seen + 1;
                        }
                    },
                }
            },
        }
    }
}

/// What is left of `s` from its first `.` on, the `.` included; nothing where
/// `s` holds no `.`.
pub open spec fn from_first_dot(s: Seq<char>) -> Option<Seq<char>>
    decreases s.len(),
{
    if s.len() == 0 {
        None
    } else if s[0] == '.' {
        Some(s)
    } else {
        from_first_dot(s.skip(1))
    }
}

/// Skipping characters that are not `.` does not change what follows the
/// first `.`.
pub proof fn lemma_from_first_dot_skip(s: Seq<char>, n: int)
    requires
        0 <= n <= s.len(),
        forall|j: int| 0 <= j < n ==> s[j] != '.',
    ensures
        from_first_dot(s) == from_first_dot(s.skip(n)),
    decreases n,
{
    if n == 0 {
        assert(s.skip(0) == s);
    } else {
        lemma_from_first_dot_skip(s, n - 1);
        let t = s.skip(n - 1);
        assert(t[0] == s[n - 1]);
        assert(t.skip(1) == s.skip(n));
    }
}

/// The part of `s` from its first `.` on, if it has one.
pub fn suffix_from_first_dot(s: &str) -> (r: Option<String>)
    ensures
        match r {
            Some(t) => from_first_dot(s@) == Some(t@),
            None => from_first_dot(s@) is None,
        },
{
    let n: usize = s.unicode_len();
    let mut rest = s.chars();
    let mut i: usize = 0;
    loop
        invariant
            0 <= i <= n,
            n == s@.len(),
            rest.remaining() == s@.subrange(i as int, s@.len() as int),
            forall|j: int| 0 <= j < i ==> s@[j] != '.',
        decreases n - i,
    {
        match rest.next() {
            None => {
                proof {
                    lemma_from_first_dot_skip(s@, n as int);
                }
                return None;
            },
            Some(c) => {
                if c == '.' {
                    proof {
                        lemma_from_first_dot_skip(s@, i as int);
                    }
                    let tail = s.substring_char(i, n);
                    return Some(tail.to_owned());
                }
                i = i + 1;
            },
        }
    }
}

} // verus!
