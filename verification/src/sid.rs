//! The canonical text grammar of a security identifier, and its checker.
//!
//! A well-formed identifier string is `S-` followed by decimal groups
//! separated by single hyphens: the revision, the authority, and any number
//! of subauthorities. Every value the identity enumeration returns is held
//! to this grammar.

use vstd::prelude::*;

verus! {

/// A decimal digit character.
pub open spec fn is_digit(c: char) -> bool {
    48 <= c as int && c as int <= 57
}

fn is_digit_char(c: char) -> (r: bool)
    ensures
        r == is_digit(c),
{
    let u = c as u32;
    48 <= u && u <= 57
}

/// The canonical identifier grammar: `S-`, a digit opening the revision
/// group, then digits and single hyphens, each hyphen followed by a digit,
/// with at least one further group after the revision.
pub open spec fn is_sid_string(s: Seq<char>) -> bool {
    &&& s.len() >= 5
    &&& s[0] == 'S'
    &&& s[1] == '-'
    &&& is_digit(s[2])
    &&& forall|k: int| 2 <= k < s.len() ==> is_digit(s[k]) || s[k] == '-'
    &&& forall|k: int|
        2 <= k < s.len() ==> ((#[trigger] s[k]) == '-' ==> k + 1 < s.len() && is_digit(s[k + 1]))
    &&& exists|j: int| 3 <= j < s.len() && s[j] == '-'
}

/// Check a string against the canonical identifier grammar.
pub fn is_valid_sid(s: &str) -> (b: bool)
    ensures
        b == is_sid_string(s@),
{
    let n = s.unicode_len();
    if n < 5 {
        return false;
    }
    if s.get_char(0) != 'S' {
        return false;
    }
    if s.get_char(1) != '-' {
        return false;
    }
    if !is_digit_char(s.get_char(2)) {
        return false;
    }
    let mut i: usize = 3;
    let mut seen_sep = false;
    while i < n
        invariant
            n == s@.len(),
            5 <= n,
            3 <= i <= n,
            s@[0] == 'S',
            s@[1] == '-',
            is_digit(s@[2]),
            forall|k: int| 2 <= k < i ==> is_digit(s@[k]) || s@[k] == '-',
            forall|k: int|
                2 <= k < i ==> ((#[trigger] s@[k]) == '-' ==> k + 1 < s@.len() && is_digit(
                    s@[k + 1],
                )),
            seen_sep == exists|j: int| 3 <= j < i && s@[j] == '-',
        decreases n - i,
    {
        let c = s.get_char(i);
        if is_digit_char(c) {
        } else if c == '-' {
            if i + 1 >= n {
                return false;
            }
            if !is_digit_char(s.get_char(i + 1)) {
                return false;
            }
            seen_sep = true;
        } else {
            return false;
        }
        i = i + 1;
    }
    seen_sep
}

} // verus!
