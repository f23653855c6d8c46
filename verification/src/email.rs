//! The minimal email-shape check.
//!
//! The check is deliberately not RFC-complete: an address passes when it has
//! exactly one `@`, a non-empty local part, and a domain part that holds a
//! `.` somewhere strictly inside it. Nothing is checked about the characters
//! themselves, which knowingly accepts some addresses an RFC parser would
//! reject.

use vstd::prelude::*;

verus! {

/// `a` is the position of the one and only `@` in `s`.
pub open spec fn only_at_position(s: Seq<char>, a: int) -> bool {
    &&& 0 <= a < s.len()
    &&& s[a] == '@'
    &&& forall|i: int| 0 <= i < s.len() && i != a ==> s[i] != '@'
}

/// The domain part (everything after the `@` at position `a`) holds a `.`
/// that is neither its first nor its last character.
pub open spec fn has_inner_dot(s: Seq<char>, a: int) -> bool {
    exists|d: int| a + 1 < d < s.len() - 1 && (#[trigger] s[d]) == '.'
}

/// The email shape: exactly one `@`, placed so that the local part and the
/// domain part are both non-empty, and a `.` strictly inside the domain part.
pub open spec fn valid_email(s: Seq<char>) -> bool {
    exists|a: int|
        {
            &&& #[trigger] only_at_position(s, a)
            &&& 0 < a < s.len() - 1
            &&& has_inner_dot(s, a)
        }
}

/// First position at or after `from` where `s` holds the character `c`.
fn find_char_from(s: &str, c: char, from: usize) -> (r: Option<usize>)
    requires
        from <= s@.len(),
    ensures
        match r {
            Some(j) => from <= j < s@.len() && s@[j as int] == c && forall|k: int|
                from <= k < j ==> s@[k] != c,
            None => forall|k: int| from <= k < s@.len() ==> s@[k] != c,
        },
{
    let n = s.unicode_len();
    let mut i: usize = from;
    while i < n
        invariant
            from <= i <= n,
            n == s@.len(),
            forall|k: int| from <= k < i ==> s@[k] != c,
        decreases n - i,
    {
        if s.get_char(i) == c {
            return Some(i);
        }
        i = i + 1;
    }
    None
}

/// Whether `email` has the minimal email shape described by [`valid_email`].
pub fn is_valid_email(email: &str) -> (r: bool)
    ensures
        r == valid_email(email@),
{
    let ghost s = email@;
    let n = email.unicode_len();

    let a = match find_char_from(email, '@', 0) {
        Some(a) => a,
        None => {
            assert(forall|p: int| !only_at_position(s, p));
            return false;
        },
    };

    if let Some(b) = find_char_from(email, '@', a + 1) {
        assert forall|p: int| !only_at_position(s, p) by {
            if only_at_position(s, p) {
                if p == a as int {
                    assert(s[b as int] == '@');
                } else {
                    assert(s[a as int] == '@');
                }
            }
        }
        return false;
    }

    assert(forall|p: int| only_at_position(s, p) ==> p == a as int);

    if a == 0 || a == n - 1 {
        return false;
    }

    match find_char_from(email, '.', a + 2) {
        Some(d) => {
            if d < n - 1 {
                assert(only_at_position(s, a as int));
                assert(has_inner_dot(s, a as int));
                true
            } else {
                assert forall|p: int| only_at_position(s, p) ==> !has_inner_dot(s, p) by {
                    if only_at_position(s, p) {
                        assert(forall|k: int| a + 2 <= k < d ==> s[k] != '.');
                    }
                }
                false
            }
        },
        None => {
            assert forall|p: int| only_at_position(s, p) ==> !has_inner_dot(s, p) by {
                if only_at_position(s, p) {
                    assert(forall|k: int| a + 2 <= k < s.len() ==> s[k] != '.');
                }
            }
            false
        },
    }
}

} // verus!
