use vstd::prelude::*;
use vstd::string::StrSliceExecFns;

use crate::chars::{char_eq_ignore_ascii_case, eq_ignore_ascii_case, is_upper_letter};

verus! {

// Case-insensitive substring search for the short upper-case notation
// tokens that drive classification.

/// Whether the token `tok` occurs in `s` at position `i`, ignoring ASCII case.
pub open spec fn token_at(s: Seq<char>, tok: Seq<char>, i: int) -> bool {
    forall|j: int| 0 <= j < tok.len() ==> eq_ignore_ascii_case(s[i + j], tok[j])
}

/// Whether the token `tok` occurs somewhere in `s`, ignoring ASCII case.
pub open spec fn has_token(s: Seq<char>, tok: Seq<char>) -> bool {
    exists|i: int| 0 <= i && i + tok.len() <= s.len() && token_at(s, tok, i)
}

/// Whether `tok` consists only of upper-case ASCII letters.
pub open spec fn is_upper_token(tok: Seq<char>) -> bool {
    forall|j: int| 0 <= j < tok.len() ==> is_upper_letter(tok[j])
}

/// Character-wise equality of two string slices.
pub fn str_eq(a: &str, b: &str) -> (r: bool)
    ensures
        r == (a@ == b@),
{
    let n = a.unicode_len();
    let m = b.unicode_len();
    if n != m {
        return false;
    }
    let mut i: usize = 0;
    while i < n
        invariant
            n == a@.len(),
            n == b@.len(),
            i <= n,
            forall|k: int| 0 <= k < i ==> a@[k] == b@[k],
        decreases n - i,
    {
        if a.get_char(i) != b.get_char(i) {
            return false;
        }
        i = i + 1;
    }
    proof {
        assert(a@ =~= b@);
    }
    true
}

/// Case-insensitive search for the upper-case token `tok` in `s`.
pub fn find_token(s: &str, tok: &str) -> (b: bool)
    requires
        is_upper_token(tok@),
        tok@.len() >= 1,
    ensures
        b == has_token(s@, tok@),
{
    let n = s.unicode_len();
    let m = tok.unicode_len();
    if m > n {
        return false;
    }
    let mut i: usize = 0;
    while i <= n - m
        invariant
            m <= n,
            n == s@.len(),
            m == tok@.len(),
            m >= 1,
            i <= n - m + 1,
            is_upper_token(tok@),
            forall|k: int| 0 <= k < i ==> !token_at(s@, tok@, k),
        decreases n - m + 1 - i,
    {
        let mut j: usize = 0;
        let mut matched = true;
        while j < m
            invariant
                m <= n,
                n == s@.len(),
                m == tok@.len(),
                i + m <= n,
                j <= m,
                is_upper_token(tok@),
                matched ==> forall|jj: int| 0 <= jj < j ==> eq_ignore_ascii_case(
                    s@[i + jj],
                    tok@[jj],
                ),
                !matched ==> !token_at(s@, tok@, i as int),
            decreases m - j,
        {
            let c = s.get_char(i + j);
            let t = tok.get_char(j);
            if !char_eq_ignore_ascii_case(c, t) {
                matched = false;
                j = m;
            } else {
                j = j + 1;
            }
        }
        if matched {
            assert(token_at(s@, tok@, i as int));
            return true;
        }
        i = i + 1;
    }
    assert(forall|k: int| 0 <= k && k + tok@.len() <= s@.len() ==> !token_at(s@, tok@, k));
    false
}

} // verus!
