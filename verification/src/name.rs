//! Canonical form of algorithm name strings.
//!
//! Name lookup is case-insensitive (ASCII) and hyphen-insensitive: a name is
//! first brought to its canonical form — upper-case ASCII letters folded to
//! lower case, hyphens removed — and then compared byte-for-byte against a
//! fixed alias table. There is no partial, fuzzy or locale-sensitive
//! matching.

use vstd::prelude::*;
use vstd::string::StrSliceExecFns;

verus! {

/// Folds one upper-case ASCII letter to lower case; any other character is
/// unchanged.
pub open spec fn fold_char(c: char) -> char {
    if 'A' <= c && c <= 'Z' {
        (c as u8 + 32) as char
    } else {
        c
    }
}

/// The canonical form of a name: every character case-folded by
/// [`fold_char`], and every hyphen removed.
pub open spec fn canonical_name(s: Seq<char>) -> Seq<char>
    decreases s.len(),
{
    if s.len() == 0 {
        Seq::empty()
    } else {
        let head = canonical_name(s.drop_last());
        let c = fold_char(s.last());
        if c == '-' {
            head
        } else {
            head.push(c)
        }
    }
}

/// Computes the canonical form of `s`.
pub fn canonicalize(s: &str) -> (r: Vec<char>)
    ensures
        r@ == canonical_name(s@),
{
    let n = s.unicode_len();
    let mut out: Vec<char> = Vec::new();
    let mut i: usize = 0;
    while i < n
        invariant
            n == s@.len(),
            i <= n,
            out@ == canonical_name(s@.subrange(0, i as int)),
        decreases n - i,
    {
        let c = s.get_char(i);
        let folded = if 'A' <= c && c <= 'Z' {
            (c as u8 + 32) as char
        } else {
            c
        };
        proof {
            let prefix = s@.subrange(0, i + 1);
            assert(prefix.drop_last() =~= s@.subrange(0, i as int));
            assert(prefix.last() == s@[i as int]);
        }
        if folded != '-' {
            out.push(folded);
        }
        i += 1;
    }
    proof {
        assert(s@.subrange(0, n as int) =~= s@);
    }
    out
}

/// True iff the canonical form `v` is exactly the alias `alias`.
pub fn matches_alias(v: &Vec<char>, alias: &str) -> (r: bool)
    ensures
        r == (v@ == alias@),
{
    let m = alias.unicode_len();
    if v.len() != m {
        return false;
    }
    let mut j: usize = 0;
    while j < m
        invariant
            m == alias@.len(),
            v@.len() == m,
            j <= m,
            forall|k: int| 0 <= k < j ==> v@[k] == alias@[k],
        decreases m - j,
    {
        if v[j] != alias.get_char(j) {
            return false;
        }
        j += 1;
    }
    proof {
        assert(v@ =~= alias@);
    }
    true
}

} // verus!
