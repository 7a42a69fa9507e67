//! Small verified helpers on string slices.

use vstd::prelude::*;

verus! {

/// Character-wise equality of two string slices.
pub fn str_eq(a: &str, b: &str) -> (r: bool)
    ensures
        r == (a@ == b@),
{
    let na = a.unicode_len();
    let nb = b.unicode_len();
    if na != nb {
        proof {
            assert(a@ != b@) by {
                if a@ == b@ {
                    assert(a@.len() == b@.len());
                }
            }
        }
        return false;
    }
    let mut i: usize = 0;
    while i < na
        invariant
            0 <= i <= na,
            na == a@.len(),
            na == b@.len(),
            forall|k: int| 0 <= k < i ==> a@[k] == b@[k],
        decreases na - i,
    {
        let ca = a.get_char(i);
        let cb = b.get_char(i);
        if ca != cb {
            proof {
                assert(a@ != b@) by {
                    if a@ == b@ {
                        assert(a@[i as int] == b@[i as int]);
                    }
                }
            }
            return false;
        }
        i = i + 1;
    }
    proof {
        assert(a@ =~= b@);
    }
    true
}

/// True when `lit` occurs in `s` at position `i`, character for
/// character.
pub open spec fn spec_matches_at(s: Seq<char>, i: int, lit: Seq<char>) -> bool {
    0 <= i && i + lit.len() <= s.len() && s.subrange(i, i + lit.len()) == lit
}

/// Whether `lit` occurs in `s` at position `i`.
pub fn str_matches_at(s: &str, i: usize, lit: &str) -> (r: bool)
    requires
        i <= s@.len(),
    ensures
        r == spec_matches_at(s@, i as int, lit@),
{
    let n = s.unicode_len();
    let nl = lit.unicode_len();
    if n - i < nl {
        return false;
    }
    let mut k: usize = 0;
    while k < nl
        invariant
            0 <= k <= nl == lit@.len(),
            i + nl <= n == s@.len(),
            forall|j: int| 0 <= j < k ==> s@[i + j] == lit@[j],
        decreases nl - k,
    {
        let cs = s.get_char(i + k);
        let cl = lit.get_char(k);
        if cs != cl {
            proof {
                assert(!spec_matches_at(s@, i as int, lit@)) by {
                    if spec_matches_at(s@, i as int, lit@) {
                        assert(s@.subrange(i as int, i + lit@.len() as int)[k as int]
                            == s@[i + k]);
                    }
                }
            }
            return false;
        }
        k = k + 1;
    }
    proof {
        assert(s@.subrange(i as int, i + lit@.len() as int) =~= lit@);
    }
    true
}

/// True when `s` begins with `prefix`, character for character.
pub fn str_starts_with(s: &str, prefix: &str) -> (r: bool)
    ensures
        r == (s@.len() >= prefix@.len() && s@.subrange(0, prefix@.len() as int) == prefix@),
{
    let n = s.unicode_len();
    let np = prefix.unicode_len();
    if n < np {
        return false;
    }
    let mut i: usize = 0;
    while i < np
        invariant
            0 <= i <= np,
            np == prefix@.len(),
            n == s@.len(),
            np <= n,
            forall|k: int| 0 <= k < i ==> s@[k] == prefix@[k],
        decreases np - i,
    {
        let cs = s.get_char(i);
        let cp = prefix.get_char(i);
        if cs != cp {
            proof {
                assert(s@.subrange(0, prefix@.len() as int) != prefix@) by {
                    if s@.subrange(0, prefix@.len() as int) == prefix@ {
                        assert(s@.subrange(0, prefix@.len() as int)[i as int] == s@[i as int]);
                    }
                }
            }
            return false;
        }
        i = i + 1;
    }
    proof {
        assert(s@.subrange(0, prefix@.len() as int) =~= prefix@);
    }
    true
}

} // verus!
