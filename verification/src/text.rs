//! A small text helper shared by the header parsing and the memory
//! engine's filter parsing.

use vstd::prelude::*;
use vstd::string::StrSliceExecFns;

verus! {

/// Does `s` start with the exact, case-sensitive prefix `p`?
pub fn str_has_prefix(s: &str, p: &str) -> (r: bool)
    ensures
        r == (s@.len() >= p@.len() && s@.subrange(0, p@.len() as int) == p@),
{
    let n = s.unicode_len();
    let m = p.unicode_len();
    if n < m {
        return false;
    }
    let mut k: usize = 0;
    while k < m
        invariant
            k <= m,
            m <= n,
            m == p@.len(),
            n == s@.len(),
            forall|j: int| 0 <= j < k ==> s@[j] == p@[j],
        decreases m - k,
    {
        if s.get_char(k) != p.get_char(k) {
            proof {
                assert(s@.subrange(0, p@.len() as int) != p@) by {
                    if s@.subrange(0, p@.len() as int) == p@ {
                        assert(s@.subrange(0, p@.len() as int)[k as int] == s@[k as int]);
                    }
                }
            }
            return false;
        }
        k += 1;
    }
    proof {
        assert(s@.subrange(0, p@.len() as int) =~= p@);
    }
    true
}

} // verus!
