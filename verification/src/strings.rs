//! Character-level string comparisons, proved against the string
//! views.

use vstd::prelude::*;
use vstd::std_specs::iter::IteratorSpec;

verus! {

broadcast use vstd::string::axiom_spec_iter, vstd::string::next_postcondition;

/// True iff the characters of `prefix` open `s`.
pub(crate) fn str_starts_with(s: &str, prefix: &str) -> (r: bool)
    ensures
        r == prefix@.is_prefix_of(s@),
{
    let mut s_iter = s.chars();
    let mut p_iter = prefix.chars();
    let ghost mut k: int = 0;
    loop
        invariant
            0 <= k <= s@.len(),
            k <= prefix@.len(),
            s_iter.remaining() == s@.skip(k),
            p_iter.remaining() == prefix@.skip(k),
            prefix@.take(k) == s@.take(k),
        decreases prefix@.len() - k,
    {
        match p_iter.next() {
            None => {
                proof {
                    assert(k == prefix@.len());
                    assert(prefix@.take(k) =~= prefix@);
                    assert(s@.take(k) =~= s@.subrange(0, k));
                }
                return true;
            },
            Some(pc) => {
                proof {
                    assert(prefix@.skip(k)[0] == prefix@[k]);
                }
                match s_iter.next() {
                    None => {
                        proof {
                            assert(k == s@.len());
                            assert(!prefix@.is_prefix_of(s@));
                        }
                        return false;
                    },
                    Some(sc) => {
                        proof {
                            assert(s@.skip(k)[0] == s@[k]);
                        }
                        if pc != sc {
                            proof {
                                assert(!prefix@.is_prefix_of(s@)) by {
                                    if prefix@.is_prefix_of(s@) {
                                        assert(prefix@ =~= s@.subrange(
                                            0,
                                            prefix@.len() as int,
                                        ));
                                        assert(prefix@[k] == s@[k]);
                                    }
                                }
                            }
                            return false;
                        }
                        proof {
                            assert(s@.skip(k).drop_first() =~= s@.skip(k + 1));
                            assert(prefix@.skip(k).drop_first() =~= prefix@.skip(k + 1));
                            assert(prefix@.take(k + 1) =~= s@.take(k + 1));
                            k = k + 1;
                        }
                    },
                }
            },
        }
    }
}

/// True iff the two strings hold the same characters.
pub(crate) fn str_eq(a: &str, b: &str) -> (r: bool)
    ensures
        r == (a@ == b@),
{
    let ab = str_starts_with(a, b);
    let ba = str_starts_with(b, a);
    proof {
        if b@.is_prefix_of(a@) && a@.is_prefix_of(b@) {
            assert(a@ =~= b@);
        }
        if a@ == b@ {
            assert(a@.subrange(0, a@.len() as int) =~= a@);
        }
    }
    ab && ba
}

} // verus!
