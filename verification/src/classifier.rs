//! The decision-point classifier: the single seam where
//! cyclomatic-complexity policy is decided.  Everything else is
//! counting.

use vstd::prelude::*;

verus! {

/// The set of syntax-node kind labels that count as decision points.
/// The membership list is configuration, chosen per target grammar by
/// the caller; the traversal itself assumes nothing about kind labels.
pub struct Classifier {
    pub kinds: Vec<String>,
}

impl View for Classifier {
    type V = Seq<Seq<char>>;

    open spec fn view(&self) -> Seq<Seq<char>> {
        self.kinds@.map_values(|k: String| k@)
    }
}

impl Classifier {
    /// Wraps the configured kind labels.
    pub fn new(kinds: Vec<String>) -> (c: Classifier)
        ensures
            c@ == kinds@.map_values(|k: String| k@),
    {
        Classifier { kinds }
    }

    /// True iff `kind` is one of the configured decision-point labels.
    /// Pure and total: a kind not in the set is simply no decision
    /// point, never an error.
    pub fn is_decision_point(&self, kind: &String) -> (r: bool)
        ensures
            r == self@.contains(kind@),
    {
        let n: usize = self.kinds.len();
        for i in 0..n
            invariant
                n == self.kinds@.len(),
                forall|j: int| 0 <= j < i ==> self@[j] != kind@,
        {
            let k = &self.kinds[i];
            if k.eq(kind) {
                assert(self@[i as int] == kind@);
                return true;
            }
        }
        false
    }
}

/// Classifier purity: the same kind label gets the same answer on
/// every call, independent of when or in what order the traversal
/// asks.
pub proof fn lemma_is_decision_point_pure(c: Classifier, kind: String, r1: bool, r2: bool)
    requires
        r1 == c@.contains(kind@),
        r2 == c@.contains(kind@),
    ensures
        r1 == r2,
{
}

} // verus!
