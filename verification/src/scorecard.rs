//! The scorecard aggregator: turns the four raw aggregates of one
//! traversal into the immutable report handed to the caller.

use vstd::prelude::*;

use crate::classifier::Classifier;
use crate::traversal::{traverse, TraversalState};
use crate::tree::SyntaxTree;
use crate::tree::{decision_point_count, descendant_count, max_depth_below, weighted_depth_sum};
use crate::tree::{lemma_decision_count_le_descendant_count, lemma_height_le_descendant_count};

verus! {

/// The average node depth.  It is the one value that is undefined for
/// a tree without descendants, and is then reported as an explicit
/// not-applicable marker rather than a division by zero.
#[derive(Clone, Copy, PartialEq, Eq, Structural, Debug)]
pub enum AverageDepth {
    /// No descendants were visited, so no average applies.
    NotApplicable,
    /// The exact ratio `weighted_sum / node_count`, kept as numerator
    /// and denominator so that no precision is lost.
    Ratio { numerator: u64, denominator: u64 },
}

/// The immutable report of one run: the four raw aggregates and the
/// two derived values.  It is the only artifact that outlives the
/// traversal.
#[derive(Clone, Copy, PartialEq, Eq, Structural, Debug)]
pub struct Scorecard {
    pub node_count: u64,
    pub max_depth: u64,
    pub weighted_sum: u64,
    pub average_depth: AverageDepth,
    pub decision_count: u64,
    pub cyclomatic_estimate: u64,
}

/// What a scorecard says about the tree it reports on: every field is
/// pinned to the mathematical model of the tree, so any two scorecards
/// for the same tree and the same decision-point set are identical.
pub open spec fn scorecard_for(t: SyntaxTree, kinds: Seq<Seq<char>>, s: Scorecard) -> bool {
    &&& s.node_count == descendant_count(t)
    &&& s.max_depth == max_depth_below(t, 0)
    &&& s.weighted_sum == weighted_depth_sum(t, 0)
    &&& s.decision_count == decision_point_count(t, kinds)
    &&& s.cyclomatic_estimate == decision_point_count(t, kinds) + 1
    &&& (descendant_count(t) == 0 ==> s.average_depth == AverageDepth::NotApplicable)
    &&& (descendant_count(t) > 0 ==> s.average_depth == (AverageDepth::Ratio {
        numerator: s.weighted_sum,
        denominator: s.node_count,
    }))
}

/// Derives the report from the final traversal state: copies the four
/// raw aggregates, adds the baseline of one to the decision count for
/// the cyclomatic estimate, and marks the average not applicable when
/// nothing was visited.
pub fn summarize(state: TraversalState) -> (s: Scorecard)
    requires
        state.decision_count < u64::MAX,
    ensures
        s.node_count == state.node_count,
        s.max_depth == state.max_depth,
        s.weighted_sum == state.weighted_sum,
        s.decision_count == state.decision_count,
        s.cyclomatic_estimate == state.decision_count + 1,
        state.node_count == 0 ==> s.average_depth == AverageDepth::NotApplicable,
        state.node_count > 0 ==> s.average_depth == (AverageDepth::Ratio {
            numerator: state.weighted_sum,
            denominator: state.node_count,
        }),
{
    let average_depth = if state.node_count == 0 {
        AverageDepth::NotApplicable
    } else {
        AverageDepth::Ratio { numerator: state.weighted_sum, denominator: state.node_count }
    };
    Scorecard {
        node_count: state.node_count,
        max_depth: state.max_depth,
        weighted_sum: state.weighted_sum,
        average_depth,
        decision_count: state.decision_count,
        cyclomatic_estimate: state.decision_count + 1,
    }
}

/// Runs one full analysis: a fresh all-zero state, the depth-first
/// walk of every descendant of `root` (its direct children at depth
/// zero), then the derived report.  The two bounds are forced by the
/// machine word the aggregates are kept in.
pub fn analyze(root: &SyntaxTree, classifier: &Classifier) -> (s: Scorecard)
    requires
        descendant_count(*root) < u64::MAX,
        weighted_depth_sum(*root, 0) <= u64::MAX,
    ensures
        scorecard_for(*root, classifier@, s),
{
    proof {
        lemma_decision_count_le_descendant_count(*root, classifier@);
        lemma_height_le_descendant_count(*root);
    }
    let state = traverse(root, 0, TraversalState::init(), classifier);
    summarize(state)
}

/// The cyclomatic estimate always sits one above the decision count —
/// the baseline complexity of one is meaningful even for an empty
/// program.
pub proof fn lemma_cyclomatic_is_decision_plus_one(
    t: SyntaxTree,
    kinds: Seq<Seq<char>>,
    s: Scorecard,
)
    requires
        scorecard_for(t, kinds, s),
    ensures
        s.cyclomatic_estimate == s.decision_count + 1,
{
}

/// Determinism of the analysis: any two scorecards for the same tree
/// and the same decision-point set agree in every field, so running
/// the traversal twice yields identical reports.
pub proof fn lemma_scorecard_unique(
    t: SyntaxTree,
    kinds: Seq<Seq<char>>,
    s1: Scorecard,
    s2: Scorecard,
)
    requires
        scorecard_for(t, kinds, s1),
        scorecard_for(t, kinds, s2),
    ensures
        s1 == s2,
{
}

/// A root with no children yields the degenerate report: all four
/// aggregates zero, the baseline cyclomatic estimate of one, and no
/// applicable average depth.
pub proof fn lemma_empty_root_scorecard(t: SyntaxTree, kinds: Seq<Seq<char>>, s: Scorecard)
    requires
        t.children@.len() == 0,
        scorecard_for(t, kinds, s),
    ensures
        s.node_count == 0,
        s.max_depth == 0,
        s.weighted_sum == 0,
        s.decision_count == 0,
        s.cyclomatic_estimate == 1,
        s.average_depth == AverageDepth::NotApplicable,
{
}

} // verus!
