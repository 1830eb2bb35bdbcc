//! The traversal engine: a depth-first, pre-order walk of an
//! already-built syntax tree that accumulates all four running
//! aggregates in one pass.
//!
//! The walk keeps its own heap-allocated work stack of (node, depth)
//! pairs instead of recursing on the call stack, so deeply nested
//! source cannot exhaust it; the aggregates are proved identical to
//! the recursive definitions of [`crate::tree`].

use vstd::prelude::*;

use crate::classifier::Classifier;
use crate::tree::SyntaxTree;
use crate::tree::{decision_point_count, descendant_count, max_depth_below, weighted_depth_sum};
use crate::tree::{depth_max, tree_height};
use crate::tree::{
    forest_decision_count, forest_height, forest_max_depth, forest_node_count, forest_weighted_sum,
};
use crate::tree::{
    lemma_forest_decision_count_concat, lemma_forest_decision_count_singleton,
    lemma_forest_height_member, lemma_forest_max_depth_concat, lemma_forest_max_depth_singleton,
    lemma_forest_node_count_concat, lemma_forest_node_count_singleton,
    lemma_forest_weighted_sum_concat, lemma_forest_weighted_sum_singleton,
};

verus! {

/// The running aggregates of one traversal.  A fresh state is created
/// per invocation and discarded once the scorecard is produced.
#[derive(Clone, Copy, PartialEq, Eq, Structural, Debug)]
pub struct TraversalState {
    pub node_count: u64,
    pub max_depth: u64,
    pub weighted_sum: u64,
    pub decision_count: u64,
}

impl TraversalState {
    /// The all-zero state a traversal starts from.
    pub fn init() -> (s: TraversalState)
        ensures
            s == (TraversalState {
                node_count: 0,
                max_depth: 0,
                weighted_sum: 0,
                decision_count: 0,
            }),
    {
        TraversalState { node_count: 0, max_depth: 0, weighted_sum: 0, decision_count: 0 }
    }
}

/// Nodes the work stack still owes a visit: each entry counts itself
/// and every node below it.
spec fn pending_node_count(s: Seq<(&SyntaxTree, u64)>) -> nat
    decreases s,
{
    if s.len() == 0 {
        0
    } else {
        pending_node_count(s.drop_last()) + 1 + descendant_count(*s.last().0)
    }
}

/// Depth still owed by the work stack: each entry weighs its own
/// recorded depth plus the subtree below it.
spec fn pending_weighted_sum(s: Seq<(&SyntaxTree, u64)>) -> nat
    decreases s,
{
    if s.len() == 0 {
        0
    } else {
        pending_weighted_sum(s.drop_last()) + s.last().1 as nat + weighted_depth_sum(
            *s.last().0,
            (s.last().1 + 1) as nat,
        )
    }
}

/// Decision points still owed by the work stack under `kinds`.
spec fn pending_decision_count(s: Seq<(&SyntaxTree, u64)>, kinds: Seq<Seq<char>>) -> nat
    decreases s,
{
    if s.len() == 0 {
        0
    } else {
        pending_decision_count(s.drop_last(), kinds) + (if kinds.contains(s.last().0.kind@) {
            1nat
        } else {
            0nat
        }) + decision_point_count(*s.last().0, kinds)
    }
}

/// Greatest depth the work stack can still reach: each entry lies at
/// its recorded depth, its subtree below that.
spec fn pending_max_depth(s: Seq<(&SyntaxTree, u64)>) -> nat
    decreases s,
{
    if s.len() == 0 {
        0
    } else {
        depth_max(
            pending_max_depth(s.drop_last()),
            depth_max(s.last().1 as nat, max_depth_below(*s.last().0, (s.last().1 + 1) as nat)),
        )
    }
}

/// Every entry of the work stack can still deepen within the machine
/// word: its recorded depth plus its subtree's height stays in bounds.
spec fn pending_depth_ok(s: Seq<(&SyntaxTree, u64)>) -> bool
    decreases s,
{
    s.len() == 0 || (pending_depth_ok(s.drop_last()) && s.last().1 + tree_height(*s.last().0)
        <= u64::MAX)
}

/// Schedules a whole sibling list: pushes the children right to left,
/// all at depth `child_depth`, so the leftmost is visited first and
/// the walk stays pre-order in source order.
#[verifier::loop_isolation(false)]
fn push_children<'a>(
    stack: &mut Vec<(&'a SyntaxTree, u64)>,
    children: &'a Vec<SyntaxTree>,
    child_depth: u64,
    kinds: Ghost<Seq<Seq<char>>>,
)
    requires
        child_depth + forest_height(children@) <= u64::MAX + 1,
        pending_depth_ok(old(stack)@),
    ensures
        pending_node_count(final(stack)@) == pending_node_count(old(stack)@) + forest_node_count(
            children@,
        ),
        pending_weighted_sum(final(stack)@) == pending_weighted_sum(old(stack)@)
            + forest_weighted_sum(children@, child_depth as nat),
        pending_decision_count(final(stack)@, kinds@) == pending_decision_count(
            old(stack)@,
            kinds@,
        ) + forest_decision_count(children@, kinds@),
        pending_max_depth(final(stack)@) == depth_max(
            pending_max_depth(old(stack)@),
            forest_max_depth(children@, child_depth as nat),
        ),
        pending_depth_ok(final(stack)@),
{
    let ghost base = stack@;
    let m: usize = children.len();
    for j in 0..m
        invariant
            stack@.len() == base.len() + j,
            pending_node_count(stack@) == pending_node_count(base) + forest_node_count(
                children@.skip(m - j),
            ),
            pending_weighted_sum(stack@) == pending_weighted_sum(base) + forest_weighted_sum(
                children@.skip(m - j),
                child_depth as nat,
            ),
            pending_decision_count(stack@, kinds@) == pending_decision_count(base, kinds@)
                + forest_decision_count(children@.skip(m - j), kinds@),
            pending_max_depth(stack@) == depth_max(
                pending_max_depth(base),
                forest_max_depth(children@.skip(m - j), child_depth as nat),
            ),
            pending_depth_ok(stack@),
    {
        let idx: usize = m - 1 - j;
        let ghost c = children@;
        let ghost gi: int = idx as int;
        let ghost before = stack@;
        proof {
            assert(c.skip(gi) =~= seq![c[gi]] + c.skip(gi + 1));
            lemma_forest_node_count_concat(seq![c[gi]], c.skip(gi + 1));
            lemma_forest_node_count_singleton(c[gi]);
            lemma_forest_weighted_sum_concat(seq![c[gi]], c.skip(gi + 1), child_depth as nat);
            lemma_forest_weighted_sum_singleton(c[gi], child_depth as nat);
            lemma_forest_decision_count_concat(seq![c[gi]], c.skip(gi + 1), kinds@);
            lemma_forest_decision_count_singleton(c[gi], kinds@);
            lemma_forest_max_depth_concat(seq![c[gi]], c.skip(gi + 1), child_depth as nat);
            lemma_forest_max_depth_singleton(c[gi], child_depth as nat);
            lemma_forest_height_member(c, gi);
        }
        stack.push((&children[idx], child_depth));
        proof {
            assert(stack@.drop_last() =~= before);
        }
    }
    proof {
        assert(children@.skip(0) =~= children@);
    }
}

/// Walks every descendant of `node` depth-first in source order, the
/// children of `node` lying at `depth`.  Each visited node adds one to
/// the node count and its own depth to the weighted sum, raises the
/// maximum depth to its own depth where needed, and adds one to the
/// decision count when the classifier accepts its kind.  The node
/// itself is not counted: children are items, ancestry is structure.
#[verifier::loop_isolation(false)]
pub fn traverse(
    node: &SyntaxTree,
    depth: u64,
    state: TraversalState,
    classifier: &Classifier,
) -> (r: TraversalState)
    requires
        state.node_count + descendant_count(*node) <= u64::MAX,
        state.weighted_sum + weighted_depth_sum(*node, depth as nat) <= u64::MAX,
        state.decision_count + decision_point_count(*node, classifier@) <= u64::MAX,
        depth + tree_height(*node) <= u64::MAX,
    ensures
        r.node_count == state.node_count + descendant_count(*node),
        r.weighted_sum == state.weighted_sum + weighted_depth_sum(*node, depth as nat),
        r.decision_count == state.decision_count + decision_point_count(*node, classifier@),
        r.max_depth == depth_max(state.max_depth as nat, max_depth_below(*node, depth as nat)),
{
    let mut stack: Vec<(&SyntaxTree, u64)> = Vec::new();
    push_children(&mut stack, &node.children, depth, Ghost(classifier@));
    let mut st = state;
    loop
        invariant
            st.node_count + pending_node_count(stack@) == state.node_count + descendant_count(
                *node,
            ),
            st.weighted_sum + pending_weighted_sum(stack@) == state.weighted_sum
                + weighted_depth_sum(*node, depth as nat),
            st.decision_count + pending_decision_count(stack@, classifier@) == state.decision_count
                + decision_point_count(*node, classifier@),
            depth_max(st.max_depth as nat, pending_max_depth(stack@)) == depth_max(
                state.max_depth as nat,
                max_depth_below(*node, depth as nat),
            ),
            pending_depth_ok(stack@),
        decreases pending_node_count(stack@),
    {
        let ghost before = stack@;
        match stack.pop() {
            None => {
                break ;
            },
            Some((visited, visited_depth)) => {
                proof {
                    assert(stack@ =~= before.drop_last());
                    assert(before.last() == (visited, visited_depth));
                }
                st.node_count = st.node_count + 1;
                if visited_depth > st.max_depth {
                    st.max_depth = visited_depth;
                }
                if classifier.is_decision_point(&visited.kind) {
                    st.decision_count = st.decision_count + 1;
                }
                st.weighted_sum = st.weighted_sum + visited_depth;
                if visited.children.len() > 0 {
                    proof {
                        assert(forest_height(visited.children@) >= 1);
                    }
                    push_children(
                        &mut stack,
                        &visited.children,
                        visited_depth + 1,
                        Ghost(classifier@),
                    );
                }
            },
        }
    }
    st
}

} // verus!
