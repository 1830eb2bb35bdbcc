//! The syntax-tree shape the metrics are computed over, and the
//! mathematical model of every aggregate the traversal reports.
//!
//! The external parser owns the real tree; the caller converts it into
//! [`SyntaxTree`] values (kind label, ordered children, source range)
//! before asking for any metric.  Every aggregate is defined here as a
//! recursive spec function over that shape; the executable traversal is
//! proved to return exactly these values.

use vstd::prelude::*;

verus! {

/// A position in the source text (zero-based row and column).  It is
/// carried for diagnostics only; no metric reads it.
#[derive(Clone, Copy, PartialEq, Eq, Structural, Debug)]
pub struct SourcePosition {
    pub row: u64,
    pub column: u64,
}

/// One node of a concrete syntax tree: a kind label, the ordered
/// children, and the source range the node spans.
pub struct SyntaxTree {
    pub kind: String,
    pub children: Vec<SyntaxTree>,
    pub start: SourcePosition,
    pub end: SourcePosition,
}

/// The larger of two depths.
pub open spec fn depth_max(a: nat, b: nat) -> nat {
    if a >= b {
        a
    } else {
        b
    }
}

/// Total number of descendants of `t` (the node itself is excluded:
/// children are items, ancestry is structure).
pub open spec fn descendant_count(t: SyntaxTree) -> nat
    decreases t,
{
    forest_node_count(t.children@)
}

/// Total number of nodes in a forest, each root included.
pub open spec fn forest_node_count(s: Seq<SyntaxTree>) -> nat
    decreases s,
{
    if s.len() == 0 {
        0
    } else {
        forest_node_count(s.drop_last()) + 1 + descendant_count(s.last())
    }
}

/// Sum of the depths of all descendants of `t`, its children lying at
/// depth `depth` (the plexity score when `depth == 0`).
pub open spec fn weighted_depth_sum(t: SyntaxTree, depth: nat) -> nat
    decreases t,
{
    forest_weighted_sum(t.children@, depth)
}

/// Sum of the depths of all nodes of a forest whose roots lie at depth
/// `depth`.
pub open spec fn forest_weighted_sum(s: Seq<SyntaxTree>, depth: nat) -> nat
    decreases s,
{
    if s.len() == 0 {
        0
    } else {
        forest_weighted_sum(s.drop_last(), depth) + depth + weighted_depth_sum(
            s.last(),
            depth + 1,
        )
    }
}

/// Greatest depth at which any descendant of `t` lies, its children
/// lying at depth `depth`; zero when `t` has no children.
pub open spec fn max_depth_below(t: SyntaxTree, depth: nat) -> nat
    decreases t,
{
    forest_max_depth(t.children@, depth)
}

/// Greatest depth at which any node of a forest lies, the roots lying
/// at depth `depth`; zero for the empty forest.
pub open spec fn forest_max_depth(s: Seq<SyntaxTree>, depth: nat) -> nat
    decreases s,
{
    if s.len() == 0 {
        0
    } else {
        depth_max(
            forest_max_depth(s.drop_last(), depth),
            depth_max(depth, max_depth_below(s.last(), depth + 1)),
        )
    }
}

/// Number of descendants of `t` whose kind label is one of `kinds`.
pub open spec fn decision_point_count(t: SyntaxTree, kinds: Seq<Seq<char>>) -> nat
    decreases t,
{
    forest_decision_count(t.children@, kinds)
}

/// Number of nodes of a forest whose kind label is one of `kinds`.
pub open spec fn forest_decision_count(s: Seq<SyntaxTree>, kinds: Seq<Seq<char>>) -> nat
    decreases s,
{
    if s.len() == 0 {
        0
    } else {
        forest_decision_count(s.drop_last(), kinds) + (if kinds.contains(s.last().kind@) {
            1nat
        } else {
            0nat
        }) + decision_point_count(s.last(), kinds)
    }
}

/// Height of `t` in edges: zero for a childless node, else one more
/// than the tallest child.
pub open spec fn tree_height(t: SyntaxTree) -> nat
    decreases t,
{
    forest_height(t.children@)
}

/// Height of a forest: zero when empty, else the tallest root counted
/// together with the edge that reaches it.
pub open spec fn forest_height(s: Seq<SyntaxTree>) -> nat
    decreases s,
{
    if s.len() == 0 {
        0
    } else {
        depth_max(forest_height(s.drop_last()), 1 + tree_height(s.last()))
    }
}

/// Taking one more element appends exactly that element.
pub proof fn lemma_take_succ(s: Seq<SyntaxTree>, i: int)
    requires
        0 <= i < s.len(),
    ensures
        s.take(i + 1) == s.take(i) + seq![s[i]],
{
    assert(s.take(i + 1) =~= s.take(i) + seq![s[i]]);
}

/// Node counts add across forest concatenation.
pub proof fn lemma_forest_node_count_concat(a: Seq<SyntaxTree>, b: Seq<SyntaxTree>)
    ensures
        forest_node_count(a + b) == forest_node_count(a) + forest_node_count(b),
    decreases b.len(),
{
    if b.len() == 0 {
        assert(a + b =~= a);
    } else {
        assert((a + b).drop_last() =~= a + b.drop_last());
        lemma_forest_node_count_concat(a, b.drop_last());
    }
}

/// A one-node forest counts that node and its descendants.
pub proof fn lemma_forest_node_count_singleton(x: SyntaxTree)
    ensures
        forest_node_count(seq![x]) == 1 + descendant_count(x),
{
    reveal_with_fuel(forest_node_count, 2);
    assert(seq![x].drop_last() =~= Seq::<SyntaxTree>::empty());
}

/// Weighted sums add across forest concatenation.
pub proof fn lemma_forest_weighted_sum_concat(a: Seq<SyntaxTree>, b: Seq<SyntaxTree>, depth: nat)
    ensures
        forest_weighted_sum(a + b, depth) == forest_weighted_sum(a, depth) + forest_weighted_sum(
            b,
            depth,
        ),
    decreases b.len(),
{
    if b.len() == 0 {
        assert(a + b =~= a);
    } else {
        assert((a + b).drop_last() =~= a + b.drop_last());
        lemma_forest_weighted_sum_concat(a, b.drop_last(), depth);
    }
}

/// A one-node forest weighs its root's depth plus the subtree below.
pub proof fn lemma_forest_weighted_sum_singleton(x: SyntaxTree, depth: nat)
    ensures
        forest_weighted_sum(seq![x], depth) == depth + weighted_depth_sum(x, depth + 1),
{
    reveal_with_fuel(forest_weighted_sum, 2);
    assert(seq![x].drop_last() =~= Seq::<SyntaxTree>::empty());
}

/// The greatest depth of a concatenation is the greater of the parts.
pub proof fn lemma_forest_max_depth_concat(a: Seq<SyntaxTree>, b: Seq<SyntaxTree>, depth: nat)
    ensures
        forest_max_depth(a + b, depth) == depth_max(
            forest_max_depth(a, depth),
            forest_max_depth(b, depth),
        ),
    decreases b.len(),
{
    if b.len() == 0 {
        assert(a + b =~= a);
    } else {
        assert((a + b).drop_last() =~= a + b.drop_last());
        lemma_forest_max_depth_concat(a, b.drop_last(), depth);
    }
}

/// A one-node forest reaches its root's depth or deeper.
pub proof fn lemma_forest_max_depth_singleton(x: SyntaxTree, depth: nat)
    ensures
        forest_max_depth(seq![x], depth) == depth_max(depth, max_depth_below(x, depth + 1)),
{
    reveal_with_fuel(forest_max_depth, 2);
    assert(seq![x].drop_last() =~= Seq::<SyntaxTree>::empty());
}

/// Decision-point counts add across forest concatenation.
pub proof fn lemma_forest_decision_count_concat(
    a: Seq<SyntaxTree>,
    b: Seq<SyntaxTree>,
    kinds: Seq<Seq<char>>,
)
    ensures
        forest_decision_count(a + b, kinds) == forest_decision_count(a, kinds)
            + forest_decision_count(b, kinds),
    decreases b.len(),
{
    if b.len() == 0 {
        assert(a + b =~= a);
    } else {
        assert((a + b).drop_last() =~= a + b.drop_last());
        lemma_forest_decision_count_concat(a, b.drop_last(), kinds);
    }
}

/// A one-node forest counts its root's match and the subtree below.
pub proof fn lemma_forest_decision_count_singleton(x: SyntaxTree, kinds: Seq<Seq<char>>)
    ensures
        forest_decision_count(seq![x], kinds) == (if kinds.contains(x.kind@) {
            1nat
        } else {
            0nat
        }) + decision_point_count(x, kinds),
{
    reveal_with_fuel(forest_decision_count, 2);
    assert(seq![x].drop_last() =~= Seq::<SyntaxTree>::empty());
}

/// The height of a concatenation is the greater of the parts.
pub proof fn lemma_forest_height_concat(a: Seq<SyntaxTree>, b: Seq<SyntaxTree>)
    ensures
        forest_height(a + b) == depth_max(forest_height(a), forest_height(b)),
    decreases b.len(),
{
    if b.len() == 0 {
        assert(a + b =~= a);
    } else {
        assert((a + b).drop_last() =~= a + b.drop_last());
        lemma_forest_height_concat(a, b.drop_last());
    }
}

/// A one-node forest is as tall as that node plus its own edge.
pub proof fn lemma_forest_height_singleton(x: SyntaxTree)
    ensures
        forest_height(seq![x]) == 1 + tree_height(x),
{
    reveal_with_fuel(forest_height, 2);
    assert(seq![x].drop_last() =~= Seq::<SyntaxTree>::empty());
}

/// No more decision points than descendants.
pub proof fn lemma_decision_count_le_descendant_count(t: SyntaxTree, kinds: Seq<Seq<char>>)
    ensures
        decision_point_count(t, kinds) <= descendant_count(t),
    decreases t,
{
    lemma_forest_decision_le_node_count(t.children@, kinds);
}

/// No more decision points than nodes, over a whole forest.
pub proof fn lemma_forest_decision_le_node_count(s: Seq<SyntaxTree>, kinds: Seq<Seq<char>>)
    ensures
        forest_decision_count(s, kinds) <= forest_node_count(s),
    decreases s,
{
    if s.len() > 0 {
        lemma_forest_decision_le_node_count(s.drop_last(), kinds);
        lemma_decision_count_le_descendant_count(s.last(), kinds);
    }
}

/// A tree is never taller than its number of descendants.
pub proof fn lemma_height_le_descendant_count(t: SyntaxTree)
    ensures
        tree_height(t) <= descendant_count(t),
    decreases t,
{
    lemma_forest_height_le_node_count(t.children@);
}

/// A forest is never taller than its number of nodes.
pub proof fn lemma_forest_height_le_node_count(s: Seq<SyntaxTree>)
    ensures
        forest_height(s) <= forest_node_count(s),
    decreases s,
{
    if s.len() > 0 {
        lemma_forest_height_le_node_count(s.drop_last());
        lemma_height_le_descendant_count(s.last());
    }
}

/// Every root of a forest fits under the forest's height.
pub proof fn lemma_forest_height_member(s: Seq<SyntaxTree>, i: int)
    requires
        0 <= i < s.len(),
    ensures
        1 + tree_height(s[i]) <= forest_height(s),
{
    assert(s =~= s.take(i + 1) + s.skip(i + 1));
    lemma_take_succ(s, i);
    lemma_forest_height_concat(s.take(i + 1), s.skip(i + 1));
    lemma_forest_height_concat(s.take(i), seq![s[i]]);
    lemma_forest_height_singleton(s[i]);
}

/// The deepest descendant lies `height - 1` levels below the children.
pub proof fn lemma_max_depth_below_height(t: SyntaxTree, depth: nat)
    ensures
        max_depth_below(t, depth) == if tree_height(t) == 0 {
            0int
        } else {
            depth + tree_height(t) - 1
        },
    decreases t,
{
    lemma_forest_max_depth_height(t.children@, depth);
}

/// The deepest node of a forest lies `height - 1` levels below `depth`.
pub proof fn lemma_forest_max_depth_height(s: Seq<SyntaxTree>, depth: nat)
    ensures
        forest_max_depth(s, depth) == if s.len() == 0 {
            0int
        } else {
            depth + forest_height(s) - 1
        },
    decreases s,
{
    if s.len() > 0 {
        lemma_forest_max_depth_height(s.drop_last(), depth);
        lemma_max_depth_below_height(s.last(), depth + 1);
    }
}

/// The greatest depth reached is the tree's height less one; a
/// childless root keeps the starting depth of zero.
pub proof fn lemma_max_depth_is_height_minus_one(t: SyntaxTree)
    ensures
        max_depth_below(t, 0) == if tree_height(t) == 0 {
            0int
        } else {
            tree_height(t) - 1
        },
{
    lemma_max_depth_below_height(t, 0);
}

} // verus!
