//! Traversal and scorecard behaviour on hand-built trees.

use plexity::classifier::Classifier;
use plexity::scorecard::{analyze, summarize, AverageDepth};
use plexity::traversal::{traverse, TraversalState};
use plexity::tree::{SourcePosition, SyntaxTree};

fn node(kind: &str, children: Vec<SyntaxTree>) -> SyntaxTree {
    let pos = SourcePosition { row: 0, column: 0 };
    SyntaxTree { kind: kind.to_string(), children, start: pos, end: pos }
}

fn no_decisions() -> Classifier {
    Classifier::new(Vec::new())
}

#[test]
fn test_node_count_counts_every_descendant() {
    // A root with 3 children, one of which has 2 children: 5 descendants.
    let root = node(
        "root",
        vec![
            node("a", vec![node("a1", vec![]), node("a2", vec![])]),
            node("b", vec![]),
            node("c", vec![]),
        ],
    );
    let card = analyze(&root, &no_decisions());
    assert_eq!(card.node_count, 5);
}

#[test]
fn test_max_depth_direct_children_only() {
    // Direct children sit at depth 0, so the maximum stays 0.
    let root = node("root", vec![node("a", vec![]), node("b", vec![])]);
    let card = analyze(&root, &no_decisions());
    assert_eq!(card.max_depth, 0);
}

#[test]
fn test_max_depth_deep_chain() {
    // The deepest descendant lies 3 levels below a direct child.
    let root = node(
        "root",
        vec![node("a", vec![node("b", vec![node("c", vec![node("d", vec![])])])])],
    );
    let card = analyze(&root, &no_decisions());
    assert_eq!(card.max_depth, 3);
}

#[test]
fn test_weighted_sum_three_level_tree() {
    // Depths: x -> 0, y -> 0, x1 -> 1, x2 -> 1, x1a -> 2; sum = 4.
    let root = node(
        "root",
        vec![
            node("x", vec![node("x1", vec![node("x1a", vec![])]), node("x2", vec![])]),
            node("y", vec![]),
        ],
    );
    let card = analyze(&root, &no_decisions());
    assert_eq!(card.weighted_sum, 4);
    assert_eq!(card.node_count, 5);
    assert_eq!(
        card.average_depth,
        AverageDepth::Ratio { numerator: 4, denominator: 5 }
    );
}

#[test]
fn test_cyclomatic_estimate_is_decision_count_plus_one() {
    let decisions = Classifier::new(vec!["if".to_string(), "while".to_string()]);
    let root = node(
        "root",
        vec![
            node("if", vec![node("call", vec![])]),
            node("while", vec![node("if", vec![])]),
        ],
    );
    let card = analyze(&root, &decisions);
    assert_eq!(card.decision_count, 3);
    assert_eq!(card.cyclomatic_estimate, 4);
}

#[test]
fn test_cyclomatic_estimate_baseline_without_decisions() {
    let root = node("root", vec![node("call", vec![])]);
    let card = analyze(&root, &no_decisions());
    assert_eq!(card.decision_count, 0);
    assert_eq!(card.cyclomatic_estimate, 1);
}

#[test]
fn test_traversal_idempotent() {
    // The tree is immutable; two runs must agree bit for bit.
    let decisions = Classifier::new(vec!["branch".to_string()]);
    let root = node(
        "root",
        vec![node("branch", vec![node("leaf", vec![])]), node("leaf", vec![])],
    );
    let first = analyze(&root, &decisions);
    let second = analyze(&root, &decisions);
    assert_eq!(first, second);
}

#[test]
fn test_empty_root_yields_degenerate_scorecard() {
    let root = node("root", vec![]);
    let card = analyze(&root, &no_decisions());
    assert_eq!(card.node_count, 0);
    assert_eq!(card.max_depth, 0);
    assert_eq!(card.weighted_sum, 0);
    assert_eq!(card.decision_count, 0);
    assert_eq!(card.cyclomatic_estimate, 1);
    assert_eq!(card.average_depth, AverageDepth::NotApplicable);
}

#[test]
fn test_classifier_purity() {
    let decisions = Classifier::new(vec!["if_statement".to_string()]);
    let hit = "if_statement".to_string();
    let miss = "call".to_string();
    for _ in 0..3 {
        assert!(decisions.is_decision_point(&hit));
        assert!(!decisions.is_decision_point(&miss));
    }
}

#[test]
fn test_traverse_accumulates_onto_given_state() {
    // Two descendants at depths 4 and 5 on top of a preloaded state.
    let tree = node("a", vec![node("b", vec![node("c", vec![])])]);
    let state = TraversalState { node_count: 10, max_depth: 2, weighted_sum: 7, decision_count: 1 };
    let result = traverse(&tree, 4, state, &no_decisions());
    assert_eq!(result.node_count, 12);
    assert_eq!(result.max_depth, 5);
    assert_eq!(result.weighted_sum, 7 + 4 + 5);
    assert_eq!(result.decision_count, 1);
}

#[test]
fn test_summarize_keeps_raw_aggregates() {
    let state = TraversalState { node_count: 4, max_depth: 2, weighted_sum: 3, decision_count: 1 };
    let card = summarize(state);
    assert_eq!(card.node_count, 4);
    assert_eq!(card.max_depth, 2);
    assert_eq!(card.weighted_sum, 3);
    assert_eq!(card.decision_count, 1);
    assert_eq!(card.cyclomatic_estimate, 2);
    assert_eq!(card.average_depth, AverageDepth::Ratio { numerator: 3, denominator: 4 });
}

#[test]
fn test_empty_classifier_finds_no_decision_points() {
    let classifier = no_decisions();
    assert!(!classifier.is_decision_point(&"if_statement".to_string()));
}

#[test]
fn test_scenario_branch_tree() {
    // Four descendants at depths 0, 1, 2 and 0; one decision point.
    let root = node(
        "root",
        vec![
            node("branch_node", vec![node("leaf", vec![node("leaf", vec![])])]),
            node("leaf", vec![]),
        ],
    );
    let decisions = Classifier::new(vec!["branch_node".to_string()]);
    let card = analyze(&root, &decisions);
    assert_eq!(card.node_count, 4);
    assert_eq!(card.decision_count, 1);
    assert_eq!(card.cyclomatic_estimate, 2);
    assert_eq!(card.max_depth, 2);
    assert_eq!(card.weighted_sum, 3);
    let average = match card.average_depth {
        AverageDepth::Ratio { numerator, denominator } => numerator as f64 / denominator as f64,
        AverageDepth::NotApplicable => panic!("average expected for a non-empty tree"),
    };
    assert_eq!(average, 0.75);
}
