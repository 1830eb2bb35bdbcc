//! The s-expression decision test and the nesting-depth scan.

use plexity::config::Config;
use plexity::sexp::{cyclomatic_check, sexp_max_depth};

#[test]
fn test_cyclomatic_check_accepts_each_decision_kind() {
    let decisions = [
        "(if_statement (condition))",
        "(elif_clause)",
        "(for_statement (block))",
        "(while_statement)",
        "(except_clause)",
        "(with_statement)",
        "(assert_statement)",
        "(list_comprehension)",
        "(set_comprehension)",
        "(dictionary_comprehension)",
        "(boolean_operator (x) (y))",
    ];
    for s in decisions {
        assert!(cyclomatic_check(s.to_string()), "expected a decision point: {s}");
    }
}

#[test]
fn test_cyclomatic_check_rejects_other_kinds() {
    let others = ["(module (call))", "(call)", "if_statement", "", "(identifier)"];
    for s in others {
        assert!(!cyclomatic_check(s.to_string()), "expected no decision point: {s}");
    }
}

#[test]
fn test_sexp_max_depth_nested() {
    assert_eq!(sexp_max_depth("(module (if_statement (block (call))))"), 4);
    assert_eq!(sexp_max_depth("(a (b) (c (d)))"), 3);
}

#[test]
fn test_sexp_max_depth_flat_and_empty() {
    assert_eq!(sexp_max_depth(""), 0);
    assert_eq!(sexp_max_depth("no parentheses at all"), 0);
    assert_eq!(sexp_max_depth(")("), 0);
}

#[test]
fn test_sexp_max_depth_with_multibyte_characters() {
    assert_eq!(sexp_max_depth("λ (é (ü))"), 2);
}

#[test]
fn test_config_build_takes_filepath_and_language() {
    let args = vec!["plexity".to_string(), "input.py".to_string(), "python".to_string()];
    let config = Config::build(&args).unwrap();
    assert_eq!(config.filepath, "input.py");
    assert_eq!(config.language, "python");
}

#[test]
fn test_config_build_rejects_short_argument_list() {
    let args = vec!["plexity".to_string(), "input.py".to_string()];
    let err = Config::build(&args).unwrap_err();
    assert_eq!(
        err,
        "Both an input filepath and a programming language must be entered as CLI arguments."
    );
}
