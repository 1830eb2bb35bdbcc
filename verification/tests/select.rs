//! Grammar selection from the language identifier.

use plexity::config::{select_grammar, Grammar};

#[test]
fn test_select_parser_c() {
    let input_language = "c".to_string();
    assert_eq!(select_grammar(&input_language), Grammar::C);
}

#[test]
fn test_select_parser_dockerfile() {
    let input_language = "dockerfile".to_string();
    assert_eq!(select_grammar(&input_language), Grammar::Dockerfile);
}

#[test]
fn test_select_parser_java() {
    let input_language = "java".to_string();
    assert_eq!(select_grammar(&input_language), Grammar::Java);
}

#[test]
fn test_select_parser_javascript() {
    let input_language = "javascript".to_string();
    assert_eq!(select_grammar(&input_language), Grammar::Javascript);
}

#[test]
fn test_select_parser_json() {
    let input_language = "json".to_string();
    assert_eq!(select_grammar(&input_language), Grammar::Json);
}

#[test]
fn test_select_parser_markdown() {
    let input_language = "markdown".to_string();
    assert_eq!(select_grammar(&input_language), Grammar::Markdown);
}

#[test]
fn test_select_parser_python() {
    let input_language = "python".to_string();
    assert_eq!(select_grammar(&input_language), Grammar::Python);
}

#[test]
fn test_select_parser_rust() {
    let input_language = "rust".to_string();
    assert_eq!(select_grammar(&input_language), Grammar::Rust);
}

#[test]
fn test_select_parser_toml() {
    let input_language = "toml".to_string();
    assert_eq!(select_grammar(&input_language), Grammar::Toml);
}

#[test]
fn test_select_grammar_cpp() {
    assert_eq!(select_grammar(&"cpp".to_string()), Grammar::Cpp);
}

#[test]
fn test_select_grammar_css() {
    assert_eq!(select_grammar(&"css".to_string()), Grammar::Css);
}

#[test]
fn test_select_grammar_gitattributes() {
    assert_eq!(select_grammar(&"gitattributes".to_string()), Grammar::Gitattributes);
}

#[test]
fn test_select_grammar_html() {
    assert_eq!(select_grammar(&"html".to_string()), Grammar::Html);
}

#[test]
fn test_select_grammar_php() {
    assert_eq!(select_grammar(&"php".to_string()), Grammar::Php);
}

#[test]
fn test_select_grammar_typescript() {
    assert_eq!(select_grammar(&"typescript".to_string()), Grammar::Typescript);
}

#[test]
fn test_select_grammar_unknown_falls_back_to_python() {
    assert_eq!(select_grammar(&"cobol".to_string()), Grammar::Python);
    assert_eq!(select_grammar(&"".to_string()), Grammar::Python);
}
