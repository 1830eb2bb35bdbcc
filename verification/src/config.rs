//! Run configuration: the two command-line inputs and the mapping
//! from a language identifier to the grammar the glue layer must load.

use vstd::prelude::*;

use crate::strings::str_eq;

verus! {

/// The two inputs of one run: the file to read and the language
/// identifier naming the grammar to parse it with.
#[derive(Debug)]
pub struct Config {
    pub filepath: String,
    pub language: String,
}

impl Config {
    /// Reads the input filepath and the language identifier from the
    /// command-line arguments (whose first entry is the program name);
    /// a shorter argument list is rejected with an explanation.
    pub fn build(args: &[String]) -> (r: Result<Config, &'static str>)
        ensures
            args@.len() >= 3 ==> (r matches Ok(c) && c.filepath == args@[1] && c.language
                == args@[2]),
            args@.len() < 3 ==> (r matches Err(m) && m@
                == "Both an input filepath and a programming language must be entered as CLI arguments."@),
    {
        if args.len() < 3 {
            return Err(
                "Both an input filepath and a programming language must be entered as CLI arguments.",
            );
        }
        let filepath = args[1].clone();
        let language = args[2].clone();
        Ok(Config { filepath, language })
    }
}

/// The grammars a parser can be selected for.
#[derive(Clone, Copy, PartialEq, Eq, Structural, Debug)]
pub enum Grammar {
    C,
    Cpp,
    Css,
    Dockerfile,
    Gitattributes,
    Html,
    Java,
    Javascript,
    Json,
    Markdown,
    Php,
    Python,
    Rust,
    Toml,
    Typescript,
}

/// The grammar each language identifier names.  An unrecognized
/// identifier falls back to the Python grammar, as the glue layer has
/// always done.
pub open spec fn grammar_of(language: Seq<char>) -> Grammar {
    if language == "c"@ {
        Grammar::C
    } else if language == "cpp"@ {
        Grammar::Cpp
    } else if language == "css"@ {
        Grammar::Css
    } else if language == "dockerfile"@ {
        Grammar::Dockerfile
    } else if language == "gitattributes"@ {
        Grammar::Gitattributes
    } else if language == "html"@ {
        Grammar::Html
    } else if language == "java"@ {
        Grammar::Java
    } else if language == "javascript"@ {
        Grammar::Javascript
    } else if language == "json"@ {
        Grammar::Json
    } else if language == "markdown"@ {
        Grammar::Markdown
    } else if language == "php"@ {
        Grammar::Php
    } else if language == "python"@ {
        Grammar::Python
    } else if language == "rust"@ {
        Grammar::Rust
    } else if language == "toml"@ {
        Grammar::Toml
    } else if language == "typescript"@ {
        Grammar::Typescript
    } else {
        Grammar::Python
    }
}

/// Decides which grammar the glue layer must hand to the parser for
/// the given language identifier.
pub fn select_grammar(language: &String) -> (g: Grammar)
    ensures
        g == grammar_of(language@),
{
    let s = language.as_str();
    if str_eq(s, "c") {
        Grammar::C
    } else if str_eq(s, "cpp") {
        Grammar::Cpp
    } else if str_eq(s, "css") {
        Grammar::Css
    } else if str_eq(s, "dockerfile") {
        Grammar::Dockerfile
    } else if str_eq(s, "gitattributes") {
        Grammar::Gitattributes
    } else if str_eq(s, "html") {
        Grammar::Html
    } else if str_eq(s, "java") {
        Grammar::Java
    } else if str_eq(s, "javascript") {
        Grammar::Javascript
    } else if str_eq(s, "json") {
        Grammar::Json
    } else if str_eq(s, "markdown") {
        Grammar::Markdown
    } else if str_eq(s, "php") {
        Grammar::Php
    } else if str_eq(s, "python") {
        Grammar::Python
    } else if str_eq(s, "rust") {
        Grammar::Rust
    } else if str_eq(s, "toml") {
        Grammar::Toml
    } else if str_eq(s, "typescript") {
        Grammar::Typescript
    } else {
        Grammar::Python
    }
}

} // verus!
