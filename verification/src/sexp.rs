//! Metrics read straight off an s-expression rendering of a tree: the
//! prefix-based decision test and the parenthesis nesting depth.

use vstd::prelude::*;
use vstd::std_specs::iter::IteratorSpec;
use vstd::utf8::{encode_scalar, encode_utf8};

use crate::strings::str_starts_with;

verus! {

broadcast use
    vstd::slice::axiom_spec_len,
    vstd::string::axiom_spec_iter,
    vstd::string::next_postcondition,
;

/// The s-expression prefixes that mark a decision point under the
/// historical, grammar-specific policy of [`cyclomatic_check`].
pub open spec fn spec_is_cyclomatic_sexp(s: Seq<char>) -> bool {
    ||| "(if_statement"@.is_prefix_of(s)
    ||| "(elif_clause"@.is_prefix_of(s)
    ||| "(for_statement"@.is_prefix_of(s)
    ||| "(while_statement"@.is_prefix_of(s)
    ||| "(except_clause"@.is_prefix_of(s)
    ||| "(with_statement"@.is_prefix_of(s)
    ||| "(assert_statement"@.is_prefix_of(s)
    ||| "(list_comprehension"@.is_prefix_of(s)
    ||| "(set_comprehension"@.is_prefix_of(s)
    ||| "(dictionary_comprehension"@.is_prefix_of(s)
    ||| "(boolean_operator"@.is_prefix_of(s)
}

/// Decides from a node's s-expression whether the node is a decision
/// point: true iff the rendering opens with one of the fixed
/// control-flow-shaped kind labels.
pub fn cyclomatic_check(s_expression: String) -> (r: bool)
    ensures
        r == spec_is_cyclomatic_sexp(s_expression@),
{
    let s = s_expression.as_str();
    str_starts_with(s, "(if_statement") || str_starts_with(s, "(elif_clause") || str_starts_with(
        s,
        "(for_statement",
    ) || str_starts_with(s, "(while_statement") || str_starts_with(s, "(except_clause")
        || str_starts_with(s, "(with_statement") || str_starts_with(s, "(assert_statement")
        || str_starts_with(s, "(list_comprehension") || str_starts_with(s, "(set_comprehension")
        || str_starts_with(s, "(dictionary_comprehension") || str_starts_with(
        s,
        "(boolean_operator",
    )
}

/// Parenthesis balance of `s`: opening parentheses minus closing ones.
pub open spec fn paren_depth(s: Seq<char>) -> int
    decreases s.len(),
{
    if s.len() == 0 {
        0
    } else {
        paren_depth(s.drop_last()) + (if s.last() == '(' {
            1int
        } else if s.last() == ')' {
            -1int
        } else {
            0int
        })
    }
}

/// Greatest parenthesis balance reached over all prefixes of `s`,
/// never below the starting value of zero.
pub open spec fn paren_max_depth(s: Seq<char>) -> int
    decreases s.len(),
{
    if s.len() == 0 {
        0
    } else {
        let m = paren_max_depth(s.drop_last());
        let d = paren_depth(s);
        if d > m {
            d
        } else {
            m
        }
    }
}

/// A sequence of characters never encodes to fewer bytes than it has
/// characters: every scalar takes at least one byte.
proof fn lemma_chars_le_utf8_len(cs: Seq<char>)
    ensures
        cs.len() <= encode_utf8(cs).len(),
    decreases cs.len(),
{
    if cs.len() > 0 {
        assert(encode_scalar(cs[0] as u32).len() >= 1);
        lemma_chars_le_utf8_len(cs.drop_first());
    }
}

/// Greatest nesting depth of an s-expression rendering, read by
/// scanning the text once and tracking the parenthesis balance — the
/// depth check a pretty-printed s-expression makes visible.
#[verifier::loop_isolation(false)]
pub fn sexp_max_depth(s_expression: &str) -> (r: u64)
    ensures
        r == paren_max_depth(s_expression@),
{
    let bytes = s_expression.as_bytes();
    let ghost byte_len: int = bytes@.len() as int;
    proof {
        lemma_chars_le_utf8_len(s_expression@);
        assert(vstd::slice::spec_slice_len(bytes) <= usize::MAX);
        assert(bytes@.len() <= usize::MAX);
        assert(s_expression@.len() <= byte_len);
    }
    let mut it = s_expression.chars();
    let mut depth: i128 = 0;
    let mut maxd: u64 = 0;
    let ghost mut k: int = 0;
    loop
        invariant
            0 <= k <= s_expression@.len(),
            it.remaining() == s_expression@.skip(k),
            depth == paren_depth(s_expression@.take(k)),
            maxd == paren_max_depth(s_expression@.take(k)),
            -k <= depth <= k,
            maxd <= k,
        decreases s_expression@.len() - k,
    {
        match it.next() {
            None => {
                proof {
                    assert(k == s_expression@.len());
                    assert(s_expression@.take(k) =~= s_expression@);
                }
                return maxd;
            },
            Some(c) => {
                proof {
                    assert(s_expression@.skip(k)[0] == s_expression@[k]);
                    assert(s_expression@.take(k + 1).drop_last() =~= s_expression@.take(k));
                    assert(s_expression@.take(k + 1).last() == s_expression@[k]);
                    assert(s_expression@.skip(k).drop_first() =~= s_expression@.skip(k + 1));
                }
                if c == '(' {
                    depth = depth + 1;
                } else if c == ')' {
                    depth = depth - 1;
                }
                if depth > maxd as i128 {
                    maxd = depth as u64;
                }
                proof {
                    k = k + 1;
                }
            },
        }
    }
}

} // verus!
