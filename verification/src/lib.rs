//! Gives the failures of a function a context taken from its documentation.
//!
//! An annotated function is rewritten so that a failure it returns carries a
//! context: the first line of its documentation comment, its name, or a
//! message written in the annotation. This crate does the rewriting on source
//! text: it takes the annotation's argument and the function, and gives the
//! text of the function to compile in its place.

use vstd::prelude::*;

pub mod error;
pub mod expand;
pub mod item;
pub mod mode;
pub mod syntax;
pub mod text;

use crate::error::{diagnostic_of, ContextError, ErrorView};
use crate::expand::{expand, expansion_of, text_view};
use crate::item::{function_of, read_function};
use crate::mode::{mode_of, parse_mode};

verus! {

/// What `try_context` returns: the parser's error where `item` is no function,
/// else the expansion of the function it holds, in the mode that `attr` asks
/// for.
pub open spec fn rewriting_of(attr: Seq<char>, item: Seq<char>) -> Result<Seq<char>, ErrorView> {
    match function_of(item) {
        Err(e) => Err(e),
        Ok(f) => expansion_of(mode_of(attr), f),
    }
}

/// What `context` returns: the rewritten function, or the tokens that report
/// why there is none.
pub open spec fn context_of_item(attr: Seq<char>, item: Seq<char>) -> Seq<char> {
    match rewriting_of(attr, item) {
        Ok(tokens) => tokens,
        Err(e) => diagnostic_of(e),
    }
}

/// Rewrites the function in `item` as the argument `attr` asks, or says why
/// it cannot.
pub fn try_context(attr: &str, item: &str) -> (r: Result<String, ContextError>)
    ensures
        text_view(r) == rewriting_of(attr@, item@),
{
    match read_function(item) {
        Err(e) => Err(e),
        Ok(f) => {
            let mode = parse_mode(attr);
            expand(&mode, &f)
        },
    }
}

/// Use a doc comment to annotate the failure context of a function.
///
/// `attr` is the argument of the annotation and `item` the annotated function,
/// both as source text. The result is the text to compile in the function's
/// place: the rewritten function, or a call of `compile_error` where `item`
/// is no function, where the documentation is asked for and missing, or
/// where the function names no return type.
pub fn context(attr: &str, item: &str) -> (r: String)
    ensures
        r@ == context_of_item(attr@, item@),
{
    match try_context(attr, item) {
        Ok(tokens) => tokens,
        Err(e) => e.diagnostic(),
    }
}

} // verus!
