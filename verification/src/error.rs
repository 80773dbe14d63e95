//! Why a function cannot be given a context.

use vstd::prelude::*;
use vstd::string::*;
use crate::syntax::{quoted, quoted_text};

verus! {

/// The reasons for which no rewritten function is produced.
#[derive(Debug, Clone, PartialEq, Eq)]
pub enum ContextError {
    /// The annotated item is no function; the message is the parser's.
    Syntax(String),
    /// The context was to come from the documentation and there is none.
    MissingDoc,
    /// The function names no return type, so it has no failure to annotate.
    MissingReturnType,
}

/// `ContextError` with its message as a sequence of characters.
pub enum ErrorView {
    Syntax(Seq<char>),
    MissingDoc,
    MissingReturnType,
}

impl View for ContextError {
    type V = ErrorView;

    open spec fn view(&self) -> ErrorView {
        match self {
            ContextError::Syntax(m) => ErrorView::Syntax(m@),
            ContextError::MissingDoc => ErrorView::MissingDoc,
            ContextError::MissingReturnType => ErrorView::MissingReturnType,
        }
    }
}

/// The text shown to the user for `e`.
pub open spec fn message_of(e: ErrorView) -> Seq<char> {
    match e {
        ErrorView::Syntax(m) => m,
        ErrorView::MissingDoc => "no doc comment provided"@,
        ErrorView::MissingReturnType => "no return type provided"@,
    }
}

/// The tokens that make the compiler report `e`: a call of `compile_error`
/// with the message as a string literal.
pub open spec fn diagnostic_of(e: ErrorView) -> Seq<char> {
    "compile_error ! { "@ + quoted_text(message_of(e)) + " }"@
}

impl ContextError {
    /// The text shown to the user.
    pub fn message(&self) -> (r: String)
        ensures
            r@ == message_of(self@),
    {
        match self {
            ContextError::Syntax(m) => m.clone(),
            ContextError::MissingDoc => String::from_str("no doc comment provided"),
            ContextError::MissingReturnType => String::from_str("no return type provided"),
        }
    }

    /// The tokens to put in the function's place so that the compiler reports
    /// the error.
    pub fn diagnostic(&self) -> (r: String)
        ensures
            r@ == diagnostic_of(self@),
    {
        let mut out = String::from_str("compile_error ! { ");
        out.append(quoted(self.message().as_str()).as_str());
        out.append(" }");
        out
    }
}

} // verus!
