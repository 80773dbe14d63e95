//! The rewriting itself: which expression gives the context, and the text of
//! the function that attaches it.

use vstd::prelude::*;
use vstd::string::*;
use crate::error::{ContextError, ErrorView};
use crate::item::{Attribute, AttributeView, Function, FunctionView, attribute_views};
use crate::mode::{Mode, ModeView};

verus! {

/// Whether `a` carries documentation: it is named `doc` and has a string
/// literal behind `=`.
pub open spec fn is_doc(a: AttributeView) -> bool {
    a.name =~= seq!['d', 'o', 'c'] && a.literal.is_some()
}

/// The literal of the first documentation attribute at or after `from`.
pub open spec fn first_doc(attrs: Seq<AttributeView>, from: int) -> Option<Seq<char>>
    decreases attrs.len() - from,
{
    if from < 0 || from >= attrs.len() {
        None
    } else if is_doc(attrs[from]) {
        attrs[from].literal
    } else {
        first_doc(attrs, from + 1)
    }
}

/// The expression whose value is the context.
///
/// From the documentation: the literal of the first documentation attribute,
/// trimmed when the function runs. From the name: the name between quotes.
/// From a message: the literal as written.
pub open spec fn context_of(mode: ModeView, f: FunctionView) -> Result<Seq<char>, ErrorView> {
    match mode {
        ModeView::Doc => match first_doc(f.attrs, 0) {
            Some(literal) => Ok(literal + ".trim()"@),
            None => Err(ErrorView::MissingDoc),
        },
        ModeView::FnName => Ok("\""@ + f.name + "\""@),
        ModeView::Message(literal) => Ok(literal),
    }
}

/// The tokens of those among the first `n` attributes that stand in the body
/// (`inner`) or before the function (not `inner`), a space behind each.
pub open spec fn attribute_tokens(attrs: Seq<AttributeView>, n: int, inner: bool) -> Seq<char>
    decreases n,
{
    if n <= 0 {
        Seq::empty()
    } else if attrs[n - 1].inner == inner {
        attribute_tokens(attrs, n - 1, inner) + attrs[n - 1].tokens + " "@
    } else {
        attribute_tokens(attrs, n - 1, inner)
    }
}

/// The arguments of the call that passes the parameters on: of the first `n`
/// parameters those that have a pattern, a comma behind each.
pub open spec fn arguments(patterns: Seq<Option<Seq<char>>>, n: int) -> Seq<char>
    decreases n,
{
    if n <= 0 {
        Seq::empty()
    } else {
        match patterns[n - 1] {
            Some(p) => arguments(patterns, n - 1) + p + ", "@,
            None => arguments(patterns, n - 1),
        }
    }
}

/// The function `f` rewritten so that a failure it returns carries the value
/// of the expression `context`.
///
/// The function keeps the attributes before it, its visibility and its
/// signature. Its body now holds the function as it was, without those
/// attributes and the visibility, and a call of it with the same arguments.
pub open spec fn rewritten(f: FunctionView, context: Seq<char>) -> Seq<char> {
    attribute_tokens(f.attrs, f.attrs.len() as int, false) + f.vis + " "@ + f.signature + " { "@
        + f.signature + " { "@ + attribute_tokens(f.attrs, f.attrs.len() as int, true) + f.body
        + " } Ok("@ + f.name + "("@ + arguments(f.patterns, f.patterns.len() as int)
        + ").context("@ + context + ")?) }"@
}

/// What `expand` returns for `f` in `mode`.
pub open spec fn expansion_of(mode: ModeView, f: FunctionView) -> Result<Seq<char>, ErrorView> {
    match context_of(mode, f) {
        Err(e) => Err(e),
        Ok(context) => if f.return_type.is_none() {
            Err(ErrorView::MissingReturnType)
        } else {
            Ok(rewritten(f, context))
        },
    }
}

/// The view of a `Result` that holds text.
pub open spec fn text_view(r: Result<String, ContextError>) -> Result<Seq<char>, ErrorView> {
    match r {
        Ok(s) => Ok(s@),
        Err(e) => Err(e@),
    }
}

/// A function that has documentation and names a return type is rewritten
/// in every mode. In the two modes that ask for no documentation, the return
/// type alone decides.
pub proof fn lemma_expansion_succeeds(mode: ModeView, f: FunctionView)
    requires
        f.return_type.is_some(),
        first_doc(f.attrs, 0).is_some() || mode != ModeView::Doc,
    ensures
        expansion_of(mode, f).is_ok(),
{
}

/// Decides `is_doc`.
pub fn documents(a: &Attribute) -> (r: bool)
    ensures
        r == is_doc(a@),
{
    let name = a.name.as_str();
    let named = name.unicode_len() == 3 && name.get_char(0) == 'd' && name.get_char(1) == 'o'
        && name.get_char(2) == 'c';
    named && a.literal.is_some()
}

/// The literal of the first documentation attribute of `attrs`.
pub fn doc_literal(attrs: &Vec<Attribute>) -> (r: Option<String>)
    ensures
        r.deep_view() == first_doc(attribute_views(attrs@), 0),
{
    let mut i: usize = 0;
    while i < attrs.len()
        invariant
            i <= attrs.len(),
            first_doc(attribute_views(attrs@), 0) == first_doc(attribute_views(attrs@), i as int),
        decreases attrs.len() - i,
    {
        if documents(&attrs[i]) {
            return attrs[i].literal.clone();
        }
        i = i + 1;
    }
    None
}

/// The expression whose value is the context of `f` in `mode`.
///
/// Fails with `MissingDoc` exactly where the documentation is asked for and
/// no attribute of `f` carries any.
pub fn context_expression(mode: &Mode, f: &Function) -> (r: Result<String, ContextError>)
    ensures
        text_view(r) == context_of(mode@, f@),
{
    match mode {
        Mode::Doc => match doc_literal(&f.attrs) {
            Some(literal) => {
                let mut out = literal;
                out.append(".trim()");
                Ok(out)
            },
            None => Err(ContextError::MissingDoc),
        },
        Mode::FnName => {
            let mut out = String::from_str("\"");
            out.append(f.name.as_str());
            out.append("\"");
            Ok(out)
        },
        Mode::Message(literal) => Ok(literal.clone()),
    }
}

/// The tokens of the attributes of `attrs` that stand in the body (`inner`)
/// or before the function (not `inner`).
pub fn attributes_text(attrs: &Vec<Attribute>, inner: bool) -> (r: String)
    ensures
        r@ == attribute_tokens(attribute_views(attrs@), attrs@.len() as int, inner),
{
    let mut out = String::new();
    let mut i: usize = 0;
    while i < attrs.len()
        invariant
            i <= attrs.len(),
            out@ == attribute_tokens(attribute_views(attrs@), i as int, inner),
        decreases attrs.len() - i,
    {
        if attrs[i].inner == inner {
            out.append(attrs[i].tokens.as_str());
            out.append(" ");
        }
        i = i + 1;
    }
    out
}

/// The arguments of the call that passes all parameters on.
pub fn arguments_text(patterns: &Vec<Option<String>>) -> (r: String)
    ensures
        r@ == arguments(patterns.deep_view(), patterns@.len() as int),
{
    let mut out = String::new();
    let mut i: usize = 0;
    while i < patterns.len()
        invariant
            i <= patterns.len(),
            out@ == arguments(patterns.deep_view(), i as int),
        decreases patterns.len() - i,
    {
        match &patterns[i] {
            Some(p) => {
                out.append(p.as_str());
                out.append(", ");
            },
            None => {},
        }
        i = i + 1;
    }
    out
}

/// Writes `f` so that a failure it returns carries the value of `context`.
pub fn rewrite(f: &Function, context: &str) -> (r: String)
    ensures
        r@ == rewritten(f@, context@),
{
    let mut out = attributes_text(&f.attrs, false);
    out.append(f.vis.as_str());
    out.append(" ");
    out.append(f.signature.as_str());
    out.append(" { ");
    out.append(f.signature.as_str());
    out.append(" { ");
    out.append(attributes_text(&f.attrs, true).as_str());
    out.append(f.body.as_str());
    out.append(" } Ok(");
    out.append(f.name.as_str());
    out.append("(");
    out.append(arguments_text(&f.patterns).as_str());
    out.append(").context(");
    out.append(context);
    out.append(")?) }");
    out
}

/// Rewrites `f` for `mode`.
///
/// Fails with `MissingDoc` where the documentation is asked for and `f` has
/// none, else with `MissingReturnType` where `f` names no return type.
pub fn expand(mode: &Mode, f: &Function) -> (r: Result<String, ContextError>)
    ensures
        text_view(r) == expansion_of(mode@, f@),
{
    match context_expression(mode, f) {
        Err(e) => Err(e),
        Ok(context) => if f.return_type.is_none() {
            Err(ContextError::MissingReturnType)
        } else {
            Ok(rewrite(f, context.as_str()))
        },
    }
}

} // verus!
