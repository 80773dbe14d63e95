//! The annotated function, held as the pieces of text that the rewriting
//! reads and puts back together.

use vstd::prelude::*;
use vstd::string::*;
use crate::error::{ContextError, ErrorView};
use crate::syntax::{
    attributes, body, name, patterns, return_type, signature, syntax_error, visibility,
    item_attributes, item_body, item_name, item_patterns, item_return_type, item_signature,
    item_syntax_error, item_visibility,
};

verus! {

/// One attribute of a function, a documentation comment included.
#[derive(Debug, Clone, PartialEq, Eq)]
pub struct Attribute {
    /// The attribute as tokens, from `#` to `]`.
    pub tokens: String,
    /// The first name of its path: `doc` for a documentation comment.
    pub name: String,
    /// The string literal behind `=`, quotes included, where the attribute has
    /// the form `name = "literal"`.
    pub literal: Option<String>,
    /// Whether it stands at the head of the function's body, as `#![..]` or
    /// `//!`, and not before the function.
    pub inner: bool,
}

/// `Attribute` over sequences of characters.
pub struct AttributeView {
    pub tokens: Seq<char>,
    pub name: Seq<char>,
    pub literal: Option<Seq<char>>,
    pub inner: bool,
}

impl View for Attribute {
    type V = AttributeView;

    open spec fn view(&self) -> AttributeView {
        AttributeView {
            tokens: self.tokens@,
            name: self.name@,
            literal: self.literal.deep_view(),
            inner: self.inner,
        }
    }
}

/// A function item, cut into the parts that are kept apart when it is
/// rewritten.
#[derive(Debug, Clone, PartialEq, Eq)]
pub struct Function {
    /// Its attributes: those before it, then those at the head of its body.
    pub attrs: Vec<Attribute>,
    /// Its visibility, empty where none is written.
    pub vis: String,
    /// Its signature, from the qualifiers to the end of the `where` clause.
    pub signature: String,
    /// Its name.
    pub name: String,
    /// For each parameter its pattern, `None` for a receiver and any other
    /// parameter not written `pattern: type`.
    pub patterns: Vec<Option<String>>,
    /// Its return type, `None` where none is written.
    pub return_type: Option<String>,
    /// The statements of its body, without the braces and the attributes at
    /// its head.
    pub body: String,
}

/// `Function` over sequences of characters.
pub struct FunctionView {
    pub attrs: Seq<AttributeView>,
    pub vis: Seq<char>,
    pub signature: Seq<char>,
    pub name: Seq<char>,
    pub patterns: Seq<Option<Seq<char>>>,
    pub return_type: Option<Seq<char>>,
    pub body: Seq<char>,
}

impl View for Function {
    type V = FunctionView;

    open spec fn view(&self) -> FunctionView {
        FunctionView {
            attrs: attribute_views(self.attrs@),
            vis: self.vis@,
            signature: self.signature@,
            name: self.name@,
            patterns: self.patterns.deep_view(),
            return_type: self.return_type.deep_view(),
            body: self.body@,
        }
    }
}

/// The views of `attrs`, in the same order.
pub open spec fn attribute_views(attrs: Seq<Attribute>) -> Seq<AttributeView> {
    Seq::new(attrs.len(), |i: int| attrs[i]@)
}

/// The attribute that the parser's `(tokens, name, literal, inner)` stands
/// for.
pub open spec fn attribute_of(
    t: (Seq<char>, Seq<char>, Option<Seq<char>>, bool),
) -> AttributeView {
    AttributeView { tokens: t.0, name: t.1, literal: t.2, inner: t.3 }
}

/// The attributes that the parser's tuples stand for, in the same order.
pub open spec fn attributes_of(
    parts: Seq<(Seq<char>, Seq<char>, Option<Seq<char>>, bool)>,
) -> Seq<AttributeView> {
    Seq::new(parts.len(), |i: int| attribute_of(parts[i]))
}

/// What `read_function` makes of `item`: the parser's error where it reads no
/// function, else the function's parts as the parser prints them.
pub open spec fn function_of(item: Seq<char>) -> Result<FunctionView, ErrorView> {
    match item_syntax_error(item) {
        Some(m) => Err(ErrorView::Syntax(m)),
        None => Ok(
            FunctionView {
                attrs: attributes_of(item_attributes(item)),
                vis: item_visibility(item),
                signature: item_signature(item),
                name: item_name(item),
                patterns: item_patterns(item),
                return_type: item_return_type(item),
                body: item_body(item),
            },
        ),
    }
}

/// The view of a `Result` of `read_function`.
pub open spec fn result_view(r: Result<Function, ContextError>) -> Result<FunctionView, ErrorView> {
    match r {
        Ok(f) => Ok(f@),
        Err(e) => Err(e@),
    }
}

/// Turns the parser's tuples into attributes, keeping their order.
pub fn attributes_from(parts: Vec<(String, String, Option<String>, bool)>) -> (r: Vec<Attribute>)
    ensures
        attribute_views(r@) == attributes_of(parts.deep_view()),
{
    let mut out: Vec<Attribute> = Vec::new();
    let mut i: usize = 0;
    while i < parts.len()
        invariant
            i <= parts.len(),
            out@.len() == i,
            forall|j: int| 0 <= j < i ==> (#[trigger] out@[j])@ == attribute_of(parts.deep_view()[j]),
        decreases parts.len() - i,
    {
        let a = Attribute {
            tokens: parts[i].0.clone(),
            name: parts[i].1.clone(),
            literal: parts[i].2.clone(),
            inner: parts[i].3,
        };
        out.push(a);
        i = i + 1;
    }
    proof {
        assert(attribute_views(out@) =~= attributes_of(parts.deep_view()));
    }
    out
}

/// Reads `item` as a function item.
///
/// Fails with `ContextError::Syntax` exactly where the parser does, with the
/// parser's message.
pub fn read_function(item: &str) -> (r: Result<Function, ContextError>)
    ensures
        result_view(r) == function_of(item@),
{
    match syntax_error(item) {
        Some(m) => Err(ContextError::Syntax(m)),
        None => Ok(
            Function {
                attrs: attributes_from(attributes(item)),
                vis: visibility(item),
                signature: signature(item),
                name: name(item),
                patterns: patterns(item),
                return_type: return_type(item),
                body: body(item),
            },
        ),
    }
}

} // verus!
