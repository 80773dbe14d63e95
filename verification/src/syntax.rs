//! What the Rust parser reads in the text of a function item.
//!
//! Parsing Rust is left to `syn`. Each function here hands the text to
//! `syn::parse_str` and prints one part of the tree it gets, through
//! `quote::ToTokens` and the `Display` of `proc_macro2::TokenStream`. None of
//! this is proved: the contracts only give each result a name, so that the rest
//! of the crate can say exactly what it does with it. The three crates are
//! built without their `proc-macro` feature, so that the same text is read and
//! printed the same way wherever this crate runs.

use vstd::prelude::*;

verus! {

/// The message of the error `syn` reports for `item` read as a function
/// item, `None` where it reads one.
pub uninterp spec fn item_syntax_error(item: Seq<char>) -> Option<Seq<char>>;

/// The attributes of the function in `item`, those before it first and then
/// those at the head of its body: for each one its tokens, the first name of
/// its path, the string literal behind `=` where the attribute has the form
/// `name = "literal"`, and whether it stands in the body.
pub uninterp spec fn item_attributes(item: Seq<char>) -> Seq<
    (Seq<char>, Seq<char>, Option<Seq<char>>, bool),
>;

/// The visibility of the function in `item`, empty where it has none.
pub uninterp spec fn item_visibility(item: Seq<char>) -> Seq<char>;

/// The signature of the function in `item`: everything from its qualifiers to
/// the end of its `where` clause.
pub uninterp spec fn item_signature(item: Seq<char>) -> Seq<char>;

/// The name of the function in `item`.
pub uninterp spec fn item_name(item: Seq<char>) -> Seq<char>;

/// For each parameter of the function in `item`, its pattern where the
/// parameter is written `pattern: type`, `None` for a receiver and the
/// other forms.
pub uninterp spec fn item_patterns(item: Seq<char>) -> Seq<Option<Seq<char>>>;

/// The return type of the function in `item`, `None` where it names none.
pub uninterp spec fn item_return_type(item: Seq<char>) -> Option<Seq<char>>;

/// The statements in the body of the function in `item`, without the braces
/// and the attributes at its head.
pub uninterp spec fn item_body(item: Seq<char>) -> Seq<char>;

/// The tokens of `text` where it holds one string literal and nothing else.
pub uninterp spec fn literal_tokens(text: Seq<char>) -> Option<Seq<char>>;

/// `text` written as a string literal: between quotes, with its characters
/// escaped where the language asks for it.
pub uninterp spec fn quoted_text(text: Seq<char>) -> Seq<char>;

/// `syn::parse_str` for a `syn::ItemFn`, keeping only the error's message.
#[verifier::external_body]
pub(crate) fn syntax_error(item: &str) -> (r: Option<String>)
    ensures
        r.deep_view() == item_syntax_error(item@),
{
    match syn::parse_str::<syn::ItemFn>(item) {
        Ok(_) => None,
        Err(e) => Some(e.to_string()),
    }
}

/// The `attrs` of the `syn::ItemFn` read from `item`; empty where `item` is
/// no function. Of each `syn::Attribute`: its tokens, the `ident` of the
/// first segment of its `path`, the literal of the `syn::Meta::NameValue`
/// that `parse_meta` reads where that literal is a `syn::Lit::Str`, and
/// whether its `style` is `Inner`.
#[verifier::external_body]
pub(crate) fn attributes(item: &str) -> (r: Vec<(String, String, Option<String>, bool)>)
    ensures
        r.deep_view() == item_attributes(item@),
{
    let attrs = syn::parse_str::<syn::ItemFn>(item).map(|f| f.attrs).unwrap_or_default();
    attrs.iter().map(|a| (
        quote::ToTokens::into_token_stream(a).to_string(),
        a.path.segments.first().map(|s| s.value().ident.to_string()).unwrap_or_default(),
        match a.parse_meta() {
            Ok(syn::Meta::NameValue(syn::MetaNameValue { lit: syn::Lit::Str(s), .. })) =>
                Some(quote::ToTokens::into_token_stream(s).to_string()),
            _ => None,
        },
        match a.style {
            syn::AttrStyle::Outer => false,
            syn::AttrStyle::Inner(_) => true,
        },
    )).collect()
}

/// The `vis` of the `syn::ItemFn` read from `item`, printed as tokens; empty
/// where `item` is no function.
#[verifier::external_body]
pub(crate) fn visibility(item: &str) -> (r: String)
    ensures
        r@ == item_visibility(item@),
{
    match syn::parse_str::<syn::ItemFn>(item) {
        Ok(f) => quote::ToTokens::into_token_stream(f.vis).to_string(),
        Err(_) => String::new(),
    }
}

/// The `syn::ItemFn` read from `item` without attributes, visibility and
/// body, printed as a `syn::MethodSig`; empty where `item` is no function.
#[verifier::external_body]
pub(crate) fn signature(item: &str) -> (r: String)
    ensures
        r@ == item_signature(item@),
{
    match syn::parse_str::<syn::ItemFn>(item) {
        Ok(f) => quote::ToTokens::into_token_stream(syn::MethodSig {
            constness: f.constness,
            asyncness: f.asyncness,
            unsafety: f.unsafety,
            abi: f.abi,
            ident: f.ident,
            decl: *f.decl,
        }).to_string(),
        Err(_) => String::new(),
    }
}

/// The `ident` of the `syn::ItemFn` read from `item`; empty where `item` is
/// no function.
#[verifier::external_body]
pub(crate) fn name(item: &str) -> (r: String)
    ensures
        r@ == item_name(item@),
{
    match syn::parse_str::<syn::ItemFn>(item) {
        Ok(f) => f.ident.to_string(),
        Err(_) => String::new(),
    }
}

/// The `decl.inputs` of the `syn::ItemFn` read from `item`, each
/// `syn::FnArg::Captured` by its pattern; empty where `item` is no function.
#[verifier::external_body]
pub(crate) fn patterns(item: &str) -> (r: Vec<Option<String>>)
    ensures
        r.deep_view() == item_patterns(item@),
{
    match syn::parse_str::<syn::ItemFn>(item) {
        Ok(f) => f.decl.inputs.iter().map(|arg| match arg {
            syn::FnArg::Captured(c) => Some(quote::ToTokens::into_token_stream(&c.pat).to_string()),
            _ => None,
        }).collect(),
        Err(_) => Vec::new(),
    }
}

/// The `decl.output` of the `syn::ItemFn` read from `item`, the type of a
/// `syn::ReturnType::Type`; `None` where `item` is no function.
#[verifier::external_body]
pub(crate) fn return_type(item: &str) -> (r: Option<String>)
    ensures
        r.deep_view() == item_return_type(item@),
{
    match syn::parse_str::<syn::ItemFn>(item) {
        Ok(syn::ItemFn { decl, .. }) => match decl.output {
            syn::ReturnType::Type(_, ty) => Some(quote::ToTokens::into_token_stream(ty).to_string()),
            syn::ReturnType::Default => None,
        },
        Err(_) => None,
    }
}

/// The `block.stmts` of the `syn::ItemFn` read from `item`, printed as
/// tokens one after the other; empty where `item` is no function.
#[verifier::external_body]
pub(crate) fn body(item: &str) -> (r: String)
    ensures
        r@ == item_body(item@),
{
    match syn::parse_str::<syn::ItemFn>(item) {
        Ok(f) => f.block.stmts.iter().map(quote::ToTokens::into_token_stream)
            .collect::<proc_macro2::TokenStream>().to_string(),
        Err(_) => String::new(),
    }
}

/// `syn::parse_str` for a `syn::LitStr`, printed as tokens; `None` where
/// `text` is anything else.
#[verifier::external_body]
pub(crate) fn string_literal(text: &str) -> (r: Option<String>)
    ensures
        r.deep_view() == literal_tokens(text@),
{
    match syn::parse_str::<syn::LitStr>(text) {
        Ok(lit) => Some(quote::ToTokens::into_token_stream(lit).to_string()),
        Err(_) => None,
    }
}

/// `proc_macro2::Literal::string`, printed.
#[verifier::external_body]
pub(crate) fn quoted(text: &str) -> (r: String)
    ensures
        r@ == quoted_text(text@),
{
    proc_macro2::Literal::string(text).to_string()
}

} // verus!
