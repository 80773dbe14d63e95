use context_attribute::error::ContextError;
use context_attribute::{context, try_context};

const IMPLICIT: &str = "/// doc of implicit_doc_context
fn implicit_doc_context() -> Result<String, Error> {
    return Err(failure::err_msg(\"xxxx\"));
}";

const EXPLICIT_DOC: &str = "/// doc of explicit_doc_context
fn explicit_doc_context() -> Result<String, Error> {
    return Err(failure::err_msg(\"xxxx\"));
}";

const EXPLICIT_FN: &str = "fn explicit_fn_name_context() -> Result<String, Error> {
    return Err(failure::err_msg(\"xxxx\"));
}";

const EXPLICIT_CUSTOM: &str = "fn explicit_custom_context() -> Result<String, Error> {
    return Err(failure::err_msg(\"xxxx\"));
}";

fn assert_context_contains(rewritten: String, msg: &str) {
    assert!(rewritten.contains(".context("), "{}", rewritten);
    assert!(rewritten.contains(msg), "{}", rewritten);
}

#[test]
fn test_context() {
    assert_context_contains(context("", IMPLICIT), "doc of implicit_doc_context");
    assert_context_contains(context("doc", EXPLICIT_DOC), "doc of explicit_doc_context");
    assert_context_contains(context("fn", EXPLICIT_FN), "explicit_fn_name_context");
    assert_context_contains(context("msg:\"custom msg\"", EXPLICIT_CUSTOM), "custom msg");
}

#[test]
fn implicit_doc_gives_the_whole_function() {
    assert_eq!(
        context("", IMPLICIT),
        "# [ doc = \" doc of implicit_doc_context\" ]  \
         fn implicit_doc_context ( ) -> Result < String , Error > { \
         fn implicit_doc_context ( ) -> Result < String , Error > \
         { return Err ( failure :: err_msg ( \"xxxx\" ) ) ; } \
         Ok(implicit_doc_context().context(\" doc of implicit_doc_context\".trim())?) }"
    );
}

#[test]
fn explicit_doc_is_the_same_as_none() {
    assert_eq!(context("doc", EXPLICIT_DOC), context("", EXPLICIT_DOC));
    assert_eq!(try_context("doc", IMPLICIT), try_context("  ", IMPLICIT));
}

#[test]
fn function_name_gives_the_name_in_quotes() {
    assert_eq!(
        context("fn", EXPLICIT_FN),
        " fn explicit_fn_name_context ( ) -> Result < String , Error > { \
         fn explicit_fn_name_context ( ) -> Result < String , Error > \
         { return Err ( failure :: err_msg ( \"xxxx\" ) ) ; } \
         Ok(explicit_fn_name_context().context(\"explicit_fn_name_context\")?) }"
    );
}

#[test]
fn message_gives_the_literal_as_written() {
    assert_eq!(
        context("msg:\"custom msg\"", EXPLICIT_CUSTOM),
        " fn explicit_custom_context ( ) -> Result < String , Error > { \
         fn explicit_custom_context ( ) -> Result < String , Error > \
         { return Err ( failure :: err_msg ( \"xxxx\" ) ) ; } \
         Ok(explicit_custom_context().context(\"custom msg\")?) }"
    );
}

#[test]
fn unknown_argument_asks_for_the_documentation() {
    assert_eq!(context("other", IMPLICIT), context("", IMPLICIT));
    assert_eq!(try_context("msg: 42", EXPLICIT_CUSTOM), Err(ContextError::MissingDoc));
}

#[test]
fn missing_doc_is_reported() {
    assert_eq!(try_context("", EXPLICIT_FN), Err(ContextError::MissingDoc));
    assert_eq!(try_context("doc", EXPLICIT_FN), Err(ContextError::MissingDoc));
    assert_eq!(context("", EXPLICIT_FN), "compile_error ! { \"no doc comment provided\" }");
}

#[test]
fn missing_return_type_is_reported() {
    let item = "/// Does nothing.\nfn nothing() {}";
    assert_eq!(try_context("", item), Err(ContextError::MissingReturnType));
    assert_eq!(try_context("fn", item), Err(ContextError::MissingReturnType));
    assert_eq!(try_context("msg: \"m\"", item), Err(ContextError::MissingReturnType));
    assert_eq!(context("fn", item), "compile_error ! { \"no return type provided\" }");
}

#[test]
fn missing_doc_comes_before_missing_return_type() {
    assert_eq!(try_context("", "fn nothing() {}"), Err(ContextError::MissingDoc));
}

#[test]
fn an_item_that_is_no_function_is_reported() {
    match try_context("", "struct Point;") {
        Err(ContextError::Syntax(message)) => assert_eq!(message, "expected `fn`"),
        other => panic!("{:?}", other),
    }
    assert_eq!(context("fn", "struct Point;"), "compile_error ! { \"expected `fn`\" }");
    assert!(matches!(try_context("fn", "fn broken( -> u8 {}"), Err(ContextError::Syntax(_))));
    assert!(matches!(try_context("fn", ""), Err(ContextError::Syntax(_))));
    assert!(matches!(try_context("fn", "fn f() -> u8 { 0 } fn g() {}"), Err(ContextError::Syntax(_))));
}

const ADD: &str = "#[inline]
/// Adds.
pub fn add(a: u32, b: u32) -> Result<u32, Error> {
    #![allow(unused)]
    Ok(a + b)
}";

#[test]
fn arguments_and_attributes_are_passed_on() {
    assert_eq!(
        context("", ADD),
        "# [ inline ] # [ doc = \" Adds.\" ] \
         pub fn add ( a : u32 , b : u32 ) -> Result < u32 , Error > { \
         fn add ( a : u32 , b : u32 ) -> Result < u32 , Error > \
         { # ! [ allow ( unused ) ] Ok ( a + b ) } \
         Ok(add(a, b, ).context(\" Adds.\".trim())?) }"
    );
}

#[test]
fn the_rewritten_function_is_a_function() {
    for attr in ["", "doc", "fn", "msg: \"could not add\""] {
        let rewritten = context(attr, ADD);
        let parsed = syn::parse_str::<syn::ItemFn>(&rewritten);
        assert!(parsed.is_ok(), "{}", rewritten);
        assert_eq!(parsed.unwrap().ident.to_string(), "add");
    }
}

#[test]
fn the_diagnostic_is_a_macro_call() {
    let diagnostic = context("", "fn nothing() {}");
    assert!(syn::parse_str::<syn::ItemMacro>(&diagnostic).is_ok(), "{}", diagnostic);
}
