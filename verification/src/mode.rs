//! Where the context comes from, as the attribute's argument says.
//!
//! The argument is empty, `doc`, `fn`, or `msg` followed by a colon and a
//! string literal. Spaces may stand around each of these words and signs.

use vstd::prelude::*;
use vstd::string::*;
use crate::syntax::{literal_tokens, string_literal};
use crate::text::{
    chars_of, is_space, lemma_word_end_after, lemma_word_start_of_spaces, skip_spaces,
    skip_spaces_back, trimmed, word_start,
};

verus! {

/// The three sources of a context.
#[derive(Debug, Clone, PartialEq, Eq)]
pub enum Mode {
    /// The function's documentation comment.
    Doc,
    /// The function's name.
    FnName,
    /// A message written in the attribute: the string literal as it stands
    /// there, quotes included.
    Message(String),
}

/// `Mode` with its message as a sequence of characters.
pub enum ModeView {
    Doc,
    FnName,
    Message(Seq<char>),
}

impl View for Mode {
    type V = ModeView;

    open spec fn view(&self) -> ModeView {
        match self {
            Mode::Doc => ModeView::Doc,
            Mode::FnName => ModeView::FnName,
            Mode::Message(m) => ModeView::Message(m@),
        }
    }
}

/// Whether `attr` holds the word `fn` and nothing but spaces around it.
pub open spec fn names_function(attr: Seq<char>) -> bool {
    trimmed(attr) =~= seq!['f', 'n']
}

/// The index behind the colon where `attr` begins with `msg` and a colon,
/// spaces aside; `None` where it begins otherwise.
pub open spec fn message_start(attr: Seq<char>) -> Option<int> {
    let word = word_start(attr, 0);
    if word + 3 <= attr.len() && attr[word] == 'm' && attr[word + 1] == 's' && attr[word + 2]
        == 'g' {
        let colon = word_start(attr, word + 3);
        if colon < attr.len() && attr[colon] == ':' {
            Some(colon + 1)
        } else {
            None
        }
    } else {
        None
    }
}

/// The mode that the argument `attr` asks for.
///
/// `fn` asks for the function's name. `msg:` followed by one string literal
/// asks for that literal. Every other argument, the empty one and `doc`
/// among them, asks for the documentation.
pub open spec fn mode_of(attr: Seq<char>) -> ModeView {
    if names_function(attr) {
        ModeView::FnName
    } else {
        match message_start(attr) {
            Some(from) => match literal_tokens(attr.subrange(from, attr.len() as int)) {
                Some(literal) => ModeView::Message(literal),
                None => ModeView::Doc,
            },
            None => ModeView::Doc,
        }
    }
}

/// An argument made of spaces alone, the empty one among them, asks for the
/// documentation.
pub proof fn lemma_blank_asks_for_doc(attr: Seq<char>)
    requires
        forall|i: int| 0 <= i < attr.len() ==> is_space(attr[i]),
    ensures
        mode_of(attr) == ModeView::Doc,
{
    lemma_word_start_of_spaces(attr, 0);
    assert(trimmed(attr).len() == 0);
}

/// Decides `names_function` on the characters of an argument.
pub fn is_fn_marker(chars: &Vec<char>) -> (r: bool)
    ensures
        r == names_function(chars@),
{
    let start = skip_spaces(chars, 0);
    if start == chars.len() {
        return false;
    }
    let end = skip_spaces_back(chars, chars.len());
    proof {
        lemma_word_end_after(chars@, start as int, chars@.len() as int);
    }
    end - start == 2 && chars[start] == 'f' && chars[start + 1] == 'n'
}

/// Computes `message_start` on the characters of an argument.
pub fn find_message(chars: &Vec<char>) -> (r: Option<usize>)
    ensures
        match r {
            Some(from) => message_start(chars@) == Some(from as int) && from <= chars.len(),
            None => message_start(chars@).is_none(),
        },
{
    let word = skip_spaces(chars, 0);
    if chars.len() - word < 3 {
        return None;
    }
    if chars[word] == 'm' && chars[word + 1] == 's' && chars[word + 2] == 'g' {
        let colon = skip_spaces(chars, word + 3);
        if colon < chars.len() && chars[colon] == ':' {
            Some(colon + 1)
        } else {
            None
        }
    } else {
        None
    }
}

/// The mode that follows from an argument once the text behind `msg:` has been
/// read: `literal` is the string literal found there, if any.
pub fn choose_mode(chars: &Vec<char>, literal: Option<String>) -> (r: Mode)
    ensures
        r@ == if names_function(chars@) {
            ModeView::FnName
        } else {
            match (message_start(chars@), literal) {
                (Some(_), Some(l)) => ModeView::Message(l@),
                _ => ModeView::Doc,
            }
        },
{
    if is_fn_marker(chars) {
        Mode::FnName
    } else {
        match (find_message(chars), literal) {
            (Some(_), Some(l)) => Mode::Message(l),
            _ => Mode::Doc,
        }
    }
}

/// Reads the attribute's argument.
pub fn parse_mode(attr: &str) -> (r: Mode)
    ensures
        r@ == mode_of(attr@),
{
    let chars = chars_of(attr);
    let literal = match find_message(&chars) {
        Some(from) => string_literal(attr.substring_char(from, chars.len())),
        None => None,
    };
    choose_mode(&chars, literal)
}

} // verus!
