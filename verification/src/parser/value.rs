use super::error::{AspenError, AspenResult};
use super::utils::TokenOption;
use super::{fails_here, shows, AspenParser, Input, Step};
use crate::lexer::{Token, TokenView};
use vstd::prelude::*;

verus! {

/// A literal. A number keeps the digits of its literal, so that a value of
/// any size or precision passes through the parser unchanged.
#[derive(Debug, Clone, Copy, PartialEq, Eq, PartialOrd, Ord, Hash)]
pub enum Value<'s> {
    Str(&'s str),
    Int(&'s str),
    Float(&'s str),
    Bool(bool),
    Nil,
}

/// A [`Value`] with its texts as sequences of characters.
pub enum ValueView {
    Str(Seq<char>),
    Int(Seq<char>),
    Float(Seq<char>),
    Bool(bool),
    Nil,
}

impl<'s> View for Value<'s> {
    type V = ValueView;

    open spec fn view(&self) -> ValueView {
        match self {
            Value::Str(s) => ValueView::Str(s@),
            Value::Int(s) => ValueView::Int(s@),
            Value::Float(s) => ValueView::Float(s@),
            Value::Bool(b) => ValueView::Bool(*b),
            Value::Nil => ValueView::Nil,
        }
    }
}

/// The literal that a token writes, where it writes one.
pub open spec fn literal_of(token: TokenView) -> Option<ValueView> {
    match token {
        TokenView::Bool(b) => Some(ValueView::Bool(b)),
        TokenView::String(s) => Some(ValueView::Str(s)),
        TokenView::Int(digits) => Some(ValueView::Int(digits)),
        TokenView::Float(digits) => Some(ValueView::Float(digits)),
        TokenView::Nil => Some(ValueView::Nil),
        _ => None,
    }
}

/// The literal of the token just pulled, which must write one.
pub open spec fn parse_value_step(i: Input, token: TokenView) -> Step<ValueView> {
    match literal_of(token) {
        Some(v) => Step::ok(v, 0, i.notes),
        None => Step::fail(i.expected("a valid <expr>"@), 0, i.notes),
    }
}

/// Reads the token just pulled as a literal.
pub fn parse_value<'s>(parser: &AspenParser<'s>, token: Token<'s>) -> (r: AspenResult<Value<'s>>)
    requires
        parser.wf(),
    ensures
        fails_here(r, parser.input()),
        shows(r, parse_value_step(parser.input(), token@).out),
{
    match token {
        Token::Bool(b) => Ok(Value::Bool(b)),
        Token::String(s) => Ok(Value::Str(s)),
        Token::Int(i) => Ok(Value::Int(i)),
        Token::Float(f) => Ok(Value::Float(f)),
        Token::Nil => Ok(Value::Nil),
        _ => Err(AspenError::expected(parser, String::from_str("a valid <expr>"))),
    }
}

/// Reads a token as a text, number or boolean literal, and hands the token
/// back where it writes none of these.
pub fn parse_value_or_return_token<'s>(token: Token<'s>) -> (r: AspenResult<
    TokenOption<'s, Value<'s>>,
>)
    ensures
        r is Ok,
        match r->Ok_0 {
            TokenOption::Parsed(v) => !(token@ is Nil) && literal_of(token@) == Some(v@),
            TokenOption::Token(t) => t == token && (token@ is Nil || literal_of(token@) is None),
        },
{
    match token {
        Token::Bool(b) => Ok(TokenOption::Parsed(Value::Bool(b))),
        Token::String(s) => Ok(TokenOption::Parsed(Value::Str(s))),
        Token::Int(i) => Ok(TokenOption::Parsed(Value::Int(i))),
        Token::Float(f) => Ok(TokenOption::Parsed(Value::Float(f))),
        _ => Ok(TokenOption::Token(token)),
    }
}

} // verus!
