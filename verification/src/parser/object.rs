//! Object literals.

use super::array::parse_array;
use super::error::{AspenError, AspenErrorView, AspenResult};
use super::expr::{
    modify_into_fn_call_step, obj_key_turn, obj_loop, obj_none_turn, obj_value_turn,
    parse_array_step, parse_obj_step, parse_step, parse_with_token_step, Entry, Pending,
};
use super::graft::{binary_into, take_expr};
use super::utils::{next_jump_multispace, next_token};
use super::{
    fails_here, object_entries, shows_fields, AspenParser, Expr, ExprView,
    ObjectFields,
};
use crate::lexer::Token;
use vstd::prelude::*;

verus! {

/// Lets a token act on an object literal in which no key waits for a value.
/// The second part of the result tells that the token closes the literal.
pub(crate) fn parse_obj_none_turn<'s>(parser: &mut AspenParser<'s>, token: Token<'s>) -> (r:
    AspenResult<(Entry<'s>, bool)>)
    requires
        old(parser).wf(),
    ensures
        fails_here(r, final(parser).input()),
        final(parser).follows(old(parser), obj_none_turn(old(parser).input(), token@)),
        match r {
            Ok(next) => obj_none_turn(old(parser).input(), token@).out == Ok::<
                (Pending, bool),
                AspenErrorView,
            >((next.0@, next.1)),
            Err(e) => obj_none_turn(old(parser).input(), token@).out == Err::<
                (Pending, bool),
                AspenErrorView,
            >(e@),
        },
{
    proof {
        reveal(obj_none_turn);
    }
    match token {
        Token::ObjectKey(k) => Ok((Entry::Key(k), false)),
        Token::CloseBrace => Ok((Entry::Free, true)),
        Token::Identifier(ident) => Ok((Entry::Pair(ident, Box::new(Expr::Id(ident))), false)),
        Token::SpreadOperator => match next_token(parser) {
            Err(e) => Err(e),
            Ok(Token::Identifier(ident)) => Ok(
                (Entry::Pair(ident, Box::new(Expr::SpeadId(ident))), false),
            ),
            Ok(_) => Err(
                AspenError::expected(parser, String::from_str("an identifier following the '...'")),
            ),
        },
        token => {
            if let Some(text) = token.comment_text() {
                parser.note_comment(text);
                Ok((Entry::Free, false))
            } else {
                Err(AspenError::expected(parser, String::from_str("a valid <expr>")))
            }
        },
    }
}

/// Lets a token act on an object literal in which `key` waits for its
/// value.
pub(crate) fn parse_obj_key_turn<'s>(
    parser: &mut AspenParser<'s>,
    key: &'s str,
    token: Token<'s>,
) -> (r: AspenResult<Entry<'s>>)
    requires
        old(parser).wf(),
    ensures
        fails_here(r, final(parser).input()),
        final(parser).follows(old(parser), obj_key_turn(old(parser).input(), key@, token@)),
        match r {
            Ok(next) => obj_key_turn(old(parser).input(), key@, token@).out == Ok::<
                Pending,
                AspenErrorView,
            >(next@),
            Err(e) => obj_key_turn(old(parser).input(), key@, token@).out == Err::<
                Pending,
                AspenErrorView,
            >(e@),
        },
    decreases old(parser).input().left(), 4nat,
{
    proof {
        reveal(obj_key_turn);
        reveal(parse_obj_step);
        reveal(parse_array_step);
        reveal(parse_step);
        reveal(parse_with_token_step);
    }
    match token {
        Token::ObjectKey(_) => Err(
            AspenError::expected(parser, String::from_str("a valid <expr>")),
        ),
        Token::OpenBrace => match parse_obj(parser) {
            Ok(object) => Ok(Entry::Pair(key, Box::new(Expr::Object(object)))),
            Err(e) => Err(e),
        },
        Token::OpenBracket => match parse_array(parser) {
            Ok(items) => Ok(Entry::Pair(key, Box::new(Expr::Array(items)))),
            Err(e) => Err(e),
        },
        Token::Identifier(ident) => Ok(Entry::Pair(key, Box::new(Expr::Id(ident)))),
        Token::BinaryOperator(_) => match Expr::parse(parser) {
            Ok(_) => Err(AspenError::expected(parser, String::from_str("a valid <expr>"))),
            Err(e) => Err(e),
        },
        Token::SpreadOperator => Err(
            AspenError::expected(
                parser,
                String::from_str(
                    "an object or an array: either do {..<spread_variable>} or [...<spread_variable>]",
                ),
            ),
        ),
        token => {
            if let Some(text) = token.comment_text() {
                parser.note_comment(text);
                Ok(Entry::Key(key))
            } else {
                match Expr::parse_with_token(parser, token) {
                    Ok(inner) => Ok(Entry::Pair(key, Box::new(inner))),
                    Err(e) => Err(e),
                }
            }
        },
    }
}

/// Lets a token act on an object literal in which `key` has the value
/// `value`. The second part of the result tells that the token closes the
/// literal.
pub(crate) fn parse_obj_value_turn<'s>(
    parser: &mut AspenParser<'s>,
    hash: &mut ObjectFields<'s>,
    key: &'s str,
    value: Box<Expr<'s>>,
    token: Token<'s>,
) -> (r: AspenResult<(Entry<'s>, bool)>)
    requires
        old(parser).wf(),
    ensures
        fails_here(r, final(parser).input()),
        final(parser).follows(
            old(parser),
            obj_value_turn(old(parser).input(), object_entries(*old(hash)), key@, value@, token@),
        ),
        match r {
            Ok(next) => obj_value_turn(
                old(parser).input(),
                object_entries(*old(hash)),
                key@,
                value@,
                token@,
            ).out == Ok::<(Map<Seq<char>, ExprView>, Pending, bool), AspenErrorView>(
                (object_entries(*final(hash)), next.0@, next.1),
            ),
            Err(e) => obj_value_turn(
                old(parser).input(),
                object_entries(*old(hash)),
                key@,
                value@,
                token@,
            ).out == Err::<(Map<Seq<char>, ExprView>, Pending, bool), AspenErrorView>(e@),
        },
    decreases old(parser).input().left(), 4nat,
{
    proof {
        reveal(obj_value_turn);
        reveal(parse_obj_step);
        reveal(parse_array_step);
        reveal(modify_into_fn_call_step);
        reveal(parse_step);
        reveal(parse_with_token_step);
    }
    match token {
        Token::ObjectKey(next_key) => {
            hash.insert(key, value);
            Ok((Entry::Key(next_key), false))
        },
        Token::CloseBrace => {
            hash.insert(key, value);
            Ok((Entry::Free, true))
        },
        Token::Comma => {
            hash.insert(key, value);
            Ok((Entry::Free, false))
        },
        Token::OpenBrace => match parse_obj(parser) {
            Ok(object) => Ok((Entry::Pair(key, Box::new(Expr::Object(object))), false)),
            Err(e) => Err(e),
        },
        Token::OpenParen => {
            let mut val = value;
            match Expr::modify_into_fn_call(parser, &mut val) {
                Ok(_) => Ok((Entry::Pair(key, val), false)),
                Err(e) => Err(e),
            }
        },
        Token::PropagationOperator => {
            let mut val = value;
            let _ = Expr::modify_into_error_propagation(parser, &mut val);
            Ok((Entry::Pair(key, val), false))
        },
        Token::OpenBracket => match parse_array(parser) {
            Ok(items) => Ok((Entry::Pair(key, Box::new(Expr::Array(items))), false)),
            Err(e) => Err(e),
        },
        Token::Identifier(ident) => Ok((Entry::Pair(key, Box::new(Expr::Id(ident))), false)),
        Token::BinaryOperator(op) => match Expr::parse(parser) {
            Ok(expr) => {
                let mut val = value;
                let taken = take_expr(&mut val);
                *val = binary_into(taken, op, expr);
                Ok((Entry::Pair(key, val), false))
            },
            Err(e) => Err(e),
        },
        Token::SpreadOperator => Err(
            AspenError::expected(
                parser,
                String::from_str(
                    "an object or an array: either do {..<spread_variable>} or [...<spread_variable>]",
                ),
            ),
        ),
        token => {
            if let Some(text) = token.comment_text() {
                parser.note_comment(text);
                Ok((Entry::Pair(key, value), false))
            } else {
                match Expr::parse_with_token(parser, token) {
                    Ok(inner) => Ok((Entry::Pair(key, Box::new(inner)), false)),
                    Err(e) => Err(e),
                }
            }
        },
    }
}

/// Parses an object literal up to its `}`. The `{` is pulled already.
pub fn parse_obj<'s>(parser: &mut AspenParser<'s>) -> (r: AspenResult<ObjectFields<'s>>)
    requires
        old(parser).wf(),
    ensures
        fails_here(r, final(parser).input()),
        final(parser).follows(old(parser), parse_obj_step(old(parser).input())),
        shows_fields(r, parse_obj_step(old(parser).input()).out),
    decreases old(parser).input().left(), 1nat,
{
    proof {
        reveal(parse_obj_step);
        reveal(obj_loop);
    }
    let ghost start = parser.input();
    let mut hash = ObjectFields::new();
    let mut entry: Entry<'s> = Entry::Free;
    loop
        invariant
            start == old(parser).input(),
            parser.wf(),
            parser.tokens() == start.tokens,
            parser.program() == old(parser).program(),
            parser.pulled() >= start.pulled,
            obj_loop(
                parser.input(),
                (parser.pulled() - start.pulled) as nat,
                object_entries(hash),
                entry@,
            ) == parse_obj_step(start),
        decreases parser.input().left(),
    {
        proof {
            reveal(obj_loop);
            reveal(obj_key_turn);
            reveal(obj_value_turn);
        }
        let token = match next_jump_multispace(parser) {
            Ok(token) => token,
            Err(e) => {
                return Err(e);
            },
        };
        let turn = match entry {
            Entry::Free => parse_obj_none_turn(parser, token),
            Entry::Key(key) => match parse_obj_key_turn(parser, key, token) {
                Ok(next) => Ok((next, false)),
                Err(e) => Err(e),
            },
            Entry::Pair(key, value) => parse_obj_value_turn(parser, &mut hash, key, value, token),
        };
        match turn {
            Ok(next) => {
                if next.1 {
                    return Ok(hash);
                }
                entry = next.0;
            },
            Err(e) => {
                return Err(e);
            },
        }
    }
}

} // verus!
