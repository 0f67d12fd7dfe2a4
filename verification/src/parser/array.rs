//! Array literals.

use super::error::{AspenError, AspenErrorView, AspenResult};
use super::expr::{
    array_loop, array_tail, modify_into_fn_call_step, parse_array_step, parse_with_token_step,
};
use super::graft::{binary_into, take_expr};
use super::operator::BinaryOperator;
use super::utils::next_jump_multispace;
use super::{
    exprs_model, fails_here, lemma_exprs_push, lemma_exprs_with_last, shows_exprs, AspenParser,
    Expr, ExprView,
};
use crate::lexer::Token;
use vstd::prelude::*;

verus! {

/// Extends the last item of an array, `token` being the token pulled after
/// it: calls and binary operations, up to the comma that ends the item or
/// the `]` that ends the array. Returns `true` for the `]`.
pub(crate) fn parse_array_tail<'s>(
    parser: &mut AspenParser<'s>,
    arr: &mut Vec<Box<Expr<'s>>>,
    first: Token<'s>,
) -> (r: AspenResult<bool>)
    requires
        old(parser).wf(),
    ensures
        fails_here(r, final(parser).input()),
        final(parser).follows(
            old(parser),
            array_tail(old(parser).input(), 0, exprs_model(old(arr)@), first@, None),
        ),
        match r {
            Ok(closed) => array_tail(
                old(parser).input(),
                0,
                exprs_model(old(arr)@),
                first@,
                None,
            ).out == Ok::<(Seq<ExprView>, bool), AspenErrorView>(
                (exprs_model(final(arr)@), closed),
            ),
            Err(e) => array_tail(
                old(parser).input(),
                0,
                exprs_model(old(arr)@),
                first@,
                None,
            ).out == Err::<(Seq<ExprView>, bool), AspenErrorView>(e@),
        },
    decreases old(parser).input().left(), 4nat,
{
    let ghost start = parser.input();
    let mut token = first;
    let mut bop: Option<BinaryOperator> = None;
    loop
        invariant
            start == old(parser).input(),
            parser.wf(),
            parser.tokens() == start.tokens,
            parser.program() == old(parser).program(),
            parser.pulled() >= start.pulled,
            array_tail(
                parser.input(),
                (parser.pulled() - start.pulled) as nat,
                exprs_model(arr@),
                token@,
                bop,
            ) == array_tail(start, 0, exprs_model(old(arr)@), first@, None),
        decreases parser.input().left(),
    {
        proof {
            reveal(array_tail);
            reveal(parse_with_token_step);
            reveal(modify_into_fn_call_step);
        }
        if arr.len() == 0 {
            return Err(AspenError::expected(parser, String::from_str("a close bracket ']'")));
        }
        if let Some(op) = bop {
            let right_expr = match Expr::parse_with_token(parser, token) {
                Ok(e) => e,
                Err(e) => {
                    return Err(e);
                },
            };
            let ghost before = arr@;
            let mut last = arr.pop().unwrap();
            let taken = take_expr(&mut last);
            *last = binary_into(taken, op, right_expr);
            arr.push(last);
            proof {
                lemma_exprs_with_last(before, last);
            }
            bop = None;
        } else {
            match token {
                Token::BinaryOperator(op) => {
                    bop = Some(op);
                },
                Token::OpenParen => {
                    let ghost before = arr@;
                    let mut last = arr.pop().unwrap();
                    match Expr::modify_into_fn_call(parser, &mut last) {
                        Ok(_) => (),
                        Err(e) => {
                            return Err(e);
                        },
                    }
                    arr.push(last);
                    proof {
                        lemma_exprs_with_last(before, last);
                    }
                },
                Token::Comma => {
                    return Ok(false);
                },
                Token::CloseBracket => {
                    return Ok(true);
                },
                _ => {
                    return Err(
                        AspenError::expected(parser, String::from_str("a close bracket ']'")),
                    );
                },
            }
        }
        token =
        match next_jump_multispace(parser) {
            Ok(token) => token,
            Err(e) => {
                return Err(e);
            },
        };
    }
}

/// Parses an array literal up to its `]`. The `[` is pulled already.
pub fn parse_array<'s>(parser: &mut AspenParser<'s>) -> (r: AspenResult<Vec<Box<Expr<'s>>>>)
    requires
        old(parser).wf(),
    ensures
        fails_here(r, final(parser).input()),
        final(parser).follows(old(parser), parse_array_step(old(parser).input())),
        shows_exprs(r, parse_array_step(old(parser).input()).out),
    decreases old(parser).input().left(), 1nat,
{
    proof {
        reveal(parse_array_step);
        reveal(array_loop);
    }
    let ghost start = parser.input();
    let mut arr: Vec<Box<Expr<'s>>> = Vec::new();
    let mut awaits_comma = false;
    assert(exprs_model(arr@) =~= Seq::<ExprView>::empty());
    loop
        invariant
            start == old(parser).input(),
            parser.wf(),
            parser.tokens() == start.tokens,
            parser.program() == old(parser).program(),
            parser.pulled() >= start.pulled,
            array_loop(
                parser.input(),
                (parser.pulled() - start.pulled) as nat,
                exprs_model(arr@),
                awaits_comma,
            ) == parse_array_step(start),
        decreases parser.input().left(),
    {
        proof {
            reveal(array_loop);
            reveal(parse_with_token_step);
            reveal(array_tail);
        }
        let token = match next_jump_multispace(parser) {
            Ok(token) => token,
            Err(e) => {
                return Err(e);
            },
        };
        let is_comma = match token {
            Token::Comma => true,
            _ => false,
        };
        let is_close = match token {
            Token::CloseBracket => true,
            _ => false,
        };
        if is_comma && awaits_comma {
            awaits_comma = false;
        } else if is_close {
            return Ok(arr);
        } else if let Some(text) = token.comment_text() {
            parser.note_comment(text);
        } else if !awaits_comma {
            let expr = match Expr::parse_with_token(parser, token) {
                Ok(e) => e,
                Err(e) => {
                    return Err(e);
                },
            };
            let item = Box::new(expr);
            proof {
                lemma_exprs_push(arr@, item);
            }
            arr.push(item);
            awaits_comma = true;
        } else {
            let closed = match parse_array_tail(parser, &mut arr, token) {
                Ok(closed) => closed,
                Err(e) => {
                    return Err(e);
                },
            };
            if closed {
                return Ok(arr);
            }
            awaits_comma = false;
        }
    }
}

} // verus!
