//! The loop that extends an expression by what is written after it.

use super::error::{AspenError, AspenResult};
use super::expr::{
    modify_into_array_indexing_step, modify_into_fn_call_step, modify_into_obj_indexing_step,
    modify_into_range_step, modify_into_string_concatenation_step, parse_step, parse_until_loop,
    parse_until_step, parse_with_token_step,
};
use super::graft::{binary_into, take_expr};
use super::operator::BinaryOperator;
use super::utils::next_jump_multispace;
use super::{expr_model, fails_here, shows_until, AspenParser, Expr};
use crate::lexer::{join3, listed, token_views, Token};
use vstd::prelude::*;

verus! {

impl<'s> Expr<'s> {
    /// Parses an expression with all that extends it, up to the first of
    /// the stop tokens, and returns it with that token.
    pub fn parse_until(parser: &mut AspenParser<'s>, stop_tokens: &[Token<'s>]) -> (r: AspenResult<
        (Box<Expr<'s>>, Token<'s>),
    >)
        requires
            old(parser).wf(),
        ensures
            fails_here(r, final(parser).input()),
            final(parser).follows(
                old(parser),
                parse_until_step(old(parser).input(), token_views(stop_tokens@)),
            ),
            shows_until(r, parse_until_step(old(parser).input(), token_views(stop_tokens@)).out),
        decreases old(parser).input().left(), 1nat,
    {
        proof {
            reveal(parse_until_step);
            reveal(parse_until_loop);
            reveal(parse_step);
        }
        let ghost start = parser.input();
        let ghost stops = token_views(stop_tokens@);
        let first = match Expr::parse(parser) {
            Ok(e) => e,
            Err(e) => {
                return Err(e);
            },
        };
        let mut base_expr = Box::new(first);
        let mut bop: Option<BinaryOperator> = None;
        loop
            invariant
                start == old(parser).input(),
                stops == token_views(stop_tokens@),
                parser.wf(),
                parser.tokens() == start.tokens,
                parser.program() == old(parser).program(),
                parser.pulled() >= start.pulled,
                parse_until_loop(
                    parser.input(),
                    (parser.pulled() - start.pulled) as nat,
                    stops,
                    expr_model(*base_expr),
                    bop,
                ) == parse_until_step(start, stops),
            decreases parser.input().left(),
        {
            proof {
                reveal(parse_until_loop);
                reveal(parse_with_token_step);
                reveal(modify_into_fn_call_step);
                reveal(modify_into_array_indexing_step);
                reveal(modify_into_obj_indexing_step);
                reveal(modify_into_range_step);
                reveal(modify_into_string_concatenation_step);
            }
            let token = match next_jump_multispace(parser) {
                Ok(token) => token,
                Err(e) => {
                    return Err(e);
                },
            };
            if let Some(text) = token.comment_text() {
                parser.note_comment(text);
            } else if let Some(op) = bop {
                let right_expr = match Expr::parse_with_token(parser, token) {
                    Ok(e) => e,
                    Err(e) => {
                        return Err(e);
                    },
                };
                let taken = take_expr(&mut base_expr);
                *base_expr = binary_into(taken, op, right_expr);
                bop = None;
            } else {
                match token {
                    Token::BinaryOperator(op) => {
                        bop = Some(op);
                    },
                    Token::OpenParen => match Expr::modify_into_fn_call(parser, &mut base_expr) {
                        Ok(_) => (),
                        Err(e) => {
                            return Err(e);
                        },
                    },
                    Token::OpenBracket => match Expr::modify_into_array_indexing(
                        parser,
                        &mut base_expr,
                    ) {
                        Ok(_) => (),
                        Err(e) => {
                            return Err(e);
                        },
                    },
                    Token::Dot => match Expr::modify_into_obj_indexing(parser, &mut base_expr) {
                        Ok(_) => (),
                        Err(e) => {
                            return Err(e);
                        },
                    },
                    Token::Range => match Expr::modify_into_range(parser, &mut base_expr) {
                        Ok(_) => (),
                        Err(e) => {
                            return Err(e);
                        },
                    },
                    Token::PropagationOperator => {
                        let _ = Expr::modify_into_error_propagation(parser, &mut base_expr);
                    },
                    Token::StringSeparator => match Expr::modify_into_string_concatenation(
                        parser,
                        &mut base_expr,
                    ) {
                        Ok(_) => (),
                        Err(e) => {
                            return Err(e);
                        },
                    },
                    token => {
                        if listed(stop_tokens, &token) {
                            return Ok((base_expr, token));
                        } else {
                            let what = token.describe();
                            let text = join3("token '", what.as_str(), "' found");
                            return Err(AspenError::unknown(parser, text));
                        }
                    },
                }
            }
        }
    }
}

} // verus!
