//! Primary expressions: what one token opens.

use super::array::parse_array;
use super::object::parse_obj;
use super::error::{AspenError, AspenErrorView, AspenResult};
use super::expr::{
    import_reference_step,
    parse_array_step, parse_obj_step, parse_parenthesized_step, parse_step, parse_until_step,
    parse_with_token_step,
};
use super::utils::{expect_token, next_jump_multispace, next_jump_multispace_step, next_token};
use super::value::parse_value;
use super::{fails_here, shows, AspenParser, Expr, ExprView};
use crate::lexer::{token_views, Token, TokenView};
use vstd::prelude::*;

verus! {

impl<'s> Expr<'s> {
    /// Parses one expression: the next significant token and what it opens.
    pub fn parse(parser: &mut AspenParser<'s>) -> (r: AspenResult<Expr<'s>>)
        requires
            old(parser).wf(),
        ensures
            fails_here(r, final(parser).input()),
            final(parser).follows(old(parser), parse_step(old(parser).input())),
            shows(r, parse_step(old(parser).input()).out),
        decreases old(parser).input().left(), 0nat,
    {
        proof {
            reveal(parse_step);
            reveal(parse_with_token_step);
        }
        let token = match next_jump_multispace(parser) {
            Ok(token) => token,
            Err(e) => {
                return Err(e);
            },
        };
        Self::parse_with_token(parser, token)
    }

    /// Parses an import reference: `(`, the name of the module, and `)`.
    /// The keyword is pulled already.
    pub fn parse_import_reference(parser: &mut AspenParser<'s>) -> (r: AspenResult<Expr<'s>>)
        requires
            old(parser).wf(),
        ensures
            fails_here(r, final(parser).input()),
            final(parser).follows(old(parser), import_reference_step(old(parser).input())),
            shows(r, import_reference_step(old(parser).input()).out),
    {
        proof {
            reveal(import_reference_step);
        }
        match expect_token(parser, Token::OpenParen) {
            Ok(_) => (),
            Err(e) => {
                return Err(e);
            },
        }
        let name = match next_jump_multispace(parser) {
            Err(e) => {
                return Err(e);
            },
            Ok(Token::String(name)) => name,
            Ok(_) => {
                return Err(AspenError::expected(parser, String::from_str("an import value")));
            },
        };
        match expect_token(parser, Token::CloseParen) {
            Ok(_) => Ok(Expr::Import(name)),
            Err(e) => Err(e),
        }
    }

    /// Parses the primary expression that the token just pulled opens.
    pub fn parse_with_token(parser: &mut AspenParser<'s>, token: Token<'s>) -> (r: AspenResult<
        Expr<'s>,
    >)
        requires
            old(parser).wf(),
        ensures
            fails_here(r, final(parser).input()),
            final(parser).follows(old(parser), parse_with_token_step(old(parser).input(), token@)),
            shows(r, parse_with_token_step(old(parser).input(), token@).out),
        decreases old(parser).input().left(), 3nat,
    {
        proof {
            reveal(parse_with_token_step);
            reveal(parse_array_step);
            reveal(parse_obj_step);
            reveal(parse_parenthesized_step);
        }
        match token {
            Token::OpenBracket => match parse_array(parser) {
                Ok(items) => Ok(Expr::Array(items)),
                Err(e) => Err(e),
            },
            Token::OpenBrace => match parse_obj(parser) {
                Ok(fields) => Ok(Expr::Object(fields)),
                Err(e) => Err(e),
            },
            Token::OpenParen => Expr::parse_parenthesized(parser),
            Token::Identifier(ident) => Ok(Expr::Id(ident)),
            Token::SpreadOperator => match next_token(parser) {
                Err(e) => Err(e),
                Ok(Token::Identifier(value)) => Ok(Expr::SpeadId(value)),
                Ok(_) => Err(
                    AspenError::expected(
                        parser,
                        String::from_str("an identifier following the '...'"),
                    ),
                ),
            },
            Token::Import => Self::parse_import_reference(parser),
            token => match parse_value(parser, token) {
                Ok(value) => Ok(Expr::Value(value)),
                Err(e) => Err(e),
            },
        }
    }

    /// Parses a parenthesized expression up to its `)`. The `(` is pulled
    /// already.
    pub fn parse_parenthesized(parser: &mut AspenParser<'s>) -> (r: AspenResult<Expr<'s>>)
        requires
            old(parser).wf(),
        ensures
            fails_here(r, final(parser).input()),
            final(parser).follows(old(parser), parse_parenthesized_step(old(parser).input())),
            shows(r, parse_parenthesized_step(old(parser).input()).out),
        decreases old(parser).input().left(), 2nat,
    {
        proof {
            reveal(parse_parenthesized_step);
            reveal(parse_until_step);
        }
        let stops = [Token::CloseParen];
        assert(token_views(stops@) =~= seq![TokenView::CloseParen]);
        match Self::parse_until(parser, &stops) {
            Ok(found) => Ok(Expr::Parenthesized(found.0)),
            Err(e) => Err(e),
        }
    }
}

} // verus!
