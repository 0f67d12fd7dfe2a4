use super::conditional::{guarded_block_step, parse_guarded_block};
use super::error::{AspenError, AspenResult};
use super::utils::{
    expect_space, expect_space_step, next_jump_multispace, next_jump_multispace_step, Block,
    BlockView,
};
use super::var::names_model;
use super::{fails_here, shows, AspenParser, Expr, ExprView, Input, Statement, StatementView, Step};
use crate::lexer::{Token, TokenView};
use vstd::prelude::*;

verus! {

/// A `for` loop: its loop variables, the expression it walks, and its body.
#[derive(Debug, PartialEq)]
pub struct For<'s> {
    pub args: Vec<&'s str>,
    pub indexed: Box<Expr<'s>>,
    pub body: Box<Block<'s>>,
}

pub struct ForView {
    pub args: Seq<Seq<char>>,
    pub indexed: ExprView,
    pub body: BlockView,
}

/// The loop variables of a `for`, `used` pulls in: names separated by
/// commas, up to the `in` marker. `awaits_arg` tells that a name must come
/// next.
pub open spec fn for_args_loop(i: Input, used: nat, args: Seq<Seq<char>>, awaits_arg: bool) -> Step<
    Seq<Seq<char>>,
>
    decreases i.left(),
{
    let t = next_jump_multispace_step(i);
    let j = i.after(t);
    let n = used + t.used;
    match t.out {
        Err(e) => Step::fail(e, n, j.notes),
        Ok(TokenView::In) => Step::ok(args, n, j.notes),
        Ok(TokenView::Identifier(name)) => if awaits_arg {
            for_args_loop(j, n, args.push(name), false)
        } else {
            Step::fail(j.expected("a valid argument or '->'"@), n, j.notes)
        },
        Ok(TokenView::Comma) => if !awaits_arg {
            for_args_loop(j, n, args, true)
        } else {
            Step::fail(j.expected("a valid argument or '->'"@), n, j.notes)
        },
        Ok(_) => Step::fail(j.expected("a valid argument or '->'"@), n, j.notes),
    }
}

/// The loop variables of a `for`, up to the `in` marker.
pub open spec fn for_args_step(i: Input) -> Step<Seq<Seq<char>>> {
    for_args_loop(i, 0, Seq::empty(), true)
}

/// A `for` after its keyword: a blank, the loop variables up to the `in`
/// marker, the expression to walk up to the `{`, and the body up to the `}`.
#[verifier::opaque]
pub open spec fn for_step(i: Input) -> Step<StatementView>
    decreases i.left(), 3nat,
{
    let sp = expect_space_step(i);
    match sp.out {
        Err(e) => Step::fail(e, sp.used, sp.notes),
        Ok(_) => {
            let a = for_args_step(i.after(sp)).later(sp.used);
            match a.out {
                Err(e) => Step::fail(e, a.used, a.notes),
                Ok(args) => {
                    let g = guarded_block_step(i.after(a)).later(a.used);
                    match g.out {
                        Err(e) => Step::fail(e, g.used, g.notes),
                        Ok(parts) => Step::ok(
                            StatementView::For(ForView { args, indexed: parts.0, body: parts.1 }),
                            g.used,
                            g.notes,
                        ),
                    }
                },
            }
        },
    }
}

impl<'s> For<'s> {
    /// Parses a `for` loop. The `for` is pulled already.
    pub fn parse(parser: &mut AspenParser<'s>) -> (r: AspenResult<Statement<'s>>)
        requires
            old(parser).wf(),
        ensures
            fails_here(r, final(parser).input()),
            final(parser).follows(old(parser), for_step(old(parser).input())),
            shows(r, for_step(old(parser).input()).out),
        decreases old(parser).input().left(), 3nat,
    {
        proof {
            reveal(for_step);
            reveal(guarded_block_step);
        }
        match expect_space(parser) {
            Ok(_) => (),
            Err(e) => {
                return Err(e);
            },
        }
        let args = match Self::parse_args(parser) {
            Ok(args) => args,
            Err(e) => {
                return Err(e);
            },
        };
        match parse_guarded_block(parser) {
            Ok(parts) => Ok(
                Statement::For(For { args, indexed: parts.0, body: Box::new(parts.1) }),
            ),
            Err(e) => Err(e),
        }
    }

    /// Parses the loop variables of a `for`, and the `in` marker after them.
    pub fn parse_args(parser: &mut AspenParser<'s>) -> (r: AspenResult<Vec<&'s str>>)
        requires
            old(parser).wf(),
        ensures
            fails_here(r, final(parser).input()),
            final(parser).follows(old(parser), for_args_step(old(parser).input())),
            match r {
                Ok(args) => for_args_step(old(parser).input()).out == Ok::<
                    Seq<Seq<char>>,
                    super::error::AspenErrorView,
                >(names_model(args@)),
                Err(e) => for_args_step(old(parser).input()).out == Err::<
                    Seq<Seq<char>>,
                    super::error::AspenErrorView,
                >(e@),
            },
    {
        let ghost start = parser.input();
        let mut args: Vec<&'s str> = Vec::new();
        let mut awaits_arg = true;
        assert(names_model(args@) =~= Seq::<Seq<char>>::empty());
        loop
            invariant
                start == old(parser).input(),
                parser.wf(),
                parser.tokens() == start.tokens,
                parser.program() == old(parser).program(),
                parser.pulled() >= start.pulled,
                for_args_loop(
                    parser.input(),
                    (parser.pulled() - start.pulled) as nat,
                    names_model(args@),
                    awaits_arg,
                ) == for_args_step(start),
            decreases parser.input().left(),
        {
            let token = match next_jump_multispace(parser) {
                Ok(token) => token,
                Err(e) => {
                    return Err(e);
                },
            };
            match token {
                Token::In => {
                    return Ok(args);
                },
                Token::Identifier(value) => {
                    if awaits_arg {
                        assert(names_model(args@.push(value)) =~= names_model(args@).push(value@));
                        args.push(value);
                        awaits_arg = false;
                    } else {
                        return Err(
                            AspenError::expected(
                                parser,
                                String::from_str("a valid argument or '->'"),
                            ),
                        );
                    }
                },
                Token::Comma => {
                    if !awaits_arg {
                        awaits_arg = true;
                    } else {
                        return Err(
                            AspenError::expected(
                                parser,
                                String::from_str("a valid argument or '->'"),
                            ),
                        );
                    }
                },
                _ => {
                    return Err(
                        AspenError::expected(parser, String::from_str("a valid argument or '->'")),
                    );
                },
            }
        }
    }
}

} // verus!
