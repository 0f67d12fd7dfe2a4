use super::conditional::{guarded_block_step, parse_guarded_block};
use super::error::AspenResult;
use super::utils::{expect_space, expect_space_step, Block, BlockView};
use super::{fails_here, shows, AspenParser, Expr, ExprView, Input, Statement, StatementView, Step};
use vstd::prelude::*;

verus! {

/// A `while` loop.
#[derive(Debug, PartialEq)]
pub struct While<'s> {
    pub condition: Box<Expr<'s>>,
    pub body: Box<Block<'s>>,
}

pub struct WhileView {
    pub condition: ExprView,
    pub body: BlockView,
}

/// A `while` after its keyword: a blank, the condition up to the `{`, and
/// the body up to the `}`.
#[verifier::opaque]
pub open spec fn while_step(i: Input) -> Step<StatementView>
    decreases i.left(), 3nat,
{
    let sp = expect_space_step(i);
    match sp.out {
        Err(e) => Step::fail(e, sp.used, sp.notes),
        Ok(_) => {
            let g = guarded_block_step(i.after(sp)).later(sp.used);
            match g.out {
                Err(e) => Step::fail(e, g.used, g.notes),
                Ok(parts) => Step::ok(
                    StatementView::While(WhileView { condition: parts.0, body: parts.1 }),
                    g.used,
                    g.notes,
                ),
            }
        },
    }
}

impl<'s> While<'s> {
    /// Parses a `while` loop. The `while` is pulled already.
    pub fn parse(parser: &mut AspenParser<'s>) -> (r: AspenResult<Statement<'s>>)
        requires
            old(parser).wf(),
        ensures
            fails_here(r, final(parser).input()),
            final(parser).follows(old(parser), while_step(old(parser).input())),
            shows(r, while_step(old(parser).input()).out),
        decreases old(parser).input().left(), 3nat,
    {
        proof {
            reveal(while_step);
            reveal(guarded_block_step);
        }
        match expect_space(parser) {
            Ok(_) => (),
            Err(e) => {
                return Err(e);
            },
        }
        match parse_guarded_block(parser) {
            Ok(parts) => Ok(
                Statement::While(While { condition: parts.0, body: Box::new(parts.1) }),
            ),
            Err(e) => Err(e),
        }
    }
}

} // verus!
