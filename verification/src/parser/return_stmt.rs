use super::error::AspenResult;
use super::expr::parse_step;
use super::utils::{expect_space, expect_space_step};
use super::{fails_here, shows, AspenParser, Expr, Input, Statement, StatementView, Step};
use vstd::prelude::*;

verus! {

/// A `return` statement and the expression whose value it hands back.
#[derive(Debug, PartialEq)]
pub struct Return<'s>(pub Box<Expr<'s>>);

/// A `return` after its keyword: a blank, then one expression.
#[verifier::opaque]
pub open spec fn return_step(i: Input) -> Step<StatementView> {
    let sp = expect_space_step(i);
    match sp.out {
        Err(e) => Step::fail(e, sp.used, sp.notes),
        Ok(_) => {
            let e = parse_step(i.after(sp)).later(sp.used);
            match e.out {
                Err(x) => Step::fail(x, e.used, e.notes),
                Ok(value) => Step::ok(StatementView::Return(value), e.used, e.notes),
            }
        },
    }
}

impl<'s> Return<'s> {
    /// Parses a return statement. The `return` is pulled already.
    pub fn parse(parser: &mut AspenParser<'s>) -> (r: AspenResult<Statement<'s>>)
        requires
            old(parser).wf(),
        ensures
            fails_here(r, final(parser).input()),
            final(parser).follows(old(parser), return_step(old(parser).input())),
            shows(r, return_step(old(parser).input()).out),
    {
        proof {
            reveal(return_step);
        }
        match expect_space(parser) {
            Ok(_) => (),
            Err(e) => {
                return Err(e);
            },
        }
        match Expr::parse(parser) {
            Ok(expr) => Ok(Statement::Return(Return(Box::new(expr)))),
            Err(e) => Err(e),
        }
    }

    /// Parses one more returned expression, after a comma.
    pub fn parse_after_comma(parser: &mut AspenParser<'s>) -> (r: AspenResult<Expr<'s>>)
        requires
            old(parser).wf(),
        ensures
            fails_here(r, final(parser).input()),
            final(parser).follows(old(parser), parse_step(old(parser).input())),
            shows(r, parse_step(old(parser).input()).out),
    {
        Expr::parse(parser)
    }
}

} // verus!
