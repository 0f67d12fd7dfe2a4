use super::error::{AspenError, AspenResult};
use super::utils::{
    expect_space, expect_space_step, next_jump_multispace, next_jump_multispace_step,
};
use super::{fails_here, shows, AspenParser, Input, Statement, StatementView, Step};
use crate::lexer::{Token, TokenView};
use vstd::prelude::*;

verus! {

/// An import statement: the name of the module it brings in.
#[derive(Debug, Clone, Copy, PartialEq)]
pub struct Import<'a> {
    pub name: &'a str,
}

pub struct ImportView {
    pub name: Seq<char>,
}

impl<'a> View for Import<'a> {
    type V = ImportView;

    open spec fn view(&self) -> ImportView {
        ImportView { name: self.name@ }
    }
}

/// The name of an import: the next significant token, which must be a text.
#[verifier::opaque]
pub open spec fn import_after_comma_step(i: Input) -> Step<StatementView> {
    let t = next_jump_multispace_step(i);
    let j = i.after(t);
    match t.out {
        Err(e) => Step::fail(e, t.used, j.notes),
        Ok(TokenView::String(name)) => Step::ok(
            StatementView::Import(ImportView { name }),
            t.used,
            j.notes,
        ),
        Ok(_) => Step::fail(j.expected("an import value"@), t.used, j.notes),
    }
}

/// An import after its keyword: a blank, then the name.
#[verifier::opaque]
pub open spec fn import_step(i: Input) -> Step<StatementView> {
    let sp = expect_space_step(i);
    match sp.out {
        Err(e) => Step::fail(e, sp.used, sp.notes),
        Ok(_) => import_after_comma_step(i.after(sp)).later(sp.used),
    }
}

impl<'a> Import<'a> {
    /// Parses an import statement. The keyword is pulled already.
    pub fn parse(parser: &mut AspenParser<'a>) -> (r: AspenResult<Statement<'a>>)
        requires
            old(parser).wf(),
        ensures
            fails_here(r, final(parser).input()),
            final(parser).follows(old(parser), import_step(old(parser).input())),
            shows(r, import_step(old(parser).input()).out),
    {
        proof {
            reveal(import_step);
        }
        match expect_space(parser) {
            Ok(_) => (),
            Err(e) => {
                return Err(e);
            },
        }
        Self::parse_after_comma(parser)
    }

    /// Parses the name of one more import, after a comma.
    pub fn parse_after_comma(parser: &mut AspenParser<'a>) -> (r: AspenResult<Statement<'a>>)
        requires
            old(parser).wf(),
        ensures
            fails_here(r, final(parser).input()),
            final(parser).follows(old(parser), import_after_comma_step(old(parser).input())),
            shows(r, import_after_comma_step(old(parser).input()).out),
    {
        proof {
            reveal(import_after_comma_step);
        }
        match next_jump_multispace(parser) {
            Err(e) => Err(e),
            Ok(Token::String(name)) => Ok(Statement::Import(Import { name })),
            Ok(_) => Err(AspenError::expected(parser, String::from_str("an import value"))),
        }
    }
}

} // verus!
