use super::error::{AspenError, AspenResult};
use super::expr::{parse_step, parse_with_token_step};
use super::operator::AssignOperator;
use super::utils::{
    expect_space, expect_space_step, next_jump_multispace, next_jump_multispace_step,
};
use super::{fails_here, shows, AspenParser, Expr, ExprView, Input, Statement, StatementView, Step};
use crate::lexer::{join3, Token, TokenView};
use vstd::prelude::*;

verus! {

/// A `let` declaration: the names it binds and the expression bound to them.
#[derive(Debug, PartialEq)]
pub struct Var<'s> {
    pub variables: Variables<'s>,
    pub value: Box<Expr<'s>>,
}

/// The target of a `let`: one name, or a list of names that takes a compound
/// value apart.
#[derive(Debug, PartialEq)]
pub enum Variables<'s> {
    Unique(&'s str),
    Destructuring(Vec<&'s str>),
}

pub struct VarView {
    pub variables: VariablesView,
    pub value: ExprView,
}

pub enum VariablesView {
    Unique(Seq<char>),
    Destructuring(Seq<Seq<char>>),
}

/// The texts of a list of names.
pub open spec fn names_model(names: Seq<&str>) -> Seq<Seq<char>> {
    Seq::new(names.len(), |i: int| names[i]@)
}

impl<'s> View for Variables<'s> {
    type V = VariablesView;

    open spec fn view(&self) -> VariablesView {
        match self {
            Variables::Unique(name) => VariablesView::Unique(name@),
            Variables::Destructuring(names) => VariablesView::Destructuring(names_model(names@)),
        }
    }
}

impl VariablesView {
    /// How many names the target binds.
    pub open spec fn len(self) -> nat {
        match self {
            VariablesView::Unique(_) => 1,
            VariablesView::Destructuring(names) => names.len(),
        }
    }
}

/// A copy of a list of names.
pub fn clone_names<'s>(names: &Vec<&'s str>) -> (r: Vec<&'s str>)
    ensures
        r@ == names@,
{
    let mut out: Vec<&'s str> = Vec::new();
    let mut i: usize = 0;
    while i < names.len()
        invariant
            i <= names.len(),
            out@ == names@.take(i as int),
        decreases names.len() - i,
    {
        out.push(names[i]);
        assert(names@.take(i + 1) =~= names@.take(i as int).push(names@[i as int]));
        i += 1;
    }
    assert(names@.take(names@.len() as int) =~= names@);
    out
}

impl<'s> Clone for Variables<'s> {
    fn clone(&self) -> (r: Self)
        ensures
            r@ == self@,
    {
        match self {
            Variables::Unique(name) => Variables::Unique(name),
            Variables::Destructuring(names) => Variables::Destructuring(clone_names(names)),
        }
    }
}

impl<'s> Variables<'s> {
    /// How many names the target binds.
    pub fn len(&self) -> (r: usize)
        ensures
            r == self@.len(),
    {
        match self {
            Variables::Unique(_) => 1,
            Variables::Destructuring(v) => v.len(),
        }
    }
}

/// What is said of a token that cannot begin the target of a `let`.
pub open spec fn target_text(found: Seq<char>) -> Seq<char> {
    "token '"@ + found + "'"@
}

/// The names of a destructuring target after its `(` and its first name:
/// more names, each after a comma, up to the `)`. A comma may stand before
/// the `)`.
pub open spec fn var_names_loop(i: Input, used: nat, names: Seq<Seq<char>>) -> Step<Seq<Seq<char>>>
    decreases i.left(),
{
    let t = next_jump_multispace_step(i);
    let j = i.after(t);
    let n = used + t.used;
    match t.out {
        Err(e) => Step::fail(e, n, j.notes),
        Ok(TokenView::CloseParen) => Step::ok(names, n, j.notes),
        Ok(TokenView::Comma) => {
            let u = next_jump_multispace_step(j);
            let k = j.after(u);
            match u.out {
                Err(e) => Step::fail(e, n + u.used, k.notes),
                Ok(TokenView::Identifier(name)) => var_names_loop(k, n + u.used, names.push(name)),
                Ok(TokenView::CloseParen) => Step::ok(names, n + u.used, k.notes),
                Ok(_) => Step::fail(k.expected("an identifier"@), n + u.used, k.notes),
            }
        },
        Ok(_) => Step::fail(j.expected("an identifier"@), n, j.notes),
    }
}

/// The target of a `let`: one name, or a parenthesized list of names.
#[verifier::opaque]
pub open spec fn var_target_step(i: Input) -> Step<VariablesView> {
    let t = next_jump_multispace_step(i);
    let j = i.after(t);
    match t.out {
        Err(e) => Step::fail(e, t.used, j.notes),
        Ok(TokenView::Identifier(name)) => Step::ok(VariablesView::Unique(name), t.used, j.notes),
        Ok(TokenView::OpenParen) => {
            let u = next_jump_multispace_step(j);
            let k = j.after(u);
            match u.out {
                Err(e) => Step::fail(e, t.used + u.used, k.notes),
                Ok(TokenView::Identifier(name)) => {
                    let l = var_names_loop(k, t.used + u.used, seq![name]);
                    match l.out {
                        Err(e) => Step::fail(e, l.used, l.notes),
                        Ok(names) => Step::ok(VariablesView::Destructuring(names), l.used, l.notes),
                    }
                },
                Ok(_) => Step::fail(k.expected("an identifier"@), t.used + u.used, k.notes),
            }
        },
        Ok(_) => Step::fail(j.unknown(target_text(j.slice())), t.used, j.notes),
    }
}

/// The value of a `let`: one expression, after the `=` where one is written.
#[verifier::opaque]
pub open spec fn var_value_step(i: Input) -> Step<ExprView> {
    let t = next_jump_multispace_step(i);
    let j = i.after(t);
    match t.out {
        Err(e) => Step::fail(e, t.used, j.notes),
        Ok(TokenView::AssignOperator(AssignOperator::Equal)) => parse_step(j).later(t.used),
        Ok(token) => parse_with_token_step(j, token).later(t.used),
    }
}

/// A declaration after its `let` and the space behind it, or after the comma
/// that follows another declaration: the target, then the value.
#[verifier::opaque]
pub open spec fn var_after_comma_step(i: Input) -> Step<StatementView> {
    let target = var_target_step(i);
    match target.out {
        Err(e) => Step::fail(e, target.used, target.notes),
        Ok(variables) => {
            let v = var_value_step(i.after(target)).later(target.used);
            match v.out {
                Err(e) => Step::fail(e, v.used, v.notes),
                Ok(value) => Step::ok(
                    StatementView::Var(VarView { variables, value }),
                    v.used,
                    v.notes,
                ),
            }
        },
    }
}

/// A declaration after its `let`: a blank, then the target and the value.
#[verifier::opaque]
pub open spec fn var_step(i: Input) -> Step<StatementView> {
    let sp = expect_space_step(i);
    match sp.out {
        Err(e) => Step::fail(e, sp.used, sp.notes),
        Ok(_) => var_after_comma_step(i.after(sp)).later(sp.used),
    }
}

/// [`shows`] for the target of a `let`.
pub open spec fn shows_target(
    r: Result<Variables, AspenError>,
    out: Result<VariablesView, super::error::AspenErrorView>,
) -> bool {
    match r {
        Ok(v) => out == Ok::<VariablesView, super::error::AspenErrorView>(v@),
        Err(e) => out == Err::<VariablesView, super::error::AspenErrorView>(e@),
    }
}

impl<'s> Var<'s> {
    /// Parses a variable declaration. The `let` is pulled already.
    pub fn parse(parser: &mut AspenParser<'s>) -> (r: AspenResult<Statement<'s>>)
        requires
            old(parser).wf(),
        ensures
            fails_here(r, final(parser).input()),
            final(parser).follows(old(parser), var_step(old(parser).input())),
            shows(r, var_step(old(parser).input()).out),
    {
        proof {
            reveal(var_step);
        }
        match expect_space(parser) {
            Ok(_) => (),
            Err(e) => {
                return Err(e);
            },
        }
        Self::parse_after_comma(parser)
    }

    /// Parses the target of a declaration: one name, or a parenthesized
    /// list of names separated by commas.
    pub fn parse_target(parser: &mut AspenParser<'s>) -> (r: AspenResult<Variables<'s>>)
        requires
            old(parser).wf(),
        ensures
            fails_here(r, final(parser).input()),
            final(parser).follows(old(parser), var_target_step(old(parser).input())),
            shows_target(r, var_target_step(old(parser).input()).out),
    {
        proof {
            reveal(var_target_step);
        }
        let ghost start = parser.input();
        let first = match next_jump_multispace(parser) {
            Ok(token) => token,
            Err(e) => {
                return Err(e);
            },
        };
        match first {
            Token::Identifier(name) => Ok(Variables::Unique(name)),
            Token::OpenParen => {
                let mut variables: Vec<&'s str> = Vec::new();
                match next_jump_multispace(parser) {
                    Err(e) => {
                        return Err(e);
                    },
                    Ok(Token::Identifier(name)) => {
                        variables.push(name);
                    },
                    Ok(_) => {
                        return Err(AspenError::expected(parser, String::from_str("an identifier")));
                    },
                }
                assert(names_model(variables@) =~= seq![variables@[0]@]);
                let ghost whole = var_names_loop(
                    parser.input(),
                    (parser.pulled() - start.pulled) as nat,
                    names_model(variables@),
                );
                loop
                    invariant
                        start == old(parser).input(),
                        parser.wf(),
                        parser.tokens() == start.tokens,
                        parser.program() == old(parser).program(),
                        parser.pulled() >= start.pulled,
                        var_names_loop(
                            parser.input(),
                            (parser.pulled() - start.pulled) as nat,
                            names_model(variables@),
                        ) == whole,
                        match whole.out {
                            Ok(names) => var_target_step(start) == Step::ok(
                                VariablesView::Destructuring(names),
                                whole.used,
                                whole.notes,
                            ),
                            Err(e) => var_target_step(start) == Step::<VariablesView>::fail(
                                e,
                                whole.used,
                                whole.notes,
                            ),
                        },
                    decreases parser.input().left(),
                {
                    proof {
                        reveal(var_target_step);
                    }
                    let token = match next_jump_multispace(parser) {
                        Ok(token) => token,
                        Err(e) => {
                            return Err(e);
                        },
                    };
                    match token {
                        Token::Comma => {
                            match next_jump_multispace(parser) {
                                Err(e) => {
                                    return Err(e);
                                },
                                Ok(Token::Identifier(name)) => {
                                    assert(names_model(variables@.push(name)) =~= names_model(
                                        variables@,
                                    ).push(name@));
                                    variables.push(name);
                                },
                                Ok(Token::CloseParen) => {
                                    return Ok(Variables::Destructuring(variables));
                                },
                                Ok(_) => {
                                    return Err(
                                        AspenError::expected(
                                            parser,
                                            String::from_str("an identifier"),
                                        ),
                                    );
                                },
                            }
                        },
                        Token::CloseParen => {
                            return Ok(Variables::Destructuring(variables));
                        },
                        _ => {
                            return Err(
                                AspenError::expected(parser, String::from_str("an identifier")),
                            );
                        },
                    }
                }
            },
            _ => {
                let text = join3("token '", parser.lexer.slice(), "'");
                Err(AspenError::unknown(parser, text))
            },
        }
    }

    /// Parses a declaration after its `let`, or after the comma that follows
    /// another declaration: the target, then the value, which may be
    /// introduced by `=`.
    pub fn parse_after_comma(parser: &mut AspenParser<'s>) -> (r: AspenResult<Statement<'s>>)
        requires
            old(parser).wf(),
        ensures
            fails_here(r, final(parser).input()),
            final(parser).follows(old(parser), var_after_comma_step(old(parser).input())),
            shows(r, var_after_comma_step(old(parser).input()).out),
    {
        proof {
            reveal(var_after_comma_step);
            reveal(var_value_step);
        }
        let variables = match Self::parse_target(parser) {
            Ok(v) => v,
            Err(e) => {
                return Err(e);
            },
        };
        let token = match next_jump_multispace(parser) {
            Ok(token) => token,
            Err(e) => {
                return Err(e);
            },
        };
        let parsed = match token {
            Token::AssignOperator(AssignOperator::Equal) => Expr::parse(parser),
            token => Expr::parse_with_token(parser, token),
        };
        match parsed {
            Ok(value) => Ok(Statement::Var(Var { variables, value: Box::new(value) })),
            Err(e) => Err(e),
        }
    }
}

} // verus!
