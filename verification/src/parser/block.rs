//! The statement driver: the loop that reads a block token by token, hands
//! each keyword to its parser, and works the tokens that continue a
//! statement into the statement pushed last.

use super::conditional::{closed_chain_text, if_step, parse_else_step, If, IfOtherView};
use super::error::{AspenError, AspenErrorView, AspenResult};
use super::expr::{
    found_text, modify_into_array_indexing_step, modify_into_fn_call_step,
    modify_into_obj_indexing_step, modify_into_range_step, modify_into_string_concatenation_step,
    parse_parenthesized_step, parse_step, parse_with_token_step, with_last,
};
use super::for_loop::{for_step, For};
use super::func::{func_step, Func};
use super::graft::{binary_into, take_expr, with_binary};
use super::operator::{AssignOperator, BinaryOperator};
use super::return_stmt::{return_step, Return};
use super::utils::{next_token_step, Block, BlockView};
use super::var::{var_after_comma_step, var_step, Var, VarView};
use super::while_loop::{while_step, While};
use super::{
    fails_here, lemma_statements_push, rewrites, shows, statement_model, statements_model,
    AspenParser, Expr, ExprView, Input, Statement, StatementView, Step,
};
use crate::lexer::{join3, Token, TokenView};
use vstd::prelude::*;

verus! {

/// The expression of a statement that a following token may still extend:
/// that of an expression statement, the value of a `let`, or what a
/// `return` hands back.
pub open spec fn held(s: StatementView) -> Option<ExprView> {
    match s {
        StatementView::Expr(e) => Some(e),
        StatementView::Var(v) => Some(v.value),
        StatementView::Return(e) => Some(e),
        _ => None,
    }
}

/// The statement with the expression it holds replaced.
pub open spec fn holding(s: StatementView, e: ExprView) -> StatementView {
    match s {
        StatementView::Expr(_) => StatementView::Expr(e),
        StatementView::Var(v) => StatementView::Var(VarView { variables: v.variables, value: e }),
        StatementView::Return(_) => StatementView::Return(e),
        _ => s,
    }
}

/// Whether the token continues the statement before it instead of starting
/// one: an assignment or binary operator, `(`, `:`, `.`, `..` or `[`.
pub open spec fn continues_statement(token: TokenView) -> bool {
    match token {
        TokenView::AssignOperator(_) => true,
        TokenView::BinaryOperator(_) => true,
        TokenView::OpenParen => true,
        TokenView::Range => true,
        TokenView::Dot => true,
        TokenView::StringSeparator => true,
        TokenView::OpenBracket => true,
        _ => false,
    }
}

/// Whether the token can begin an expression statement.
pub open spec fn starts_expression(token: TokenView) -> bool {
    match token {
        TokenView::Nil => true,
        TokenView::Bool(_) => true,
        TokenView::Float(_) => true,
        TokenView::Int(_) => true,
        TokenView::OpenBrace => true,
        TokenView::SpreadOperator => true,
        TokenView::String(_) => true,
        TokenView::Identifier(_) => true,
        _ => false,
    }
}

/// Whether the token is a keyword that begins a statement of its own.
pub open spec fn starts_statement(token: TokenView) -> bool {
    match token {
        TokenView::Return => true,
        TokenView::Let => true,
        TokenView::For => true,
        TokenView::While => true,
        TokenView::If => true,
        TokenView::Func(_) => true,
        _ => false,
    }
}

/// What is said of a token that continues a statement where there is none
/// of the right kind to continue.
pub open spec fn refusal_text(token: TokenView) -> Seq<char> {
    match token {
        TokenView::AssignOperator(op) => found_text(op.symbol_text()),
        TokenView::BinaryOperator(op) => found_text(op.symbol_text()),
        TokenView::OpenParen => "token '(' found"@,
        TokenView::Range => "token ':' found"@,
        TokenView::Dot => "token '.' found"@,
        TokenView::StringSeparator => "token '..' found"@,
        _ => "token '[' found"@,
    }
}

/// What is said of a token that continues a statement after a `;` has
/// ended it.
pub open spec fn ended_text(token: TokenView) -> Seq<char> {
    match token {
        TokenView::OpenBracket => "token '[' found, cannot write arrays expressions in global context"@,
        _ => refusal_text(token),
    }
}

/// The expression that the token may extend in the statements read so far:
/// the one held by the last statement. An assignment operator extends an
/// expression statement only.
pub open spec fn target_of(stmts: Seq<StatementView>, token: TokenView) -> Option<ExprView> {
    if stmts.len() == 0 {
        None
    } else {
        match token {
            TokenView::AssignOperator(_) => match stmts.last() {
                StatementView::Expr(e) => Some(e),
                _ => None,
            },
            _ => held(stmts.last()),
        }
    }
}

/// The expression `base` extended by what the token opens: the right
/// operand of an operator, the arguments of a call, a range bound, a field
/// name, the right-hand side of a concatenation, or an indexer.
#[verifier::opaque]
pub open spec fn extension_step(i: Input, token: TokenView, base: ExprView) -> Step<ExprView> {
    match token {
        TokenView::AssignOperator(op) => {
            let p = parse_step(i);
            match p.out {
                Err(e) => Step::fail(e, p.used, p.notes),
                Ok(value) => Step::ok(
                    ExprView::Assign {
                        target: Box::new(base),
                        operator: op,
                        value: Box::new(value),
                    },
                    p.used,
                    p.notes,
                ),
            }
        },
        TokenView::BinaryOperator(op) => {
            let p = parse_step(i);
            match p.out {
                Err(e) => Step::fail(e, p.used, p.notes),
                Ok(right) => Step::ok(with_binary(base, op, right), p.used, p.notes),
            }
        },
        TokenView::OpenParen => modify_into_fn_call_step(i, base),
        TokenView::Range => modify_into_range_step(i, base),
        TokenView::Dot => modify_into_obj_indexing_step(i, base),
        TokenView::StringSeparator => modify_into_string_concatenation_step(i, base),
        _ => modify_into_array_indexing_step(i, base),
    }
}

/// A token that continues a statement, worked into the statements read so
/// far. It extends the expression held by the last statement. Where there
/// is none to extend, a `(` opens a parenthesized expression statement; a
/// `.`, `..` or `[` before any statement is passed over; and every other
/// case is an unknown token.
#[verifier::opaque]
pub open spec fn extend_last_step(i: Input, stmts: Seq<StatementView>, token: TokenView) -> Step<
    Seq<StatementView>,
> {
    match target_of(stmts, token) {
        Some(base) => {
            let x = extension_step(i, token, base);
            match x.out {
                Err(e) => Step::fail(e, x.used, x.notes),
                Ok(e) => Step::ok(with_last(stmts, holding(stmts.last(), e)), x.used, x.notes),
            }
        },
        None => match token {
            TokenView::OpenParen => {
                let p = parse_parenthesized_step(i);
                match p.out {
                    Err(e) => Step::fail(e, p.used, p.notes),
                    Ok(e) => Step::ok(stmts.push(StatementView::Expr(e)), p.used, p.notes),
                }
            },
            TokenView::Dot | TokenView::StringSeparator | TokenView::OpenBracket => if stmts.len()
                == 0 {
                Step::ok(stmts, 0, i.notes)
            } else {
                Step::fail(i.unknown(refusal_text(token)), 0, i.notes)
            },
            _ => Step::fail(i.unknown(refusal_text(token)), 0, i.notes),
        },
    }
}

/// The statement that a keyword begins, the keyword pulled already.
#[verifier::opaque]
pub open spec fn keyword_step(i: Input, token: TokenView) -> Step<StatementView>
    decreases i.left(), 5nat,
{
    match token {
        TokenView::Return => return_step(i),
        TokenView::Let => var_step(i),
        TokenView::For => for_step(i),
        TokenView::While => while_step(i),
        TokenView::Func(name) => func_step(i, name),
        _ => {
            let s = if_step(i);
            match s.out {
                Err(e) => Step::fail(e, s.used, s.notes),
                Ok(chain) => Step::ok(StatementView::If(chain), s.used, s.notes),
            }
        },
    }
}

/// An `other` or `else`, pulled already, worked into the statements read so
/// far: the link it introduces is added to the chain of the `if` that is
/// the last statement. Anywhere but directly after an `if` the keyword is
/// an unknown token.
#[verifier::opaque]
pub open spec fn continue_if_step(i: Input, stmts: Seq<StatementView>, token: TokenView) -> Step<
    Seq<StatementView>,
>
    decreases i.left(), 5nat,
{
    if stmts.len() == 0 {
        Step::fail(i.unknown(found_text(i.slice())), 0, i.notes)
    } else {
        match stmts.last() {
            StatementView::If(chain) => {
                let l: Step<IfOtherView> = if token is Other {
                    let s = if_step(i);
                    match s.out {
                        Err(e) => Step::fail(e, s.used, s.notes),
                        Ok(inner) => Step::ok(IfOtherView::If(inner), s.used, s.notes),
                    }
                } else {
                    parse_else_step(i)
                };
                match l.out {
                    Err(e) => Step::fail(e, l.used, l.notes),
                    Ok(link) => match chain.extended(link) {
                        Some(longer) => Step::ok(
                            with_last(stmts, StatementView::If(longer)),
                            l.used,
                            l.notes,
                        ),
                        None => Step::fail(
                            i.after(l).unknown(closed_chain_text()),
                            l.used,
                            l.notes,
                        ),
                    },
                }
            },
            _ => Step::fail(i.unknown(found_text(i.slice())), 0, i.notes),
        }
    }
}

/// What is said when the input ends before the token that closes a block.
pub open spec fn missing_stop_text(stop: TokenView) -> Seq<char> {
    "token '"@ + stop.describe() + "'"@
}

/// What the block driver remembers between two tokens.
#[derive(Debug, Clone, Copy, PartialEq, Eq, Structural)]
pub struct Flags {
    /// The last statement must end before another begins.
    pub expect_stmt_end: bool,
    /// A `;` ended the last statement: nothing may continue it.
    pub semi_colon_found: bool,
}

/// Whether the token, met between statements, leads to a statement parser:
/// a keyword that begins a statement, a comma after a declaration, or an
/// `other` or `else`.
pub open spec fn leads_statement(token: TokenView, flags: Flags) -> bool {
    starts_statement(token) || (token is Comma && flags.expect_stmt_end) || token is Other
        || token is Else
}

/// What a token that leads to a statement parser does to the statements
/// read so far and to the flags.
#[verifier::opaque]
pub open spec fn statement_turn(
    i: Input,
    stmts: Seq<StatementView>,
    flags: Flags,
    token: TokenView,
) -> Step<(Seq<StatementView>, Flags)>
    decreases i.left(), 6nat,
{
    if starts_statement(token) {
        let k = keyword_step(i, token);
        match k.out {
            Err(e) => Step::fail(e, k.used, k.notes),
            Ok(s) => Step::ok(
                (
                    stmts.push(s),
                    Flags {
                        expect_stmt_end: flags.expect_stmt_end || token is Return || token is Let,
                        semi_colon_found: false,
                    },
                ),
                k.used,
                k.notes,
            ),
        }
    } else if token is Comma {
        if flags.semi_colon_found || stmts.len() == 0 || !(stmts.last() is Var) {
            Step::fail(i.unknown("token ',' found"@), 0, i.notes)
        } else {
            let v = var_after_comma_step(i);
            match v.out {
                Err(e) => Step::fail(e, v.used, v.notes),
                Ok(s) => Step::ok((stmts.push(s), flags), v.used, v.notes),
            }
        }
    } else if flags.semi_colon_found {
        Step::fail(
            i.unknown(
                if token is Else {
                    "token 'else' found"@
                } else {
                    found_text(i.slice())
                },
            ),
            0,
            i.notes,
        )
    } else {
        let c = continue_if_step(i, stmts, token);
        match c.out {
            Err(e) => Step::fail(e, c.used, c.notes),
            Ok(more) => Step::ok((more, flags), c.used, c.notes),
        }
    }
}

/// What any other token does to the statements read so far and to the
/// flags; the third part of the result tells that the token is the one that
/// closes the block. A comment is recorded; a token that can begin an
/// expression is parsed as an expression statement, whose failure ends the
/// parse; a token that continues a statement is
/// worked into the last one; line breaks, `;` and spaces set the flags; and
/// every other token is an error.
#[verifier::opaque]
pub open spec fn plain_turn(
    i: Input,
    stop: Option<TokenView>,
    stmts: Seq<StatementView>,
    flags: Flags,
    token: TokenView,
) -> Step<(Seq<StatementView>, Flags, bool)> {
    match token.comment_text() {
        Some(text) => Step::ok((stmts, flags, false), 0, i.noting(text).notes),
        None => if stop == Some(token) {
            Step::ok((stmts, flags, true), 0, i.notes)
        } else if starts_expression(token) {
            let p = parse_with_token_step(i, token);
            match p.out {
                Err(e) => Step::fail(e, p.used, p.notes),
                Ok(e) => Step::ok(
                    (stmts.push(StatementView::Expr(e)), flags, false),
                    p.used,
                    p.notes,
                ),
            }
        } else if continues_statement(token) {
            if flags.semi_colon_found {
                Step::fail(i.unknown(ended_text(token)), 0, i.notes)
            } else {
                let x = extend_last_step(i, stmts, token);
                match x.out {
                    Err(e) => Step::fail(e, x.used, x.notes),
                    Ok(more) => Step::ok((more, flags, false), x.used, x.notes),
                }
            }
        } else {
            match token {
                TokenView::Newline => Step::ok(
                    (
                        stmts,
                        Flags {
                            expect_stmt_end: false,
                            semi_colon_found: flags.semi_colon_found,
                        },
                        false,
                    ),
                    0,
                    i.notes,
                ),
                TokenView::SemiColon => Step::ok(
                    (stmts, Flags { expect_stmt_end: false, semi_colon_found: true }, false),
                    0,
                    i.notes,
                ),
                TokenView::Spaces => Step::ok((stmts, flags, false), 0, i.notes),
                _ => if flags.expect_stmt_end {
                    Step::fail(i.expected_newline(), 0, i.notes)
                } else {
                    Step::fail(i.unknown(found_text(i.slice())), 0, i.notes)
                },
            }
        },
    }
}

/// A block: statements up to the `stop` token, or up to the end of the
/// input where none is given.
#[verifier::opaque]
pub open spec fn parse_block_step(i: Input, stop: Option<TokenView>) -> Step<BlockView>
    decreases i.left(), 1nat,
{
    block_loop(
        i,
        0,
        stop,
        Seq::empty(),
        Flags { expect_stmt_end: false, semi_colon_found: false },
    )
}

/// The rest of [`parse_block_step`], `used` pulls in: `stmts` holds the
/// statements read so far. Each turn pulls one token and lets it act on the
/// statements and the flags, until the token that closes the block or the
/// end of the input, which ends a block that no token closes.
#[verifier::opaque]
pub open spec fn block_loop(
    i: Input,
    used: nat,
    stop: Option<TokenView>,
    stmts: Seq<StatementView>,
    flags: Flags,
) -> Step<BlockView>
    decreases i.left(), 0nat,
{
    let t = next_token_step(i);
    let j = i.after(t);
    let n = used + t.used;
    match t.out {
        Err(e) => if e is Eof {
            match stop {
                Some(wanted) => Step::fail(j.expected(missing_stop_text(wanted)), n, j.notes),
                None => Step::ok(BlockView { statements: stmts }, n, j.notes),
            }
        } else {
            Step::fail(e, n, j.notes)
        },
        Ok(token) => if leads_statement(token, flags) {
            let x = statement_turn(j, stmts, flags, token);
            match x.out {
                Err(e) => Step::fail(e, n + x.used, x.notes),
                Ok(next) => block_loop(j.after(x), n + x.used, stop, next.0, next.1),
            }
        } else {
            let x = plain_turn(j, stop, stmts, flags, token);
            match x.out {
                Err(e) => Step::fail(e, n + x.used, x.notes),
                Ok(next) => if next.2 {
                    Step::ok(BlockView { statements: next.0 }, n + x.used, x.notes)
                } else {
                    block_loop(j.after(x), n + x.used, stop, next.0, next.1)
                },
            }
        },
    }
}

/// The program: its statements up to the end of the input.
pub open spec fn parse_aspen_step(i: Input) -> Step<BlockView> {
    parse_block_step(i, None)
}

/// What a stop token stands for.
pub open spec fn stop_view(stop: Option<Token>) -> Option<TokenView> {
    match stop {
        Some(t) => Some(t@),
        None => None,
    }
}

/// [`shows`] for a list of statements.
pub open spec fn shows_statements(
    r: Result<(), AspenError>,
    after: Seq<Box<Statement>>,
    out: Result<Seq<StatementView>, AspenErrorView>,
) -> bool {
    match r {
        Ok(_) => out == Ok::<Seq<StatementView>, AspenErrorView>(statements_model(after)),
        Err(e) => out == Err::<Seq<StatementView>, AspenErrorView>(e@),
    }
}

/// Replacing the last statement of a list replaces what it stands for.
pub proof fn lemma_statements_with_last(items: Seq<Box<Statement>>, last: Box<Statement>)
    requires
        items.len() > 0,
    ensures
        statements_model(items.drop_last().push(last)) == with_last(
            statements_model(items),
            statement_model(*last),
        ),
{
    assert(statements_model(items.drop_last().push(last)) =~= with_last(
        statements_model(items),
        statement_model(*last),
    ));
}

/// Whether the token continues the statement before it.
pub fn token_continues_statement(token: &Token) -> (r: bool)
    ensures
        r == continues_statement(token@),
{
    match token {
        Token::AssignOperator(_) => true,
        Token::BinaryOperator(_) => true,
        Token::OpenParen => true,
        Token::Range => true,
        Token::Dot => true,
        Token::StringSeparator => true,
        Token::OpenBracket => true,
        _ => false,
    }
}

/// Whether the token can begin an expression statement.
pub fn token_starts_expression(token: &Token) -> (r: bool)
    ensures
        r == starts_expression(token@),
{
    match token {
        Token::Nil => true,
        Token::Bool(_) => true,
        Token::Float(_) => true,
        Token::Int(_) => true,
        Token::OpenBrace => true,
        Token::SpreadOperator => true,
        Token::String(_) => true,
        Token::Identifier(_) => true,
        _ => false,
    }
}

/// Whether the token is a keyword that begins a statement of its own.
pub fn token_starts_statement(token: &Token) -> (r: bool)
    ensures
        r == starts_statement(token@),
{
    match token {
        Token::Return => true,
        Token::Let => true,
        Token::For => true,
        Token::While => true,
        Token::If => true,
        Token::Func(_) => true,
        _ => false,
    }
}

/// What is said of a token that continues a statement where there is none
/// of the right kind to continue.
pub fn refusal_message(token: &Token) -> (r: String)
    ensures
        r@ == refusal_text(token@),
{
    match token {
        Token::AssignOperator(op) => join3("token '", op.symbol(), "' found"),
        Token::BinaryOperator(op) => join3("token '", op.symbol(), "' found"),
        Token::OpenParen => String::from_str("token '(' found"),
        Token::Range => String::from_str("token ':' found"),
        Token::Dot => String::from_str("token '.' found"),
        Token::StringSeparator => String::from_str("token '..' found"),
        _ => String::from_str("token '[' found"),
    }
}

/// What is said of a token that continues a statement after a `;` has
/// ended it.
pub fn ended_message(token: &Token) -> (r: String)
    ensures
        r@ == ended_text(token@),
{
    match token {
        Token::OpenBracket => String::from_str(
            "token '[' found, cannot write arrays expressions in global context",
        ),
        _ => refusal_message(token),
    }
}

/// Extends `base` by what the token opens.
pub(crate) fn parse_extension<'s>(
    parser: &mut AspenParser<'s>,
    token: Token<'s>,
    base: &mut Box<Expr<'s>>,
) -> (r: AspenResult<()>)
    requires
        old(parser).wf(),
        continues_statement(token@),
    ensures
        fails_here(r, final(parser).input()),
        final(parser).follows(
            old(parser),
            extension_step(old(parser).input(), token@, old(base)@),
        ),
        rewrites(
            r,
            **old(base),
            **final(base),
            extension_step(old(parser).input(), token@, old(base)@).out,
        ),
{
    proof {
        reveal(extension_step);
    }
    match token {
        Token::AssignOperator(aop) => {
            let value = match Expr::parse(parser) {
                Ok(e) => e,
                Err(e) => {
                    return Err(e);
                },
            };
            let target = take_expr(base);
            **base = Expr::Assign {
                target: Box::new(target),
                operator: aop,
                value: Box::new(value),
            };
            Ok(())
        },
        Token::BinaryOperator(bop) => {
            let right = match Expr::parse(parser) {
                Ok(e) => e,
                Err(e) => {
                    return Err(e);
                },
            };
            let taken = take_expr(base);
            **base = binary_into(taken, bop, right);
            Ok(())
        },
        Token::OpenParen => Expr::modify_into_fn_call(parser, base),
        Token::Range => Expr::modify_into_range(parser, base),
        Token::Dot => Expr::modify_into_obj_indexing(parser, base),
        Token::StringSeparator => Expr::modify_into_string_concatenation(parser, base),
        _ => Expr::modify_into_array_indexing(parser, base),
    }
}

/// Whether the last of the statements holds an expression that the token
/// may extend.
pub(crate) fn has_target(statements: &Vec<Box<Statement>>, token: &Token) -> (r: bool)
    ensures
        r == target_of(statements_model(statements@), token@).is_some(),
{
    let n = statements.len();
    if n == 0 {
        return false;
    }
    let last = &*statements[n - 1];
    assert(statements_model(statements@).last() == statement_model(*last));
    match token {
        Token::AssignOperator(_) => match last {
            Statement::Expr(_) => true,
            _ => false,
        },
        _ => match last {
            Statement::Expr(_) => true,
            Statement::Var(_) => true,
            Statement::Return(_) => true,
            _ => false,
        },
    }
}

/// Works a token that continues a statement into the statements read so far.
pub(crate) fn extend_last<'s>(
    parser: &mut AspenParser<'s>,
    statements: &mut Vec<Box<Statement<'s>>>,
    token: Token<'s>,
) -> (r: AspenResult<()>)
    requires
        old(parser).wf(),
        continues_statement(token@),
    ensures
        fails_here(r, final(parser).input()),
        final(parser).follows(
            old(parser),
            extend_last_step(old(parser).input(), statements_model(old(statements)@), token@),
        ),
        shows_statements(
            r,
            final(statements)@,
            extend_last_step(old(parser).input(), statements_model(old(statements)@), token@).out,
        ),
{
    proof {
        reveal(extend_last_step);
    }
    if has_target(statements, &token) {
        let ghost before = statements@;
        let last = statements.pop().unwrap();
        assert(statements_model(before).last() == statement_model(*last));
        let rebuilt = match *last {
            Statement::Expr(base) => {
                let mut base = base;
                match parse_extension(parser, token, &mut base) {
                    Ok(_) => Statement::Expr(base),
                    Err(e) => {
                        return Err(e);
                    },
                }
            },
            Statement::Var(var) => {
                let Var { variables, value } = var;
                let mut base = value;
                match parse_extension(parser, token, &mut base) {
                    Ok(_) => Statement::Var(Var { variables, value: base }),
                    Err(e) => {
                        return Err(e);
                    },
                }
            },
            Statement::Return(ret) => {
                let mut base = ret.0;
                match parse_extension(parser, token, &mut base) {
                    Ok(_) => Statement::Return(Return(base)),
                    Err(e) => {
                        return Err(e);
                    },
                }
            },
            other => other,
        };
        let item = Box::new(rebuilt);
        statements.push(item);
        proof {
            lemma_statements_with_last(before, item);
        }
        Ok(())
    } else {
        match token {
            Token::OpenParen => {
                let expr = match Expr::parse_parenthesized(parser) {
                    Ok(e) => e,
                    Err(e) => {
                        return Err(e);
                    },
                };
                let item = Box::new(Statement::Expr(Box::new(expr)));
                proof {
                    lemma_statements_push(statements@, item);
                }
                statements.push(item);
                Ok(())
            },
            Token::Dot | Token::StringSeparator | Token::OpenBracket => {
                if statements.len() == 0 {
                    Ok(())
                } else {
                    let text = refusal_message(&token);
                    Err(AspenError::unknown(parser, text))
                }
            },
            _ => {
                let text = refusal_message(&token);
                Err(AspenError::unknown(parser, text))
            },
        }
    }
}

/// Parses the statement that a keyword begins. The keyword is pulled
/// already.
pub(crate) fn parse_keyword<'s>(parser: &mut AspenParser<'s>, token: Token<'s>) -> (r: AspenResult<
    Statement<'s>,
>)
    requires
        old(parser).wf(),
        starts_statement(token@),
    ensures
        fails_here(r, final(parser).input()),
        final(parser).follows(old(parser), keyword_step(old(parser).input(), token@)),
        shows(r, keyword_step(old(parser).input(), token@).out),
    decreases old(parser).input().left(), 5nat,
{
    proof {
        reveal(keyword_step);
        reveal(for_step);
        reveal(while_step);
        reveal(func_step);
        reveal(if_step);
    }
    match token {
        Token::Return => Return::parse(parser),
        Token::Let => Var::parse(parser),
        Token::For => For::parse(parser),
        Token::While => While::parse(parser),
        Token::Func(name) => Func::parse(parser, name),
        _ => If::parse(parser),
    }
}

/// Works an `other` or `else` into the statements read so far. The keyword
/// is pulled already.
pub(crate) fn continue_if<'s>(
    parser: &mut AspenParser<'s>,
    statements: &mut Vec<Box<Statement<'s>>>,
    token: Token<'s>,
) -> (r: AspenResult<()>)
    requires
        old(parser).wf(),
        token@ is Other || token@ is Else,
    ensures
        fails_here(r, final(parser).input()),
        final(parser).follows(
            old(parser),
            continue_if_step(old(parser).input(), statements_model(old(statements)@), token@),
        ),
        shows_statements(
            r,
            final(statements)@,
            continue_if_step(old(parser).input(), statements_model(old(statements)@), token@).out,
        ),
    decreases old(parser).input().left(), 5nat,
{
    proof {
        reveal(continue_if_step);
        reveal(if_step);
        reveal(parse_else_step);
    }
    let n = statements.len();
    if n == 0 {
        let text = join3("token '", parser.lexer.slice(), "' found");
        return Err(AspenError::unknown(parser, text));
    }
    let is_if = match &*statements[n - 1] {
        Statement::If(_) => true,
        _ => false,
    };
    assert(statements_model(statements@).last() == statement_model(*statements@[n - 1]));
    if !is_if {
        let text = join3("token '", parser.lexer.slice(), "' found");
        return Err(AspenError::unknown(parser, text));
    }
    let parsed = match token {
        Token::Other => If::parse_other(parser),
        _ => If::parse_else(parser),
    };
    let link = match parsed {
        Ok(link) => link,
        Err(e) => {
            return Err(e);
        },
    };
    let ghost before = statements@;
    let last = statements.pop().unwrap();
    match *last {
        Statement::If(chain) => {
            let mut chain = chain;
            match chain.add_other_at_if_end(parser, link) {
                Ok(_) => (),
                Err(e) => {
                    return Err(e);
                },
            }
            let item = Box::new(Statement::If(chain));
            statements.push(item);
            proof {
                lemma_statements_with_last(before, item);
            }
            Ok(())
        },
        _ => Ok(()),
    }
}

/// Lets a token that leads to a statement parser act on the statements
/// read so far and on the flags.
pub(crate) fn parse_statement_turn<'s>(
    parser: &mut AspenParser<'s>,
    statements: &mut Vec<Box<Statement<'s>>>,
    flags: &mut Flags,
    token: Token<'s>,
) -> (r: AspenResult<()>)
    requires
        old(parser).wf(),
        leads_statement(token@, *old(flags)),
    ensures
        fails_here(r, final(parser).input()),
        final(parser).follows(
            old(parser),
            statement_turn(
                old(parser).input(),
                statements_model(old(statements)@),
                *old(flags),
                token@,
            ),
        ),
        match r {
            Ok(_) => statement_turn(
                old(parser).input(),
                statements_model(old(statements)@),
                *old(flags),
                token@,
            ).out == Ok::<(Seq<StatementView>, Flags), AspenErrorView>(
                (statements_model(final(statements)@), *final(flags)),
            ),
            Err(e) => statement_turn(
                old(parser).input(),
                statements_model(old(statements)@),
                *old(flags),
                token@,
            ).out == Err::<(Seq<StatementView>, Flags), AspenErrorView>(e@),
        },
    decreases old(parser).input().left(), 6nat,
{
    proof {
        reveal(statement_turn);
        reveal(keyword_step);
        reveal(continue_if_step);
    }
    let is_comma = match token {
        Token::Comma => true,
        _ => false,
    };
    if token_starts_statement(&token) {
        let stmt = match parse_keyword(parser, token) {
            Ok(s) => s,
            Err(e) => {
                return Err(e);
            },
        };
        let item = Box::new(stmt);
        proof {
            lemma_statements_push(statements@, item);
        }
        statements.push(item);
        match token {
            Token::Return | Token::Let => {
                flags.expect_stmt_end = true;
            },
            _ => (),
        }
        flags.semi_colon_found = false;
        Ok(())
    } else if is_comma {
        let n = statements.len();
        let after_var = if n == 0 {
            false
        } else {
            assert(statements_model(statements@).last() == statement_model(*statements@[n - 1]));
            match &*statements[n - 1] {
                Statement::Var(_) => true,
                _ => false,
            }
        };
        if flags.semi_colon_found || !after_var {
            return Err(AspenError::unknown(parser, String::from_str("token ',' found")));
        }
        let stmt = match Var::parse_after_comma(parser) {
            Ok(s) => s,
            Err(e) => {
                return Err(e);
            },
        };
        let item = Box::new(stmt);
        proof {
            lemma_statements_push(statements@, item);
        }
        statements.push(item);
        Ok(())
    } else if flags.semi_colon_found {
        let text = match token {
            Token::Else => String::from_str("token 'else' found"),
            _ => join3("token '", parser.lexer.slice(), "' found"),
        };
        Err(AspenError::unknown(parser, text))
    } else {
        continue_if(parser, statements, token)
    }
}

/// Lets a token that leads to no statement parser act on the statements
/// read so far and on the flags. Returns `true` for the token that closes
/// the block.
pub(crate) fn parse_plain_turn<'s>(
    parser: &mut AspenParser<'s>,
    stop_on: Option<Token<'s>>,
    statements: &mut Vec<Box<Statement<'s>>>,
    flags: &mut Flags,
    token: Token<'s>,
) -> (r: AspenResult<bool>)
    requires
        old(parser).wf(),
    ensures
        fails_here(r, final(parser).input()),
        final(parser).follows(
            old(parser),
            plain_turn(
                old(parser).input(),
                stop_view(stop_on),
                statements_model(old(statements)@),
                *old(flags),
                token@,
            ),
        ),
        match r {
            Ok(closed) => plain_turn(
                old(parser).input(),
                stop_view(stop_on),
                statements_model(old(statements)@),
                *old(flags),
                token@,
            ).out == Ok::<(Seq<StatementView>, Flags, bool), AspenErrorView>(
                (statements_model(final(statements)@), *final(flags), closed),
            ),
            Err(e) => plain_turn(
                old(parser).input(),
                stop_view(stop_on),
                statements_model(old(statements)@),
                *old(flags),
                token@,
            ).out == Err::<(Seq<StatementView>, Flags, bool), AspenErrorView>(e@),
        },
{
    proof {
        reveal(plain_turn);
    }
    if let Some(text) = token.comment_text() {
        parser.note_comment(text);
        Ok(false)
    } else if match stop_on {
        Some(wanted) => token.same(&wanted),
        None => false,
    } {
        Ok(true)
    } else if token_starts_expression(&token) {
        match Expr::parse_with_token(parser, token) {
            Ok(ex) => {
                let item = Box::new(Statement::Expr(Box::new(ex)));
                proof {
                    lemma_statements_push(statements@, item);
                }
                statements.push(item);
                Ok(false)
            },
            Err(e) => Err(e),
        }
    } else if token_continues_statement(&token) {
        if flags.semi_colon_found {
            let text = ended_message(&token);
            return Err(AspenError::unknown(parser, text));
        }
        match extend_last(parser, statements, token) {
            Ok(_) => Ok(false),
            Err(e) => Err(e),
        }
    } else {
        match token {
            Token::Newline => {
                flags.expect_stmt_end = false;
                Ok(false)
            },
            Token::SemiColon => {
                flags.expect_stmt_end = false;
                flags.semi_colon_found = true;
                Ok(false)
            },
            Token::Spaces => Ok(false),
            _ => {
                if flags.expect_stmt_end {
                    Err(AspenError::expected_newline(parser))
                } else {
                    let text = join3("token '", parser.lexer.slice(), "' found");
                    Err(AspenError::unknown(parser, text))
                }
            },
        }
    }
}

/// Parses a block of statements. With a `stop_on` token the block ends at
/// that token, as a function body does at its `}`; without one it ends
/// with the input.
pub fn parse_block<'s>(parser: &mut AspenParser<'s>, stop_on: Option<Token<'s>>) -> (r: AspenResult<
    Block<'s>,
>)
    requires
        old(parser).wf(),
    ensures
        fails_here(r, final(parser).input()),
        final(parser).follows(
            old(parser),
            parse_block_step(old(parser).input(), stop_view(stop_on)),
        ),
        shows(r, parse_block_step(old(parser).input(), stop_view(stop_on)).out),
    decreases old(parser).input().left(), 1nat,
{
    proof {
        reveal(parse_block_step);
        reveal(block_loop);
    }
    let ghost start = parser.input();
    let ghost stop = stop_view(stop_on);
    let mut statements: Vec<Box<Statement<'s>>> = Vec::new();
    let mut flags = Flags { expect_stmt_end: false, semi_colon_found: false };
    assert(statements_model(statements@) =~= Seq::<StatementView>::empty());
    loop
        invariant
            start == old(parser).input(),
            stop == stop_view(stop_on),
            parser.wf(),
            parser.tokens() == start.tokens,
            parser.program() == old(parser).program(),
            parser.pulled() >= start.pulled,
            block_loop(
                parser.input(),
                (parser.pulled() - start.pulled) as nat,
                stop,
                statements_model(statements@),
                flags,
            ) == parse_block_step(start, stop),
        decreases parser.input().left(),
    {
        proof {
            reveal(block_loop);
            reveal(statement_turn);
            parser.lexer.lemma_wf_bound();
        }
        let token = match super::utils::next_token(parser) {
            Ok(token) => token,
            Err(AspenError::Eof) => {
                return match stop_on {
                    Some(wanted) => {
                        let what = wanted.describe();
                        let text = join3("token '", what.as_str(), "'");
                        Err(AspenError::expected(parser, text))
                    },
                    None => Ok(Block::new(statements)),
                };
            },
            Err(e) => {
                return Err(e);
            },
        };
        let leads = token_starts_statement(&token) || match token {
            Token::Comma => flags.expect_stmt_end,
            Token::Other | Token::Else => true,
            _ => false,
        };
        if leads {
            match parse_statement_turn(parser, &mut statements, &mut flags, token) {
                Ok(_) => (),
                Err(e) => {
                    return Err(e);
                },
            }
        } else {
            let closed = match parse_plain_turn(parser, stop_on, &mut statements, &mut flags, token) {
                Ok(closed) => closed,
                Err(e) => {
                    return Err(e);
                },
            };
            if closed {
                return Ok(Block::new(statements));
            }
        }
    }
}

/// Parses the whole source: on success the parser holds the program.
pub fn parse_aspen(parser: &mut AspenParser<'_>) -> (r: AspenResult<()>)
    requires
        old(parser).wf(),
    ensures
        final(parser).wf(),
        fails_here(r, final(parser).input()),
        final(parser).input() == old(parser).input().after(parse_aspen_step(old(parser).input())),
        match r {
            Ok(_) => parse_aspen_step(old(parser).input()).out == Ok::<BlockView, AspenErrorView>(
                final(parser).program(),
            ),
            Err(e) => parse_aspen_step(old(parser).input()).out == Err::<
                BlockView,
                AspenErrorView,
            >(e@) && final(parser).program() == old(parser).program(),
        },
{
    match parse_block(parser, None) {
        Ok(result) => {
            parser.body = result;
            Ok(())
        },
        Err(e) => Err(e),
    }
}

} // verus!
