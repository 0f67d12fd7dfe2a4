use super::error::{AspenError, AspenResult};
use super::{
    clone_statements, fails_here, shows, statements_model, AspenParser, Container, Input,
    Statement, StatementView, Step,
};
use crate::lexer::{join3, LexemeView, Token, TokenView};
use vstd::prelude::*;

verus! {

/// A parsed value, or the token that was found where none could be parsed.
#[derive(Debug, PartialEq)]
pub enum TokenOption<'a, T> {
    Parsed(T),
    Token(Token<'a>),
}

/// The statements between two braces, or of a whole program, in order.
#[derive(Debug, PartialEq)]
pub struct Block<'a> {
    pub statements: Container<Statement<'a>>,
}

pub struct BlockView {
    pub statements: Seq<StatementView>,
}

impl<'a> Default for Block<'a> {
    fn default() -> (r: Self)
        ensures
            r@.statements == Seq::<StatementView>::empty(),
    {
        let r = Block { statements: Vec::new() };
        assert(r@.statements =~= Seq::<StatementView>::empty());
        r
    }
}

impl<'a> Block<'a> {
    pub fn new(statements: Container<Statement<'a>>) -> (r: Self)
        ensures
            r@.statements == statements_model(statements@),
    {
        Self { statements }
    }

    /// The statements of the block, in order.
    pub fn statements(&self) -> (r: Container<Statement<'a>>)
        ensures
            statements_model(r@) == self@.statements,
    {
        clone_statements(&self.statements)
    }
}

/// How many blank lexemes, runs of spaces and line breaks, follow one another
/// from index `from` on.
pub open spec fn blank_run(ts: Seq<LexemeView>, from: nat) -> nat
    decreases ts.len() - from,
{
    if from < ts.len() && (ts[from as int].token matches Ok(t) && t.is_blank()) {
        1 + blank_run(ts, from + 1)
    } else {
        0
    }
}

/// How many runs of spaces follow one another from index `from` on.
pub open spec fn space_run(ts: Seq<LexemeView>, from: nat) -> nat
    decreases ts.len() - from,
{
    if from < ts.len() && ts[from as int].token == Ok::<TokenView, crate::lexer::LexingError>(
        TokenView::Spaces,
    ) {
        1 + space_run(ts, from + 1)
    } else {
        0
    }
}

/// One pull: the next token; the lexer's failure, placed at the lexeme that
/// it could not read; or the end of the input.
pub open spec fn next_token_step(i: Input) -> Step<TokenView> {
    if i.pulled < i.tokens.len() {
        match i.tokens[i.pulled as int].token {
            Ok(t) => Step::ok(t, 1, i.notes),
            Err(e) => Step::fail(i.skip(1).lexing(e), 1, i.notes),
        }
    } else if i.pulled == i.tokens.len() {
        Step::fail(AspenError::Eof@, 1, i.notes)
    } else {
        Step::fail(AspenError::Eof@, 0, i.notes)
    }
}

/// The next token that is neither spaces nor a line break.
pub open spec fn next_jump_multispace_step(i: Input) -> Step<TokenView> {
    let n = blank_run(i.tokens, i.pulled);
    next_token_step(i.skip(n)).later(n)
}

/// The next token that is not a run of spaces.
pub open spec fn next_jump_space_step(i: Input) -> Step<TokenView> {
    let n = space_run(i.tokens, i.pulled);
    next_token_step(i.skip(n)).later(n)
}

/// The next token must be blank.
pub open spec fn expect_space_step(i: Input) -> Step<()> {
    let t = next_token_step(i);
    match t.out {
        Err(e) => Step::fail(e, t.used, t.notes),
        Ok(token) => if token.is_blank() {
            Step::ok((), t.used, t.notes)
        } else {
            Step::fail(i.after(t).expected_space(), t.used, t.notes)
        },
    }
}

/// What is said when `expected` was wanted and a lexeme of text `found` came.
pub open spec fn expected_token_text(expected: TokenView, found: Seq<char>) -> Seq<char> {
    "'"@ + expected.describe() + "', found '"@ + found + "'"@
}

/// After any blanks, the next token must be `expected`.
pub open spec fn expect_token_step(i: Input, expected: TokenView) -> Step<()> {
    let t = next_jump_multispace_step(i);
    match t.out {
        Err(e) => Step::fail(e, t.used, t.notes),
        Ok(token) => if token == expected {
            Step::ok((), t.used, t.notes)
        } else {
            Step::fail(
                i.after(t).expected(expected_token_text(expected, i.after(t).slice())),
                t.used,
                t.notes,
            )
        },
    }
}

/// The next token must be a line break, with at most one run of spaces
/// before it.
pub open spec fn expect_newline_step(i: Input) -> Step<()> {
    let t = next_token_step(i);
    match t.out {
        Err(e) => Step::fail(e, t.used, t.notes),
        Ok(TokenView::Newline) => Step::ok((), t.used, t.notes),
        Ok(TokenView::Spaces) => {
            let u = next_token_step(i.after(t)).later(t.used);
            match u.out {
                Err(e) => Step::fail(e, u.used, u.notes),
                Ok(TokenView::Newline) => Step::ok((), u.used, u.notes),
                Ok(_) => Step::fail(i.after(u).expected_newline(), u.used, u.notes),
            }
        },
        Ok(_) => Step::fail(i.after(t).expected_newline(), t.used, t.notes),
    }
}

/// Past a run of blank lexemes, the run that is left is shorter by as much.
pub proof fn lemma_blank_run_split(ts: Seq<LexemeView>, from: nat, n: nat)
    requires
        n <= blank_run(ts, from),
    ensures
        blank_run(ts, from) == n + blank_run(ts, from + n),
    decreases n,
{
    if n > 0 {
        lemma_blank_run_split(ts, from + 1, (n - 1) as nat);
    }
}

/// Past a run of space lexemes, the run that is left is shorter by as much.
pub proof fn lemma_space_run_split(ts: Seq<LexemeView>, from: nat, n: nat)
    requires
        n <= space_run(ts, from),
    ensures
        space_run(ts, from) == n + space_run(ts, from + n),
    decreases n,
{
    if n > 0 {
        lemma_space_run_split(ts, from + 1, (n - 1) as nat);
    }
}

/// Pulls the next token.
pub fn next_token<'s>(parser: &mut AspenParser<'s>) -> (r: AspenResult<Token<'s>>)
    requires
        old(parser).wf(),
    ensures
        fails_here(r, final(parser).input()),
        final(parser).follows(old(parser), next_token_step(old(parser).input())),
        shows(r, next_token_step(old(parser).input()).out),
{
    proof {
        old(parser).lexer.lemma_wf_bound();
    }
    match parser.lexer.next() {
        Some(Ok(token)) => Ok(token),
        Some(Err(e)) => Err(AspenError::from_lexing_error(parser, e)),
        None => Err(AspenError::Eof),
    }
}

/// Pulls tokens until one is neither spaces nor a line break, and returns it.
/// To skip spaces only, see [`next_jump_space`].
pub fn next_jump_multispace<'s>(parser: &mut AspenParser<'s>) -> (r: AspenResult<Token<'s>>)
    requires
        old(parser).wf(),
    ensures
        fails_here(r, final(parser).input()),
        final(parser).follows(old(parser), next_jump_multispace_step(old(parser).input())),
        shows(r, next_jump_multispace_step(old(parser).input()).out),
{
    let ghost start = parser.input();
    let ghost program = parser.program();
    loop
        invariant
            start == old(parser).input(),
            program == old(parser).program(),
            parser.wf(),
            parser.tokens() == start.tokens,
            parser.notes() == start.notes,
            parser.program() == program,
            parser.pulled() >= start.pulled,
            parser.pulled() - start.pulled <= blank_run(start.tokens, start.pulled),
        decreases start.tokens.len() - parser.pulled(),
    {
        proof {
            lemma_blank_run_split(
                start.tokens,
                start.pulled,
                (parser.pulled() - start.pulled) as nat,
            );
        }
        let token = match next_token(parser) {
            Ok(token) => token,
            Err(e) => {
                return Err(e);
            },
        };
        if !token.is_blank() {
            return Ok(token);
        }
    }
}

/// Pulls tokens until one is not a run of spaces, and returns it. To skip
/// line breaks as well, see [`next_jump_multispace`].
pub fn next_jump_space<'s>(parser: &mut AspenParser<'s>) -> (r: AspenResult<Token<'s>>)
    requires
        old(parser).wf(),
    ensures
        fails_here(r, final(parser).input()),
        final(parser).follows(old(parser), next_jump_space_step(old(parser).input())),
        shows(r, next_jump_space_step(old(parser).input()).out),
{
    let ghost start = parser.input();
    let ghost program = parser.program();
    loop
        invariant
            start == old(parser).input(),
            program == old(parser).program(),
            parser.wf(),
            parser.tokens() == start.tokens,
            parser.notes() == start.notes,
            parser.program() == program,
            parser.pulled() >= start.pulled,
            parser.pulled() - start.pulled <= space_run(start.tokens, start.pulled),
        decreases start.tokens.len() - parser.pulled(),
    {
        proof {
            lemma_space_run_split(
                start.tokens,
                start.pulled,
                (parser.pulled() - start.pulled) as nat,
            );
        }
        let token = match next_token(parser) {
            Ok(token) => token,
            Err(e) => {
                return Err(e);
            },
        };
        match token {
            Token::Spaces => (),
            _ => {
                return Ok(token);
            },
        }
    }
}

/// Requires a blank token next: what separates a keyword from what follows.
pub fn expect_space(parser: &mut AspenParser<'_>) -> (r: AspenResult<()>)
    requires
        old(parser).wf(),
    ensures
        fails_here(r, final(parser).input()),
        final(parser).follows(old(parser), expect_space_step(old(parser).input())),
        shows(r, expect_space_step(old(parser).input()).out),
{
    let token = match next_token(parser) {
        Ok(token) => token,
        Err(e) => {
            return Err(e);
        },
    };
    match token {
        Token::Newline | Token::Spaces => Ok(()),
        _ => Err(AspenError::expected_space(parser)),
    }
}

/// Skips spaces and line breaks, then requires the given token.
pub fn expect_token<'s>(parser: &mut AspenParser<'s>, expected_token: Token<'s>) -> (r: AspenResult<
    (),
>)
    requires
        old(parser).wf(),
    ensures
        fails_here(r, final(parser).input()),
        final(parser).follows(old(parser), expect_token_step(old(parser).input(), expected_token@)),
        shows(r, expect_token_step(old(parser).input(), expected_token@).out),
{
    let token = match next_jump_multispace(parser) {
        Ok(token) => token,
        Err(e) => {
            return Err(e);
        },
    };
    if token.same(&expected_token) {
        Ok(())
    } else {
        let wanted = expected_token.describe();
        let head = join3("'", wanted.as_str(), "', found '");
        let text = join3(head.as_str(), parser.lexer.slice(), "'");
        Err(AspenError::expected(parser, text))
    }
}

/// Requires a line break next, after at most one run of spaces: what ends a
/// declaration.
pub fn expect_newline(parser: &mut AspenParser<'_>) -> (r: AspenResult<()>)
    requires
        old(parser).wf(),
    ensures
        fails_here(r, final(parser).input()),
        final(parser).follows(old(parser), expect_newline_step(old(parser).input())),
        shows(r, expect_newline_step(old(parser).input()).out),
{
    let token = match next_token(parser) {
        Ok(token) => token,
        Err(e) => {
            return Err(e);
        },
    };
    match token {
        Token::Spaces => {
            let next = match next_token(parser) {
                Ok(token) => token,
                Err(e) => {
                    return Err(e);
                },
            };
            match next {
                Token::Newline => Ok(()),
                _ => Err(AspenError::expected_newline(parser)),
            }
        },
        Token::Newline => Ok(()),
        _ => Err(AspenError::expected_newline(parser)),
    }
}

} // verus!
