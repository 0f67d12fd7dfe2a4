//! What holds of every parse: laws that relate the parsing functions to the
//! source they read.

use super::block::{
    block_loop, keyword_step, parse_aspen_step, parse_block_step, plain_turn, statement_turn, Flags,
};
use super::error::AspenErrorView;
use super::expr::{parse_step, parse_with_token_step};
use super::operator::AssignOperator;
use super::utils::{blank_run, BlockView};
use super::value::ValueView;
use super::var::{VarView, VariablesView};
use super::{ExprView, Input, StatementView};
use crate::lexer::{current_span, stream_end, LexemeView, LexingError, TokenView};
use vstd::prelude::*;

verus! {

/// The lexemes lie one after the other in the source, from its first byte
/// on, without gap or overlap.
pub open spec fn tiled(ts: Seq<LexemeView>) -> bool {
    &&& ts.len() > 0 ==> ts[0].start == 0
    &&& forall|k: int| 0 <= k < ts.len() ==> (#[trigger] ts[k]).start <= ts[k].end
    &&& forall|k: int| 0 <= k < ts.len() - 1 ==> (#[trigger] ts[k]).end == ts[k + 1].start
}

/// In a tiled source no lexeme ends after a later one.
pub proof fn lemma_ends_ordered(ts: Seq<LexemeView>, a: int, b: int)
    requires
        tiled(ts),
        0 <= a <= b < ts.len(),
    ensures
        ts[a].end <= ts[b].end,
    decreases b - a,
{
    if a < b {
        lemma_ends_ordered(ts, a + 1, b);
        assert(ts[a].end == ts[a + 1].start);
        assert(ts[a + 1].start <= ts[a + 1].end);
    }
}

/// The span that the cursor shows lies within the source, whatever the
/// number of pulls; and once every lexeme is pulled, it lies within the last
/// lexeme and ends where the source ends.
pub proof fn lemma_span_within_source(ts: Seq<LexemeView>, pulled: nat)
    requires
        tiled(ts),
    ensures
        current_span(ts, pulled).start <= current_span(ts, pulled).end <= stream_end(ts),
        pulled >= ts.len() > 0 ==> {
            &&& current_span(ts, pulled).end == stream_end(ts)
            &&& current_span(ts, pulled).start >= ts.last().start
        },
{
    if 0 < pulled <= ts.len() {
        lemma_ends_ordered(ts, pulled - 1, ts.len() - 1);
    }
}

/// Error locality. An error that lies where the cursor stands in a tiled
/// source has a span within the source: it never reaches past the end of
/// the input. Where the input was exhausted when the error was raised, the
/// span lies within the last lexeme and ends with the source. The one error
/// without a span, the end of input, is raised only with the input
/// exhausted.
pub proof fn lemma_error_within_source(e: AspenErrorView, ts: Seq<LexemeView>, pulled: nat)
    requires
        tiled(ts),
        e.located(ts, pulled),
        !(e is Evaluate),
        !(e is IoError),
    ensures
        e.span() matches Some(span) ==> {
            &&& span.0 <= span.1 <= stream_end(ts)
            &&& pulled >= ts.len() > 0 ==> span.0 >= ts.last().start && span.1 == stream_end(ts)
        },
        e.span() is None ==> e is Eof && pulled > ts.len(),
{
    lemma_span_within_source(ts, pulled);
}

/// No lexeme of the source is longer than `longest` bytes.
pub open spec fn lexemes_within(ts: Seq<LexemeView>, longest: nat) -> bool {
    forall|k: int| 0 <= k < ts.len() ==> (#[trigger] ts[k]).end - ts[k].start <= longest
}

/// Error locality at a cut. Where a source that ends at byte `k` is
/// exhausted when the parse fails, the error is the end of input or its
/// span lies within the last `longest` bytes before `k`, `longest` being a
/// bound on the length of a lexeme.
pub proof fn lemma_error_near_the_cut(
    e: AspenErrorView,
    ts: Seq<LexemeView>,
    pulled: nat,
    longest: nat,
)
    requires
        tiled(ts),
        lexemes_within(ts, longest),
        e.located(ts, pulled),
        !(e is Evaluate),
        !(e is IoError),
        pulled >= ts.len(),
    ensures
        e is Eof || (e.span() matches Some(span) && stream_end(ts) - longest <= span.0 <= span.1
            <= stream_end(ts)),
{
    lemma_span_within_source(ts, pulled);
    if ts.len() > 0 {
        let last = ts[ts.len() - 1];
        assert(last.end - last.start <= longest);
    }
}

/// The token of a lexeme that was read without failure.
pub open spec fn token_at(ts: Seq<LexemeView>, k: int) -> Result<TokenView, LexingError> {
    ts[k].token
}

/// The source is a list of `n` declarations of the form `let name = digits`,
/// each on a line of its own: eight lexemes a line, with single runs of
/// spaces between the words.
pub open spec fn let_lines(ts: Seq<LexemeView>, n: nat) -> bool {
    &&& ts.len() == 8 * n
    &&& forall|k: int|
        #![trigger ts[8 * k]]
        0 <= k < n ==> {
            &&& ts[8 * k].token == Ok::<TokenView, LexingError>(TokenView::Let)
            &&& ts[8 * k + 1].token == Ok::<TokenView, LexingError>(TokenView::Spaces)
            &&& ts[8 * k + 2].token matches Ok(TokenView::Identifier(_))
            &&& ts[8 * k + 3].token == Ok::<TokenView, LexingError>(TokenView::Spaces)
            &&& ts[8 * k + 4].token == Ok::<TokenView, LexingError>(
                TokenView::AssignOperator(AssignOperator::Equal),
            )
            &&& ts[8 * k + 5].token == Ok::<TokenView, LexingError>(TokenView::Spaces)
            &&& ts[8 * k + 6].token matches Ok(TokenView::Int(_))
            &&& ts[8 * k + 7].token == Ok::<TokenView, LexingError>(TokenView::Newline)
        }
}

/// The declaration that line `k` of such a source writes.
pub open spec fn let_line_statement(ts: Seq<LexemeView>, k: int) -> StatementView {
    StatementView::Var(
        VarView {
            variables: VariablesView::Unique(ts[8 * k + 2].token->Ok_0->Identifier_0),
            value: ExprView::Value(ValueView::Int(ts[8 * k + 6].token->Ok_0->Int_0)),
        },
    )
}

/// The declarations that the first `n` lines of such a source write.
pub open spec fn let_line_statements(ts: Seq<LexemeView>, n: nat) -> Seq<StatementView> {
    Seq::new(n, |k: int| let_line_statement(ts, k))
}

proof fn lemma_let_line(ts: Seq<LexemeView>, n: nat, k: nat, notes: Seq<super::comment::CommentView>)
    requires
        let_lines(ts, n),
        k < n,
    ensures
        keyword_step(Input { tokens: ts, pulled: 8 * k + 1, notes }, TokenView::Let)
            == super::Step::ok(let_line_statement(ts, k as int), 6, notes),
{
    let q = k as int;
    reveal(keyword_step);
    reveal(super::var::var_step);
    reveal(super::var::var_after_comma_step);
    reveal(super::var::var_target_step);
    reveal(super::var::var_value_step);
    reveal(parse_step);
    reveal(parse_with_token_step);
    reveal_with_fuel(blank_run, 3);
    let first = ts[8 * q];
    assert(ts[8 * q + 1].token == Ok::<TokenView, LexingError>(TokenView::Spaces));
    let i = Input { tokens: ts, pulled: 8 * k + 1, notes };
    let after_space = i.skip(1);
    assert(blank_run(ts, (8 * k + 2) as nat) == 0);
    assert(blank_run(ts, (8 * k + 3) as nat) == 1);
    assert(blank_run(ts, (8 * k + 5) as nat) == 1);
    let target = super::var::var_target_step(after_space);
    assert(target == super::Step::ok(
        VariablesView::Unique(ts[8 * q + 2].token->Ok_0->Identifier_0),
        1,
        notes,
    ));
    let at_value = after_space.after(target);
    assert(at_value.pulled == 8 * k + 3);
    let eq = super::utils::next_jump_multispace_step(at_value);
    assert(eq.out == Ok::<TokenView, AspenErrorView>(
        TokenView::AssignOperator(AssignOperator::Equal),
    ));
    assert(eq.used == 2);
    let at_expr = at_value.after(eq);
    assert(at_expr.pulled == 8 * k + 5);
    let num = super::utils::next_jump_multispace_step(at_expr);
    assert(num.used == 2);
    assert(num.out == Ok::<TokenView, AspenErrorView>(ts[8 * q + 6].token->Ok_0));
    assert(parse_step(at_expr) == super::Step::ok(
        ExprView::Value(ValueView::Int(ts[8 * q + 6].token->Ok_0->Int_0)),
        2,
        notes,
    ));
    assert(super::var::var_value_step(at_value) == super::Step::ok(
        ExprView::Value(ValueView::Int(ts[8 * q + 6].token->Ok_0->Int_0)),
        4,
        notes,
    ));
}

proof fn lemma_let_lines_from(
    ts: Seq<LexemeView>,
    n: nat,
    k: nat,
    used: nat,
    notes: Seq<super::comment::CommentView>,
)
    requires
        let_lines(ts, n),
        k <= n,
    ensures
        block_loop(
            Input { tokens: ts, pulled: 8 * k, notes },
            used,
            None,
            let_line_statements(ts, k),
            Flags { expect_stmt_end: false, semi_colon_found: false },
        ).out == Ok::<BlockView, AspenErrorView>(
            BlockView { statements: let_line_statements(ts, n) },
        ),
    decreases n - k,
{
    let q = k as int;
    reveal(block_loop);
    reveal(statement_turn);
    reveal(keyword_step);
    reveal(plain_turn);
    let i = Input { tokens: ts, pulled: 8 * k, notes };
    let idle = Flags { expect_stmt_end: false, semi_colon_found: false };
    let busy = Flags { expect_stmt_end: true, semi_colon_found: false };
    if k == n {
    } else {
        let first = ts[8 * q];
        lemma_let_line(ts, n, k, notes);
        let j = i.skip(1);
        let line = keyword_step(j, TokenView::Let);
        let before = let_line_statements(ts, k);
        let more = before.push(let_line_statement(ts, k as int));
        assert(more =~= let_line_statements(ts, k + 1));
        let turn = statement_turn(j, before, idle, TokenView::Let);
        assert(turn == super::Step::ok((more, busy), 6, notes));
        let at_newline = j.after(turn);
        assert(at_newline == Input { tokens: ts, pulled: 8 * k + 7, notes });
        assert(ts[8 * q + 7].token == Ok::<TokenView, LexingError>(TokenView::Newline));
        let after_line = block_loop(at_newline, used + 7, None, more, busy);
        assert(block_loop(i, used, None, before, idle) == after_line);
        let next = Input { tokens: ts, pulled: 8 * (k + 1), notes };
        assert(at_newline.skip(1) == next);
        assert(plain_turn(next, None, more, busy, TokenView::Newline) == super::Step::ok(
            (more, idle, false),
            0,
            notes,
        ));
        assert(after_line == block_loop(next, used + 8, None, more, idle));
        lemma_let_lines_from(ts, n, k + 1, used + 8, notes);
    }
}

/// A source of `n` declarations, each on its line, parses, and the program
/// holds `n` statements: the declaration of each line, in order.
pub proof fn lemma_let_lines_parse(ts: Seq<LexemeView>, n: nat, notes: Seq<super::comment::CommentView>)
    requires
        let_lines(ts, n),
    ensures
        parse_aspen_step(Input { tokens: ts, pulled: 0, notes }).out matches Ok(program) && {
            &&& program.statements.len() == n
            &&& forall|k: int|
                0 <= k < n ==> program.statements[k] == let_line_statement(ts, k)
        },
{
    reveal(parse_block_step);
    reveal(block_loop);
    assert(let_line_statements(ts, 0) =~= Seq::<StatementView>::empty());
    lemma_let_lines_from(ts, n, 0, 0, notes);
}

} // verus!
