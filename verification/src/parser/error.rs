use super::AspenParser;
use crate::evaluate::error::{EvaluateError, EvaluateErrorView};
use crate::lexer::{byte_len, current_slice, current_span, LexemeView, LexingError};
use vstd::prelude::*;

verus! {

pub type AspenResult<T> = Result<T, AspenError>;

/// Why a parse stopped. Every variant but the end of input and the I/O
/// failure carries the byte span of the token that was current when the
/// failure was noticed, and the length of its text.
#[derive(Debug, PartialEq)]
#[allow(inconsistent_fields)]
pub enum AspenError {
    /// The source could not be read; the text is what the system said.
    IoError(String),
    Lexing { error: LexingError, start: usize, end: usize, length: usize },
    Evaluate { error: EvaluateError, start: usize, end: usize, length: usize, note: String },
    ExpectedSpace { start: usize, end: usize, length: usize },
    ExpectedNewline { start: usize, end: usize, length: usize },
    Expected { error: String, start: usize, end: usize, length: usize },
    Unknown { error: String, start: usize, end: usize, length: usize },
    Eof,
}

/// An [`AspenError`] with its texts as sequences of characters.
#[allow(inconsistent_fields)]
pub enum AspenErrorView {
    IoError(Seq<char>),
    Lexing { error: LexingError, start: usize, end: usize, length: usize },
    Evaluate {
        error: EvaluateErrorView,
        start: usize,
        end: usize,
        length: usize,
        note: Seq<char>,
    },
    ExpectedSpace { start: usize, end: usize, length: usize },
    ExpectedNewline { start: usize, end: usize, length: usize },
    Expected { error: Seq<char>, start: usize, end: usize, length: usize },
    Unknown { error: Seq<char>, start: usize, end: usize, length: usize },
    Eof,
}

impl View for AspenError {
    type V = AspenErrorView;

    open spec fn view(&self) -> AspenErrorView {
        match self {
            AspenError::IoError(s) => AspenErrorView::IoError(s@),
            AspenError::Lexing { error, start, end, length } => AspenErrorView::Lexing {
                error: *error,
                start: *start,
                end: *end,
                length: *length,
            },
            AspenError::Evaluate { error, start, end, length, note } => AspenErrorView::Evaluate {
                error: error@,
                start: *start,
                end: *end,
                length: *length,
                note: note@,
            },
            AspenError::ExpectedSpace { start, end, length } => AspenErrorView::ExpectedSpace {
                start: *start,
                end: *end,
                length: *length,
            },
            AspenError::ExpectedNewline { start, end, length } => AspenErrorView::ExpectedNewline {
                start: *start,
                end: *end,
                length: *length,
            },
            AspenError::Expected { error, start, end, length } => AspenErrorView::Expected {
                error: error@,
                start: *start,
                end: *end,
                length: *length,
            },
            AspenError::Unknown { error, start, end, length } => AspenErrorView::Unknown {
                error: error@,
                start: *start,
                end: *end,
                length: *length,
            },
            AspenError::Eof => AspenErrorView::Eof,
        }
    }
}

/// The lexing failure of the token that is current after `pulled` pulls.
pub open spec fn lexing_at(ts: Seq<LexemeView>, pulled: nat, error: LexingError) -> AspenErrorView {
    AspenErrorView::Lexing {
        error,
        start: current_span(ts, pulled).start,
        end: current_span(ts, pulled).end,
        length: byte_len(current_slice(ts, pulled)),
    }
}

/// "Expected ...", at the token that is current after `pulled` pulls.
pub open spec fn expected_at(ts: Seq<LexemeView>, pulled: nat, error: Seq<char>) -> AspenErrorView {
    AspenErrorView::Expected {
        error,
        start: current_span(ts, pulled).start,
        end: current_span(ts, pulled).end,
        length: byte_len(current_slice(ts, pulled)),
    }
}

/// "Unknown ...", at the token that is current after `pulled` pulls.
pub open spec fn unknown_at(ts: Seq<LexemeView>, pulled: nat, error: Seq<char>) -> AspenErrorView {
    AspenErrorView::Unknown {
        error,
        start: current_span(ts, pulled).start,
        end: current_span(ts, pulled).end,
        length: byte_len(current_slice(ts, pulled)),
    }
}

/// A missing space, at the token that is current after `pulled` pulls.
pub open spec fn expected_space_at(ts: Seq<LexemeView>, pulled: nat) -> AspenErrorView {
    AspenErrorView::ExpectedSpace {
        start: current_span(ts, pulled).start,
        end: current_span(ts, pulled).end,
        length: byte_len(current_slice(ts, pulled)),
    }
}

/// A missing line break, at the token that is current after `pulled` pulls.
pub open spec fn expected_newline_at(ts: Seq<LexemeView>, pulled: nat) -> AspenErrorView {
    AspenErrorView::ExpectedNewline {
        start: current_span(ts, pulled).start,
        end: current_span(ts, pulled).end,
        length: byte_len(current_slice(ts, pulled)),
    }
}

impl AspenErrorView {
    /// Whether the error lies where the cursor stands after `pulled` pulls:
    /// an error that carries a span carries that of the current lexeme,
    /// with the length of its text, and the end of input is met only by a
    /// pull that found no lexeme left.
    pub open spec fn located(self, ts: Seq<LexemeView>, pulled: nat) -> bool {
        match self {
            AspenErrorView::Eof => pulled > ts.len(),
            AspenErrorView::Lexing { start, end, length, .. }
            | AspenErrorView::ExpectedSpace { start, end, length }
            | AspenErrorView::ExpectedNewline { start, end, length }
            | AspenErrorView::Expected { start, end, length, .. }
            | AspenErrorView::Unknown { start, end, length, .. } => {
                &&& start == current_span(ts, pulled).start
                &&& end == current_span(ts, pulled).end
                &&& length == byte_len(current_slice(ts, pulled))
            },
            _ => true,
        }
    }

    /// The span that the error carries, where it carries one.
    pub open spec fn span(self) -> Option<(usize, usize)> {
        match self {
            AspenErrorView::Lexing { start, end, .. } => Some((start, end)),
            AspenErrorView::Evaluate { start, end, .. } => Some((start, end)),
            AspenErrorView::ExpectedSpace { start, end, .. } => Some((start, end)),
            AspenErrorView::ExpectedNewline { start, end, .. } => Some((start, end)),
            AspenErrorView::Expected { start, end, .. } => Some((start, end)),
            AspenErrorView::Unknown { start, end, .. } => Some((start, end)),
            AspenErrorView::IoError(_) => None,
            AspenErrorView::Eof => None,
        }
    }
}

impl AspenError {
    /// A lexing failure at the parser's current token.
    pub fn from_lexing_error(parser: &AspenParser, error: LexingError) -> (r: Self)
        requires
            parser.wf(),
        ensures
            r@ == lexing_at(parser.tokens(), parser.pulled(), error),
    {
        let span = parser.lexer.span();
        Self::Lexing { error, start: span.start, end: span.end, length: parser.lexer.slice().len() }
    }

    /// An evaluation failure with the place and the advice that the caller gives.
    pub fn from_evaluate_error(
        error: EvaluateError,
        note: String,
        start: usize,
        end: usize,
        length: usize,
    ) -> (r: Self)
        ensures
            r@ == (AspenErrorView::Evaluate { error: error@, start, end, length, note: note@ }),
    {
        Self::Evaluate { error, start, end, length, note }
    }

    /// "Expected ..." at the parser's current token.
    pub fn expected(parser: &AspenParser, error: String) -> (r: Self)
        requires
            parser.wf(),
        ensures
            r@ == expected_at(parser.tokens(), parser.pulled(), error@),
    {
        let span = parser.lexer.span();
        Self::Expected { error, start: span.start, end: span.end, length: parser.lexer.slice().len() }
    }

    /// A missing space at the parser's current token.
    pub fn expected_space(parser: &AspenParser) -> (r: Self)
        requires
            parser.wf(),
        ensures
            r@ == expected_space_at(parser.tokens(), parser.pulled()),
    {
        let span = parser.lexer.span();
        Self::ExpectedSpace { start: span.start, end: span.end, length: parser.lexer.slice().len() }
    }

    /// A missing line break at the parser's current token.
    pub fn expected_newline(parser: &AspenParser) -> (r: Self)
        requires
            parser.wf(),
        ensures
            r@ == expected_newline_at(parser.tokens(), parser.pulled()),
    {
        let span = parser.lexer.span();
        Self::ExpectedNewline { start: span.start, end: span.end, length: parser.lexer.slice().len() }
    }

    /// "Unknown ..." at the parser's current token.
    pub fn unknown(parser: &AspenParser, error: String) -> (r: Self)
        requires
            parser.wf(),
        ensures
            r@ == unknown_at(parser.tokens(), parser.pulled(), error@),
    {
        let span = parser.lexer.span();
        Self::Unknown { error, start: span.start, end: span.end, length: parser.lexer.slice().len() }
    }

    /// The end of the input, met where more was needed.
    pub fn eof(parser: &AspenParser) -> (r: Self)
        ensures
            r@ == AspenErrorView::Eof,
    {
        Self::Eof
    }
}

} // verus!
