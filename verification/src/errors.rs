//! What a diagnostic says about a failure: the parts of the report that is
//! shown to the user, computed from the error alone.

use crate::evaluate::error::{EvaluateError, EvaluateErrorView};
use crate::lexer::{join3, LexingError};
use crate::parser::error::{AspenError, AspenErrorView};
use vstd::prelude::*;

verus! {

/// The character of a decimal digit.
pub open spec fn digit_char(d: nat) -> char {
    if d == 0 {
        '0'
    } else if d == 1 {
        '1'
    } else if d == 2 {
        '2'
    } else if d == 3 {
        '3'
    } else if d == 4 {
        '4'
    } else if d == 5 {
        '5'
    } else if d == 6 {
        '6'
    } else if d == 7 {
        '7'
    } else if d == 8 {
        '8'
    } else {
        '9'
    }
}

/// A number written in decimal digits, without sign or leading zero.
pub open spec fn decimal_text(n: nat) -> Seq<char>
    decreases n,
{
    if n < 10 {
        seq![digit_char(n)]
    } else {
        decimal_text(n / 10).push(digit_char(n % 10))
    }
}

/// `usize`'s `to_string`: the number in decimal digits.
#[verifier::external_body]
pub(crate) fn decimal(n: usize) -> (r: String)
    ensures
        r@ == decimal_text(n as nat),
{
    n.to_string()
}

/// The two texts one after the other.
pub fn join2(a: &str, b: &str) -> (r: String)
    ensures
        r@ == a@ + b@,
{
    let mut out = String::from_str(a);
    out.append(b);
    out
}

/// The four texts one after the other.
pub fn join4(a: &str, b: &str, c: &str, d: &str) -> (r: String)
    ensures
        r@ == a@ + b@ + c@ + d@,
{
    let mut out = join3(a, b, c);
    out.append(d);
    out
}

/// The five texts one after the other.
pub fn join5(a: &str, b: &str, c: &str, d: &str, e: &str) -> (r: String)
    ensures
        r@ == a@ + b@ + c@ + d@ + e@,
{
    let head = join3(a, b, c);
    join3(head.as_str(), d, e)
}

impl EvaluateErrorView {
    /// The sentence that tells the user of the failure.
    pub open spec fn message_text(self) -> Seq<char> {
        match self {
            EvaluateErrorView::IdentifierAlreadyUsed(name) => "Identifier already in use: '"@
                + name + "'"@,
            EvaluateErrorView::UndefinedIdentifier(name) => "Unknown variable or function: '"@
                + name + "'"@,
            EvaluateErrorView::InvalidType { expected, found } => "Invalid type: expected type '"@
                + expected.name_text() + "' found type '"@ + found.name_text() + "'"@,
            EvaluateErrorView::IdentifierIsNotValidFn(name) => "Func '"@ + name
                + "' cannot be called as it does not exist!"@,
            EvaluateErrorView::OnlyFuncsCanBeCalled(expr) => "<expr> '"@ + expr
                + "' is not a valid function, it cannot be called!"@,
            EvaluateErrorView::NotEnoughArgs { expected_num, found } =>
                "Invalid number of arguments when invoking function. Expected at least "@
                + decimal_text(expected_num as nat) + ", found "@ + decimal_text(found as nat),
            EvaluateErrorView::TooMuchArgs { expected_num, found } =>
                "Invalid number of arguments when invoking function. Expected at most "@
                + decimal_text(expected_num as nat) + ", found "@ + decimal_text(found as nat),
        }
    }
}

impl EvaluateError {
    /// The sentence that tells the user of the failure.
    pub fn message(&self) -> (r: String)
        ensures
            r@ == self@.message_text(),
    {
        match self {
            EvaluateError::IdentifierAlreadyUsed(name) => join3(
                "Identifier already in use: '",
                name.as_str(),
                "'",
            ),
            EvaluateError::UndefinedIdentifier(name) => join3(
                "Unknown variable or function: '",
                name.as_str(),
                "'",
            ),
            EvaluateError::InvalidType { expected, found } => join5(
                "Invalid type: expected type '",
                expected.name(),
                "' found type '",
                found.name(),
                "'",
            ),
            EvaluateError::IdentifierIsNotValidFn(name) => join3(
                "Func '",
                name.as_str(),
                "' cannot be called as it does not exist!",
            ),
            EvaluateError::OnlyFuncsCanBeCalled(expr) => join3(
                "<expr> '",
                expr.as_str(),
                "' is not a valid function, it cannot be called!",
            ),
            EvaluateError::NotEnoughArgs { expected_num, found } => {
                let a = decimal(*expected_num);
                let b = decimal(*found);
                join4(
                    "Invalid number of arguments when invoking function. Expected at least ",
                    a.as_str(),
                    ", found ",
                    b.as_str(),
                )
            },
            EvaluateError::TooMuchArgs { expected_num, found } => {
                let a = decimal(*expected_num);
                let b = decimal(*found);
                join4(
                    "Invalid number of arguments when invoking function. Expected at most ",
                    a.as_str(),
                    ", found ",
                    b.as_str(),
                )
            },
        }
    }
}

impl AspenErrorView {
    /// The sentence that tells the user of the failure.
    pub open spec fn message_text(self) -> Seq<char> {
        match self {
            AspenErrorView::IoError(text) => text,
            AspenErrorView::Lexing { .. } => LexingError::message_text(),
            AspenErrorView::Evaluate { error, .. } => error.message_text(),
            AspenErrorView::Eof => "Unexpected end of input!"@,
            AspenErrorView::Expected { error, .. } => "Expected "@ + error,
            AspenErrorView::ExpectedSpace { .. } => "Expected a space character"@,
            AspenErrorView::ExpectedNewline { .. } => "Expected a newline character"@,
            AspenErrorView::Unknown { error, .. } => "Unknown "@ + error,
        }
    }

    /// The advice that goes with the failure; none for a failure to read.
    pub open spec fn note_text(self) -> Seq<char> {
        match self {
            AspenErrorView::IoError(_) => Seq::empty(),
            AspenErrorView::Lexing { .. } => "Remove unsupported or invalid ASCII Chars"@,
            AspenErrorView::Evaluate { note, .. } => note,
            AspenErrorView::Eof => "add a missing <expr> or statement end"@,
            AspenErrorView::Expected { .. } => "Add what's expected, it's not difficult, right ?"@,
            AspenErrorView::ExpectedSpace { .. } => "Add a space at the indicated offset"@,
            AspenErrorView::ExpectedNewline { .. } => "Add a newline at the indicated offset"@,
            AspenErrorView::Unknown { .. } => "Just remove the unexpected token!"@,
        }
    }

    /// The number by which the kind of failure is known.
    pub open spec fn code(self) -> u8 {
        match self {
            AspenErrorView::IoError(_) => 0,
            AspenErrorView::Lexing { .. } => 0,
            AspenErrorView::Eof => 1,
            AspenErrorView::Expected { .. } => 2,
            AspenErrorView::Unknown { .. } => 3,
            AspenErrorView::ExpectedSpace { .. } => 4,
            AspenErrorView::ExpectedNewline { .. } => 5,
            AspenErrorView::Evaluate { .. } => 6,
        }
    }

    /// Where the report points: the start of the error's span and the
    /// length of its text; for the end of the input, the last byte of a
    /// source of `source_len` bytes.
    pub open spec fn place(self, source_len: usize) -> (usize, usize) {
        match self {
            AspenErrorView::IoError(_) => (0, 0),
            AspenErrorView::Eof => (
                if source_len == 0 {
                    0
                } else {
                    (source_len - 1) as usize
                },
                0,
            ),
            AspenErrorView::Lexing { start, length, .. } => (start, length),
            AspenErrorView::Evaluate { start, length, .. } => (start, length),
            AspenErrorView::Expected { start, length, .. } => (start, length),
            AspenErrorView::ExpectedSpace { start, length, .. } => (start, length),
            AspenErrorView::ExpectedNewline { start, length, .. } => (start, length),
            AspenErrorView::Unknown { start, length, .. } => (start, length),
        }
    }
}

/// The parts of the report that is shown for a failure.
#[derive(Debug, PartialEq, Eq)]
pub struct Report {
    pub message: String,
    pub note: String,
    pub offset: usize,
    pub length: usize,
    pub code: u8,
}

impl AspenError {
    /// The sentence that tells the user of the failure.
    pub fn message(&self) -> (r: String)
        ensures
            r@ == self@.message_text(),
    {
        match self {
            AspenError::IoError(text) => text.clone(),
            AspenError::Lexing { error, .. } => String::from_str(error.message()),
            AspenError::Evaluate { error, .. } => error.message(),
            AspenError::Eof => String::from_str("Unexpected end of input!"),
            AspenError::Expected { error, .. } => join2("Expected ", error.as_str()),
            AspenError::ExpectedSpace { .. } => String::from_str("Expected a space character"),
            AspenError::ExpectedNewline { .. } => String::from_str("Expected a newline character"),
            AspenError::Unknown { error, .. } => join2("Unknown ", error.as_str()),
        }
    }
}

/// The report for a failure met in a source of `source_len` bytes; none for
/// a failure to read the source, of which there is nothing to show.
pub fn build_report(source_len: usize, err: &AspenError) -> (r: Option<Report>)
    ensures
        r is None <==> err@ is IoError,
        r matches Some(report) ==> {
            &&& report.message@ == err@.message_text()
            &&& report.note@ == err@.note_text()
            &&& report.code == err@.code()
            &&& (report.offset, report.length) == err@.place(source_len)
        },
{
    let message = err.message();
    match err {
        AspenError::IoError(_) => None,
        AspenError::Lexing { start, length, .. } => Some(
            Report {
                message,
                note: String::from_str("Remove unsupported or invalid ASCII Chars"),
                offset: *start,
                length: *length,
                code: 0,
            },
        ),
        AspenError::Eof => Some(
            Report {
                message,
                note: String::from_str("add a missing <expr> or statement end"),
                offset: if source_len == 0 {
                    0
                } else {
                    source_len - 1
                },
                length: 0,
                code: 1,
            },
        ),
        AspenError::Evaluate { start, length, note, .. } => Some(
            Report { message, note: note.clone(), offset: *start, length: *length, code: 6 },
        ),
        AspenError::Expected { start, length, .. } => Some(
            Report {
                message,
                note: String::from_str("Add what's expected, it's not difficult, right ?"),
                offset: *start,
                length: *length,
                code: 2,
            },
        ),
        AspenError::ExpectedSpace { start, length, .. } => Some(
            Report {
                message,
                note: String::from_str("Add a space at the indicated offset"),
                offset: *start,
                length: *length,
                code: 4,
            },
        ),
        AspenError::ExpectedNewline { start, length, .. } => Some(
            Report {
                message,
                note: String::from_str("Add a newline at the indicated offset"),
                offset: *start,
                length: *length,
                code: 5,
            },
        ),
        AspenError::Unknown { start, length, .. } => Some(
            Report {
                message,
                note: String::from_str("Just remove the unexpected token!"),
                offset: *start,
                length: *length,
                code: 3,
            },
        ),
    }
}

} // verus!
