use super::types::AspenType;
use vstd::prelude::*;

verus! {

/// Why the evaluator gave up on a statement.
#[derive(Debug, Clone, PartialEq, Eq)]
#[allow(inconsistent_fields)]
pub enum EvaluateError {
    UndefinedIdentifier(String),
    IdentifierAlreadyUsed(String),
    InvalidType { expected: AspenType, found: AspenType },
    IdentifierIsNotValidFn(String),
    OnlyFuncsCanBeCalled(String),
    NotEnoughArgs { expected_num: usize, found: usize },
    TooMuchArgs { expected_num: usize, found: usize },
}

/// An [`EvaluateError`] with its texts as sequences of characters.
#[allow(inconsistent_fields)]
pub enum EvaluateErrorView {
    UndefinedIdentifier(Seq<char>),
    IdentifierAlreadyUsed(Seq<char>),
    InvalidType { expected: AspenType, found: AspenType },
    IdentifierIsNotValidFn(Seq<char>),
    OnlyFuncsCanBeCalled(Seq<char>),
    NotEnoughArgs { expected_num: usize, found: usize },
    TooMuchArgs { expected_num: usize, found: usize },
}

impl View for EvaluateError {
    type V = EvaluateErrorView;

    open spec fn view(&self) -> EvaluateErrorView {
        match self {
            EvaluateError::UndefinedIdentifier(s) => EvaluateErrorView::UndefinedIdentifier(s@),
            EvaluateError::IdentifierAlreadyUsed(s) => EvaluateErrorView::IdentifierAlreadyUsed(s@),
            EvaluateError::InvalidType { expected, found } => EvaluateErrorView::InvalidType {
                expected: *expected,
                found: *found,
            },
            EvaluateError::IdentifierIsNotValidFn(s) => EvaluateErrorView::IdentifierIsNotValidFn(
                s@,
            ),
            EvaluateError::OnlyFuncsCanBeCalled(s) => EvaluateErrorView::OnlyFuncsCanBeCalled(s@),
            EvaluateError::NotEnoughArgs { expected_num, found } => EvaluateErrorView::NotEnoughArgs {
                expected_num: *expected_num,
                found: *found,
            },
            EvaluateError::TooMuchArgs { expected_num, found } => EvaluateErrorView::TooMuchArgs {
                expected_num: *expected_num,
                found: *found,
            },
        }
    }
}

} // verus!
