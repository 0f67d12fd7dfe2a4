//! What the parser shares with the evaluator: its error type and its type names.

pub mod error;
pub mod types;
