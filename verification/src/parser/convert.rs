//! Conversions between the types of the syntax tree.

use super::conditional::If;
use super::for_loop::For;
use super::func::{Argument, Func};
use super::import::Import;
use super::return_stmt::Return;
use super::utils::TokenOption;
use super::value::Value;
use super::var::Var;
use super::while_loop::While;
use super::comment::CommentView;
use super::{AspenParser, Expr, ObjectFields, Statement, StatementView};
use crate::lexer::{AspenLexer, Token};
use vstd::prelude::*;
use vstd::std_specs::convert::FromSpecImpl;

verus! {

/// A declaration as a statement.
impl<'a> From<Var<'a>> for Statement<'a> {
    fn from(value: Var<'a>) -> (r: Self) {
        Statement::Var(value)
    }
}

impl<'a> FromSpecImpl<Var<'a>> for Statement<'a> {
    open spec fn obeys_from_spec() -> bool {
        true
    }

    open spec fn from_spec(value: Var<'a>) -> Self {
        Statement::Var(value)
    }
}

/// A function declaration as a statement.
impl<'a> From<Func<'a>> for Statement<'a> {
    fn from(value: Func<'a>) -> (r: Self) {
        Statement::Func(value)
    }
}

impl<'a> FromSpecImpl<Func<'a>> for Statement<'a> {
    open spec fn obeys_from_spec() -> bool {
        true
    }

    open spec fn from_spec(value: Func<'a>) -> Self {
        Statement::Func(value)
    }
}

/// An import as a statement.
impl<'a> From<Import<'a>> for Statement<'a> {
    fn from(value: Import<'a>) -> (r: Self) {
        Statement::Import(value)
    }
}

impl<'a> FromSpecImpl<Import<'a>> for Statement<'a> {
    open spec fn obeys_from_spec() -> bool {
        true
    }

    open spec fn from_spec(value: Import<'a>) -> Self {
        Statement::Import(value)
    }
}

/// A `for` loop as a statement.
impl<'a> From<For<'a>> for Statement<'a> {
    fn from(value: For<'a>) -> (r: Self) {
        Statement::For(value)
    }
}

impl<'a> FromSpecImpl<For<'a>> for Statement<'a> {
    open spec fn obeys_from_spec() -> bool {
        true
    }

    open spec fn from_spec(value: For<'a>) -> Self {
        Statement::For(value)
    }
}

/// A `while` loop as a statement.
impl<'a> From<While<'a>> for Statement<'a> {
    fn from(value: While<'a>) -> (r: Self) {
        Statement::While(value)
    }
}

impl<'a> FromSpecImpl<While<'a>> for Statement<'a> {
    open spec fn obeys_from_spec() -> bool {
        true
    }

    open spec fn from_spec(value: While<'a>) -> Self {
        Statement::While(value)
    }
}

/// A `return` as a statement.
impl<'a> From<Return<'a>> for Statement<'a> {
    fn from(value: Return<'a>) -> (r: Self) {
        Statement::Return(value)
    }
}

impl<'a> FromSpecImpl<Return<'a>> for Statement<'a> {
    open spec fn obeys_from_spec() -> bool {
        true
    }

    open spec fn from_spec(value: Return<'a>) -> Self {
        Statement::Return(value)
    }
}

/// An `if` as a statement.
impl<'a> From<If<'a>> for Statement<'a> {
    fn from(value: If<'a>) -> (r: Self) {
        Statement::If(value)
    }
}

impl<'a> FromSpecImpl<If<'a>> for Statement<'a> {
    open spec fn obeys_from_spec() -> bool {
        true
    }

    open spec fn from_spec(value: If<'a>) -> Self {
        Statement::If(value)
    }
}

/// An expression as a statement.
impl<'a> From<Expr<'a>> for Statement<'a> {
    fn from(value: Expr<'a>) -> (r: Self) {
        Statement::Expr(Box::new(value))
    }
}

impl<'a> FromSpecImpl<Expr<'a>> for Statement<'a> {
    open spec fn obeys_from_spec() -> bool {
        true
    }

    open spec fn from_spec(value: Expr<'a>) -> Self {
        Statement::Expr(Box::new(value))
    }
}

/// A literal as an expression.
impl<'a> From<Value<'a>> for Expr<'a> {
    fn from(value: Value<'a>) -> (r: Self) {
        Expr::Value(value)
    }
}

impl<'a> FromSpecImpl<Value<'a>> for Expr<'a> {
    open spec fn obeys_from_spec() -> bool {
        true
    }

    open spec fn from_spec(value: Value<'a>) -> Self {
        Expr::Value(value)
    }
}

/// A name as an expression.
impl<'a> From<&'a str> for Expr<'a> {
    fn from(value: &'a str) -> (r: Self) {
        Expr::Id(value)
    }
}

impl<'a> FromSpecImpl<&'a str> for Expr<'a> {
    open spec fn obeys_from_spec() -> bool {
        true
    }

    open spec fn from_spec(value: &'a str) -> Self {
        Expr::Id(value)
    }
}

/// A list of expressions as an array literal.
impl<'a> From<Vec<Box<Expr<'a>>>> for Expr<'a> {
    fn from(value: Vec<Box<Expr<'a>>>) -> (r: Self) {
        Expr::Array(value)
    }
}

impl<'a> FromSpecImpl<Vec<Box<Expr<'a>>>> for Expr<'a> {
    open spec fn obeys_from_spec() -> bool {
        true
    }

    open spec fn from_spec(value: Vec<Box<Expr<'a>>>) -> Self {
        Expr::Array(value)
    }
}

/// The fields of an object as an object literal.
impl<'a> From<ObjectFields<'a>> for Expr<'a> {
    fn from(value: ObjectFields<'a>) -> (r: Self) {
        Expr::Object(value)
    }
}

impl<'a> FromSpecImpl<ObjectFields<'a>> for Expr<'a> {
    open spec fn obeys_from_spec() -> bool {
        true
    }

    open spec fn from_spec(value: ObjectFields<'a>) -> Self {
        Expr::Object(value)
    }
}

/// A boolean literal.
impl<'a> From<bool> for Value<'a> {
    fn from(value: bool) -> (r: Self) {
        Value::Bool(value)
    }
}

impl<'a> FromSpecImpl<bool> for Value<'a> {
    open spec fn obeys_from_spec() -> bool {
        true
    }

    open spec fn from_spec(value: bool) -> Self {
        Value::Bool(value)
    }
}

/// A text literal.
impl<'a> From<&'a str> for Value<'a> {
    fn from(value: &'a str) -> (r: Self) {
        Value::Str(value)
    }
}

impl<'a> FromSpecImpl<&'a str> for Value<'a> {
    open spec fn obeys_from_spec() -> bool {
        true
    }

    open spec fn from_spec(value: &'a str) -> Self {
        Value::Str(value)
    }
}

/// An argument of the given name, spread or not, without a default value.
impl<'a> From<(&'a str, bool)> for Argument<'a> {
    fn from(value: (&'a str, bool)) -> (r: Self) {
        Argument { is_spread: value.1, identifier: value.0, base_value: None }
    }
}

impl<'a> FromSpecImpl<(&'a str, bool)> for Argument<'a> {
    open spec fn obeys_from_spec() -> bool {
        true
    }

    open spec fn from_spec(value: (&'a str, bool)) -> Self {
        Argument { is_spread: value.1, identifier: value.0, base_value: None }
    }
}

/// An argument of the given name, without a default value.
impl<'a> From<&'a str> for Argument<'a> {
    fn from(value: &'a str) -> (r: Self) {
        Argument { is_spread: false, identifier: value, base_value: None }
    }
}

impl<'a> FromSpecImpl<&'a str> for Argument<'a> {
    open spec fn obeys_from_spec() -> bool {
        true
    }

    open spec fn from_spec(value: &'a str) -> Self {
        Argument { is_spread: false, identifier: value, base_value: None }
    }
}

/// A literal that was parsed.
impl<'a> From<Value<'a>> for TokenOption<'a, Value<'a>> {
    fn from(value: Value<'a>) -> (r: Self) {
        TokenOption::Parsed(value)
    }
}

impl<'a> FromSpecImpl<Value<'a>> for TokenOption<'a, Value<'a>> {
    open spec fn obeys_from_spec() -> bool {
        true
    }

    open spec fn from_spec(value: Value<'a>) -> Self {
        TokenOption::Parsed(value)
    }
}

/// An expression that was parsed.
impl<'a> From<Expr<'a>> for TokenOption<'a, Expr<'a>> {
    fn from(value: Expr<'a>) -> (r: Self) {
        TokenOption::Parsed(value)
    }
}

impl<'a> FromSpecImpl<Expr<'a>> for TokenOption<'a, Expr<'a>> {
    open spec fn obeys_from_spec() -> bool {
        true
    }

    open spec fn from_spec(value: Expr<'a>) -> Self {
        TokenOption::Parsed(value)
    }
}

/// A parser at the start of the lexer's tokens, with no comment and no
/// statement yet.
impl<'a> From<AspenLexer<'a>> for AspenParser<'a> {
    fn from(value: AspenLexer<'a>) -> (r: Self)
        ensures
            r.lexer == value,
            r.notes() == Seq::<CommentView>::empty(),
            r.program().statements == Seq::<StatementView>::empty(),
    {
        AspenParser::new(value)
    }
}

impl<'a> FromSpecImpl<AspenLexer<'a>> for AspenParser<'a> {
    open spec fn obeys_from_spec() -> bool {
        false
    }

    open spec fn from_spec(value: AspenLexer<'a>) -> Self {
        arbitrary()
    }
}

/// The token that was found where nothing could be parsed.
impl<'a, T> From<Token<'a>> for TokenOption<'a, T> {
    fn from(value: Token<'a>) -> (r: Self) {
        TokenOption::Token(value)
    }
}

impl<'a, T> FromSpecImpl<Token<'a>> for TokenOption<'a, T> {
    open spec fn obeys_from_spec() -> bool {
        true
    }

    open spec fn from_spec(value: Token<'a>) -> Self {
        TokenOption::Token(value)
    }
}

} // verus!
