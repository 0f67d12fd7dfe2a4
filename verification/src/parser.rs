//! The syntax tree and the parser that builds it.

use self::comment::{Comment, CommentView};
use self::conditional::{If, IfOther, IfOtherView, IfView};
use self::error::AspenErrorView;
use self::for_loop::{For, ForView};
use self::func::{Argument, ArgumentView, Func, FuncView};
use self::import::{Import, ImportView};
use self::operator::{AssignOperator, BinaryOperator};
use self::return_stmt::Return;
use self::utils::{Block, BlockView};
use self::value::{Value, ValueView};
use self::var::{clone_names, names_model, Var, VarView};
use self::while_loop::{While, WhileView};
use self::error::{
    expected_at, expected_newline_at, expected_space_at, lexing_at, unknown_at, AspenError,
};
use crate::lexer::{
    current_slice, current_span, AspenLexer, LexemeView, LexingError, Span, Token, TokenView,
};
use hashbrown::HashMap;
use vstd::prelude::*;

pub mod array;
pub mod block;
pub mod comment;
pub mod conditional;
pub mod convert;
pub mod error;
pub mod expr;
pub mod for_loop;
pub mod func;
pub mod graft;
pub mod import;
pub mod laws;
pub mod modify;
pub mod object;
pub mod operator;
pub mod primary;
pub mod return_stmt;
pub mod text;
pub mod until;
pub mod utils;
pub mod value;
pub mod var;
pub mod while_loop;

pub use self::block::{parse_aspen, parse_block};

verus! {

pub type Container<T> = Vec<Box<T>>;

/// One statement of a block.
#[derive(Debug, PartialEq)]
pub enum Statement<'a> {
    Var(Var<'a>),
    Func(Func<'a>),
    Import(Import<'a>),
    Expr(Box<Expr<'a>>),
    For(For<'a>),
    While(While<'a>),
    Return(Return<'a>),
    If(If<'a>),
}

/// An expression. Every node owns its children: the tree has no sharing and
/// no cycle.
#[derive(Debug, PartialEq, Eq)]
#[allow(inconsistent_fields)]
pub enum Expr<'a> {
    Value(Value<'a>),
    Import(&'a str),
    Array(Container<Expr<'a>>),
    Object(ObjectFields<'a>),
    Id(&'a str),
    SpeadId(&'a str),
    Parenthesized(Box<Expr<'a>>),
    PropagatedFailible(Box<Expr<'a>>),
    Assign { target: Box<Expr<'a>>, operator: AssignOperator, value: Box<Expr<'a>> },
    Binary { lhs: Box<Expr<'a>>, operator: BinaryOperator, rhs: Box<Expr<'a>> },
    FuncCall { callee: Box<Expr<'a>>, args: Vec<Box<Expr<'a>>> },
    Range { start: Box<Expr<'a>>, end: Box<Expr<'a>>, step: Option<Box<Expr<'a>>> },
    ArrayIndexing { indexed: Box<Expr<'a>>, indexer: Box<Expr<'a>> },
    ObjIndexing { indexed: Box<Expr<'a>>, indexer: Box<Expr<'a>> },
    StringConcatenation { left: Box<Expr<'a>>, right: Box<Expr<'a>> },
}

/// The mathematical tree that an [`Expr`] stands for: texts are sequences of
/// characters, lists are sequences, and an object is a map from its keys.
#[allow(inconsistent_fields)]
pub enum ExprView {
    Value(ValueView),
    Import(Seq<char>),
    Array(Seq<ExprView>),
    Object(Map<Seq<char>, ExprView>),
    Id(Seq<char>),
    SpeadId(Seq<char>),
    Parenthesized(Box<ExprView>),
    PropagatedFailible(Box<ExprView>),
    Assign { target: Box<ExprView>, operator: AssignOperator, value: Box<ExprView> },
    Binary { lhs: Box<ExprView>, operator: BinaryOperator, rhs: Box<ExprView> },
    FuncCall { callee: Box<ExprView>, args: Seq<ExprView> },
    Range { start: Box<ExprView>, end: Box<ExprView>, step: Option<Box<ExprView>> },
    ArrayIndexing { indexed: Box<ExprView>, indexer: Box<ExprView> },
    ObjIndexing { indexed: Box<ExprView>, indexer: Box<ExprView> },
    StringConcatenation { left: Box<ExprView>, right: Box<ExprView> },
}

pub enum StatementView {
    Var(VarView),
    Func(FuncView),
    Import(ImportView),
    Expr(ExprView),
    For(ForView),
    While(WhileView),
    Return(ExprView),
    If(IfView),
}

/// The fields of an object literal: a `hashbrown` map from each key to the
/// expression written for it. The map is held out of the verifier's sight:
/// a declaration of `hashbrown::HashMap` itself is not taken, because a tree
/// may not recur through the values of a declared outside type, and the
/// bound on its allocator names a private trait.
#[verifier::external_body]
#[derive(Debug, PartialEq, Eq)]
pub struct ObjectFields<'a> {
    map: HashMap<&'a str, Box<Expr<'a>>>,
}

/// What an object literal holds: for each key, by its text, the tree of the
/// expression stored under it.
pub uninterp spec fn object_entries(fields: ObjectFields) -> Map<Seq<char>, ExprView>;

impl<'a> ObjectFields<'a> {
    /// `hashbrown::HashMap::new`: a map that holds nothing.
    #[verifier::external_body]
    pub(crate) fn new() -> (r: Self)
        ensures
            object_entries(r) =~= Map::empty(),
    {
        ObjectFields { map: HashMap::new() }
    }

    /// `hashbrown::HashMap::insert`: afterwards the key leads to the new
    /// expression, whether or not it led to one before, and every other key
    /// leads to what it led to. Keys are told apart by their text.
    #[verifier::external_body]
    pub(crate) fn insert(&mut self, key: &'a str, value: Box<Expr<'a>>)
        ensures
            object_entries(*final(self)) == object_entries(*old(self)).insert(key@, expr_model(*value)),
    {
        self.map.insert(key, value);
    }
}

impl<'a> ObjectFields<'a> {
    /// `hashbrown::HashMap::get`: the expression that the key leads to,
    /// where it leads to one. Keys are told apart by their text.
    #[verifier::external_body]
    pub(crate) fn get(&self, key: &str) -> (r: Option<&Expr<'a>>)
        ensures
            match r {
                Some(e) => object_entries(*self).contains_key(key@) && object_entries(*self)[key@]
                    == expr_model(*e),
                None => !object_entries(*self).contains_key(key@),
            },
    {
        self.map.get(key).map(|value| &**value)
    }
}

impl<'a> ObjectFields<'a> {
    /// `hashbrown::HashMap::keys`: every key of the map once, in the order
    /// in which the map is walked, of which nothing is said. Keys are told
    /// apart by their text.
    #[verifier::external_body]
    pub(crate) fn keys(&self) -> (r: Vec<&'a str>)
        ensures
            names_model(r@).no_duplicates(),
            names_model(r@).to_set() == object_entries(*self).dom(),
    {
        self.map.keys().copied().collect()
    }
}

impl<'a> Clone for ObjectFields<'a> {
    /// `hashbrown::HashMap::clone`: a map with the same keys, each leading to
    /// a clone of its expression, and a clone of an expression stands for the
    /// same tree.
    #[verifier::external_body]
    fn clone(&self) -> (r: Self)
        ensures
            object_entries(r) == object_entries(*self),
    {
        ObjectFields { map: self.map.clone() }
    }
}

/// The trees of a list of expressions, in order.
pub open spec fn exprs_model(items: Seq<Box<Expr>>) -> Seq<ExprView>
    decreases items,
{
    Seq::new(
        items.len(),
        |i: int|
            if 0 <= i < items.len() {
                expr_model(*items[i])
            } else {
                arbitrary()
            },
    )
}

/// The tree that an expression stands for.
pub open spec fn expr_model(e: Expr) -> ExprView
    decreases e,
{
    match e {
        Expr::Value(v) => ExprView::Value(v@),
        Expr::Import(name) => ExprView::Import(name@),
        Expr::Array(items) => ExprView::Array(exprs_model(items@)),
        Expr::Object(fields) => ExprView::Object(object_entries(fields)),
        Expr::Id(name) => ExprView::Id(name@),
        Expr::SpeadId(name) => ExprView::SpeadId(name@),
        Expr::Parenthesized(inner) => ExprView::Parenthesized(Box::new(expr_model(*inner))),
        Expr::PropagatedFailible(inner) => ExprView::PropagatedFailible(
            Box::new(expr_model(*inner)),
        ),
        Expr::Assign { target, operator, value } => ExprView::Assign {
            target: Box::new(expr_model(*target)),
            operator,
            value: Box::new(expr_model(*value)),
        },
        Expr::Binary { lhs, operator, rhs } => ExprView::Binary {
            lhs: Box::new(expr_model(*lhs)),
            operator,
            rhs: Box::new(expr_model(*rhs)),
        },
        Expr::FuncCall { callee, args } => ExprView::FuncCall {
            callee: Box::new(expr_model(*callee)),
            args: exprs_model(args@),
        },
        Expr::Range { start, end, step } => ExprView::Range {
            start: Box::new(expr_model(*start)),
            end: Box::new(expr_model(*end)),
            step: match step {
                Some(s) => Some(Box::new(expr_model(*s))),
                None => None,
            },
        },
        Expr::ArrayIndexing { indexed, indexer } => ExprView::ArrayIndexing {
            indexed: Box::new(expr_model(*indexed)),
            indexer: Box::new(expr_model(*indexer)),
        },
        Expr::ObjIndexing { indexed, indexer } => ExprView::ObjIndexing {
            indexed: Box::new(expr_model(*indexed)),
            indexer: Box::new(expr_model(*indexer)),
        },
        Expr::StringConcatenation { left, right } => ExprView::StringConcatenation {
            left: Box::new(expr_model(*left)),
            right: Box::new(expr_model(*right)),
        },
    }
}

impl<'a> View for Expr<'a> {
    type V = ExprView;

    open spec fn view(&self) -> ExprView {
        expr_model(*self)
    }
}

/// What one declared argument stands for.
pub open spec fn argument_model(a: Argument) -> ArgumentView {
    ArgumentView {
        is_spread: a.is_spread,
        identifier: a.identifier@,
        base_value: match a.base_value {
            Some(e) => Some(expr_model(*e)),
            None => None,
        },
    }
}

/// What a list of declared arguments stands for, in order.
pub open spec fn arguments_model(items: Seq<Argument>) -> Seq<ArgumentView> {
    Seq::new(items.len(), |i: int| argument_model(items[i]))
}

/// What a list of statements stands for, in order.
pub open spec fn statements_model(items: Seq<Box<Statement>>) -> Seq<StatementView>
    decreases items,
{
    Seq::new(
        items.len(),
        |i: int|
            if 0 <= i < items.len() {
                statement_model(*items[i])
            } else {
                arbitrary()
            },
    )
}

/// What a block stands for.
pub open spec fn block_model(b: Block) -> BlockView
    decreases b,
{
    BlockView { statements: statements_model(b.statements@) }
}

/// What an `if` stands for, with the chain that continues it.
pub open spec fn if_model(i: If) -> IfView
    decreases i,
{
    IfView {
        condition: expr_model(*i.condition),
        body: block_model(i.body),
        other: match i.other {
            Some(o) => Some(Box::new(if_other_model(*o))),
            None => None,
        },
    }
}

/// What one link of an `if` chain stands for.
pub open spec fn if_other_model(o: IfOther) -> IfOtherView
    decreases o,
{
    match o {
        IfOther::If(i) => IfOtherView::If(if_model(i)),
        IfOther::Else(b) => IfOtherView::Else(block_model(b)),
    }
}

/// What a statement stands for.
pub open spec fn statement_model(s: Statement) -> StatementView
    decreases s,
{
    match s {
        Statement::Var(v) => StatementView::Var(
            VarView { variables: v.variables@, value: expr_model(*v.value) },
        ),
        Statement::Func(f) => StatementView::Func(
            FuncView {
                name: f.name@,
                arguments: arguments_model(f.arguments@),
                body: block_model(*f.body),
            },
        ),
        Statement::Import(i) => StatementView::Import(i@),
        Statement::Expr(e) => StatementView::Expr(expr_model(*e)),
        Statement::For(f) => StatementView::For(
            ForView {
                args: names_model(f.args@),
                indexed: expr_model(*f.indexed),
                body: block_model(*f.body),
            },
        ),
        Statement::While(w) => StatementView::While(
            WhileView { condition: expr_model(*w.condition), body: block_model(*w.body) },
        ),
        Statement::Return(r) => StatementView::Return(expr_model(*r.0)),
        Statement::If(i) => StatementView::If(if_model(i)),
    }
}

impl<'a> View for Statement<'a> {
    type V = StatementView;

    open spec fn view(&self) -> StatementView {
        statement_model(*self)
    }
}

impl<'a> View for Block<'a> {
    type V = BlockView;

    open spec fn view(&self) -> BlockView {
        block_model(*self)
    }
}

impl<'a> View for If<'a> {
    type V = IfView;

    open spec fn view(&self) -> IfView {
        if_model(*self)
    }
}

impl<'a> View for IfOther<'a> {
    type V = IfOtherView;

    open spec fn view(&self) -> IfOtherView {
        if_other_model(*self)
    }
}

impl<'a> View for Argument<'a> {
    type V = ArgumentView;

    open spec fn view(&self) -> ArgumentView {
        argument_model(*self)
    }
}

/// Appending an expression to a list appends its tree to the list's trees.
pub proof fn lemma_exprs_push(items: Seq<Box<Expr>>, last: Box<Expr>)
    ensures
        exprs_model(items.push(last)) == exprs_model(items).push(expr_model(*last)),
{
    assert(exprs_model(items.push(last)) =~= exprs_model(items).push(expr_model(*last)));
}

/// Replacing the last expression of a list replaces the last of its trees.
pub proof fn lemma_exprs_with_last(items: Seq<Box<Expr>>, last: Box<Expr>)
    requires
        items.len() > 0,
    ensures
        exprs_model(items.drop_last().push(last)) == exprs_model(items).drop_last().push(
            expr_model(*last),
        ),
{
    assert(exprs_model(items.drop_last().push(last)) =~= exprs_model(items).drop_last().push(
        expr_model(*last),
    ));
}

/// Appending a statement to a list appends what it stands for.
pub proof fn lemma_statements_push(items: Seq<Box<Statement>>, last: Box<Statement>)
    ensures
        statements_model(items.push(last)) == statements_model(items).push(
            statement_model(*last),
        ),
{
    assert(statements_model(items.push(last)) =~= statements_model(items).push(
        statement_model(*last),
    ));
}

/// A copy of a list of expressions.
pub fn clone_exprs<'a>(items: &Vec<Box<Expr<'a>>>) -> (r: Vec<Box<Expr<'a>>>)
    ensures
        exprs_model(r@) == exprs_model(items@),
    decreases items,
{
    let mut out: Vec<Box<Expr<'a>>> = Vec::new();
    let mut i: usize = 0;
    while i < items.len()
        invariant
            i <= items.len(),
            out@.len() == i,
            forall|j: int| 0 <= j < i ==> expr_model(*out@[j]) == expr_model(*items@[j]),
        decreases items.len() - i,
    {
        let e = clone_expr(&*items[i]);
        out.push(Box::new(e));
        i += 1;
    }
    assert(exprs_model(out@) =~= exprs_model(items@));
    out
}

/// A copy of an expression: another tree of the same shape and content.
pub fn clone_expr<'a>(e: &Expr<'a>) -> (r: Expr<'a>)
    ensures
        r@ == e@,
    decreases e,
{
    match e {
        Expr::Value(v) => Expr::Value(*v),
        Expr::Import(name) => Expr::Import(name),
        Expr::Array(items) => Expr::Array(clone_exprs(items)),
        Expr::Object(fields) => Expr::Object(fields.clone()),
        Expr::Id(name) => Expr::Id(name),
        Expr::SpeadId(name) => Expr::SpeadId(name),
        Expr::Parenthesized(inner) => Expr::Parenthesized(Box::new(clone_expr(&**inner))),
        Expr::PropagatedFailible(inner) => Expr::PropagatedFailible(
            Box::new(clone_expr(&**inner)),
        ),
        Expr::Assign { target, operator, value } => Expr::Assign {
            target: Box::new(clone_expr(&**target)),
            operator: *operator,
            value: Box::new(clone_expr(&**value)),
        },
        Expr::Binary { lhs, operator, rhs } => Expr::Binary {
            lhs: Box::new(clone_expr(&**lhs)),
            operator: *operator,
            rhs: Box::new(clone_expr(&**rhs)),
        },
        Expr::FuncCall { callee, args } => Expr::FuncCall {
            callee: Box::new(clone_expr(&**callee)),
            args: clone_exprs(args),
        },
        Expr::Range { start, end, step } => Expr::Range {
            start: Box::new(clone_expr(&**start)),
            end: Box::new(clone_expr(&**end)),
            step: match step {
                Some(s) => Some(Box::new(clone_expr(&**s))),
                None => None,
            },
        },
        Expr::ArrayIndexing { indexed, indexer } => Expr::ArrayIndexing {
            indexed: Box::new(clone_expr(&**indexed)),
            indexer: Box::new(clone_expr(&**indexer)),
        },
        Expr::ObjIndexing { indexed, indexer } => Expr::ObjIndexing {
            indexed: Box::new(clone_expr(&**indexed)),
            indexer: Box::new(clone_expr(&**indexer)),
        },
        Expr::StringConcatenation { left, right } => Expr::StringConcatenation {
            left: Box::new(clone_expr(&**left)),
            right: Box::new(clone_expr(&**right)),
        },
    }
}

/// The map that holds each of the pairs, a later pair replacing an earlier
/// one of the same key.
pub open spec fn entries_of(pairs: Seq<(&str, Expr)>) -> Map<Seq<char>, ExprView>
    decreases pairs.len(),
{
    if pairs.len() == 0 {
        Map::empty()
    } else {
        entries_of(pairs.drop_last()).insert(pairs.last().0@, expr_model(pairs.last().1))
    }
}

impl<'a> Expr<'a> {
    /// An object literal of the given pairs of key and expression. Of two
    /// pairs with one key the later counts.
    pub fn object(pairs: Vec<(&'a str, Expr<'a>)>) -> (r: Expr<'a>)
        ensures
            r@ == ExprView::Object(entries_of(pairs@)),
    {
        let mut fields = ObjectFields::new();
        let mut pairs = pairs;
        let ghost all = pairs@;
        let mut rest: Vec<(&'a str, Expr<'a>)> = Vec::new();
        while pairs.len() > 0
            invariant
                all == pairs@ + rest@.reverse(),
            decreases pairs.len(),
        {
            let ghost before = pairs@;
            let pair = pairs.pop().unwrap();
            rest.push(pair);
            assert(pairs@ + rest@.reverse() =~= before + rest@.drop_last().reverse());
        }
        assert(rest@.reverse() =~= all);
        assert(all.take(0) =~= Seq::<(&str, Expr)>::empty());
        let ghost mut done: int = 0;
        while rest.len() > 0
            invariant
                0 <= done <= all.len(),
                rest@.len() == all.len() - done,
                forall|k: int| 0 <= k < rest@.len() ==> rest@[k] == all[all.len() - 1 - k],
                object_entries(fields) == entries_of(all.take(done)),
            decreases rest.len(),
        {
            let pair = rest.pop().unwrap();
            assert(pair == all[done]);
            assert(all.take(done + 1).drop_last() =~= all.take(done));
            fields.insert(pair.0, Box::new(pair.1));
            proof {
                done = done + 1;
            }
        }
        assert(all.take(all.len() as int) =~= all);
        Expr::Object(fields)
    }

    /// The expression written for `key` in an object literal; `None` for a
    /// key that the literal does not have, and for every other expression.
    pub fn field(&self, key: &str) -> (r: Option<&Expr<'a>>)
        ensures
            match r {
                Some(e) => self@ matches ExprView::Object(fields) && fields.contains_key(key@)
                    && fields[key@] == e@,
                None => self@ matches ExprView::Object(fields) ==> !fields.contains_key(key@),
            },
    {
        match self {
            Expr::Object(fields) => fields.get(key),
            _ => None,
        }
    }
}

impl<'a> Clone for Expr<'a> {
    fn clone(&self) -> (r: Self)
        ensures
            r@ == self@,
    {
        clone_expr(self)
    }
}

/// A copy of a list of declared arguments.
pub fn clone_arguments<'a>(items: &Vec<Argument<'a>>) -> (r: Vec<Argument<'a>>)
    ensures
        arguments_model(r@) == arguments_model(items@),
{
    let mut out: Vec<Argument<'a>> = Vec::new();
    let mut i: usize = 0;
    while i < items.len()
        invariant
            i <= items.len(),
            out@.len() == i,
            forall|j: int| 0 <= j < i ==> argument_model(out@[j]) == argument_model(items@[j]),
        decreases items.len() - i,
    {
        let a = &items[i];
        let base_value = match &a.base_value {
            Some(e) => Some(Box::new(clone_expr(&**e))),
            None => None,
        };
        out.push(Argument { is_spread: a.is_spread, identifier: a.identifier, base_value });
        i += 1;
    }
    assert(arguments_model(out@) =~= arguments_model(items@));
    out
}

/// A copy of a list of statements.
pub fn clone_statements<'a>(items: &Vec<Box<Statement<'a>>>) -> (r: Vec<Box<Statement<'a>>>)
    ensures
        statements_model(r@) == statements_model(items@),
    decreases items,
{
    let mut out: Vec<Box<Statement<'a>>> = Vec::new();
    let mut i: usize = 0;
    while i < items.len()
        invariant
            i <= items.len(),
            out@.len() == i,
            forall|j: int|
                0 <= j < i ==> statement_model(*out@[j]) == statement_model(*items@[j]),
        decreases items.len() - i,
    {
        let s = clone_statement(&*items[i]);
        out.push(Box::new(s));
        i += 1;
    }
    assert(statements_model(out@) =~= statements_model(items@));
    out
}

/// A copy of a block.
pub fn clone_block<'a>(b: &Block<'a>) -> (r: Block<'a>)
    ensures
        r@ == b@,
    decreases b,
{
    Block { statements: clone_statements(&b.statements) }
}

/// A copy of an `if` and of the chain that continues it.
pub fn clone_if<'a>(i: &If<'a>) -> (r: If<'a>)
    ensures
        r@ == i@,
    decreases i,
{
    If {
        condition: Box::new(clone_expr(&*i.condition)),
        body: clone_block(&i.body),
        other: match &i.other {
            Some(o) => Some(
                Box::new(
                    match &**o {
                        IfOther::If(inner) => IfOther::If(clone_if(inner)),
                        IfOther::Else(b) => IfOther::Else(clone_block(b)),
                    },
                ),
            ),
            None => None,
        },
    }
}

/// A copy of a statement.
pub fn clone_statement<'a>(s: &Statement<'a>) -> (r: Statement<'a>)
    ensures
        r@ == s@,
    decreases s,
{
    match s {
        Statement::Var(v) => Statement::Var(
            Var { variables: v.variables.clone(), value: Box::new(clone_expr(&*v.value)) },
        ),
        Statement::Func(f) => Statement::Func(
            Func {
                name: f.name,
                arguments: clone_arguments(&f.arguments),
                body: Box::new(clone_block(&*f.body)),
            },
        ),
        Statement::Import(i) => Statement::Import(*i),
        Statement::Expr(e) => Statement::Expr(Box::new(clone_expr(&**e))),
        Statement::For(f) => Statement::For(
            For {
                args: clone_names(&f.args),
                indexed: Box::new(clone_expr(&*f.indexed)),
                body: Box::new(clone_block(&*f.body)),
            },
        ),
        Statement::While(w) => Statement::While(
            While {
                condition: Box::new(clone_expr(&*w.condition)),
                body: Box::new(clone_block(&*w.body)),
            },
        ),
        Statement::Return(r) => Statement::Return(Return(Box::new(clone_expr(&*r.0)))),
        Statement::If(i) => Statement::If(clone_if(i)),
    }
}

impl<'a> Clone for Statement<'a> {
    fn clone(&self) -> (r: Self)
        ensures
            r@ == self@,
    {
        clone_statement(self)
    }
}

/// What a parsing function did, as its specification function tells it: the
/// value or the error it ended with, how many pulls it made on the token
/// stream, and the comments that the parser holds afterwards.
pub struct Step<T> {
    pub out: Result<T, AspenErrorView>,
    pub used: nat,
    pub notes: Seq<CommentView>,
}

impl<T> Step<T> {
    pub open spec fn ok(value: T, used: nat, notes: Seq<CommentView>) -> Step<T> {
        Step { out: Ok(value), used, notes }
    }

    pub open spec fn fail(error: AspenErrorView, used: nat, notes: Seq<CommentView>) -> Step<T> {
        Step { out: Err(error), used, notes }
    }

    /// The same step, made after `n` earlier pulls that count with it.
    pub open spec fn later(self, n: nat) -> Step<T> {
        Step { out: self.out, used: n + self.used, notes: self.notes }
    }
}

/// What a parsing function starts from: the lexemes of the source, how many
/// pulls were made on them, and the comments recorded so far.
pub struct Input {
    pub tokens: Seq<LexemeView>,
    pub pulled: nat,
    pub notes: Seq<CommentView>,
}

impl Input {
    /// How many lexemes are still to be pulled.
    pub open spec fn left(self) -> nat {
        if self.pulled < self.tokens.len() {
            (self.tokens.len() - self.pulled) as nat
        } else {
            0
        }
    }

    /// The input after `n` more pulls.
    pub open spec fn skip(self, n: nat) -> Input {
        Input { tokens: self.tokens, pulled: self.pulled + n, notes: self.notes }
    }

    /// The input that the step `s`, made from here, leaves.
    pub open spec fn after<T>(self, s: Step<T>) -> Input {
        Input { tokens: self.tokens, pulled: self.pulled + s.used, notes: s.notes }
    }

    /// The span of the lexeme pulled last.
    pub open spec fn span(self) -> Span {
        current_span(self.tokens, self.pulled)
    }

    /// The source text of the lexeme pulled last.
    pub open spec fn slice(self) -> Seq<char> {
        current_slice(self.tokens, self.pulled)
    }

    /// The input once the lexeme pulled last is recorded as a comment of the
    /// given text.
    pub open spec fn noting(self, text: Seq<char>) -> Input {
        Input {
            tokens: self.tokens,
            pulled: self.pulled,
            notes: self.notes.push(
                CommentView { start: self.span().start, end: self.span().end, value: text },
            ),
        }
    }

    pub open spec fn lexing(self, error: LexingError) -> AspenErrorView {
        lexing_at(self.tokens, self.pulled, error)
    }

    pub open spec fn expected(self, text: Seq<char>) -> AspenErrorView {
        expected_at(self.tokens, self.pulled, text)
    }

    pub open spec fn unknown(self, text: Seq<char>) -> AspenErrorView {
        unknown_at(self.tokens, self.pulled, text)
    }

    pub open spec fn expected_space(self) -> AspenErrorView {
        expected_space_at(self.tokens, self.pulled)
    }

    pub open spec fn expected_newline(self) -> AspenErrorView {
        expected_newline_at(self.tokens, self.pulled)
    }
}

/// The result of a parsing function shows what its specification gives: the
/// value that stands for the same thing, or the same error.
pub open spec fn shows<T: View>(r: Result<T, AspenError>, out: Result<T::V, AspenErrorView>) -> bool {
    match r {
        Ok(v) => out == Ok::<T::V, AspenErrorView>(v@),
        Err(e) => out == Err::<T::V, AspenErrorView>(e@),
    }
}

/// A failure lies where the cursor stands: an error that carries a span
/// carries the span of the lexeme pulled last and the length of its text,
/// and the end of input is reported only once every lexeme is pulled.
pub open spec fn fails_here<T>(r: Result<T, AspenError>, i: Input) -> bool {
    r matches Err(e) ==> e@.located(i.tokens, i.pulled)
}

/// [`shows`] for a list of expressions.
pub open spec fn shows_exprs(
    r: Result<Vec<Box<Expr>>, AspenError>,
    out: Result<Seq<ExprView>, AspenErrorView>,
) -> bool {
    match r {
        Ok(v) => out == Ok::<Seq<ExprView>, AspenErrorView>(exprs_model(v@)),
        Err(e) => out == Err::<Seq<ExprView>, AspenErrorView>(e@),
    }
}

/// [`shows`] for an expression with the token that ended it.
pub open spec fn shows_until(
    r: Result<(Box<Expr>, Token), AspenError>,
    out: Result<(ExprView, TokenView), AspenErrorView>,
) -> bool {
    match r {
        Ok(v) => out == Ok::<(ExprView, TokenView), AspenErrorView>((expr_model(*v.0), v.1@)),
        Err(e) => out == Err::<(ExprView, TokenView), AspenErrorView>(e@),
    }
}

/// [`shows`] for the fields of an object literal.
pub open spec fn shows_fields(
    r: Result<ObjectFields, AspenError>,
    out: Result<Map<Seq<char>, ExprView>, AspenErrorView>,
) -> bool {
    match r {
        Ok(v) => out == Ok::<Map<Seq<char>, ExprView>, AspenErrorView>(object_entries(v)),
        Err(e) => out == Err::<Map<Seq<char>, ExprView>, AspenErrorView>(e@),
    }
}

/// What a function that rewrites an expression in place did to it: on
/// success the expression stands for what the specification gives, and on
/// failure it is as it was.
pub open spec fn rewrites(
    r: Result<(), AspenError>,
    before: Expr,
    after: Expr,
    out: Result<ExprView, AspenErrorView>,
) -> bool {
    match r {
        Ok(_) => out == Ok::<ExprView, AspenErrorView>(expr_model(after)),
        Err(e) => out == Err::<ExprView, AspenErrorView>(e@) && after == before,
    }
}

/// The parser: a cursor over the tokens of one source text, the comments met
/// so far, and the program once it is parsed.
#[derive(Debug)]
pub struct AspenParser<'s> {
    pub lexer: AspenLexer<'s>,
    pub body: Block<'s>,
    pub comments: Container<Comment<'s>>,
}

impl<'s> AspenParser<'s> {
    /// The lexemes of the source text, pulled or not.
    pub open spec fn tokens(&self) -> Seq<LexemeView> {
        self.lexer.lexemes()
    }

    /// How many pulls the cursor has made.
    pub open spec fn pulled(&self) -> nat {
        self.lexer.pulled()
    }

    /// The comments recorded so far, in the order in which they were met.
    pub open spec fn notes(&self) -> Seq<CommentView> {
        Seq::new(self.comments@.len(), |i: int| self.comments@[i]@)
    }

    /// The statements of the parsed program; none before a successful parse.
    pub open spec fn program(&self) -> BlockView {
        self.body@
    }

    /// What the parsing functions read of the parser.
    pub open spec fn input(&self) -> Input {
        Input { tokens: self.tokens(), pulled: self.pulled(), notes: self.notes() }
    }

    pub open spec fn wf(&self) -> bool {
        self.lexer.wf()
    }

    /// The parser went from `before` to this state by the step `s`: the same
    /// tokens, `s.used` more of them pulled, the comments that `s` gives, and
    /// the program untouched.
    pub open spec fn follows<T>(&self, before: &AspenParser, s: Step<T>) -> bool {
        &&& self.wf()
        &&& self.input() == before.input().after(s)
        &&& self.program() == before.program()
    }

    /// A parser at the start of `lexer`'s tokens, with no comment and no
    /// statement yet.
    pub fn new(lexer: AspenLexer<'s>) -> (r: Self)
        ensures
            r.lexer == lexer,
            r.notes() == Seq::<CommentView>::empty(),
            r.program().statements == Seq::<StatementView>::empty(),
    {
        let r = Self { lexer, body: Block { statements: Vec::new() }, comments: Vec::new() };
        assert(r.notes() =~= Seq::<CommentView>::empty());
        assert(r.program().statements =~= Seq::<StatementView>::empty());
        r
    }

    /// Records a comment after those already met.
    pub fn add_comment(&mut self, comment: Comment<'s>)
        ensures
            final(self).lexer == old(self).lexer,
            final(self).program() == old(self).program(),
            final(self).notes() == old(self).notes().push(comment@),
    {
        self.comments.push(Box::new(comment));
        assert(self.notes() =~= old(self).notes().push(comment@));
    }

    /// Records the token pulled last as a comment of the given text.
    pub fn note_comment(&mut self, text: &'s str)
        requires
            old(self).wf(),
        ensures
            final(self).wf(),
            final(self).input() == old(self).input().noting(text@),
            final(self).program() == old(self).program(),
    {
        let span = self.lexer.span();
        self.add_comment(Comment::new(text, span.start, span.end));
    }

    /// The statements of the parsed program, in order.
    pub fn statements(&self) -> (r: Container<Statement<'s>>)
        ensures
            statements_model(r@) == self.program().statements,
    {
        clone_statements(&self.body.statements)
    }

    /// The comments recorded so far, in the order in which they were met.
    pub fn comments(&self) -> (r: Container<Comment<'s>>)
        ensures
            r@.len() == self.notes().len(),
            forall|i: int| 0 <= i < r@.len() ==> r@[i]@ == self.notes()[i],
    {
        let mut out: Container<Comment<'s>> = Vec::new();
        let mut i: usize = 0;
        while i < self.comments.len()
            invariant
                i <= self.comments.len(),
                out@.len() == i,
                forall|j: int| 0 <= j < i ==> out@[j]@ == self.comments@[j]@,
            decreases self.comments.len() - i,
        {
            let c: Comment<'s> = *self.comments[i];
            out.push(Box::new(c));
            i += 1;
        }
        out
    }
}

} // verus!
