//! Tree surgery: how a postfix construct, a range bound or a binary operator
//! that comes after an expression is worked into the tree already built.

use super::operator::BinaryOperator;
use super::value::{Value, ValueView};
use super::{expr_model, exprs_model, Expr, ExprView};
use vstd::prelude::*;

verus! {

/// A construct written after its operand, with what it brings along.
pub enum Postfix<'a> {
    /// `(args)`
    Call(Vec<Box<Expr<'a>>>),
    /// `[indexer]`
    Index(Box<Expr<'a>>),
    /// `.indexer`
    Field(Box<Expr<'a>>),
    /// `?`
    Propagate,
    /// `..right`
    Concat(Box<Expr<'a>>),
}

pub enum PostfixView {
    Call(Seq<ExprView>),
    Index(ExprView),
    Field(ExprView),
    Propagate,
    Concat(ExprView),
}

impl<'a> View for Postfix<'a> {
    type V = PostfixView;

    open spec fn view(&self) -> PostfixView {
        match self {
            Postfix::Call(args) => PostfixView::Call(exprs_model(args@)),
            Postfix::Index(e) => PostfixView::Index(expr_model(**e)),
            Postfix::Field(e) => PostfixView::Field(expr_model(**e)),
            Postfix::Propagate => PostfixView::Propagate,
            Postfix::Concat(e) => PostfixView::Concat(expr_model(**e)),
        }
    }
}

impl PostfixView {
    /// The node that the construct makes of its operand.
    pub open spec fn wrap(self, operand: ExprView) -> ExprView {
        match self {
            PostfixView::Call(args) => ExprView::FuncCall { callee: Box::new(operand), args },
            PostfixView::Index(indexer) => ExprView::ArrayIndexing {
                indexed: Box::new(operand),
                indexer: Box::new(indexer),
            },
            PostfixView::Field(indexer) => ExprView::ObjIndexing {
                indexed: Box::new(operand),
                indexer: Box::new(indexer),
            },
            PostfixView::Propagate => ExprView::PropagatedFailible(Box::new(operand)),
            PostfixView::Concat(right) => ExprView::StringConcatenation {
                left: Box::new(operand),
                right: Box::new(right),
            },
        }
    }

    /// Whether the construct may take the whole of `e` as its operand, `e`
    /// being neither a binary operation, a range nor an assignment.
    pub open spec fn wraps_whole(self, e: ExprView) -> bool {
        match self {
            PostfixView::Propagate => true,
            _ => match e {
                ExprView::Id(_) => true,
                ExprView::FuncCall { .. } => true,
                ExprView::ObjIndexing { .. } => true,
                ExprView::ArrayIndexing { .. } => true,
                ExprView::Parenthesized(_) => true,
                ExprView::PropagatedFailible(_) => true,
                ExprView::Value(ValueView::Str(_)) => !(self is Call),
                ExprView::Value(_) => self is Field,
                _ => false,
            },
        }
    }

    /// The construct bound to the operand written last: down the right-hand
    /// sides of the binary operations at the root of `base`, to the first
    /// node that is not one, which becomes the operand.
    pub open spec fn on_last_operand(self, base: ExprView) -> ExprView
        decreases base,
    {
        match base {
            ExprView::Binary { lhs, operator, rhs } => ExprView::Binary {
                lhs,
                operator,
                rhs: Box::new(self.on_last_operand(*rhs)),
            },
            operand => self.wrap(operand),
        }
    }

    /// The construct inside a range: on the step where the range has one, on
    /// the end where it has none.
    pub open spec fn in_range(
        self,
        start: ExprView,
        end: ExprView,
        step: Option<Box<ExprView>>,
    ) -> ExprView {
        match step {
            Some(s) => ExprView::Range {
                start: Box::new(start),
                end: Box::new(end),
                step: Some(Box::new(self.wrap(*s))),
            },
            None => ExprView::Range {
                start: Box::new(start),
                end: Box::new(self.wrap(end)),
                step: None,
            },
        }
    }

    /// The construct worked into `e`, where `e` is not an assignment to look
    /// into; `None` where the construct cannot follow such an expression.
    pub open spec fn on_value(self, e: ExprView) -> Option<ExprView> {
        match e {
            ExprView::Binary { .. } => Some(self.on_last_operand(e)),
            ExprView::Range { start, end, step } => if self is Concat {
                None
            } else {
                Some(self.in_range(*start, *end, step))
            },
            ExprView::StringConcatenation { left, right } => if self is Concat {
                Some(ExprView::StringConcatenation { left, right: Box::new(self.wrap(*right)) })
            } else if self.wraps_whole(e) {
                Some(self.wrap(e))
            } else {
                None
            },
            _ => if self.wraps_whole(e) {
                Some(self.wrap(e))
            } else {
                None
            },
        }
    }

    /// The construct worked into `base`: into the value of an assignment,
    /// never its target, and else into `base` itself. `None` where the
    /// construct cannot follow `base`.
    pub open spec fn graft(self, base: ExprView) -> Option<ExprView> {
        match base {
            ExprView::Assign { target, operator, value } => match self.on_value(*value) {
                Some(v) => Some(ExprView::Assign { target, operator, value: Box::new(v) }),
                None => None,
            },
            _ => self.on_value(base),
        }
    }
}

/// Why a range bound cannot follow an expression.
pub enum RangeRefusal {
    /// The range has its three parts already.
    Full,
    /// No range starts with such an expression.
    Shape,
}

/// A range bound written after `e`: the step of a range that has none, or the
/// end of a new range that starts with `e`.
pub open spec fn range_on_value(e: ExprView, bound: ExprView) -> Result<ExprView, RangeRefusal> {
    match e {
        ExprView::Range { start, end, step } => match step {
            Some(_) => Err(RangeRefusal::Full),
            None => Ok(ExprView::Range { start, end, step: Some(Box::new(bound)) }),
        },
        ExprView::Id(_)
        | ExprView::Binary { .. }
        | ExprView::FuncCall { .. }
        | ExprView::Value(_)
        | ExprView::Parenthesized(_)
        | ExprView::ObjIndexing { .. }
        | ExprView::ArrayIndexing { .. }
        | ExprView::PropagatedFailible(_) => Ok(
            ExprView::Range { start: Box::new(e), end: Box::new(bound), step: None },
        ),
        _ => Err(RangeRefusal::Shape),
    }
}

/// A range bound written after `base`: worked into the value of an
/// assignment, and else into `base` itself.
pub open spec fn with_range(base: ExprView, bound: ExprView) -> Result<ExprView, RangeRefusal> {
    match base {
        ExprView::Assign { target, operator, value } => match range_on_value(*value, bound) {
            Ok(v) => Ok(ExprView::Assign { target, operator, value: Box::new(v) }),
            Err(why) => Err(why),
        },
        _ => range_on_value(base, bound),
    }
}

/// `op right` written after `e`. Where `e` is a binary operation whose
/// operator binds tighter than `op`, `e` as a whole is the left operand;
/// where its operator binds as tight or looser, `op` takes the right operand
/// of `e` for its left one. Any other `e` is the left operand.
pub open spec fn binary_on_value(e: ExprView, op: BinaryOperator, right: ExprView) -> ExprView {
    match e {
        ExprView::Binary { lhs, operator, rhs } => if operator.precedence() > op.precedence() {
            ExprView::Binary { lhs: Box::new(e), operator: op, rhs: Box::new(right) }
        } else {
            ExprView::Binary {
                lhs,
                operator,
                rhs: Box::new(ExprView::Binary { lhs: rhs, operator: op, rhs: Box::new(right) }),
            }
        },
        _ => ExprView::Binary { lhs: Box::new(e), operator: op, rhs: Box::new(right) },
    }
}

/// `op right` written after `base`: worked into the value of an assignment,
/// never its target, and else into `base` itself.
pub open spec fn with_binary(base: ExprView, op: BinaryOperator, right: ExprView) -> ExprView {
    match base {
        ExprView::Assign { target, operator, value } => ExprView::Assign {
            target,
            operator,
            value: Box::new(binary_on_value(*value, op, right)),
        },
        _ => binary_on_value(base, op, right),
    }
}

impl ExprView {
    /// An operand of its own: neither a binary operation nor an assignment.
    pub open spec fn is_operand(self) -> bool {
        !(self is Binary) && !(self is Assign)
    }
}

/// Precedence. Of two operators written one after the other between three
/// operands, the second takes the middle operand where it binds as tight as
/// the first or tighter; where it binds looser, the first operation as a
/// whole is its left operand.
pub proof fn lemma_two_operators(
    a: ExprView,
    first: BinaryOperator,
    b: ExprView,
    second: BinaryOperator,
    c: ExprView,
)
    requires
        a.is_operand(),
    ensures
        with_binary(with_binary(a, first, b), second, c) == if first.precedence()
            > second.precedence() {
            ExprView::Binary {
                lhs: Box::new(
                    ExprView::Binary { lhs: Box::new(a), operator: first, rhs: Box::new(b) },
                ),
                operator: second,
                rhs: Box::new(c),
            }
        } else {
            ExprView::Binary {
                lhs: Box::new(a),
                operator: first,
                rhs: Box::new(
                    ExprView::Binary { lhs: Box::new(b), operator: second, rhs: Box::new(c) },
                ),
            }
        },
{
}

/// Postfix constructs bind to the operand written last. Worked into a
/// binary operation, a call, an index, a field access, a `?` or a
/// concatenation leaves the operation at the root, with its left operand
/// and its operator as they were, and goes into its right operand.
pub proof fn lemma_postfix_keeps_root(
    g: PostfixView,
    lhs: ExprView,
    operator: BinaryOperator,
    rhs: ExprView,
)
    ensures
        g.graft(ExprView::Binary { lhs: Box::new(lhs), operator, rhs: Box::new(rhs) }) == Some(
            ExprView::Binary {
                lhs: Box::new(lhs),
                operator,
                rhs: Box::new(g.on_last_operand(rhs)),
            },
        ),
        !(rhs is Binary) ==> g.on_last_operand(rhs) == g.wrap(rhs),
{
}

/// A `?` can follow every expression.
pub proof fn lemma_propagation_fits(base: ExprView)
    ensures
        PostfixView::Propagate.graft(base) is Some,
{
}

/// Ranges. A bound after an expression that can start a range makes a
/// range of two parts; a bound after such a range makes its step; and a
/// range of three parts takes no further bound.
pub proof fn lemma_range_parts(start: ExprView, end: ExprView, step: ExprView, more: ExprView)
    requires
        start is Id || start is Value || start is Binary || start is FuncCall
            || start is Parenthesized || start is ObjIndexing || start is ArrayIndexing
            || start is PropagatedFailible,
    ensures
        with_range(start, end) == Ok::<ExprView, RangeRefusal>(
            ExprView::Range { start: Box::new(start), end: Box::new(end), step: None },
        ),
        with_range(with_range(start, end)->Ok_0, step) == Ok::<ExprView, RangeRefusal>(
            ExprView::Range {
                start: Box::new(start),
                end: Box::new(end),
                step: Some(Box::new(step)),
            },
        ),
        with_range(with_range(with_range(start, end)->Ok_0, step)->Ok_0, more) == Err::<
            ExprView,
            RangeRefusal,
        >(RangeRefusal::Full),
{
}

impl<'a> Postfix<'a> {
    /// The node that the construct makes of its operand.
    pub fn wrap(self, operand: Expr<'a>) -> (r: Expr<'a>)
        ensures
            r@ == self@.wrap(operand@),
    {
        match self {
            Postfix::Call(args) => Expr::FuncCall { callee: Box::new(operand), args },
            Postfix::Index(indexer) => Expr::ArrayIndexing { indexed: Box::new(operand), indexer },
            Postfix::Field(indexer) => Expr::ObjIndexing { indexed: Box::new(operand), indexer },
            Postfix::Propagate => Expr::PropagatedFailible(Box::new(operand)),
            Postfix::Concat(right) => Expr::StringConcatenation { left: Box::new(operand), right },
        }
    }

    /// Whether the construct may take the whole of `e` as its operand.
    pub fn wraps_whole(&self, e: &Expr<'a>) -> (r: bool)
        ensures
            r == self@.wraps_whole(e@),
    {
        match self {
            Postfix::Propagate => true,
            _ => match e {
                Expr::Id(_) => true,
                Expr::FuncCall { .. } => true,
                Expr::ObjIndexing { .. } => true,
                Expr::ArrayIndexing { .. } => true,
                Expr::Parenthesized(_) => true,
                Expr::PropagatedFailible(_) => true,
                Expr::Value(Value::Str(_)) => match self {
                    Postfix::Call(_) => false,
                    _ => true,
                },
                Expr::Value(_) => match self {
                    Postfix::Field(_) => true,
                    _ => false,
                },
                _ => false,
            },
        }
    }

    /// Binds the construct to the operand written last in `base`.
    pub fn on_last_operand(self, base: Expr<'a>) -> (r: Expr<'a>)
        ensures
            r@ == self@.on_last_operand(base@),
        decreases base,
    {
        match base {
            Expr::Binary { lhs, operator, rhs } => {
                let inner = self.on_last_operand(*rhs);
                Expr::Binary { lhs, operator, rhs: Box::new(inner) }
            },
            operand => self.wrap(operand),
        }
    }

    /// Whether the construct can follow `e`, `e` not being an assignment to
    /// look into.
    pub fn fits_value(&self, e: &Expr<'a>) -> (r: bool)
        ensures
            r == self@.on_value(e@).is_some(),
    {
        match e {
            Expr::Binary { .. } => true,
            Expr::Range { .. } => match self {
                Postfix::Concat(_) => false,
                _ => true,
            },
            Expr::StringConcatenation { .. } => match self {
                Postfix::Concat(_) => true,
                _ => self.wraps_whole(e),
            },
            _ => self.wraps_whole(e),
        }
    }

    /// Whether the construct can follow `base`.
    pub fn fits(&self, base: &Expr<'a>) -> (r: bool)
        ensures
            r == self@.graft(base@).is_some(),
    {
        match base {
            Expr::Assign { value, .. } => self.fits_value(&**value),
            _ => self.fits_value(base),
        }
    }

    /// Works the construct into `e`, `e` not being an assignment to look into.
    pub fn on_value(self, e: Expr<'a>) -> (r: Expr<'a>)
        requires
            self@.on_value(e@).is_some(),
        ensures
            Some(r@) == self@.on_value(e@),
    {
        match e {
            Expr::Binary { lhs, operator, rhs } => self.on_last_operand(
                Expr::Binary { lhs, operator, rhs },
            ),
            Expr::Range { start, end, step } => match step {
                Some(s) => Expr::Range { start, end, step: Some(Box::new(self.wrap(*s))) },
                None => Expr::Range { start, end: Box::new(self.wrap(*end)), step: None },
            },
            Expr::StringConcatenation { left, right } => match self {
                Postfix::Concat(more) => Expr::StringConcatenation {
                    left,
                    right: Box::new(Postfix::Concat(more).wrap(*right)),
                },
                other => other.wrap(Expr::StringConcatenation { left, right }),
            },
            other => self.wrap(other),
        }
    }

    /// Works the construct into `base`: into the value of an assignment, and
    /// else into `base` itself.
    pub fn graft(self, base: Expr<'a>) -> (r: Expr<'a>)
        requires
            self@.graft(base@).is_some(),
        ensures
            Some(r@) == self@.graft(base@),
    {
        match base {
            Expr::Assign { target, operator, value } => Expr::Assign {
                target,
                operator,
                value: Box::new(self.on_value(*value)),
            },
            other => self.on_value(other),
        }
    }
}

/// Whether a range bound can follow `e`, and if not, why.
pub fn range_fits_value(e: &Expr) -> (r: Result<(), RangeRefusal>)
    ensures
        forall|bound: ExprView|
            (#[trigger] range_on_value(e@, bound)) is Ok <==> r is Ok,
        forall|bound: ExprView|
            r is Err ==> (#[trigger] range_on_value(e@, bound)) == Err::<ExprView, RangeRefusal>(
                r->Err_0,
            ),
{
    match e {
        Expr::Range { step, .. } => match step {
            Some(_) => Err(RangeRefusal::Full),
            None => Ok(()),
        },
        Expr::Id(_)
        | Expr::Binary { .. }
        | Expr::FuncCall { .. }
        | Expr::Value(_)
        | Expr::Parenthesized(_)
        | Expr::ObjIndexing { .. }
        | Expr::ArrayIndexing { .. }
        | Expr::PropagatedFailible(_) => Ok(()),
        _ => Err(RangeRefusal::Shape),
    }
}

/// Whether a range bound can follow `base`, and if not, why.
pub fn range_fits(base: &Expr) -> (r: Result<(), RangeRefusal>)
    ensures
        forall|bound: ExprView| (#[trigger] with_range(base@, bound)) is Ok <==> r is Ok,
        forall|bound: ExprView|
            r is Err ==> (#[trigger] with_range(base@, bound)) == Err::<ExprView, RangeRefusal>(
                r->Err_0,
            ),
{
    match base {
        Expr::Assign { value, .. } => range_fits_value(&**value),
        _ => range_fits_value(base),
    }
}

/// Works a range bound into `e`, `e` not being an assignment to look into.
pub fn range_on_value_of<'a>(e: Expr<'a>, bound: Expr<'a>) -> (r: Expr<'a>)
    requires
        range_on_value(e@, bound@) is Ok,
    ensures
        Ok::<ExprView, RangeRefusal>(r@) == range_on_value(e@, bound@),
{
    match e {
        Expr::Range { start, end, step } => Expr::Range { start, end, step: Some(Box::new(bound)) },
        other => Expr::Range { start: Box::new(other), end: Box::new(bound), step: None },
    }
}

/// Works a range bound into `base`.
pub fn range_into<'a>(base: Expr<'a>, bound: Expr<'a>) -> (r: Expr<'a>)
    requires
        with_range(base@, bound@) is Ok,
    ensures
        Ok::<ExprView, RangeRefusal>(r@) == with_range(base@, bound@),
{
    match base {
        Expr::Assign { target, operator, value } => Expr::Assign {
            target,
            operator,
            value: Box::new(range_on_value_of(*value, bound)),
        },
        other => range_on_value_of(other, bound),
    }
}

/// Works `op right` into `e`, `e` not being an assignment to look into.
pub fn binary_on_value_of<'a>(e: Expr<'a>, op: BinaryOperator, right: Expr<'a>) -> (r: Expr<'a>)
    ensures
        r@ == binary_on_value(e@, op, right@),
{
    match e {
        Expr::Binary { lhs, operator, rhs } => {
            if operator.get_precedence() > op.get_precedence() {
                Expr::Binary {
                    lhs: Box::new(Expr::Binary { lhs, operator, rhs }),
                    operator: op,
                    rhs: Box::new(right),
                }
            } else {
                let inner = Expr::Binary { lhs: rhs, operator: op, rhs: Box::new(right) };
                assert(inner@ is Binary);
                Expr::Binary { lhs, operator, rhs: Box::new(inner) }
            }
        },
        other => Expr::Binary { lhs: Box::new(other), operator: op, rhs: Box::new(right) },
    }
}

/// Works `op right` into `base`.
pub fn binary_into<'a>(base: Expr<'a>, op: BinaryOperator, right: Expr<'a>) -> (r: Expr<'a>)
    ensures
        r@ == with_binary(base@, op, right@),
{
    match base {
        Expr::Assign { target, operator, value } => Expr::Assign {
            target,
            operator,
            value: Box::new(binary_on_value_of(*value, op, right)),
        },
        other => binary_on_value_of(other, op, right),
    }
}

/// Takes the expression out of `slot`, leaving `nil` in its place.
pub fn take_expr<'a>(slot: &mut Box<Expr<'a>>) -> (r: Expr<'a>)
    ensures
        r == **old(slot),
        **final(slot) == Expr::Value(Value::Nil),
{
    let mut taken = Expr::Value(Value::Nil);
    std::mem::swap(&mut **slot, &mut taken);
    taken
}

} // verus!
