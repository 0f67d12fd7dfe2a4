//! The constructs that attach themselves to an expression already built.

use super::error::{AspenError, AspenResult};
use super::expr::{
    modify_into_array_indexing_step, modify_into_fn_call_step, modify_into_obj_indexing_step,
    modify_into_range_step, modify_into_string_concatenation_step, parse_step, parse_until_step,
    propagated,
};
use super::func::{parse_call_args_step, Func};
use super::graft::{
    binary_into, range_fits, range_into, take_expr, with_binary, Postfix, RangeRefusal,
};
use super::operator::BinaryOperator;
use super::{fails_here, rewrites, AspenParser, Expr};
use crate::lexer::{join3, token_views, Token, TokenView};
use vstd::prelude::*;

verus! {

impl<'s> Expr<'s> {
    /// Call this once a `(` that follows `base_expr` is pulled: parses the
    /// arguments and works the call into the expression.
    pub fn modify_into_fn_call(parser: &mut AspenParser<'s>, base_expr: &mut Box<Expr<'s>>) -> (r:
        AspenResult<()>)
        requires
            old(parser).wf(),
        ensures
            fails_here(r, final(parser).input()),
            final(parser).follows(
                old(parser),
                modify_into_fn_call_step(old(parser).input(), old(base_expr)@),
            ),
            rewrites(
                r,
                **old(base_expr),
                **final(base_expr),
                modify_into_fn_call_step(old(parser).input(), old(base_expr)@).out,
            ),
        decreases old(parser).input().left(), 2nat,
    {
        proof {
            reveal(modify_into_fn_call_step);
            reveal(parse_call_args_step);
        }
        let args = match Func::parse_call_args(parser) {
            Ok(args) => args,
            Err(e) => {
                return Err(e);
            },
        };
        let call = Postfix::Call(args);
        if call.fits(&**base_expr) {
            let taken = take_expr(base_expr);
            **base_expr = call.graft(taken);
            Ok(())
        } else {
            Err(AspenError::unknown(parser, String::from_str("token '(' found")))
        }
    }

    /// Call this once a `?` that follows `base_expr` is pulled: works the
    /// propagation of a failure into the expression.
    pub fn modify_into_error_propagation(
        parser: &mut AspenParser<'s>,
        base_expr: &mut Box<Expr<'s>>,
    ) -> (r: AspenResult<()>)
        ensures
            *final(parser) == *old(parser),
            r is Ok,
            final(base_expr)@ == propagated(old(base_expr)@),
    {
        let mark = Postfix::Propagate;
        let fits = mark.fits(&**base_expr);
        assert(fits);
        let taken = take_expr(base_expr);
        **base_expr = mark.graft(taken);
        Ok(())
    }

    /// Call this once a `[` that follows `base_expr` is pulled: parses the
    /// indexer up to the `]` and works the indexing into the expression.
    pub fn modify_into_array_indexing(
        parser: &mut AspenParser<'s>,
        base_expr: &mut Box<Expr<'s>>,
    ) -> (r: AspenResult<()>)
        requires
            old(parser).wf(),
        ensures
            fails_here(r, final(parser).input()),
            final(parser).follows(
                old(parser),
                modify_into_array_indexing_step(old(parser).input(), old(base_expr)@),
            ),
            rewrites(
                r,
                **old(base_expr),
                **final(base_expr),
                modify_into_array_indexing_step(old(parser).input(), old(base_expr)@).out,
            ),
        decreases old(parser).input().left(), 2nat,
    {
        proof {
            reveal(modify_into_array_indexing_step);
            reveal(parse_until_step);
        }
        let stops = [Token::CloseBracket];
        assert(token_views(stops@) =~= seq![TokenView::CloseBracket]);
        let found = match Expr::parse_until(parser, &stops) {
            Ok(found) => found,
            Err(e) => {
                return Err(e);
            },
        };
        let index = Postfix::Index(found.0);
        if index.fits(&**base_expr) {
            let taken = take_expr(base_expr);
            **base_expr = index.graft(taken);
            Ok(())
        } else {
            Err(AspenError::unknown(parser, String::from_str("token found: '['")))
        }
    }

    /// Call this once a `.` that follows `base_expr` is pulled: parses the
    /// name of the field and works the access into the expression.
    pub fn modify_into_obj_indexing(
        parser: &mut AspenParser<'s>,
        base_expr: &mut Box<Expr<'s>>,
    ) -> (r: AspenResult<()>)
        requires
            old(parser).wf(),
        ensures
            fails_here(r, final(parser).input()),
            final(parser).follows(
                old(parser),
                modify_into_obj_indexing_step(old(parser).input(), old(base_expr)@),
            ),
            rewrites(
                r,
                **old(base_expr),
                **final(base_expr),
                modify_into_obj_indexing_step(old(parser).input(), old(base_expr)@).out,
            ),
        decreases old(parser).input().left(), 1nat,
    {
        proof {
            reveal(modify_into_obj_indexing_step);
            reveal(parse_step);
        }
        let e = match Expr::parse(parser) {
            Ok(e) => e,
            Err(e) => {
                return Err(e);
            },
        };
        match &e {
            Expr::Id(_) => (),
            _ => {
                let text = join3(
                    "token '",
                    parser.lexer.slice(),
                    "', an object can only be accessed with an identifier",
                );
                return Err(AspenError::unknown(parser, text));
            },
        }
        let field = Postfix::Field(Box::new(e));
        if field.fits(&**base_expr) {
            let taken = take_expr(base_expr);
            **base_expr = field.graft(taken);
            Ok(())
        } else {
            Err(AspenError::unknown(parser, String::from_str("token found: '.'")))
        }
    }

    /// Call this once a `..` that follows `base_expr` is pulled: parses the
    /// right-hand text and works the concatenation into the expression.
    pub fn modify_into_string_concatenation(
        parser: &mut AspenParser<'s>,
        base_expr: &mut Box<Expr<'s>>,
    ) -> (r: AspenResult<()>)
        requires
            old(parser).wf(),
        ensures
            fails_here(r, final(parser).input()),
            final(parser).follows(
                old(parser),
                modify_into_string_concatenation_step(old(parser).input(), old(base_expr)@),
            ),
            rewrites(
                r,
                **old(base_expr),
                **final(base_expr),
                modify_into_string_concatenation_step(old(parser).input(), old(base_expr)@).out,
            ),
        decreases old(parser).input().left(), 1nat,
    {
        proof {
            reveal(modify_into_string_concatenation_step);
            reveal(parse_step);
        }
        let e = match Expr::parse(parser) {
            Ok(e) => e,
            Err(e) => {
                return Err(e);
            },
        };
        let concat = Postfix::Concat(Box::new(e));
        if concat.fits(&**base_expr) {
            let taken = take_expr(base_expr);
            **base_expr = concat.graft(taken);
            Ok(())
        } else {
            Err(AspenError::unknown(parser, String::from_str("token found: '..'")))
        }
    }

    /// Call this once a `:` that follows `base_expr` is pulled: parses the
    /// bound and works it into the expression as the end of a new range or
    /// the step of one that has none.
    pub fn modify_into_range(parser: &mut AspenParser<'s>, base_expr: &mut Box<Expr<'s>>) -> (r:
        AspenResult<()>)
        requires
            old(parser).wf(),
        ensures
            fails_here(r, final(parser).input()),
            final(parser).follows(
                old(parser),
                modify_into_range_step(old(parser).input(), old(base_expr)@),
            ),
            rewrites(
                r,
                **old(base_expr),
                **final(base_expr),
                modify_into_range_step(old(parser).input(), old(base_expr)@).out,
            ),
        decreases old(parser).input().left(), 1nat,
    {
        proof {
            reveal(modify_into_range_step);
            reveal(parse_step);
        }
        let second_expr = match Expr::parse(parser) {
            Ok(e) => e,
            Err(e) => {
                return Err(e);
            },
        };
        match range_fits(&**base_expr) {
            Ok(_) => {
                let taken = take_expr(base_expr);
                **base_expr = range_into(taken, second_expr);
                Ok(())
            },
            Err(RangeRefusal::Full) => Err(
                AspenError::unknown(
                    parser,
                    String::from_str("token ':' found, a Range has three parts: start:end:step"),
                ),
            ),
            Err(RangeRefusal::Shape) => Err(
                AspenError::unknown(parser, String::from_str("token ':' found")),
            ),
        }
    }

    /// Call this once a binary operator that follows `base_expr` and its
    /// right operand are read: works the operation into the expression by
    /// the precedence of the two operators that compete for an operand.
    pub fn modify_into_binary_op(
        parser: &mut AspenParser,
        base_expr: &mut Box<Expr<'s>>,
        right_expr: Expr<'s>,
        bop: BinaryOperator,
    ) -> (r: AspenResult<()>)
        ensures
            *final(parser) == *old(parser),
            r is Ok,
            final(base_expr)@ == with_binary(old(base_expr)@, bop, right_expr@),
    {
        let taken = take_expr(base_expr);
        **base_expr = binary_into(taken, bop, right_expr);
        Ok(())
    }
}

} // verus!
