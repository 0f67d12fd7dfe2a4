//! The expression parser: primaries, and the loop that extends an expression
//! by what is written after it.

use super::func::parse_call_args_step;
use super::graft::{with_binary, with_range, PostfixView, RangeRefusal};
use super::operator::BinaryOperator;
use super::utils::{expect_token_step, next_jump_multispace_step, next_token_step};
use super::value::parse_value_step;
use super::{expr_model, Expr, ExprView, Input, Step};
use crate::lexer::TokenView;
use vstd::prelude::*;

verus! {

/// What is said of a token, named by `what`, that has no place where it stands.
pub open spec fn found_text(what: Seq<char>) -> Seq<char> {
    "token '"@ + what + "' found"@
}

/// What is said when an object is accessed with something else than a name.
pub open spec fn accessor_text(what: Seq<char>) -> Seq<char> {
    "token '"@ + what + "', an object can only be accessed with an identifier"@
}

/// A `?` written after `base`. It can follow any expression.
pub open spec fn propagated(base: ExprView) -> ExprView {
    match PostfixView::Propagate.graft(base) {
        Some(e) => e,
        None => base,
    }
}

/// The list with its last item replaced.
pub open spec fn with_last<T>(items: Seq<T>, last: T) -> Seq<T> {
    items.drop_last().push(last)
}

/// An object literal half read: the key that waits for its value, and the
/// value where one was read for it already.
pub type Pending = Option<(Seq<char>, Option<ExprView>)>;

/// One expression: the next significant token and what it opens.
#[verifier::opaque]
pub open spec fn parse_step(i: Input) -> Step<ExprView>
    decreases i.left(), 0nat,
{
    let t = next_jump_multispace_step(i);
    match t.out {
        Err(e) => Step::fail(e, t.used, t.notes),
        Ok(token) => parse_with_token_step(i.after(t), token).later(t.used),
    }
}

/// An import reference after its keyword: `(`, the name of the module as a
/// text, and `)`.
#[verifier::opaque]
pub open spec fn import_reference_step(i: Input) -> Step<ExprView> {
    let open = expect_token_step(i, TokenView::OpenParen);
    match open.out {
        Err(e) => Step::fail(e, open.used, open.notes),
        Ok(_) => {
            let name = next_jump_multispace_step(i.after(open)).later(open.used);
            match name.out {
                Err(e) => Step::fail(e, name.used, name.notes),
                Ok(TokenView::String(text)) => {
                    let close = expect_token_step(i.after(name), TokenView::CloseParen).later(
                        name.used,
                    );
                    match close.out {
                        Err(e) => Step::fail(e, close.used, close.notes),
                        Ok(_) => Step::ok(ExprView::Import(text), close.used, close.notes),
                    }
                },
                Ok(_) => Step::fail(
                    i.after(name).expected("an import value"@),
                    name.used,
                    name.notes,
                ),
            }
        },
    }
}

/// The primary expression that the token just pulled opens: an array, an
/// object or a parenthesized expression, a name, a spread name, an import,
/// or a literal.
#[verifier::opaque]
pub open spec fn parse_with_token_step(i: Input, token: TokenView) -> Step<ExprView>
    decreases i.left(), 3nat,
{
    match token {
        TokenView::OpenBracket => {
            let a = parse_array_step(i);
            match a.out {
                Err(e) => Step::fail(e, a.used, a.notes),
                Ok(items) => Step::ok(ExprView::Array(items), a.used, a.notes),
            }
        },
        TokenView::OpenBrace => {
            let o = parse_obj_step(i);
            match o.out {
                Err(e) => Step::fail(e, o.used, o.notes),
                Ok(fields) => Step::ok(ExprView::Object(fields), o.used, o.notes),
            }
        },
        TokenView::OpenParen => parse_parenthesized_step(i),
        TokenView::Identifier(name) => Step::ok(ExprView::Id(name), 0, i.notes),
        TokenView::SpreadOperator => {
            let t = next_token_step(i);
            match t.out {
                Err(e) => Step::fail(e, t.used, t.notes),
                Ok(TokenView::Identifier(name)) => Step::ok(
                    ExprView::SpeadId(name),
                    t.used,
                    t.notes,
                ),
                Ok(_) => Step::fail(
                    i.after(t).expected("an identifier following the '...'"@),
                    t.used,
                    t.notes,
                ),
            }
        },
        TokenView::Import => import_reference_step(i),
        _ => {
            let v = parse_value_step(i, token);
            match v.out {
                Err(e) => Step::fail(e, v.used, v.notes),
                Ok(value) => Step::ok(ExprView::Value(value), v.used, v.notes),
            }
        },
    }
}

/// A parenthesized expression, its `(` pulled already, up to its `)`.
#[verifier::opaque]
pub open spec fn parse_parenthesized_step(i: Input) -> Step<ExprView>
    decreases i.left(), 2nat,
{
    let u = parse_until_step(i, seq![TokenView::CloseParen]);
    match u.out {
        Err(e) => Step::fail(e, u.used, u.notes),
        Ok(found) => Step::ok(ExprView::Parenthesized(Box::new(found.0)), u.used, u.notes),
    }
}

/// An expression with all that extends it, up to the first of the stop
/// tokens, which is returned with it.
#[verifier::opaque]
pub open spec fn parse_until_step(i: Input, stops: Seq<TokenView>) -> Step<(ExprView, TokenView)>
    decreases i.left(), 1nat,
{
    let first = parse_step(i);
    match first.out {
        Err(e) => Step::fail(e, first.used, first.notes),
        Ok(base) => parse_until_loop(i.after(first), first.used, stops, base, None),
    }
}

/// The rest of [`parse_until_step`], `used` pulls in: `base` is the
/// expression built so far, and `bop` a binary operator that was read and
/// waits for its right operand.
#[verifier::opaque]
pub open spec fn parse_until_loop(
    i: Input,
    used: nat,
    stops: Seq<TokenView>,
    base: ExprView,
    bop: Option<BinaryOperator>,
) -> Step<(ExprView, TokenView)>
    decreases i.left(), 0nat,
{
    let t = next_jump_multispace_step(i);
    let j = i.after(t);
    let n = used + t.used;
    match t.out {
        Err(e) => Step::fail(e, n, j.notes),
        Ok(token) => match token.comment_text() {
            Some(text) => parse_until_loop(j.noting(text), n, stops, base, bop),
            None => match bop {
                Some(op) => {
                    let r = parse_with_token_step(j, token);
                    match r.out {
                        Err(e) => Step::fail(e, n + r.used, r.notes),
                        Ok(right) => parse_until_loop(
                            j.after(r),
                            n + r.used,
                            stops,
                            with_binary(base, op, right),
                            None,
                        ),
                    }
                },
                None => match token {
                    TokenView::BinaryOperator(op) => parse_until_loop(j, n, stops, base, Some(op)),
                    TokenView::OpenParen => {
                        let m = modify_into_fn_call_step(j, base);
                        match m.out {
                            Err(e) => Step::fail(e, n + m.used, m.notes),
                            Ok(b) => parse_until_loop(j.after(m), n + m.used, stops, b, None),
                        }
                    },
                    TokenView::OpenBracket => {
                        let m = modify_into_array_indexing_step(j, base);
                        match m.out {
                            Err(e) => Step::fail(e, n + m.used, m.notes),
                            Ok(b) => parse_until_loop(j.after(m), n + m.used, stops, b, None),
                        }
                    },
                    TokenView::Dot => {
                        let m = modify_into_obj_indexing_step(j, base);
                        match m.out {
                            Err(e) => Step::fail(e, n + m.used, m.notes),
                            Ok(b) => parse_until_loop(j.after(m), n + m.used, stops, b, None),
                        }
                    },
                    TokenView::Range => {
                        let m = modify_into_range_step(j, base);
                        match m.out {
                            Err(e) => Step::fail(e, n + m.used, m.notes),
                            Ok(b) => parse_until_loop(j.after(m), n + m.used, stops, b, None),
                        }
                    },
                    TokenView::PropagationOperator => parse_until_loop(
                        j,
                        n,
                        stops,
                        propagated(base),
                        None,
                    ),
                    TokenView::StringSeparator => {
                        let m = modify_into_string_concatenation_step(j, base);
                        match m.out {
                            Err(e) => Step::fail(e, n + m.used, m.notes),
                            Ok(b) => parse_until_loop(j.after(m), n + m.used, stops, b, None),
                        }
                    },
                    _ => if stops.contains(token) {
                        Step::ok((base, token), n, j.notes)
                    } else {
                        Step::fail(j.unknown(found_text(token.describe())), n, j.notes)
                    },
                },
            },
        },
    }
}

/// A call written after `base`, its `(` pulled already: the arguments up to
/// the `)`, then the call worked into the tree.
#[verifier::opaque]
pub open spec fn modify_into_fn_call_step(i: Input, base: ExprView) -> Step<ExprView>
    decreases i.left(), 2nat,
{
    let a = parse_call_args_step(i);
    match a.out {
        Err(e) => Step::fail(e, a.used, a.notes),
        Ok(args) => match PostfixView::Call(args).graft(base) {
            Some(e) => Step::ok(e, a.used, a.notes),
            None => Step::fail(i.after(a).unknown("token '(' found"@), a.used, a.notes),
        },
    }
}

/// An index written after `base`, its `[` pulled already: the indexer up to
/// the `]`, then the indexing worked into the tree.
#[verifier::opaque]
pub open spec fn modify_into_array_indexing_step(i: Input, base: ExprView) -> Step<ExprView>
    decreases i.left(), 2nat,
{
    let u = parse_until_step(i, seq![TokenView::CloseBracket]);
    match u.out {
        Err(e) => Step::fail(e, u.used, u.notes),
        Ok(found) => match PostfixView::Index(found.0).graft(base) {
            Some(e) => Step::ok(e, u.used, u.notes),
            None => Step::fail(i.after(u).unknown("token found: '['"@), u.used, u.notes),
        },
    }
}

/// A field access written after `base`, its `.` pulled already: one
/// expression, which must be a name, then the access worked into the tree.
#[verifier::opaque]
pub open spec fn modify_into_obj_indexing_step(i: Input, base: ExprView) -> Step<ExprView>
    decreases i.left(), 1nat,
{
    let p = parse_step(i);
    match p.out {
        Err(e) => Step::fail(e, p.used, p.notes),
        Ok(name) => if !(name is Id) {
            Step::fail(i.after(p).unknown(accessor_text(i.after(p).slice())), p.used, p.notes)
        } else {
            match PostfixView::Field(name).graft(base) {
                Some(e) => Step::ok(e, p.used, p.notes),
                None => Step::fail(i.after(p).unknown("token found: '.'"@), p.used, p.notes),
            }
        },
    }
}

/// A concatenation written after `base`, its `..` pulled already: one
/// expression, then the concatenation worked into the tree.
#[verifier::opaque]
pub open spec fn modify_into_string_concatenation_step(i: Input, base: ExprView) -> Step<ExprView>
    decreases i.left(), 1nat,
{
    let p = parse_step(i);
    match p.out {
        Err(e) => Step::fail(e, p.used, p.notes),
        Ok(right) => match PostfixView::Concat(right).graft(base) {
            Some(e) => Step::ok(e, p.used, p.notes),
            None => Step::fail(i.after(p).unknown("token found: '..'"@), p.used, p.notes),
        },
    }
}

/// A range bound written after `base`, its `:` pulled already: one
/// expression, then the bound worked into the tree. A range that has its
/// step takes no further bound.
#[verifier::opaque]
pub open spec fn modify_into_range_step(i: Input, base: ExprView) -> Step<ExprView>
    decreases i.left(), 1nat,
{
    let p = parse_step(i);
    match p.out {
        Err(e) => Step::fail(e, p.used, p.notes),
        Ok(bound) => match with_range(base, bound) {
            Ok(e) => Step::ok(e, p.used, p.notes),
            Err(RangeRefusal::Full) => Step::fail(
                i.after(p).unknown("token ':' found, a Range has three parts: start:end:step"@),
                p.used,
                p.notes,
            ),
            Err(RangeRefusal::Shape) => Step::fail(
                i.after(p).unknown("token ':' found"@),
                p.used,
                p.notes,
            ),
        },
    }
}

/// An array literal, its `[` pulled already, up to its `]`.
#[verifier::opaque]
pub open spec fn parse_array_step(i: Input) -> Step<Seq<ExprView>>
    decreases i.left(), 1nat,
{
    array_loop(i, 0, Seq::empty(), false)
}

/// The rest of [`parse_array_step`], `used` pulls in: `arr` holds the items
/// read so far, and `awaits_comma` tells that the last of them may still be
/// extended or closed by a comma.
#[verifier::opaque]
pub open spec fn array_loop(i: Input, used: nat, arr: Seq<ExprView>, awaits_comma: bool) -> Step<
    Seq<ExprView>,
>
    decreases i.left(), 0nat,
{
    let t = next_jump_multispace_step(i);
    let j = i.after(t);
    let n = used + t.used;
    match t.out {
        Err(e) => Step::fail(e, n, j.notes),
        Ok(token) => if token is Comma && awaits_comma {
            array_loop(j, n, arr, false)
        } else if token is CloseBracket {
            Step::ok(arr, n, j.notes)
        } else {
            match token.comment_text() {
                Some(text) => array_loop(j.noting(text), n, arr, awaits_comma),
                None => if !awaits_comma {
                    let r = parse_with_token_step(j, token);
                    match r.out {
                        Err(e) => Step::fail(e, n + r.used, r.notes),
                        Ok(item) => array_loop(j.after(r), n + r.used, arr.push(item), true),
                    }
                } else {
                    let x = array_tail(j, 0, arr, token, None);
                    match x.out {
                        Err(e) => Step::fail(e, n + x.used, x.notes),
                        Ok(more) => if more.1 {
                            Step::ok(more.0, n + x.used, x.notes)
                        } else {
                            array_loop(j.after(x), n + x.used, more.0, false)
                        },
                    }
                },
            }
        },
    }
}

/// What follows an item of an array and extends it: calls and binary
/// operations on the last item of `arr`, up to the comma that ends the item
/// or the `]` that ends the array; the result tells which of the two it was,
/// `true` for the `]`. `token` is the token just pulled, `used` counts the
/// pulls made since the item's first extension, and `bop` is a binary
/// operator that waits for its right operand.
#[verifier::opaque]
pub open spec fn array_tail(
    i: Input,
    used: nat,
    arr: Seq<ExprView>,
    token: TokenView,
    bop: Option<BinaryOperator>,
) -> Step<(Seq<ExprView>, bool)>
    decreases i.left(), 4nat,
{
    if arr.len() == 0 {
        Step::fail(i.expected("a close bracket ']'"@), used, i.notes)
    } else {
        match bop {
            Some(op) => {
                let r = parse_with_token_step(i, token);
                match r.out {
                    Err(e) => Step::fail(e, used + r.used, r.notes),
                    Ok(right) => {
                        let t = next_jump_multispace_step(i.after(r));
                        let n = used + r.used + t.used;
                        match t.out {
                            Err(e) => Step::fail(e, n, t.notes),
                            Ok(next) => array_tail(
                                i.after(r).after(t),
                                n,
                                with_last(arr, with_binary(arr.last(), op, right)),
                                next,
                                None,
                            ),
                        }
                    },
                }
            },
            None => match token {
                TokenView::BinaryOperator(op) => {
                    let t = next_jump_multispace_step(i);
                    match t.out {
                        Err(e) => Step::fail(e, used + t.used, t.notes),
                        Ok(next) => array_tail(i.after(t), used + t.used, arr, next, Some(op)),
                    }
                },
                TokenView::OpenParen => {
                    let m = modify_into_fn_call_step(i, arr.last());
                    match m.out {
                        Err(e) => Step::fail(e, used + m.used, m.notes),
                        Ok(item) => {
                            let t = next_jump_multispace_step(i.after(m));
                            let n = used + m.used + t.used;
                            match t.out {
                                Err(e) => Step::fail(e, n, t.notes),
                                Ok(next) => array_tail(
                                    i.after(m).after(t),
                                    n,
                                    with_last(arr, item),
                                    next,
                                    None,
                                ),
                            }
                        },
                    }
                },
                TokenView::Comma => Step::ok((arr, false), used, i.notes),
                TokenView::CloseBracket => Step::ok((arr, true), used, i.notes),
                _ => Step::fail(i.expected("a close bracket ']'"@), used, i.notes),
            },
        }
    }
}

/// An object literal, its `{` pulled already, up to its `}`.
#[verifier::opaque]
pub open spec fn parse_obj_step(i: Input) -> Step<Map<Seq<char>, ExprView>>
    decreases i.left(), 1nat,
{
    obj_loop(i, 0, Map::empty(), None)
}

/// What is said of two misplaced tokens in an object literal.
pub open spec fn spread_place_text() -> Seq<char> {
    "an object or an array: either do {..<spread_variable>} or [...<spread_variable>]"@
}

/// One token of an object literal while no key waits for a value: a key, a
/// name that stands for a pair of itself, a spread name, a comment, or the
/// `}` that closes the literal, which the second part of the result tells.
#[verifier::opaque]
pub open spec fn obj_none_turn(i: Input, token: TokenView) -> Step<(Pending, bool)> {
    match token {
        TokenView::ObjectKey(k) => Step::ok((Some((k, None)), false), 0, i.notes),
        TokenView::CloseBrace => Step::ok((None, true), 0, i.notes),
        TokenView::Identifier(name) => Step::ok(
            (Some((name, Some(ExprView::Id(name)))), false),
            0,
            i.notes,
        ),
        TokenView::SpreadOperator => {
            let s = next_token_step(i);
            match s.out {
                Err(e) => Step::fail(e, s.used, s.notes),
                Ok(TokenView::Identifier(name)) => Step::ok(
                    (Some((name, Some(ExprView::SpeadId(name)))), false),
                    s.used,
                    s.notes,
                ),
                Ok(_) => Step::fail(
                    i.after(s).expected("an identifier following the '...'"@),
                    s.used,
                    s.notes,
                ),
            }
        },
        _ => match token.comment_text() {
            Some(text) => Step::ok((None, false), 0, i.noting(text).notes),
            None => Step::fail(i.expected("a valid <expr>"@), 0, i.notes),
        },
    }
}

/// One token of an object literal while `key` waits for its value: the
/// value, which is an object, an array, a name, or what the token opens as
/// a primary expression.
#[verifier::opaque]
pub open spec fn obj_key_turn(i: Input, key: Seq<char>, token: TokenView) -> Step<Pending>
    decreases i.left(), 4nat,
{
    match token {
        TokenView::ObjectKey(_) => Step::fail(i.expected("a valid <expr>"@), 0, i.notes),
        TokenView::OpenBrace => {
            let o = parse_obj_step(i);
            match o.out {
                Err(e) => Step::fail(e, o.used, o.notes),
                Ok(inner) => Step::ok(Some((key, Some(ExprView::Object(inner)))), o.used, o.notes),
            }
        },
        TokenView::OpenBracket => {
            let a = parse_array_step(i);
            match a.out {
                Err(e) => Step::fail(e, a.used, a.notes),
                Ok(items) => Step::ok(Some((key, Some(ExprView::Array(items)))), a.used, a.notes),
            }
        },
        TokenView::Identifier(name) => Step::ok(Some((key, Some(ExprView::Id(name)))), 0, i.notes),
        TokenView::BinaryOperator(_) => {
            let p = parse_step(i);
            match p.out {
                Err(e) => Step::fail(e, p.used, p.notes),
                Ok(_) => Step::fail(i.after(p).expected("a valid <expr>"@), p.used, p.notes),
            }
        },
        TokenView::SpreadOperator => Step::fail(i.expected(spread_place_text()), 0, i.notes),
        _ => match token.comment_text() {
            Some(text) => Step::ok(Some((key, None)), 0, i.noting(text).notes),
            None => {
                let r = parse_with_token_step(i, token);
                match r.out {
                    Err(e) => Step::fail(e, r.used, r.notes),
                    Ok(e) => Step::ok(Some((key, Some(e))), r.used, r.notes),
                }
            },
        },
    }
}

/// One token of an object literal while `key` has the value `value`: the
/// token completes the pair, extends the value, or replaces it. A key that
/// follows completes the pair and waits for a value of its own. The third
/// part of the result tells that the token is the
/// `}` that closes the literal.
#[verifier::opaque]
pub open spec fn obj_value_turn(
    i: Input,
    fields: Map<Seq<char>, ExprView>,
    key: Seq<char>,
    value: ExprView,
    token: TokenView,
) -> Step<(Map<Seq<char>, ExprView>, Pending, bool)>
    decreases i.left(), 4nat,
{
    match token {
        TokenView::ObjectKey(k) => Step::ok(
            (fields.insert(key, value), Some((k, None)), false),
            0,
            i.notes,
        ),
        TokenView::CloseBrace => Step::ok((fields.insert(key, value), None, true), 0, i.notes),
        TokenView::Comma => Step::ok((fields.insert(key, value), None, false), 0, i.notes),
        TokenView::OpenBrace => {
            let o = parse_obj_step(i);
            match o.out {
                Err(e) => Step::fail(e, o.used, o.notes),
                Ok(inner) => Step::ok(
                    (fields, Some((key, Some(ExprView::Object(inner)))), false),
                    o.used,
                    o.notes,
                ),
            }
        },
        TokenView::OpenParen => {
            let m = modify_into_fn_call_step(i, value);
            match m.out {
                Err(e) => Step::fail(e, m.used, m.notes),
                Ok(e) => Step::ok((fields, Some((key, Some(e))), false), m.used, m.notes),
            }
        },
        TokenView::PropagationOperator => Step::ok(
            (fields, Some((key, Some(propagated(value)))), false),
            0,
            i.notes,
        ),
        TokenView::OpenBracket => {
            let a = parse_array_step(i);
            match a.out {
                Err(e) => Step::fail(e, a.used, a.notes),
                Ok(items) => Step::ok(
                    (fields, Some((key, Some(ExprView::Array(items)))), false),
                    a.used,
                    a.notes,
                ),
            }
        },
        TokenView::Identifier(name) => Step::ok(
            (fields, Some((key, Some(ExprView::Id(name)))), false),
            0,
            i.notes,
        ),
        TokenView::BinaryOperator(op) => {
            let p = parse_step(i);
            match p.out {
                Err(e) => Step::fail(e, p.used, p.notes),
                Ok(right) => Step::ok(
                    (fields, Some((key, Some(with_binary(value, op, right)))), false),
                    p.used,
                    p.notes,
                ),
            }
        },
        TokenView::SpreadOperator => Step::fail(i.expected(spread_place_text()), 0, i.notes),
        _ => match token.comment_text() {
            Some(text) => Step::ok(
                (fields, Some((key, Some(value))), false),
                0,
                i.noting(text).notes,
            ),
            None => {
                let r = parse_with_token_step(i, token);
                match r.out {
                    Err(e) => Step::fail(e, r.used, r.notes),
                    Ok(e) => Step::ok((fields, Some((key, Some(e))), false), r.used, r.notes),
                }
            },
        },
    }
}

/// The rest of [`parse_obj_step`], `used` pulls in: `fields` holds the pairs
/// completed so far and `pending` the pair being read. Each turn pulls one
/// significant token and lets it act on the two.
#[verifier::opaque]
pub open spec fn obj_loop(
    i: Input,
    used: nat,
    fields: Map<Seq<char>, ExprView>,
    pending: Pending,
) -> Step<Map<Seq<char>, ExprView>>
    decreases i.left(), 0nat,
{
    let t = next_jump_multispace_step(i);
    let j = i.after(t);
    let n = used + t.used;
    match t.out {
        Err(e) => Step::fail(e, n, j.notes),
        Ok(token) => match pending {
            None => {
                let x = obj_none_turn(j, token);
                match x.out {
                    Err(e) => Step::fail(e, n + x.used, x.notes),
                    Ok(next) => if next.1 {
                        Step::ok(fields, n + x.used, x.notes)
                    } else {
                        obj_loop(j.after(x), n + x.used, fields, next.0)
                    },
                }
            },
            Some((key, None)) => {
                let x = obj_key_turn(j, key, token);
                match x.out {
                    Err(e) => Step::fail(e, n + x.used, x.notes),
                    Ok(next) => obj_loop(j.after(x), n + x.used, fields, next),
                }
            },
            Some((key, Some(value))) => {
                let x = obj_value_turn(j, fields, key, value, token);
                match x.out {
                    Err(e) => Step::fail(e, n + x.used, x.notes),
                    Ok(next) => if next.2 {
                        Step::ok(next.0, n + x.used, x.notes)
                    } else {
                        obj_loop(j.after(x), n + x.used, next.0, next.1)
                    },
                }
            },
        },
    }
}

/// An object literal half read, as the parser holds it.
pub enum Entry<'s> {
    /// No key waits for a value.
    Free,
    /// The key waits for its value.
    Key(&'s str),
    /// The key has a value, which may still be extended or replaced.
    Pair(&'s str, Box<Expr<'s>>),
}

impl<'s> View for Entry<'s> {
    type V = Pending;

    open spec fn view(&self) -> Pending {
        match self {
            Entry::Free => None,
            Entry::Key(k) => Some((k@, None)),
            Entry::Pair(k, v) => Some((k@, Some(expr_model(**v)))),
        }
    }
}

} // verus!
