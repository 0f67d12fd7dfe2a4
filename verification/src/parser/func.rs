use super::expr::{
    modify_into_array_indexing_step, modify_into_fn_call_step, modify_into_obj_indexing_step,
    modify_into_range_step, parse_with_token_step, propagated, with_last,
};
use super::utils::{next_jump_multispace_step, Block, BlockView};
use super::block::{parse_block, parse_block_step};
use super::error::{AspenError, AspenResult};
use super::expr::parse_until_step;
use super::utils::{next_jump_multispace, next_token, next_token_step};
use super::{
    arguments_model, exprs_model, fails_here, lemma_exprs_push, lemma_exprs_with_last, shows,
    shows_exprs, AspenParser, Expr, ExprView, Input, Statement, StatementView, Step,
};
use crate::lexer::{join3, same_text, token_views, Token, TokenView};
use vstd::prelude::*;

verus! {

/// A function declaration.
#[derive(Debug, PartialEq)]
pub struct Func<'s> {
    pub name: &'s str,
    pub arguments: Vec<Argument<'s>>,
    pub body: Box<Block<'s>>,
}

/// One declared argument: its name, whether it gathers the remaining values
/// of a call, and the value it takes when the call gives none.
#[derive(Debug, PartialEq)]
pub struct Argument<'s> {
    pub is_spread: bool,
    pub identifier: &'s str,
    pub base_value: Option<Box<Expr<'s>>>,
}

pub struct FuncView {
    pub name: Seq<char>,
    pub arguments: Seq<ArgumentView>,
    pub body: BlockView,
}

pub struct ArgumentView {
    pub is_spread: bool,
    pub identifier: Seq<char>,
    pub base_value: Option<ExprView>,
}

/// The arguments of a call, its `(` pulled already, up to its `)`.
#[verifier::opaque]
pub open spec fn parse_call_args_step(i: Input) -> Step<Seq<ExprView>>
    decreases i.left(), 1nat,
{
    call_args_loop(i, 0, Seq::empty(), true)
}

/// The rest of [`parse_call_args_step`], `used` pulls in: `args` holds the
/// arguments read so far, and `awaits_arg` tells that an argument must come
/// next; while it is false the last argument may still be extended.
#[verifier::opaque]
pub open spec fn call_args_loop(i: Input, used: nat, args: Seq<ExprView>, awaits_arg: bool) -> Step<
    Seq<ExprView>,
>
    decreases i.left(), 0nat,
{
    let t = next_jump_multispace_step(i);
    let j = i.after(t);
    let n = used + t.used;
    match t.out {
        Err(e) => Step::fail(e, n, j.notes),
        Ok(token) => if token is CloseParen {
            Step::ok(args, n, j.notes)
        } else {
            match token.comment_text() {
                Some(text) => call_args_loop(j.noting(text), n, args, awaits_arg),
                None => if awaits_arg {
                    let r = parse_with_token_step(j, token);
                    match r.out {
                        Err(e) => Step::fail(e, n + r.used, r.notes),
                        Ok(arg) => call_args_loop(j.after(r), n + r.used, args.push(arg), false),
                    }
                } else if args.len() == 0 {
                    match token {
                        TokenView::Range
                        | TokenView::Dot
                        | TokenView::OpenBracket
                        | TokenView::PropagationOperator
                        | TokenView::OpenParen => call_args_loop(j, n, args, awaits_arg),
                        TokenView::Comma => call_args_loop(j, n, args, true),
                        _ => Step::fail(j.expected("a close parenthesis ')'"@), n, j.notes),
                    }
                } else {
                    match token {
                        TokenView::Range => {
                            let m = modify_into_range_step(j, args.last());
                            match m.out {
                                Err(e) => Step::fail(e, n + m.used, m.notes),
                                Ok(arg) => call_args_loop(
                                    j.after(m),
                                    n + m.used,
                                    with_last(args, arg),
                                    false,
                                ),
                            }
                        },
                        TokenView::Dot => {
                            let m = modify_into_obj_indexing_step(j, args.last());
                            match m.out {
                                Err(e) => Step::fail(e, n + m.used, m.notes),
                                Ok(arg) => call_args_loop(
                                    j.after(m),
                                    n + m.used,
                                    with_last(args, arg),
                                    false,
                                ),
                            }
                        },
                        TokenView::OpenBracket => {
                            let m = modify_into_array_indexing_step(j, args.last());
                            match m.out {
                                Err(e) => Step::fail(e, n + m.used, m.notes),
                                Ok(arg) => call_args_loop(
                                    j.after(m),
                                    n + m.used,
                                    with_last(args, arg),
                                    false,
                                ),
                            }
                        },
                        TokenView::PropagationOperator => call_args_loop(
                            j,
                            n,
                            with_last(args, propagated(args.last())),
                            false,
                        ),
                        TokenView::OpenParen => {
                            let m = modify_into_fn_call_step(j, args.last());
                            match m.out {
                                Err(e) => Step::fail(e, n + m.used, m.notes),
                                Ok(arg) => call_args_loop(
                                    j.after(m),
                                    n + m.used,
                                    with_last(args, arg),
                                    false,
                                ),
                            }
                        },
                        TokenView::Comma => call_args_loop(j, n, args, true),
                        _ => Step::fail(j.expected("a close parenthesis ')'"@), n, j.notes),
                    }
                },
            }
        },
    }
}

/// Whether one of the arguments has the given name.
pub open spec fn declares(args: Seq<ArgumentView>, name: Seq<char>) -> bool {
    exists|k: int| 0 <= k < args.len() && (#[trigger] args[k]).identifier == name
}

/// What makes a list of declared arguments valid: no name occurs twice, and
/// only the last argument may be a spread one.
pub open spec fn declaration_wf(args: Seq<ArgumentView>) -> bool {
    &&& forall|a: int, b: int|
        0 <= a < b < args.len() ==> (#[trigger] args[a]).identifier != (#[trigger] args[b]).identifier
    &&& forall|a: int| 0 <= a < args.len() && (#[trigger] args[a]).is_spread ==> a == args.len() - 1
}

/// What is said of an argument whose name was declared already.
pub open spec fn duplicate_text(name: Seq<char>) -> Seq<char> {
    "argument '"@ + name + "', function already possesses such an identifier"@
}

/// The argument with the given default value.
pub open spec fn with_default(a: ArgumentView, value: ExprView) -> ArgumentView {
    ArgumentView { is_spread: a.is_spread, identifier: a.identifier, base_value: Some(value) }
}

/// The declared arguments of a function, `used` pulls in, up to the `{`
/// that opens its body. `has_spread` tells that a spread argument was
/// declared, after which no argument may follow, and `awaits_arg` that an
/// argument must come next.
pub open spec fn decl_args_loop(
    i: Input,
    used: nat,
    args: Seq<ArgumentView>,
    has_spread: bool,
    awaits_arg: bool,
) -> Step<Seq<ArgumentView>>
    decreases i.left(),
{
    let t = next_jump_multispace_step(i);
    let j = i.after(t);
    let n = used + t.used;
    match t.out {
        Err(e) => Step::fail(e, n, j.notes),
        Ok(token) => match token {
            TokenView::OpenBrace => Step::ok(args, n, j.notes),
            TokenView::Range => if awaits_arg {
                Step::fail(j.expected("a valid function argument or '{'"@), n, j.notes)
            } else if args.len() == 0 {
                decl_args_loop(j, n, args, has_spread, awaits_arg)
            } else if args.last().base_value is Some {
                Step::fail(j.unknown("token ':' found"@), n, j.notes)
            } else {
                let u = parse_until_step(j, seq![TokenView::Comma, TokenView::OpenBrace]);
                match u.out {
                    Err(e) => Step::fail(e, n + u.used, u.notes),
                    Ok(found) => {
                        let more = super::expr::with_last(args, with_default(args.last(), found.0));
                        if found.1 is OpenBrace {
                            Step::ok(more, n + u.used, u.notes)
                        } else {
                            decl_args_loop(j.after(u), n + u.used, more, has_spread, true)
                        }
                    },
                }
            },
            TokenView::Identifier(name) => if !awaits_arg {
                Step::fail(j.expected("a valid function argument or '{'"@), n, j.notes)
            } else if has_spread {
                Step::fail(
                    j.unknown(
                        "spread argument, a spread argument can only be defined at the end of the arguments list"@,
                    ),
                    n,
                    j.notes,
                )
            } else if declares(args, name) {
                Step::fail(j.unknown(duplicate_text(name)), n, j.notes)
            } else {
                decl_args_loop(
                    j,
                    n,
                    args.push(ArgumentView { is_spread: false, identifier: name, base_value: None }),
                    has_spread,
                    false,
                )
            },
            TokenView::SpreadOperator => if !awaits_arg {
                Step::fail(j.expected("a valid function argument or '{'"@), n, j.notes)
            } else {
                let s = next_token_step(j);
                let k = j.after(s);
                match s.out {
                    Err(e) => Step::fail(e, n + s.used, k.notes),
                    Ok(next) => if has_spread {
                        Step::fail(
                            k.unknown(
                                "spread argument, a function can only have 1 spread argument"@,
                            ),
                            n + s.used,
                            k.notes,
                        )
                    } else {
                        match next {
                            TokenView::Identifier(name) => if declares(args, name) {
                                Step::fail(k.unknown(duplicate_text(name)), n + s.used, k.notes)
                            } else {
                                decl_args_loop(
                                    k,
                                    n + s.used,
                                    args.push(
                                        ArgumentView {
                                            is_spread: true,
                                            identifier: name,
                                            base_value: None,
                                        },
                                    ),
                                    true,
                                    false,
                                )
                            },
                            _ => Step::fail(
                                k.expected("an identifier following the '...'"@),
                                n + s.used,
                                k.notes,
                            ),
                        }
                    },
                }
            },
            TokenView::Comma => if !awaits_arg {
                decl_args_loop(j, n, args, has_spread, true)
            } else {
                Step::fail(j.expected("a valid function argument or '{'"@), n, j.notes)
            },
            _ => Step::fail(j.expected("a valid function argument or '{'"@), n, j.notes),
        },
    }
}

/// The declared arguments of a function, up to the `{` that opens its body.
pub open spec fn parse_declaration_args_step(i: Input) -> Step<Seq<ArgumentView>> {
    decl_args_loop(i, 0, Seq::empty(), false, true)
}

/// A function declaration after its name: the arguments up to the `{`, and
/// the body up to the `}`.
#[verifier::opaque]
pub open spec fn func_step(i: Input, name: Seq<char>) -> Step<StatementView>
    decreases i.left(), 3nat,
{
    let a = parse_declaration_args_step(i);
    match a.out {
        Err(e) => Step::fail(e, a.used, a.notes),
        Ok(arguments) => {
            let b = parse_block_step(i.after(a), Some(TokenView::CloseBrace)).later(a.used);
            match b.out {
                Err(e) => Step::fail(e, b.used, b.notes),
                Ok(body) => Step::ok(
                    StatementView::Func(FuncView { name, arguments, body }),
                    b.used,
                    b.notes,
                ),
            }
        },
    }
}

/// What the argument loop keeps true of its list: it is valid, a spread
/// argument in it was noted, and none is in it while none was noted.
pub open spec fn decl_args_inv(args: Seq<ArgumentView>, has_spread: bool) -> bool {
    &&& declaration_wf(args)
    &&& has_spread ==> args.len() > 0 && args.last().is_spread
    &&& !has_spread ==> forall|a: int| 0 <= a < args.len() ==> !(#[trigger] args[a]).is_spread
}

/// From a valid list, the argument loop ends with a valid list or fails.
pub proof fn lemma_decl_args_loop_wf(
    i: Input,
    used: nat,
    args: Seq<ArgumentView>,
    has_spread: bool,
    awaits_arg: bool,
)
    requires
        decl_args_inv(args, has_spread),
    ensures
        decl_args_loop(i, used, args, has_spread, awaits_arg).out matches Ok(all)
            ==> declaration_wf(all),
    decreases i.left(),
{
    let t = next_jump_multispace_step(i);
    let j = i.after(t);
    let n = used + t.used;
    match t.out {
        Err(e) => {},
        Ok(token) => match token {
            TokenView::OpenBrace => {},
            TokenView::Range => {
                if awaits_arg {
                } else if args.len() == 0 {
                    lemma_decl_args_loop_wf(j, n, args, has_spread, awaits_arg);
                } else if args.last().base_value is Some {
                } else {
                    let u = parse_until_step(j, seq![TokenView::Comma, TokenView::OpenBrace]);
                    match u.out {
                        Err(e) => {},
                        Ok(found) => {
                            let more = super::expr::with_last(
                                args,
                                with_default(args.last(), found.0),
                            );
                            assert(more.len() == args.len());
                            assert(forall|a: int|
                                0 <= a < more.len() ==> (#[trigger] more[a]).identifier
                                    == args[a].identifier && more[a].is_spread
                                    == args[a].is_spread);
                            assert(decl_args_inv(more, has_spread));
                            if !(found.1 is OpenBrace) {
                                lemma_decl_args_loop_wf(j.after(u), n + u.used, more, has_spread, true);
                            }
                        },
                    }
                }
            },
            TokenView::Identifier(name) => {
                if awaits_arg && !has_spread && !declares(args, name) {
                    let more = args.push(
                        ArgumentView { is_spread: false, identifier: name, base_value: None },
                    );
                    assert(decl_args_inv(more, has_spread));
                    lemma_decl_args_loop_wf(j, n, more, has_spread, false);
                }
            },
            TokenView::SpreadOperator => {
                if awaits_arg {
                    let s = next_token_step(j);
                    let k = j.after(s);
                    match s.out {
                        Err(e) => {},
                        Ok(next) => {
                            if !has_spread {
                                match next {
                                    TokenView::Identifier(name) => {
                                        if !declares(args, name) {
                                            let more = args.push(
                                                ArgumentView {
                                                    is_spread: true,
                                                    identifier: name,
                                                    base_value: None,
                                                },
                                            );
                                            assert(decl_args_inv(more, true));
                                            lemma_decl_args_loop_wf(k, n + s.used, more, true, false);
                                        }
                                    },
                                    _ => {},
                                }
                            }
                        },
                    }
                }
            },
            TokenView::Comma => {
                if !awaits_arg {
                    lemma_decl_args_loop_wf(j, n, args, has_spread, true);
                }
            },
            _ => {},
        },
    }
}

/// Every list of declared arguments that the parser accepts is valid: no
/// name is declared twice, at most one argument is a spread one, and it is
/// the last.
pub proof fn lemma_declared_arguments_wf(i: Input)
    ensures
        parse_declaration_args_step(i).out matches Ok(args) ==> declaration_wf(args),
{
    lemma_decl_args_loop_wf(i, 0, Seq::empty(), false, true);
}

/// A function declaration that parses has a valid list of arguments.
pub proof fn lemma_func_arguments_wf(i: Input, name: Seq<char>)
    ensures
        func_step(i, name).out matches Ok(StatementView::Func(f)) ==> declaration_wf(f.arguments),
{
    reveal(func_step);
    lemma_declared_arguments_wf(i);
}

/// Whether one of the arguments has the given name.
pub fn declared(args: &Vec<Argument>, name: &str) -> (r: bool)
    ensures
        r == declares(arguments_model(args@), name@),
{
    let mut k: usize = 0;
    while k < args.len()
        invariant
            k <= args.len(),
            forall|a: int| 0 <= a < k ==> (#[trigger] arguments_model(args@)[a]).identifier != name@,
        decreases args.len() - k,
    {
        if same_text(args[k].identifier, name) {
            assert(arguments_model(args@)[k as int].identifier == name@);
            return true;
        }
        k += 1;
    }
    false
}

impl<'s> Argument<'s> {
    /// An argument without a default value.
    pub fn new(identifier: &'s str, is_spread: bool) -> (r: Self)
        ensures
            r@ == (ArgumentView { is_spread, identifier: identifier@, base_value: None }),
    {
        Self { is_spread, identifier, base_value: None }
    }
}

impl<'s> Func<'s> {
    /// Parses a function declaration: its arguments and its body. The name
    /// is pulled already.
    pub fn parse(parser: &mut AspenParser<'s>, name: &'s str) -> (r: AspenResult<Statement<'s>>)
        requires
            old(parser).wf(),
        ensures
            fails_here(r, final(parser).input()),
            final(parser).follows(old(parser), func_step(old(parser).input(), name@)),
            shows(r, func_step(old(parser).input(), name@).out),
            r matches Ok(Statement::Func(f)) ==> declaration_wf(arguments_model(f.arguments@)),
        decreases old(parser).input().left(), 3nat,
    {
        proof {
            reveal(func_step);
            reveal(parse_block_step);
            lemma_declared_arguments_wf(old(parser).input());
        }
        let arguments = match Func::parse_declaration_args(parser) {
            Ok(a) => a,
            Err(e) => {
                return Err(e);
            },
        };
        match parse_block(parser, Some(Token::CloseBrace)) {
            Ok(body) => Ok(Statement::Func(Func { name, arguments, body: Box::new(body) })),
            Err(e) => Err(e),
        }
    }

    /// Parses the arguments of a function declaration, and the `{` that
    /// opens its body.
    pub fn parse_declaration_args(parser: &mut AspenParser<'s>) -> (r: AspenResult<
        Vec<Argument<'s>>,
    >)
        requires
            old(parser).wf(),
        ensures
            fails_here(r, final(parser).input()),
            final(parser).follows(old(parser), parse_declaration_args_step(old(parser).input())),
            match r {
                Ok(args) => parse_declaration_args_step(old(parser).input()).out == Ok::<
                    Seq<ArgumentView>,
                    super::error::AspenErrorView,
                >(arguments_model(args@)),
                Err(e) => parse_declaration_args_step(old(parser).input()).out == Err::<
                    Seq<ArgumentView>,
                    super::error::AspenErrorView,
                >(e@),
            },
    {
        let ghost start = parser.input();
        let mut args: Vec<Argument<'s>> = Vec::new();
        let mut has_spread = false;
        let mut awaits_arg = true;
        assert(arguments_model(args@) =~= Seq::<ArgumentView>::empty());
        loop
            invariant
                start == old(parser).input(),
                parser.wf(),
                parser.tokens() == start.tokens,
                parser.program() == old(parser).program(),
                parser.pulled() >= start.pulled,
                decl_args_loop(
                    parser.input(),
                    (parser.pulled() - start.pulled) as nat,
                    arguments_model(args@),
                    has_spread,
                    awaits_arg,
                ) == parse_declaration_args_step(start),
            decreases parser.input().left(),
        {
            let token = match next_jump_multispace(parser) {
                Ok(token) => token,
                Err(e) => {
                    return Err(e);
                },
            };
            match token {
                Token::OpenBrace => {
                    return Ok(args);
                },
                Token::Range => {
                    if awaits_arg {
                        return Err(
                            AspenError::expected(
                                parser,
                                String::from_str("a valid function argument or '{'"),
                            ),
                        );
                    } else if args.len() > 0 {
                        let ghost before = args@;
                        let last = args.pop().unwrap();
                        match last.base_value {
                            Some(_) => {
                                return Err(
                                    AspenError::unknown(parser, String::from_str("token ':' found")),
                                );
                            },
                            None => {
                                let stops = [Token::Comma, Token::OpenBrace];
                                assert(token_views(stops@) =~= seq![
                                    TokenView::Comma,
                                    TokenView::OpenBrace,
                                ]);
                                let found = match Expr::parse_until(parser, &stops) {
                                    Ok(found) => found,
                                    Err(e) => {
                                        return Err(e);
                                    },
                                };
                                let ghost value = super::expr_model(*found.0);
                                let arg = Argument {
                                    is_spread: last.is_spread,
                                    identifier: last.identifier,
                                    base_value: Some(found.0),
                                };
                                args.push(arg);
                                assert(arguments_model(args@) =~= super::expr::with_last(
                                    arguments_model(before),
                                    with_default(arguments_model(before).last(), value),
                                ));
                                match found.1 {
                                    Token::OpenBrace => {
                                        return Ok(args);
                                    },
                                    _ => {
                                        awaits_arg = true;
                                    },
                                }
                            },
                        }
                    }
                },
                Token::Identifier(value) => {
                    if !awaits_arg {
                        return Err(
                            AspenError::expected(
                                parser,
                                String::from_str("a valid function argument or '{'"),
                            ),
                        );
                    }
                    if has_spread {
                        return Err(
                            AspenError::unknown(
                                parser,
                                String::from_str(
                                    "spread argument, a spread argument can only be defined at the end of the arguments list",
                                ),
                            ),
                        );
                    }
                    if declared(&args, value) {
                        let text = join3(
                            "argument '",
                            value,
                            "', function already possesses such an identifier",
                        );
                        return Err(AspenError::unknown(parser, text));
                    }
                    let arg = Argument::new(value, false);
                    assert(arguments_model(args@.push(arg)) =~= arguments_model(args@).push(arg@));
                    args.push(arg);
                    awaits_arg = false;
                },
                Token::SpreadOperator => {
                    if !awaits_arg {
                        return Err(
                            AspenError::expected(
                                parser,
                                String::from_str("a valid function argument or '{'"),
                            ),
                        );
                    }
                    let next = match next_token(parser) {
                        Ok(token) => token,
                        Err(e) => {
                            return Err(e);
                        },
                    };
                    if has_spread {
                        return Err(
                            AspenError::unknown(
                                parser,
                                String::from_str(
                                    "spread argument, a function can only have 1 spread argument",
                                ),
                            ),
                        );
                    }
                    match next {
                        Token::Identifier(value) => {
                            if declared(&args, value) {
                                let text = join3(
                                    "argument '",
                                    value,
                                    "', function already possesses such an identifier",
                                );
                                return Err(AspenError::unknown(parser, text));
                            }
                            let arg = Argument::new(value, true);
                            assert(arguments_model(args@.push(arg)) =~= arguments_model(args@).push(
                                arg@,
                            ));
                            args.push(arg);
                        },
                        _ => {
                            return Err(
                                AspenError::expected(
                                    parser,
                                    String::from_str("an identifier following the '...'"),
                                ),
                            );
                        },
                    }
                    has_spread = true;
                    awaits_arg = false;
                },
                Token::Comma => {
                    if !awaits_arg {
                        awaits_arg = true;
                    } else {
                        return Err(
                            AspenError::expected(
                                parser,
                                String::from_str("a valid function argument or '{'"),
                            ),
                        );
                    }
                },
                _ => {
                    return Err(
                        AspenError::expected(
                            parser,
                            String::from_str("a valid function argument or '{'"),
                        ),
                    );
                },
            }
        }
    }

    /// Parses the arguments of a call up to its `)`. The `(` is pulled
    /// already.
    pub fn parse_call_args(parser: &mut AspenParser<'s>) -> (r: AspenResult<Vec<Box<Expr<'s>>>>)
        requires
            old(parser).wf(),
        ensures
            fails_here(r, final(parser).input()),
            final(parser).follows(old(parser), parse_call_args_step(old(parser).input())),
            shows_exprs(r, parse_call_args_step(old(parser).input()).out),
        decreases old(parser).input().left(), 1nat,
    {
        proof {
            reveal(parse_call_args_step);
            reveal(call_args_loop);
        }
        let ghost start = parser.input();
        let mut args: Vec<Box<Expr<'s>>> = Vec::new();
        let mut awaits_arg = true;
        assert(exprs_model(args@) =~= Seq::<ExprView>::empty());
        loop
            invariant
                start == old(parser).input(),
                parser.wf(),
                parser.tokens() == start.tokens,
                parser.program() == old(parser).program(),
                parser.pulled() >= start.pulled,
                call_args_loop(
                    parser.input(),
                    (parser.pulled() - start.pulled) as nat,
                    exprs_model(args@),
                    awaits_arg,
                ) == parse_call_args_step(start),
            decreases parser.input().left(),
        {
            proof {
                reveal(call_args_loop);
            }
            let token = match next_jump_multispace(parser) {
                Ok(token) => token,
                Err(e) => {
                    return Err(e);
                },
            };
            let is_close = match token {
                Token::CloseParen => true,
                _ => false,
            };
            if is_close {
                return Ok(args);
            } else if let Some(text) = token.comment_text() {
                parser.note_comment(text);
            } else if awaits_arg {
                let expr = match Expr::parse_with_token(parser, token) {
                    Ok(e) => e,
                    Err(e) => {
                        return Err(e);
                    },
                };
                let arg = Box::new(expr);
                proof {
                    lemma_exprs_push(args@, arg);
                }
                args.push(arg);
                awaits_arg = false;
            } else {
                match token {
                    Token::Comma => {
                        awaits_arg = true;
                    },
                    Token::Range
                    | Token::Dot
                    | Token::OpenBracket
                    | Token::PropagationOperator
                    | Token::OpenParen => {
                        if args.len() > 0 {
                            let ghost before = args@;
                            let mut last = args.pop().unwrap();
                            let done = match token {
                                Token::Range => Expr::modify_into_range(parser, &mut last),
                                Token::Dot => Expr::modify_into_obj_indexing(parser, &mut last),
                                Token::OpenBracket => Expr::modify_into_array_indexing(
                                    parser,
                                    &mut last,
                                ),
                                Token::PropagationOperator => Expr::modify_into_error_propagation(
                                    parser,
                                    &mut last,
                                ),
                                _ => Expr::modify_into_fn_call(parser, &mut last),
                            };
                            match done {
                                Ok(_) => (),
                                Err(e) => {
                                    return Err(e);
                                },
                            }
                            args.push(last);
                            proof {
                                lemma_exprs_with_last(before, last);
                            }
                        }
                    },
                    _ => {
                        return Err(
                            AspenError::expected(
                                parser,
                                String::from_str("a close parenthesis ')'"),
                            ),
                        );
                    },
                }
            }
        }
    }
}

} // verus!
