use super::block::{parse_block, parse_block_step};
use super::error::{AspenError, AspenResult};
use super::expr::parse_until_step;
use super::utils::{
    expect_space, expect_space_step, expect_token, expect_token_step, Block, BlockView,
};
use super::value::Value;
use super::{
    block_model, expr_model, fails_here, if_model, shows, AspenParser, Expr, ExprView, Input,
    Statement, Step,
};
use crate::lexer::{token_views, Token, TokenView};
use vstd::prelude::*;

verus! {

/// An `if` with its body and what follows it: another `if` introduced by
/// `other`, or a closing `else` block.
#[derive(Debug, PartialEq)]
pub struct If<'a> {
    pub condition: Box<Expr<'a>>,
    pub body: Block<'a>,
    pub other: Option<Box<IfOther<'a>>>,
}

/// One link of the chain that continues an `if`.
#[derive(Debug, PartialEq)]
pub enum IfOther<'a> {
    If(If<'a>),
    Else(Block<'a>),
}

pub struct IfView {
    pub condition: ExprView,
    pub body: BlockView,
    pub other: Option<Box<IfOtherView>>,
}

pub enum IfOtherView {
    If(IfView),
    Else(BlockView),
}

impl IfView {
    /// How many links continue the `if`.
    pub open spec fn chain_len(self) -> nat
        decreases self,
    {
        match self.other {
            None => 0,
            Some(link) => match *link {
                IfOtherView::If(inner) => 1 + inner.chain_len(),
                IfOtherView::Else(_) => 1,
            },
        }
    }

    /// Whether the chain ends with an `else` block.
    pub open spec fn closed(self) -> bool
        decreases self,
    {
        match self.other {
            None => false,
            Some(link) => match *link {
                IfOtherView::If(inner) => inner.closed(),
                IfOtherView::Else(_) => true,
            },
        }
    }

    /// The last link of the chain, where it has one.
    pub open spec fn last_link(self) -> Option<IfOtherView>
        decreases self,
    {
        match self.other {
            None => None,
            Some(link) => match *link {
                IfOtherView::If(inner) => if inner.other is None {
                    Some(*link)
                } else {
                    inner.last_link()
                },
                IfOtherView::Else(_) => Some(*link),
            },
        }
    }

    /// The `if` with `link` added at the end of its chain. A chain that ends
    /// with an `else` takes no further link.
    pub open spec fn extended(self, link: IfOtherView) -> Option<IfView>
        decreases self,
    {
        match self.other {
            None => Some(
                IfView { condition: self.condition, body: self.body, other: Some(Box::new(link)) },
            ),
            Some(next) => match *next {
                IfOtherView::If(inner) => match inner.extended(link) {
                    Some(longer) => Some(
                        IfView {
                            condition: self.condition,
                            body: self.body,
                            other: Some(Box::new(IfOtherView::If(longer))),
                        },
                    ),
                    None => None,
                },
                IfOtherView::Else(_) => None,
            },
        }
    }
}

impl IfOtherView {
    /// A link that brings no chain of its own: an `else` block, or an `if`
    /// that nothing continues yet.
    pub open spec fn single(self) -> bool {
        match self {
            IfOtherView::If(inner) => inner.other is None,
            IfOtherView::Else(_) => true,
        }
    }
}

/// Adding a link succeeds exactly on a chain that no `else` closes. The
/// `if` keeps its condition and its body; a single link makes the chain
/// longer by one and is then its last link; and an `else` closes the chain.
pub proof fn lemma_extended(i: IfView, link: IfOtherView)
    ensures
        i.extended(link) is Some <==> !i.closed(),
        i.extended(link) matches Some(longer) ==> {
            &&& longer.condition == i.condition
            &&& longer.body == i.body
            &&& link.single() ==> longer.chain_len() == i.chain_len() + 1
            &&& link.single() ==> longer.last_link() == Some(link)
            &&& link is Else ==> longer.closed()
        },
    decreases i,
{
    match i.other {
        None => {
            let longer = i.extended(link)->Some_0;
            match link {
                IfOtherView::If(inner) => {
                    assert(link.single() ==> inner.chain_len() == 0);
                },
                IfOtherView::Else(_) => {},
            }
        },
        Some(next) => match *next {
            IfOtherView::If(inner) => {
                lemma_extended(inner, link);
                match inner.extended(link) {
                    Some(grown) => {
                        let longer = i.extended(link)->Some_0;
                        assert(longer.other == Some(Box::new(IfOtherView::If(grown))));
                        assert(grown.other is Some);
                    },
                    None => {},
                }
            },
            IfOtherView::Else(_) => {},
        },
    }
}

/// What is said when a link follows a chain that an `else` closes.
pub open spec fn closed_chain_text() -> Seq<char> {
    "'other' block found, the 'if' statement already possesses an 'else' clause"@
}

/// A condition and a body: one expression up to the `{`, then a block up to
/// the `}`.
#[verifier::opaque]
pub open spec fn guarded_block_step(i: Input) -> Step<(ExprView, BlockView)>
    decreases i.left(), 2nat,
{
    let c = parse_until_step(i, seq![TokenView::OpenBrace]);
    match c.out {
        Err(e) => Step::fail(e, c.used, c.notes),
        Ok(found) => {
            let b = parse_block_step(i.after(c), Some(TokenView::CloseBrace)).later(c.used);
            match b.out {
                Err(e) => Step::fail(e, b.used, b.notes),
                Ok(body) => Step::ok((found.0, body), b.used, b.notes),
            }
        },
    }
}

/// An `if` after its keyword: a blank, the condition up to the `{`, and the
/// body up to the `}`.
#[verifier::opaque]
pub open spec fn if_step(i: Input) -> Step<IfView>
    decreases i.left(), 3nat,
{
    let sp = expect_space_step(i);
    match sp.out {
        Err(e) => Step::fail(e, sp.used, sp.notes),
        Ok(_) => {
            let g = guarded_block_step(i.after(sp)).later(sp.used);
            match g.out {
                Err(e) => Step::fail(e, g.used, g.notes),
                Ok(parts) => Step::ok(
                    IfView { condition: parts.0, body: parts.1, other: None },
                    g.used,
                    g.notes,
                ),
            }
        },
    }
}

/// An `else` after its keyword: the `{`, and the body up to the `}`.
#[verifier::opaque]
pub open spec fn parse_else_step(i: Input) -> Step<IfOtherView>
    decreases i.left(), 3nat,
{
    let open = expect_token_step(i, TokenView::OpenBrace);
    match open.out {
        Err(e) => Step::fail(e, open.used, open.notes),
        Ok(_) => {
            let b = parse_block_step(i.after(open), Some(TokenView::CloseBrace)).later(open.used);
            match b.out {
                Err(e) => Step::fail(e, b.used, b.notes),
                Ok(body) => Step::ok(IfOtherView::Else(body), b.used, b.notes),
            }
        },
    }
}

/// [`shows`] for an `if`.
pub open spec fn shows_if(
    r: Result<If, AspenError>,
    out: Result<IfView, super::error::AspenErrorView>,
) -> bool {
    match r {
        Ok(v) => out == Ok::<IfView, super::error::AspenErrorView>(if_model(v)),
        Err(e) => out == Err::<IfView, super::error::AspenErrorView>(e@),
    }
}

/// Whether an `else` closes the chain of `i`.
pub fn chain_closed(i: &If) -> (r: bool)
    ensures
        r == i@.closed(),
    decreases i,
{
    match &i.other {
        None => false,
        Some(link) => match &**link {
            IfOther::If(inner) => chain_closed(inner),
            IfOther::Else(_) => true,
        },
    }
}

/// Adds `link` at the end of the chain of `i`, which no `else` closes.
pub fn chain_extended<'a>(i: If<'a>, link: IfOther<'a>) -> (r: If<'a>)
    requires
        !i@.closed(),
    ensures
        Some(r@) == i@.extended(link@),
    decreases i,
{
    let If { condition, body, other } = i;
    match other {
        None => If { condition, body, other: Some(Box::new(link)) },
        Some(next) => match *next {
            IfOther::If(inner) => {
                let longer = chain_extended(inner, link);
                If { condition, body, other: Some(Box::new(IfOther::If(longer))) }
            },
            IfOther::Else(b) => If { condition, body, other: Some(Box::new(IfOther::Else(b))) },
        },
    }
}

/// Parses a condition up to the `{` and a body up to the `}`.
pub fn parse_guarded_block<'s>(parser: &mut AspenParser<'s>) -> (r: AspenResult<
    (Box<Expr<'s>>, Block<'s>),
>)
    requires
        old(parser).wf(),
    ensures
        fails_here(r, final(parser).input()),
        final(parser).follows(old(parser), guarded_block_step(old(parser).input())),
        match r {
            Ok(parts) => guarded_block_step(old(parser).input()).out == Ok::<
                (ExprView, BlockView),
                super::error::AspenErrorView,
            >((expr_model(*parts.0), block_model(parts.1))),
            Err(e) => guarded_block_step(old(parser).input()).out == Err::<
                (ExprView, BlockView),
                super::error::AspenErrorView,
            >(e@),
        },
    decreases old(parser).input().left(), 2nat,
{
    proof {
        reveal(guarded_block_step);
        reveal(parse_block_step);
    }
    let stops = [Token::OpenBrace];
    assert(token_views(stops@) =~= seq![TokenView::OpenBrace]);
    let found = match Expr::parse_until(parser, &stops) {
        Ok(found) => found,
        Err(e) => {
            return Err(e);
        },
    };
    match parse_block(parser, Some(Token::CloseBrace)) {
        Ok(body) => Ok((found.0, body)),
        Err(e) => Err(e),
    }
}

impl<'s> If<'s> {
    /// Parses an `if` and its body. The keyword is pulled already.
    pub fn parse_if(parser: &mut AspenParser<'s>) -> (r: AspenResult<If<'s>>)
        requires
            old(parser).wf(),
        ensures
            fails_here(r, final(parser).input()),
            final(parser).follows(old(parser), if_step(old(parser).input())),
            shows_if(r, if_step(old(parser).input()).out),
        decreases old(parser).input().left(), 3nat,
    {
        proof {
            reveal(if_step);
            reveal(guarded_block_step);
        }
        match expect_space(parser) {
            Ok(_) => (),
            Err(e) => {
                return Err(e);
            },
        }
        match parse_guarded_block(parser) {
            Ok(parts) => Ok(If { condition: parts.0, body: parts.1, other: None }),
            Err(e) => Err(e),
        }
    }

    /// Parses an `if` statement. The `if` is pulled already.
    pub fn parse(parser: &mut AspenParser<'s>) -> (r: AspenResult<Statement<'s>>)
        requires
            old(parser).wf(),
        ensures
            fails_here(r, final(parser).input()),
            final(parser).follows(old(parser), if_step(old(parser).input())),
            match r {
                Ok(s) => s@ is If && if_step(old(parser).input()).out == Ok::<
                    IfView,
                    super::error::AspenErrorView,
                >(s@->If_0),
                Err(e) => if_step(old(parser).input()).out == Err::<
                    IfView,
                    super::error::AspenErrorView,
                >(e@),
            },
        decreases old(parser).input().left(), 4nat,
    {
        proof {
            reveal(if_step);
        }
        match Self::parse_if(parser) {
            Ok(i) => Ok(Statement::If(i)),
            Err(e) => Err(e),
        }
    }

    /// Parses the `if` that an `other` introduces. The `other` is pulled
    /// already.
    pub fn parse_other(parser: &mut AspenParser<'s>) -> (r: AspenResult<IfOther<'s>>)
        requires
            old(parser).wf(),
        ensures
            fails_here(r, final(parser).input()),
            final(parser).follows(old(parser), if_step(old(parser).input())),
            match r {
                Ok(link) => link@ is If && if_step(old(parser).input()).out == Ok::<
                    IfView,
                    super::error::AspenErrorView,
                >(link@->If_0),
                Err(e) => if_step(old(parser).input()).out == Err::<
                    IfView,
                    super::error::AspenErrorView,
                >(e@),
            },
        decreases old(parser).input().left(), 4nat,
    {
        proof {
            reveal(if_step);
        }
        match Self::parse_if(parser) {
            Ok(i) => Ok(IfOther::If(i)),
            Err(e) => Err(e),
        }
    }

    /// Parses the block of an `else`. The `else` is pulled already.
    pub fn parse_else(parser: &mut AspenParser<'s>) -> (r: AspenResult<IfOther<'s>>)
        requires
            old(parser).wf(),
        ensures
            fails_here(r, final(parser).input()),
            final(parser).follows(old(parser), parse_else_step(old(parser).input())),
            shows(r, parse_else_step(old(parser).input()).out),
        decreases old(parser).input().left(), 3nat,
    {
        proof {
            reveal(parse_else_step);
            reveal(parse_block_step);
        }
        match expect_token(parser, Token::OpenBrace) {
            Ok(_) => (),
            Err(e) => {
                return Err(e);
            },
        }
        match parse_block(parser, Some(Token::CloseBrace)) {
            Ok(body) => Ok(IfOther::Else(body)),
            Err(e) => Err(e),
        }
    }

    /// Adds a link at the end of the chain that continues this `if`. Fails,
    /// and leaves the `if` as it is, where an `else` closes the chain.
    pub fn add_other_at_if_end(&mut self, parser: &AspenParser, other_value: IfOther<'s>) -> (r:
        AspenResult<()>)
        requires
            parser.wf(),
        ensures
            match r {
                Ok(_) => Some(final(self)@) == old(self)@.extended(other_value@),
                Err(e) => old(self)@.extended(other_value@) is None && *final(self) == *old(self)
                    && e@ == parser.input().unknown(closed_chain_text()),
            },
    {
        proof {
            lemma_extended(self@, other_value@);
        }
        if chain_closed(self) {
            Err(
                AspenError::unknown(
                    parser,
                    String::from_str(
                        "'other' block found, the 'if' statement already possesses an 'else' clause",
                    ),
                ),
            )
        } else {
            let mut taken = If {
                condition: Box::new(Expr::Value(Value::Nil)),
                body: Block { statements: Vec::new() },
                other: None,
            };
            std::mem::swap(self, &mut taken);
            *self = chain_extended(taken, other_value);
            Ok(())
        }
    }
}

} // verus!
