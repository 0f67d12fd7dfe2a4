//! The token model and the cursor that hands tokens to the parser one at a time.

use crate::parser::operator::{AssignOperator, BinaryOperator};
use vstd::prelude::*;

verus! {

/// A lexical unit. Text payloads borrow from the source buffer; a number
/// carries its literal as it was written, so no digit is lost.
#[derive(Debug, Clone, Copy, PartialEq)]
pub enum Token<'a> {
    Newline,
    Spaces,
    Comma,
    SemiColon,
    OpenBrace,
    CloseBrace,
    OpenBracket,
    CloseBracket,
    OpenParen,
    CloseParen,
    In,
    Nil,
    If,
    /// The `other` / `otherwise` keyword that continues an `if`.
    Other,
    Else,
    Import,
    Return,
    Let,
    For,
    While,
    SpreadOperator,
    StringSeparator,
    Dot,
    Range,
    PropagationOperator,
    LineComment(&'a str),
    DocComment(&'a str),
    MultiLineComment(&'a str),
    Func(&'a str),
    Identifier(&'a str),
    String(&'a str),
    Bool(bool),
    Int(&'a str),
    Float(&'a str),
    ObjectKey(&'a str),
    AssignOperator(AssignOperator),
    BinaryOperator(BinaryOperator),
}

/// A [`Token`] with its text payloads as sequences of characters.
pub enum TokenView {
    Newline,
    Spaces,
    Comma,
    SemiColon,
    OpenBrace,
    CloseBrace,
    OpenBracket,
    CloseBracket,
    OpenParen,
    CloseParen,
    In,
    Nil,
    If,
    Other,
    Else,
    Import,
    Return,
    Let,
    For,
    While,
    SpreadOperator,
    StringSeparator,
    Dot,
    Range,
    PropagationOperator,
    LineComment(Seq<char>),
    DocComment(Seq<char>),
    MultiLineComment(Seq<char>),
    Func(Seq<char>),
    Identifier(Seq<char>),
    String(Seq<char>),
    Bool(bool),
    Int(Seq<char>),
    Float(Seq<char>),
    ObjectKey(Seq<char>),
    AssignOperator(AssignOperator),
    BinaryOperator(BinaryOperator),
}

impl<'a> View for Token<'a> {
    type V = TokenView;

    open spec fn view(&self) -> TokenView {
        match self {
            Token::Newline => TokenView::Newline,
            Token::Spaces => TokenView::Spaces,
            Token::Comma => TokenView::Comma,
            Token::SemiColon => TokenView::SemiColon,
            Token::OpenBrace => TokenView::OpenBrace,
            Token::CloseBrace => TokenView::CloseBrace,
            Token::OpenBracket => TokenView::OpenBracket,
            Token::CloseBracket => TokenView::CloseBracket,
            Token::OpenParen => TokenView::OpenParen,
            Token::CloseParen => TokenView::CloseParen,
            Token::In => TokenView::In,
            Token::Nil => TokenView::Nil,
            Token::If => TokenView::If,
            Token::Other => TokenView::Other,
            Token::Else => TokenView::Else,
            Token::Import => TokenView::Import,
            Token::Return => TokenView::Return,
            Token::Let => TokenView::Let,
            Token::For => TokenView::For,
            Token::While => TokenView::While,
            Token::SpreadOperator => TokenView::SpreadOperator,
            Token::StringSeparator => TokenView::StringSeparator,
            Token::Dot => TokenView::Dot,
            Token::Range => TokenView::Range,
            Token::PropagationOperator => TokenView::PropagationOperator,
            Token::LineComment(s) => TokenView::LineComment(s@),
            Token::DocComment(s) => TokenView::DocComment(s@),
            Token::MultiLineComment(s) => TokenView::MultiLineComment(s@),
            Token::Func(s) => TokenView::Func(s@),
            Token::Identifier(s) => TokenView::Identifier(s@),
            Token::String(s) => TokenView::String(s@),
            Token::Bool(b) => TokenView::Bool(*b),
            Token::Int(s) => TokenView::Int(s@),
            Token::Float(s) => TokenView::Float(s@),
            Token::ObjectKey(s) => TokenView::ObjectKey(s@),
            Token::AssignOperator(op) => TokenView::AssignOperator(*op),
            Token::BinaryOperator(op) => TokenView::BinaryOperator(*op),
        }
    }
}

impl TokenView {
    /// A run of spaces or a line break.
    pub open spec fn is_blank(self) -> bool {
        self is Spaces || self is Newline
    }

    /// The body of a line, doc or block comment.
    pub open spec fn comment_text(self) -> Option<Seq<char>> {
        match self {
            TokenView::LineComment(s) => Some(s),
            TokenView::DocComment(s) => Some(s),
            TokenView::MultiLineComment(s) => Some(s),
            _ => None,
        }
    }

    /// The name of the token's kind, followed by its payload in parentheses
    /// where it has one: how diagnostics name a token that was wanted.
    pub open spec fn describe(self) -> Seq<char> {
        match self {
            TokenView::Newline => "Newline"@,
            TokenView::Spaces => "Spaces"@,
            TokenView::Comma => "Comma"@,
            TokenView::SemiColon => "SemiColon"@,
            TokenView::OpenBrace => "OpenBrace"@,
            TokenView::CloseBrace => "CloseBrace"@,
            TokenView::OpenBracket => "OpenBracket"@,
            TokenView::CloseBracket => "CloseBracket"@,
            TokenView::OpenParen => "OpenParen"@,
            TokenView::CloseParen => "CloseParen"@,
            TokenView::In => "In"@,
            TokenView::Nil => "Nil"@,
            TokenView::If => "If"@,
            TokenView::Other => "Other"@,
            TokenView::Else => "Else"@,
            TokenView::Import => "Import"@,
            TokenView::Return => "Return"@,
            TokenView::Let => "Let"@,
            TokenView::For => "For"@,
            TokenView::While => "While"@,
            TokenView::SpreadOperator => "SpreadOperator"@,
            TokenView::StringSeparator => "StringSeparator"@,
            TokenView::Dot => "Dot"@,
            TokenView::Range => "Range"@,
            TokenView::PropagationOperator => "PropagationOperator"@,
            TokenView::LineComment(s) => "LineComment("@ + s + ")"@,
            TokenView::DocComment(s) => "DocComment("@ + s + ")"@,
            TokenView::MultiLineComment(s) => "MultiLineComment("@ + s + ")"@,
            TokenView::Func(s) => "Func("@ + s + ")"@,
            TokenView::Identifier(s) => "Identifier("@ + s + ")"@,
            TokenView::String(s) => "String("@ + s + ")"@,
            TokenView::Bool(b) => if b {
                "Bool(true)"@
            } else {
                "Bool(false)"@
            },
            TokenView::Int(s) => "Int("@ + s + ")"@,
            TokenView::Float(s) => "Float("@ + s + ")"@,
            TokenView::ObjectKey(s) => "ObjectKey("@ + s + ")"@,
            TokenView::AssignOperator(op) => "AssignOperator("@ + op.symbol_text() + ")"@,
            TokenView::BinaryOperator(op) => "BinaryOperator("@ + op.symbol_text() + ")"@,
        }
    }
}

/// `str`'s `==`: true exactly when the two slices hold the same characters.
#[verifier::external_body]
pub(crate) fn same_text(a: &str, b: &str) -> (r: bool)
    ensures
        r == (a@ == b@),
{
    a == b
}

/// The three texts one after the other.
pub fn join3(a: &str, b: &str, c: &str) -> (r: String)
    ensures
        r@ == a@ + b@ + c@,
{
    let mut out = String::from_str(a);
    out.append(b);
    out.append(c);
    out
}

impl<'a> Token<'a> {
    /// Whether the two tokens are of one kind and carry the same payload.
    pub fn same(&self, other: &Token<'a>) -> (r: bool)
        ensures
            r == (self@ == other@),
    {
        match (*self, *other) {
            (Token::Newline, Token::Newline) => true,
            (Token::Spaces, Token::Spaces) => true,
            (Token::Comma, Token::Comma) => true,
            (Token::SemiColon, Token::SemiColon) => true,
            (Token::OpenBrace, Token::OpenBrace) => true,
            (Token::CloseBrace, Token::CloseBrace) => true,
            (Token::OpenBracket, Token::OpenBracket) => true,
            (Token::CloseBracket, Token::CloseBracket) => true,
            (Token::OpenParen, Token::OpenParen) => true,
            (Token::CloseParen, Token::CloseParen) => true,
            (Token::In, Token::In) => true,
            (Token::Nil, Token::Nil) => true,
            (Token::If, Token::If) => true,
            (Token::Other, Token::Other) => true,
            (Token::Else, Token::Else) => true,
            (Token::Import, Token::Import) => true,
            (Token::Return, Token::Return) => true,
            (Token::Let, Token::Let) => true,
            (Token::For, Token::For) => true,
            (Token::While, Token::While) => true,
            (Token::SpreadOperator, Token::SpreadOperator) => true,
            (Token::StringSeparator, Token::StringSeparator) => true,
            (Token::Dot, Token::Dot) => true,
            (Token::Range, Token::Range) => true,
            (Token::PropagationOperator, Token::PropagationOperator) => true,
            (Token::LineComment(a), Token::LineComment(b)) => same_text(a, b),
            (Token::DocComment(a), Token::DocComment(b)) => same_text(a, b),
            (Token::MultiLineComment(a), Token::MultiLineComment(b)) => same_text(a, b),
            (Token::Func(a), Token::Func(b)) => same_text(a, b),
            (Token::Identifier(a), Token::Identifier(b)) => same_text(a, b),
            (Token::String(a), Token::String(b)) => same_text(a, b),
            (Token::Bool(a), Token::Bool(b)) => a == b,
            (Token::Int(a), Token::Int(b)) => same_text(a, b),
            (Token::Float(a), Token::Float(b)) => same_text(a, b),
            (Token::ObjectKey(a), Token::ObjectKey(b)) => same_text(a, b),
            (Token::AssignOperator(a), Token::AssignOperator(b)) => a == b,
            (Token::BinaryOperator(a), Token::BinaryOperator(b)) => a == b,
            _ => false,
        }
    }

    /// The body of a line, doc or block comment.
    pub fn comment_text(&self) -> (r: Option<&'a str>)
        ensures
            match r {
                Some(text) => self@.comment_text() == Some(text@),
                None => self@.comment_text() is None,
            },
    {
        match *self {
            Token::LineComment(s) => Some(s),
            Token::DocComment(s) => Some(s),
            Token::MultiLineComment(s) => Some(s),
            _ => None,
        }
    }

    /// A run of spaces or a line break.
    pub fn is_blank(&self) -> (r: bool)
        ensures
            r == self@.is_blank(),
    {
        match self {
            Token::Spaces | Token::Newline => true,
            _ => false,
        }
    }

    /// The name of the token's kind, followed by its payload in parentheses
    /// where it has one.
    pub fn describe(&self) -> (r: String)
        ensures
            r@ == self@.describe(),
    {
        match *self {
            Token::Newline => String::from_str("Newline"),
            Token::Spaces => String::from_str("Spaces"),
            Token::Comma => String::from_str("Comma"),
            Token::SemiColon => String::from_str("SemiColon"),
            Token::OpenBrace => String::from_str("OpenBrace"),
            Token::CloseBrace => String::from_str("CloseBrace"),
            Token::OpenBracket => String::from_str("OpenBracket"),
            Token::CloseBracket => String::from_str("CloseBracket"),
            Token::OpenParen => String::from_str("OpenParen"),
            Token::CloseParen => String::from_str("CloseParen"),
            Token::In => String::from_str("In"),
            Token::Nil => String::from_str("Nil"),
            Token::If => String::from_str("If"),
            Token::Other => String::from_str("Other"),
            Token::Else => String::from_str("Else"),
            Token::Import => String::from_str("Import"),
            Token::Return => String::from_str("Return"),
            Token::Let => String::from_str("Let"),
            Token::For => String::from_str("For"),
            Token::While => String::from_str("While"),
            Token::SpreadOperator => String::from_str("SpreadOperator"),
            Token::StringSeparator => String::from_str("StringSeparator"),
            Token::Dot => String::from_str("Dot"),
            Token::Range => String::from_str("Range"),
            Token::PropagationOperator => String::from_str("PropagationOperator"),
            Token::LineComment(s) => join3("LineComment(", s, ")"),
            Token::DocComment(s) => join3("DocComment(", s, ")"),
            Token::MultiLineComment(s) => join3("MultiLineComment(", s, ")"),
            Token::Func(s) => join3("Func(", s, ")"),
            Token::Identifier(s) => join3("Identifier(", s, ")"),
            Token::String(s) => join3("String(", s, ")"),
            Token::Bool(b) => if b {
                String::from_str("Bool(true)")
            } else {
                String::from_str("Bool(false)")
            },
            Token::Int(s) => join3("Int(", s, ")"),
            Token::Float(s) => join3("Float(", s, ")"),
            Token::ObjectKey(s) => join3("ObjectKey(", s, ")"),
            Token::AssignOperator(op) => join3("AssignOperator(", op.symbol(), ")"),
            Token::BinaryOperator(op) => join3("BinaryOperator(", op.symbol(), ")"),
        }
    }
}

/// What a list of tokens stands for, in order.
pub open spec fn token_views(tokens: Seq<Token>) -> Seq<TokenView> {
    Seq::new(tokens.len(), |i: int| tokens[i]@)
}

/// Whether `token` is one of `tokens`.
pub fn listed<'a>(tokens: &[Token<'a>], token: &Token<'a>) -> (r: bool)
    ensures
        r == token_views(tokens@).contains(token@),
{
    let mut i: usize = 0;
    while i < tokens.len()
        invariant
            i <= tokens.len(),
            forall|j: int| 0 <= j < i ==> token_views(tokens@)[j] != token@,
        decreases tokens.len() - i,
    {
        if tokens[i].same(token) {
            assert(token_views(tokens@)[i as int] == token@);
            return true;
        }
        i += 1;
    }
    false
}

/// The lexer met text that is no token.
#[derive(Debug, Clone, Copy, PartialEq, Eq, Structural)]
pub struct LexingError();

impl Default for LexingError {
    fn default() -> (r: LexingError)
        ensures
            r == LexingError(),
    {
        LexingError()
    }
}

impl LexingError {
    pub open spec fn message_text() -> Seq<char> {
        "Failed to lex: Unexpected token!"@
    }

    /// The sentence shown to the user.
    pub fn message(&self) -> (r: &'static str)
        ensures
            r@ == Self::message_text(),
    {
        "Failed to lex: Unexpected token!"
    }
}

/// A pair of byte offsets into the source buffer.
#[derive(Debug, Clone, Copy, PartialEq, Eq, Structural)]
pub struct Span {
    pub start: usize,
    pub end: usize,
}

/// One step of the lexer: the token it recognised, or its failure, with the
/// text it matched and where that text lies in the source.
#[derive(Debug, Clone, Copy, PartialEq)]
pub struct Lexeme<'s> {
    pub token: Result<Token<'s>, LexingError>,
    pub start: usize,
    pub end: usize,
    pub slice: &'s str,
}

/// A [`Lexeme`] with its texts as sequences of characters.
pub struct LexemeView {
    pub token: Result<TokenView, LexingError>,
    pub start: usize,
    pub end: usize,
    pub slice: Seq<char>,
}

impl<'s> View for Lexeme<'s> {
    type V = LexemeView;

    open spec fn view(&self) -> LexemeView {
        LexemeView {
            token: match self.token {
                Ok(t) => Ok(t@),
                Err(e) => Err(e),
            },
            start: self.start,
            end: self.end,
            slice: self.slice@,
        }
    }
}

impl<'s> Lexeme<'s> {
    pub fn new(token: Result<Token<'s>, LexingError>, start: usize, end: usize, slice: &'s str) -> (r:
        Self)
        ensures
            r == (Lexeme { token, start, end, slice }),
    {
        Lexeme { token, start, end, slice }
    }
}

/// Where the source text ends: the end of the last lexeme.
pub open spec fn stream_end(ts: Seq<LexemeView>) -> usize {
    if ts.len() == 0 {
        0
    } else {
        ts.last().end
    }
}

/// The span of the lexeme pulled last, after `pulled` pulls: empty at offset
/// zero before the first pull, and empty at the end of the source once a pull
/// has found the stream empty.
pub open spec fn current_span(ts: Seq<LexemeView>, pulled: nat) -> Span {
    if pulled == 0 {
        Span { start: 0, end: 0 }
    } else if pulled <= ts.len() {
        Span { start: ts[pulled - 1].start, end: ts[pulled - 1].end }
    } else {
        Span { start: stream_end(ts), end: stream_end(ts) }
    }
}

/// The text of the lexeme pulled last, after `pulled` pulls; empty where
/// [`current_span`] is empty.
pub open spec fn current_slice(ts: Seq<LexemeView>, pulled: nat) -> Seq<char> {
    if 0 < pulled <= ts.len() {
        ts[pulled - 1].slice
    } else {
        Seq::empty()
    }
}

/// The number of bytes that a text takes in the source buffer.
pub open spec fn byte_len(text: Seq<char>) -> usize {
    vstd::utf8::encode_utf8(text).len() as usize
}

/// What one pull does to the count of pulls: one more while lexemes are left,
/// and one past their number from then on.
pub open spec fn pull_count(ts: Seq<LexemeView>, pulled: nat) -> nat {
    if pulled < ts.len() {
        pulled + 1
    } else {
        ts.len() + 1
    }
}

/// A cursor over the lexemes of one source text. It hands them out in order
/// and remembers the span and text of the one handed out last.
#[derive(Debug)]
pub struct AspenLexer<'s> {
    tokens: Vec<Lexeme<'s>>,
    pos: usize,
    exhausted: bool,
}

impl<'s> AspenLexer<'s> {
    /// All the lexemes of the source, pulled or not.
    pub closed spec fn lexemes(&self) -> Seq<LexemeView> {
        Seq::new(self.tokens@.len(), |i: int| self.tokens@[i]@)
    }

    /// How many pulls were made, the one that found the stream empty included.
    pub closed spec fn pulled(&self) -> nat {
        if self.exhausted {
            (self.pos + 1) as nat
        } else {
            self.pos as nat
        }
    }

    /// The cursor lies within the stream, or one past it.
    pub closed spec fn wf(&self) -> bool {
        &&& self.pos <= self.tokens@.len()
        &&& self.exhausted ==> self.pos == self.tokens@.len()
    }

    pub proof fn lemma_wf_bound(&self)
        requires
            self.wf(),
        ensures
            self.pulled() <= self.lexemes().len() + 1,
    {
    }

    /// A cursor before the first of `tokens`.
    pub fn new(tokens: Vec<Lexeme<'s>>) -> (r: Self)
        ensures
            r.wf(),
            r.pulled() == 0,
            r.lexemes().len() == tokens@.len(),
            forall|i: int| 0 <= i < tokens@.len() ==> r.lexemes()[i] == tokens@[i]@,
    {
        AspenLexer { tokens, pos: 0, exhausted: false }
    }

    /// Pulls the next lexeme: its token or its lexing failure, or `None` when
    /// none is left.
    pub fn next(&mut self) -> (r: Option<Result<Token<'s>, LexingError>>)
        requires
            old(self).wf(),
        ensures
            final(self).wf(),
            final(self).lexemes() == old(self).lexemes(),
            final(self).pulled() == pull_count(old(self).lexemes(), old(self).pulled()),
            old(self).pulled() < old(self).lexemes().len() ==> (match r {
                Some(Ok(t)) => old(self).lexemes()[old(self).pulled() as int].token == Ok::<
                    TokenView,
                    LexingError,
                >(t@),
                Some(Err(e)) => old(self).lexemes()[old(self).pulled() as int].token == Err::<
                    TokenView,
                    LexingError,
                >(e),
                None => false,
            }),
            old(self).pulled() >= old(self).lexemes().len() ==> r is None,
    {
        if self.pos < self.tokens.len() {
            let lexeme = self.tokens[self.pos];
            self.pos = self.pos + 1;
            Some(lexeme.token)
        } else {
            self.exhausted = true;
            None
        }
    }

    /// The byte span of the lexeme pulled last.
    pub fn span(&self) -> (r: Span)
        requires
            self.wf(),
        ensures
            r == current_span(self.lexemes(), self.pulled()),
    {
        if self.exhausted {
            let n = self.tokens.len();
            if n == 0 {
                Span { start: 0, end: 0 }
            } else {
                let e = self.tokens[n - 1].end;
                Span { start: e, end: e }
            }
        } else if self.pos == 0 {
            Span { start: 0, end: 0 }
        } else {
            let l = &self.tokens[self.pos - 1];
            Span { start: l.start, end: l.end }
        }
    }

    /// The source text of the lexeme pulled last.
    pub fn slice(&self) -> (r: &'s str)
        requires
            self.wf(),
        ensures
            r@ == current_slice(self.lexemes(), self.pulled()),
    {
        if self.exhausted || self.pos == 0 {
            proof {
                reveal_strlit("");
            }
            assert(""@ =~= Seq::<char>::empty());
            ""
        } else {
            self.tokens[self.pos - 1].slice
        }
    }

    /// How many lexemes the source has.
    pub fn len(&self) -> (r: usize)
        ensures
            r == self.lexemes().len(),
    {
        self.tokens.len()
    }
}

} // verus!
