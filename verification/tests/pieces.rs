use aspen::errors::{build_report, Report};
use aspen::evaluate::error::EvaluateError;
use aspen::evaluate::types::AspenType;
use aspen::lexer::{join3, listed, AspenLexer, Lexeme, LexingError, Span, Token};
use aspen::parser::comment::Comment;
use aspen::parser::conditional::{chain_closed, chain_extended, If, IfOther};
use aspen::parser::error::AspenError;
use aspen::parser::func::{declared, Argument};
use aspen::parser::graft::{
    binary_into, range_fits, range_into, take_expr, Postfix, RangeRefusal,
};
use aspen::parser::import::Import;
use aspen::parser::operator::{AssignOperator, BinaryOperator};
use aspen::parser::return_stmt::Return;
use aspen::parser::utils::{
    expect_newline, expect_space, expect_token, next_jump_multispace, next_jump_space, next_token,
    Block, TokenOption,
};
use aspen::parser::value::{parse_value, parse_value_or_return_token, Value};
use aspen::parser::var::{clone_names, Var, Variables};
use aspen::parser::{
    clone_block, clone_expr, clone_statement, AspenParser, Expr, Statement,
};

/// A parser over the given tokens, each with its text, laid one after the
/// other from offset zero.
fn parser_of<'a>(parts: &[(Token<'a>, &'a str)]) -> AspenParser<'a> {
    let mut at = 0;
    let mut lexemes = Vec::new();
    for (token, text) in parts {
        lexemes.push(Lexeme::new(Ok(*token), at, at + text.len(), text));
        at += text.len();
    }
    AspenParser::new(AspenLexer::new(lexemes))
}

fn id(name: &str) -> Expr<'_> {
    Expr::Id(name)
}

fn num(digits: &str) -> Expr<'_> {
    Expr::Value(Value::Int(digits))
}

#[test]
fn binary_operator_precedence_ranks() {
    assert_eq!(BinaryOperator::Exponent.get_precedence(), 4);
    assert_eq!(BinaryOperator::Times.get_precedence(), 3);
    assert_eq!(BinaryOperator::Divide.get_precedence(), 3);
    assert_eq!(BinaryOperator::Modulo.get_precedence(), 3);
    assert_eq!(BinaryOperator::Plus.get_precedence(), 2);
    assert_eq!(BinaryOperator::Sub.get_precedence(), 2);
    assert_eq!(BinaryOperator::Equal.get_precedence(), 1);
    assert_eq!(BinaryOperator::NotEqual.get_precedence(), 1);
    assert_eq!(BinaryOperator::GreaterThan.get_precedence(), 1);
    assert_eq!(BinaryOperator::GreaterThanOrEqual.get_precedence(), 1);
    assert_eq!(BinaryOperator::LessThan.get_precedence(), 1);
    assert_eq!(BinaryOperator::LessThanOrEqual.get_precedence(), 1);
    assert_eq!(BinaryOperator::And.get_precedence(), 0);
    assert_eq!(BinaryOperator::Or.get_precedence(), 0);
}

#[test]
fn binary_operator_words_for_diagnostics() {
    assert_eq!(BinaryOperator::Plus.get_verb(), "add");
    assert_eq!(BinaryOperator::Plus.get_proposition(), "to");
    assert_eq!(BinaryOperator::Exponent.get_verb(), "raise");
    assert_eq!(BinaryOperator::Exponent.get_proposition(), "to the power of");
    assert_eq!(BinaryOperator::Modulo.get_verb(), "take the modulo of");
    assert_eq!(BinaryOperator::Modulo.get_proposition(), "by");
    assert_eq!(BinaryOperator::LessThanOrEqual.get_verb(), "check if");
    assert_eq!(BinaryOperator::LessThanOrEqual.get_proposition(), "is less than or equal to");
    assert_eq!(BinaryOperator::And.get_verb(), "use 'and' operator (&&)");
    assert_eq!(BinaryOperator::Or.get_proposition(), "with");
}

#[test]
fn operator_symbols() {
    assert_eq!(AssignOperator::Equal.symbol(), "=");
    assert_eq!(AssignOperator::Plus.symbol(), "+=");
    assert_eq!(AssignOperator::Modulo.symbol(), "%=");
    assert_eq!(BinaryOperator::Exponent.symbol(), "^");
    assert_eq!(BinaryOperator::GreaterThanOrEqual.symbol(), ">=");
    assert_eq!(BinaryOperator::NotEqual.symbol(), "!=");
}

#[test]
fn comment_new_keeps_its_parts() {
    let c = Comment::new("note", 3, 9);
    assert_eq!((c.value, c.start, c.end), ("note", 3, 9));
    assert_eq!(c.text(), "note");
}

#[test]
fn variables_len_counts_names() {
    assert_eq!(Variables::Unique("a").len(), 1);
    assert_eq!(Variables::Destructuring(vec![]).len(), 0);
    assert_eq!(Variables::Destructuring(vec!["a", "b", "c"]).len(), 3);
    assert_eq!(clone_names(&vec!["a", "b"]), vec!["a", "b"]);
    assert_eq!(
        Variables::Destructuring(vec!["a", "b"]).clone(),
        Variables::Destructuring(vec!["a", "b"])
    );
}

#[test]
fn token_same_compares_kind_and_payload() {
    assert!(Token::Comma.same(&Token::Comma));
    assert!(!Token::Comma.same(&Token::SemiColon));
    assert!(Token::Identifier("a").same(&Token::Identifier("a")));
    assert!(!Token::Identifier("a").same(&Token::Identifier("b")));
    assert!(!Token::Identifier("a").same(&Token::String("a")));
    assert!(Token::Bool(true).same(&Token::Bool(true)));
    assert!(!Token::Bool(true).same(&Token::Bool(false)));
    assert!(Token::BinaryOperator(BinaryOperator::Plus)
        .same(&Token::BinaryOperator(BinaryOperator::Plus)));
    assert!(!Token::BinaryOperator(BinaryOperator::Plus)
        .same(&Token::BinaryOperator(BinaryOperator::Sub)));
    assert!(!Token::Int("1").same(&Token::Float("1")));
}

#[test]
fn token_descriptions() {
    assert_eq!(Token::CloseBrace.describe(), "CloseBrace");
    assert_eq!(Token::Identifier("abc").describe(), "Identifier(abc)");
    assert_eq!(Token::Bool(false).describe(), "Bool(false)");
    assert_eq!(Token::Int("12").describe(), "Int(12)");
    assert_eq!(
        Token::AssignOperator(AssignOperator::Times).describe(),
        "AssignOperator(*=)"
    );
    assert_eq!(Token::BinaryOperator(BinaryOperator::And).describe(), "BinaryOperator(&&)");
    assert_eq!(join3("a", "", "bc"), "abc");
}

#[test]
fn blank_and_comment_tokens() {
    assert!(Token::Spaces.is_blank());
    assert!(Token::Newline.is_blank());
    assert!(!Token::Comma.is_blank());
    assert_eq!(Token::LineComment("x").comment_text(), Some("x"));
    assert_eq!(Token::DocComment("y").comment_text(), Some("y"));
    assert_eq!(Token::MultiLineComment("z").comment_text(), Some("z"));
    assert_eq!(Token::String("x").comment_text(), None);
}

#[test]
fn listed_looks_a_token_up() {
    let stops = [Token::Comma, Token::OpenBrace, Token::Identifier("end")];
    assert!(listed(&stops, &Token::OpenBrace));
    assert!(listed(&stops, &Token::Identifier("end")));
    assert!(!listed(&stops, &Token::Identifier("other")));
    assert!(!listed(&stops, &Token::CloseBrace));
    assert!(!listed(&[], &Token::Comma));
}

#[test]
fn lexer_cursor_shows_the_lexeme_pulled_last() {
    let mut lexer = AspenLexer::new(vec![
        Lexeme::new(Ok(Token::Identifier("ab")), 0, 2, "ab"),
        Lexeme::new(Err(LexingError()), 2, 3, "#"),
    ]);
    assert_eq!(lexer.len(), 2);
    assert_eq!(lexer.span(), Span { start: 0, end: 0 });
    assert_eq!(lexer.slice(), "");
    assert_eq!(lexer.next(), Some(Ok(Token::Identifier("ab"))));
    assert_eq!(lexer.span(), Span { start: 0, end: 2 });
    assert_eq!(lexer.slice(), "ab");
    assert_eq!(lexer.next(), Some(Err(LexingError())));
    assert_eq!(lexer.span(), Span { start: 2, end: 3 });
    assert_eq!(lexer.slice(), "#");
    assert_eq!(lexer.next(), None);
    assert_eq!(lexer.span(), Span { start: 3, end: 3 });
    assert_eq!(lexer.slice(), "");
    assert_eq!(lexer.next(), None);
    assert_eq!(lexer.span(), Span { start: 3, end: 3 });
    let mut empty = AspenLexer::new(vec![]);
    assert_eq!(empty.next(), None);
    assert_eq!(empty.span(), Span { start: 0, end: 0 });
}

#[test]
fn next_token_pulls_one_token_or_fails() {
    let mut parser = parser_of(&[(Token::Spaces, " "), (Token::Comma, ",")]);
    assert_eq!(next_token(&mut parser), Ok(Token::Spaces));
    assert_eq!(next_token(&mut parser), Ok(Token::Comma));
    assert_eq!(next_token(&mut parser), Err(AspenError::Eof));
    assert_eq!(next_token(&mut parser), Err(AspenError::Eof));
    let mut parser = AspenParser::new(AspenLexer::new(vec![Lexeme::new(
        Err(LexingError()),
        0,
        2,
        "é",
    )]));
    assert_eq!(
        next_token(&mut parser),
        Err(AspenError::Lexing { error: LexingError(), start: 0, end: 2, length: 2 })
    );
}

#[test]
fn next_jump_multispace_skips_spaces_and_line_breaks() {
    let mut parser = parser_of(&[
        (Token::Spaces, "  "),
        (Token::Newline, "\n"),
        (Token::Spaces, " "),
        (Token::Let, "let"),
        (Token::Newline, "\n"),
    ]);
    assert_eq!(next_jump_multispace(&mut parser), Ok(Token::Let));
    assert_eq!(parser.lexer.span(), Span { start: 4, end: 7 });
    assert_eq!(next_jump_multispace(&mut parser), Err(AspenError::Eof));
}

#[test]
fn next_jump_space_stops_at_a_line_break() {
    let mut parser = parser_of(&[
        (Token::Spaces, "  "),
        (Token::Spaces, "\t"),
        (Token::Newline, "\n"),
        (Token::Let, "let"),
    ]);
    assert_eq!(next_jump_space(&mut parser), Ok(Token::Newline));
    assert_eq!(next_jump_space(&mut parser), Ok(Token::Let));
    assert_eq!(next_jump_space(&mut parser), Err(AspenError::Eof));
}

#[test]
fn expect_space_takes_a_blank_only() {
    let mut parser = parser_of(&[(Token::Newline, "\n"), (Token::Spaces, " "), (Token::Let, "let")]);
    assert_eq!(expect_space(&mut parser), Ok(()));
    assert_eq!(expect_space(&mut parser), Ok(()));
    assert_eq!(
        expect_space(&mut parser),
        Err(AspenError::ExpectedSpace { start: 2, end: 5, length: 3 })
    );
    assert_eq!(expect_space(&mut parser), Err(AspenError::Eof));
}

#[test]
fn expect_token_names_what_was_wanted_and_found() {
    let mut parser = parser_of(&[
        (Token::Spaces, " "),
        (Token::OpenParen, "("),
        (Token::Newline, "\n"),
        (Token::CloseBrace, "}"),
    ]);
    assert_eq!(expect_token(&mut parser, Token::OpenParen), Ok(()));
    assert_eq!(
        expect_token(&mut parser, Token::CloseParen),
        Err(AspenError::Expected {
            error: "'CloseParen', found '}'".to_string(),
            start: 3,
            end: 4,
            length: 1
        })
    );
    assert_eq!(expect_token(&mut parser, Token::CloseParen), Err(AspenError::Eof));
}

#[test]
fn expect_newline_allows_one_run_of_spaces_before_it() {
    let mut parser = parser_of(&[
        (Token::Newline, "\n"),
        (Token::Spaces, " "),
        (Token::Newline, "\n"),
        (Token::Spaces, " "),
        (Token::Let, "let"),
        (Token::Let, "let"),
    ]);
    assert_eq!(expect_newline(&mut parser), Ok(()));
    assert_eq!(expect_newline(&mut parser), Ok(()));
    assert_eq!(
        expect_newline(&mut parser),
        Err(AspenError::ExpectedNewline { start: 4, end: 7, length: 3 })
    );
    assert_eq!(
        expect_newline(&mut parser),
        Err(AspenError::ExpectedNewline { start: 7, end: 10, length: 3 })
    );
    assert_eq!(expect_newline(&mut parser), Err(AspenError::Eof));
}

#[test]
fn parse_value_reads_literals() {
    let parser = parser_of(&[]);
    assert_eq!(parse_value(&parser, Token::Bool(true)), Ok(Value::Bool(true)));
    assert_eq!(parse_value(&parser, Token::String("\"a\"")), Ok(Value::Str("\"a\"")));
    assert_eq!(
        parse_value(&parser, Token::Int("123456789012345678901234567890")),
        Ok(Value::Int("123456789012345678901234567890"))
    );
    assert_eq!(parse_value(&parser, Token::Float("1.5e10")), Ok(Value::Float("1.5e10")));
    assert_eq!(parse_value(&parser, Token::Nil), Ok(Value::Nil));
    assert_eq!(
        parse_value(&parser, Token::Comma),
        Err(AspenError::Expected {
            error: "a valid <expr>".to_string(),
            start: 0,
            end: 0,
            length: 0
        })
    );
}

#[test]
fn parse_value_or_return_token_hands_other_tokens_back() {
    assert_eq!(
        parse_value_or_return_token(Token::Bool(false)),
        Ok(TokenOption::Parsed(Value::Bool(false)))
    );
    assert_eq!(
        parse_value_or_return_token(Token::Int("7")),
        Ok(TokenOption::Parsed(Value::Int("7")))
    );
    assert_eq!(
        parse_value_or_return_token(Token::Nil),
        Ok(TokenOption::Token(Token::Nil))
    );
    assert_eq!(
        parse_value_or_return_token(Token::Identifier("x")),
        Ok(TokenOption::Token(Token::Identifier("x")))
    );
}

#[test]
fn error_constructors_take_the_current_span() {
    let mut parser = parser_of(&[(Token::Let, "let"), (Token::Identifier("héllo"), "héllo")]);
    assert_eq!(
        AspenError::unknown(&parser, "x".to_string()),
        AspenError::Unknown { error: "x".to_string(), start: 0, end: 0, length: 0 }
    );
    next_token(&mut parser).unwrap();
    assert_eq!(
        AspenError::expected(&parser, "y".to_string()),
        AspenError::Expected { error: "y".to_string(), start: 0, end: 3, length: 3 }
    );
    next_token(&mut parser).unwrap();
    assert_eq!(
        AspenError::expected_space(&parser),
        AspenError::ExpectedSpace { start: 3, end: 9, length: 6 }
    );
    assert_eq!(
        AspenError::expected_newline(&parser),
        AspenError::ExpectedNewline { start: 3, end: 9, length: 6 }
    );
    assert_eq!(
        AspenError::from_lexing_error(&parser, LexingError()),
        AspenError::Lexing { error: LexingError(), start: 3, end: 9, length: 6 }
    );
    assert_eq!(AspenError::eof(&parser), AspenError::Eof);
    assert_eq!(
        AspenError::from_evaluate_error(
            EvaluateError::UndefinedIdentifier("x".to_string()),
            "declare it".to_string(),
            1,
            2,
            1
        ),
        AspenError::Evaluate {
            error: EvaluateError::UndefinedIdentifier("x".to_string()),
            start: 1,
            end: 2,
            length: 1,
            note: "declare it".to_string(),
        }
    );
}

#[test]
fn error_messages() {
    assert_eq!(AspenError::Eof.message(), "Unexpected end of input!");
    assert_eq!(
        AspenError::Expected { error: "a thing".to_string(), start: 0, end: 0, length: 0 }
            .message(),
        "Expected a thing"
    );
    assert_eq!(
        AspenError::Unknown { error: "token ')' found".to_string(), start: 0, end: 0, length: 0 }
            .message(),
        "Unknown token ')' found"
    );
    assert_eq!(
        AspenError::ExpectedSpace { start: 0, end: 0, length: 0 }.message(),
        "Expected a space character"
    );
    assert_eq!(
        AspenError::ExpectedNewline { start: 0, end: 0, length: 0 }.message(),
        "Expected a newline character"
    );
    assert_eq!(
        AspenError::Lexing { error: LexingError(), start: 0, end: 0, length: 0 }.message(),
        "Failed to lex: Unexpected token!"
    );
    assert_eq!(LexingError::default().message(), "Failed to lex: Unexpected token!");
    assert_eq!(AspenError::IoError("no such file".to_string()).message(), "no such file");
}

#[test]
fn evaluate_error_messages_write_numbers_in_decimal() {
    assert_eq!(
        EvaluateError::NotEnoughArgs { expected_num: 12, found: 3 }.message(),
        "Invalid number of arguments when invoking function. Expected at least 12, found 3"
    );
    assert_eq!(
        EvaluateError::TooMuchArgs { expected_num: 0, found: 1005 }.message(),
        "Invalid number of arguments when invoking function. Expected at most 0, found 1005"
    );
    assert_eq!(
        EvaluateError::IdentifierAlreadyUsed("x".to_string()).message(),
        "Identifier already in use: 'x'"
    );
    assert_eq!(
        EvaluateError::UndefinedIdentifier("x".to_string()).message(),
        "Unknown variable or function: 'x'"
    );
    assert_eq!(
        EvaluateError::InvalidType { expected: AspenType::Int, found: AspenType::String }
            .message(),
        "Invalid type: expected type 'Int' found type 'String'"
    );
    assert_eq!(
        EvaluateError::IdentifierIsNotValidFn("f".to_string()).message(),
        "Func 'f' cannot be called as it does not exist!"
    );
    assert_eq!(
        EvaluateError::OnlyFuncsCanBeCalled("1".to_string()).message(),
        "<expr> '1' is not a valid function, it cannot be called!"
    );
    assert_eq!(AspenType::Number.name(), "Number");
    assert_eq!(AspenType::Nil.name(), "Nil");
}

#[test]
fn reports_for_each_kind_of_failure() {
    assert_eq!(build_report(10, &AspenError::IoError("gone".to_string())), None);
    assert_eq!(
        build_report(10, &AspenError::Eof),
        Some(Report {
            message: "Unexpected end of input!".to_string(),
            note: "add a missing <expr> or statement end".to_string(),
            offset: 9,
            length: 0,
            code: 1,
        })
    );
    assert_eq!(build_report(0, &AspenError::Eof).map(|r| r.offset), Some(0));
    let lexing = AspenError::Lexing { error: LexingError(), start: 4, end: 5, length: 1 };
    let r = build_report(10, &lexing).unwrap();
    assert_eq!((r.offset, r.length, r.code), (4, 1, 0));
    assert_eq!(r.note, "Remove unsupported or invalid ASCII Chars");
    let expected = AspenError::Expected { error: "x".to_string(), start: 2, end: 4, length: 2 };
    let r = build_report(10, &expected).unwrap();
    assert_eq!((r.offset, r.length, r.code), (2, 2, 2));
    assert_eq!(r.message, "Expected x");
    assert_eq!(r.note, "Add what's expected, it's not difficult, right ?");
    let unknown = AspenError::Unknown { error: "y".to_string(), start: 1, end: 2, length: 1 };
    let r = build_report(10, &unknown).unwrap();
    assert_eq!((r.offset, r.length, r.code), (1, 1, 3));
    assert_eq!(r.note, "Just remove the unexpected token!");
    let space = AspenError::ExpectedSpace { start: 3, end: 4, length: 1 };
    let r = build_report(10, &space).unwrap();
    assert_eq!((r.offset, r.length, r.code), (3, 1, 4));
    assert_eq!(r.note, "Add a space at the indicated offset");
    let newline = AspenError::ExpectedNewline { start: 5, end: 6, length: 1 };
    let r = build_report(10, &newline).unwrap();
    assert_eq!((r.offset, r.length, r.code), (5, 1, 5));
    assert_eq!(r.note, "Add a newline at the indicated offset");
    let evaluate = AspenError::Evaluate {
        error: EvaluateError::UndefinedIdentifier("x".to_string()),
        start: 7,
        end: 8,
        length: 1,
        note: "declare it".to_string(),
    };
    let r = build_report(10, &evaluate).unwrap();
    assert_eq!((r.offset, r.length, r.code), (7, 1, 6));
    assert_eq!(r.note, "declare it");
    assert_eq!(r.message, "Unknown variable or function: 'x'");
}

#[test]
fn import_statement_parsers() {
    let mut parser = parser_of(&[(Token::Spaces, " "), (Token::String("\"io\""), "\"io\"")]);
    assert_eq!(Import::parse(&mut parser), Ok(Statement::Import(Import { name: "\"io\"" })));
    let mut parser = parser_of(&[(Token::String("\"m\""), "\"m\"")]);
    assert_eq!(
        Import::parse_after_comma(&mut parser),
        Ok(Statement::Import(Import { name: "\"m\"" }))
    );
    let mut parser = parser_of(&[(Token::Spaces, " "), (Token::Identifier("io"), "io")]);
    assert_eq!(
        Import::parse(&mut parser),
        Err(AspenError::Expected {
            error: "an import value".to_string(),
            start: 1,
            end: 3,
            length: 2
        })
    );
    let mut parser = parser_of(&[(Token::String("\"io\""), "\"io\"")]);
    assert!(matches!(Import::parse(&mut parser), Err(AspenError::ExpectedSpace { .. })));
}

#[test]
fn return_parsers() {
    let mut parser = parser_of(&[(Token::Spaces, " "), (Token::Identifier("a"), "a")]);
    assert_eq!(Return::parse(&mut parser), Ok(Statement::Return(Return(Box::new(id("a"))))));
    let mut parser = parser_of(&[(Token::Spaces, " "), (Token::Int("2"), "2")]);
    assert_eq!(Return::parse_after_comma(&mut parser), Ok(num("2")));
    let mut parser = parser_of(&[(Token::Identifier("a"), "a")]);
    assert!(matches!(Return::parse(&mut parser), Err(AspenError::ExpectedSpace { .. })));
}

#[test]
fn var_target_needs_names() {
    let mut parser = parser_of(&[
        (Token::OpenParen, "("),
        (Token::Identifier("a"), "a"),
        (Token::Comma, ","),
        (Token::CloseParen, ")"),
    ]);
    assert_eq!(Var::parse_target(&mut parser), Ok(Variables::Destructuring(vec!["a"])));
    let mut parser = parser_of(&[(Token::OpenParen, "("), (Token::CloseParen, ")")]);
    assert_eq!(
        Var::parse_target(&mut parser),
        Err(AspenError::Expected {
            error: "an identifier".to_string(),
            start: 1,
            end: 2,
            length: 1
        })
    );
    let mut parser = parser_of(&[(Token::Int("1"), "1")]);
    assert_eq!(
        Var::parse_target(&mut parser),
        Err(AspenError::Unknown { error: "token '1'".to_string(), start: 0, end: 1, length: 1 })
    );
}

#[test]
fn postfix_constructs_fit_some_expressions_only() {
    let call = || Postfix::Call(vec![Box::new(num("1"))]);
    assert!(call().fits(&id("f")));
    assert!(!call().fits(&num("1")));
    assert!(!call().fits(&Expr::Array(vec![])));
    assert!(Postfix::Index(Box::new(num("0"))).fits(&Expr::Value(Value::Str("\"s\""))));
    assert!(!Postfix::Index(Box::new(num("0"))).fits(&num("1")));
    assert!(Postfix::Field(Box::new(id("x"))).fits(&num("1")));
    assert!(Postfix::Propagate.fits(&Expr::Array(vec![])));
    let r = Expr::Range { start: Box::new(num("1")), end: Box::new(num("2")), step: None };
    assert!(!Postfix::Concat(Box::new(id("s"))).fits(&r));
    assert!(call().fits(&r));
    assert_eq!(
        call().graft(r),
        Expr::Range {
            start: Box::new(num("1")),
            end: Box::new(Expr::FuncCall {
                callee: Box::new(num("2")),
                args: vec![Box::new(num("1"))],
            }),
            step: None,
        }
    );
    assert_eq!(
        Postfix::Propagate.wrap(id("a")),
        Expr::PropagatedFailible(Box::new(id("a")))
    );
    let assign = Expr::Assign {
        target: Box::new(id("t")),
        operator: AssignOperator::Equal,
        value: Box::new(id("f")),
    };
    assert!(call().fits(&assign));
    assert_eq!(
        call().graft(assign),
        Expr::Assign {
            target: Box::new(id("t")),
            operator: AssignOperator::Equal,
            value: Box::new(Expr::FuncCall {
                callee: Box::new(id("f")),
                args: vec![Box::new(num("1"))],
            }),
        }
    );
}

#[test]
fn range_bounds_fit_some_expressions_only() {
    assert!(range_fits(&id("a")).is_ok());
    assert!(matches!(range_fits(&Expr::Array(vec![])), Err(RangeRefusal::Shape)));
    let full = Expr::Range {
        start: Box::new(num("1")),
        end: Box::new(num("2")),
        step: Some(Box::new(num("3"))),
    };
    assert!(matches!(range_fits(&full), Err(RangeRefusal::Full)));
    assert_eq!(
        range_into(id("a"), id("b")),
        Expr::Range { start: Box::new(id("a")), end: Box::new(id("b")), step: None }
    );
    assert_eq!(
        binary_into(id("a"), BinaryOperator::Plus, id("b")),
        Expr::Binary {
            lhs: Box::new(id("a")),
            operator: BinaryOperator::Plus,
            rhs: Box::new(id("b")),
        }
    );
    let mut slot = Box::new(id("a"));
    assert_eq!(take_expr(&mut slot), id("a"));
    assert_eq!(*slot, Expr::Value(Value::Nil));
}

#[test]
fn if_chains_grow_at_their_end() {
    let plain = |name| If {
        condition: Box::new(Expr::Id(name)),
        body: Block::default(),
        other: None,
    };
    let first = plain("a");
    assert!(!chain_closed(&first));
    let two = chain_extended(first, IfOther::If(plain("b")));
    assert!(!chain_closed(&two));
    let three = chain_extended(two, IfOther::Else(Block::default()));
    assert!(chain_closed(&three));
    let expected = If {
        condition: Box::new(id("a")),
        body: Block::default(),
        other: Some(Box::new(IfOther::If(If {
            condition: Box::new(id("b")),
            body: Block::default(),
            other: Some(Box::new(IfOther::Else(Block::default()))),
        }))),
    };
    assert_eq!(three, expected);
}

#[test]
fn declared_looks_a_name_up() {
    let args = vec![Argument::new("a", false), Argument::new("rest", true)];
    assert!(declared(&args, "a"));
    assert!(declared(&args, "rest"));
    assert!(!declared(&args, "b"));
    assert!(!declared(&vec![], "a"));
    assert_eq!(Argument::from(("x", true)), Argument::new("x", true));
    assert_eq!(Argument::from("x"), Argument::new("x", false));
}

#[test]
fn conversions_wrap_their_argument() {
    assert_eq!(Statement::from(id("a")), Statement::Expr(Box::new(id("a"))));
    assert_eq!(
        Statement::from(Import { name: "m" }),
        Statement::Import(Import { name: "m" })
    );
    assert_eq!(
        Statement::from(Return(Box::new(id("a")))),
        Statement::Return(Return(Box::new(id("a"))))
    );
    assert_eq!(Expr::from(Value::Nil), Expr::Value(Value::Nil));
    assert_eq!(Expr::from("name"), id("name"));
    assert_eq!(Expr::from(vec![Box::new(id("a"))]), Expr::Array(vec![Box::new(id("a"))]));
    assert_eq!(Value::from(true), Value::Bool(true));
    assert_eq!(Value::from("text"), Value::Str("text"));
    let found: TokenOption<Value> = Token::Comma.into();
    assert_eq!(found, TokenOption::Token(Token::Comma));
    let parsed: TokenOption<Value> = Value::Nil.into();
    assert_eq!(parsed, TokenOption::Parsed(Value::Nil));
    let parser: AspenParser = AspenLexer::new(vec![]).into();
    assert_eq!(parser.comments().len(), 0);
    assert_eq!(parser.statements().len(), 0);
}

#[test]
fn clones_are_equal_to_what_they_copy() {
    let e = Expr::FuncCall {
        callee: Box::new(id("f")),
        args: vec![
            Box::new(Expr::Range {
                start: Box::new(num("1")),
                end: Box::new(num("2")),
                step: Some(Box::new(num("3"))),
            }),
            Box::new(Expr::object(vec![("k", Expr::Array(vec![Box::new(id("v"))]))])),
        ],
    };
    assert_eq!(clone_expr(&e), e);
    let s = Statement::Var(Var {
        variables: Variables::Destructuring(vec!["a", "b"]),
        value: Box::new(clone_expr(&e)),
    });
    assert_eq!(clone_statement(&s), s);
    assert_eq!(s.clone(), s);
    let b = Block::new(vec![Box::new(clone_statement(&s)), Box::new(Statement::from(e))]);
    assert_eq!(clone_block(&b), b);
    assert_eq!(b.statements().len(), 2);
    assert_eq!(Block::default().statements().len(), 0);
}

#[test]
fn add_comment_appends() {
    let mut parser = parser_of(&[]);
    parser.add_comment(Comment::new("a", 0, 1));
    parser.add_comment(Comment::new("b", 2, 3));
    let comments = parser.comments();
    assert_eq!(comments.len(), 2);
    assert_eq!(*comments[0], Comment::new("a", 0, 1));
    assert_eq!(*comments[1], Comment::new("b", 2, 3));
}

#[test]
fn end_of_input_is_reported_with_the_input_exhausted() {
    let mut parser = parser_of(&[
        (Token::Spaces, " "),
        (Token::Identifier("x"), "x"),
        (Token::Spaces, " "),
    ]);
    assert_eq!(Var::parse(&mut parser), Err(AspenError::Eof));
    assert_eq!(parser.lexer.span(), Span { start: 3, end: 3 });
    assert_eq!(parser.lexer.next(), None);
}
