use aspen::lexer::{AspenLexer, Lexeme, LexingError, Token};
use aspen::parser::conditional::{If, IfOther};
use aspen::parser::error::AspenError;
use aspen::parser::for_loop::For;
use aspen::parser::func::{Argument, Func};
use aspen::parser::operator::{AssignOperator, BinaryOperator};
use aspen::parser::return_stmt::Return;
use aspen::parser::utils::Block;
use aspen::parser::value::Value;
use aspen::parser::var::{Var, Variables};
use aspen::parser::while_loop::While;
use aspen::parser::{parse_aspen, parse_block, AspenParser, Expr, Statement};

fn is_ident_start(c: u8) -> bool {
    c.is_ascii_alphabetic() || c == b'_'
}

fn is_ident_part(c: u8) -> bool {
    c.is_ascii_alphanumeric() || c == b'_'
}

fn word<'a>(text: &'a str) -> Token<'a> {
    match text {
        "in" => Token::In,
        "nil" => Token::Nil,
        "if" => Token::If,
        "other" | "otherwise" => Token::Other,
        "else" => Token::Else,
        "return" => Token::Return,
        "let" => Token::Let,
        "for" => Token::For,
        "while" => Token::While,
        "true" => Token::Bool(true),
        "false" => Token::Bool(false),
        _ => Token::Identifier(text),
    }
}

fn symbol(rest: &str) -> Option<(Token<'static>, usize)> {
    let table: [(&str, Token<'static>); 36] = [
        ("...", Token::SpreadOperator),
        ("$import", Token::Import),
        ("$imp", Token::Import),
        ("**", Token::BinaryOperator(BinaryOperator::Exponent)),
        ("==", Token::BinaryOperator(BinaryOperator::Equal)),
        ("!=", Token::BinaryOperator(BinaryOperator::NotEqual)),
        (">=", Token::BinaryOperator(BinaryOperator::GreaterThanOrEqual)),
        ("<=", Token::BinaryOperator(BinaryOperator::LessThanOrEqual)),
        ("&&", Token::BinaryOperator(BinaryOperator::And)),
        ("||", Token::BinaryOperator(BinaryOperator::Or)),
        ("+=", Token::AssignOperator(AssignOperator::Plus)),
        ("-=", Token::AssignOperator(AssignOperator::Sub)),
        ("*=", Token::AssignOperator(AssignOperator::Times)),
        ("/=", Token::AssignOperator(AssignOperator::Divide)),
        ("%=", Token::AssignOperator(AssignOperator::Modulo)),
        ("->", Token::In),
        ("..", Token::StringSeparator),
        ("$", Token::Import),
        ("\n", Token::Newline),
        (",", Token::Comma),
        (";", Token::SemiColon),
        ("{", Token::OpenBrace),
        ("}", Token::CloseBrace),
        ("[", Token::OpenBracket),
        ("]", Token::CloseBracket),
        ("(", Token::OpenParen),
        (")", Token::CloseParen),
        (".", Token::Dot),
        (":", Token::Range),
        ("?", Token::PropagationOperator),
        ("=", Token::AssignOperator(AssignOperator::Equal)),
        ("+", Token::BinaryOperator(BinaryOperator::Plus)),
        ("-", Token::BinaryOperator(BinaryOperator::Sub)),
        ("*", Token::BinaryOperator(BinaryOperator::Times)),
        ("/", Token::BinaryOperator(BinaryOperator::Divide)),
        ("%", Token::BinaryOperator(BinaryOperator::Modulo)),
    ];
    for (text, token) in table {
        if rest.starts_with(text) {
            return Some((token, text.len()));
        }
    }
    if rest.starts_with('>') {
        return Some((Token::BinaryOperator(BinaryOperator::GreaterThan), 1));
    }
    if rest.starts_with('<') {
        return Some((Token::BinaryOperator(BinaryOperator::LessThan), 1));
    }
    None
}

/// Splits a source text into lexemes the way the language's lexer does, for
/// the part of the language that these tests write.
fn lex(source: &str) -> Vec<Lexeme<'_>> {
    let bytes = source.as_bytes();
    let mut out = Vec::new();
    let mut at = 0;
    while at < bytes.len() {
        let c = bytes[at];
        let rest = &source[at..];
        let mut end = at;
        let token: Result<Token, LexingError> = if c == b' ' || c == b'\t' || c == b'\r' {
            while end < bytes.len() && (bytes[end] == b' ' || bytes[end] == b'\t' || bytes[end] == b'\r') {
                end += 1;
            }
            Ok(Token::Spaces)
        } else if rest.starts_with("//") {
            while end < bytes.len() && bytes[end] != b'\n' {
                end += 1;
            }
            let body = source[at + 2..end].trim();
            if rest.starts_with("///") {
                Ok(Token::DocComment(body))
            } else {
                Ok(Token::LineComment(body))
            }
        } else if rest.starts_with("/*") {
            match rest.find("*/") {
                Some(close) => {
                    end = at + close + 2;
                    Ok(Token::MultiLineComment(&source[at + 2..end - 2]))
                }
                None => {
                    end = at + 1;
                    Err(LexingError())
                }
            }
        } else if c == b'@' && at + 1 < bytes.len() && is_ident_start(bytes[at + 1]) {
            end = at + 1;
            while end < bytes.len() && is_ident_part(bytes[end]) {
                end += 1;
            }
            Ok(Token::Func(&source[at + 1..end]))
        } else if is_ident_start(c) {
            while end < bytes.len() && is_ident_part(bytes[end]) {
                end += 1;
            }
            if end < bytes.len() && bytes[end] == b'!' && !rest[end - at..].starts_with("!=") {
                end += 1;
                Ok(Token::ObjectKey(&source[at..end - 1]))
            } else {
                Ok(word(&source[at..end]))
            }
        } else if c == b'"' {
            end = at + 1;
            while end < bytes.len() && bytes[end] != b'"' {
                end += 1;
            }
            if end < bytes.len() {
                end += 1;
                Ok(Token::String(&source[at..end]))
            } else {
                end = at + 1;
                Err(LexingError())
            }
        } else if c.is_ascii_digit() || (c == b'-' && at + 1 < bytes.len() && bytes[at + 1].is_ascii_digit()) {
            end = at + 1;
            while end < bytes.len() && (bytes[end].is_ascii_digit() || bytes[end] == b'_') {
                end += 1;
            }
            if end + 1 < bytes.len() && bytes[end] == b'.' && bytes[end + 1].is_ascii_digit() {
                end += 1;
                while end < bytes.len() && bytes[end].is_ascii_digit() {
                    end += 1;
                }
                Ok(Token::Float(&source[at..end]))
            } else {
                Ok(Token::Int(&source[at..end]))
            }
        } else {
            match symbol(rest) {
                Some((token, len)) => {
                    end = at + len;
                    Ok(token)
                }
                None => {
                    end = at + rest.chars().next().map(|ch| ch.len_utf8()).unwrap_or(1);
                    Err(LexingError())
                }
            }
        };
        out.push(Lexeme::new(token, at, end, &source[at..end]));
        at = end;
    }
    out
}

fn parser_for(source: &str) -> AspenParser<'_> {
    AspenParser::new(AspenLexer::new(lex(source)))
}

fn program(source: &str) -> Result<Vec<Statement<'_>>, AspenError> {
    let mut parser = parser_for(source);
    parse_aspen(&mut parser)?;
    Ok(parser.statements().into_iter().map(|s| *s).collect())
}

fn expr_stmt(source: &str) -> Expr<'_> {
    let mut stmts = program(source).expect("the source parses");
    assert_eq!(stmts.len(), 1);
    match stmts.remove(0) {
        Statement::Expr(e) => *e,
        other => panic!("not an expression statement: {:?}", other),
    }
}

fn num(digits: &str) -> Expr<'_> {
    Expr::Value(Value::Int(digits))
}

fn id(name: &str) -> Expr<'_> {
    Expr::Id(name)
}

fn binary<'a>(lhs: Expr<'a>, operator: BinaryOperator, rhs: Expr<'a>) -> Expr<'a> {
    Expr::Binary { lhs: Box::new(lhs), operator, rhs: Box::new(rhs) }
}

fn call<'a>(callee: Expr<'a>, args: Vec<Expr<'a>>) -> Expr<'a> {
    Expr::FuncCall { callee: Box::new(callee), args: args.into_iter().map(Box::new).collect() }
}

fn range<'a>(start: Expr<'a>, end: Expr<'a>, step: Option<Expr<'a>>) -> Expr<'a> {
    Expr::Range { start: Box::new(start), end: Box::new(end), step: step.map(Box::new) }
}

fn block(statements: Vec<Statement<'_>>) -> Block<'_> {
    Block::new(statements.into_iter().map(Box::new).collect())
}

fn stmt(e: Expr<'_>) -> Statement<'_> {
    Statement::Expr(Box::new(e))
}

#[test]
fn lexer_helper_gives_spans_and_slices() {
    let lexemes = lex("let x = 12\n");
    let tokens: Vec<_> = lexemes.iter().map(|l| l.token).collect();
    assert_eq!(
        tokens,
        vec![
            Ok(Token::Let),
            Ok(Token::Spaces),
            Ok(Token::Identifier("x")),
            Ok(Token::Spaces),
            Ok(Token::AssignOperator(AssignOperator::Equal)),
            Ok(Token::Spaces),
            Ok(Token::Int("12")),
            Ok(Token::Newline),
        ]
    );
    assert_eq!((lexemes[6].start, lexemes[6].end, lexemes[6].slice), (8, 10, "12"));
}

#[test]
fn let_binds_a_sum() {
    let stmts = program("let x = 1 + 2\n").unwrap();
    assert_eq!(
        stmts,
        vec![Statement::Var(Var {
            variables: Variables::Unique("x"),
            value: Box::new(binary(num("1"), BinaryOperator::Plus, num("2"))),
        })]
    );
}

#[test]
fn let_without_equal_sign_binds_too() {
    let stmts = program("let x 7\n").unwrap();
    assert_eq!(
        stmts,
        vec![Statement::Var(Var { variables: Variables::Unique("x"), value: Box::new(num("7")) })]
    );
}

#[test]
fn if_other_else_makes_a_chain_of_two_links() {
    let stmts = program("if a { 1 } other b { 2 } else { 3 }").unwrap();
    let expected = Statement::If(If {
        condition: Box::new(id("a")),
        body: block(vec![stmt(num("1"))]),
        other: Some(Box::new(IfOther::If(If {
            condition: Box::new(id("b")),
            body: block(vec![stmt(num("2"))]),
            other: Some(Box::new(IfOther::Else(block(vec![stmt(num("3"))])))),
        }))),
    });
    assert_eq!(stmts, vec![expected]);
    match &stmts[0] {
        Statement::If(first) => match first.other.as_deref() {
            Some(IfOther::If(second)) => {
                assert!(matches!(second.other.as_deref(), Some(IfOther::Else(_))));
            }
            _ => panic!("the first link is an if"),
        },
        _ => panic!("an if statement"),
    }
}

#[test]
fn a_link_after_else_is_refused() {
    let err = program("if a { 1 } else { 2 } else { 3 }").unwrap_err();
    match err {
        AspenError::Unknown { error, .. } => assert_eq!(
            error,
            "'other' block found, the 'if' statement already possesses an 'else' clause"
        ),
        other => panic!("{:?}", other),
    }
}

#[test]
fn add_other_at_if_end_leaves_a_closed_chain_as_it_is() {
    let parser = parser_for("");
    let mut chain = If {
        condition: Box::new(id("a")),
        body: block(vec![]),
        other: Some(Box::new(IfOther::Else(block(vec![])))),
    };
    let before = format!("{:?}", chain);
    let r = chain.add_other_at_if_end(&parser, IfOther::Else(block(vec![stmt(num("1"))])));
    assert!(matches!(r, Err(AspenError::Unknown { .. })));
    assert_eq!(format!("{:?}", chain), before);
}

#[test]
fn higher_precedence_binds_the_right_operand() {
    assert_eq!(
        expr_stmt("1 + 2 * 3"),
        binary(
            num("1"),
            BinaryOperator::Plus,
            binary(num("2"), BinaryOperator::Times, num("3"))
        )
    );
}

#[test]
fn lower_precedence_takes_the_whole_left_side() {
    assert_eq!(
        expr_stmt("1 * 2 + 3"),
        binary(
            binary(num("1"), BinaryOperator::Times, num("2")),
            BinaryOperator::Plus,
            num("3")
        )
    );
}

#[test]
fn equal_precedence_groups_to_the_right() {
    assert_eq!(
        expr_stmt("1 - 2 - 3"),
        binary(num("1"), BinaryOperator::Sub, binary(num("2"), BinaryOperator::Sub, num("3")))
    );
}

#[test]
fn modify_into_binary_op_on_chosen_trees() {
    let mut parser = parser_for("");
    let mut base = Box::new(binary(num("1"), BinaryOperator::Exponent, num("2")));
    Expr::modify_into_binary_op(&mut parser, &mut base, num("3"), BinaryOperator::Or).unwrap();
    assert_eq!(
        *base,
        binary(
            binary(num("1"), BinaryOperator::Exponent, num("2")),
            BinaryOperator::Or,
            num("3")
        )
    );
    let mut assign = Box::new(Expr::Assign {
        target: Box::new(id("x")),
        operator: AssignOperator::Plus,
        value: Box::new(binary(num("2"), BinaryOperator::Times, num("3"))),
    });
    Expr::modify_into_binary_op(&mut parser, &mut assign, num("4"), BinaryOperator::Plus).unwrap();
    assert_eq!(
        *assign,
        Expr::Assign {
            target: Box::new(id("x")),
            operator: AssignOperator::Plus,
            value: Box::new(binary(
                binary(num("2"), BinaryOperator::Times, num("3")),
                BinaryOperator::Plus,
                num("4")
            )),
        }
    );
}

#[test]
fn a_call_binds_to_the_operand_written_last() {
    assert_eq!(
        expr_stmt("a + f(1)"),
        binary(id("a"), BinaryOperator::Plus, call(id("f"), vec![num("1")]))
    );
}

#[test]
fn a_call_binds_to_the_last_operand_of_a_chain() {
    assert_eq!(
        expr_stmt("a + b * f(1, 2)"),
        binary(
            id("a"),
            BinaryOperator::Plus,
            binary(id("b"), BinaryOperator::Times, call(id("f"), vec![num("1"), num("2")]))
        )
    );
}

#[test]
fn range_with_two_parts() {
    assert_eq!(expr_stmt("1:10"), range(num("1"), num("10"), None));
}

#[test]
fn range_with_three_parts() {
    assert_eq!(expr_stmt("1:10:2"), range(num("1"), num("10"), Some(num("2"))));
}

#[test]
fn range_takes_no_fourth_part() {
    let err = program("1:10:2:3").unwrap_err();
    match err {
        AspenError::Unknown { error, start, end, length } => {
            assert_eq!(error, "token ':' found, a Range has three parts: start:end:step");
            assert_eq!((start, end, length), (7, 8, 1));
        }
        other => panic!("{:?}", other),
    }
}

#[test]
fn a_call_after_a_range_binds_to_its_last_part() {
    assert_eq!(
        expr_stmt("1:n(2)"),
        range(num("1"), call(id("n"), vec![num("2")]), None)
    );
}

#[test]
fn destructuring_let() {
    let stmts = program("let (a, b) = x").unwrap();
    assert_eq!(
        stmts,
        vec![Statement::Var(Var {
            variables: Variables::Destructuring(vec!["a", "b"]),
            value: Box::new(id("x")),
        })]
    );
    match &stmts[0] {
        Statement::Var(v) => assert_eq!(v.variables.len(), 2),
        _ => panic!("a let"),
    }
}

#[test]
fn unique_let() {
    let stmts = program("let a = x").unwrap();
    assert_eq!(
        stmts,
        vec![Statement::Var(Var { variables: Variables::Unique("a"), value: Box::new(id("x")) })]
    );
    match &stmts[0] {
        Statement::Var(v) => assert_eq!(v.variables.len(), 1),
        _ => panic!("a let"),
    }
}

#[test]
fn let_after_a_comma_declares_another_variable() {
    let stmts = program("let a = 1, b = 2\n").unwrap();
    assert_eq!(
        stmts,
        vec![
            Statement::Var(Var { variables: Variables::Unique("a"), value: Box::new(num("1")) }),
            Statement::Var(Var { variables: Variables::Unique("b"), value: Box::new(num("2")) }),
        ]
    );
}

#[test]
fn function_with_arguments_default_and_spread() {
    let stmts = program("@f a, b: 1 + 2, ...rest { return a }").unwrap();
    let expected = Statement::Func(Func {
        name: "f",
        arguments: vec![
            Argument::new("a", false),
            Argument {
                is_spread: false,
                identifier: "b",
                base_value: Some(Box::new(binary(num("1"), BinaryOperator::Plus, num("2")))),
            },
            Argument::new("rest", true),
        ],
        body: Box::new(block(vec![Statement::Return(Return(Box::new(id("a"))))])),
    });
    assert_eq!(stmts, vec![expected]);
}

#[test]
fn spread_argument_must_be_last() {
    let err = program("@f ...rest, a { }").unwrap_err();
    match err {
        AspenError::Unknown { error, .. } => assert_eq!(
            error,
            "spread argument, a spread argument can only be defined at the end of the arguments list"
        ),
        other => panic!("{:?}", other),
    }
}

#[test]
fn two_spread_arguments_are_refused() {
    let err = program("@f ...a, ...b { }").unwrap_err();
    match err {
        AspenError::Unknown { error, .. } => {
            assert_eq!(error, "spread argument, a function can only have 1 spread argument")
        }
        other => panic!("{:?}", other),
    }
}

#[test]
fn duplicate_arguments_are_refused() {
    let err = program("@f a, b, a { }").unwrap_err();
    match err {
        AspenError::Unknown { error, start, end, length } => {
            assert_eq!(error, "argument 'a', function already possesses such an identifier");
            assert_eq!((start, end, length), (9, 10, 1));
        }
        other => panic!("{:?}", other),
    }
    let err = program("@f a, ...a { }").unwrap_err();
    assert!(matches!(err, AspenError::Unknown { .. }));
}

#[test]
fn a_default_value_may_be_a_range() {
    let mut parser = parser_for(" a: 1 + 2 {");
    let args = Func::parse_declaration_args(&mut parser).unwrap();
    assert_eq!(args.len(), 1);
    let mut parser = parser_for(" a: 1, b: 2: 3 {");
    let args = Func::parse_declaration_args(&mut parser).unwrap();
    assert_eq!(args.len(), 2);
    assert_eq!(args[1].base_value, Some(Box::new(range(num("2"), num("3"), None))));
    let mut parser = parser_for(" : 1 {");
    assert!(matches!(
        Func::parse_declaration_args(&mut parser),
        Err(AspenError::Expected { .. })
    ));
}

#[test]
fn statement_count_equals_the_number_of_declarations() {
    let stmts = program("let a = 1\nlet b = 2\nlet c = 3\n").unwrap();
    assert_eq!(stmts.len(), 3);
    let stmts = program("").unwrap();
    assert_eq!(stmts.len(), 0);
}

#[test]
fn for_loop_with_two_variables() {
    let stmts = program("for i, v in 1:3 { f(i) }").unwrap();
    let expected = Statement::For(For {
        args: vec!["i", "v"],
        indexed: Box::new(range(num("1"), num("3"), None)),
        body: Box::new(block(vec![stmt(call(id("f"), vec![id("i")]))])),
    });
    assert_eq!(stmts, vec![expected]);
}

#[test]
fn for_loop_needs_its_marker() {
    let err = program("for i 1:3 { }").unwrap_err();
    match err {
        AspenError::Expected { error, .. } => assert_eq!(error, "a valid argument or '->'"),
        other => panic!("{:?}", other),
    }
}

#[test]
fn while_loop() {
    let stmts = program("while a < 3 { a += 1 }").unwrap();
    let expected = Statement::While(While {
        condition: Box::new(binary(id("a"), BinaryOperator::LessThan, num("3"))),
        body: Box::new(block(vec![stmt(Expr::Assign {
            target: Box::new(id("a")),
            operator: AssignOperator::Plus,
            value: Box::new(num("1")),
        })])),
    });
    assert_eq!(stmts, vec![expected]);
}

#[test]
fn return_with_a_grafted_call() {
    let stmts = program("return f(1).x\n").unwrap();
    assert_eq!(
        stmts,
        vec![Statement::Return(Return(Box::new(Expr::ObjIndexing {
            indexed: Box::new(call(id("f"), vec![num("1")])),
            indexer: Box::new(id("x")),
        })))]
    );
}

#[test]
fn assignment_rewrites_the_expression_statement() {
    assert_eq!(
        expr_stmt("x = 2 * 3 + 4"),
        Expr::Assign {
            target: Box::new(id("x")),
            operator: AssignOperator::Equal,
            value: Box::new(binary(
                binary(num("2"), BinaryOperator::Times, num("3")),
                BinaryOperator::Plus,
                num("4")
            )),
        }
    );
}

#[test]
fn array_literal_with_extended_items() {
    assert_eq!(
        expr_stmt("x = [f(1), 2 + g(), ...rest]"),
        Expr::Assign {
            target: Box::new(id("x")),
            operator: AssignOperator::Equal,
            value: Box::new(Expr::Array(vec![
                Box::new(call(id("f"), vec![num("1")])),
                Box::new(binary(num("2"), BinaryOperator::Plus, call(id("g"), vec![]))),
                Box::new(Expr::SpeadId("rest")),
            ])),
        }
    );
}

#[test]
fn array_cannot_start_a_statement() {
    let err = program("[1, 2]").unwrap_err();
    assert!(matches!(err, AspenError::Unknown { .. }));
}

#[test]
fn array_needs_its_closing_bracket() {
    let err = program("x = [1 2]").unwrap_err();
    match err {
        AspenError::Expected { error, .. } => assert_eq!(error, "a close bracket ']'"),
        other => panic!("{:?}", other),
    }
}

#[test]
fn object_literal_with_keys_spread_and_nesting() {
    let parsed = expr_stmt("{a! 1, b! {c! x}, ...rest, z}");
    let expected = Expr::object(vec![
        ("a", num("1")),
        ("b", Expr::object(vec![("c", id("x"))])),
        ("rest", Expr::SpeadId("rest")),
        ("z", id("z")),
    ]);
    assert_eq!(parsed, expected);
    assert_eq!(parsed.field("a"), Some(&num("1")));
    assert_eq!(parsed.field("z"), Some(&id("z")));
    assert_eq!(parsed.field("c"), None);
    assert_eq!(parsed.field("b").and_then(|b| b.field("c")), Some(&id("x")));
    assert_eq!(id("a").field("a"), None);
}

#[test]
fn object_of_pairs_keeps_the_later_of_two_equal_keys() {
    let empty = Expr::object(vec![]);
    assert_eq!(empty.field("k"), None);
    let one = Expr::object(vec![("k", num("1"))]);
    assert_eq!(one.field("k"), Some(&num("1")));
    assert_ne!(one, empty);
    let two = Expr::object(vec![("k", num("1")), ("j", num("3")), ("k", num("2"))]);
    assert_eq!(two.field("k"), Some(&num("2")));
    assert_eq!(two.field("j"), Some(&num("3")));
    assert_eq!(two.field("other"), None);
    let cloned = two.clone();
    assert_eq!(cloned, two);
    assert_eq!(cloned.field("k"), Some(&num("2")));
    assert_eq!(Expr::Array(vec![Box::new(two.clone())]).clone(), Expr::Array(vec![Box::new(two)]));
}

#[test]
fn object_key_after_a_pair_waits_for_its_own_value() {
    let parsed = expr_stmt("{a! 1 b! 2}");
    assert_eq!(parsed, Expr::object(vec![("a", num("1")), ("b", num("2"))]));
    let err = program("{a! 1 b! }").unwrap_err();
    assert_eq!(
        err,
        AspenError::Expected {
            error: "a valid <expr>".to_string(),
            start: 9,
            end: 10,
            length: 1
        }
    );
}

#[test]
fn object_values_take_operators_and_calls() {
    let parsed = expr_stmt("{a! f(1), b! 1 + 2, c! g?}");
    assert_eq!(parsed.field("a"), Some(&call(id("f"), vec![num("1")])));
    assert_eq!(parsed.field("b"), Some(&binary(num("1"), BinaryOperator::Plus, num("2"))));
    assert_eq!(parsed.field("c"), Some(&Expr::PropagatedFailible(Box::new(id("g")))));
}

#[test]
fn object_key_without_value_is_an_error_not_a_panic() {
    let mut parser = parser_for("a! b! }");
    let r = aspen::parser::object::parse_obj(&mut parser);
    assert!(matches!(r, Err(AspenError::Expected { .. })));
    let mut parser = parser_for("a! + 1 }");
    let r = aspen::parser::object::parse_obj(&mut parser);
    assert!(matches!(r, Err(AspenError::Expected { .. })));
}

#[test]
fn string_concatenation_chains_to_the_right() {
    let s = |text| Expr::Value(Value::Str(text));
    assert_eq!(
        expr_stmt("\"a\" .. b .. \"c\""),
        Expr::StringConcatenation {
            left: Box::new(s("\"a\"")),
            right: Box::new(Expr::StringConcatenation {
                left: Box::new(id("b")),
                right: Box::new(s("\"c\"")),
            }),
        }
    );
}

#[test]
fn indexing_and_field_access() {
    assert_eq!(
        expr_stmt("a[1].b"),
        Expr::ObjIndexing {
            indexed: Box::new(Expr::ArrayIndexing {
                indexed: Box::new(id("a")),
                indexer: Box::new(num("1")),
            }),
            indexer: Box::new(id("b")),
        }
    );
}

#[test]
fn field_access_needs_a_name() {
    let err = program("a.1").unwrap_err();
    match err {
        AspenError::Unknown { error, .. } => {
            assert_eq!(error, "token '1', an object can only be accessed with an identifier")
        }
        other => panic!("{:?}", other),
    }
}

#[test]
fn a_number_cannot_be_called() {
    let err = program("1(2)").unwrap_err();
    match err {
        AspenError::Unknown { error, .. } => assert_eq!(error, "token '(' found"),
        other => panic!("{:?}", other),
    }
}

#[test]
fn a_failed_rewrite_leaves_the_expression_as_it_was() {
    let mut parser = parser_for("2)");
    let mut base = Box::new(num("1"));
    let r = Expr::modify_into_fn_call(&mut parser, &mut base);
    assert!(r.is_err());
    assert_eq!(*base, num("1"));
    let mut parser = parser_for("3");
    let mut full = Box::new(range(num("1"), num("2"), Some(num("1"))));
    assert!(Expr::modify_into_range(&mut parser, &mut full).is_err());
    assert_eq!(*full, range(num("1"), num("2"), Some(num("1"))));
}

#[test]
fn error_propagation_wraps_the_last_operand() {
    let mut parser = parser_for("");
    let mut base = Box::new(binary(id("a"), BinaryOperator::Plus, id("b")));
    Expr::modify_into_error_propagation(&mut parser, &mut base).unwrap();
    assert_eq!(
        *base,
        binary(id("a"), BinaryOperator::Plus, Expr::PropagatedFailible(Box::new(id("b"))))
    );
}

#[test]
fn parenthesized_expression_in_a_condition() {
    let mut parser = parser_for("(a + 1) * 2 {");
    let (e, stop) = Expr::parse_until(&mut parser, &[Token::OpenBrace]).unwrap();
    assert_eq!(stop, Token::OpenBrace);
    assert_eq!(
        *e,
        binary(
            Expr::Parenthesized(Box::new(binary(id("a"), BinaryOperator::Plus, num("1")))),
            BinaryOperator::Times,
            num("2")
        )
    );
}

#[test]
fn parse_until_refuses_a_token_that_is_no_stop() {
    let mut parser = parser_for("a }");
    let err = Expr::parse_until(&mut parser, &[Token::OpenBrace]).unwrap_err();
    match err {
        AspenError::Unknown { error, start, end, length } => {
            assert_eq!(error, "token 'CloseBrace' found");
            assert_eq!((start, end, length), (2, 3, 1));
        }
        other => panic!("{:?}", other),
    }
}

#[test]
fn import_reference() {
    let stmts = program("let io = $import(\"io\")\n").unwrap();
    assert_eq!(
        stmts,
        vec![Statement::Var(Var {
            variables: Variables::Unique("io"),
            value: Box::new(Expr::Import("\"io\"")),
        })]
    );
}

#[test]
fn comments_are_recorded_with_their_spans() {
    let mut parser = parser_for("// one\nlet x = f(1, /* two */ 2)\n");
    parse_aspen(&mut parser).unwrap();
    let comments = parser.comments();
    assert_eq!(comments.len(), 2);
    assert_eq!((comments[0].value, comments[0].start, comments[0].end), ("one", 0, 6));
    assert_eq!((comments[1].value, comments[1].start, comments[1].end), (" two ", 20, 29));
    assert_eq!(comments[1].text(), " two ");
    assert_eq!(parser.statements().len(), 1);
}

#[test]
fn a_malformed_leading_expression_ends_the_parse() {
    let err = program("...1\n2\n").unwrap_err();
    assert_eq!(
        err,
        AspenError::Expected {
            error: "an identifier following the '...'".to_string(),
            start: 3,
            end: 4,
            length: 1
        }
    );
    assert!(program("x = [1 2]\n3").is_err());
}

#[test]
fn a_range_bound_extends_what_a_return_hands_back() {
    let stmts = program("return 1:10").unwrap();
    assert_eq!(
        stmts,
        vec![Statement::Return(Return(Box::new(range(num("1"), num("10"), None))))]
    );
    let stmts = program("return 1:10:2\n").unwrap();
    assert_eq!(
        stmts,
        vec![Statement::Return(Return(Box::new(range(num("1"), num("10"), Some(num("2"))))))]
    );
}

#[test]
fn else_and_other_need_an_if_before_them() {
    assert_eq!(
        program("else { 1 }").unwrap_err(),
        AspenError::Unknown { error: "token 'else' found".to_string(), start: 0, end: 4, length: 4 }
    );
    assert_eq!(
        program("other a { 1 }").unwrap_err(),
        AspenError::Unknown {
            error: "token 'other' found".to_string(),
            start: 0,
            end: 5,
            length: 5
        }
    );
    assert!(matches!(program("x\nelse { 1 }"), Err(AspenError::Unknown { .. })));
}

#[test]
fn end_of_input_inside_a_let() {
    assert_eq!(program("let x ="), Err(AspenError::Eof));
    assert_eq!(program("let"), Err(AspenError::Eof));
}

#[test]
fn a_keyword_needs_a_space_after_it() {
    let err = program("let(a) = 1").unwrap_err();
    assert_eq!(err, AspenError::ExpectedSpace { start: 3, end: 4, length: 1 });
}

#[test]
fn a_declaration_must_end_before_the_next_token() {
    let err = program("let x = 1 )").unwrap_err();
    assert_eq!(err, AspenError::ExpectedNewline { start: 10, end: 11, length: 1 });
}

#[test]
fn an_unknown_token_carries_its_text_and_span() {
    let err = program("x\n)").unwrap_err();
    assert_eq!(
        err,
        AspenError::Unknown { error: "token ')' found".to_string(), start: 2, end: 3, length: 1 }
    );
}

#[test]
fn nothing_continues_a_statement_after_a_semicolon() {
    let err = program("x; + 1").unwrap_err();
    assert_eq!(
        err,
        AspenError::Unknown { error: "token '+' found".to_string(), start: 3, end: 4, length: 1 }
    );
    let err = program("x;[1]").unwrap_err();
    match err {
        AspenError::Unknown { error, .. } => assert_eq!(
            error,
            "token '[' found, cannot write arrays expressions in global context"
        ),
        other => panic!("{:?}", other),
    }
}

#[test]
fn a_lexing_failure_stops_the_parse_at_its_lexeme() {
    let err = program("x\n#").unwrap_err();
    assert_eq!(err, AspenError::Lexing { error: LexingError(), start: 2, end: 3, length: 1 });
}

#[test]
fn a_block_needs_its_closing_brace() {
    let err = program("while a { b").unwrap_err();
    assert_eq!(
        err,
        AspenError::Expected {
            error: "token 'CloseBrace'".to_string(),
            start: 11,
            end: 11,
            length: 0
        }
    );
}

#[test]
fn a_truncated_expression_fails_within_the_input() {
    let source = "let x = f(1, 2";
    for cut in 1..source.len() {
        let piece = &source[..cut];
        match program(piece) {
            Ok(_) => (),
            Err(AspenError::Eof) => (),
            Err(AspenError::Expected { start, end, .. })
            | Err(AspenError::Unknown { start, end, .. })
            | Err(AspenError::ExpectedSpace { start, end, .. })
            | Err(AspenError::ExpectedNewline { start, end, .. })
            | Err(AspenError::Lexing { start, end, .. }) => {
                assert!(start <= end && end <= cut, "{} {} {}", start, end, cut);
            }
            Err(other) => panic!("{:?}", other),
        }
    }
}

#[test]
fn parse_block_stops_at_the_given_token() {
    let mut parser = parser_for(" a\n b } c");
    let body = parse_block(&mut parser, Some(Token::CloseBrace)).unwrap();
    assert_eq!(body.statements().len(), 2);
    assert_eq!(parser.lexer.slice(), "}");
    assert_eq!(body, block(vec![stmt(id("a")), stmt(id("b"))]));
}

#[test]
fn expressions_are_written_as_source() {
    assert_eq!(expr_stmt("a + f(1, 2)").to_text(), "a + f(1, 2)");
    assert_eq!(expr_stmt("(a + 1) * 2").to_text(), "(a + 1) * 2");
    assert_eq!(expr_stmt("x = [1, b, ...rest]").to_text(), "x = [1, b, ...rest]");
    assert_eq!(expr_stmt("x += (a[1].b?)").to_text(), "x += (a[1].b?)");
    assert_eq!(expr_stmt("\"a\" .. b").to_text(), "\"a\"..b");
    assert_eq!(expr_stmt("1:10").to_text(), "1..10");
    assert_eq!(expr_stmt("1:10:2").to_text(), "1..10..2");
    assert_eq!(expr_stmt("2 ** 3").to_text(), "2 ^ 3");
    assert_eq!(expr_stmt("f()").to_text(), "f()");
    assert_eq!(expr_stmt("x = []").to_text(), "x = []");
    assert_eq!(Expr::Value(Value::Nil).to_text(), "nil");
    assert_eq!(Expr::Value(Value::Bool(true)).to_text(), "true");
    assert_eq!(Expr::Value(Value::Bool(false)).to_text(), "false");
    assert_eq!(Expr::Value(Value::Float("1.5")).to_text(), "1.5");
    assert_eq!(Expr::Import("io").to_text(), "$import(\"io\")");
}

#[test]
fn object_literals_are_written_in_some_order_of_their_keys() {
    assert_eq!(expr_stmt("{}").to_text(), "{}");
    assert_eq!(expr_stmt("{a! f(1)}").to_text(), "{a! f(1)}");
    let text = expr_stmt("{a! 1, b! [x, y]}").to_text();
    assert!(text == "{a! 1, b! [x, y]}" || text == "{b! [x, y], a! 1}", "{}", text);
    let nested = expr_stmt("{a! {b! 1}}").to_text();
    assert_eq!(nested, "{a! {b! 1}}");
}

#[test]
fn written_and_parsed_again_an_expression_is_the_same() {
    let sources = [
        "a",
        "12",
        "\"text\"",
        "true",
        "nil",
        "a + 1",
        "1 + 2 * 3",
        "1 * 2 + 3",
        "1 - 2 - 3",
        "(1 + 2) * 3",
        "a + f(1)",
        "f(g(1, 2), h())",
        "a[1]",
        "a[i + 1].b.c",
        "a.b(1)[2]",
        "x = 1",
        "x += f(a) * 2",
        "x = [1, [2, 3], f(4), ...rest]",
        "x = (a < b) && (c >= d)",
        "g(f(a)?, b)",
        "(a.b?) + 1",
        "a == b",
        "{a! 1, b! f(2), c! [x, {d! y}]}",
        "{z, y! z}",
    ];
    for source in sources {
        let first = expr_stmt(source);
        let text = first.to_text();
        let second = expr_stmt(&text);
        assert_eq!(second, first, "{} was written as {}", source, text);
    }
}
