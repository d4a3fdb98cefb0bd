use kaleidoscope::ast::{ExprAst, Function, GenericAst, Prototype};
use kaleidoscope::grammar::ParseErrorKind;
use kaleidoscope::parser::Parser;

fn var(name: &str) -> ExprAst {
    ExprAst::VariableExpr { name: name.to_string() }
}

fn num(text: &str) -> ExprAst {
    ExprAst::NumberExpr { number: text.to_string() }
}

fn bin(op: char, lhs: ExprAst, rhs: ExprAst) -> ExprAst {
    ExprAst::BinaryExpr { op, lhs: Box::new(lhs), rhs: Box::new(rhs) }
}

fn parse_one_expr(src: &str) -> ExprAst {
    match Parser::new(src).build_next_ast().unwrap() {
        GenericAst::ExprAst(e) => e,
        other => panic!("expected an expression, got {:?}", other),
    }
}

#[test]
fn can_parse_no_arg_extern() {
    let src = r###"
            extern atan2()
        "###;
    let got = Parser::new(src).build_next_ast().unwrap();
    assert_eq!(
        got,
        GenericAst::PrototypeAst(Prototype::new("atan2".to_string(), vec![]))
    );
}

#[test]
fn can_parse_multi_arg_extern() {
    let src = r###"
            extern atan2(arg, arg2)
        "###;
    let got = Parser::new(src).build_next_ast().unwrap();
    assert_eq!(
        got,
        GenericAst::PrototypeAst(Prototype::new(
            "atan2".to_string(),
            vec!["arg".to_string(), "arg2".to_string()]
        ))
    );
}

#[test]
fn can_parse_basic_arithmetic_expression() {
    let src = r###"
            x + 1
        "###;
    let got = Parser::new(src).build_next_ast().unwrap();
    assert_eq!(
        got,
        GenericAst::ExprAst(bin('+', var("x"), num("1")))
    );
}

#[test]
fn can_parse_chained_arithmetic_expression() {
    let src = r###"
            x + 2 -4 * q / y
        "###;
    let got = Parser::new(src).build_next_ast().unwrap();
    let expected = bin('-', parse_one_expr("x + 2"), parse_one_expr("4 * q / y"));
    assert_eq!(got, GenericAst::ExprAst(expected));
}

#[test]
fn can_parse_precedence_changing_arithmetic_expression() {
    let src = r###"
            x + 2 -4 * q / y + 2
        "###;
    let got = Parser::new(src).build_next_ast().unwrap();
    let expected = bin(
        '+',
        bin('-', parse_one_expr("x + 2"), parse_one_expr("4 * q / y")),
        num("2"),
    );
    assert_eq!(got, GenericAst::ExprAst(expected));
}

#[test]
fn can_parse_parethesis_containing_arithmetic_expression() {
    let src = r###"
            x / (2 - 4 + q) / y
        "###;
    let got = Parser::new(src).build_next_ast().unwrap();
    let expected = bin(
        '/',
        bin('/', parse_one_expr("x"), parse_one_expr("2 -4 + q")),
        var("y"),
    );
    assert_eq!(got, GenericAst::ExprAst(expected));
}

#[test]
fn can_parse_parse_compound_b2b_statements() {
    let src = r###"
            x * (z * q) / y
            extern atan2(arg, arg2)
        "###;
    let mut parser = Parser::new(src);
    let first = parser.build_next_ast().unwrap();
    let expected = bin(
        '/',
        bin('*', parse_one_expr("x"), parse_one_expr("(z * q)")),
        var("y"),
    );
    assert_eq!(first, GenericAst::ExprAst(expected));
    let second = parser.build_next_ast().unwrap();
    assert_eq!(
        second,
        GenericAst::PrototypeAst(Prototype::new(
            "atan2".to_string(),
            vec!["arg".to_string(), "arg2".to_string()]
        ))
    );
}

#[test]
fn can_parse_single_argument_function() {
    let src = r###"
            def my_tan(arg1)
                arg1
        "###;
    let got = Parser::new(src).build_next_ast().unwrap();
    assert_eq!(
        got,
        GenericAst::FuncAst(Function::new(
            Prototype::new("my_tan".to_string(), vec!["arg1".to_string()]),
            Box::new(var("arg1"))
        ))
    );
}

#[test]
fn can_parse_multi_argument_function() {
    let src = r###"
            def my_tan(arg1, arg2)
                arg1 + arg2
        "###;
    let got = Parser::new(src).build_next_ast().unwrap();
    assert_eq!(
        got,
        GenericAst::FuncAst(Function::new(
            Prototype::new("my_tan".to_string(), vec!["arg1".to_string(), "arg2".to_string()]),
            Box::new(bin('+', var("arg1"), var("arg2")))
        ))
    );
}

#[test]
fn parser_driver() {
    let src = r###"
            def fib(x)
                if x < 3 then
                    1
                else
                    fib(x-1) + fib(x-2)

            fib(40)
        "###;
    let mut parser = Parser::new(src);
    assert!(parser.build_next_ast().is_ok());
}

#[test]
fn precedence_and_associativity() {
    // `*` and `/` bind tighter than `+` and `-`; equal precedence groups
    // left-to-right.
    let got = parse_one_expr("x + 2 - 4 * q / y");
    let expected = bin(
        '-',
        bin('+', var("x"), num("2")),
        bin('/', bin('*', num("4"), var("q")), var("y")),
    );
    assert_eq!(got, expected);
}

#[test]
fn parenthesization_overrides_precedence() {
    let got = parse_one_expr("(1 + 2) * 3");
    let expected = bin('*', bin('+', num("1"), num("2")), num("3"));
    assert_eq!(got, expected);
}

#[test]
fn comparison_binds_loosest() {
    let got = parse_one_expr("x < y + 1");
    let expected = bin('<', var("x"), bin('+', var("y"), num("1")));
    assert_eq!(got, expected);
}

#[test]
fn call_with_no_arguments() {
    let got = parse_one_expr("f()");
    assert_eq!(
        got,
        ExprAst::CallExpr { callee: "f".to_string(), args: vec![] }
    );
}

#[test]
fn call_with_two_positional_arguments() {
    let got = parse_one_expr("f(1, 2)");
    assert_eq!(
        got,
        ExprAst::CallExpr {
            callee: "f".to_string(),
            args: vec![num("1"), num("2")],
        }
    );
}

#[test]
fn call_arguments_may_be_expressions() {
    let got = parse_one_expr("f(x + 1, g(2))");
    assert_eq!(
        got,
        ExprAst::CallExpr {
            callee: "f".to_string(),
            args: vec![
                bin('+', var("x"), num("1")),
                ExprAst::CallExpr { callee: "g".to_string(), args: vec![num("2")] },
            ],
        }
    );
}

#[test]
fn multi_statement_streaming() {
    let mut parser = Parser::new("x + 1\nextern atan2(a, b)");
    let first = parser.build_next_ast().unwrap();
    assert_eq!(first, GenericAst::ExprAst(bin('+', var("x"), num("1"))));
    let second = parser.build_next_ast().unwrap();
    assert_eq!(
        second,
        GenericAst::PrototypeAst(Prototype::new(
            "atan2".to_string(),
            vec!["a".to_string(), "b".to_string()]
        ))
    );
    let third = parser.build_next_ast();
    assert_eq!(third.unwrap_err().kind, ParseErrorKind::UnexpectedEof);
}

#[test]
fn missing_open_paren_is_malformed_prototype() {
    let err = Parser::new("def foo a").build_next_ast().unwrap_err();
    assert_eq!(err.kind, ParseErrorKind::MalformedPrototype);
}

#[test]
fn missing_close_paren_in_call_is_malformed_call() {
    let err = Parser::new("f(1,").build_next_ast().unwrap_err();
    assert_eq!(err.kind, ParseErrorKind::MalformedCall);
}

#[test]
fn empty_input_is_unexpected_eof() {
    let err = Parser::new("").build_next_ast().unwrap_err();
    assert_eq!(err.kind, ParseErrorKind::UnexpectedEof);
    let err = Parser::new("   \n  ").build_next_ast().unwrap_err();
    assert_eq!(err.kind, ParseErrorKind::UnexpectedEof);
}

#[test]
fn stray_token_is_expected_primary() {
    let err = Parser::new(")").build_next_ast().unwrap_err();
    assert_eq!(err.kind, ParseErrorKind::ExpectedPrimary);
    let err = Parser::new("x + *").build_next_ast().unwrap_err();
    assert_eq!(err.kind, ParseErrorKind::ExpectedPrimary);
}

#[test]
fn unclosed_group_is_unterminated_group() {
    let err = Parser::new("(1 + 2").build_next_ast().unwrap_err();
    assert_eq!(err.kind, ParseErrorKind::UnterminatedGroup);
}

#[test]
fn malformed_numeral_is_invalid_number_literal() {
    let err = Parser::new("12.3.4").build_next_ast().unwrap_err();
    assert_eq!(err.kind, ParseErrorKind::InvalidNumberLiteral);
    let err = Parser::new("1e5").build_next_ast().unwrap_err();
    assert_eq!(err.kind, ParseErrorKind::InvalidNumberLiteral);
}

#[test]
fn missing_call_separator_is_malformed_call() {
    let err = Parser::new("f(1 2)").build_next_ast().unwrap_err();
    assert_eq!(err.kind, ParseErrorKind::MalformedCall);
}

#[test]
fn error_messages_describe_their_kind() {
    let err = Parser::new("").build_next_ast().unwrap_err();
    assert_eq!(err.message(), "EOF");
    let err = Parser::new("def foo a").build_next_ast().unwrap_err();
    assert_eq!(err.message(), "Attempted to parse malformed prototype AST.");
    let err = Parser::new("f(1,").build_next_ast().unwrap_err();
    assert_eq!(
        err.message(),
        "Attempted to parse badly formatted function call (expected ',')."
    );
    let err = Parser::new(")").build_next_ast().unwrap_err();
    assert_eq!(err.message(), "Attempted to parse non-primary AST as primary.");
}
