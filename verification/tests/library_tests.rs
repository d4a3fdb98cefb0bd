use kaleidoscope::ast::{ExprAst, Function, GenericAst, Prototype};
use kaleidoscope::codegen::{CodeGenerator, CodeGeneratorLLVM, Compiler};
use kaleidoscope::display::structured_slice_print;
use kaleidoscope::error::Error;
use kaleidoscope::parser::Parser;
use kaleidoscope::pipeline::Pipeline;
use kaleidoscope::token::{get_token_precedence, Token};
use kaleidoscope::vocabulary::{get_op_precedence, is_symbol_char, is_valid_numeral};

fn var(name: &str) -> ExprAst {
    ExprAst::VariableExpr { name: name.to_string() }
}

fn num(text: &str) -> ExprAst {
    ExprAst::NumberExpr { number: text.to_string() }
}

fn bin(op: char, lhs: ExprAst, rhs: ExprAst) -> ExprAst {
    ExprAst::BinaryExpr { op, lhs: Box::new(lhs), rhs: Box::new(rhs) }
}

#[test]
fn symbol_chars_are_recognized() {
    for c in ['(', ')', ',', '+', '-', '*', '/', '<', '>'] {
        assert!(is_symbol_char(c));
    }
    for c in ['a', 'Z', '0', '#', '.', ' ', '_'] {
        assert!(!is_symbol_char(c));
    }
}

#[test]
fn operator_precedence_table() {
    assert_eq!(get_op_precedence(&'<'), 10);
    assert_eq!(get_op_precedence(&'>'), 10);
    assert_eq!(get_op_precedence(&'+'), 20);
    assert_eq!(get_op_precedence(&'-'), 20);
    assert_eq!(get_op_precedence(&'*'), 30);
    assert_eq!(get_op_precedence(&'/'), 30);
    assert_eq!(get_op_precedence(&'('), -1);
    assert_eq!(get_op_precedence(&'x'), -1);
}

#[test]
fn token_precedence_follows_the_table() {
    assert_eq!(get_token_precedence(&Token::TokSymbol('*')), 30);
    assert_eq!(get_token_precedence(&Token::TokSymbol('(')), -1);
    assert_eq!(get_token_precedence(&Token::TokIdentifier("x".to_string())), -1);
    assert_eq!(get_token_precedence(&Token::TokEof), -1);
}

#[test]
fn token_symbol_classification() {
    assert!(Token::TokSymbol('+').is_tok_symbol());
    assert!(!Token::TokDef.is_tok_symbol());
    assert!(!Token::TokNumber("1".to_string()).is_tok_symbol());
}

#[test]
fn numeral_grammar() {
    assert!(is_valid_numeral("1"));
    assert!(is_valid_numeral("007"));
    assert!(is_valid_numeral("1.6"));
    assert!(is_valid_numeral("1."));
    assert!(!is_valid_numeral(""));
    assert!(!is_valid_numeral(".5"));
    assert!(!is_valid_numeral("1.6.7"));
    assert!(!is_valid_numeral("1e5"));
    assert!(!is_valid_numeral("12x"));
    // Everything the grammar admits is a well-formed float literal.
    for text in ["1", "007", "1.6", "1."] {
        assert!(text.parse::<f64>().is_ok());
    }
}

#[test]
fn prototype_accessors() {
    let proto = Prototype::new("atan2".to_string(), vec!["a".to_string(), "b".to_string()]);
    assert_eq!(proto.get_name(), "atan2");
    assert_eq!(proto.get_args(), &["a".to_string(), "b".to_string()]);
}

#[test]
fn function_accessors() {
    let proto = Prototype::new("f".to_string(), vec!["a".to_string()]);
    let func = Function::new(proto.clone(), Box::new(var("a")));
    assert_eq!(func.get_proto(), &proto);
    assert_eq!(func.get_body(), &var("a"));
}

#[test]
fn structured_print_joins_with_commas() {
    assert_eq!(structured_slice_print(&[]), ")");
    assert_eq!(structured_slice_print(&["a".to_string()]), "a)");
    assert_eq!(
        structured_slice_print(&["a".to_string(), "bc".to_string(), "d".to_string()]),
        "a, bc, d)"
    );
}

#[test]
fn rendering_is_deterministic() {
    let tree = bin('-', bin('+', var("x"), num("2")), var("y"));
    let once = tree.to_text();
    let twice = tree.to_text();
    assert_eq!(once, twice);
    assert_eq!(once, "((x + 2) - y)");
}

#[test]
fn rendering_expressions() {
    assert_eq!(num("1.6").to_text(), "1.6");
    assert_eq!(var("q").to_text(), "q");
    assert_eq!(bin('*', num("4"), var("q")).to_text(), "(4 * q)");
    let call = ExprAst::CallExpr {
        callee: "f".to_string(),
        args: vec![num("1"), bin('+', var("x"), num("2"))],
    };
    assert_eq!(call.to_text(), "f(1, (x + 2))");
    let empty_call = ExprAst::CallExpr { callee: "f".to_string(), args: vec![] };
    assert_eq!(empty_call.to_text(), "f()");
}

#[test]
fn rendering_prototypes_and_functions() {
    let proto = Prototype::new("my_tan".to_string(), vec!["a".to_string(), "b".to_string()]);
    assert_eq!(proto.to_text(), "def my_tan(a, b)");
    let func = Function::new(proto, Box::new(bin('+', var("a"), var("b"))));
    assert_eq!(func.to_text(), "def my_tan(a, b)\n\t(a + b)");
    let ast = GenericAst::FuncAst(func);
    assert_eq!(ast.to_text(), "def my_tan(a, b)\n\t(a + b)");
}

#[test]
fn rendered_expressions_parse_again() {
    // The rendering is not a byte-identical round trip of the source, but a
    // rendered expression is itself parseable, to an equal tree.
    let tree = parse_expr("x + 2 - 4 * q / y");
    let rendered = tree.to_text();
    assert_eq!(rendered, "((x + 2) - ((4 * q) / y))");
    let reparsed = parse_expr(&rendered);
    assert_eq!(reparsed, tree);
}

fn parse_expr(src: &str) -> ExprAst {
    match Parser::new(src).build_next_ast().unwrap() {
        GenericAst::ExprAst(e) => e,
        other => panic!("expected an expression, got {:?}", other),
    }
}

#[test]
fn error_carries_its_message() {
    let err = Error::new("lexer: bad input".to_string());
    assert_eq!(err.message(), "Custom error: lexer: bad input");
}

#[test]
fn code_generation_is_not_done_here() {
    let generator = CodeGeneratorLLVM;
    assert_eq!(generator.generate(vec![]), Err(String::new()));
    let compiler = Compiler::new(CodeGeneratorLLVM);
    let ast = Parser::new("x + 1").build_next_ast().unwrap();
    assert_eq!(compiler.compile(vec![ast]), Err(String::new()));
}

#[test]
fn pipeline_holds_its_stages() {
    let pipeline: Pipeline<u32> = Pipeline::new(vec![1, 2, 3]);
    assert_eq!(pipeline.num_stages(), 3);
    let empty: Pipeline<u32> = Pipeline::new(vec![]);
    assert_eq!(empty.num_stages(), 0);
}

#[test]
fn token_diagnostic_text() {
    assert_eq!(Token::TokEof.to_text(), "<eof>");
    assert_eq!(Token::TokDef.to_text(), "<def>");
    assert_eq!(Token::TokExtern.to_text(), "<extern>");
    assert_eq!(Token::TokSymbol('+').to_text(), "<primary> +");
    assert_eq!(
        Token::TokIdentifier("atan2".to_string()).to_text(),
        "<identifier> atan2"
    );
    assert_eq!(Token::TokNumber("1.6".to_string()).to_text(), "<number> 1.6");
    assert_eq!(
        Token::TokComment("# note".to_string()).to_text(),
        "<comment> # note"
    );
}

#[test]
fn default_token_is_def() {
    assert_eq!(Token::default(), Token::TokDef);
}
