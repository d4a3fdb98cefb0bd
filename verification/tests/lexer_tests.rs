use kaleidoscope::lexer::Lexer;
use kaleidoscope::token::Token;

fn first_token(src: &str) -> Token {
    let mut tokenizer = Lexer::new(src);
    tokenizer.pop()
}

#[test]
fn can_tokenize_empty() {
    assert_eq!(first_token(""), Token::TokEof);
}

#[test]
fn can_tokenize_open_parenthesis() {
    assert_eq!(first_token(" ( "), Token::TokSymbol('('));
}

#[test]
fn can_tokenize_close_parenthesis() {
    assert_eq!(first_token(" ) "), Token::TokSymbol(')'));
}

#[test]
fn can_tokenize_op_add() {
    assert_eq!(first_token(" + "), Token::TokSymbol('+'));
}

#[test]
fn can_tokenize_op_sub() {
    assert_eq!(first_token(" - "), Token::TokSymbol('-'));
}

#[test]
fn can_tokenize_op_mul() {
    assert_eq!(first_token(" * "), Token::TokSymbol('*'));
}

#[test]
fn can_tokenize_op_div() {
    assert_eq!(first_token(" / "), Token::TokSymbol('/'));
}

#[test]
fn can_tokenize_op_le() {
    assert_eq!(first_token(" < "), Token::TokSymbol('<'));
}

#[test]
fn can_tokenize_op_ge() {
    assert_eq!(first_token(" > "), Token::TokSymbol('>'));
}

#[test]
fn can_tokenize_op_comma() {
    assert_eq!(first_token(" , "), Token::TokSymbol(','));
}

#[test]
fn can_tokenize_eof() {
    assert_eq!(first_token("  "), Token::TokEof);
}

#[test]
fn can_tokenize_float() {
    let got = first_token("   1.6   ");
    assert_eq!(got, Token::TokNumber("1.6".to_string()));
    // The literal's text is a well-formed double-precision value.
    assert_eq!("1.6".parse::<f64>().unwrap(), 1.6);
}

#[test]
fn can_tokenize_def() {
    assert_eq!(first_token(" def "), Token::TokDef);
}

#[test]
fn can_tokenize_extern() {
    assert_eq!(first_token(" extern "), Token::TokExtern);
}

#[test]
fn can_tokenize_strings() {
    assert_eq!(
        first_token(" saiftyfirst "),
        Token::TokIdentifier("saiftyfirst".to_string())
    );
}

#[test]
fn can_tokenize_atan2() {
    assert_eq!(first_token(" atan2 "), Token::TokIdentifier("atan2".to_string()));
}

#[test]
fn can_tokenize_comments() {
    assert_eq!(
        first_token(" # defo herlmeer weg\n"),
        Token::TokComment("# defo herlmeer weg".to_string())
    );
}

#[test]
fn every_symbol_char_tokenizes_to_its_symbol() {
    for c in ['(', ')', ',', '+', '-', '*', '/', '<', '>'] {
        assert_eq!(first_token(&c.to_string()), Token::TokSymbol(c));
        assert_eq!(first_token(&format!("  {}  ", c)), Token::TokSymbol(c));
    }
}

#[test]
fn comments_run_to_the_line_end_only() {
    // A comment may contain whitespace and symbol characters; the line
    // terminator ends it and is not part of it.
    let mut tokenizer = Lexer::new("# x + (1\n2");
    assert_eq!(tokenizer.pop(), Token::TokComment("# x + (1".to_string()));
    assert_eq!(tokenizer.pop(), Token::TokNumber("2".to_string()));
    assert_eq!(tokenizer.pop(), Token::TokEof);
}

#[test]
fn pop_after_eof_keeps_yielding_eof() {
    let mut tokenizer = Lexer::new("x");
    assert_eq!(tokenizer.pop(), Token::TokIdentifier("x".to_string()));
    assert_eq!(tokenizer.pop(), Token::TokEof);
    assert_eq!(tokenizer.pop(), Token::TokEof);
    assert_eq!(tokenizer.pop(), Token::TokEof);
}

#[test]
fn peek_is_idempotent_and_pop_advances() {
    let mut tokenizer = Lexer::new("def x");
    assert_eq!(tokenizer.peek(), &Token::TokDef);
    assert_eq!(tokenizer.peek(), &Token::TokDef);
    assert_eq!(tokenizer.pop(), Token::TokDef);
    assert_eq!(tokenizer.peek(), &Token::TokIdentifier("x".to_string()));
}

#[test]
fn identifiers_may_contain_digits() {
    assert_eq!(first_token("x1y"), Token::TokIdentifier("x1y".to_string()));
}

#[test]
fn number_scan_stops_at_symbols() {
    let mut tokenizer = Lexer::new("4*q");
    assert_eq!(tokenizer.pop(), Token::TokNumber("4".to_string()));
    assert_eq!(tokenizer.pop(), Token::TokSymbol('*'));
    assert_eq!(tokenizer.pop(), Token::TokIdentifier("q".to_string()));
}
