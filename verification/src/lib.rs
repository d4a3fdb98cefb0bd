//! Front end of a small expression-oriented language: a lexer with one-token
//! lookahead, a recursive-descent parser with operator-precedence climbing,
//! and the abstract syntax tree the parser builds.
//!
//! Every parsing function carries a contract that relates the value it returns
//! to a mathematical model of the grammar, stated over sequences of characters.

pub mod ast;
pub mod codegen;
pub mod display;
pub mod error;
pub mod grammar;
pub mod lexer;
pub mod parser;
pub mod pipeline;
pub mod scan;
pub mod token;
pub mod vocabulary;
