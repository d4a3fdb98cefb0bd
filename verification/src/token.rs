//! The lexical units of the language, as values the lexer hands out, and the
//! mathematical token they stand for.

use vstd::prelude::*;
use vstd::string::StringExecFns;

use crate::display::push_char;
use crate::vocabulary::spec_op_precedence;

verus! {

/// Mathematical model of a token: what a `Token` stands for, with its text as
/// a sequence of characters.
pub enum Tok {
    Eof,
    Comment(Seq<char>),
    Def,
    Extern,
    Symbol(char),
    Identifier(Seq<char>),
    /// A numeric literal, kept as its source text. Whether the text is a
    /// well-formed numeral is judged by the parser, not the lexer.
    Number(Seq<char>),
}

/// One lexical unit. A numeric literal carries its source text; the parser
/// checks the text against the numeral grammar when it builds a number node,
/// so that a malformed numeral surfaces as a recoverable parse error.
#[derive(PartialEq, Debug, Clone)]
pub enum Token {
    TokEof,
    TokComment(String),
    TokDef,
    TokExtern,
    TokSymbol(char),
    TokIdentifier(String),
    TokNumber(String),
}

impl View for Token {
    type V = Tok;

    open spec fn view(&self) -> Tok {
        match self {
            Token::TokEof => Tok::Eof,
            Token::TokComment(s) => Tok::Comment(s@),
            Token::TokDef => Tok::Def,
            Token::TokExtern => Tok::Extern,
            Token::TokSymbol(c) => Tok::Symbol(*c),
            Token::TokIdentifier(s) => Tok::Identifier(s@),
            Token::TokNumber(s) => Tok::Number(s@),
        }
    }
}

/// Precedence of the token when it stands where a binary operator may: the
/// operator's precedence for a symbol token, -1 for every other token.
pub open spec fn spec_token_precedence(t: Tok) -> int {
    match t {
        Tok::Symbol(c) => spec_op_precedence(c),
        _ => -1,
    }
}

pub fn get_token_precedence(tok: &Token) -> (p: i8)
    ensures
        p as int == spec_token_precedence(tok@),
{
    if let Token::TokSymbol(ch) = tok {
        return crate::vocabulary::get_op_precedence(ch);
    }
    -1
}

impl Token {
    /// Whether this token is a one-character symbol token.
    pub fn is_tok_symbol(&self) -> (r: bool)
        ensures
            r == (self@ is Symbol),
    {
        match self {
            Token::TokSymbol(_) => true,
            _ => false,
        }
    }
}

/// The diagnostic rendering of a token: its kind in angle brackets, then its
/// text where it has one.
pub open spec fn render_token(t: Tok) -> Seq<char> {
    match t {
        Tok::Eof => "<eof>"@,
        Tok::Comment(s) => "<comment> "@ + s,
        Tok::Def => "<def>"@,
        Tok::Extern => "<extern>"@,
        Tok::Symbol(c) => "<primary> "@ + seq![c],
        Tok::Identifier(s) => "<identifier> "@ + s,
        Tok::Number(s) => "<number> "@ + s,
    }
}

impl Token {
    /// The diagnostic text of this token.
    pub fn to_text(&self) -> (r: String)
        ensures
            r@ == render_token(self@),
    {
        match self {
            Token::TokEof => String::from_str("<eof>"),
            Token::TokComment(val) => {
                let mut out = String::from_str("<comment> ");
                out.append(val.as_str());
                out
            },
            Token::TokDef => String::from_str("<def>"),
            Token::TokExtern => String::from_str("<extern>"),
            Token::TokSymbol(val) => {
                let mut out = String::from_str("<primary> ");
                push_char(&mut out, *val);
                proof {
                    assert(out@ =~= render_token(self@));
                }
                out
            },
            Token::TokIdentifier(val) => {
                let mut out = String::from_str("<identifier> ");
                out.append(val.as_str());
                out
            },
            Token::TokNumber(val) => {
                let mut out = String::from_str("<number> ");
                out.append(val.as_str());
                out
            },
        }
    }
}

impl Default for Token {
    /// The token the lexer's cache takes when its value is moved out.
    fn default() -> (r: Token)
        ensures
            r == Token::TokDef,
    {
        Token::TokDef
    }
}

} // verus!
