//! The parser: recursive descent with operator-precedence climbing, consuming
//! tokens from the lexer and building one statement's tree per call. Every
//! parsing method returns exactly what the grammar model yields on the
//! unconsumed text.

use vstd::prelude::*;
use vstd::string::StringExecFns;

use crate::ast::{
    args_view, lemma_args_view_empty, lemma_args_view_push, lemma_call_wf, Ast, Expr, ExprAst,
    Function, GenericAst, Proto, Prototype,
};
use crate::grammar::{
    sp_absorb, sp_call_args, sp_expr, sp_op_rhs, sp_params, sp_proto, sp_stmt, sp_unit,
    ParseErrorKind,
};
use crate::lexer::Lexer;
use crate::scan::{lemma_scan_bounds, scan};
use crate::token::{get_token_precedence, spec_token_precedence, Tok, Token};
use crate::vocabulary::is_valid_numeral;

verus! {

/// What message a parse error of each kind carries.
pub open spec fn spec_message(k: ParseErrorKind) -> Seq<char> {
    match k {
        ParseErrorKind::UnexpectedEof => "EOF"@,
        ParseErrorKind::MalformedPrototype => "Attempted to parse malformed prototype AST."@,
        ParseErrorKind::MalformedCall => (
        "Attempted to parse badly formatted function call (expected ',')."@),
        ParseErrorKind::ExpectedPrimary => "Attempted to parse non-primary AST as primary."@,
        ParseErrorKind::UnterminatedGroup => "Expected enclosed expression to end with ')'."@,
        ParseErrorKind::InvalidNumberLiteral => "Attempted to parse malformed number literal."@,
    }
}

/// The error one failed statement surfaces: its kind, from which its
/// descriptive message follows.
#[derive(PartialEq, Eq, Structural, Debug, Clone, Copy)]
pub struct ParseError {
    pub kind: ParseErrorKind,
}

impl ParseError {
    /// The error's descriptive message.
    pub fn message(&self) -> (r: String)
        ensures
            r@ == spec_message(self.kind),
    {
        match self.kind {
            ParseErrorKind::UnexpectedEof => String::from_str("EOF"),
            ParseErrorKind::MalformedPrototype => String::from_str(
                "Attempted to parse malformed prototype AST.",
            ),
            ParseErrorKind::MalformedCall => String::from_str(
                "Attempted to parse badly formatted function call (expected ',').",
            ),
            ParseErrorKind::ExpectedPrimary => String::from_str(
                "Attempted to parse non-primary AST as primary.",
            ),
            ParseErrorKind::UnterminatedGroup => String::from_str(
                "Expected enclosed expression to end with ')'.",
            ),
            ParseErrorKind::InvalidNumberLiteral => String::from_str(
                "Attempted to parse malformed number literal.",
            ),
        }
    }
}

/// The parser: owns the lexer and builds one statement per call to
/// `build_next_ast`, so that a text of several statements is consumed
/// incrementally.
pub struct Parser {
    lexer: Lexer,
}

impl Parser {
    /// The whole source text the parser walks over.
    pub closed spec fn text(self) -> Seq<char> {
        self.lexer.text()
    }

    /// Position of the first unconsumed token.
    pub closed spec fn cur(self) -> int {
        self.lexer.cur()
    }

    pub closed spec fn wf(self) -> bool {
        self.lexer.wf()
    }

    /// A well-formed parser's cursor lies inside its text.
    pub proof fn lemma_wf_bounds(self)
        requires
            self.wf(),
        ensures
            0 <= self.cur() <= self.text().len(),
    {
        self.lexer.lemma_wf_bounds();
    }

    pub fn new(src: &str) -> (r: Parser)
        ensures
            r.wf(),
            r.text() == src@,
            r.cur() == 0,
    {
        Parser { lexer: Lexer::new(src) }
    }

    fn pop_lexer(&mut self) -> (t: Token)
        requires
            old(self).wf(),
        ensures
            final(self).wf(),
            final(self).text() == old(self).text(),
            t@ == scan(old(self).text(), old(self).cur()).0,
            final(self).cur() == scan(old(self).text(), old(self).cur()).1,
            old(self).cur() <= final(self).cur() <= old(self).text().len(),
            !(t@ is Eof) ==> old(self).cur() < final(self).cur(),
    {
        proof {
            self.lexer.lemma_wf_bounds();
            lemma_scan_bounds(self.lexer.text(), self.lexer.cur());
        }
        self.lexer.pop()
    }

    fn peek_lexer(&self) -> (t: &Token)
        requires
            self.wf(),
        ensures
            t@ == scan(self.text(), self.cur()).0,
    {
        self.lexer.peek()
    }

    /// Whether the next token is the one-character symbol `c`.
    fn peek_is_symbol(&self, c: char) -> (r: bool)
        requires
            self.wf(),
        ensures
            r == (scan(self.text(), self.cur()).0 == Tok::Symbol(c)),
    {
        match self.peek_lexer() {
            Token::TokSymbol(x) => *x == c,
            _ => false,
        }
    }

    /// Whether the next token is the end of the input.
    fn peek_is_eof(&self) -> (r: bool)
        requires
            self.wf(),
        ensures
            r == (scan(self.text(), self.cur()).0 is Eof),
    {
        match self.peek_lexer() {
            Token::TokEof => true,
            _ => false,
        }
    }

    /// Build the next statement's tree: a function definition after `def`, a
    /// bare prototype after `extern`, otherwise one expression.
    pub fn build_next_ast(&mut self) -> (r: Result<GenericAst, ParseError>)
        requires
            old(self).wf(),
        ensures
            final(self).wf(),
            final(self).text() == old(self).text(),
            match r {
                Ok(ast) => sp_stmt(old(self).text(), old(self).cur()) == Ok::<
                    (Ast, int),
                    ParseErrorKind,
                >((ast@, final(self).cur())) && ast@.wf(),
                Err(pe) => sp_stmt(old(self).text(), old(self).cur()) == Err::<
                    (Ast, int),
                    ParseErrorKind,
                >(pe.kind),
            },
            old(self).cur() <= final(self).cur() <= old(self).text().len(),
    {
        proof {
            self.lemma_wf_bounds();
        }
        let kind: u8 = match self.peek_lexer() {
            Token::TokEof => 0,
            Token::TokDef => 1,
            Token::TokExtern => 2,
            _ => 3,
        };
        if kind == 0 {
            Err(ParseError { kind: ParseErrorKind::UnexpectedEof })
        } else if kind == 1 {
            match self.parse_function_definition() {
                Ok(f) => Ok(GenericAst::FuncAst(f)),
                Err(e) => Err(e),
            }
        } else if kind == 2 {
            match self.parse_extern_call_expression() {
                Ok(p) => Ok(GenericAst::PrototypeAst(p)),
                Err(e) => Err(e),
            }
        } else {
            match self.parse_abstract_expression() {
                Ok(e) => Ok(GenericAst::ExprAst(e)),
                Err(e) => Err(e),
            }
        }
    }

    /// After `def`: a prototype, then one expression as the body.
    fn parse_function_definition(&mut self) -> (r: Result<Function, ParseError>)
        requires
            old(self).wf(),
            scan(old(self).text(), old(self).cur()).0 is Def,
        ensures
            final(self).wf(),
            final(self).text() == old(self).text(),
            match r {
                Ok(f) => sp_stmt(old(self).text(), old(self).cur()) == Ok::<
                    (Ast, int),
                    ParseErrorKind,
                >((Ast::Func(f@), final(self).cur())) && f@.body.wf(),
                Err(pe) => sp_stmt(old(self).text(), old(self).cur()) == Err::<
                    (Ast, int),
                    ParseErrorKind,
                >(pe.kind),
            },
            old(self).cur() <= final(self).cur() <= old(self).text().len(),
    {
        let _ = self.pop_lexer();
        let proto = match self.parse_prototype() {
            Ok(p) => p,
            Err(e) => {
                return Err(e);
            },
        };
        let body = match self.parse_abstract_expression() {
            Ok(b) => b,
            Err(e) => {
                return Err(e);
            },
        };
        Ok(Function::new(proto, Box::new(body)))
    }

    /// After `extern`: a prototype, returned on its own.
    fn parse_extern_call_expression(&mut self) -> (r: Result<Prototype, ParseError>)
        requires
            old(self).wf(),
            scan(old(self).text(), old(self).cur()).0 is Extern,
        ensures
            final(self).wf(),
            final(self).text() == old(self).text(),
            match r {
                Ok(p) => sp_stmt(old(self).text(), old(self).cur()) == Ok::<
                    (Ast, int),
                    ParseErrorKind,
                >((Ast::Proto(p@), final(self).cur())),
                Err(pe) => sp_stmt(old(self).text(), old(self).cur()) == Err::<
                    (Ast, int),
                    ParseErrorKind,
                >(pe.kind),
            },
            old(self).cur() <= final(self).cur() <= old(self).text().len(),
    {
        let _ = self.pop_lexer();
        match self.parse_prototype() {
            Ok(p) => Ok(p),
            Err(e) => Err(e),
        }
    }

    /// A prototype: a name, `(`, parameter names separated by commas, `)`.
    fn parse_prototype(&mut self) -> (r: Result<Prototype, ParseError>)
        requires
            old(self).wf(),
        ensures
            final(self).wf(),
            final(self).text() == old(self).text(),
            match r {
                Ok(p) => sp_proto(old(self).text(), old(self).cur()) == Ok::<
                    (Proto, int),
                    ParseErrorKind,
                >((p@, final(self).cur())),
                Err(pe) => sp_proto(old(self).text(), old(self).cur()) == Err::<
                    (Proto, int),
                    ParseErrorKind,
                >(pe.kind),
            },
            old(self).cur() <= final(self).cur() <= old(self).text().len(),
    {
        proof {
            self.lemma_wf_bounds();
        }
        let name_tok = self.pop_lexer();
        let fn_ident = match name_tok {
            Token::TokIdentifier(id) => id,
            _ => {
                return Err(ParseError { kind: ParseErrorKind::MalformedPrototype });
            },
        };
        let open_tok = self.pop_lexer();
        match open_tok {
            Token::TokSymbol('(') => {},
            _ => {
                return Err(ParseError { kind: ParseErrorKind::MalformedPrototype });
            },
        }
        let no_params: Vec<String> = Vec::new();
        proof {
            assert(no_params.deep_view() =~= Seq::<Seq<char>>::empty());
        }
        let params = self.parse_prototype_params(no_params);
        let close_tok = self.pop_lexer();
        match close_tok {
            Token::TokSymbol(')') => Ok(Prototype::new(fn_ident, params)),
            _ => Err(ParseError { kind: ParseErrorKind::MalformedPrototype }),
        }
    }

    /// Collect prototype parameters into `params`: identifiers, each
    /// continued past a following comma, stopping at the first token that is
    /// no identifier.
    fn parse_prototype_params(&mut self, params: Vec<String>) -> (r: Vec<String>)
        requires
            old(self).wf(),
        ensures
            final(self).wf(),
            final(self).text() == old(self).text(),
            sp_params(old(self).text(), old(self).cur(), params.deep_view()) == (
            r.deep_view(),
            final(self).cur(),
            ),
            old(self).cur() <= final(self).cur() <= old(self).text().len(),
        decreases old(self).text().len() - old(self).cur(),
    {
        proof {
            self.lemma_wf_bounds();
        }
        let is_ident: bool = match self.peek_lexer() {
            Token::TokIdentifier(_) => true,
            _ => false,
        };
        if !is_ident {
            return params;
        }
        let id_tok = self.pop_lexer();
        let arg_ident = match id_tok {
            Token::TokIdentifier(id) => id,
            _ => {
                proof {
                    assert(false);
                }
                return params;
            },
        };
        let ghost params_before = params.deep_view();
        let mut collected = params;
        collected.push(arg_ident);
        proof {
            assert(collected.deep_view() =~= params_before.push(arg_ident@));
        }
        if self.peek_is_symbol(',') {
            let _ = self.pop_lexer();
            self.parse_prototype_params(collected)
        } else {
            collected
        }
    }

    /// One full expression: a primary unit, then precedence climbing over the
    /// binary operators that follow.
    fn parse_abstract_expression(&mut self) -> (r: Result<ExprAst, ParseError>)
        requires
            old(self).wf(),
        ensures
            final(self).wf(),
            final(self).text() == old(self).text(),
            match r {
                Ok(e) => sp_expr(old(self).text(), old(self).cur()) == Ok::<
                    (Expr, int),
                    ParseErrorKind,
                >((e@, final(self).cur())) && e@.wf() && old(self).cur() < final(self).cur(),
                Err(pe) => sp_expr(old(self).text(), old(self).cur()) == Err::<
                    (Expr, int),
                    ParseErrorKind,
                >(pe.kind),
            },
            old(self).cur() <= final(self).cur() <= old(self).text().len(),
        decreases old(self).text().len() - old(self).cur(), 3int,
    {
        proof {
            self.lemma_wf_bounds();
        }
        let lhs = match self.parse_single_expression_unit() {
            Ok(l) => l,
            Err(e) => {
                return Err(e);
            },
        };
        self.parse_op_and_rhs(lhs, 0)
    }

    /// Precedence climbing: fold every following operator of precedence at
    /// least `min_precedence` into the expression.
    fn parse_op_and_rhs(&mut self, lhs: ExprAst, min_precedence: i8) -> (r: Result<
        ExprAst,
        ParseError,
    >)
        requires
            old(self).wf(),
            lhs@.wf(),
            min_precedence >= 0,
        ensures
            final(self).wf(),
            final(self).text() == old(self).text(),
            match r {
                Ok(e) => sp_op_rhs(old(self).text(), old(self).cur(), lhs@, min_precedence as int)
                    == Ok::<(Expr, int), ParseErrorKind>((e@, final(self).cur())) && e@.wf(),
                Err(pe) => sp_op_rhs(
                    old(self).text(),
                    old(self).cur(),
                    lhs@,
                    min_precedence as int,
                ) == Err::<(Expr, int), ParseErrorKind>(pe.kind),
            },
            old(self).cur() <= final(self).cur() <= old(self).text().len(),
            r is Ok && spec_token_precedence(scan(old(self).text(), old(self).cur()).0)
                >= min_precedence as int ==> old(self).cur() < final(self).cur(),
        decreases old(self).text().len() - old(self).cur(), 0int,
    {
        proof {
            self.lemma_wf_bounds();
        }
        let prec = get_token_precedence(self.peek_lexer());
        if prec < min_precedence {
            return Ok(lhs);
        }
        let op_tok = self.pop_lexer();
        let op = match op_tok {
            Token::TokSymbol(c) => c,
            _ => {
                proof {
                    assert(false);
                }
                return Err(ParseError { kind: ParseErrorKind::ExpectedPrimary });
            },
        };
        let rhs0 = match self.parse_single_expression_unit() {
            Ok(u) => u,
            Err(e) => {
                return Err(e);
            },
        };
        let rhs = match self.parse_absorb(rhs0, prec) {
            Ok(u) => u,
            Err(e) => {
                return Err(e);
            },
        };
        self.parse_op_and_rhs(
            ExprAst::BinaryExpr { op, lhs: Box::new(lhs), rhs: Box::new(rhs) },
            min_precedence,
        )
    }

    /// The inner absorption step of precedence climbing: while the next
    /// operator binds strictly tighter than `prec`, re-parse the right-hand
    /// side with the raised threshold.
    fn parse_absorb(&mut self, rhs: ExprAst, prec: i8) -> (r: Result<ExprAst, ParseError>)
        requires
            old(self).wf(),
            rhs@.wf(),
            0 <= prec <= 30,
        ensures
            final(self).wf(),
            final(self).text() == old(self).text(),
            match r {
                Ok(e) => sp_absorb(old(self).text(), old(self).cur(), rhs@, prec as int) == Ok::<
                    (Expr, int),
                    ParseErrorKind,
                >((e@, final(self).cur())) && e@.wf(),
                Err(pe) => sp_absorb(old(self).text(), old(self).cur(), rhs@, prec as int)
                    == Err::<(Expr, int), ParseErrorKind>(pe.kind),
            },
            old(self).cur() <= final(self).cur() <= old(self).text().len(),
        decreases old(self).text().len() - old(self).cur(), 1int,
    {
        proof {
            self.lemma_wf_bounds();
        }
        let peek_prec = get_token_precedence(self.peek_lexer());
        if peek_prec > prec {
            let rhs2 = match self.parse_op_and_rhs(rhs, prec + 1) {
                Ok(u) => u,
                Err(e) => {
                    return Err(e);
                },
            };
            self.parse_absorb(rhs2, prec)
        } else {
            Ok(rhs)
        }
    }

    /// One primary unit: a number, a variable or call, or a parenthesized
    /// expression.
    fn parse_single_expression_unit(&mut self) -> (r: Result<ExprAst, ParseError>)
        requires
            old(self).wf(),
        ensures
            final(self).wf(),
            final(self).text() == old(self).text(),
            match r {
                Ok(e) => sp_unit(old(self).text(), old(self).cur()) == Ok::<
                    (Expr, int),
                    ParseErrorKind,
                >((e@, final(self).cur())) && e@.wf() && old(self).cur() < final(self).cur(),
                Err(pe) => sp_unit(old(self).text(), old(self).cur()) == Err::<
                    (Expr, int),
                    ParseErrorKind,
                >(pe.kind),
            },
            old(self).cur() <= final(self).cur() <= old(self).text().len(),
        decreases old(self).text().len() - old(self).cur(), 2int,
    {
        proof {
            self.lemma_wf_bounds();
        }
        let kind: u8 = match self.peek_lexer() {
            Token::TokNumber(_) => 0,
            Token::TokIdentifier(_) => 1,
            Token::TokSymbol(c) => if *c == '(' {
                2
            } else {
                3
            },
            _ => 3,
        };
        if kind == 0 {
            self.parse_number_expression()
        } else if kind == 1 {
            self.parse_variable_or_call_expression()
        } else if kind == 2 {
            self.parse_enclosed_expression()
        } else {
            Err(ParseError { kind: ParseErrorKind::ExpectedPrimary })
        }
    }

    /// A number literal, checked against the numeral grammar.
    fn parse_number_expression(&mut self) -> (r: Result<ExprAst, ParseError>)
        requires
            old(self).wf(),
            scan(old(self).text(), old(self).cur()).0 is Number,
        ensures
            final(self).wf(),
            final(self).text() == old(self).text(),
            match r {
                Ok(e) => sp_unit(old(self).text(), old(self).cur()) == Ok::<
                    (Expr, int),
                    ParseErrorKind,
                >((e@, final(self).cur())) && e@.wf() && old(self).cur() < final(self).cur(),
                Err(pe) => sp_unit(old(self).text(), old(self).cur()) == Err::<
                    (Expr, int),
                    ParseErrorKind,
                >(pe.kind),
            },
            old(self).cur() <= final(self).cur() <= old(self).text().len(),
    {
        proof {
            self.lemma_wf_bounds();
        }
        let tok = self.pop_lexer();
        match tok {
            Token::TokNumber(text) => {
                if is_valid_numeral(text.as_str()) {
                    Ok(ExprAst::NumberExpr { number: text })
                } else {
                    Err(ParseError { kind: ParseErrorKind::InvalidNumberLiteral })
                }
            },
            _ => {
                proof {
                    assert(false);
                }
                Err(ParseError { kind: ParseErrorKind::ExpectedPrimary })
            },
        }
    }

    /// An identifier: a bare variable reference, or, followed by `(`, a call
    /// with comma-separated argument expressions.
    fn parse_variable_or_call_expression(&mut self) -> (r: Result<ExprAst, ParseError>)
        requires
            old(self).wf(),
            scan(old(self).text(), old(self).cur()).0 is Identifier,
        ensures
            final(self).wf(),
            final(self).text() == old(self).text(),
            match r {
                Ok(e) => sp_unit(old(self).text(), old(self).cur()) == Ok::<
                    (Expr, int),
                    ParseErrorKind,
                >((e@, final(self).cur())) && e@.wf() && old(self).cur() < final(self).cur(),
                Err(pe) => sp_unit(old(self).text(), old(self).cur()) == Err::<
                    (Expr, int),
                    ParseErrorKind,
                >(pe.kind),
            },
            old(self).cur() <= final(self).cur() <= old(self).text().len(),
        decreases old(self).text().len() - old(self).cur(), 1int,
    {
        proof {
            self.lemma_wf_bounds();
        }
        let ghost s = self.text();
        let tok = self.pop_lexer();
        let identifier = match tok {
            Token::TokIdentifier(id) => id,
            _ => {
                proof {
                    assert(false);
                }
                return Err(ParseError { kind: ParseErrorKind::ExpectedPrimary });
            },
        };
        if !self.peek_is_symbol('(') {
            return Ok(ExprAst::VariableExpr { name: identifier });
        }
        proof {
            lemma_scan_bounds(s, self.cur());
        }
        let _ = self.pop_lexer();
        if self.peek_is_symbol(')') {
            proof {
                lemma_scan_bounds(s, self.cur());
                lemma_args_view_empty();
            }
            let _ = self.pop_lexer();
            let result = ExprAst::CallExpr { callee: identifier, args: Vec::new() };
            proof {
                lemma_call_wf(result@->Call_callee, result@->Call_args);
            }
            return Ok(result);
        }
        proof {
            lemma_args_view_empty();
        }
        self.parse_call_args(identifier, Vec::new())
    }

    /// Collect the comma-separated arguments of a call into `args`, the next
    /// one starting at the current position, through the closing `)`.
    fn parse_call_args(&mut self, callee: String, args: Vec<ExprAst>) -> (r: Result<
        ExprAst,
        ParseError,
    >)
        requires
            old(self).wf(),
            forall|k: int|
                0 <= k < args_view(args@).len() ==> #[trigger] args_view(args@)[k].wf(),
        ensures
            final(self).wf(),
            final(self).text() == old(self).text(),
            match r {
                Ok(e) => sp_call_args(old(self).text(), old(self).cur(), callee@, args_view(args@))
                    == Ok::<(Expr, int), ParseErrorKind>((e@, final(self).cur())) && e@.wf()
                    && old(self).cur() < final(self).cur(),
                Err(pe) => sp_call_args(
                    old(self).text(),
                    old(self).cur(),
                    callee@,
                    args_view(args@),
                ) == Err::<(Expr, int), ParseErrorKind>(pe.kind),
            },
            old(self).cur() <= final(self).cur() <= old(self).text().len(),
        decreases old(self).text().len() - old(self).cur(), 4int,
    {
        proof {
            self.lemma_wf_bounds();
        }
        let ghost s = self.text();
        if self.peek_is_eof() {
            return Err(ParseError { kind: ParseErrorKind::MalformedCall });
        }
        let arg = match self.parse_abstract_expression() {
            Ok(a) => a,
            Err(e) => {
                return Err(e);
            },
        };
        let ghost args_before = args@;
        let ghost argv = arg@;
        let mut collected = args;
        proof {
            lemma_args_view_push(args_before, arg);
        }
        collected.push(arg);
        proof {
            assert(args_view(collected@) == args_view(args_before).push(argv));
            assert forall|k: int|
                0 <= k < args_view(collected@).len() implies #[trigger] args_view(
                collected@,
            )[k].wf() by {
                if k < args_view(args_before).len() {
                    assert(args_view(collected@)[k] == args_view(args_before)[k]);
                } else {
                    assert(args_view(collected@)[k] == argv);
                }
            }
        }
        if self.peek_is_symbol(')') {
            proof {
                lemma_scan_bounds(s, self.cur());
            }
            let _ = self.pop_lexer();
            let result = ExprAst::CallExpr { callee, args: collected };
            proof {
                lemma_call_wf(result@->Call_callee, args_view(collected@));
                assert(result@.wf());
            }
            return Ok(result);
        }
        if self.peek_is_symbol(',') {
            proof {
                lemma_scan_bounds(s, self.cur());
            }
            let _ = self.pop_lexer();
            self.parse_call_args(callee, collected)
        } else {
            Err(ParseError { kind: ParseErrorKind::MalformedCall })
        }
    }

    /// A parenthesized expression: `(`, one full expression, `)`; the
    /// parentheses leave no node of their own.
    fn parse_enclosed_expression(&mut self) -> (r: Result<ExprAst, ParseError>)
        requires
            old(self).wf(),
            scan(old(self).text(), old(self).cur()).0 == Tok::Symbol('('),
        ensures
            final(self).wf(),
            final(self).text() == old(self).text(),
            match r {
                Ok(e) => sp_unit(old(self).text(), old(self).cur()) == Ok::<
                    (Expr, int),
                    ParseErrorKind,
                >((e@, final(self).cur())) && e@.wf() && old(self).cur() < final(self).cur(),
                Err(pe) => sp_unit(old(self).text(), old(self).cur()) == Err::<
                    (Expr, int),
                    ParseErrorKind,
                >(pe.kind),
            },
            old(self).cur() <= final(self).cur() <= old(self).text().len(),
        decreases old(self).text().len() - old(self).cur(), 1int,
    {
        proof {
            self.lemma_wf_bounds();
        }
        let _ = self.pop_lexer();
        let res = match self.parse_abstract_expression() {
            Ok(e) => e,
            Err(e) => {
                return Err(e);
            },
        };
        if self.peek_is_symbol(')') {
            proof {
                lemma_scan_bounds(self.text(), self.cur());
            }
            let _ = self.pop_lexer();
            Ok(res)
        } else {
            Err(ParseError { kind: ParseErrorKind::UnterminatedGroup })
        }
    }
}

} // verus!
