//! Mathematical model of parsing: a definitional parser over the source text,
//! one function per grammar production, with operator-precedence climbing.
//!
//! Each function takes the text and the position where parsing starts and
//! yields the parsed node with the position just after it, or the kind of the
//! error. Positions handed from one production to the next are clamped into
//! the text by `resume_at`/`advance_past` so that recursion visibly
//! terminates; whenever positions are in range — which parsing guarantees —
//! the clamps change nothing.

use vstd::prelude::*;

use crate::ast::{Ast, Expr, Func, Proto};
use crate::scan::{lemma_scan_bounds, scan};
use crate::token::Tok;
use crate::vocabulary::{spec_is_valid_numeral, spec_op_precedence};

verus! {

/// The ways one statement can fail to parse.
#[derive(PartialEq, Eq, Structural, Debug, Clone, Copy)]
pub enum ParseErrorKind {
    /// The top-level dispatch saw the end of the input.
    UnexpectedEof,
    /// A prototype missed its name, its `(` or its `)`.
    MalformedPrototype,
    /// A `,` or `)` was missed while scanning call arguments.
    MalformedCall,
    /// A primary unit was expected but the token starts none.
    ExpectedPrimary,
    /// A `(` without a matching `)`.
    UnterminatedGroup,
    /// A numeric literal that is not a numeral of the language.
    InvalidNumberLiteral,
}

/// Position `k`, kept at or after `i` and inside the text.
pub open spec fn resume_at(i: int, k: int, len: int) -> int {
    if i <= k <= len {
        k
    } else {
        i
    }
}

/// Position `k`, kept strictly after `i` and inside the text.
pub open spec fn advance_past(i: int, k: int, len: int) -> int {
    if i < k <= len {
        k
    } else {
        i + 1
    }
}

/// Parse one primary unit: a number, a variable or call, or a parenthesized
/// expression.
pub open spec fn sp_unit(s: Seq<char>, i: int) -> Result<(Expr, int), ParseErrorKind>
    decreases s.len() - i, 2int,
    via sp_unit_decreases
{
    if !(0 <= i <= s.len()) {
        Err(ParseErrorKind::ExpectedPrimary)
    } else {
        let (t, j) = scan(s, i);
        match t {
            Tok::Number(w) => if spec_is_valid_numeral(w) {
                Ok((Expr::Num(w), j))
            } else {
                Err(ParseErrorKind::InvalidNumberLiteral)
            },
            Tok::Identifier(name) => {
                let (t2, j2) = scan(s, j);
                if t2 == Tok::Symbol('(') {
                    let (t3, j3) = scan(s, j2);
                    if t3 == Tok::Symbol(')') {
                        Ok((Expr::Call { callee: name, args: Seq::empty() }, j3))
                    } else {
                        sp_call_args(s, advance_past(i, j2, s.len() as int), name, Seq::empty())
                    }
                } else {
                    Ok((Expr::Var(name), j))
                }
            },
            Tok::Symbol(c) => if c == '(' {
                match sp_expr(s, advance_past(i, j, s.len() as int)) {
                    Err(e) => Err(e),
                    Ok((inner, k)) => {
                        let (t4, k4) = scan(s, k);
                        if t4 == Tok::Symbol(')') {
                            Ok((inner, k4))
                        } else {
                            Err(ParseErrorKind::UnterminatedGroup)
                        }
                    },
                }
            } else {
                Err(ParseErrorKind::ExpectedPrimary)
            },
            _ => Err(ParseErrorKind::ExpectedPrimary),
        }
    }
}

#[via_fn]
proof fn sp_unit_decreases(s: Seq<char>, i: int) {
    if 0 <= i <= s.len() {
        lemma_scan_bounds(s, i);
    }
}

/// Parse the comma-separated arguments of a call, the first one starting at
/// `i`, and the closing `)`; `acc` holds the arguments already parsed.
pub open spec fn sp_call_args(s: Seq<char>, i: int, callee: Seq<char>, acc: Seq<Expr>) -> Result<
    (Expr, int),
    ParseErrorKind,
>
    decreases s.len() - i, 4int,
    via sp_call_args_decreases
{
    if !(0 <= i <= s.len()) {
        Err(ParseErrorKind::MalformedCall)
    } else if scan(s, i).0 is Eof {
        Err(ParseErrorKind::MalformedCall)
    } else {
        match sp_expr(s, i) {
            Err(e) => Err(e),
            Ok((arg, k)) => {
                let (t, k1) = scan(s, k);
                if t == Tok::Symbol(')') {
                    Ok((Expr::Call { callee, args: acc.push(arg) }, k1))
                } else if t == Tok::Symbol(',') {
                    sp_call_args(s, advance_past(i, k1, s.len() as int), callee, acc.push(arg))
                } else {
                    Err(ParseErrorKind::MalformedCall)
                }
            },
        }
    }
}

#[via_fn]
proof fn sp_call_args_decreases(s: Seq<char>, i: int, callee: Seq<char>, acc: Seq<Expr>) {
    if 0 <= i <= s.len() {
        lemma_scan_bounds(s, i);
    }
}

/// Parse one full expression: a primary unit, then every following binary
/// operator of nonnegative precedence with its right-hand side.
pub open spec fn sp_expr(s: Seq<char>, i: int) -> Result<(Expr, int), ParseErrorKind>
    decreases s.len() - i, 3int,
{
    if !(0 <= i <= s.len()) {
        Err(ParseErrorKind::ExpectedPrimary)
    } else {
        match sp_unit(s, i) {
            Err(e) => Err(e),
            Ok((lhs, j)) => sp_op_rhs(s, resume_at(i, j, s.len() as int), lhs, 0),
        }
    }
}

/// Precedence climbing: while the token at `i` is a binary operator of
/// precedence at least `min`, consume it, parse a right-hand side, and fold
/// the two sides into a binary node.
pub open spec fn sp_op_rhs(s: Seq<char>, i: int, lhs: Expr, min: int) -> Result<
    (Expr, int),
    ParseErrorKind,
>
    decreases s.len() - i, 0int,
    via sp_op_rhs_decreases
{
    if !(0 <= i <= s.len()) {
        Ok((lhs, i))
    } else {
        let (t, j) = scan(s, i);
        match t {
            Tok::Symbol(op) => if spec_op_precedence(op) >= min {
                match sp_unit(s, advance_past(i, j, s.len() as int)) {
                    Err(e) => Err(e),
                    Ok((rhs0, k0)) => {
                        let k = advance_past(i, k0, s.len() as int);
                        match sp_absorb(s, k, rhs0, spec_op_precedence(op)) {
                            Err(e) => Err(e),
                            Ok((rhs, m0)) => {
                                let m = advance_past(i, m0, s.len() as int);
                                sp_op_rhs(
                                    s,
                                    m,
                                    Expr::Bin { op, lhs: Box::new(lhs), rhs: Box::new(rhs) },
                                    min,
                                )
                            },
                        }
                    },
                }
            } else {
                Ok((lhs, i))
            },
            _ => Ok((lhs, i)),
        }
    }
}

#[via_fn]
proof fn sp_op_rhs_decreases(s: Seq<char>, i: int, lhs: Expr, min: int) {
    if 0 <= i <= s.len() {
        lemma_scan_bounds(s, i);
    }
}

/// The inner absorption step of precedence climbing: while the operator that
/// follows a right-hand side binds strictly tighter than `prec`, re-parse the
/// right-hand side with the raised threshold, so that the tighter operators
/// sink into the right subtree.
pub open spec fn sp_absorb(s: Seq<char>, i: int, rhs: Expr, prec: int) -> Result<
    (Expr, int),
    ParseErrorKind,
>
    decreases s.len() - i, 1int,
    via sp_absorb_decreases
{
    if !(0 <= i <= s.len()) {
        Ok((rhs, i))
    } else {
        let (t, j) = scan(s, i);
        match t {
            Tok::Symbol(op) => if spec_op_precedence(op) > prec {
                match sp_op_rhs(s, i, rhs, prec + 1) {
                    Err(e) => Err(e),
                    Ok((rhs2, k0)) => sp_absorb(
                        s,
                        advance_past(i, k0, s.len() as int),
                        rhs2,
                        prec,
                    ),
                }
            } else {
                Ok((rhs, i))
            },
            _ => Ok((rhs, i)),
        }
    }
}

#[via_fn]
proof fn sp_absorb_decreases(s: Seq<char>, i: int, rhs: Expr, prec: int) {
    if 0 <= i <= s.len() {
        lemma_scan_bounds(s, i);
    }
}

/// Collect prototype parameters: identifiers, each continued past a following
/// comma, stopping at the first token that is no identifier.
pub open spec fn sp_params(s: Seq<char>, i: int, acc: Seq<Seq<char>>) -> (Seq<Seq<char>>, int)
    decreases s.len() - i,
    via sp_params_decreases
{
    if !(0 <= i <= s.len()) {
        (acc, i)
    } else {
        let (t, j) = scan(s, i);
        match t {
            Tok::Identifier(name) => {
                let (t2, j2) = scan(s, j);
                if t2 == Tok::Symbol(',') {
                    sp_params(s, advance_past(i, j2, s.len() as int), acc.push(name))
                } else {
                    (acc.push(name), j)
                }
            },
            _ => (acc, i),
        }
    }
}

#[via_fn]
proof fn sp_params_decreases(s: Seq<char>, i: int, acc: Seq<Seq<char>>) {
    if 0 <= i <= s.len() {
        lemma_scan_bounds(s, i);
    }
}

/// Parse a prototype: a name, `(`, the parameters, `)`.
pub open spec fn sp_proto(s: Seq<char>, i: int) -> Result<(Proto, int), ParseErrorKind> {
    let (t, j) = scan(s, i);
    match t {
        Tok::Identifier(name) => {
            let (t2, j2) = scan(s, j);
            if t2 == Tok::Symbol('(') {
                let (params, k) = sp_params(s, j2, Seq::empty());
                let (t3, k3) = scan(s, k);
                if t3 == Tok::Symbol(')') {
                    Ok((Proto { name, params }, k3))
                } else {
                    Err(ParseErrorKind::MalformedPrototype)
                }
            } else {
                Err(ParseErrorKind::MalformedPrototype)
            }
        },
        _ => Err(ParseErrorKind::MalformedPrototype),
    }
}

/// Parse one top-level statement: a function definition after `def`, a bare
/// prototype after `extern`, or one expression; the end of the input is an
/// error.
pub open spec fn sp_stmt(s: Seq<char>, i: int) -> Result<(Ast, int), ParseErrorKind> {
    let (t, j) = scan(s, i);
    match t {
        Tok::Eof => Err(ParseErrorKind::UnexpectedEof),
        Tok::Def => match sp_proto(s, j) {
            Err(e) => Err(e),
            Ok((proto, k)) => match sp_expr(s, k) {
                Err(e) => Err(e),
                Ok((body, m)) => Ok((Ast::Func(Func { proto, body }), m)),
            },
        },
        Tok::Extern => match sp_proto(s, j) {
            Err(e) => Err(e),
            Ok((proto, k)) => Ok((Ast::Proto(proto), k)),
        },
        _ => match sp_expr(s, i) {
            Err(e) => Err(e),
            Ok((e2, k)) => Ok((Ast::Expr(e2), k)),
        },
    }
}

} // verus!
