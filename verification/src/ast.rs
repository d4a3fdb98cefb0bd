//! The abstract syntax tree the parser builds, together with its mathematical
//! model: number literals, variable references, binary expressions, calls,
//! prototypes and function definitions.

use vstd::prelude::*;

use crate::display::{push_char, spec_join_upto, structured_slice_print};
use crate::vocabulary::{spec_is_valid_numeral, spec_op_precedence};

verus! {

/// Mathematical model of an expression node.
pub enum Expr {
    Num(Seq<char>),
    Var(Seq<char>),
    Bin { op: char, lhs: Box<Expr>, rhs: Box<Expr> },
    Call { callee: Seq<char>, args: Seq<Expr> },
}

/// Mathematical model of a prototype: a function's name and its parameter
/// names in source order.
pub struct Proto {
    pub name: Seq<char>,
    pub params: Seq<Seq<char>>,
}

/// Mathematical model of a function definition.
pub struct Func {
    pub proto: Proto,
    pub body: Expr,
}

/// Mathematical model of one top-level statement.
pub enum Ast {
    Expr(Expr),
    Proto(Proto),
    Func(Func),
}

impl Expr {
    /// Well-formedness: every operator comes from the precedence table and
    /// every number literal is a numeral of the language.
    pub open spec fn wf(self) -> bool
        decreases self, 0int,
    {
        match self {
            Expr::Num(w) => spec_is_valid_numeral(w),
            Expr::Var(_) => true,
            Expr::Bin { op, lhs, rhs } => spec_op_precedence(op) >= 0 && lhs.wf() && rhs.wf(),
            Expr::Call { callee, args } => args_wf(args, 0),
        }
    }
}

/// Well-formedness of the arguments of a call from position `i` on.
pub open spec fn args_wf(s: Seq<Expr>, i: int) -> bool
    decreases s, s.len() - i,
{
    if 0 <= i < s.len() {
        s[i].wf() && args_wf(s, i + 1)
    } else {
        true
    }
}

/// The arguments from `i` on are well-formed exactly when each one is.
pub proof fn lemma_args_wf_iff(s: Seq<Expr>, i: int)
    requires
        0 <= i,
    ensures
        args_wf(s, i) <==> (forall|k: int| i <= k < s.len() ==> #[trigger] s[k].wf()),
    decreases s.len() - i,
{
    if 0 <= i < s.len() {
        lemma_args_wf_iff(s, i + 1);
        if args_wf(s, i) {
            assert forall|k: int| i <= k < s.len() implies #[trigger] s[k].wf() by {
                if k == i {
                    assert(s[i].wf());
                }
            }
        }
        if forall|k: int| i <= k < s.len() ==> #[trigger] s[k].wf() {
            assert(s[i].wf());
            assert(args_wf(s, i + 1));
        }
    }
}

/// A call node whose arguments are all well-formed is well-formed.
pub proof fn lemma_call_wf(callee: Seq<char>, args: Seq<Expr>)
    requires
        forall|i: int| 0 <= i < args.len() ==> #[trigger] args[i].wf(),
    ensures
        (Expr::Call { callee, args }).wf(),
{
    lemma_args_wf_iff(args, 0);
}

impl Ast {
    /// Well-formedness of a statement: its expressions are well-formed.
    pub open spec fn wf(self) -> bool {
        match self {
            Ast::Expr(e) => e.wf(),
            Ast::Proto(_) => true,
            Ast::Func(f) => f.body.wf(),
        }
    }
}

/// An expression node. A number literal carries its source text, which is
/// always a numeral of the language in a tree the parser built.
#[derive(PartialEq, Debug)]
pub enum ExprAst {
    NumberExpr { number: String },
    VariableExpr { name: String },
    BinaryExpr { op: char, lhs: Box<ExprAst>, rhs: Box<ExprAst> },
    CallExpr { callee: String, args: Vec<ExprAst> },
}

/// The expression a syntax node stands for.
pub open spec fn expr_view(e: ExprAst) -> Expr
    decreases e,
{
    match e {
        ExprAst::NumberExpr { number } => Expr::Num(number@),
        ExprAst::VariableExpr { name } => Expr::Var(name@),
        ExprAst::BinaryExpr { op, lhs, rhs } => Expr::Bin {
            op: op,
            lhs: Box::new(expr_view(*lhs)),
            rhs: Box::new(expr_view(*rhs)),
        },
        ExprAst::CallExpr { callee, args } => Expr::Call {
            callee: callee@,
            args: args_view(args@),
        },
    }
}

/// The expressions a sequence of syntax nodes stands for, in order.
pub open spec fn args_view(s: Seq<ExprAst>) -> Seq<Expr>
    decreases s,
{
    Seq::new(
        s.len(),
        |i: int|
            if 0 <= i < s.len() {
                expr_view(s[i])
            } else {
                Expr::Var(Seq::empty())
            },
    )
}

/// Viewing a sequence of nodes one longer appends the view of the new node.
pub proof fn lemma_args_view_push(s: Seq<ExprAst>, e: ExprAst)
    ensures
        args_view(s.push(e)) == args_view(s).push(expr_view(e)),
{
    assert(args_view(s.push(e)) =~= args_view(s).push(expr_view(e)));
}

/// The view of no nodes is no expressions.
pub proof fn lemma_args_view_empty()
    ensures
        args_view(Seq::<ExprAst>::empty()) == Seq::<Expr>::empty(),
{
    assert(args_view(Seq::<ExprAst>::empty()) =~= Seq::<Expr>::empty());
}

impl View for ExprAst {
    type V = Expr;

    open spec fn view(&self) -> Expr {
        expr_view(*self)
    }
}

/// A function's declared interface: name and parameter names, shared by
/// `extern` declarations and `def` definitions.
#[derive(PartialEq, Debug, Clone)]
pub struct Prototype {
    name: String,
    args: Vec<String>,
}

impl View for Prototype {
    type V = Proto;

    closed spec fn view(&self) -> Proto {
        Proto { name: self.name@, params: self.args.deep_view() }
    }
}

/// A function definition: a prototype and the expression that is its body.
#[derive(PartialEq, Debug)]
pub struct Function {
    proto: Prototype,
    body: Box<ExprAst>,
}

impl View for Function {
    type V = Func;

    closed spec fn view(&self) -> Func {
        Func { proto: self.proto@, body: self.body@ }
    }
}

/// One top-level statement: a bare expression, an `extern` prototype, or a
/// function definition.
#[derive(PartialEq, Debug)]
pub enum GenericAst {
    ExprAst(ExprAst),
    PrototypeAst(Prototype),
    FuncAst(Function),
}

impl View for GenericAst {
    type V = Ast;

    open spec fn view(&self) -> Ast {
        match self {
            GenericAst::ExprAst(e) => Ast::Expr(e@),
            GenericAst::PrototypeAst(p) => Ast::Proto(p@),
            GenericAst::FuncAst(f) => Ast::Func(f@),
        }
    }
}

impl Prototype {
    pub fn new(name: String, args: Vec<String>) -> (r: Prototype)
        ensures
            r@ == (Proto { name: name@, params: args.deep_view() }),
    {
        Prototype { name, args }
    }

    pub fn get_name(&self) -> (r: &str)
        ensures
            r@ == self@.name,
    {
        self.name.as_str()
    }

    pub fn get_args(&self) -> (r: &[String])
        ensures
            r.deep_view() == self@.params,
    {
        self.args.as_slice()
    }
}

impl Function {
    pub fn new(proto: Prototype, body: Box<ExprAst>) -> (r: Function)
        ensures
            r@ == (Func { proto: proto@, body: body@ }),
    {
        Function { proto, body }
    }

    pub fn get_proto(&self) -> (r: &Prototype)
        ensures
            r@ == self@.proto,
    {
        &self.proto
    }

    pub fn get_body(&self) -> (r: &ExprAst)
        ensures
            r@ == self@.body,
    {
        &self.body
    }
}

/// The canonical textual rendering of an expression: numbers and variables by
/// their text, binary expressions infix as `(lhs op rhs)`, calls as
/// `callee(arg, arg)`.
pub open spec fn render_expr(e: Expr) -> Seq<char>
    decreases e, 0int,
{
    match e {
        Expr::Num(w) => w,
        Expr::Var(n) => n,
        Expr::Bin { op, lhs, rhs } => seq!['('] + render_expr(*lhs) + seq![' ', op, ' ']
            + render_expr(*rhs) + seq![')'],
        Expr::Call { callee, args } => callee + seq!['('] + spec_join_upto(
            render_parts(args),
            args.len() as int,
        ) + seq![')'],
    }
}

/// The renderings of a sequence of expressions, in order.
pub open spec fn render_parts(args: Seq<Expr>) -> Seq<Seq<char>>
    decreases args, 1int,
{
    Seq::new(
        args.len(),
        |i: int|
            if 0 <= i < args.len() {
                render_expr(args[i])
            } else {
                Seq::empty()
            },
    )
}

/// A prototype renders as `def name(param, param)`.
pub open spec fn render_proto(p: Proto) -> Seq<char> {
    "def "@ + p.name + seq!['('] + spec_join_upto(p.params, p.params.len() as int) + seq![')']
}

/// A function renders as its prototype, then its body on an indented line.
pub open spec fn render_func(f: Func) -> Seq<char> {
    render_proto(f.proto) + seq!['\n', '\t'] + render_expr(f.body)
}

/// The rendering of one statement.
pub open spec fn render_ast(a: Ast) -> Seq<char> {
    match a {
        Ast::Expr(e) => render_expr(e),
        Ast::Proto(p) => render_proto(p),
        Ast::Func(f) => render_func(f),
    }
}

impl ExprAst {
    /// The canonical text of this expression; a fixed tree always renders to
    /// the same text.
    pub fn to_text(&self) -> (r: String)
        ensures
            r@ == render_expr(self@),
        decreases self,
    {
        match self {
            ExprAst::NumberExpr { number } => number.clone(),
            ExprAst::VariableExpr { name } => name.clone(),
            ExprAst::BinaryExpr { op, lhs, rhs } => {
                let mut out = String::new();
                push_char(&mut out, '(');
                let left = lhs.to_text();
                out.append(left.as_str());
                push_char(&mut out, ' ');
                push_char(&mut out, *op);
                push_char(&mut out, ' ');
                let right = rhs.to_text();
                out.append(right.as_str());
                push_char(&mut out, ')');
                proof {
                    assert(self@ == (Expr::Bin {
                        op: *op,
                        lhs: Box::new(lhs@),
                        rhs: Box::new(rhs@),
                    }));
                    assert(render_expr(self@) == seq!['('] + render_expr(lhs@) + seq![
                        ' ',
                        *op,
                        ' ',
                    ] + render_expr(rhs@) + seq![')']);
                    assert(out@ =~= render_expr(self@));
                }
                out
            },
            ExprAst::CallExpr { callee, args } => {
                let mut parts: Vec<String> = Vec::new();
                let n = args.len();
                let mut i: usize = 0;
                while i < n
                    invariant
                        *self == (ExprAst::CallExpr { callee: *callee, args: *args }),
                        n == args@.len(),
                        0 <= i <= n,
                        parts@.len() == i,
                        forall|k: int|
                            0 <= k < i ==> #[trigger] parts.deep_view()[k] == render_parts(
                                args_view(args@),
                            )[k],
                    decreases n - i,
                {
                    proof {
                        assert(decreases_to!(*self => self->CallExpr_args));
                        assert(self->CallExpr_args == *args);
                        assert(decreases_to!(*args => args@));
                        assert(decreases_to!(args@ => args@[i as int]));
                    }
                    let piece = args[i].to_text();
                    let ghost piece_v = piece@;
                    let ghost parts_before = parts@;
                    let ghost dv_before = parts.deep_view();
                    parts.push(piece);
                    proof {
                        assert(args_view(args@)[i as int] == expr_view(args@[i as int]));
                        assert(render_parts(args_view(args@))[i as int] == render_expr(
                            expr_view(args@[i as int]),
                        ));
                        assert forall|k: int|
                            0 <= k < i as int + 1 implies #[trigger] parts.deep_view()[k]
                            == render_parts(args_view(args@))[k] by {
                            if k < i as int {
                                assert(parts@[k] == parts_before[k]);
                                assert(parts.deep_view()[k] == dv_before[k]);
                            } else {
                                assert(parts@[k] == piece);
                                assert(parts.deep_view()[k] == piece_v);
                            }
                        }
                    }
                    i = i + 1;
                }
                let parts_slice = parts.as_slice();
                proof {
                    assert forall|k: int|
                        0 <= k < parts@.len() implies #[trigger] parts_slice.deep_view()[k]
                        == render_parts(args_view(args@))[k] by {
                        assert(parts_slice.deep_view()[k] == parts@[k].deep_view());
                        assert(parts.deep_view()[k] == parts@[k].deep_view());
                    }
                    assert(parts_slice.deep_view() =~= render_parts(args_view(args@)));
                }
                let joined = structured_slice_print(parts_slice);
                let mut out = callee.clone();
                push_char(&mut out, '(');
                out.append(joined.as_str());
                proof {
                    assert(out@ =~= render_expr(self@));
                }
                out
            },
        }
    }
}

impl Prototype {
    /// The canonical text of this prototype.
    pub fn to_text(&self) -> (r: String)
        ensures
            r@ == render_proto(self@),
    {
        let mut out = String::from_str("def ");
        out.append(self.name.as_str());
        push_char(&mut out, '(');
        let args_slice = self.args.as_slice();
        proof {
            assert(args_slice.deep_view() =~= self.args.deep_view());
        }
        let joined = structured_slice_print(args_slice);
        out.append(joined.as_str());
        proof {
            assert(out@ =~= render_proto(self@));
        }
        out
    }
}

impl Function {
    /// The canonical text of this function definition.
    pub fn to_text(&self) -> (r: String)
        ensures
            r@ == render_func(self@),
    {
        let mut out = self.proto.to_text();
        push_char(&mut out, '\n');
        push_char(&mut out, '\t');
        let body = self.body.to_text();
        out.append(body.as_str());
        proof {
            assert(out@ =~= render_func(self@));
        }
        out
    }
}

impl GenericAst {
    /// The canonical text of this statement.
    pub fn to_text(&self) -> (r: String)
        ensures
            r@ == render_ast(self@),
    {
        match self {
            GenericAst::ExprAst(e) => e.to_text(),
            GenericAst::PrototypeAst(p) => p.to_text(),
            GenericAst::FuncAst(f) => f.to_text(),
        }
    }
}

} // verus!
