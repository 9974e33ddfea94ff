//! The abstract syntax tree the parser builds.

use vstd::prelude::*;
use crate::diag::Span;

verus! {

/// A syntactic type annotation, before resolution.
pub enum TypeExpr {
    /// A primitive or declared type name.
    NamedTe(Vec<u8>, Span),
    /// `[n]T`: the size is kept as its numeric lexeme.
    FixedArrTe(Vec<u8>, Box<TypeExpr>, Span),
    /// `[]T`
    DynArrTe(Box<TypeExpr>, Span),
    /// `T?`
    OptTe(Box<TypeExpr>, Span),
    /// `Result ! T`: a result whose success type is `T`; error values are
    /// strings, produced by the `!` postfix.
    ResultTe(Box<TypeExpr>, Span),
}

pub struct Param {
    pub name: Vec<u8>,
    pub ty: TypeExpr,
}

/// A function or method header.
pub struct FnSig {
    pub name: Vec<u8>,
    pub params: Vec<Param>,
    pub ret: Option<TypeExpr>,
    pub span: Span,
}

pub struct FieldInit {
    pub name: Vec<u8>,
    pub value: Expr,
}

#[derive(Clone, Copy, PartialEq, Eq, Structural, Debug)]
pub enum UnOp {
    Neg,
}

#[derive(Clone, Copy, PartialEq, Eq, Structural, Debug)]
pub enum BinOp {
    Add,
    Sub,
    Mul,
    Div,
    Lt,
    Gt,
    Le,
    Ge,
    EqCmp,
    NeCmp,
    AndOp,
    OrOp,
}

pub enum Expr {
    NullLit(Span),
    NumLit(Vec<u8>, Span),
    StrLitE(Vec<u8>, Span),
    Name(Vec<u8>, Span),
    /// `Color::Red`
    EnumPath(Vec<u8>, Vec<u8>, Span),
    ArrLit(Vec<Expr>, Span),
    /// `Circle { .radius = e, ... }`
    StructLit(Vec<u8>, Vec<FieldInit>, Span),
    Unary(UnOp, Box<Expr>, Span),
    Binary(BinOp, Box<Expr>, Box<Expr>, Span),
    /// Calls name a function directly; functions are not values.
    CallExpr(Vec<u8>, Vec<Expr>, Span),
    FieldGet(Box<Expr>, Vec<u8>, Span),
    /// `c ? t : f`
    Ternary(Box<Expr>, Box<Expr>, Box<Expr>, Span),
    /// `a ?: b`
    Elvis(Box<Expr>, Box<Expr>, Span),
    /// `e catch err { stmts; with default; }`
    CatchExpr(Box<Expr>, Vec<u8>, Vec<Stmt>, Option<Box<Expr>>, Span),
    /// `lo..hi:step`; an omitted step is materialised as the literal `1`.
    RangeExpr(Box<Expr>, Box<Expr>, Box<Expr>, Span),
    /// `e !`: wraps an error value for a result-returning function.
    ErrMark(Box<Expr>, Span),
    /// `comptime e`
    ComptimeMark(Box<Expr>, Span),
    /// Placeholder produced by error recovery.
    BadExpr(Span),
}

pub enum Pattern {
    NullPat(Span),
    WildPat(Span),
}

pub struct WhenArm {
    pub pat: Pattern,
    pub body: Vec<Stmt>,
}

pub enum Stmt {
    /// `let a, b := x, y;` — the parser only builds this with as many
    /// initialisers as names, or none at all.
    LetStmt { names: Vec<Vec<u8>>, ann: Option<TypeExpr>, inits: Vec<Expr>, span: Span },
    /// `x = e;` or, with `add`, `x += e;`
    AssignStmt { target: Expr, add: bool, value: Expr, span: Span },
    IfStmt { cond: Expr, then_body: Vec<Stmt>, else_body: Vec<Stmt>, span: Span },
    WhileStmt { cond: Expr, body: Vec<Stmt>, span: Span },
    ForStmt { idx: Vec<u8>, val: Vec<u8>, iter: Expr, body: Vec<Stmt>, span: Span },
    WhenStmt { scrutinee: Expr, arms: Vec<WhenArm>, span: Span },
    ReturnStmt { value: Option<Expr>, span: Span },
    ExprStmt { expr: Expr, span: Span },
}

pub enum Decl {
    /// A function, or a method when `receiver` names a binder and its type.
    Func { receiver: Option<(Vec<u8>, Vec<u8>)>, sig: FnSig, body: Vec<Stmt> },
    ConstDecl { name: Vec<u8>, ann: Option<TypeExpr>, value: Expr, span: Span },
    EnumDecl { name: Vec<u8>, variants: Vec<Vec<u8>>, span: Span },
    StructDecl { name: Vec<u8>, fields: Vec<Param>, span: Span },
    IfaceDecl { name: Vec<u8>, methods: Vec<FnSig>, span: Span },
}

pub enum Item {
    DeclItem(Decl),
    StmtItem(Stmt),
}

pub struct Program {
    pub items: Vec<Item>,
}

/// The numeric literal `1`, the default step of a range.
pub open spec fn is_one_literal(e: Expr) -> bool {
    match e {
        Expr::NumLit(lex, _) => lex@ == seq![49u8],
        _ => false,
    }
}

} // verus!
