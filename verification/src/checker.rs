//! The type checker: walks the program with the bound symbol table,
//! infers and validates types, tracks optional narrowing per branch, and
//! collects diagnostics without stopping at the first error.

use vstd::prelude::*;
use crate::ast::{BinOp, Decl, Expr, Item, Pattern, Program, Stmt, TypeExpr};
use crate::binder::{lookup_name, parse_array_size, DeclKind, DeclTable};
use crate::diag::{spec_severity_of, DiagCode, Diagnostic, Span};
use crate::rules::{
    binary_ty, catch_err_ty, catch_result_ty, clone_bytes, cond_ok, elvis_ty, iter_elem_ty,
    null_check_of, range_ty, spec_unify, struct_fields_match, unary_ty, unify, NarrowKind,
};
use crate::types::{bytes_eq, satisfies, spec_satisfies, Ty};

verus! {

/// Bound on the expression depth the checker follows; parser output stays
/// far below it.
pub const CHECK_FUEL: usize = 480;

/// A scoped binding: its name, its type, and whether it is a compile-time
/// constant.
pub struct VarEntry {
    pub name: Vec<u8>,
    pub ty: Ty,
    pub is_const: bool,
}

/// Innermost binding of a name: the last entry wins.
pub open spec fn last_match(env: Seq<VarEntry>, n: Seq<u8>) -> Option<(Ty, bool)>
    decreases env.len(),
{
    if env.len() == 0 {
        None
    } else if env.last().name@ == n {
        Some((env.last().ty, env.last().is_const))
    } else {
        last_match(env.drop_last(), n)
    }
}

/// Looks a name up in one flat scope stack, innermost first.
fn lookup_in(env: &Vec<VarEntry>, n: &[u8]) -> (r: Option<(Ty, bool)>)
    ensures
        r == last_match(env@, n@),
{
    let mut i: usize = env.len();
    proof {
        assert(env@.subrange(0, env@.len() as int) =~= env@);
    }
    while i > 0
        invariant
            i <= env@.len(),
            last_match(env@, n@) == last_match(env@.subrange(0, i as int), n@),
        decreases i,
    {
        i -= 1;
        let ghost pre = env@.subrange(0, i + 1 as int);
        proof {
            assert(pre.drop_last() =~= env@.subrange(0, i as int));
            assert(pre.last() == env@[i as int]);
        }
        if bytes_eq(env[i].name.as_slice(), n) {
            return Some((env[i].ty.dup(), env[i].is_const));
        }
    }
    proof {
        assert(env@.subrange(0, 0) =~= Seq::<VarEntry>::empty());
    }
    None
}

/// Pushing a narrowing for a name makes that name look up to the narrowed
/// type, shadowing its declaration.
pub proof fn lemma_narrowing_shadows(narrows: Seq<VarEntry>, e: VarEntry)
    ensures
        last_match(narrows.push(e), e.name@) == Some((e.ty, e.is_const)),
{
    assert(narrows.push(e).last() == e);
}

/// A narrowing for one name leaves every other name's lookup unchanged, and
/// popping it restores the previous scope exactly.
pub proof fn lemma_narrowing_is_per_name(narrows: Seq<VarEntry>, e: VarEntry, n: Seq<u8>)
    requires
        e.name@ != n,
    ensures
        last_match(narrows.push(e), n) == last_match(narrows, n),
{
    assert(narrows.push(e).drop_last() =~= narrows);
    assert(narrows.push(e).last() == e);
}

pub struct Checker {
    pub table: DeclTable,
    pub vars: Vec<VarEntry>,
    pub narrows: Vec<VarEntry>,
    pub pures: Vec<bool>,
    pub diags: Vec<Diagnostic>,
    pub ret_ty: Option<Ty>,
}

/// What every checking step preserves: the symbol table and purity
/// markings are untouched, the return-type context is kept, diagnostics
/// only grow, and scopes only grow (callers restore them).
pub open spec fn advanced(a: Checker, b: Checker) -> bool {
    &&& b.table == a.table
    &&& b.pures@ == a.pures@
    &&& b.ret_ty == a.ret_ty
    &&& a.diags@.len() <= b.diags@.len()
    &&& a.vars@.len() <= b.vars@.len()
    &&& a.narrows@.len() <= b.narrows@.len()
}

/// Whether assigning a value of type `v` where `t` is expected is legal:
/// the types unify, a fixed array feeds a dynamic array of the same
/// element type, or `t` is an interface that the concrete named type `v`
/// structurally satisfies.
pub open spec fn spec_assignable(table: DeclTable, t: Ty, v: Ty) -> bool {
    ||| spec_unify(v, t) is Some
    ||| (match (t, v) {
        (Ty::DynArr(e), Ty::FixedArr(e2, _)) => *e == *e2,
        _ => false,
    })
    ||| (match (t, v) {
        (Ty::Named(i), Ty::Named(c)) => i < table.entries@.len() && (match table.entries@[
            i as int
        ].kind {
            DeclKind::IfaceK(ms) => spec_satisfies(ms@, table.methods@, c),
            _ => false,
        }),
        _ => false,
    })
}


/// Decides assignability, including structural interface conformance at
/// the point of use.
pub fn assignable(table: &DeclTable, t: &Ty, v: &Ty) -> (r: bool)
    ensures
        r == spec_assignable(*table, *t, *v),
{
    if unify(v, t).is_some() {
        return true;
    }
    match (t, v) {
        (Ty::DynArr(e), Ty::FixedArr(e2, _)) => {
            if e.ty_eq(e2) {
                return true;
            }
        },
        _ => {},
    }
    match (t, v) {
        (Ty::Named(i), Ty::Named(c)) => {
            if *i < table.entries.len() {
                match &table.entries[*i].kind {
                    DeclKind::IfaceK(ms) => satisfies(ms, &table.methods, *c),
                    _ => false,
                }
            } else {
                false
            }
        },
        _ => false,
    }
}

/// The diagnostic an assignability failure gets: a concrete named type
/// failing against an interface is reported as unsatisfied conformance,
/// anything else as a plain mismatch.
pub open spec fn spec_mismatch_code(table: DeclTable, t: Ty, v: Ty) -> DiagCode {
    match (t, v) {
        (Ty::Named(i), Ty::Named(_)) => if i < table.entries@.len() && table.entries@[
            i as int
        ].kind matches DeclKind::IfaceK(_) {
            DiagCode::TypeInterfaceUnsatisfied
        } else {
            DiagCode::TypeMismatch
        },
        _ => DiagCode::TypeMismatch,
    }
}

fn mismatch_code(table: &DeclTable, t: &Ty, v: &Ty) -> (r: DiagCode)
    ensures
        r == spec_mismatch_code(*table, *t, *v),
{
    match (t, v) {
        (Ty::Named(i), Ty::Named(_)) => {
            if *i < table.entries.len() {
                match &table.entries[*i].kind {
                    DeclKind::IfaceK(_) => DiagCode::TypeInterfaceUnsatisfied,
                    _ => DiagCode::TypeMismatch,
                }
            } else {
                DiagCode::TypeMismatch
            }
        },
        _ => DiagCode::TypeMismatch,
    }
}

/// The diagnostic an operator-typing failure gets: an optional operand
/// means a null check was required first, anything else is a plain
/// mismatch.
pub open spec fn spec_binary_failure_code(lt: Ty, rt: Ty) -> DiagCode {
    if lt matches Ty::Opt(_) || rt matches Ty::Opt(_) {
        DiagCode::TypeNarrowingRequired
    } else {
        DiagCode::TypeMismatch
    }
}

fn binary_failure_code(lt: &Ty, rt: &Ty) -> (r: DiagCode)
    ensures
        r == spec_binary_failure_code(*lt, *rt),
{
    let lopt = matches!(lt, Ty::Opt(_));
    let ropt = matches!(rt, Ty::Opt(_));
    if lopt || ropt {
        DiagCode::TypeNarrowingRequired
    } else {
        DiagCode::TypeMismatch
    }
}

fn is_log_name(s: &[u8]) -> (r: bool)
    ensures
        r == (s@ == seq![108u8, 111u8, 103u8]),
{
    let r = s.len() == 3 && s[0] == 108u8 && s[1] == 111u8 && s[2] == 103u8;
    proof {
        if r {
            assert(s@ =~= seq![108u8, 111u8, 103u8]);
        }
    }
    r
}

fn is_result_word(s: &[u8]) -> (r: bool) {
    s.len() == 6 && s[0] == 82u8 && s[1] == 101u8 && s[2] == 115u8 && s[3] == 117u8 && s[4] == 108u8
        && s[5] == 116u8
}

fn is_data_word(s: &[u8]) -> (r: bool) {
    s.len() == 4 && s[0] == 100u8 && s[1] == 97u8 && s[2] == 116u8 && s[3] == 97u8
}

/// Whether the literal lexeme has a decimal point, which makes it a float.
fn lexeme_has_dot(s: &[u8]) -> (r: bool) {
    let mut i: usize = 0;
    while i < s.len()
        decreases s@.len() - i,
    {
        if s[i] == 46u8 {
            return true;
        }
        i += 1;
    }
    false
}

/// Resolves a syntactic type against the symbol table.
fn resolve_type(table: &DeclTable, te: &TypeExpr, diags: &mut Vec<Diagnostic>) -> (r: Ty)
    decreases te,
{
    match te {
        TypeExpr::NamedTe(n, sp) => {
            if n.len() == 3 && n[0] == 105u8 && n[1] == 51u8 && n[2] == 50u8 {
                Ty::I32
            } else if n.len() == 3 && n[0] == 102u8 && n[1] == 51u8 && n[2] == 50u8 {
                Ty::F32
            } else if n.len() == 3 && n[0] == 115u8 && n[1] == 116u8 && n[2] == 114u8 {
                Ty::Str
            } else if n.len() == 4 && n[0] == 98u8 && n[1] == 111u8 && n[2] == 111u8 && n[3]
                == 108u8 {
                Ty::Bool
            } else {
                match crate::binder::lookup_decl(table, n.as_slice()) {
                    Some(id) => Ty::Named(id),
                    None => {
                        diags.push(Diagnostic::of(DiagCode::TypeUnknownName, *sp));
                        Ty::Unknown
                    },
                }
            }
        },
        TypeExpr::FixedArrTe(size, elem, sp) => {
            let e = resolve_type(table, elem, diags);
            match parse_array_size(size.as_slice()) {
                Some(n) => Ty::FixedArr(Box::new(e), n),
                None => {
                    diags.push(Diagnostic::of(DiagCode::TypeBadArraySize, *sp));
                    Ty::Unknown
                },
            }
        },
        TypeExpr::DynArrTe(elem, _sp) => Ty::DynArr(Box::new(resolve_type(table, elem, diags))),
        TypeExpr::OptTe(inner, _sp) => Ty::Opt(Box::new(resolve_type(table, inner, diags))),
        TypeExpr::ResultTe(ok, _sp) => Ty::ResOf(
            Box::new(resolve_type(table, ok, diags)),
            Box::new(Ty::Str),
        ),
    }
}

impl Checker {
    /// Appends exactly one diagnostic, with the given code and span and
    /// the severity that code always carries.
    fn diag(&mut self, code: DiagCode, span: Span)
        ensures
            advanced(*old(self), *final(self)),
            final(self).vars@ == old(self).vars@,
            final(self).narrows@ == old(self).narrows@,
            final(self).diags@.len() == old(self).diags@.len() + 1,
            final(self).diags@.drop_last() == old(self).diags@,
            final(self).diags@.last().code == code,
            final(self).diags@.last().span == span,
            final(self).diags@.last().severity == spec_severity_of(code),
    {
        self.diags.push(Diagnostic::of(code, span));
        proof {
            assert(self.diags@.drop_last() =~= old(self).diags@);
        }
    }

    /// The call-arity rule: a call binds one argument per declared
    /// parameter; differing counts are reported with the call-arity
    /// diagnostic, and only then.
    fn flag_call_arity(&mut self, n_params: usize, n_args: usize, span: Span) -> (ok: bool)
        ensures
            advanced(*old(self), *final(self)),
            final(self).vars@ == old(self).vars@,
            final(self).narrows@ == old(self).narrows@,
            ok == (n_params == n_args),
            ok ==> final(self).diags@ == old(self).diags@,
            !ok ==> final(self).diags@.drop_last() == old(self).diags@ && final(self).diags@.last().code == DiagCode::TypeCallArityMismatch && final(self).diags@.last().span == span,
    {
        if n_params == n_args {
            true
        } else {
            self.diag(DiagCode::TypeCallArityMismatch, span);
            false
        }
    }

    /// The assignment rule: a value must be assignable where a type is
    /// expected; a failure is reported with exactly the code the failure
    /// deserves — unsatisfied interface conformance, or a plain mismatch —
    /// and only on failure.
    fn flag_assign(&mut self, t: &Ty, v: &Ty, span: Span) -> (ok: bool)
        ensures
            advanced(*old(self), *final(self)),
            final(self).vars@ == old(self).vars@,
            final(self).narrows@ == old(self).narrows@,
            ok == spec_assignable(old(self).table, *t, *v),
            ok ==> final(self).diags@ == old(self).diags@,
            !ok ==> final(self).diags@.drop_last() == old(self).diags@ && final(self).diags@.last().code == spec_mismatch_code(old(self).table, *t, *v) && final(self).diags@.last().span == span,
    {
        if assignable(&self.table, t, v) {
            true
        } else {
            let code = mismatch_code(&self.table, t, v);
            self.diag(code, span);
            false
        }
    }

    /// Innermost binding of a name: narrowings shadow declarations.
    fn lookup_var(&self, n: &[u8]) -> (r: Option<(Ty, bool)>)
        ensures
            r == (if last_match(self.narrows@, n@) is Some {
                last_match(self.narrows@, n@)
            } else {
                last_match(self.vars@, n@)
            }),
    {
        match lookup_in(&self.narrows, n) {
            Some(p) => Some(p),
            None => lookup_in(&self.vars, n),
        }
    }

    /// If `name` is an optional in scope, records that it is known non-null
    /// from here to the end of the enclosing branch.
    fn push_narrow(&mut self, name: &Vec<u8>)
        ensures
            advanced(*old(self), *final(self)),
            final(self).narrows@.len() <= old(self).narrows@.len() + 1,
    {
        match self.lookup_var(name.as_slice()) {
            Some((Ty::Opt(inner), c)) => {
                let nm = clone_bytes(name);
                self.narrows.push(VarEntry { name: nm, ty: inner.dup(), is_const: c });
            },
            _ => {},
        }
    }

    fn pop_narrows(&mut self, keep: usize)
        ensures
            final(self).table == old(self).table,
            final(self).pures@ == old(self).pures@,
            final(self).ret_ty == old(self).ret_ty,
            final(self).diags@ == old(self).diags@,
            final(self).vars@ == old(self).vars@,
            final(self).narrows@.len() == (if keep <= old(self).narrows@.len() {
                keep as int
            } else {
                old(self).narrows@.len() as int
            }),
    {
        while self.narrows.len() > keep
            invariant
                self.table == old(self).table,
                self.pures@ == old(self).pures@,
                self.ret_ty == old(self).ret_ty,
                self.diags@ == old(self).diags@,
                self.vars@ == old(self).vars@,
                keep <= self.narrows@.len() || self.narrows@ == old(self).narrows@,
                self.narrows@.len() <= old(self).narrows@.len(),
            decreases self.narrows@.len(),
        {
            self.narrows.pop();
        }
    }

    fn pop_vars(&mut self, keep: usize)
        ensures
            final(self).table == old(self).table,
            final(self).pures@ == old(self).pures@,
            final(self).ret_ty == old(self).ret_ty,
            final(self).diags@ == old(self).diags@,
            final(self).narrows@ == old(self).narrows@,
            final(self).vars@.len() == (if keep <= old(self).vars@.len() {
                keep as int
            } else {
                old(self).vars@.len() as int
            }),
    {
        while self.vars.len() > keep
            invariant
                self.table == old(self).table,
                self.pures@ == old(self).pures@,
                self.ret_ty == old(self).ret_ty,
                self.diags@ == old(self).diags@,
                self.narrows@ == old(self).narrows@,
                keep <= self.vars@.len() || self.vars@ == old(self).vars@,
                self.vars@.len() <= old(self).vars@.len(),
            decreases self.vars@.len(),
        {
            self.vars.pop();
        }
    }

    /// Whether the expression can be evaluated at compile time: literals,
    /// enum variants, compile-time constants, and calls to functions built
    /// solely of such expressions.
    fn is_comptime_expr(&self, e: &Expr, fuel: usize) -> (r: bool)
        decreases fuel,
    {
        if fuel == 0 {
            return false;
        }
        match e {
            Expr::NumLit(_, _) => true,
            Expr::StrLitE(_, _) => true,
            Expr::NullLit(_) => true,
            Expr::EnumPath(_, _, _) => true,
            Expr::Name(n, _) => match self.lookup_var(n.as_slice()) {
                Some((_, c)) => c,
                None => false,
            },
            Expr::CallExpr(n, args, _) => {
                let mut ok = match crate::binder::lookup_decl(&self.table, n.as_slice()) {
                    Some(id) => id < self.pures.len() && self.pures[id],
                    None => false,
                };
                let mut i: usize = 0;
                while i < args.len()
                    invariant
                        0 < fuel,
                    decreases args@.len() - i,
                {
                    if !self.is_comptime_expr(&args[i], fuel - 1) {
                        ok = false;
                    }
                    i += 1;
                }
                ok
            },
            Expr::Unary(_, inner, _) => self.is_comptime_expr(inner, fuel - 1),
            Expr::Binary(_, l, r2, _) => self.is_comptime_expr(l, fuel - 1) && self.is_comptime_expr(
                r2,
                fuel - 1,
            ),
            Expr::Ternary(c, t, f, _) => self.is_comptime_expr(c, fuel - 1)
                && self.is_comptime_expr(t, fuel - 1) && self.is_comptime_expr(f, fuel - 1),
            Expr::Elvis(a, b, _) => self.is_comptime_expr(a, fuel - 1) && self.is_comptime_expr(
                b,
                fuel - 1,
            ),
            Expr::RangeExpr(lo, hi, st, _) => self.is_comptime_expr(lo, fuel - 1)
                && self.is_comptime_expr(hi, fuel - 1) && self.is_comptime_expr(st, fuel - 1),
            Expr::FieldGet(inner, _, _) => self.is_comptime_expr(inner, fuel - 1),
            Expr::ComptimeMark(inner, _) => self.is_comptime_expr(inner, fuel - 1),
            Expr::ArrLit(elems, _) => {
                let mut ok = true;
                let mut i: usize = 0;
                while i < elems.len()
                    invariant
                        0 < fuel,
                    decreases elems@.len() - i,
                {
                    if !self.is_comptime_expr(&elems[i], fuel - 1) {
                        ok = false;
                    }
                    i += 1;
                }
                ok
            },
            Expr::StructLit(_, fields, _) => {
                let mut ok = true;
                let mut i: usize = 0;
                while i < fields.len()
                    invariant
                        0 < fuel,
                    decreases fields@.len() - i,
                {
                    if !self.is_comptime_expr(&fields[i].value, fuel - 1) {
                        ok = false;
                    }
                    i += 1;
                }
                ok
            },
            _ => false,
        }
    }

    /// Types an expression; a node whose type cannot be established gets
    /// the recovery type and a diagnostic, so every node leaves with
    /// exactly one type.
    fn check_expr(&mut self, e: &Expr, fuel: usize) -> (r: Ty)
        ensures
            advanced(*old(self), *final(self)),
        decreases fuel,
    {
        if fuel == 0 {
            return Ty::Unknown;
        }
        match e {
            Expr::BadExpr(_) => Ty::Unknown,
            Expr::NullLit(_) => Ty::Opt(Box::new(Ty::Unknown)),
            Expr::NumLit(lex, _) => {
                if lexeme_has_dot(lex.as_slice()) {
                    Ty::F32
                } else {
                    Ty::I32
                }
            },
            Expr::StrLitE(_, _) => Ty::Str,
            Expr::Name(n, sp) => {
                match self.lookup_var(n.as_slice()) {
                    Some((t, _)) => t,
                    None => {
                        self.diag(DiagCode::TypeUnknownName, *sp);
                        Ty::Unknown
                    },
                }
            },
            Expr::EnumPath(tyname, variant, sp) => {
                match crate::binder::lookup_decl(&self.table, tyname.as_slice()) {
                    Some(id) => {
                        let is_variant = match &self.table.entries[id].kind {
                            DeclKind::EnumK(vs) => {
                                match lookup_name(vs, variant.as_slice()) {
                                    Some(_) => true,
                                    None => false,
                                }
                            },
                            _ => false,
                        };
                        if is_variant {
                            Ty::Named(id)
                        } else {
                            self.diag(DiagCode::TypeUnknownField, *sp);
                            Ty::Unknown
                        }
                    },
                    None => {
                        self.diag(DiagCode::TypeUnknownName, *sp);
                        Ty::Unknown
                    },
                }
            },
            Expr::ArrLit(elems, sp) => {
                let mut elem: Ty = Ty::Unknown;
                let mut i: usize = 0;
                while i < elems.len()
                    invariant
                        0 < fuel,
                        advanced(*old(self), *self),
                    decreases elems@.len() - i,
                {
                    let t = self.check_expr(&elems[i], fuel - 1);
                    match unify(&elem, &t) {
                        Some(u) => {
                            elem = u;
                        },
                        None => {
                            self.diag(DiagCode::TypeMismatch, *sp);
                        },
                    }
                    i += 1;
                }
                Ty::FixedArr(Box::new(elem), elems.len() as u64)
            },
            Expr::StructLit(name, fields, sp) => {
                let mut given: Vec<(Vec<u8>, Ty)> = Vec::new();
                let mut i: usize = 0;
                while i < fields.len()
                    invariant
                        0 < fuel,
                        advanced(*old(self), *self),
                    decreases fields@.len() - i,
                {
                    let t = self.check_expr(&fields[i].value, fuel - 1);
                    given.push((clone_bytes(&fields[i].name), t));
                    i += 1;
                }
                match crate::binder::lookup_decl(&self.table, name.as_slice()) {
                    Some(id) => {
                        let ok = match &self.table.entries[id].kind {
                            DeclKind::StructK(decl_fields) => {
                                if struct_fields_match(decl_fields, &given) {
                                    true
                                } else {
                                    false
                                }
                            },
                            _ => false,
                        };
                        if !ok {
                            self.diag(DiagCode::TypeStructLiteralMismatch, *sp);
                        }
                        Ty::Named(id)
                    },
                    None => {
                        self.diag(DiagCode::TypeUnknownName, *sp);
                        Ty::Unknown
                    },
                }
            },
            Expr::Unary(op, inner, sp) => {
                let t = self.check_expr(inner, fuel - 1);
                match unary_ty(*op, &t) {
                    Some(u) => u,
                    None => {
                        self.diag(DiagCode::TypeMismatch, *sp);
                        Ty::Unknown
                    },
                }
            },
            Expr::Binary(op, l, r2, sp) => {
                let lnull = matches!(&**l, Expr::NullLit(_));
                let rnull = matches!(&**r2, Expr::NullLit(_));
                if (lnull || rnull) && (*op == BinOp::EqCmp || *op == BinOp::NeCmp) {
                    // a null comparison is legal only on an optional value
                    let t = if lnull {
                        self.check_expr(r2, fuel - 1)
                    } else {
                        self.check_expr(l, fuel - 1)
                    };
                    match t {
                        Ty::Opt(_) => {},
                        Ty::Unknown => {},
                        _ => {
                            self.diag(DiagCode::TypeInvalidNullComparison, *sp);
                        },
                    }
                    Ty::Bool
                } else {
                    let lt = self.check_expr(l, fuel - 1);
                    let rt = self.check_expr(r2, fuel - 1);
                    match binary_ty(*op, &lt, &rt) {
                        Some(t) => t,
                        None => {
                            let code = binary_failure_code(&lt, &rt);
                            self.diag(code, *sp);
                            Ty::Unknown
                        },
                    }
                }
            },
            Expr::CallExpr(name, args, sp) => {
                let mut arg_tys: Vec<Ty> = Vec::new();
                let mut i: usize = 0;
                while i < args.len()
                    invariant
                        0 < fuel,
                        advanced(*old(self), *self),
                        i <= args@.len(),
                        arg_tys@.len() == i,
                    decreases args@.len() - i,
                {
                    let t = self.check_expr(&args[i], fuel - 1);
                    arg_tys.push(t);
                    i += 1;
                }
                match crate::binder::lookup_decl(&self.table, name.as_slice()) {
                    Some(id) => {
                        let (n_params, ret, callable) = match &self.table.entries[id].kind {
                            DeclKind::FnK(params, fret) => (params.len(), fret.dup(), true),
                            _ => (0usize, Ty::Unknown, false),
                        };
                        if !callable {
                            self.diag(DiagCode::TypeNotCallable, *sp);
                            return Ty::Unknown;
                        }
                        if !self.flag_call_arity(n_params, arg_tys.len(), *sp) {
                            return ret;
                        }
                        let n = arg_tys.len();
                        let mut j: usize = 0;
                        while j < n
                            invariant
                                advanced(*old(self), *self),
                                n == arg_tys@.len(),
                                id < self.table.entries@.len(),
                            decreases n - j,
                        {
                            let pt: Option<Ty> = match &self.table.entries[id].kind {
                                DeclKind::FnK(params, _) => {
                                    if j < params.len() {
                                        Some(params[j].1.dup())
                                    } else {
                                        None
                                    }
                                },
                                _ => None,
                            };
                            match pt {
                                Some(p) => {
                                    let _ok = self.flag_assign(&p, &arg_tys[j], *sp);
                                },
                                None => {},
                            }
                            j += 1;
                        }
                        ret
                    },
                    None => {
                        if is_log_name(name.as_slice()) {
                            // the built-in logger takes one string
                            if args.len() != 1 {
                                self.diag(DiagCode::TypeCallArityMismatch, *sp);
                            } else {
                                let ok = match &arg_tys[0] {
                                    Ty::Str => true,
                                    Ty::Unknown => true,
                                    _ => false,
                                };
                                if !ok {
                                    self.diag(DiagCode::TypeMismatch, *sp);
                                }
                            }
                            Ty::Void
                        } else {
                            self.diag(DiagCode::TypeUnknownName, *sp);
                            Ty::Unknown
                        }
                    },
                }
            },
            Expr::FieldGet(inner, fname, sp) => {
                let t = self.check_expr(inner, fuel - 1);
                match t {
                    Ty::Named(id) => {
                        if id < self.table.entries.len() {
                            let ft = match &self.table.entries[id].kind {
                                DeclKind::StructK(fields) => {
                                    let mut found: Option<Ty> = None;
                                    let mut i: usize = 0;
                                    while i < fields.len()
                                        decreases fields@.len() - i,
                                    {
                                        if bytes_eq(fields[i].0.as_slice(), fname.as_slice()) {
                                            found = Some(fields[i].1.dup());
                                        }
                                        i += 1;
                                    }
                                    found
                                },
                                _ => None,
                            };
                            match ft {
                                Some(t2) => t2,
                                None => {
                                    self.diag(DiagCode::TypeUnknownField, *sp);
                                    Ty::Unknown
                                },
                            }
                        } else {
                            Ty::Unknown
                        }
                    },
                    Ty::Unknown => Ty::Unknown,
                    _ => {
                        self.diag(DiagCode::TypeMismatch, *sp);
                        Ty::Unknown
                    },
                }
            },
            Expr::Ternary(c, t, f, sp) => {
                let ct = self.check_expr(c, fuel - 1);
                if !cond_ok(&ct) {
                    self.diag(DiagCode::TypeMismatch, *sp);
                }
                // an optional used directly as the condition is implicitly
                // null-checked: the then branch sees it narrowed
                let keep = self.narrows.len();
                match (&**c, &ct) {
                    (Expr::Name(x, _), Ty::Opt(_)) => {
                        self.push_narrow(x);
                    },
                    _ => {},
                }
                let tt = self.check_expr(t, fuel - 1);
                self.pop_narrows(keep);
                let ft = self.check_expr(f, fuel - 1);
                match unify(&tt, &ft) {
                    Some(u) => u,
                    None => {
                        self.diag(DiagCode::TypeMismatch, *sp);
                        Ty::Unknown
                    },
                }
            },
            Expr::Elvis(a, b, sp) => {
                let at = self.check_expr(a, fuel - 1);
                let bt = self.check_expr(b, fuel - 1);
                match elvis_ty(&at, &bt) {
                    Some(t) => t,
                    None => {
                        self.diag(DiagCode::TypeMismatch, *sp);
                        Ty::Unknown
                    },
                }
            },
            Expr::CatchExpr(scrut, errname, body, with_expr, sp) => {
                let st = self.check_expr(scrut, fuel - 1);
                let keep_vars = self.vars.len();
                let keep_narrows = self.narrows.len();
                match catch_err_ty(&st) {
                    Some(et) => {
                        let nm = clone_bytes(errname);
                        self.vars.push(VarEntry { name: nm, ty: et, is_const: false });
                    },
                    None => {
                        self.diag(DiagCode::TypeMismatch, *sp);
                    },
                }
                let mut i: usize = 0;
                while i < body.len()
                    invariant
                        0 < fuel,
                        advanced(*old(self), *self),
                    decreases body@.len() - i,
                {
                    self.check_stmt(&body[i], fuel - 1);
                    i += 1;
                }
                let with_ty: Ty = match with_expr {
                    Some(w) => self.check_expr(w, fuel - 1),
                    None => Ty::Unknown,
                };
                self.pop_vars(keep_vars);
                self.pop_narrows(keep_narrows);
                match catch_result_ty(&st, &with_ty) {
                    Some(t) => t,
                    None => {
                        self.diag(DiagCode::TypeMismatch, *sp);
                        Ty::Unknown
                    },
                }
            },
            Expr::RangeExpr(lo, hi, step, sp) => {
                let lt = self.check_expr(lo, fuel - 1);
                let ht = self.check_expr(hi, fuel - 1);
                let st = self.check_expr(step, fuel - 1);
                match range_ty(&lt, &ht, &st) {
                    Some(t) => t,
                    None => {
                        self.diag(DiagCode::TypeMismatch, *sp);
                        Ty::Unknown
                    },
                }
            },
            Expr::ErrMark(inner, sp) => {
                // the error mark only makes sense in a return of a
                // result-returning function, which handles it itself
                let _ = self.check_expr(inner, fuel - 1);
                self.diag(DiagCode::TypeResultShapeMismatch, *sp);
                Ty::Unknown
            },
            Expr::ComptimeMark(inner, sp) => {
                let t = self.check_expr(inner, fuel - 1);
                if !self.is_comptime_expr(inner, fuel - 1) {
                    self.diag(DiagCode::TypeNotComptimeEvaluable, *sp);
                } else {
                    let trivial = match &**inner {
                        Expr::NumLit(_, _) => true,
                        Expr::StrLitE(_, _) => true,
                        _ => false,
                    };
                    if trivial {
                        self.diag(DiagCode::WarnComptimeRedundant, *sp);
                    }
                }
                t
            },
        }
    }

    /// Checks a block in its own scope: bindings and narrowings made
    /// inside do not survive it.
    fn check_block(&mut self, stmts: &Vec<Stmt>, fuel: usize)
        ensures
            advanced(*old(self), *final(self)),
            final(self).vars@.len() == old(self).vars@.len(),
            final(self).narrows@.len() == old(self).narrows@.len(),
        decreases fuel,
    {
        if fuel == 0 {
            return ;
        }
        let keep_vars = self.vars.len();
        let keep_narrows = self.narrows.len();
        let mut i: usize = 0;
        while i < stmts.len()
            invariant
                0 < fuel,
                advanced(*old(self), *self),
            decreases stmts@.len() - i,
        {
            self.check_stmt(&stmts[i], fuel - 1);
            i += 1;
        }
        self.pop_vars(keep_vars);
        self.pop_narrows(keep_narrows);
    }

    /// Checks one statement.
    fn check_stmt(&mut self, s: &Stmt, fuel: usize)
        ensures
            advanced(*old(self), *final(self)),
        decreases fuel,
    {
        if fuel == 0 {
            return ;
        }
        match s {
            Stmt::LetStmt { names, ann, inits, span } => {
                let ann_ty: Option<Ty> = match ann {
                    Some(te) => {
                        let mut ds: Vec<Diagnostic> = Vec::new();
                        let t = resolve_type(&self.table, te, &mut ds);
                        self.append_diags(ds);
                        Some(t)
                    },
                    None => None,
                };
                if inits.len() == 0 {
                    // a bare annotated declaration
                    let t = match &ann_ty {
                        Some(t) => t.dup(),
                        None => Ty::Unknown,
                    };
                    if names.len() == 1 {
                        let nm = clone_bytes(&names[0]);
                        self.vars.push(VarEntry { name: nm, ty: t, is_const: false });
                    }
                } else {
                    let n = names.len();
                    let mut i: usize = 0;
                    while i < n
                        invariant
                            0 < fuel,
                            advanced(*old(self), *self),
                            n == names@.len(),
                        decreases n - i,
                    {
                        let t = if i < inits.len() {
                            self.check_expr(&inits[i], fuel - 1)
                        } else {
                            Ty::Unknown
                        };
                        let declared: Ty = match &ann_ty {
                            Some(a) => {
                                let _ok = self.flag_assign(a, &t, *span);
                                a.dup()
                            },
                            None => t,
                        };
                        let nm = clone_bytes(&names[i]);
                        self.vars.push(VarEntry { name: nm, ty: declared, is_const: false });
                        i += 1;
                    }
                }
            },
            Stmt::AssignStmt { target, add, value, span } => {
                let tt = self.check_expr(target, fuel - 1);
                let vt = self.check_expr(value, fuel - 1);
                if *add {
                    match binary_ty(BinOp::Add, &tt, &vt) {
                        Some(u) => {
                            if unify(&u, &tt).is_none() {
                                self.diag(DiagCode::TypeMismatch, *span);
                            }
                        },
                        None => {
                            self.diag(DiagCode::TypeMismatch, *span);
                        },
                    }
                } else {
                    let _ok = self.flag_assign(&tt, &vt, *span);
                }
            },
            Stmt::IfStmt { cond, then_body, else_body, span } => {
                let ct = self.check_expr(cond, fuel - 1);
                let (kind, name) = null_check_of(cond);
                if kind == NarrowKind::NoNarrow {
                    if !cond_ok(&ct) {
                        self.diag(DiagCode::TypeMismatch, *span);
                    }
                }
                let keep = self.narrows.len();
                if kind == NarrowKind::NarrowThen {
                    self.push_narrow(&name);
                } else if kind == NarrowKind::NoNarrow {
                    match (cond, &ct) {
                        (Expr::Name(x, _), Ty::Opt(_)) => {
                            self.push_narrow(x);
                        },
                        _ => {},
                    }
                }
                self.check_block(then_body, fuel - 1);
                self.pop_narrows(keep);
                if kind == NarrowKind::NarrowElse {
                    self.push_narrow(&name);
                }
                self.check_block(else_body, fuel - 1);
                self.pop_narrows(keep);
            },
            Stmt::WhileStmt { cond, body, span } => {
                let ct = self.check_expr(cond, fuel - 1);
                if unify(&ct, &Ty::Bool).is_none() {
                    self.diag(DiagCode::TypeMismatch, *span);
                }
                self.check_block(body, fuel - 1);
            },
            Stmt::ForStmt { idx, val, iter, body, span } => {
                let it = self.check_expr(iter, fuel - 1);
                let elem: Ty = match iter_elem_ty(&it) {
                    Some(e) => e,
                    None => {
                        self.diag(DiagCode::TypeMismatch, *span);
                        Ty::Unknown
                    },
                };
                let keep_vars = self.vars.len();
                let keep_narrows = self.narrows.len();
                let inm = clone_bytes(idx);
                self.vars.push(VarEntry { name: inm, ty: Ty::I32, is_const: false });
                let vnm = clone_bytes(val);
                self.vars.push(VarEntry { name: vnm, ty: elem, is_const: false });
                let mut i: usize = 0;
                while i < body.len()
                    invariant
                        0 < fuel,
                        advanced(*old(self), *self),
                    decreases body@.len() - i,
                {
                    self.check_stmt(&body[i], fuel - 1);
                    i += 1;
                }
                self.pop_vars(keep_vars);
                self.pop_narrows(keep_narrows);
            },
            Stmt::WhenStmt { scrutinee, arms, span } => {
                let st = self.check_expr(scrutinee, fuel - 1);
                let is_opt = matches!(st, Ty::Opt(_));
                let is_unknown_t = matches!(st, Ty::Unknown);
                let mut i: usize = 0;
                while i < arms.len()
                    invariant
                        0 < fuel,
                        advanced(*old(self), *self),
                    decreases arms@.len() - i,
                {
                    let keep = self.narrows.len();
                    match &arms[i].pat {
                        Pattern::NullPat(psp) => {
                            if !is_opt && !is_unknown_t {
                                self.diag(DiagCode::TypeInvalidNullComparison, *psp);
                            }
                        },
                        Pattern::WildPat(_) => {
                            // the non-null arm sees the scrutinee narrowed
                            if is_opt {
                                match scrutinee {
                                    Expr::Name(x, _) => {
                                        self.push_narrow(x);
                                    },
                                    _ => {},
                                }
                            }
                        },
                    }
                    self.check_block(&arms[i].body, fuel - 1);
                    self.pop_narrows(keep);
                    i += 1;
                }
            },
            Stmt::ReturnStmt { value, span } => {
                let rt: Option<Ty> = match &self.ret_ty {
                    Some(t) => Some(t.dup()),
                    None => None,
                };
                match rt {
                    None => {
                        self.diag(DiagCode::TypeMismatch, *span);
                        match value {
                            Some(e) => {
                                let _ = self.check_expr(e, fuel - 1);
                            },
                            None => {},
                        }
                    },
                    Some(Ty::ResOf(ok, err)) => {
                        // the declared shape: either the success record or
                        // an error-marked value
                        match value {
                            Some(Expr::StructLit(nm, fields, ssp)) if is_result_word(
                                nm.as_slice(),
                            ) => {
                                if fields.len() == 1 && is_data_word(fields[0].name.as_slice()) {
                                    let t = self.check_expr(&fields[0].value, fuel - 1);
                                    if unify(&t, &ok).is_none() {
                                        self.diag(DiagCode::TypeResultShapeMismatch, *ssp);
                                    }
                                } else {
                                    self.diag(DiagCode::TypeResultShapeMismatch, *ssp);
                                }
                            },
                            Some(Expr::ErrMark(inner, ssp)) => {
                                let t = self.check_expr(inner, fuel - 1);
                                if unify(&t, &err).is_none() {
                                    self.diag(DiagCode::TypeResultShapeMismatch, *ssp);
                                }
                            },
                            Some(other) => {
                                let _ = self.check_expr(other, fuel - 1);
                                self.diag(DiagCode::TypeResultShapeMismatch, *span);
                            },
                            None => {
                                self.diag(DiagCode::TypeResultShapeMismatch, *span);
                            },
                        }
                    },
                    Some(other_rt) => {
                        match value {
                            Some(Expr::ErrMark(inner, ssp)) => {
                                let _ = self.check_expr(inner, fuel - 1);
                                self.diag(DiagCode::TypeResultShapeMismatch, *ssp);
                            },
                            Some(e) => {
                                let t = self.check_expr(e, fuel - 1);
                                let _ok = self.flag_assign(&other_rt, &t, *span);
                            },
                            None => {
                                let void_ok = matches!(other_rt, Ty::Void | Ty::Unknown);
                                if !void_ok {
                                    self.diag(DiagCode::TypeMismatch, *span);
                                }
                            },
                        }
                    },
                }
            },
            Stmt::ExprStmt { expr, .. } => {
                let _ = self.check_expr(expr, fuel - 1);
            },
        }
    }

    fn append_diags(&mut self, ds: Vec<Diagnostic>)
        ensures
            advanced(*old(self), *final(self)),
            final(self).vars@ == old(self).vars@,
            final(self).narrows@ == old(self).narrows@,
    {
        let mut i: usize = 0;
        while i < ds.len()
            invariant
                advanced(*old(self), *self),
                self.vars@ == old(self).vars@,
                self.narrows@ == old(self).narrows@,
            decreases ds@.len() - i,
        {
            self.diags.push(ds[i]);
            i += 1;
        }
    }
}

pub struct CheckOut {
    pub diags: Vec<Diagnostic>,
    /// Name and inferred type of every surviving top-level binding, in
    /// declaration order.
    pub globals: Vec<(Vec<u8>, Ty)>,
}

/// A function body fit for compile-time evaluation: every statement is a
/// binding, a return or an expression over compile-time material.
fn pure_stmts(c: &Checker, stmts: &Vec<Stmt>, fuel: usize) -> (r: bool)
    decreases fuel,
{
    if fuel == 0 {
        return false;
    }
    let mut ok = true;
    let mut i: usize = 0;
    while i < stmts.len()
        invariant
            0 < fuel,
        decreases stmts@.len() - i,
    {
        let this_ok = match &stmts[i] {
            Stmt::ReturnStmt { value, .. } => match value {
                Some(e) => c.is_comptime_expr(e, fuel - 1) || is_param_free_pure(c, e, fuel - 1),
                None => true,
            },
            Stmt::LetStmt { inits, .. } => {
                let mut all = true;
                let mut j: usize = 0;
                while j < inits.len()
                    invariant
                        0 < fuel,
                    decreases inits@.len() - j,
                {
                    if !is_param_free_pure(c, &inits[j], fuel - 1) {
                        all = false;
                    }
                    j += 1;
                }
                all
            },
            Stmt::IfStmt { cond, then_body, else_body, .. } => is_param_free_pure(c, cond, fuel - 1)
                && pure_stmts(c, then_body, fuel - 1) && pure_stmts(c, else_body, fuel - 1),
            Stmt::ExprStmt { expr, .. } => is_param_free_pure(c, expr, fuel - 1),
            _ => false,
        };
        if !this_ok {
            ok = false;
        }
        i += 1;
    }
    ok
}

/// Purity of an expression inside a function body: like compile-time
/// evaluability, but any name is allowed, since names in a pure body are
/// parameters or pure locals.
fn is_param_free_pure(c: &Checker, e: &Expr, fuel: usize) -> (r: bool)
    decreases fuel,
{
    if fuel == 0 {
        return false;
    }
    match e {
        Expr::NumLit(_, _) => true,
        Expr::StrLitE(_, _) => true,
        Expr::NullLit(_) => true,
        Expr::EnumPath(_, _, _) => true,
        Expr::Name(_, _) => true,
        Expr::CallExpr(n, args, _) => {
            let mut ok = match crate::binder::lookup_decl(&c.table, n.as_slice()) {
                Some(id) => id < c.pures.len() && c.pures[id],
                None => false,
            };
            let mut i: usize = 0;
            while i < args.len()
                invariant
                    0 < fuel,
                decreases args@.len() - i,
            {
                if !is_param_free_pure(c, &args[i], fuel - 1) {
                    ok = false;
                }
                i += 1;
            }
            ok
        },
        Expr::Unary(_, inner, _) => is_param_free_pure(c, inner, fuel - 1),
        Expr::Binary(_, l, r2, _) => is_param_free_pure(c, l, fuel - 1) && is_param_free_pure(
            c,
            r2,
            fuel - 1,
        ),
        Expr::Ternary(cd, t, f, _) => is_param_free_pure(c, cd, fuel - 1) && is_param_free_pure(
            c,
            t,
            fuel - 1,
        ) && is_param_free_pure(c, f, fuel - 1),
        Expr::Elvis(a, b, _) => is_param_free_pure(c, a, fuel - 1) && is_param_free_pure(
            c,
            b,
            fuel - 1,
        ),
        Expr::FieldGet(inner, _, _) => is_param_free_pure(c, inner, fuel - 1),
        Expr::ComptimeMark(inner, _) => is_param_free_pure(c, inner, fuel - 1),
        _ => false,
    }
}

/// Type checking. Declarations may be used before their definitions; the
/// checker walks items in order, attaches parameter and receiver scopes to
/// each function body, validates compile-time markers, and reports every
/// violation it finds with its source span.
pub fn check(prog: &Program, table: DeclTable) -> (r: CheckOut) {
    let mut c = Checker {
        table,
        vars: Vec::new(),
        narrows: Vec::new(),
        pures: Vec::new(),
        diags: Vec::new(),
        ret_ty: None,
    };
    // purity marks for compile-time call checking, iterated to a fixpoint:
    // marking is monotone (a function only gains purity as its callees are
    // marked), so at most one round per declaration is ever needed
    let n_entries = c.table.entries.len();
    let mut i: usize = 0;
    while i < n_entries
        decreases n_entries - i,
    {
        c.pures.push(false);
        i += 1;
    }
    let mut round: usize = 0;
    loop
        invariant
            round <= n_entries,
        decreases n_entries - round,
    {
        if round >= n_entries {
            break ;
        }
        let mut changed = false;
        let mut j: usize = 0;
        while j < prog.items.len()
            decreases prog.items@.len() - j,
        {
            match &prog.items[j] {
                Item::DeclItem(Decl::Func { receiver: None, sig, body }) => {
                    match crate::binder::lookup_decl(&c.table, sig.name.as_slice()) {
                        Some(id) => {
                            let p = pure_stmts(&c, body, CHECK_FUEL);
                            if id < c.pures.len() && p && !c.pures[id] {
                                c.pures.set(id, true);
                                changed = true;
                            }
                        },
                        None => {},
                    }
                },
                _ => {},
            }
            j += 1;
        }
        if !changed {
            break ;
        }
        round += 1;
    }
    // walk the items in order
    let mut j: usize = 0;
    while j < prog.items.len()
        decreases prog.items@.len() - j,
    {
        match &prog.items[j] {
            Item::DeclItem(d) => {
                check_decl(&mut c, d);
            },
            Item::StmtItem(s) => {
                c.check_stmt(s, CHECK_FUEL);
            },
        }
        j += 1;
    }
    let mut globals: Vec<(Vec<u8>, Ty)> = Vec::new();
    let mut g: usize = 0;
    while g < c.vars.len()
        decreases c.vars@.len() - g,
    {
        globals.push((clone_bytes(&c.vars[g].name), c.vars[g].ty.dup()));
        g += 1;
    }
    CheckOut { diags: c.diags, globals }
}

/// Checks one top-level declaration.
fn check_decl(c: &mut Checker, d: &Decl) {
    match d {
        Decl::Func { receiver, sig, body } => {
            let keep_vars = c.vars.len();
            let keep_narrows = c.narrows.len();
            // the receiver binds to its type
            match receiver {
                Some((binder, tyname)) => {
                    match crate::binder::lookup_decl(&c.table, tyname.as_slice()) {
                        Some(id) => {
                            let nm = clone_bytes(binder);
                            c.vars.push(
                                VarEntry { name: nm, ty: Ty::Named(id), is_const: false },
                            );
                        },
                        None => {},
                    }
                },
                None => {},
            }
            // parameters
            let mut i: usize = 0;
            while i < sig.params.len()
                decreases sig.params@.len() - i,
            {
                let mut ds: Vec<Diagnostic> = Vec::new();
                let t = resolve_type(&c.table, &sig.params[i].ty, &mut ds);
                c.append_diags(ds);
                let nm = clone_bytes(&sig.params[i].name);
                c.vars.push(VarEntry { name: nm, ty: t, is_const: false });
                i += 1;
            }
            let rt: Ty = match &sig.ret {
                Some(te) => {
                    let mut ds: Vec<Diagnostic> = Vec::new();
                    let t = resolve_type(&c.table, te, &mut ds);
                    c.append_diags(ds);
                    t
                },
                None => Ty::Void,
            };
            c.ret_ty = Some(rt);
            let mut b: usize = 0;
            while b < body.len()
                decreases body@.len() - b,
            {
                c.check_stmt(&body[b], CHECK_FUEL);
                b += 1;
            }
            c.ret_ty = None;
            c.pop_vars(keep_vars);
            c.pop_narrows(keep_narrows);
        },
        Decl::ConstDecl { name, ann, value, .. } => {
            let t = c.check_expr(value, CHECK_FUEL);
            let declared: Ty = match ann {
                Some(te) => {
                    let mut ds: Vec<Diagnostic> = Vec::new();
                    let a = resolve_type(&c.table, te, &mut ds);
                    c.append_diags(ds);
                    let _ok = c.flag_assign(&a, &t, const_span(d));
                    a
                },
                None => t,
            };
            let nm = clone_bytes(name);
            c.vars.push(VarEntry { name: nm, ty: declared, is_const: true });
        },
        Decl::EnumDecl { .. } => {},
        Decl::StructDecl { .. } => {},
        Decl::IfaceDecl { .. } => {},
    }
}

fn const_span(d: &Decl) -> (r: Span) {
    match d {
        Decl::ConstDecl { span, .. } => *span,
        Decl::Func { sig, .. } => sig.span,
        Decl::EnumDecl { span, .. } => *span,
        Decl::StructDecl { span, .. } => *span,
        Decl::IfaceDecl { span, .. } => *span,
    }
}

} // verus!
