//! The type checker's decision rules, each with its exact contract:
//! unification, `catch` and elvis typing, ranges, operators, struct
//! literals and scope lookup with narrowing.

use vstd::prelude::*;
use vstd::multiset::Multiset;
use crate::ast::{BinOp, Expr, UnOp};
use crate::types::{bytes_eq, Ty};

verus! {

/// Unification up to the recovery type: `Unknown` unifies with anything
/// (so one error does not cascade), otherwise the types must be equal.
pub open spec fn spec_unify(a: Ty, b: Ty) -> Option<Ty> {
    if a == Ty::Unknown {
        Some(b)
    } else if b == Ty::Unknown {
        Some(a)
    } else if a == b {
        Some(a)
    } else {
        None
    }
}

fn is_unknown(t: &Ty) -> (r: bool)
    ensures
        r == (*t == Ty::Unknown),
{
    match t {
        Ty::Unknown => true,
        _ => false,
    }
}

pub fn unify(a: &Ty, b: &Ty) -> (r: Option<Ty>)
    ensures
        r == spec_unify(*a, *b),
{
    if is_unknown(a) {
        Some(b.dup())
    } else if is_unknown(b) {
        Some(a.dup())
    } else if a.ty_eq(b) {
        Some(a.dup())
    } else {
        None
    }
}

/// The type of `scrut catch err { ... with w }`: the protected expression
/// must be a result, and the default value must unify with its success
/// type, which is the type of the whole expression.
pub open spec fn spec_catch_ty(scrut: Ty, with_ty: Ty) -> Option<Ty> {
    match scrut {
        Ty::ResOf(ok, _err) => spec_unify(*ok, with_ty),
        Ty::Unknown => Some(Ty::Unknown),
        _ => None,
    }
}

pub fn catch_result_ty(scrut: &Ty, with_ty: &Ty) -> (r: Option<Ty>)
    ensures
        r == spec_catch_ty(*scrut, *with_ty),
{
    match scrut {
        Ty::ResOf(ok, _err) => unify(ok, with_ty),
        Ty::Unknown => Some(Ty::Unknown),
        _ => None,
    }
}

/// The type the `catch` block's bound error identifier receives.
pub fn catch_err_ty(scrut: &Ty) -> (r: Option<Ty>)
    ensures
        r == match *scrut {
            Ty::ResOf(_ok, err) => Some(*err),
            Ty::Unknown => Some(Ty::Unknown),
            _ => None,
        },
{
    match scrut {
        Ty::ResOf(_ok, err) => Some(err.dup()),
        Ty::Unknown => Some(Ty::Unknown),
        _ => None,
    }
}

/// Whichever branch runs at runtime, a `catch` on a result whose default
/// value unifies with the success type has exactly that success type.
pub proof fn lemma_catch_yields_success_type(ok: Ty, err: Ty, with_ty: Ty)
    requires
        spec_unify(ok, with_ty) is Some,
    ensures
        ok != Ty::Unknown ==> spec_catch_ty(Ty::ResOf(Box::new(ok), Box::new(err)), with_ty)
            == Some(ok),
        with_ty == ok ==> spec_catch_ty(Ty::ResOf(Box::new(ok), Box::new(err)), with_ty) == Some(
            ok,
        ),
{
}

/// The type of `a ?: b`: `a` must be optional and `b` must unify with its
/// inner type, which is the type of the whole expression.
pub open spec fn spec_elvis_ty(a: Ty, b: Ty) -> Option<Ty> {
    match a {
        Ty::Opt(inner) => spec_unify(*inner, b),
        Ty::Unknown => Some(Ty::Unknown),
        _ => None,
    }
}

pub fn elvis_ty(a: &Ty, b: &Ty) -> (r: Option<Ty>)
    ensures
        r == spec_elvis_ty(*a, *b),
{
    match a {
        Ty::Opt(inner) => unify(inner, b),
        Ty::Unknown => Some(Ty::Unknown),
        _ => None,
    }
}

/// A ternary condition must be boolean, or an optional used directly as an
/// implicit null check.
pub open spec fn spec_cond_ok(c: Ty) -> bool {
    c == Ty::Bool || c == Ty::Unknown || c matches Ty::Opt(_)
}

pub fn cond_ok(c: &Ty) -> (r: bool)
    ensures
        r == spec_cond_ok(*c),
{
    match c {
        Ty::Bool => true,
        Ty::Unknown => true,
        Ty::Opt(_) => true,
        _ => false,
    }
}

/// A range `lo..hi:step` requires integer endpoints and step and is an
/// iterated sequence of its element type, the integer type.
pub open spec fn spec_range_ty(lo: Ty, hi: Ty, step: Ty) -> Option<Ty> {
    if spec_unify(lo, Ty::I32) is Some && spec_unify(hi, Ty::I32) is Some && spec_unify(
        step,
        Ty::I32,
    ) is Some {
        Some(Ty::DynArr(Box::new(Ty::I32)))
    } else {
        None
    }
}

pub fn range_ty(lo: &Ty, hi: &Ty, step: &Ty) -> (r: Option<Ty>)
    ensures
        r == spec_range_ty(*lo, *hi, *step),
{
    let a = unify(lo, &Ty::I32);
    let b = unify(hi, &Ty::I32);
    let c = unify(step, &Ty::I32);
    if a.is_some() && b.is_some() && c.is_some() {
        Some(Ty::DynArr(Box::new(Ty::I32)))
    } else {
        None
    }
}

/// The element type an iteration binds: ranges and arrays iterate their
/// element type.
pub open spec fn spec_iter_elem_ty(t: Ty) -> Option<Ty> {
    match t {
        Ty::DynArr(e) => Some(*e),
        Ty::FixedArr(e, _) => Some(*e),
        Ty::Unknown => Some(Ty::Unknown),
        _ => None,
    }
}

pub fn iter_elem_ty(t: &Ty) -> (r: Option<Ty>)
    ensures
        r == spec_iter_elem_ty(*t),
{
    match t {
        Ty::DynArr(e) => Some(e.dup()),
        Ty::FixedArr(e, _) => Some(e.dup()),
        Ty::Unknown => Some(Ty::Unknown),
        _ => None,
    }
}

/// Values the string concatenation operator accepts on its right side.
pub open spec fn spec_str_appendable(t: Ty) -> bool {
    t == Ty::Str || t == Ty::I32 || t == Ty::F32 || t == Ty::Bool || t == Ty::Unknown
}

/// Types the equality operators accept.
pub open spec fn spec_eq_comparable(t: Ty) -> bool {
    match t {
        Ty::I32 | Ty::F32 | Ty::Str | Ty::Bool | Ty::Unknown | Ty::Named(_) => true,
        _ => false,
    }
}

/// Arithmetic on matching numeric operands; `Unknown` flows through.
pub open spec fn spec_arith_ty(l: Ty, r: Ty) -> Option<Ty> {
    if l == Ty::Unknown || r == Ty::Unknown {
        Some(Ty::Unknown)
    } else if l == Ty::I32 && r == Ty::I32 {
        Some(Ty::I32)
    } else if l == Ty::F32 && r == Ty::F32 {
        Some(Ty::F32)
    } else {
        None
    }
}

/// The full binary-operator typing table. String `+` concatenates a string
/// with a printable primitive; comparisons need matching numeric operands;
/// equality needs equal comparable types; logic needs booleans.
pub open spec fn spec_binary_ty(op: BinOp, l: Ty, r: Ty) -> Option<Ty> {
    match op {
        BinOp::Add => if l == Ty::Str && spec_str_appendable(r) {
            Some(Ty::Str)
        } else {
            spec_arith_ty(l, r)
        },
        BinOp::Sub | BinOp::Mul | BinOp::Div => spec_arith_ty(l, r),
        BinOp::Lt | BinOp::Gt | BinOp::Le | BinOp::Ge => if spec_arith_ty(l, r) is Some {
            Some(Ty::Bool)
        } else {
            None
        },
        BinOp::EqCmp | BinOp::NeCmp => if l == Ty::Unknown || r == Ty::Unknown {
            Some(Ty::Bool)
        } else if l == r && spec_eq_comparable(l) {
            Some(Ty::Bool)
        } else {
            None
        },
        BinOp::AndOp | BinOp::OrOp => if (l == Ty::Bool || l == Ty::Unknown) && (r == Ty::Bool || r
            == Ty::Unknown) {
            Some(Ty::Bool)
        } else {
            None
        },
    }
}

fn str_appendable(t: &Ty) -> (r: bool)
    ensures
        r == spec_str_appendable(*t),
{
    match t {
        Ty::Str | Ty::I32 | Ty::F32 | Ty::Bool | Ty::Unknown => true,
        _ => false,
    }
}

fn eq_comparable(t: &Ty) -> (r: bool)
    ensures
        r == spec_eq_comparable(*t),
{
    match t {
        Ty::I32 | Ty::F32 | Ty::Str | Ty::Bool | Ty::Unknown | Ty::Named(_) => true,
        _ => false,
    }
}

fn arith_ty(l: &Ty, r: &Ty) -> (res: Option<Ty>)
    ensures
        res == spec_arith_ty(*l, *r),
{
    if is_unknown(l) || is_unknown(r) {
        Some(Ty::Unknown)
    } else if l.ty_eq(&Ty::I32) && r.ty_eq(&Ty::I32) {
        Some(Ty::I32)
    } else if l.ty_eq(&Ty::F32) && r.ty_eq(&Ty::F32) {
        Some(Ty::F32)
    } else {
        None
    }
}

pub fn binary_ty(op: BinOp, l: &Ty, r: &Ty) -> (res: Option<Ty>)
    ensures
        res == spec_binary_ty(op, *l, *r),
{
    match op {
        BinOp::Add => {
            if l.ty_eq(&Ty::Str) && str_appendable(r) {
                Some(Ty::Str)
            } else {
                arith_ty(l, r)
            }
        },
        BinOp::Sub | BinOp::Mul | BinOp::Div => arith_ty(l, r),
        BinOp::Lt | BinOp::Gt | BinOp::Le | BinOp::Ge => {
            if arith_ty(l, r).is_some() {
                Some(Ty::Bool)
            } else {
                None
            }
        },
        BinOp::EqCmp | BinOp::NeCmp => {
            if is_unknown(l) || is_unknown(r) {
                Some(Ty::Bool)
            } else if l.ty_eq(r) && eq_comparable(l) {
                Some(Ty::Bool)
            } else {
                None
            }
        },
        BinOp::AndOp | BinOp::OrOp => {
            if (l.ty_eq(&Ty::Bool) || is_unknown(l)) && (r.ty_eq(&Ty::Bool) || is_unknown(r)) {
                Some(Ty::Bool)
            } else {
                None
            }
        },
    }
}

/// Unary negation on a numeric operand.
pub open spec fn spec_unary_ty(op: UnOp, t: Ty) -> Option<Ty> {
    match op {
        UnOp::Neg => match t {
            Ty::I32 => Some(Ty::I32),
            Ty::F32 => Some(Ty::F32),
            Ty::Unknown => Some(Ty::Unknown),
            _ => None,
        },
    }
}

pub fn unary_ty(op: UnOp, t: &Ty) -> (r: Option<Ty>)
    ensures
        r == spec_unary_ty(op, *t),
{
    match t {
        Ty::I32 => Some(Ty::I32),
        Ty::F32 => Some(Ty::F32),
        Ty::Unknown => Some(Ty::Unknown),
        _ => None,
    }
}

/// The name-and-type pairs of a field list, as mathematical values.
pub open spec fn fields_view(s: Seq<(Vec<u8>, Ty)>) -> Seq<(Seq<u8>, Ty)> {
    s.map(|i: int, p: (Vec<u8>, Ty)| (p.0@, p.1))
}

/// A struct literal matches a declaration when it supplies exactly the
/// declared fields, each with its declared type, in any order: as many
/// fields as declared, and every declared (name, type) pair present.
pub open spec fn lit_matches(decl: Seq<(Seq<u8>, Ty)>, given: Multiset<(Seq<u8>, Ty)>) -> bool {
    &&& given.len() == decl.len()
    &&& forall|j: int| 0 <= j < decl.len() ==> given.count(#[trigger] decl[j]) > 0
}

/// Decides whether literal fields `given` (already typed) match the
/// declared fields, regardless of the order they were written in: the
/// contract only sees the multiset of the given fields.
pub fn struct_fields_match(decl: &Vec<(Vec<u8>, Ty)>, given: &Vec<(Vec<u8>, Ty)>) -> (r: bool)
    ensures
        r == lit_matches(fields_view(decl@), fields_view(given@).to_multiset()),
{
    proof {
        broadcast use vstd::seq_lib::group_to_multiset_ensures;

    }
    let ghost dv = fields_view(decl@);
    let ghost gv = fields_view(given@);
    let ghost m = fields_view(given@).to_multiset();
    if decl.len() != given.len() {
        proof {
            assert(m.len() == gv.len());
        }
        return false;
    }
    let mut j: usize = 0;
    while j < decl.len()
        invariant
            j <= decl@.len(),
            decl@.len() == given@.len(),
            dv == fields_view(decl@),
            gv == fields_view(given@),
            m == fields_view(given@).to_multiset(),
            forall|jj: int| 0 <= jj < j ==> m.count(#[trigger] dv[jj]) > 0,
        decreases decl@.len() - j,
    {
        let mut i: usize = 0;
        let mut found = false;
        while i < given.len()
            invariant
                i <= given@.len(),
                j < decl@.len(),
                decl@.len() == given@.len(),
                dv == fields_view(decl@),
                gv == fields_view(given@),
                m == fields_view(given@).to_multiset(),
                found ==> gv.contains(dv[j as int]),
                !found ==> forall|ii: int| 0 <= ii < i ==> gv[ii] != dv[j as int],
            decreases given@.len() - i,
        {
            if !found && bytes_eq(given[i].0.as_slice(), decl[j].0.as_slice()) && given[i].1.ty_eq(
                &decl[j].1,
            ) {
                proof {
                    assert(gv[i as int] == dv[j as int]);
                    assert(gv.contains(dv[j as int]));
                }
                found = true;
            }
            i += 1;
        }
        if !found {
            proof {
                broadcast use vstd::seq_lib::group_to_multiset_ensures;

                assert(!gv.contains(dv[j as int]));
                assert(m.count(dv[j as int]) == 0);
            }
            return false;
        }
        proof {
            broadcast use vstd::seq_lib::group_to_multiset_ensures;

            assert(m.count(dv[j as int]) > 0);
        }
        j += 1;
    }
    proof {
        broadcast use vstd::seq_lib::group_to_multiset_ensures;

        assert(m.len() == gv.len());
    }
    true
}

/// Two field lists with the same fields, however ordered, match a
/// declaration identically: the matching relation only depends on the
/// multiset of supplied fields.
pub proof fn lemma_literal_field_order_irrelevant(
    decl: Seq<(Seq<u8>, Ty)>,
    g1: Seq<(Seq<u8>, Ty)>,
    g2: Seq<(Seq<u8>, Ty)>,
)
    requires
        g1.to_multiset() == g2.to_multiset(),
    ensures
        lit_matches(decl, g1.to_multiset()) == lit_matches(decl, g2.to_multiset()),
{
}

/// How an `if` condition narrows an optional: comparing a name to `null`
/// narrows it in the non-null branch; an optional used directly as the
/// condition narrows in the then branch.
#[derive(Clone, Copy, PartialEq, Eq, Structural, Debug)]
pub enum NarrowKind {
    /// `x == null`: the else branch knows `x` is not null.
    NarrowElse,
    /// `x != null`: the then branch knows `x` is not null.
    NarrowThen,
    /// The condition is no null check on a name.
    NoNarrow,
}

/// Whether the expression is a null comparison on a name, and which branch
/// it narrows.
pub open spec fn spec_narrow_kind(e: Expr) -> NarrowKind {
    match e {
        Expr::Binary(BinOp::EqCmp, l, r, _) => match (*l, *r) {
            (Expr::Name(_, _), Expr::NullLit(_)) => NarrowKind::NarrowElse,
            (Expr::NullLit(_), Expr::Name(_, _)) => NarrowKind::NarrowElse,
            _ => NarrowKind::NoNarrow,
        },
        Expr::Binary(BinOp::NeCmp, l, r, _) => match (*l, *r) {
            (Expr::Name(_, _), Expr::NullLit(_)) => NarrowKind::NarrowThen,
            (Expr::NullLit(_), Expr::Name(_, _)) => NarrowKind::NarrowThen,
            _ => NarrowKind::NoNarrow,
        },
        _ => NarrowKind::NoNarrow,
    }
}

/// The name a null check compares, empty when there is none.
pub open spec fn spec_narrow_name(e: Expr) -> Seq<u8> {
    match e {
        Expr::Binary(BinOp::EqCmp, l, r, _) | Expr::Binary(BinOp::NeCmp, l, r, _) => match (
            *l,
            *r,
        ) {
            (Expr::Name(x, _), Expr::NullLit(_)) => x@,
            (Expr::NullLit(_), Expr::Name(x, _)) => x@,
            _ => Seq::empty(),
        },
        _ => Seq::empty(),
    }
}

/// Recognises `x == null` / `x != null` conditions (either operand order).
pub fn null_check_of(e: &Expr) -> (r: (NarrowKind, Vec<u8>))
    ensures
        r.0 == spec_narrow_kind(*e),
        r.1@ == spec_narrow_name(*e),
{
    match e {
        Expr::Binary(BinOp::EqCmp, l, r, _) => match (&**l, &**r) {
            (Expr::Name(x, _), Expr::NullLit(_)) => (NarrowKind::NarrowElse, clone_bytes(x)),
            (Expr::NullLit(_), Expr::Name(x, _)) => (NarrowKind::NarrowElse, clone_bytes(x)),
            _ => (NarrowKind::NoNarrow, Vec::new()),
        },
        Expr::Binary(BinOp::NeCmp, l, r, _) => match (&**l, &**r) {
            (Expr::Name(x, _), Expr::NullLit(_)) => (NarrowKind::NarrowThen, clone_bytes(x)),
            (Expr::NullLit(_), Expr::Name(x, _)) => (NarrowKind::NarrowThen, clone_bytes(x)),
            _ => (NarrowKind::NoNarrow, Vec::new()),
        },
        _ => (NarrowKind::NoNarrow, Vec::new()),
    }
}

/// Copies a byte string.
pub fn clone_bytes(v: &Vec<u8>) -> (r: Vec<u8>)
    ensures
        r@ == v@,
{
    let mut out: Vec<u8> = Vec::new();
    let mut i: usize = 0;
    while i < v.len()
        invariant
            i <= v@.len(),
            out@ == v@.subrange(0, i as int),
        decreases v@.len() - i,
    {
        out.push(v[i]);
        proof {
            assert(out@ =~= v@.subrange(0, i + 1 as int));
        }
        i += 1;
    }
    proof {
        assert(out@ =~= v@);
    }
    out
}

} // verus!
