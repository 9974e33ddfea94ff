//! The declaration binder: a first pass registers every top-level name
//! (so declarations may refer forward to each other), a second resolves
//! declaration bodies, a third attaches methods to their receiver types.

use vstd::prelude::*;
use crate::ast::{Decl, FnSig, Item, Param, Program, Stmt, TypeExpr};
use crate::diag::{DiagCode, Diagnostic, Span};
use crate::rules::clone_bytes;
use crate::token::spec_is_digit;
use crate::types::{bytes_eq, MethodSig, Ty};

verus! {

/// What a top-level name stands for.
pub enum DeclKind {
    /// Field names and types, in declaration order.
    StructK(Vec<(Vec<u8>, Ty)>),
    /// Variant names.
    EnumK(Vec<Vec<u8>>),
    /// Required method signatures.
    IfaceK(Vec<MethodSig>),
    /// Parameter names and types, and the return type.
    FnK(Vec<(Vec<u8>, Ty)>, Ty),
    /// A constant; its type is inferred during checking.
    ConstK,
}

pub struct DeclEntry {
    pub name: Vec<u8>,
    pub kind: DeclKind,
}

/// The symbol table: one entry per top-level declaration, plus the global
/// `(receiver declaration, signature)` method list.
pub struct DeclTable {
    pub entries: Vec<DeclEntry>,
    pub methods: Vec<(usize, MethodSig)>,
}

/// Top-level names are unique.
pub open spec fn table_wf(t: DeclTable) -> bool {
    forall|i: int, j: int|
        0 <= i < j < t.entries@.len() ==> (#[trigger] t.entries@[i]).name@ != (
        #[trigger] t.entries@[j]).name@
}

/// First declaration with the given name, if any.
pub fn lookup_name(names: &Vec<Vec<u8>>, want: &[u8]) -> (r: Option<usize>)
    ensures
        (match r {
            Some(i) => i < names@.len() && names@[i as int]@ == want@,
            None => forall|i: int| 0 <= i < names@.len() ==> (#[trigger] names@[i])@ != want@,
        }),
{
    let mut i: usize = 0;
    while i < names.len()
        invariant
            i <= names@.len(),
            forall|j: int| 0 <= j < i ==> (#[trigger] names@[j])@ != want@,
        decreases names@.len() - i,
    {
        if bytes_eq(names[i].as_slice(), want) {
            return Some(i);
        }
        i += 1;
    }
    None
}

/// First table entry with the given name, if any.
pub fn lookup_decl(table: &DeclTable, want: &[u8]) -> (r: Option<usize>)
    ensures
        (match r {
            Some(i) => i < table.entries@.len() && table.entries@[i as int].name@ == want@,
            None => forall|i: int|
                0 <= i < table.entries@.len() ==> (#[trigger] table.entries@[i]).name@ != want@,
        }),
{
    let mut i: usize = 0;
    while i < table.entries.len()
        invariant
            i <= table.entries@.len(),
            forall|j: int| 0 <= j < i ==> (#[trigger] table.entries@[j]).name@ != want@,
        decreases table.entries@.len() - i,
    {
        if bytes_eq(table.entries[i].name.as_slice(), want) {
            return Some(i);
        }
        i += 1;
    }
    None
}

/// The integer a digit string denotes, most significant digit first.
pub open spec fn digits_val(s: Seq<u8>) -> int
    decreases s.len(),
{
    if s.len() == 0 {
        0
    } else {
        digits_val(s.drop_last()) * 10 + (s.last() - 48)
    }
}

pub open spec fn pow10(n: nat) -> int
    decreases n,
{
    if n == 0 {
        1
    } else {
        10 * pow10((n - 1) as nat)
    }
}

proof fn lemma_pow10_mono(a: nat, b: nat)
    requires
        a <= b,
    ensures
        0 < pow10(a) <= pow10(b),
    decreases b,
{
    if b == 0 {
    } else if a == b {
        lemma_pow10_mono((a - 1) as nat, (b - 1) as nat);
    } else {
        lemma_pow10_mono(a, (b - 1) as nat);
    }
}

/// Reads a fixed-array size: at most nine digits, so the value is exact
/// and far below any machine limit.
pub fn parse_array_size(s: &[u8]) -> (r: Option<u64>)
    ensures
        (match r {
            Some(v) => 1 <= s@.len() <= 9 && (forall|i: int|
                0 <= i < s@.len() ==> spec_is_digit(#[trigger] s@[i])) && v == digits_val(s@),
            None => s@.len() == 0 || s@.len() > 9 || exists|i: int|
                0 <= i < s@.len() && !spec_is_digit(#[trigger] s@[i]),
        }),
{
    if s.len() == 0 || s.len() > 9 {
        return None;
    }
    let mut acc: u64 = 0;
    let mut i: usize = 0;
    while i < s.len()
        invariant
            i <= s@.len() <= 9,
            forall|j: int| 0 <= j < i ==> spec_is_digit(#[trigger] s@[j]),
            acc == digits_val(s@.subrange(0, i as int)),
            acc < pow10(i as nat),
        decreases s@.len() - i,
    {
        let b = s[i];
        if !(48u8 <= b && b <= 57u8) {
            return None;
        }
        proof {
            lemma_pow10_mono(i as nat, 8nat);
            reveal_with_fuel(pow10, 10);
            assert(pow10(8nat) == 100000000);
            assert(s@.subrange(0, i + 1 as int).drop_last() =~= s@.subrange(0, i as int));
            assert(s@.subrange(0, i + 1 as int).last() == s@[i as int]);
        }
        acc = acc * 10 + ((b - 48) as u64);
        i += 1;
    }
    proof {
        assert(s@.subrange(0, s@.len() as int) =~= s@);
    }
    Some(acc)
}

fn is_i32_name(s: &[u8]) -> (r: bool)
    ensures
        r == (s@ == seq![105u8, 51u8, 50u8]),
{
    let r = s.len() == 3 && s[0] == 105u8 && s[1] == 51u8 && s[2] == 50u8;
    proof {
        if r {
            assert(s@ =~= seq![105u8, 51u8, 50u8]);
        }
    }
    r
}

fn is_f32_name(s: &[u8]) -> (r: bool)
    ensures
        r == (s@ == seq![102u8, 51u8, 50u8]),
{
    let r = s.len() == 3 && s[0] == 102u8 && s[1] == 51u8 && s[2] == 50u8;
    proof {
        if r {
            assert(s@ =~= seq![102u8, 51u8, 50u8]);
        }
    }
    r
}

fn is_str_name(s: &[u8]) -> (r: bool)
    ensures
        r == (s@ == seq![115u8, 116u8, 114u8]),
{
    let r = s.len() == 3 && s[0] == 115u8 && s[1] == 116u8 && s[2] == 114u8;
    proof {
        if r {
            assert(s@ =~= seq![115u8, 116u8, 114u8]);
        }
    }
    r
}

fn is_bool_name(s: &[u8]) -> (r: bool)
    ensures
        r == (s@ == seq![98u8, 111u8, 111u8, 108u8]),
{
    let r = s.len() == 4 && s[0] == 98u8 && s[1] == 111u8 && s[2] == 111u8 && s[3] == 108u8;
    proof {
        if r {
            assert(s@ =~= seq![98u8, 111u8, 111u8, 108u8]);
        }
    }
    r
}

/// Resolves a syntactic type against the registered top-level names,
/// reporting unknown names and malformed array sizes.
fn ty_of(names: &Vec<Vec<u8>>, te: &TypeExpr, diags: &mut Vec<Diagnostic>) -> (r: Ty)
    decreases te,
{
    match te {
        TypeExpr::NamedTe(n, sp) => {
            if is_i32_name(n.as_slice()) {
                Ty::I32
            } else if is_f32_name(n.as_slice()) {
                Ty::F32
            } else if is_str_name(n.as_slice()) {
                Ty::Str
            } else if is_bool_name(n.as_slice()) {
                Ty::Bool
            } else {
                match lookup_name(names, n.as_slice()) {
                    Some(id) => Ty::Named(id),
                    None => {
                        diags.push(Diagnostic::of(DiagCode::TypeUnknownName, *sp));
                        Ty::Unknown
                    },
                }
            }
        },
        TypeExpr::FixedArrTe(size, elem, sp) => {
            let e = ty_of(names, elem, diags);
            match parse_array_size(size.as_slice()) {
                Some(n) => Ty::FixedArr(Box::new(e), n),
                None => {
                    diags.push(Diagnostic::of(DiagCode::TypeBadArraySize, *sp));
                    Ty::Unknown
                },
            }
        },
        TypeExpr::DynArrTe(elem, _sp) => {
            let e = ty_of(names, elem, diags);
            Ty::DynArr(Box::new(e))
        },
        TypeExpr::OptTe(inner, _sp) => {
            let e = ty_of(names, inner, diags);
            Ty::Opt(Box::new(e))
        },
        TypeExpr::ResultTe(ok, _sp) => {
            let e = ty_of(names, ok, diags);
            Ty::ResOf(Box::new(e), Box::new(Ty::Str))
        },
    }
}

/// Resolves `name: type` pairs.
fn params_of(names: &Vec<Vec<u8>>, params: &Vec<Param>, diags: &mut Vec<Diagnostic>) -> (r: Vec<
    (Vec<u8>, Ty),
>)
{
    let mut out: Vec<(Vec<u8>, Ty)> = Vec::new();
    let mut i: usize = 0;
    while i < params.len()
        decreases params@.len() - i,
    {
        let t = ty_of(names, &params[i].ty, diags);
        out.push((clone_bytes(&params[i].name), t));
        i += 1;
    }
    out
}

/// Resolves a signature into a method signature (parameter types and
/// return type; a missing return type means no value).
fn sig_of(names: &Vec<Vec<u8>>, sig: &FnSig, diags: &mut Vec<Diagnostic>) -> (r: MethodSig) {
    let ps = params_of(names, &sig.params, diags);
    let mut tys: Vec<Ty> = Vec::new();
    let mut i: usize = 0;
    while i < ps.len()
        decreases ps@.len() - i,
    {
        tys.push(ps[i].1.dup());
        i += 1;
    }
    let ret = match &sig.ret {
        Some(te) => ty_of(names, te, diags),
        None => Ty::Void,
    };
    MethodSig { name: clone_bytes(&sig.name), params: tys, ret }
}

/// The name a top-level item declares, if any: methods and statements
/// bind no top-level name.
pub open spec fn item_name_view(it: Item) -> Option<Seq<u8>> {
    match it {
        Item::DeclItem(d) => match d {
            Decl::Func { receiver, sig, .. } => match receiver {
                Some(_) => None,
                None => Some(sig.name@),
            },
            Decl::ConstDecl { name, .. } => Some(name@),
            Decl::EnumDecl { name, .. } => Some(name@),
            Decl::StructDecl { name, .. } => Some(name@),
            Decl::IfaceDecl { name, .. } => Some(name@),
        },
        Item::StmtItem(_) => None,
    }
}

/// Some entry carries the name.
pub open spec fn name_registered(entries: Seq<DeclEntry>, n: Seq<u8>) -> bool {
    exists|k: int| 0 <= k < entries.len() && (#[trigger] entries[k]).name@ == n
}

/// Some registered name equals `n`.
pub open spec fn name_in(names: Seq<Vec<u8>>, n: Seq<u8>) -> bool {
    exists|k: int| 0 <= k < names.len() && (#[trigger] names[k])@ == n
}

/// The declared name of a top-level item; methods and statements bind no
/// top-level name.
fn item_decl_name(it: &Item) -> (r: Option<&Vec<u8>>)
    ensures
        (match r {
            Some(n) => item_name_view(*it) == Some(n@),
            None => item_name_view(*it) is None,
        }),
{
    match it {
        Item::DeclItem(d) => match d {
            Decl::Func { receiver, sig, .. } => match receiver {
                Some(_) => None,
                None => Some(&sig.name),
            },
            Decl::ConstDecl { name, .. } => Some(name),
            Decl::EnumDecl { name, .. } => Some(name),
            Decl::StructDecl { name, .. } => Some(name),
            Decl::IfaceDecl { name, .. } => Some(name),
        },
        Item::StmtItem(_) => None,
    }
}

pub struct BindOut {
    pub table: DeclTable,
    pub diags: Vec<Diagnostic>,
}

/// Declaration binding. Registers every top-level name first, so
/// declarations may refer to later ones; reports a diagnostic for each
/// duplicate top-level name and each method on an undeclared receiver
/// type. The resulting table holds each surviving name exactly once, and
/// every name any top-level item declares is in the table: with the
/// uniqueness clause, a uniquely named declaration has exactly one entry.
pub fn bind(prog: &Program) -> (r: BindOut)
    ensures
        table_wf(r.table),
        forall|i: int|
            0 <= i < prog.items@.len() && item_name_view(#[trigger] prog.items@[i]) is Some
                ==> name_registered(r.table.entries@, item_name_view(prog.items@[i])->0),
{
    let mut diags: Vec<Diagnostic> = Vec::new();
    let mut names: Vec<Vec<u8>> = Vec::new();
    let mut picked: Vec<usize> = Vec::new();
    // pass 1: register unique top-level names
    let mut i: usize = 0;
    while i < prog.items.len()
        invariant
            i <= prog.items@.len(),
            names@.len() == picked@.len(),
            forall|a: int, b: int|
                0 <= a < b < names@.len() ==> (#[trigger] names@[a])@ != (#[trigger] names@[b])@,
            forall|a: int| 0 <= a < picked@.len() ==> (#[trigger] picked@[a]) < prog.items@.len(),
            forall|a: int|
                0 <= a < i && item_name_view(#[trigger] prog.items@[a]) is Some ==> name_in(
                    names@,
                    item_name_view(prog.items@[a])->0,
                ),
        decreases prog.items@.len() - i,
    {
        let ghost pre_names = names@;
        match item_decl_name(&prog.items[i]) {
            Some(n) => {
                match lookup_name(&names, n.as_slice()) {
                    Some(_) => {
                        diags.push(
                            Diagnostic::of(
                                DiagCode::BindDuplicateDeclaration,
                                item_span(&prog.items[i]),
                            ),
                        );
                    },
                    None => {
                        names.push(clone_bytes(n));
                        picked.push(i);
                        proof {
                            assert forall|a: int|
                                0 <= a < i + 1 && item_name_view(
                                    #[trigger] prog.items@[a],
                                ) is Some implies name_in(
                                names@,
                                item_name_view(prog.items@[a])->0,
                            ) by {
                                if a < i {
                                    let k = choose|k: int|
                                        0 <= k < pre_names.len() && (#[trigger] pre_names[k])@
                                            == item_name_view(prog.items@[a])->0;
                                    assert(names@[k]@ == item_name_view(prog.items@[a])->0);
                                } else {
                                    assert(names@[names@.len() - 1]@ == item_name_view(
                                        prog.items@[a],
                                    )->0);
                                }
                            }
                        }
                    },
                }
            },
            None => {},
        }
        i += 1;
    }
    // pass 2: resolve the registered declarations in order
    let mut entries: Vec<DeclEntry> = Vec::new();
    let mut k: usize = 0;
    while k < picked.len()
        invariant
            k <= picked@.len(),
            names@.len() == picked@.len(),
            entries@.len() == k,
            forall|a: int, b: int|
                0 <= a < b < names@.len() ==> (#[trigger] names@[a])@ != (#[trigger] names@[b])@,
            forall|a: int| 0 <= a < picked@.len() ==> (#[trigger] picked@[a]) < prog.items@.len(),
            forall|a: int|
                0 <= a < k ==> (#[trigger] entries@[a]).name@ == (#[trigger] names@[a])@,
        decreases picked@.len() - k,
    {
        let it = &prog.items[picked[k]];
        let kind: DeclKind = match it {
            Item::DeclItem(d) => match d {
                Decl::Func { sig, .. } => {
                    let ps = params_of(&names, &sig.params, &mut diags);
                    let ret = match &sig.ret {
                        Some(te) => ty_of(&names, te, &mut diags),
                        None => Ty::Void,
                    };
                    DeclKind::FnK(ps, ret)
                },
                Decl::ConstDecl { .. } => DeclKind::ConstK,
                Decl::EnumDecl { variants, .. } => {
                    let mut vs: Vec<Vec<u8>> = Vec::new();
                    let mut v: usize = 0;
                    while v < variants.len()
                        decreases variants@.len() - v,
                    {
                        vs.push(clone_bytes(&variants[v]));
                        v += 1;
                    }
                    DeclKind::EnumK(vs)
                },
                Decl::StructDecl { fields, .. } => {
                    DeclKind::StructK(params_of(&names, fields, &mut diags))
                },
                Decl::IfaceDecl { methods, .. } => {
                    let mut ms: Vec<MethodSig> = Vec::new();
                    let mut m: usize = 0;
                    while m < methods.len()
                        decreases methods@.len() - m,
                    {
                        let sg = sig_of(&names, &methods[m], &mut diags);
                        ms.push(sg);
                        m += 1;
                    }
                    DeclKind::IfaceK(ms)
                },
            },
            Item::StmtItem(_) => DeclKind::ConstK,
        };
        let nm = clone_bytes(&names[k]);
        entries.push(DeclEntry { name: nm, kind });
        k += 1;
    }
    // pass 3: attach methods to their receiver declarations
    let mut methods: Vec<(usize, MethodSig)> = Vec::new();
    let mut j: usize = 0;
    while j < prog.items.len()
        invariant
            names@.len() == entries@.len(),
            forall|a: int, b: int|
                0 <= a < b < names@.len() ==> (#[trigger] names@[a])@ != (#[trigger] names@[b])@,
            forall|a: int|
                0 <= a < entries@.len() ==> (#[trigger] entries@[a]).name@ == (
                #[trigger] names@[a])@,
        decreases prog.items@.len() - j,
    {
        match &prog.items[j] {
            Item::DeclItem(Decl::Func { receiver: Some((_binder, tyname)), sig, .. }) => {
                match lookup_name(&names, tyname.as_slice()) {
                    Some(id) => {
                        let sg = sig_of(&names, sig, &mut diags);
                        methods.push((id, sg));
                    },
                    None => {
                        diags.push(Diagnostic::of(DiagCode::BindUnknownReceiverType, sig.span));
                    },
                }
            },
            _ => {},
        }
        j += 1;
    }
    proof {
        assert forall|a: int, b: int|
            0 <= a < b < entries@.len() implies (#[trigger] entries@[a]).name@ != (
        #[trigger] entries@[b]).name@ by {
            assert(entries@[a].name@ == names@[a]@);
            assert(entries@[b].name@ == names@[b]@);
        }
        assert forall|a: int|
            0 <= a < prog.items@.len() && item_name_view(#[trigger] prog.items@[a]) is Some
            implies name_registered(entries@, item_name_view(prog.items@[a])->0) by {
            let k = choose|k: int|
                0 <= k < names@.len() && (#[trigger] names@[k])@ == item_name_view(
                    prog.items@[a],
                )->0;
            assert(entries@[k].name@ == names@[k]@);
        }
    }
    BindOut { table: DeclTable { entries, methods }, diags }
}

/// The span a diagnostic about a whole item points at.
fn item_span(it: &Item) -> (r: Span) {
    match it {
        Item::DeclItem(d) => match d {
            Decl::Func { sig, .. } => sig.span,
            Decl::ConstDecl { span, .. } => *span,
            Decl::EnumDecl { span, .. } => *span,
            Decl::StructDecl { span, .. } => *span,
            Decl::IfaceDecl { span, .. } => *span,
        },
        Item::StmtItem(s) => stmt_span(s),
    }
}

fn stmt_span(s: &Stmt) -> (r: Span) {
    match s {
        Stmt::LetStmt { span, .. } => *span,
        Stmt::AssignStmt { span, .. } => *span,
        Stmt::IfStmt { span, .. } => *span,
        Stmt::WhileStmt { span, .. } => *span,
        Stmt::ForStmt { span, .. } => *span,
        Stmt::WhenStmt { span, .. } => *span,
        Stmt::ReturnStmt { span, .. } => *span,
        Stmt::ExprStmt { span, .. } => *span,
    }
}

} // verus!
