//! Semantic types of the language and their comparisons: structural
//! equality everywhere except named types, which compare by declaration
//! identity, and structural interface conformance.

use vstd::prelude::*;

verus! {

/// A resolved type. `Named` carries the index of the declaration that
/// introduced the type, so named types compare by declaration identity.
/// `Unknown` is the recovery type a failed node keeps so checking can
/// continue.
pub enum Ty {
    I32,
    F32,
    Str,
    Bool,
    Void,
    Unknown,
    FixedArr(Box<Ty>, u64),
    DynArr(Box<Ty>),
    Opt(Box<Ty>),
    ResOf(Box<Ty>, Box<Ty>),
    Named(usize),
}

impl Ty {
    /// Structural equality; named types compare by declaration index.
    pub fn ty_eq(&self, other: &Ty) -> (r: bool)
        ensures
            r == (self == other),
        decreases self,
    {
        match (self, other) {
            (Ty::I32, Ty::I32) => true,
            (Ty::F32, Ty::F32) => true,
            (Ty::Str, Ty::Str) => true,
            (Ty::Bool, Ty::Bool) => true,
            (Ty::Void, Ty::Void) => true,
            (Ty::Unknown, Ty::Unknown) => true,
            (Ty::FixedArr(e1, n1), Ty::FixedArr(e2, n2)) => *n1 == *n2 && e1.ty_eq(e2),
            (Ty::DynArr(e1), Ty::DynArr(e2)) => e1.ty_eq(e2),
            (Ty::Opt(e1), Ty::Opt(e2)) => e1.ty_eq(e2),
            (Ty::ResOf(o1, r1), Ty::ResOf(o2, r2)) => o1.ty_eq(o2) && r1.ty_eq(r2),
            (Ty::Named(i1), Ty::Named(i2)) => *i1 == *i2,
            _ => false,
        }
    }

    /// A structural copy equal to the original.
    pub fn dup(&self) -> (r: Ty)
        ensures
            r == *self,
        decreases self,
    {
        match self {
            Ty::I32 => Ty::I32,
            Ty::F32 => Ty::F32,
            Ty::Str => Ty::Str,
            Ty::Bool => Ty::Bool,
            Ty::Void => Ty::Void,
            Ty::Unknown => Ty::Unknown,
            Ty::FixedArr(e, n) => Ty::FixedArr(Box::new(e.dup()), *n),
            Ty::DynArr(e) => Ty::DynArr(Box::new(e.dup())),
            Ty::Opt(e) => Ty::Opt(Box::new(e.dup())),
            Ty::ResOf(o, r) => Ty::ResOf(Box::new(o.dup()), Box::new(r.dup())),
            Ty::Named(i) => Ty::Named(*i),
        }
    }
}

/// Byte-string equality.
pub fn bytes_eq(a: &[u8], b: &[u8]) -> (r: bool)
    ensures
        r == (a@ == b@),
{
    if a.len() != b.len() {
        assert(a@ != b@);
        return false;
    }
    let mut i: usize = 0;
    while i < a.len()
        invariant
            i <= a@.len(),
            a@.len() == b@.len(),
            forall|j: int| 0 <= j < i ==> a@[j] == b@[j],
        decreases a@.len() - i,
    {
        if a[i] != b[i] {
            assert(a@ != b@);
            return false;
        }
        i += 1;
    }
    proof {
        assert(a@ =~= b@);
    }
    true
}

/// A method signature: name, parameter types (receiver excluded) and
/// return type.
pub struct MethodSig {
    pub name: Vec<u8>,
    pub params: Vec<Ty>,
    pub ret: Ty,
}

/// Two signatures match exactly: same name, same parameter types in the
/// same order, same return type.
pub open spec fn sig_matches(a: MethodSig, b: MethodSig) -> bool {
    &&& a.name@ == b.name@
    &&& a.params@ == b.params@
    &&& a.ret == b.ret
}

/// Decides exact signature match.
pub fn sig_eq(a: &MethodSig, b: &MethodSig) -> (r: bool)
    ensures
        r == sig_matches(*a, *b),
{
    if !bytes_eq(a.name.as_slice(), b.name.as_slice()) {
        return false;
    }
    if a.params.len() != b.params.len() {
        assert(a.params@ != b.params@);
        return false;
    }
    let mut i: usize = 0;
    while i < a.params.len()
        invariant
            i <= a.params@.len(),
            a.params@.len() == b.params@.len(),
            forall|j: int| 0 <= j < i ==> a.params@[j] == b.params@[j],
        decreases a.params@.len() - i,
    {
        if !a.params[i].ty_eq(&b.params[i]) {
            assert(a.params@ != b.params@);
            return false;
        }
        i += 1;
    }
    proof {
        assert(a.params@ =~= b.params@);
    }
    a.ret.ty_eq(&b.ret)
}

/// Some method in the global `(receiver declaration, signature)` list has
/// receiver `ty_id` and exactly matches `want`.
pub open spec fn has_match(want: MethodSig, methods: Seq<(usize, MethodSig)>, ty_id: usize) -> bool {
    exists|k: int|
        0 <= k < methods.len() && (#[trigger] methods[k]).0 == ty_id && sig_matches(
            methods[k].1,
            want,
        )
}

/// The method set attached to the declaration with index `ty_id`, inside
/// the global list of `(receiver declaration, signature)` pairs, satisfies
/// the interface: every interface method has an exactly matching method
/// with that receiver.
pub open spec fn spec_satisfies(
    iface: Seq<MethodSig>,
    methods: Seq<(usize, MethodSig)>,
    ty_id: usize,
) -> bool {
    forall|j: int| 0 <= j < iface.len() ==> has_match(#[trigger] iface[j], methods, ty_id)
}

/// Structural interface conformance: true iff every method signature of
/// the interface has an exact match among the methods whose receiver is
/// the declaration `ty_id`.
pub fn satisfies(iface: &Vec<MethodSig>, methods: &Vec<(usize, MethodSig)>, ty_id: usize) -> (r:
    bool)
    ensures
        r == spec_satisfies(iface@, methods@, ty_id),
{
    let mut j: usize = 0;
    while j < iface.len()
        invariant
            j <= iface@.len(),
            forall|jj: int| 0 <= jj < j ==> has_match(#[trigger] iface@[jj], methods@, ty_id),
        decreases iface@.len() - j,
    {
        let mut k: usize = 0;
        let mut found = false;
        while k < methods.len()
            invariant
                k <= methods@.len(),
                j < iface@.len(),
                found ==> has_match(iface@[j as int], methods@, ty_id),
                !found ==> forall|kk: int|
                    0 <= kk < k ==> !((#[trigger] methods@[kk]).0 == ty_id && sig_matches(
                        methods@[kk].1,
                        iface@[j as int],
                    )),
            decreases methods@.len() - k,
        {
            if !found && methods[k].0 == ty_id && sig_eq(&methods[k].1, &iface[j]) {
                found = true;
                proof {
                    assert(has_match(iface@[j as int], methods@, ty_id));
                }
            }
            k += 1;
        }
        if !found {
            proof {
                assert(!has_match(iface@[j as int], methods@, ty_id));
            }
            return false;
        }
        j += 1;
    }
    true
}

/// An interface method that no method of the receiver matches makes
/// conformance fail, whatever else the type defines.
pub proof fn lemma_missing_method_breaks_conformance(
    iface: Seq<MethodSig>,
    methods: Seq<(usize, MethodSig)>,
    ty_id: usize,
    j: int,
)
    requires
        0 <= j < iface.len(),
        forall|k: int|
            0 <= k < methods.len() ==> !((#[trigger] methods[k]).0 == ty_id && sig_matches(
                methods[k].1,
                iface[j],
            )),
    ensures
        !spec_satisfies(iface, methods, ty_id),
{
    assert(!has_match(iface[j], methods, ty_id));
}

} // verus!
