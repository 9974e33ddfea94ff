//! Diagnostics: source spans, severities and the codes every phase of the
//! front end reports through.

use vstd::prelude::*;

verus! {

/// A region of source text: byte offsets plus the 1-based line and column
/// of its first byte.
#[derive(Clone, Copy, PartialEq, Eq, Structural, Debug)]
pub struct Span {
    pub lo: usize,
    pub hi: usize,
    pub line: usize,
    pub col: usize,
}

impl Span {
    pub fn new(lo: usize, hi: usize, line: usize, col: usize) -> (r: Span)
        ensures
            r.lo == lo && r.hi == hi && r.line == line && r.col == col,
    {
        Span { lo, hi, line, col }
    }
}

#[derive(Clone, Copy, PartialEq, Eq, Structural, Debug)]
pub enum Severity {
    Error,
    Warning,
}

/// Every diagnostic the front end can raise, by phase.
#[derive(Clone, Copy, PartialEq, Eq, Structural, Debug)]
pub enum DiagCode {
    LexUnterminatedString,
    LexInvalidCharacter,
    LexInvalidNumber,
    ParseUnexpectedToken,
    ParseArityMismatch,
    ParseDepthExceeded,
    BindDuplicateDeclaration,
    BindUnknownReceiverType,
    TypeMismatch,
    TypeUnknownName,
    TypeUnknownField,
    TypeCallArityMismatch,
    TypeNotCallable,
    TypeNotComptimeEvaluable,
    TypeInterfaceUnsatisfied,
    TypeNarrowingRequired,
    TypeInvalidNullComparison,
    TypeResultShapeMismatch,
    TypeStructLiteralMismatch,
    TypeBadArraySize,
    WarnComptimeRedundant,
}

/// The severity a code is always reported at: only the redundant-comptime
/// lint is a warning, everything else blocks lowering.
pub open spec fn spec_severity_of(code: DiagCode) -> Severity {
    if code is WarnComptimeRedundant {
        Severity::Warning
    } else {
        Severity::Error
    }
}

pub fn severity_of(code: DiagCode) -> (r: Severity)
    ensures
        r == spec_severity_of(code),
{
    match code {
        DiagCode::WarnComptimeRedundant => Severity::Warning,
        _ => Severity::Error,
    }
}

#[derive(Clone, Copy, PartialEq, Eq, Structural, Debug)]
pub struct Diagnostic {
    pub severity: Severity,
    pub code: DiagCode,
    pub span: Span,
}

impl Diagnostic {
    /// Builds a diagnostic whose severity follows its code.
    pub fn of(code: DiagCode, span: Span) -> (r: Diagnostic)
        ensures
            r.code == code,
            r.span == span,
            r.severity == spec_severity_of(code),
    {
        Diagnostic { severity: severity_of(code), code, span }
    }

    /// A human-readable rendering of the code.
    pub fn message(&self) -> &'static str {
        match self.code {
            DiagCode::LexUnterminatedString => "unterminated string literal",
            DiagCode::LexInvalidCharacter => "invalid character",
            DiagCode::LexInvalidNumber => "malformed numeric literal",
            DiagCode::ParseUnexpectedToken => "unexpected token",
            DiagCode::ParseArityMismatch => "multiple assignment arity mismatch",
            DiagCode::ParseDepthExceeded => "expression nesting too deep",
            DiagCode::BindDuplicateDeclaration => "duplicate top-level declaration",
            DiagCode::BindUnknownReceiverType => "method receiver names an undeclared type",
            DiagCode::TypeMismatch => "type mismatch",
            DiagCode::TypeUnknownName => "unknown name",
            DiagCode::TypeUnknownField => "unknown field",
            DiagCode::TypeCallArityMismatch => "wrong number of call arguments",
            DiagCode::TypeNotCallable => "callee is not a function",
            DiagCode::TypeNotComptimeEvaluable => "expression is not evaluable at compile time",
            DiagCode::TypeInterfaceUnsatisfied => "type does not satisfy the interface",
            DiagCode::TypeNarrowingRequired => "optional value used without a null check",
            DiagCode::TypeInvalidNullComparison => "null comparison on a non-optional value",
            DiagCode::TypeResultShapeMismatch => "return does not match the declared result shape",
            DiagCode::TypeStructLiteralMismatch => "struct literal fields do not match the declaration",
            DiagCode::TypeBadArraySize => "fixed array size is not a plain count",
            DiagCode::WarnComptimeRedundant => "comptime marker on a literal is redundant",
        }
    }
}

/// No error-severity diagnostic is present: the outcome may be handed to
/// code generation.
pub open spec fn spec_lowering_ready(diags: Seq<Diagnostic>) -> bool {
    forall|i: int| 0 <= i < diags.len() ==> (#[trigger] diags[i]).severity != Severity::Error
}

/// One error-severity diagnostic anywhere in the list blocks lowering.
pub proof fn lemma_error_blocks_lowering(diags: Seq<Diagnostic>, i: int)
    requires
        0 <= i < diags.len(),
        diags[i].severity == Severity::Error,
    ensures
        !spec_lowering_ready(diags),
{
}

/// Decides whether a diagnostic list blocks code generation: true iff no
/// diagnostic in it has error severity.
pub fn ready_for_lowering(diags: &Vec<Diagnostic>) -> (r: bool)
    ensures
        r == spec_lowering_ready(diags@),
{
    let mut i: usize = 0;
    while i < diags.len()
        invariant
            i <= diags@.len(),
            forall|j: int| 0 <= j < i ==> (#[trigger] diags@[j]).severity != Severity::Error,
        decreases diags@.len() - i,
    {
        if diags[i].severity == Severity::Error {
            return false;
        }
        i += 1;
    }
    true
}

} // verus!
