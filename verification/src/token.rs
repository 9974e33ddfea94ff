//! Tokens: the lexer's output vocabulary and its well-formedness.

use vstd::prelude::*;
use crate::diag::Span;

verus! {

#[derive(Clone, Copy, PartialEq, Eq, Structural, Debug)]
pub enum TokenKind {
    Ident,
    Number,
    StrLit,
    KwLet,
    KwConst,
    KwFn,
    KwType,
    KwEnum,
    KwStruct,
    KwInterface,
    KwIf,
    KwElse,
    KwWhile,
    KwFor,
    KwIn,
    KwWhen,
    KwReturn,
    KwComptime,
    KwCatch,
    KwWith,
    KwNull,
    ColonEq,
    ColonColon,
    QuestionColon,
    DotDot,
    Arrow,
    EqEq,
    NotEq,
    LtEq,
    GtEq,
    PlusEq,
    FatArrow,
    AndAnd,
    OrOr,
    Plus,
    Minus,
    Star,
    Slash,
    Lt,
    Gt,
    Assign,
    Question,
    Colon,
    Bang,
    Dot,
    Comma,
    Semi,
    Amp,
    LParen,
    RParen,
    LBrace,
    RBrace,
    LBracket,
    RBracket,
    Underscore,
    Eof,
}

#[derive(Debug)]
pub struct Token {
    pub kind: TokenKind,
    pub lexeme: Vec<u8>,
    pub span: Span,
}

pub open spec fn spec_is_digit(b: u8) -> bool {
    48u8 <= b && b <= 57u8
}

pub open spec fn spec_is_ident_start(b: u8) -> bool {
    (97u8 <= b && b <= 122u8) || (65u8 <= b && b <= 90u8) || b == 95u8
}

pub open spec fn spec_is_ident_char(b: u8) -> bool {
    spec_is_ident_start(b) || spec_is_digit(b)
}

pub fn is_digit(b: u8) -> (r: bool)
    ensures
        r == spec_is_digit(b),
{
    48u8 <= b && b <= 57u8
}

pub fn is_ident_start(b: u8) -> (r: bool)
    ensures
        r == spec_is_ident_start(b),
{
    (97u8 <= b && b <= 122u8) || (65u8 <= b && b <= 90u8) || b == 95u8
}

pub fn is_ident_char(b: u8) -> (r: bool)
    ensures
        r == spec_is_ident_char(b),
{
    is_ident_start(b) || is_digit(b)
}

/// The keyword table: which reserved word a scanned word is, if any.
#[verifier::opaque]
pub open spec fn spec_keyword_kind(s: Seq<u8>) -> Option<TokenKind> {
    if s.len() == 1 && s[0] == 95u8 {
        Some(TokenKind::Underscore)
    } else if s.len() == 2 && s[0] == 105u8 && s[1] == 102u8 {
        Some(TokenKind::KwIf)
    } else if s.len() == 2 && s[0] == 102u8 && s[1] == 110u8 {
        Some(TokenKind::KwFn)
    } else if s.len() == 2 && s[0] == 105u8 && s[1] == 110u8 {
        Some(TokenKind::KwIn)
    } else if s.len() == 3 && s[0] == 108u8 && s[1] == 101u8 && s[2] == 116u8 {
        Some(TokenKind::KwLet)
    } else if s.len() == 3 && s[0] == 102u8 && s[1] == 111u8 && s[2] == 114u8 {
        Some(TokenKind::KwFor)
    } else if s.len() == 4 && s[0] == 101u8 && s[1] == 108u8 && s[2] == 115u8 && s[3] == 101u8 {
        Some(TokenKind::KwElse)
    } else if s.len() == 4 && s[0] == 119u8 && s[1] == 104u8 && s[2] == 101u8 && s[3] == 110u8 {
        Some(TokenKind::KwWhen)
    } else if s.len() == 4 && s[0] == 116u8 && s[1] == 121u8 && s[2] == 112u8 && s[3] == 101u8 {
        Some(TokenKind::KwType)
    } else if s.len() == 4 && s[0] == 101u8 && s[1] == 110u8 && s[2] == 117u8 && s[3] == 109u8 {
        Some(TokenKind::KwEnum)
    } else if s.len() == 4 && s[0] == 119u8 && s[1] == 105u8 && s[2] == 116u8 && s[3] == 104u8 {
        Some(TokenKind::KwWith)
    } else if s.len() == 4 && s[0] == 110u8 && s[1] == 117u8 && s[2] == 108u8 && s[3] == 108u8 {
        Some(TokenKind::KwNull)
    } else if s.len() == 5 && s[0] == 99u8 && s[1] == 111u8 && s[2] == 110u8 && s[3] == 115u8
        && s[4] == 116u8 {
        Some(TokenKind::KwConst)
    } else if s.len() == 5 && s[0] == 119u8 && s[1] == 104u8 && s[2] == 105u8 && s[3] == 108u8
        && s[4] == 101u8 {
        Some(TokenKind::KwWhile)
    } else if s.len() == 5 && s[0] == 99u8 && s[1] == 97u8 && s[2] == 116u8 && s[3] == 99u8
        && s[4] == 104u8 {
        Some(TokenKind::KwCatch)
    } else if s.len() == 6 && s[0] == 114u8 && s[1] == 101u8 && s[2] == 116u8 && s[3] == 117u8
        && s[4] == 114u8 && s[5] == 110u8 {
        Some(TokenKind::KwReturn)
    } else if s.len() == 6 && s[0] == 115u8 && s[1] == 116u8 && s[2] == 114u8 && s[3] == 117u8
        && s[4] == 99u8 && s[5] == 116u8 {
        Some(TokenKind::KwStruct)
    } else if s.len() == 8 && s[0] == 99u8 && s[1] == 111u8 && s[2] == 109u8 && s[3] == 112u8
        && s[4] == 116u8 && s[5] == 105u8 && s[6] == 109u8 && s[7] == 101u8 {
        Some(TokenKind::KwComptime)
    } else if s.len() == 9 && s[0] == 105u8 && s[1] == 110u8 && s[2] == 116u8 && s[3] == 101u8
        && s[4] == 114u8 && s[5] == 102u8 && s[6] == 97u8 && s[7] == 99u8 && s[8] == 101u8 {
        Some(TokenKind::KwInterface)
    } else {
        None
    }
}

/// Executable mirror of the keyword table.
pub fn keyword_kind(lex: &[u8]) -> (r: Option<TokenKind>)
    ensures
        r == spec_keyword_kind(lex@),
        r is Some ==> is_keyword_kind(r->0),
{
    proof {
        reveal(spec_keyword_kind);
    }
    let n = lex.len();
    if n == 1 && lex[0] == 95u8 {
        Some(TokenKind::Underscore)
    } else if n == 2 && lex[0] == 105u8 && lex[1] == 102u8 {
        Some(TokenKind::KwIf)
    } else if n == 2 && lex[0] == 102u8 && lex[1] == 110u8 {
        Some(TokenKind::KwFn)
    } else if n == 2 && lex[0] == 105u8 && lex[1] == 110u8 {
        Some(TokenKind::KwIn)
    } else if n == 3 && lex[0] == 108u8 && lex[1] == 101u8 && lex[2] == 116u8 {
        Some(TokenKind::KwLet)
    } else if n == 3 && lex[0] == 102u8 && lex[1] == 111u8 && lex[2] == 114u8 {
        Some(TokenKind::KwFor)
    } else if n == 4 && lex[0] == 101u8 && lex[1] == 108u8 && lex[2] == 115u8 && lex[3] == 101u8 {
        Some(TokenKind::KwElse)
    } else if n == 4 && lex[0] == 119u8 && lex[1] == 104u8 && lex[2] == 101u8 && lex[3] == 110u8 {
        Some(TokenKind::KwWhen)
    } else if n == 4 && lex[0] == 116u8 && lex[1] == 121u8 && lex[2] == 112u8 && lex[3] == 101u8 {
        Some(TokenKind::KwType)
    } else if n == 4 && lex[0] == 101u8 && lex[1] == 110u8 && lex[2] == 117u8 && lex[3] == 109u8 {
        Some(TokenKind::KwEnum)
    } else if n == 4 && lex[0] == 119u8 && lex[1] == 105u8 && lex[2] == 116u8 && lex[3] == 104u8 {
        Some(TokenKind::KwWith)
    } else if n == 4 && lex[0] == 110u8 && lex[1] == 117u8 && lex[2] == 108u8 && lex[3] == 108u8 {
        Some(TokenKind::KwNull)
    } else if n == 5 && lex[0] == 99u8 && lex[1] == 111u8 && lex[2] == 110u8 && lex[3] == 115u8
        && lex[4] == 116u8 {
        Some(TokenKind::KwConst)
    } else if n == 5 && lex[0] == 119u8 && lex[1] == 104u8 && lex[2] == 105u8 && lex[3] == 108u8
        && lex[4] == 101u8 {
        Some(TokenKind::KwWhile)
    } else if n == 5 && lex[0] == 99u8 && lex[1] == 97u8 && lex[2] == 116u8 && lex[3] == 99u8
        && lex[4] == 104u8 {
        Some(TokenKind::KwCatch)
    } else if n == 6 && lex[0] == 114u8 && lex[1] == 101u8 && lex[2] == 116u8 && lex[3] == 117u8
        && lex[4] == 114u8 && lex[5] == 110u8 {
        Some(TokenKind::KwReturn)
    } else if n == 6 && lex[0] == 115u8 && lex[1] == 116u8 && lex[2] == 114u8 && lex[3] == 117u8
        && lex[4] == 99u8 && lex[5] == 116u8 {
        Some(TokenKind::KwStruct)
    } else if n == 8 && lex[0] == 99u8 && lex[1] == 111u8 && lex[2] == 109u8 && lex[3] == 112u8
        && lex[4] == 116u8 && lex[5] == 105u8 && lex[6] == 109u8 && lex[7] == 101u8 {
        Some(TokenKind::KwComptime)
    } else if n == 9 && lex[0] == 105u8 && lex[1] == 110u8 && lex[2] == 116u8 && lex[3] == 101u8
        && lex[4] == 114u8 && lex[5] == 102u8 && lex[6] == 97u8 && lex[7] == 99u8 && lex[8] == 101u8 {
        Some(TokenKind::KwInterface)
    } else {
        None
    }
}

pub open spec fn is_keyword_kind(k: TokenKind) -> bool {
    match k {
        TokenKind::KwLet | TokenKind::KwConst | TokenKind::KwFn | TokenKind::KwType
        | TokenKind::KwEnum | TokenKind::KwStruct | TokenKind::KwInterface | TokenKind::KwIf
        | TokenKind::KwElse | TokenKind::KwWhile | TokenKind::KwFor | TokenKind::KwIn
        | TokenKind::KwWhen | TokenKind::KwReturn | TokenKind::KwComptime | TokenKind::KwCatch
        | TokenKind::KwWith | TokenKind::KwNull | TokenKind::Underscore => true,
        _ => false,
    }
}

/// A word made only of identifier characters, starting like an identifier.
pub open spec fn ident_shaped(s: Seq<u8>) -> bool {
    &&& s.len() > 0
    &&& spec_is_ident_start(s[0])
    &&& forall|i: int| 0 <= i < s.len() ==> spec_is_ident_char(#[trigger] s[i])
}

/// Digits, possibly around a decimal point, starting and ending in a digit.
pub open spec fn number_shaped(s: Seq<u8>) -> bool {
    &&& s.len() > 0
    &&& spec_is_digit(s[0])
    &&& spec_is_digit(s[s.len() - 1])
    &&& forall|i: int| 0 <= i < s.len() ==> (spec_is_digit(#[trigger] s[i]) || s[i] == 46u8)
}

/// What the lexer guarantees of each token it produces from `src`:
/// the span lies inside the source; every token but string literals (whose
/// lexeme has escapes resolved and quotes dropped) and end-of-input carries
/// the exact source bytes of its span; word-like kinds agree with the
/// keyword table.
#[verifier::opaque]
pub open spec fn token_wf(t: Token, src: Seq<u8>) -> bool {
    &&& t.span.lo <= t.span.hi <= src.len()
    &&& (t.kind != TokenKind::StrLit && t.kind != TokenKind::Eof ==> t.lexeme@ == src.subrange(
        t.span.lo as int,
        t.span.hi as int,
    ))
    &&& (t.kind == TokenKind::Ident ==> ident_shaped(t.lexeme@) && spec_keyword_kind(t.lexeme@)
        is None)
    &&& (t.kind == TokenKind::Number ==> number_shaped(t.lexeme@))
    &&& (is_keyword_kind(t.kind) ==> spec_keyword_kind(t.lexeme@) == Some(t.kind))
    &&& (t.kind == TokenKind::Eof ==> t.lexeme@.len() == 0 && t.span.lo == src.len())
}

} // verus!

verus! {

/// Kinds that stand for operators or punctuation.
pub open spec fn op_kind(k: TokenKind) -> bool {
    match k {
        TokenKind::ColonEq | TokenKind::ColonColon | TokenKind::QuestionColon | TokenKind::DotDot
        | TokenKind::Arrow | TokenKind::EqEq | TokenKind::NotEq | TokenKind::LtEq
        | TokenKind::GtEq | TokenKind::PlusEq | TokenKind::FatArrow | TokenKind::AndAnd | TokenKind::OrOr
        | TokenKind::Plus | TokenKind::Minus | TokenKind::Star | TokenKind::Slash
        | TokenKind::Lt | TokenKind::Gt | TokenKind::Assign | TokenKind::Question
        | TokenKind::Colon | TokenKind::Bang | TokenKind::Dot | TokenKind::Comma
        | TokenKind::Semi | TokenKind::Amp | TokenKind::LParen | TokenKind::RParen
        | TokenKind::LBrace | TokenKind::RBrace | TokenKind::LBracket | TokenKind::RBracket
        => true,
        _ => false,
    }
}

} // verus!
