//! The lexer: turns source bytes into a token list, collecting diagnostics
//! and continuing past errors.

use vstd::prelude::*;
use crate::diag::{DiagCode, Diagnostic, Span};
use crate::token::{
    Token, TokenKind, token_wf, op_kind, ident_shaped, number_shaped, spec_is_digit,
    spec_is_ident_char, spec_is_ident_start, is_digit, is_ident_char, is_ident_start,
    keyword_kind,
};

verus! {

pub struct LexOut {
    pub tokens: Vec<Token>,
    pub diags: Vec<Diagnostic>,
}

/// Every produced token is well formed, none is end-of-input, and
/// consecutive tokens sit on disjoint spans in source order.
pub open spec fn lex_prefix_wf(ts: Seq<Token>, src: Seq<u8>) -> bool {
    &&& forall|i: int| 0 <= i < ts.len() ==> token_wf(#[trigger] ts[i], src)
    &&& forall|i: int| 0 <= i < ts.len() ==> (#[trigger] ts[i]).kind != TokenKind::Eof
    &&& forall|i: int, j: int|
        #![trigger ts[i], ts[j]]
        0 <= i && i + 1 == j && j < ts.len() ==> ts[i].span.hi <= ts[j].span.lo
}

/// What `tokenize` guarantees of its whole output.
pub open spec fn lexed_wf(ts: Seq<Token>, src: Seq<u8>) -> bool {
    &&& ts.len() >= 1
    &&& ts[ts.len() - 1].kind == TokenKind::Eof
    &&& forall|i: int| 0 <= i < ts.len() ==> token_wf(#[trigger] ts[i], src)
    &&& forall|i: int| 0 <= i < ts.len() - 1 ==> (#[trigger] ts[i]).kind != TokenKind::Eof
    &&& forall|i: int, j: int|
        #![trigger ts[i], ts[j]]
        0 <= i && i + 1 == j && j < ts.len() ==> ts[i].span.hi <= ts[j].span.lo
}

/// Whitespace in the lexical sense.
pub open spec fn spec_is_ws(b: u8) -> bool {
    b == 32u8 || b == 9u8 || b == 13u8 || b == 10u8
}

/// The byte at `b` sits in a line comment: a `//` opens at or before it
/// with no line break in between.
pub open spec fn spec_comment_byte(src: Seq<u8>, b: int) -> bool {
    exists|k: int|
        0 <= k <= b && k + 1 < src.len() && #[trigger] src[k] == 47u8 && src[k + 1] == 47u8 && (
        forall|m: int| k + 1 < m <= b ==> src[m] != 10u8)
}

pub open spec fn in_token_span(ts: Seq<Token>, b: int) -> bool {
    exists|i: int| 0 <= i < ts.len() && (#[trigger] ts[i]).span.lo <= b < ts[i].span.hi
}

pub open spec fn in_diag_span(ds: Seq<Diagnostic>, b: int) -> bool {
    exists|i: int| 0 <= i < ds.len() && (#[trigger] ds[i]).span.lo <= b < ds[i].span.hi
}

/// Lexical completeness for one byte: it is whitespace, sits in a
/// comment, lies in a produced token's span, or lies in a reported
/// diagnostic's span. Nothing is dropped silently.
pub open spec fn byte_accounted(src: Seq<u8>, b: int, ts: Seq<Token>, ds: Seq<Diagnostic>) -> bool {
    ||| spec_is_ws(src[b])
    ||| spec_comment_byte(src, b)
    ||| in_token_span(ts, b)
    ||| in_diag_span(ds, b)
}

/// Accounting survives appending tokens or diagnostics.
pub proof fn lemma_accounted_extend(
    src: Seq<u8>,
    bound: int,
    ts1: Seq<Token>,
    ts2: Seq<Token>,
    ds1: Seq<Diagnostic>,
    ds2: Seq<Diagnostic>,
)
    requires
        forall|b: int| 0 <= b < bound ==> byte_accounted(src, b, ts1, ds1),
        ts1.len() <= ts2.len(),
        forall|i: int| 0 <= i < ts1.len() ==> ts2[i] == ts1[i],
        ds1.len() <= ds2.len(),
        forall|i: int| 0 <= i < ds1.len() ==> ds2[i] == ds1[i],
    ensures
        forall|b: int| 0 <= b < bound ==> byte_accounted(src, b, ts2, ds2),
{
    assert forall|b: int| 0 <= b < bound implies byte_accounted(src, b, ts2, ds2) by {
        assert(byte_accounted(src, b, ts1, ds1));
        if in_token_span(ts1, b) {
            let i = choose|i: int|
                0 <= i < ts1.len() && (#[trigger] ts1[i]).span.lo <= b < ts1[i].span.hi;
            assert(ts2[i].span.lo <= b < ts2[i].span.hi);
            assert(in_token_span(ts2, b));
        } else if in_diag_span(ds1, b) {
            let i = choose|i: int|
                0 <= i < ds1.len() && (#[trigger] ds1[i]).span.lo <= b < ds1[i].span.hi;
            assert(ds2[i].span.lo <= b < ds2[i].span.hi);
            assert(in_diag_span(ds2, b));
        }
    }
}

/// Copies `src[lo..hi]` into a fresh vector.
fn copy_range(src: &[u8], lo: usize, hi: usize) -> (v: Vec<u8>)
    requires
        lo <= hi <= src@.len(),
    ensures
        v@ == src@.subrange(lo as int, hi as int),
{
    let mut v: Vec<u8> = Vec::new();
    let mut i: usize = lo;
    while i < hi
        invariant
            lo <= i <= hi <= src@.len(),
            v@ == src@.subrange(lo as int, i as int),
        decreases hi - i,
    {
        v.push(src[i]);
        proof {
            assert(v@ =~= src@.subrange(lo as int, i + 1 as int));
        }
        i += 1;
    }
    v
}

/// Scans the identifier-shaped word starting at `start`.
fn scan_word(src: &[u8], start: usize) -> (end: usize)
    requires
        start < src@.len() < usize::MAX,
        spec_is_ident_start(src@[start as int]),
    ensures
        start < end <= src@.len(),
        forall|i: int| start <= i < end ==> spec_is_ident_char(#[trigger] src@[i]),
        end < src@.len() ==> !spec_is_ident_char(src@[end as int]),
{
    let mut end = start + 1;
    while end < src.len()
        invariant
            start < end <= src@.len(),
            forall|i: int| start <= i < end ==> spec_is_ident_char(#[trigger] src@[i]),
        decreases src@.len() - end,
    {
        if !is_ident_char(src[end]) {
            return end;
        }
        end += 1;
    }
    end
}

/// Scans the run of digits starting at `start`.
fn scan_digits(src: &[u8], start: usize) -> (end: usize)
    requires
        start < src@.len() < usize::MAX,
        spec_is_digit(src@[start as int]),
    ensures
        start < end <= src@.len(),
        forall|i: int| start <= i < end ==> spec_is_digit(#[trigger] src@[i]),
        end < src@.len() ==> !spec_is_digit(src@[end as int]),
{
    let mut end = start + 1;
    while end < src.len()
        invariant
            start < end <= src@.len(),
            forall|i: int| start <= i < end ==> spec_is_digit(#[trigger] src@[i]),
        decreases src@.len() - end,
    {
        if !is_digit(src[end]) {
            return end;
        }
        end += 1;
    }
    end
}

/// Scans a string literal from its opening quote; yields the position after
/// the closing quote and the content with escapes resolved, or the position
/// where the literal broke off and nothing.
fn scan_string(src: &[u8], start: usize) -> (r: (usize, Option<Vec<u8>>))
    requires
        start < src@.len() < usize::MAX,
    ensures
        start < r.0 <= src@.len(),
{
    let mut i = start + 1;
    let mut content: Vec<u8> = Vec::new();
    while i < src.len()
        invariant
            start < i <= src@.len(),
        decreases src@.len() - i,
    {
        let b = src[i];
        if b == 34u8 {
            return (i + 1, Some(content));
        } else if b == 10u8 {
            return (i, None);
        } else if b == 92u8 && i + 1 < src.len() {
            let e = src[i + 1];
            if e == 110u8 {
                content.push(10u8);
            } else if e == 116u8 {
                content.push(9u8);
            } else {
                content.push(e);
            }
            i += 2;
        } else {
            content.push(b);
            i += 1;
        }
    }
    (src.len(), None)
}

/// Builds the token for a scanned word: a keyword or an identifier.
fn make_word_token(src: &[u8], lo: usize, hi: usize, line: usize, col: usize) -> (t: Token)
    requires
        lo < hi <= src@.len(),
        spec_is_ident_start(src@[lo as int]),
        forall|i: int| lo <= i < hi ==> spec_is_ident_char(#[trigger] src@[i]),
    ensures
        token_wf(t, src@),
        t.kind != TokenKind::Eof,
        t.span.lo == lo && t.span.hi == hi,
{
    let lexeme = copy_range(src, lo, hi);
    proof {
        assert(lexeme@[0] == src@[lo as int]);
        assert(ident_shaped(lexeme@));
    }
    let kind = match keyword_kind(lexeme.as_slice()) {
        Some(k) => k,
        None => TokenKind::Ident,
    };
    let t = Token { kind, lexeme, span: Span::new(lo, hi, line, col) };
    proof {
        reveal(token_wf);
    }
    t
}

/// Builds a numeric-literal token.
fn make_number_token(src: &[u8], lo: usize, hi: usize, line: usize, col: usize) -> (t: Token)
    requires
        lo < hi <= src@.len(),
        spec_is_digit(src@[lo as int]),
        spec_is_digit(src@[hi - 1]),
        forall|i: int| lo <= i < hi ==> spec_is_digit(#[trigger] src@[i]) || src@[i] == 46u8,
    ensures
        token_wf(t, src@),
        t.kind != TokenKind::Eof,
        t.span.lo == lo && t.span.hi == hi,
{
    let lexeme = copy_range(src, lo, hi);
    proof {
        assert(lexeme@[0] == src@[lo as int]);
        assert(lexeme@[lexeme@.len() - 1] == src@[hi - 1]);
        assert(number_shaped(lexeme@));
        reveal(token_wf);
    }
    Token { kind: TokenKind::Number, lexeme, span: Span::new(lo, hi, line, col) }
}

/// Builds an operator or punctuation token.
fn make_op_token(src: &[u8], kind: TokenKind, lo: usize, hi: usize, line: usize, col: usize) -> (t:
    Token)
    requires
        lo <= hi <= src@.len(),
        op_kind(kind),
    ensures
        token_wf(t, src@),
        t.kind != TokenKind::Eof,
        t.span.lo == lo && t.span.hi == hi,
{
    let lexeme = copy_range(src, lo, hi);
    let t = Token { kind, lexeme, span: Span::new(lo, hi, line, col) };
    proof {
        reveal(token_wf);
    }
    t
}

/// Builds a string-literal token from its resolved content.
fn make_str_token(
    content: Vec<u8>,
    lo: usize,
    hi: usize,
    line: usize,
    col: usize,
    Ghost(src): Ghost<Seq<u8>>,
) -> (t: Token)
    requires
        lo <= hi <= src.len(),
    ensures
        token_wf(t, src),
        t.kind != TokenKind::Eof,
        t.span.lo == lo && t.span.hi == hi,
{
    let t = Token { kind: TokenKind::StrLit, lexeme: content, span: Span::new(lo, hi, line, col) };
    proof {
        reveal(token_wf);
    }
    t
}

/// Appends a token, keeping the running well-formedness of the list.
proof fn lemma_prefix_push(ts: Seq<Token>, t: Token, src: Seq<u8>)
    requires
        lex_prefix_wf(ts, src),
        token_wf(t, src),
        t.kind != TokenKind::Eof,
        ts.len() > 0 ==> ts.last().span.hi <= t.span.lo,
    ensures
        lex_prefix_wf(ts.push(t), src),
{
    let ps = ts.push(t);
    let n = ps.len();
    assert forall|i: int| 0 <= i < n implies token_wf(#[trigger] ps[i], src) by {
        if i < n - 1 {
            assert(token_wf(ts[i], src));
        }
    }
    assert forall|i: int| 0 <= i < n implies (#[trigger] ps[i]).kind != TokenKind::Eof by {
        if i < n - 1 {
            assert(ts[i].kind != TokenKind::Eof);
        }
    }
    assert forall|i: int, j: int| #![trigger ps[i], ps[j]] 0 <= i && i + 1 == j && j < n
        implies ps[i].span.hi <= ps[j].span.lo by {
        if j < n - 1 {
            assert(ts[i].span.hi <= ts[j].span.lo);
        } else {
            assert(ps[i] == ts.last());
        }
    }
}

/// Appends a token, keeping the running well-formedness of the list.
fn push_token(tokens: &mut Vec<Token>, t: Token, Ghost(src): Ghost<Seq<u8>>)
    requires
        lex_prefix_wf(old(tokens)@, src),
        token_wf(t, src),
        t.kind != TokenKind::Eof,
        old(tokens)@.len() > 0 ==> old(tokens)@.last().span.hi <= t.span.lo,
    ensures
        final(tokens)@ == old(tokens)@.push(t),
        lex_prefix_wf(final(tokens)@, src),
        final(tokens)@.last() == t,
{
    proof {
        lemma_prefix_push(tokens@, t, src);
    }
    tokens.push(t);
}

/// The two-character operators.
fn two_char_op(b: u8, nb: u8) -> (r: Option<TokenKind>)
    ensures
        r is Some ==> op_kind(r->0),
{
    if b == 58u8 && nb == 61u8 {
        Some(TokenKind::ColonEq)
    } else if b == 58u8 && nb == 58u8 {
        Some(TokenKind::ColonColon)
    } else if b == 63u8 && nb == 58u8 {
        Some(TokenKind::QuestionColon)
    } else if b == 46u8 && nb == 46u8 {
        Some(TokenKind::DotDot)
    } else if b == 45u8 && nb == 62u8 {
        Some(TokenKind::Arrow)
    } else if b == 61u8 && nb == 61u8 {
        Some(TokenKind::EqEq)
    } else if b == 61u8 && nb == 62u8 {
        Some(TokenKind::FatArrow)
    } else if b == 33u8 && nb == 61u8 {
        Some(TokenKind::NotEq)
    } else if b == 60u8 && nb == 61u8 {
        Some(TokenKind::LtEq)
    } else if b == 62u8 && nb == 61u8 {
        Some(TokenKind::GtEq)
    } else if b == 43u8 && nb == 61u8 {
        Some(TokenKind::PlusEq)
    } else if b == 38u8 && nb == 38u8 {
        Some(TokenKind::AndAnd)
    } else if b == 124u8 && nb == 124u8 {
        Some(TokenKind::OrOr)
    } else {
        None
    }
}

/// The one-character operators and punctuation.
fn one_char_op(b: u8) -> (r: Option<TokenKind>)
    ensures
        r is Some ==> op_kind(r->0),
{
    if b == 58u8 {
        Some(TokenKind::Colon)
    } else if b == 63u8 {
        Some(TokenKind::Question)
    } else if b == 46u8 {
        Some(TokenKind::Dot)
    } else if b == 45u8 {
        Some(TokenKind::Minus)
    } else if b == 61u8 {
        Some(TokenKind::Assign)
    } else if b == 33u8 {
        Some(TokenKind::Bang)
    } else if b == 60u8 {
        Some(TokenKind::Lt)
    } else if b == 62u8 {
        Some(TokenKind::Gt)
    } else if b == 43u8 {
        Some(TokenKind::Plus)
    } else if b == 42u8 {
        Some(TokenKind::Star)
    } else if b == 47u8 {
        Some(TokenKind::Slash)
    } else if b == 38u8 {
        Some(TokenKind::Amp)
    } else if b == 40u8 {
        Some(TokenKind::LParen)
    } else if b == 41u8 {
        Some(TokenKind::RParen)
    } else if b == 123u8 {
        Some(TokenKind::LBrace)
    } else if b == 125u8 {
        Some(TokenKind::RBrace)
    } else if b == 91u8 {
        Some(TokenKind::LBracket)
    } else if b == 93u8 {
        Some(TokenKind::RBracket)
    } else if b == 44u8 {
        Some(TokenKind::Comma)
    } else if b == 59u8 {
        Some(TokenKind::Semi)
    } else {
        None
    }
}

/// Lexical analysis: turns source bytes into tokens ending in a single
/// end-of-input token, skipping whitespace and `//` comments, and collecting
/// a diagnostic for every unterminated string, malformed number and invalid
/// character while continuing to scan.
#[verifier::rlimit(100)]
pub fn tokenize(src: &[u8]) -> (r: LexOut)
    requires
        src@.len() < usize::MAX,
    ensures
        lexed_wf(r.tokens@, src@),
        forall|b: int| 0 <= b < src@.len() ==> byte_accounted(src@, b, r.tokens@, r.diags@),
{
    let mut tokens: Vec<Token> = Vec::new();
    let mut diags: Vec<Diagnostic> = Vec::new();
    let mut pos: usize = 0;
    let mut line: usize = 1;
    let mut col: usize = 1;
    let len = src.len();
    while pos < len
        invariant
            pos <= len,
            len == src@.len() < usize::MAX,
            1 <= line <= pos + 1,
            1 <= col <= pos + 1,
            lex_prefix_wf(tokens@, src@),
            tokens@.len() > 0 ==> tokens@.last().span.hi <= pos,
            forall|b: int| 0 <= b < pos ==> byte_accounted(src@, b, tokens@, diags@),
        decreases len - pos,
    {
        let b = src[pos];
        let ghost pre_toks = tokens@;
        let ghost pre_diags = diags@;
        if b == 32u8 || b == 9u8 || b == 13u8 {
            pos += 1;
            col += 1;
        } else if b == 10u8 {
            pos += 1;
            line += 1;
            col = 1;
        } else if b == 47u8 && pos + 1 < len && src[pos + 1] == 47u8 {
            // comment: skip to end of line
            let mut i = pos + 2;
            while i < len
                invariant
                    pos + 2 <= i <= len,
                    len == src@.len(),
                    forall|m: int| pos + 2 <= m < i ==> src@[m] != 10u8,
                decreases len - i,
            {
                if src[i] == 10u8 {
                    break;
                }
                i += 1;
            }
            proof {
                assert forall|c: int| pos <= c < i implies byte_accounted(
                    src@,
                    c,
                    tokens@,
                    diags@,
                ) by {
                    assert(src@[pos as int] == 47u8 && src@[pos as int + 1] == 47u8);
                    assert(forall|m: int| pos + 1 < m <= c ==> src@[m] != 10u8);
                    assert(spec_comment_byte(src@, c));
                }
            }
            col = 1;
            pos = i;
        } else if is_ident_start(b) {
            let end = scan_word(src, pos);
            let t = make_word_token(src, pos, end, line, col);
            push_token(&mut tokens, t, Ghost(src@));
            proof {
                lemma_accounted_extend(src@, pos as int, pre_toks, tokens@, pre_diags, diags@);
                assert forall|c: int| pos <= c < end implies in_token_span(tokens@, c) by {
                    let last = tokens@.len() - 1;
                    assert(tokens@[last].span.lo <= c < tokens@[last].span.hi);
                }
            }
            col += end - pos;
            pos = end;
        } else if is_digit(b) {
            let d_end = scan_digits(src, pos);
            let end: usize = if d_end < len && src[d_end] == 46u8 && d_end + 1 < len && is_digit(
                src[d_end + 1],
            ) {
                scan_digits(src, d_end + 1)
            } else {
                d_end
            };
            if end < len && is_ident_char(src[end]) && !is_digit(src[end]) {
                // a word glued to the digits: malformed number
                let bad_end = scan_word(src, end);
                diags.push(
                    Diagnostic::of(DiagCode::LexInvalidNumber, Span::new(pos, bad_end, line, col)),
                );
                proof {
                    lemma_accounted_extend(src@, pos as int, pre_toks, tokens@, pre_diags, diags@);
                    assert forall|c: int| pos <= c < bad_end implies in_diag_span(diags@, c) by {
                        let last = diags@.len() - 1;
                        assert(diags@[last].span.lo <= c < diags@[last].span.hi);
                    }
                }
                col += bad_end - pos;
                pos = bad_end;
            } else {
                let t = make_number_token(src, pos, end, line, col);
                push_token(&mut tokens, t, Ghost(src@));
                proof {
                    lemma_accounted_extend(src@, pos as int, pre_toks, tokens@, pre_diags, diags@);
                    assert forall|c: int| pos <= c < end implies in_token_span(tokens@, c) by {
                        let last = tokens@.len() - 1;
                        assert(tokens@[last].span.lo <= c < tokens@[last].span.hi);
                    }
                }
                col += end - pos;
                pos = end;
            }
        } else if b == 34u8 {
            let (end, content) = scan_string(src, pos);
            match content {
                Some(lexeme) => {
                    let t = make_str_token(lexeme, pos, end, line, col, Ghost(src@));
                    push_token(&mut tokens, t, Ghost(src@));
                    proof {
                        lemma_accounted_extend(
                            src@,
                            pos as int,
                            pre_toks,
                            tokens@,
                            pre_diags,
                            diags@,
                        );
                        assert forall|c: int| pos <= c < end implies in_token_span(
                            tokens@,
                            c,
                        ) by {
                            let last = tokens@.len() - 1;
                            assert(tokens@[last].span.lo <= c < tokens@[last].span.hi);
                        }
                    }
                },
                None => {
                    diags.push(
                        Diagnostic::of(
                            DiagCode::LexUnterminatedString,
                            Span::new(pos, end, line, col),
                        ),
                    );
                    proof {
                        lemma_accounted_extend(
                            src@,
                            pos as int,
                            pre_toks,
                            tokens@,
                            pre_diags,
                            diags@,
                        );
                        assert forall|c: int| pos <= c < end implies in_diag_span(
                            diags@,
                            c,
                        ) by {
                            let last = diags@.len() - 1;
                            assert(diags@[last].span.lo <= c < diags@[last].span.hi);
                        }
                    }
                },
            }
            col += end - pos;
            pos = end;
        } else {
            let nb: u8 = if pos + 1 < len {
                src[pos + 1]
            } else {
                0
            };
            let kind2 = if pos + 1 < len {
                two_char_op(b, nb)
            } else {
                None
            };
            match kind2 {
                Some(kind) => {
                    let t = make_op_token(src, kind, pos, pos + 2, line, col);
                    push_token(&mut tokens, t, Ghost(src@));
                    proof {
                        lemma_accounted_extend(
                            src@,
                            pos as int,
                            pre_toks,
                            tokens@,
                            pre_diags,
                            diags@,
                        );
                        assert forall|c: int| pos <= c < pos + 2 implies in_token_span(
                            tokens@,
                            c,
                        ) by {
                            let last = tokens@.len() - 1;
                            assert(tokens@[last].span.lo <= c < tokens@[last].span.hi);
                        }
                    }
                    col += 2;
                    pos += 2;
                },
                None => {
                    match one_char_op(b) {
                        Some(kind) => {
                            let t = make_op_token(src, kind, pos, pos + 1, line, col);
                            push_token(&mut tokens, t, Ghost(src@));
                            proof {
                                lemma_accounted_extend(
                                    src@,
                                    pos as int,
                                    pre_toks,
                                    tokens@,
                                    pre_diags,
                                    diags@,
                                );
                                assert forall|c: int| pos <= c < pos + 1 implies in_token_span(
                                    tokens@,
                                    c,
                                ) by {
                                    let last = tokens@.len() - 1;
                                    assert(tokens@[last].span.lo <= c < tokens@[last].span.hi);
                                }
                            }
                            col += 1;
                            pos += 1;
                        },
                        None => {
                            diags.push(
                                Diagnostic::of(
                                    DiagCode::LexInvalidCharacter,
                                    Span::new(pos, pos + 1, line, col),
                                ),
                            );
                            proof {
                                lemma_accounted_extend(
                                    src@,
                                    pos as int,
                                    pre_toks,
                                    tokens@,
                                    pre_diags,
                                    diags@,
                                );
                                assert forall|c: int| pos <= c < pos + 1 implies in_diag_span(
                                    diags@,
                                    c,
                                ) by {
                                    let last = diags@.len() - 1;
                                    assert(diags@[last].span.lo <= c < diags@[last].span.hi);
                                }
                            }
                            col += 1;
                            pos += 1;
                        },
                    }
                },
            }
        }
    }
    let eof = Token {
        kind: TokenKind::Eof,
        lexeme: Vec::new(),
        span: Span::new(len, len, line, col),
    };
    let ghost pre = tokens@;
    proof {
        reveal(token_wf);
        assert(token_wf(eof, src@));
    }
    tokens.push(eof);
    proof {
        lemma_accounted_extend(src@, len as int, pre, tokens@, diags@, diags@);
    }
    proof {
        let ts = tokens@;
        let n = ts.len();
        assert forall|i: int| 0 <= i < n implies token_wf(#[trigger] ts[i], src@) by {
            if i < n - 1 {
                assert(token_wf(pre[i], src@));
            }
        }
        assert forall|i: int, j: int| #![trigger ts[i], ts[j]] 0 <= i && i + 1 == j && j < n
            implies ts[i].span.hi <= ts[j].span.lo by {
            if j < n - 1 {
                assert(pre[i].span.hi <= pre[j].span.lo);
            } else {
                assert(ts[i] == pre.last());
            }
        }
    }
    LexOut { tokens, diags }
}

} // verus!
