//! Recursive-descent parser with precedence climbing for expressions.
//! It recovers from errors at statement and declaration boundaries and
//! keeps collecting diagnostics.

use vstd::prelude::*;
use crate::ast::{
    BinOp, Decl, Expr, FieldInit, FnSig, Item, Param, Pattern, Program, Stmt, TypeExpr, UnOp,
    WhenArm, is_one_literal,
};
use crate::diag::{DiagCode, Diagnostic, Span};
use crate::rules::clone_bytes;
use crate::token::{Token, TokenKind};

verus! {

/// Bound on expression and statement nesting depth; deeper input is
/// rejected with a diagnostic rather than overflowing the stack.
pub const PARSE_FUEL: usize = 240;

pub struct Parser {
    pub tokens: Vec<Token>,
    pub pos: usize,
    pub diags: Vec<Diagnostic>,
}

/// The parser always sits on a valid token; the list ends in end-of-input.
pub open spec fn parser_wf(p: Parser) -> bool {
    &&& p.tokens@.len() >= 1
    &&& p.tokens@.last().kind == TokenKind::Eof
    &&& p.pos < p.tokens@.len()
}

/// What every parsing step guarantees: well-formedness is kept, the token
/// list is untouched, the cursor never moves backwards and diagnostics are
/// only added.
pub open spec fn progressed(a: Parser, b: Parser) -> bool {
    &&& parser_wf(b)
    &&& b.tokens == a.tokens
    &&& a.pos <= b.pos
    &&& a.diags@.len() <= b.diags@.len()
}

impl Parser {
    pub fn new(tokens: Vec<Token>) -> (p: Parser)
        requires
            tokens@.len() >= 1,
            tokens@.last().kind == TokenKind::Eof,
        ensures
            parser_wf(p),
            p.tokens == tokens,
            p.pos == 0,
            p.diags@.len() == 0,
    {
        Parser { tokens, pos: 0, diags: Vec::new() }
    }

    fn peek(&self) -> (k: TokenKind)
        requires
            parser_wf(*self),
        ensures
            k == self.tokens@[self.pos as int].kind,
    {
        self.tokens[self.pos].kind
    }

    /// The token kind `off` tokens ahead, end-of-input when that runs out.
    fn peek_at(&self, off: usize) -> (k: TokenKind)
        requires
            parser_wf(*self),
    {
        if off < self.tokens.len() - self.pos {
            self.tokens[self.pos + off].kind
        } else {
            TokenKind::Eof
        }
    }

    fn cur_span(&self) -> (s: Span)
        requires
            parser_wf(*self),
    {
        self.tokens[self.pos].span
    }

    fn cur_lexeme(&self) -> (v: Vec<u8>)
        requires
            parser_wf(*self),
        ensures
            v@ == self.tokens@[self.pos as int].lexeme@,
    {
        clone_bytes(&self.tokens[self.pos].lexeme)
    }

    fn at_eof(&self) -> (r: bool)
        requires
            parser_wf(*self),
        ensures
            r == (self.tokens@[self.pos as int].kind == TokenKind::Eof),
    {
        self.tokens[self.pos].kind == TokenKind::Eof
    }

    /// Moves past the current token; never moves past end-of-input.
    fn bump(&mut self)
        requires
            parser_wf(*old(self)),
        ensures
            progressed(*old(self), *final(self)),
            old(self).pos + 1 < old(self).tokens@.len() ==> final(self).pos == old(self).pos + 1,
            final(self).diags == old(self).diags,
    {
        if self.pos < self.tokens.len() - 1 {
            self.pos += 1;
        }
    }

    /// Reports a diagnostic at the current token.
    fn err_here(&mut self, code: DiagCode)
        requires
            parser_wf(*old(self)),
        ensures
            progressed(*old(self), *final(self)),
            final(self).pos == old(self).pos,
            final(self).diags@.len() == old(self).diags@.len() + 1,
    {
        let sp = self.cur_span();
        self.diags.push(Diagnostic::of(code, sp));
    }

    /// Consumes the expected kind, or reports an unexpected token.
    fn expect(&mut self, k: TokenKind) -> (ok: bool)
        requires
            parser_wf(*old(self)),
        ensures
            progressed(*old(self), *final(self)),
            !ok ==> final(self).diags@.len() > old(self).diags@.len(),
            old(self).tokens@[old(self).pos as int].kind == k && k != TokenKind::Eof ==> ok
                && final(self).pos == old(self).pos + 1 && final(self).diags@ == old(self).diags@,
    {
        if self.peek() == k {
            self.bump();
            true
        } else {
            self.err_here(DiagCode::ParseUnexpectedToken);
            false
        }
    }

    /// Error recovery: skips ahead until just past a `;` or `}`, or to a
    /// keyword that starts a declaration or statement, or to end-of-input.
    fn skip_to_boundary(&mut self)
        requires
            parser_wf(*old(self)),
        ensures
            progressed(*old(self), *final(self)),
    {
        loop
            invariant
                parser_wf(*self),
                self.tokens == old(self).tokens,
                old(self).pos <= self.pos,
                old(self).diags@.len() <= self.diags@.len(),
            decreases self.tokens@.len() - self.pos,
        {
            let k = self.peek();
            match k {
                TokenKind::Eof => {
                    break;
                },
                TokenKind::Semi | TokenKind::RBrace => {
                    self.bump();
                    break;
                },
                TokenKind::KwLet | TokenKind::KwConst | TokenKind::KwFn | TokenKind::KwType
                | TokenKind::KwIf | TokenKind::KwWhile | TokenKind::KwFor | TokenKind::KwWhen
                | TokenKind::KwReturn => {
                    break;
                },
                _ => {
                    let before = self.pos;
                    self.bump();
                    if self.pos == before {
                        break;
                    }
                },
            }
        }
    }

    /// Consumes an identifier and yields its lexeme.
    fn expect_ident(&mut self) -> (r: Option<Vec<u8>>)
        requires
            parser_wf(*old(self)),
        ensures
            progressed(*old(self), *final(self)),
            r is None ==> final(self).diags@.len() > old(self).diags@.len(),
            old(self).tokens@[old(self).pos as int].kind == TokenKind::Ident ==> r is Some
                && r->0@ == old(self).tokens@[old(self).pos as int].lexeme@ && final(self).pos
                == old(self).pos + 1 && final(self).diags@ == old(self).diags@,
    {
        if self.peek() == TokenKind::Ident {
            let v = self.cur_lexeme();
            self.bump();
            Some(v)
        } else {
            self.err_here(DiagCode::ParseUnexpectedToken);
            None
        }
    }

    /// Parses a type annotation.
    fn parse_type(&mut self, fuel: usize) -> (r: Option<TypeExpr>)
        requires
            parser_wf(*old(self)),
        ensures
            progressed(*old(self), *final(self)),
            r is None ==> final(self).diags@.len() > old(self).diags@.len(),
            plain_type_name_at(old(self).tokens@, old(self).pos as int) && fuel >= 1 ==> (match r {
                Some(te) => te matches TypeExpr::NamedTe(n, _) && n@ == old(self).tokens@[old(
                    self,
                ).pos as int].lexeme@,
                None => false,
            }) && final(self).pos == old(self).pos + 1 && final(self).diags@ == old(self).diags@,
        decreases fuel,
    {
        if fuel == 0 {
            self.err_here(DiagCode::ParseDepthExceeded);
            return None;
        }
        let sp = self.cur_span();
        let base: Option<TypeExpr> = if self.peek() == TokenKind::LBracket {
            self.bump();
            if self.peek() == TokenKind::Number {
                let size = self.cur_lexeme();
                self.bump();
                if !self.expect(TokenKind::RBracket) {
                    return None;
                }
                match self.parse_type(fuel - 1) {
                    Some(elem) => Some(TypeExpr::FixedArrTe(size, Box::new(elem), sp)),
                    None => None,
                }
            } else if self.peek() == TokenKind::RBracket {
                self.bump();
                match self.parse_type(fuel - 1) {
                    Some(elem) => Some(TypeExpr::DynArrTe(Box::new(elem), sp)),
                    None => None,
                }
            } else {
                self.err_here(DiagCode::ParseUnexpectedToken);
                None
            }
        } else if self.peek() == TokenKind::Ident {
            let name = self.cur_lexeme();
            self.bump();
            if is_result_name(name.as_slice()) && self.peek() == TokenKind::Bang {
                self.bump();
                match self.parse_type(fuel - 1) {
                    Some(ok) => Some(TypeExpr::ResultTe(Box::new(ok), sp)),
                    None => None,
                }
            } else {
                Some(TypeExpr::NamedTe(name, sp))
            }
        } else {
            self.err_here(DiagCode::ParseUnexpectedToken);
            None
        };
        match base {
            None => None,
            Some(mut te) => {
                loop
                    invariant
                        parser_wf(*self),
                        self.tokens == old(self).tokens,
                        old(self).pos <= self.pos,
                        old(self).diags@.len() <= self.diags@.len(),
                        plain_type_name_at(old(self).tokens@, old(self).pos as int) && fuel >= 1
                            ==> (te matches TypeExpr::NamedTe(n, _) && n@ == old(self).tokens@[old(
                            self,
                        ).pos as int].lexeme@) && self.pos == old(self).pos + 1 && self.diags@
                            == old(self).diags@,
                    decreases self.tokens@.len() - self.pos,
                {
                    if self.peek() == TokenKind::Question {
                        let before = self.pos;
                        self.bump();
                        te = TypeExpr::OptTe(Box::new(te), sp);
                        if self.pos == before {
                            break;
                        }
                    } else {
                        break;
                    }
                }
                Some(te)
            },
        }
    }

    /// Parses a full expression: `comptime` prefix, then `catch` postfix
    /// over the elvis/ternary/binary tower.
    fn parse_expr(&mut self, fuel: usize) -> (r: Expr)
        requires
            parser_wf(*old(self)),
        ensures
            progressed(*old(self), *final(self)),
        decreases fuel,
    {
        if fuel == 0 {
            self.err_here(DiagCode::ParseDepthExceeded);
            return Expr::BadExpr(self.cur_span());
        }
        if self.peek() == TokenKind::KwComptime {
            let sp = self.cur_span();
            self.bump();
            let inner = self.parse_expr(fuel - 1);
            return Expr::ComptimeMark(Box::new(inner), sp);
        }
        let mut e = self.parse_elvis(fuel - 1);
        loop
            invariant
                0 < fuel,
                parser_wf(*self),
                self.tokens == old(self).tokens,
                old(self).pos <= self.pos,
                old(self).diags@.len() <= self.diags@.len(),
            decreases self.tokens@.len() - self.pos,
        {
            if self.peek() == TokenKind::KwCatch {
                let before = self.pos;
                let sp = self.cur_span();
                self.bump();
                let err_name = match self.expect_ident() {
                    Some(n) => n,
                    None => Vec::new(),
                };
                self.expect(TokenKind::LBrace);
                let (body, with_expr) = self.parse_catch_body(fuel - 1);
                e = Expr::CatchExpr(Box::new(e), err_name, body, with_expr, sp);
                if self.pos == before {
                    break;
                }
            } else {
                break;
            }
        }
        e
    }

    /// The body of a `catch` block: statements, then optionally
    /// `with <expr>;` as its final default-value production.
    fn parse_catch_body(&mut self, fuel: usize) -> (r: (Vec<Stmt>, Option<Box<Expr>>))
        requires
            parser_wf(*old(self)),
        ensures
            progressed(*old(self), *final(self)),
        decreases fuel,
    {
        let mut body: Vec<Stmt> = Vec::new();
        let mut with_expr: Option<Box<Expr>> = None;
        if fuel == 0 {
            self.err_here(DiagCode::ParseDepthExceeded);
            return (body, with_expr);
        }
        loop
            invariant
                0 < fuel,
                parser_wf(*self),
                self.tokens == old(self).tokens,
                old(self).pos <= self.pos,
                old(self).diags@.len() <= self.diags@.len(),
            decreases self.tokens@.len() - self.pos,
        {
            let k = self.peek();
            if k == TokenKind::RBrace || k == TokenKind::Eof {
                break;
            }
            let before = self.pos;
            if k == TokenKind::KwWith {
                self.bump();
                let e = self.parse_expr(fuel - 1);
                with_expr = Some(Box::new(e));
                self.expect(TokenKind::Semi);
                break;
            }
            match self.parse_stmt(fuel - 1) {
                Some(st) => body.push(st),
                None => {},
            }
            if self.pos == before {
                break;
            }
        }
        self.expect(TokenKind::RBrace);
        (body, with_expr)
    }

    /// `a ?: b`, right associative, the loosest operator.
    fn parse_elvis(&mut self, fuel: usize) -> (r: Expr)
        requires
            parser_wf(*old(self)),
        ensures
            progressed(*old(self), *final(self)),
        decreases fuel,
    {
        if fuel == 0 {
            self.err_here(DiagCode::ParseDepthExceeded);
            return Expr::BadExpr(self.cur_span());
        }
        let a = self.parse_ternary(fuel - 1);
        if self.peek() == TokenKind::QuestionColon {
            let sp = self.cur_span();
            self.bump();
            let b = self.parse_elvis(fuel - 1);
            Expr::Elvis(Box::new(a), Box::new(b), sp)
        } else {
            a
        }
    }

    /// `c ? t : f`, right associative.
    fn parse_ternary(&mut self, fuel: usize) -> (r: Expr)
        requires
            parser_wf(*old(self)),
        ensures
            progressed(*old(self), *final(self)),
        decreases fuel,
    {
        if fuel == 0 {
            self.err_here(DiagCode::ParseDepthExceeded);
            return Expr::BadExpr(self.cur_span());
        }
        let c = self.parse_bin(0, fuel - 1);
        if self.peek() == TokenKind::Question {
            let sp = self.cur_span();
            self.bump();
            let t = self.parse_expr(fuel - 1);
            self.expect(TokenKind::Colon);
            let f = self.parse_ternary(fuel - 1);
            Expr::Ternary(Box::new(c), Box::new(t), Box::new(f), sp)
        } else {
            c
        }
    }

    /// Left-associative binary tower: or, and, equality, comparison,
    /// additive, multiplicative.
    fn parse_bin(&mut self, lvl: u8, fuel: usize) -> (r: Expr)
        requires
            parser_wf(*old(self)),
        ensures
            progressed(*old(self), *final(self)),
        decreases fuel,
    {
        if fuel == 0 {
            self.err_here(DiagCode::ParseDepthExceeded);
            return Expr::BadExpr(self.cur_span());
        }
        if lvl >= 6 {
            return self.parse_unary(fuel - 1);
        }
        let mut e = self.parse_bin(lvl + 1, fuel - 1);
        loop
            invariant
                0 < fuel,
                lvl < 6,
                parser_wf(*self),
                self.tokens == old(self).tokens,
                old(self).pos <= self.pos,
                old(self).diags@.len() <= self.diags@.len(),
            decreases self.tokens@.len() - self.pos,
        {
            let op = level_op(self.peek(), lvl);
            match op {
                Some(b) => {
                    let before = self.pos;
                    let sp = self.cur_span();
                    self.bump();
                    let rhs = self.parse_bin(lvl + 1, fuel - 1);
                    e = Expr::Binary(b, Box::new(e), Box::new(rhs), sp);
                    if self.pos == before {
                        break;
                    }
                },
                None => {
                    break;
                },
            }
        }
        e
    }

    fn parse_unary(&mut self, fuel: usize) -> (r: Expr)
        requires
            parser_wf(*old(self)),
        ensures
            progressed(*old(self), *final(self)),
        decreases fuel,
    {
        if fuel == 0 {
            self.err_here(DiagCode::ParseDepthExceeded);
            return Expr::BadExpr(self.cur_span());
        }
        if self.peek() == TokenKind::Minus {
            let sp = self.cur_span();
            self.bump();
            let e = self.parse_unary(fuel - 1);
            Expr::Unary(UnOp::Neg, Box::new(e), sp)
        } else {
            self.parse_postfix(fuel - 1)
        }
    }

    /// Postfix operators: field access, the error mark `!`, and ranges
    /// `lo..hi:step`. The step marker binds tighter than a ternary colon,
    /// so a stepped range inside a ternary needs parentheses.
    fn parse_postfix(&mut self, fuel: usize) -> (r: Expr)
        requires
            parser_wf(*old(self)),
        ensures
            progressed(*old(self), *final(self)),
        decreases fuel,
    {
        if fuel == 0 {
            self.err_here(DiagCode::ParseDepthExceeded);
            return Expr::BadExpr(self.cur_span());
        }
        let mut e = self.parse_primary(fuel - 1);
        loop
            invariant
                0 < fuel,
                parser_wf(*self),
                self.tokens == old(self).tokens,
                old(self).pos <= self.pos,
                old(self).diags@.len() <= self.diags@.len(),
            decreases self.tokens@.len() - self.pos,
        {
            let k = self.peek();
            let before = self.pos;
            if k == TokenKind::Dot {
                let sp = self.cur_span();
                self.bump();
                match self.expect_ident() {
                    Some(name) => {
                        e = Expr::FieldGet(Box::new(e), name, sp);
                    },
                    None => {
                        break;
                    },
                }
            } else if k == TokenKind::Bang {
                let sp = self.cur_span();
                self.bump();
                e = Expr::ErrMark(Box::new(e), sp);
            } else if k == TokenKind::DotDot {
                let sp = self.cur_span();
                self.bump();
                let hi = self.parse_unary(fuel - 1);
                let step: Expr = if self.peek() == TokenKind::Colon {
                    self.bump();
                    self.parse_unary(fuel - 1)
                } else {
                    one_literal(sp)
                };
                e = Expr::RangeExpr(Box::new(e), Box::new(hi), Box::new(step), sp);
            } else {
                break;
            }
            if self.pos == before {
                break;
            }
        }
        e
    }

    /// Comma-separated expressions until the given closer.
    fn parse_expr_list(&mut self, closer: TokenKind, fuel: usize) -> (r: Vec<Expr>)
        requires
            parser_wf(*old(self)),
        ensures
            progressed(*old(self), *final(self)),
        decreases fuel,
    {
        let mut out: Vec<Expr> = Vec::new();
        if fuel == 0 {
            self.err_here(DiagCode::ParseDepthExceeded);
            return out;
        }
        if self.peek() == closer {
            self.bump();
            return out;
        }
        loop
            invariant
                0 < fuel,
                parser_wf(*self),
                self.tokens == old(self).tokens,
                old(self).pos <= self.pos,
                old(self).diags@.len() <= self.diags@.len(),
            decreases self.tokens@.len() - self.pos,
        {
            let before = self.pos;
            let e = self.parse_expr(fuel - 1);
            out.push(e);
            if self.peek() == TokenKind::Comma {
                self.bump();
            } else {
                self.expect(closer);
                break;
            }
            if self.pos == before {
                break;
            }
        }
        out
    }

    fn parse_primary(&mut self, fuel: usize) -> (r: Expr)
        requires
            parser_wf(*old(self)),
        ensures
            progressed(*old(self), *final(self)),
        decreases fuel,
    {
        let sp = self.cur_span();
        if fuel == 0 {
            self.err_here(DiagCode::ParseDepthExceeded);
            return Expr::BadExpr(sp);
        }
        let k = self.peek();
        if k == TokenKind::Number {
            let lex = self.cur_lexeme();
            self.bump();
            Expr::NumLit(lex, sp)
        } else if k == TokenKind::StrLit {
            let lex = self.cur_lexeme();
            self.bump();
            Expr::StrLitE(lex, sp)
        } else if k == TokenKind::KwNull {
            self.bump();
            Expr::NullLit(sp)
        } else if k == TokenKind::LParen {
            self.bump();
            let e = self.parse_expr(fuel - 1);
            self.expect(TokenKind::RParen);
            e
        } else if k == TokenKind::LBracket {
            self.bump();
            let elems = self.parse_expr_list(TokenKind::RBracket, fuel - 1);
            Expr::ArrLit(elems, sp)
        } else if k == TokenKind::Ident {
            let name = self.cur_lexeme();
            self.bump();
            if self.peek() == TokenKind::LParen {
                self.bump();
                let args = self.parse_expr_list(TokenKind::RParen, fuel - 1);
                Expr::CallExpr(name, args, sp)
            } else if self.peek() == TokenKind::ColonColon {
                self.bump();
                match self.expect_ident() {
                    Some(variant) => Expr::EnumPath(name, variant, sp),
                    None => Expr::BadExpr(sp),
                }
            } else if self.peek() == TokenKind::LBrace && self.peek_at(1) == TokenKind::Dot {
                self.bump();
                let fields = self.parse_field_inits(fuel - 1);
                Expr::StructLit(name, fields, sp)
            } else {
                Expr::Name(name, sp)
            }
        } else {
            self.err_here(DiagCode::ParseUnexpectedToken);
            Expr::BadExpr(sp)
        }
    }

    /// `.name = expr` initialisers up to the closing brace.
    fn parse_field_inits(&mut self, fuel: usize) -> (r: Vec<FieldInit>)
        requires
            parser_wf(*old(self)),
        ensures
            progressed(*old(self), *final(self)),
        decreases fuel,
    {
        let mut out: Vec<FieldInit> = Vec::new();
        if fuel == 0 {
            self.err_here(DiagCode::ParseDepthExceeded);
            return out;
        }
        loop
            invariant
                0 < fuel,
                parser_wf(*self),
                self.tokens == old(self).tokens,
                old(self).pos <= self.pos,
                old(self).diags@.len() <= self.diags@.len(),
            decreases self.tokens@.len() - self.pos,
        {
            let before = self.pos;
            if self.peek() == TokenKind::RBrace || self.peek() == TokenKind::Eof {
                break;
            }
            if !self.expect(TokenKind::Dot) {
                self.skip_to_boundary();
                return out;
            }
            let name = match self.expect_ident() {
                Some(n) => n,
                None => {
                    self.skip_to_boundary();
                    return out;
                },
            };
            if !self.expect(TokenKind::Assign) {
                self.skip_to_boundary();
                return out;
            }
            let value = self.parse_expr(fuel - 1);
            out.push(FieldInit { name, value });
            if self.peek() == TokenKind::Comma {
                self.bump();
            }
            if self.pos == before {
                break;
            }
        }
        self.expect(TokenKind::RBrace);
        out
    }

    /// `{ stmt* }`
    fn parse_block(&mut self, fuel: usize) -> (r: Vec<Stmt>)
        requires
            parser_wf(*old(self)),
        ensures
            progressed(*old(self), *final(self)),
        decreases fuel,
    {
        let mut out: Vec<Stmt> = Vec::new();
        if fuel == 0 {
            self.err_here(DiagCode::ParseDepthExceeded);
            return out;
        }
        if !self.expect(TokenKind::LBrace) {
            return out;
        }
        loop
            invariant
                0 < fuel,
                parser_wf(*self),
                self.tokens == old(self).tokens,
                old(self).pos <= self.pos,
                old(self).diags@.len() <= self.diags@.len(),
            decreases self.tokens@.len() - self.pos,
        {
            let k = self.peek();
            if k == TokenKind::RBrace || k == TokenKind::Eof {
                break;
            }
            let before = self.pos;
            match self.parse_stmt(fuel - 1) {
                Some(st) => out.push(st),
                None => {},
            }
            if self.pos == before {
                break;
            }
        }
        self.expect(TokenKind::RBrace);
        out
    }

    /// One statement. A failed parse reports a diagnostic, skips to a
    /// boundary and yields nothing.
    fn parse_stmt(&mut self, fuel: usize) -> (r: Option<Stmt>)
        requires
            parser_wf(*old(self)),
        ensures
            progressed(*old(self), *final(self)),
            r is None ==> final(self).diags@.len() > old(self).diags@.len(),
        decreases fuel,
    {
        if fuel == 0 {
            self.err_here(DiagCode::ParseDepthExceeded);
            return None;
        }
        let k = self.peek();
        match k {
            TokenKind::KwLet => self.parse_let(fuel - 1),
            TokenKind::KwIf => self.parse_if(fuel - 1),
            TokenKind::KwWhile => self.parse_while(fuel - 1),
            TokenKind::KwFor => self.parse_for(fuel - 1),
            TokenKind::KwWhen => self.parse_when(fuel - 1),
            TokenKind::KwReturn => self.parse_return(fuel - 1),
            _ => {
                let sp = self.cur_span();
                let e = self.parse_expr(fuel - 1);
                let nk = self.peek();
                if nk == TokenKind::Assign || nk == TokenKind::PlusEq {
                    self.bump();
                    let value = self.parse_expr(fuel - 1);
                    if !self.expect(TokenKind::Semi) {
                        self.skip_to_boundary();
                    }
                    Some(
                        Stmt::AssignStmt { target: e, add: nk == TokenKind::PlusEq, value, span: sp },
                    )
                } else {
                    if !self.expect(TokenKind::Semi) {
                        self.skip_to_boundary();
                    }
                    Some(Stmt::ExprStmt { expr: e, span: sp })
                }
            },
        }
    }

    /// `let` declarations, including multiple assignment. A produced
    /// statement always carries exactly one initialiser per name, or none
    /// at all (annotated declaration): an arity mismatch between the name
    /// list and the initialiser list is reported at the list boundary and
    /// produces no statement.
    pub fn parse_let(&mut self, fuel: usize) -> (r: Option<Stmt>)
        requires
            parser_wf(*old(self)),
            old(self).tokens@[old(self).pos as int].kind == TokenKind::KwLet,
        ensures
            progressed(*old(self), *final(self)),
            (match r {
                Some(st) => match st {
                    Stmt::LetStmt { names, inits, .. } => names@.len() >= 1 && (inits@.len() == 0
                        || inits@.len() == names@.len()),
                    _ => false,
                },
                None => final(self).diags@.len() > old(self).diags@.len(),
            }),
            simple_decl_at(old(self).tokens@, old(self).pos as int) && fuel >= 2 ==> (match r {
                Some(st) => st matches Stmt::LetStmt { names, ann, inits, .. } && names@.len() == 1
                    && names@[0]@ == old(self).tokens@[old(self).pos + 1].lexeme@ && inits@.len()
                    == 0 && ann is Some,
                None => false,
            }) && final(self).pos == old(self).pos + 5 && final(self).diags@ == old(self).diags@,
        decreases fuel,
    {
        let sp = self.cur_span();
        self.bump();
        if fuel == 0 {
            self.err_here(DiagCode::ParseDepthExceeded);
            return None;
        }
        let mut names: Vec<Vec<u8>> = Vec::new();
        match self.expect_ident() {
            Some(n) => names.push(n),
            None => {
                self.skip_to_boundary();
                return None;
            },
        }
        loop
            invariant
                0 < fuel,
                parser_wf(*self),
                self.tokens == old(self).tokens,
                old(self).pos <= self.pos,
                old(self).diags@.len() <= self.diags@.len(),
                names@.len() >= 1,
                simple_decl_at(old(self).tokens@, old(self).pos as int) && fuel >= 2 ==> self.pos
                    == old(self).pos + 2 && names@.len() == 1 && names@[0]@ == old(
                    self,
                ).tokens@[old(self).pos + 1].lexeme@ && self.diags@ == old(self).diags@,
            decreases self.tokens@.len() - self.pos,
        {
            if self.peek() == TokenKind::Comma {
                let before = self.pos;
                self.bump();
                match self.expect_ident() {
                    Some(n) => names.push(n),
                    None => {
                        self.skip_to_boundary();
                        return None;
                    },
                }
                if self.pos == before {
                    break;
                }
            } else {
                break;
            }
        }
        let ann: Option<TypeExpr> = if self.peek() == TokenKind::Colon {
            self.bump();
            match self.parse_type(fuel - 1) {
                Some(te) => Some(te),
                None => {
                    self.skip_to_boundary();
                    return None;
                },
            }
        } else {
            None
        };
        let k = self.peek();
        if k == TokenKind::ColonEq || k == TokenKind::Assign {
            self.bump();
            let mut inits: Vec<Expr> = Vec::new();
            let first = self.parse_expr(fuel - 1);
            inits.push(first);
            loop
                invariant
                    0 < fuel,
                    parser_wf(*self),
                    self.tokens == old(self).tokens,
                    old(self).pos <= self.pos,
                    old(self).diags@.len() <= self.diags@.len(),
                    inits@.len() >= 1,
                decreases self.tokens@.len() - self.pos,
            {
                if self.peek() == TokenKind::Comma {
                    let before = self.pos;
                    self.bump();
                    let e = self.parse_expr(fuel - 1);
                    inits.push(e);
                    if self.pos == before {
                        break;
                    }
                } else {
                    break;
                }
            }
            if inits.len() != names.len() {
                self.err_here(DiagCode::ParseArityMismatch);
                self.skip_to_boundary();
                return None;
            }
            if !self.expect(TokenKind::Semi) {
                self.skip_to_boundary();
            }
            Some(Stmt::LetStmt { names, ann, inits, span: sp })
        } else {
            // no initialiser: only a single annotated name declares a value
            if ann.is_none() || names.len() != 1 {
                self.err_here(DiagCode::ParseUnexpectedToken);
                self.skip_to_boundary();
                return None;
            }
            if !self.expect(TokenKind::Semi) {
                self.skip_to_boundary();
            }
            Some(Stmt::LetStmt { names, ann, inits: Vec::new(), span: sp })
        }
    }

    fn parse_if(&mut self, fuel: usize) -> (r: Option<Stmt>)
        requires
            parser_wf(*old(self)),
        ensures
            progressed(*old(self), *final(self)),
            r is None ==> final(self).diags@.len() > old(self).diags@.len(),
        decreases fuel,
    {
        let sp = self.cur_span();
        self.bump();
        if fuel == 0 {
            self.err_here(DiagCode::ParseDepthExceeded);
            return None;
        }
        let cond = self.parse_expr(fuel - 1);
        let then_body = self.parse_block(fuel - 1);
        let else_body: Vec<Stmt> = if self.peek() == TokenKind::KwElse {
            self.bump();
            if self.peek() == TokenKind::KwIf {
                let mut v: Vec<Stmt> = Vec::new();
                match self.parse_if(fuel - 1) {
                    Some(st) => v.push(st),
                    None => {},
                }
                v
            } else {
                self.parse_block(fuel - 1)
            }
        } else {
            Vec::new()
        };
        Some(Stmt::IfStmt { cond, then_body, else_body, span: sp })
    }

    fn parse_while(&mut self, fuel: usize) -> (r: Option<Stmt>)
        requires
            parser_wf(*old(self)),
        ensures
            progressed(*old(self), *final(self)),
            r is None ==> final(self).diags@.len() > old(self).diags@.len(),
        decreases fuel,
    {
        let sp = self.cur_span();
        self.bump();
        if fuel == 0 {
            self.err_here(DiagCode::ParseDepthExceeded);
            return None;
        }
        let cond = self.parse_expr(fuel - 1);
        let body = self.parse_block(fuel - 1);
        Some(Stmt::WhileStmt { cond, body, span: sp })
    }

    fn parse_for(&mut self, fuel: usize) -> (r: Option<Stmt>)
        requires
            parser_wf(*old(self)),
        ensures
            progressed(*old(self), *final(self)),
            r is None ==> final(self).diags@.len() > old(self).diags@.len(),
        decreases fuel,
    {
        let sp = self.cur_span();
        self.bump();
        if fuel == 0 {
            self.err_here(DiagCode::ParseDepthExceeded);
            return None;
        }
        let idx = match self.expect_ident() {
            Some(n) => n,
            None => {
                self.skip_to_boundary();
                return None;
            },
        };
        if !self.expect(TokenKind::Comma) {
            self.skip_to_boundary();
            return None;
        }
        let val = match self.expect_ident() {
            Some(n) => n,
            None => {
                self.skip_to_boundary();
                return None;
            },
        };
        if !self.expect(TokenKind::KwIn) {
            self.skip_to_boundary();
            return None;
        }
        let iter = self.parse_expr(fuel - 1);
        let body = self.parse_block(fuel - 1);
        Some(Stmt::ForStmt { idx, val, iter, body, span: sp })
    }

    fn parse_when(&mut self, fuel: usize) -> (r: Option<Stmt>)
        requires
            parser_wf(*old(self)),
        ensures
            progressed(*old(self), *final(self)),
            r is None ==> final(self).diags@.len() > old(self).diags@.len(),
        decreases fuel,
    {
        let sp = self.cur_span();
        self.bump();
        if fuel == 0 {
            self.err_here(DiagCode::ParseDepthExceeded);
            return None;
        }
        let scrutinee = self.parse_expr(fuel - 1);
        if !self.expect(TokenKind::LBrace) {
            self.skip_to_boundary();
            return None;
        }
        let mut arms: Vec<WhenArm> = Vec::new();
        loop
            invariant
                0 < fuel,
                parser_wf(*self),
                self.tokens == old(self).tokens,
                old(self).pos <= self.pos,
                old(self).diags@.len() <= self.diags@.len(),
            decreases self.tokens@.len() - self.pos,
        {
            let k = self.peek();
            if k == TokenKind::RBrace || k == TokenKind::Eof {
                break;
            }
            let before = self.pos;
            let psp = self.cur_span();
            let pat: Option<Pattern> = if k == TokenKind::KwNull {
                self.bump();
                Some(Pattern::NullPat(psp))
            } else if k == TokenKind::Underscore {
                self.bump();
                Some(Pattern::WildPat(psp))
            } else {
                self.err_here(DiagCode::ParseUnexpectedToken);
                self.skip_to_boundary();
                None
            };
            match pat {
                Some(p) => {
                    if !self.expect(TokenKind::FatArrow) {
                        self.skip_to_boundary();
                    } else {
                        let body: Vec<Stmt> = if self.peek() == TokenKind::LBrace {
                            self.parse_block(fuel - 1)
                        } else {
                            let stsp = self.cur_span();
                            let e = self.parse_expr(fuel - 1);
                            let mut v: Vec<Stmt> = Vec::new();
                            v.push(Stmt::ExprStmt { expr: e, span: stsp });
                            v
                        };
                        arms.push(WhenArm { pat: p, body });
                        if self.peek() == TokenKind::Comma {
                            self.bump();
                        }
                    }
                },
                None => {},
            }
            if self.pos == before {
                break;
            }
        }
        self.expect(TokenKind::RBrace);
        Some(Stmt::WhenStmt { scrutinee, arms, span: sp })
    }

    fn parse_return(&mut self, fuel: usize) -> (r: Option<Stmt>)
        requires
            parser_wf(*old(self)),
        ensures
            progressed(*old(self), *final(self)),
            r is None ==> final(self).diags@.len() > old(self).diags@.len(),
        decreases fuel,
    {
        let sp = self.cur_span();
        self.bump();
        if fuel == 0 {
            self.err_here(DiagCode::ParseDepthExceeded);
            return None;
        }
        if self.peek() == TokenKind::Semi {
            self.bump();
            return Some(Stmt::ReturnStmt { value: None, span: sp });
        }
        let e = self.parse_expr(fuel - 1);
        if !self.expect(TokenKind::Semi) {
            self.skip_to_boundary();
        }
        Some(Stmt::ReturnStmt { value: Some(e), span: sp })
    }

    /// `name: type` parameter lists up to the closing parenthesis. With
    /// `allow_self`, a leading bare `self` is accepted and skipped, for
    /// interface method signatures.
    fn parse_params(&mut self, allow_self: bool, fuel: usize) -> (r: Option<Vec<Param>>)
        requires
            parser_wf(*old(self)),
        ensures
            progressed(*old(self), *final(self)),
            r is None ==> final(self).diags@.len() > old(self).diags@.len(),
        decreases fuel,
    {
        let mut out: Vec<Param> = Vec::new();
        if fuel == 0 {
            self.err_here(DiagCode::ParseDepthExceeded);
            return None;
        }
        if self.peek() == TokenKind::RParen {
            self.bump();
            return Some(out);
        }
        let mut first = true;
        loop
            invariant
                0 < fuel,
                parser_wf(*self),
                self.tokens == old(self).tokens,
                old(self).pos <= self.pos,
                old(self).diags@.len() <= self.diags@.len(),
            decreases self.tokens@.len() - self.pos,
        {
            let before = self.pos;
            let name = match self.expect_ident() {
                Some(n) => n,
                None => {
                    self.skip_to_boundary();
                    return None;
                },
            };
            if first && allow_self && is_self_name(name.as_slice()) && self.peek()
                != TokenKind::Colon {
                // a bare receiver marker carries no type
            } else {
                if !self.expect(TokenKind::Colon) {
                    self.skip_to_boundary();
                    return None;
                }
                match self.parse_type(fuel - 1) {
                    Some(te) => out.push(Param { name, ty: te }),
                    None => {
                        self.skip_to_boundary();
                        return None;
                    },
                }
            }
            first = false;
            if self.peek() == TokenKind::Comma {
                self.bump();
            } else {
                if !self.expect(TokenKind::RParen) {
                    self.skip_to_boundary();
                    return None;
                }
                break;
            }
            if self.pos == before {
                break;
            }
        }
        Some(out)
    }

    /// A function declaration, or a method when a `(name &Type)` receiver
    /// clause follows `fn`.
    fn parse_fn_decl(&mut self, fuel: usize) -> (r: Option<Decl>)
        requires
            parser_wf(*old(self)),
        ensures
            progressed(*old(self), *final(self)),
            r is None ==> final(self).diags@.len() > old(self).diags@.len(),
        decreases fuel,
    {
        let sp = self.cur_span();
        self.bump();
        if fuel == 0 {
            self.err_here(DiagCode::ParseDepthExceeded);
            return None;
        }
        let receiver: Option<(Vec<u8>, Vec<u8>)> = if self.peek() == TokenKind::LParen {
            self.bump();
            let binder = match self.expect_ident() {
                Some(n) => n,
                None => {
                    self.skip_to_boundary();
                    return None;
                },
            };
            if !self.expect(TokenKind::Amp) {
                self.skip_to_boundary();
                return None;
            }
            let tyname = match self.expect_ident() {
                Some(n) => n,
                None => {
                    self.skip_to_boundary();
                    return None;
                },
            };
            if !self.expect(TokenKind::RParen) {
                self.skip_to_boundary();
                return None;
            }
            Some((binder, tyname))
        } else {
            None
        };
        let name = match self.expect_ident() {
            Some(n) => n,
            None => {
                self.skip_to_boundary();
                return None;
            },
        };
        if !self.expect(TokenKind::LParen) {
            self.skip_to_boundary();
            return None;
        }
        let params = match self.parse_params(false, fuel - 1) {
            Some(ps) => ps,
            None => {
                return None;
            },
        };
        let ret: Option<TypeExpr> = if self.peek() == TokenKind::Arrow {
            self.bump();
            match self.parse_type(fuel - 1) {
                Some(te) => Some(te),
                None => {
                    self.skip_to_boundary();
                    return None;
                },
            }
        } else {
            None
        };
        let body = self.parse_block(fuel - 1);
        Some(Decl::Func { receiver, sig: FnSig { name, params, ret, span: sp }, body })
    }

    /// `type Name enum|struct|interface { ... };`
    fn parse_type_decl(&mut self, fuel: usize) -> (r: Option<Decl>)
        requires
            parser_wf(*old(self)),
        ensures
            progressed(*old(self), *final(self)),
            r is None ==> final(self).diags@.len() > old(self).diags@.len(),
        decreases fuel,
    {
        let sp = self.cur_span();
        self.bump();
        if fuel == 0 {
            self.err_here(DiagCode::ParseDepthExceeded);
            return None;
        }
        let name = match self.expect_ident() {
            Some(n) => n,
            None => {
                self.skip_to_boundary();
                return None;
            },
        };
        let k = self.peek();
        if k == TokenKind::KwEnum {
            self.bump();
            if !self.expect(TokenKind::LBrace) {
                self.skip_to_boundary();
                return None;
            }
            let mut variants: Vec<Vec<u8>> = Vec::new();
            loop
                invariant
                    0 < fuel,
                    parser_wf(*self),
                    self.tokens == old(self).tokens,
                    old(self).pos <= self.pos,
                    old(self).diags@.len() <= self.diags@.len(),
                decreases self.tokens@.len() - self.pos,
            {
                if self.peek() == TokenKind::RBrace || self.peek() == TokenKind::Eof {
                    break;
                }
                let before = self.pos;
                match self.expect_ident() {
                    Some(v) => variants.push(v),
                    None => {
                        self.skip_to_boundary();
                        return None;
                    },
                }
                if self.peek() == TokenKind::Comma {
                    self.bump();
                }
                if self.pos == before {
                    break;
                }
            }
            self.expect(TokenKind::RBrace);
            self.expect(TokenKind::Semi);
            Some(Decl::EnumDecl { name, variants, span: sp })
        } else if k == TokenKind::KwStruct {
            self.bump();
            if !self.expect(TokenKind::LBrace) {
                self.skip_to_boundary();
                return None;
            }
            let mut fields: Vec<Param> = Vec::new();
            loop
                invariant
                    0 < fuel,
                    parser_wf(*self),
                    self.tokens == old(self).tokens,
                    old(self).pos <= self.pos,
                    old(self).diags@.len() <= self.diags@.len(),
                decreases self.tokens@.len() - self.pos,
            {
                if self.peek() == TokenKind::RBrace || self.peek() == TokenKind::Eof {
                    break;
                }
                let before = self.pos;
                if !self.expect(TokenKind::Dot) {
                    self.skip_to_boundary();
                    return None;
                }
                let fname = match self.expect_ident() {
                    Some(n) => n,
                    None => {
                        self.skip_to_boundary();
                        return None;
                    },
                };
                if !self.expect(TokenKind::Colon) {
                    self.skip_to_boundary();
                    return None;
                }
                match self.parse_type(fuel - 1) {
                    Some(te) => fields.push(Param { name: fname, ty: te }),
                    None => {
                        self.skip_to_boundary();
                        return None;
                    },
                }
                if self.peek() == TokenKind::Comma {
                    self.bump();
                }
                if self.pos == before {
                    break;
                }
            }
            self.expect(TokenKind::RBrace);
            self.expect(TokenKind::Semi);
            Some(Decl::StructDecl { name, fields, span: sp })
        } else if k == TokenKind::KwInterface {
            self.bump();
            if !self.expect(TokenKind::LBrace) {
                self.skip_to_boundary();
                return None;
            }
            let mut methods: Vec<FnSig> = Vec::new();
            loop
                invariant
                    0 < fuel,
                    parser_wf(*self),
                    self.tokens == old(self).tokens,
                    old(self).pos <= self.pos,
                    old(self).diags@.len() <= self.diags@.len(),
                decreases self.tokens@.len() - self.pos,
            {
                if self.peek() == TokenKind::RBrace || self.peek() == TokenKind::Eof {
                    break;
                }
                let before = self.pos;
                let msp = self.cur_span();
                if !self.expect(TokenKind::KwFn) {
                    self.skip_to_boundary();
                    return None;
                }
                let mname = match self.expect_ident() {
                    Some(n) => n,
                    None => {
                        self.skip_to_boundary();
                        return None;
                    },
                };
                if !self.expect(TokenKind::LParen) {
                    self.skip_to_boundary();
                    return None;
                }
                let mparams = match self.parse_params(true, fuel - 1) {
                    Some(ps) => ps,
                    None => {
                        return None;
                    },
                };
                let mret: Option<TypeExpr> = if self.peek() == TokenKind::Arrow {
                    self.bump();
                    match self.parse_type(fuel - 1) {
                        Some(te) => Some(te),
                        None => {
                            self.skip_to_boundary();
                            return None;
                        },
                    }
                } else {
                    None
                };
                methods.push(FnSig { name: mname, params: mparams, ret: mret, span: msp });
                if self.peek() == TokenKind::Comma {
                    self.bump();
                }
                if self.pos == before {
                    break;
                }
            }
            self.expect(TokenKind::RBrace);
            self.expect(TokenKind::Semi);
            Some(Decl::IfaceDecl { name, methods, span: sp })
        } else {
            self.err_here(DiagCode::ParseUnexpectedToken);
            self.skip_to_boundary();
            None
        }
    }

    /// `const name := expr;`
    fn parse_const(&mut self, fuel: usize) -> (r: Option<Decl>)
        requires
            parser_wf(*old(self)),
        ensures
            progressed(*old(self), *final(self)),
            r is None ==> final(self).diags@.len() > old(self).diags@.len(),
        decreases fuel,
    {
        let sp = self.cur_span();
        self.bump();
        if fuel == 0 {
            self.err_here(DiagCode::ParseDepthExceeded);
            return None;
        }
        let name = match self.expect_ident() {
            Some(n) => n,
            None => {
                self.skip_to_boundary();
                return None;
            },
        };
        let ann: Option<TypeExpr> = if self.peek() == TokenKind::Colon {
            self.bump();
            match self.parse_type(fuel - 1) {
                Some(te) => Some(te),
                None => {
                    self.skip_to_boundary();
                    return None;
                },
            }
        } else {
            None
        };
        if !self.expect(TokenKind::ColonEq) {
            self.skip_to_boundary();
            return None;
        }
        let value = self.parse_expr(fuel - 1);
        if !self.expect(TokenKind::Semi) {
            self.skip_to_boundary();
        }
        Some(Decl::ConstDecl { name, ann, value, span: sp })
    }

    /// One top-level item: a declaration or a statement.
    fn parse_item(&mut self, fuel: usize) -> (r: Option<Item>)
        requires
            parser_wf(*old(self)),
        ensures
            progressed(*old(self), *final(self)),
            r is None ==> final(self).diags@.len() > old(self).diags@.len(),
        decreases fuel,
    {
        let k = self.peek();
        match k {
            TokenKind::KwFn => match self.parse_fn_decl(fuel) {
                Some(d) => Some(Item::DeclItem(d)),
                None => None,
            },
            TokenKind::KwType => match self.parse_type_decl(fuel) {
                Some(d) => Some(Item::DeclItem(d)),
                None => None,
            },
            TokenKind::KwConst => match self.parse_const(fuel) {
                Some(d) => Some(Item::DeclItem(d)),
                None => None,
            },
            _ => match self.parse_stmt(fuel) {
                Some(st) => Some(Item::StmtItem(st)),
                None => None,
            },
        }
    }
}

/// A plain type name at the cursor: an identifier that opens neither a
/// result type (no `!` follows, or it is not the result keyword) nor an
/// optional (no `?` follows).
pub open spec fn plain_type_name_at(ts: Seq<Token>, p: int) -> bool {
    &&& 0 <= p && p + 1 < ts.len()
    &&& ts[p].kind == TokenKind::Ident
    &&& (ts[p].lexeme@ != seq![82u8, 101u8, 115u8, 117u8, 108u8, 116u8] || ts[p + 1].kind
        != TokenKind::Bang)
    &&& ts[p + 1].kind != TokenKind::Question
}

/// A minimal annotated declaration at the cursor: `let x : T ;` with a
/// plain type name.
pub open spec fn simple_decl_at(ts: Seq<Token>, p: int) -> bool {
    &&& 0 <= p && p + 4 < ts.len()
    &&& ts[p].kind == TokenKind::KwLet
    &&& ts[p + 1].kind == TokenKind::Ident
    &&& ts[p + 2].kind == TokenKind::Colon
    &&& plain_type_name_at(ts, p + 3)
    &&& ts[p + 4].kind == TokenKind::Semi
}

/// The step literal a range without `:step` gets.
fn one_literal(sp: Span) -> (r: Expr)
    ensures
        is_one_literal(r),
{
    let mut lex: Vec<u8> = Vec::new();
    lex.push(49u8);
    proof {
        assert(lex@ =~= seq![49u8]);
    }
    Expr::NumLit(lex, sp)
}

fn is_result_name(s: &[u8]) -> (r: bool)
    ensures
        r == (s@ == seq![82u8, 101u8, 115u8, 117u8, 108u8, 116u8]),
{
    let r = s.len() == 6 && s[0] == 82u8 && s[1] == 101u8 && s[2] == 115u8 && s[3] == 117u8 && s[4]
        == 108u8 && s[5] == 116u8;
    proof {
        if r {
            assert(s@ =~= seq![82u8, 101u8, 115u8, 117u8, 108u8, 116u8]);
        }
    }
    r
}

fn is_self_name(s: &[u8]) -> (r: bool)
    ensures
        r == (s@ == seq![115u8, 101u8, 108u8, 102u8]),
{
    let r = s.len() == 4 && s[0] == 115u8 && s[1] == 101u8 && s[2] == 108u8 && s[3] == 102u8;
    proof {
        if r {
            assert(s@ =~= seq![115u8, 101u8, 108u8, 102u8]);
        }
    }
    r
}

fn level_op(k: TokenKind, lvl: u8) -> (r: Option<BinOp>)
{
    if lvl == 0 && k == TokenKind::OrOr {
        Some(BinOp::OrOp)
    } else if lvl == 1 && k == TokenKind::AndAnd {
        Some(BinOp::AndOp)
    } else if lvl == 2 && k == TokenKind::EqEq {
        Some(BinOp::EqCmp)
    } else if lvl == 2 && k == TokenKind::NotEq {
        Some(BinOp::NeCmp)
    } else if lvl == 3 && k == TokenKind::Lt {
        Some(BinOp::Lt)
    } else if lvl == 3 && k == TokenKind::Gt {
        Some(BinOp::Gt)
    } else if lvl == 3 && k == TokenKind::LtEq {
        Some(BinOp::Le)
    } else if lvl == 3 && k == TokenKind::GtEq {
        Some(BinOp::Ge)
    } else if lvl == 4 && k == TokenKind::Plus {
        Some(BinOp::Add)
    } else if lvl == 4 && k == TokenKind::Minus {
        Some(BinOp::Sub)
    } else if lvl == 5 && k == TokenKind::Star {
        Some(BinOp::Mul)
    } else if lvl == 5 && k == TokenKind::Slash {
        Some(BinOp::Div)
    } else {
        None
    }
}

/// Parsing: turns a token list into a program, collecting diagnostics and
/// recovering at statement and declaration boundaries. A token list that
/// holds anything besides end-of-input never vanishes silently: it yields
/// at least one item or at least one diagnostic.
pub fn parse(tokens: Vec<Token>) -> (r: (Program, Vec<Diagnostic>))
    requires
        tokens@.len() >= 1,
        tokens@.last().kind == TokenKind::Eof,
    ensures
        tokens@[0].kind != TokenKind::Eof ==> r.0.items@.len() > 0 || r.1@.len() > 0,
{
    let mut p = Parser::new(tokens);
    let mut items: Vec<Item> = Vec::new();
    // the first item decides liveness: anything besides end-of-input
    // becomes an item or is reported
    if !p.at_eof() {
        let before = p.pos;
        match p.parse_item(PARSE_FUEL) {
            Some(it) => items.push(it),
            None => {},
        }
        if p.pos == before {
            if !p.at_eof() {
                p.bump();
            }
        }
    }
    loop
        invariant
            parser_wf(p),
            p.tokens@ == tokens@,
            tokens@[0].kind == TokenKind::Eof || items@.len() > 0 || p.diags@.len() > 0,
        decreases p.tokens@.len() - p.pos,
    {
        if p.at_eof() {
            break ;
        }
        let before = p.pos;
        match p.parse_item(PARSE_FUEL) {
            Some(it) => items.push(it),
            None => {},
        }
        if p.pos == before {
            if p.at_eof() {
                break ;
            }
            p.bump();
            if p.pos == before {
                break ;
            }
        }
    }
    (Program { items }, p.diags)
}

} // verus!
