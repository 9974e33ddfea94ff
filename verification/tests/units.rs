//! Unit tests for the lexer, the parser's shapes, the typing rules and
//! the demo fetch routine.

use fer_front::ast::{Expr, Item, Stmt};
use fer_front::binder::parse_array_size;
use fer_front::fetch;
use fer_front::lexer::tokenize;
use fer_front::parser::{parse, Parser, PARSE_FUEL};
use fer_front::rules::{catch_result_ty, elvis_ty, range_ty, struct_fields_match, unify};
use fer_front::str_eq;
use fer_front::token::{keyword_kind, TokenKind};
use fer_front::types::{satisfies, MethodSig, Ty};

#[test]
fn lexer_produces_expected_kinds() {
    let out = tokenize(b"let x := 1 .. 2; // comment\nx ?: 3");
    let kinds: Vec<TokenKind> = out.tokens.iter().map(|t| t.kind).collect();
    assert_eq!(
        kinds,
        vec![
            TokenKind::KwLet,
            TokenKind::Ident,
            TokenKind::ColonEq,
            TokenKind::Number,
            TokenKind::DotDot,
            TokenKind::Number,
            TokenKind::Semi,
            TokenKind::Ident,
            TokenKind::QuestionColon,
            TokenKind::Number,
            TokenKind::Eof,
        ]
    );
    assert!(out.diags.is_empty());
}

#[test]
fn lexer_tracks_lines_and_columns() {
    let out = tokenize(b"let\n  x := 1;");
    assert_eq!(out.tokens[0].span.line, 1);
    assert_eq!(out.tokens[0].span.col, 1);
    assert_eq!(out.tokens[1].span.line, 2);
    assert_eq!(out.tokens[1].span.col, 3);
}

#[test]
fn lexer_resolves_string_escapes() {
    let out = tokenize(b"\"a\\n\\\"b\"");
    assert_eq!(out.tokens[0].kind, TokenKind::StrLit);
    assert_eq!(out.tokens[0].lexeme, b"a\n\"b".to_vec());
}

#[test]
fn number_lexemes_keep_their_fraction() {
    let out = tokenize(b"3.14 10");
    assert_eq!(out.tokens[0].lexeme, b"3.14".to_vec());
    assert_eq!(out.tokens[1].lexeme, b"10".to_vec());
}

#[test]
fn keyword_table_classifies_words() {
    assert_eq!(keyword_kind(b"let"), Some(TokenKind::KwLet));
    assert_eq!(keyword_kind(b"interface"), Some(TokenKind::KwInterface));
    assert_eq!(keyword_kind(b"comptime"), Some(TokenKind::KwComptime));
    assert_eq!(keyword_kind(b"letter"), None);
    assert_eq!(keyword_kind(b"_"), Some(TokenKind::Underscore));
}

#[test]
fn omitted_range_step_becomes_the_literal_one() {
    let lexed = tokenize(b"let r := 0..10;");
    let (prog, diags) = parse(lexed.tokens);
    assert!(diags.is_empty());
    let step_lexeme = match &prog.items[0] {
        Item::StmtItem(Stmt::LetStmt { inits, .. }) => match &inits[0] {
            Expr::RangeExpr(_, _, step, _) => match &**step {
                Expr::NumLit(lex, _) => lex.clone(),
                _ => panic!("step is not a numeric literal"),
            },
            _ => panic!("initialiser is not a range"),
        },
        _ => panic!("not a let statement"),
    };
    assert_eq!(step_lexeme, b"1".to_vec());
}

#[test]
fn written_range_step_is_kept() {
    let lexed = tokenize(b"let r := 0..10:2;");
    let (prog, diags) = parse(lexed.tokens);
    assert!(diags.is_empty());
    match &prog.items[0] {
        Item::StmtItem(Stmt::LetStmt { inits, .. }) => match &inits[0] {
            Expr::RangeExpr(_, _, step, _) => match &**step {
                Expr::NumLit(lex, _) => assert_eq!(lex.clone(), b"2".to_vec()),
                _ => panic!("step is not a numeric literal"),
            },
            _ => panic!("initialiser is not a range"),
        },
        _ => panic!("not a let statement"),
    }
}

#[test]
fn array_sizes_parse_exactly() {
    assert_eq!(parse_array_size(b"0"), Some(0));
    assert_eq!(parse_array_size(b"10"), Some(10));
    assert_eq!(parse_array_size(b"123456789"), Some(123456789));
    assert_eq!(parse_array_size(b""), None);
    assert_eq!(parse_array_size(b"1234567890"), None);
    assert_eq!(parse_array_size(b"1a"), None);
}

#[test]
fn unify_is_equality_up_to_the_recovery_type() {
    assert!(matches!(unify(&Ty::I32, &Ty::I32), Some(Ty::I32)));
    assert!(unify(&Ty::I32, &Ty::Str).is_none());
    assert!(matches!(unify(&Ty::Unknown, &Ty::Str), Some(Ty::Str)));
}

#[test]
fn catch_rule_yields_the_success_type() {
    let res = Ty::ResOf(Box::new(Ty::Str), Box::new(Ty::Str));
    assert!(matches!(catch_result_ty(&res, &Ty::Str), Some(Ty::Str)));
    assert!(catch_result_ty(&res, &Ty::I32).is_none());
    assert!(catch_result_ty(&Ty::I32, &Ty::Str).is_none());
}

#[test]
fn elvis_rule_requires_an_optional() {
    let opt = Ty::Opt(Box::new(Ty::I32));
    assert!(matches!(elvis_ty(&opt, &Ty::I32), Some(Ty::I32)));
    assert!(elvis_ty(&opt, &Ty::Str).is_none());
    assert!(elvis_ty(&Ty::I32, &Ty::I32).is_none());
}

#[test]
fn range_rule_needs_integers_everywhere() {
    assert!(matches!(
        range_ty(&Ty::I32, &Ty::I32, &Ty::I32),
        Some(Ty::DynArr(_))
    ));
    assert!(range_ty(&Ty::F32, &Ty::I32, &Ty::I32).is_none());
    assert!(range_ty(&Ty::I32, &Ty::I32, &Ty::Str).is_none());
}

#[test]
fn struct_fields_match_ignores_order() {
    let decl = vec![
        (b"radius".to_vec(), Ty::F32),
        (b"color".to_vec(), Ty::Named(0)),
    ];
    let in_order = vec![
        (b"radius".to_vec(), Ty::F32),
        (b"color".to_vec(), Ty::Named(0)),
    ];
    let reversed = vec![
        (b"color".to_vec(), Ty::Named(0)),
        (b"radius".to_vec(), Ty::F32),
    ];
    let missing = vec![(b"radius".to_vec(), Ty::F32)];
    let wrong_ty = vec![
        (b"radius".to_vec(), Ty::Str),
        (b"color".to_vec(), Ty::Named(0)),
    ];
    assert!(struct_fields_match(&decl, &in_order));
    assert!(struct_fields_match(&decl, &reversed));
    assert!(!struct_fields_match(&decl, &missing));
    assert!(!struct_fields_match(&decl, &wrong_ty));
}

#[test]
fn conformance_needs_every_method_exactly() {
    let iface = vec![
        MethodSig { name: b"area".to_vec(), params: vec![], ret: Ty::F32 },
        MethodSig { name: b"perimeter".to_vec(), params: vec![], ret: Ty::F32 },
    ];
    let both = vec![
        (1usize, MethodSig { name: b"area".to_vec(), params: vec![], ret: Ty::F32 }),
        (1usize, MethodSig { name: b"perimeter".to_vec(), params: vec![], ret: Ty::F32 }),
    ];
    let one = vec![
        (1usize, MethodSig { name: b"area".to_vec(), params: vec![], ret: Ty::F32 }),
    ];
    let other_receiver = vec![
        (2usize, MethodSig { name: b"area".to_vec(), params: vec![], ret: Ty::F32 }),
        (1usize, MethodSig { name: b"perimeter".to_vec(), params: vec![], ret: Ty::F32 }),
    ];
    assert!(satisfies(&iface, &both, 1));
    assert!(!satisfies(&iface, &one, 1));
    assert!(!satisfies(&iface, &other_receiver, 1));
    assert!(satisfies(&vec![], &one, 1));
}

#[test]
fn fetch_serves_the_known_url() {
    assert_eq!(
        fetch("https://example.com/api/data"),
        Ok("Fetched Data".to_string())
    );
}

#[test]
fn fetch_fails_on_any_other_url() {
    assert_eq!(
        fetch("https://example.com/api/other"),
        Err("Network Error".to_string())
    );
    assert_eq!(fetch(""), Err("Network Error".to_string()));
}

#[test]
fn str_eq_compares_by_characters() {
    assert!(str_eq("abc", "abc"));
    assert!(!str_eq("abc", "abd"));
    assert!(!str_eq("abc", "ab"));
    assert!(str_eq("", ""));
}

#[test]
fn parse_let_rejects_arity_mismatch_at_the_list_boundary() {
    let lexed = tokenize(b"let a, b := 1, 2, 3;");
    let mut p = Parser::new(lexed.tokens);
    let before = p.diags.len();
    let st = p.parse_let(PARSE_FUEL);
    assert!(st.is_none());
    assert!(p.diags.len() > before);
}

#[test]
fn parse_let_keeps_matching_arities() {
    let lexed = tokenize(b"let a, b, c := 1, 2, 4;");
    let mut p = Parser::new(lexed.tokens);
    match p.parse_let(PARSE_FUEL) {
        Some(Stmt::LetStmt { names, inits, .. }) => {
            assert_eq!(names.len(), 3);
            assert_eq!(inits.len(), 3);
        }
        _ => panic!("expected a let statement"),
    }
    assert!(p.diags.is_empty());
}
