//! One test per diagnostic the front end can raise, plus the lowering gate.

use fer_front::compile;
use fer_front::diag::{ready_for_lowering, DiagCode, Severity};

fn codes(src: &[u8]) -> Vec<DiagCode> {
    compile(src).diags.iter().map(|d| d.code).collect()
}

#[test]
fn unterminated_string_is_reported_and_lexing_goes_on() {
    let out = compile(b"let a := \"oops\nlet b := 2;");
    assert!(out.diags.iter().any(|d| d.code == DiagCode::LexUnterminatedString));
    // lexing continued: the second binding still checks out
    assert!(out.globals.iter().any(|(n, _)| n.as_slice() == b"b"));
}

#[test]
fn invalid_character_is_reported() {
    assert!(codes(b"let a := 1 # 2;").contains(&DiagCode::LexInvalidCharacter));
}

#[test]
fn malformed_number_is_reported() {
    assert!(codes(b"let a := 12abc;").contains(&DiagCode::LexInvalidNumber));
}

#[test]
fn unexpected_token_is_reported() {
    assert!(codes(b"let := 3;").contains(&DiagCode::ParseUnexpectedToken));
}

#[test]
fn parser_collects_several_errors_in_one_pass() {
    let out = compile(b"let := 3;\nlet a, b := 1, 2, 3;\nlet c := 7;");
    assert!(out.diags.iter().any(|d| d.code == DiagCode::ParseUnexpectedToken));
    assert!(out.diags.iter().any(|d| d.code == DiagCode::ParseArityMismatch));
    // recovery resumed at the boundary: the last binding still exists
    assert!(out.globals.iter().any(|(n, _)| n.as_slice() == b"c"));
}

#[test]
fn too_deep_nesting_is_reported_not_crashed() {
    let mut src = String::from("let a := ");
    for _ in 0..400 {
        src.push('(');
    }
    src.push('1');
    for _ in 0..400 {
        src.push(')');
    }
    src.push(';');
    assert!(codes(src.as_bytes()).contains(&DiagCode::ParseDepthExceeded));
}

#[test]
fn duplicate_declaration_is_reported() {
    let src = b"fn f() -> i32 { return 1; }\nfn f() -> i32 { return 2; }";
    assert!(codes(src).contains(&DiagCode::BindDuplicateDeclaration));
}

#[test]
fn unknown_receiver_type_is_reported() {
    let src = b"fn (c &Nope) area() -> f32 { return 1.0; }";
    assert!(codes(src).contains(&DiagCode::BindUnknownReceiverType));
}

#[test]
fn type_mismatch_is_reported() {
    assert!(codes(b"let x: i32 = \"s\";").contains(&DiagCode::TypeMismatch));
}

#[test]
fn unknown_name_is_reported() {
    assert!(codes(b"let x := nowhere;").contains(&DiagCode::TypeUnknownName));
}

#[test]
fn unknown_field_is_reported() {
    let src = b"type P struct { .x: i32 };\nconst p := P { .x = 1 };\nlet y := p.z;";
    assert!(codes(src).contains(&DiagCode::TypeUnknownField));
}

#[test]
fn unknown_enum_variant_is_reported() {
    let src = b"type Color enum { Red };\nlet c := Color::Purple;";
    assert!(codes(src).contains(&DiagCode::TypeUnknownField));
}

#[test]
fn call_arity_mismatch_is_reported() {
    let src = b"fn getPi() -> f32 { return 3.14; }\nlet x := getPi(1);";
    assert!(codes(src).contains(&DiagCode::TypeCallArityMismatch));
}

#[test]
fn calling_a_type_is_reported() {
    let src = b"type P struct { .x: i32 };\nlet y := P();";
    assert!(codes(src).contains(&DiagCode::TypeNotCallable));
}

#[test]
fn runtime_reference_in_comptime_is_reported() {
    let src = b"let y := 1;\nconst x := comptime y;";
    assert!(codes(src).contains(&DiagCode::TypeNotComptimeEvaluable));
}

#[test]
fn comptime_of_pure_call_is_accepted() {
    let src = b"fn getPi() -> f32 { return 3.14; }\nconst pi := comptime getPi();";
    let out = compile(src);
    assert!(!out.diags.iter().any(|d| d.code == DiagCode::TypeNotComptimeEvaluable));
}

#[test]
fn comptime_of_impure_call_is_reported() {
    // a body with a logging loop is no compile-time material
    let src = b"fn f(x: i32) -> i32 { while x < 3 { log(\"spin\"); } return x; }\nconst c := comptime f(1);";
    assert!(codes(src).contains(&DiagCode::TypeNotComptimeEvaluable));
}

#[test]
fn null_comparison_on_non_optional_is_reported() {
    let src = b"let a := 1;\nif a == null { log(\"n\"); }";
    assert!(codes(src).contains(&DiagCode::TypeInvalidNullComparison));
}

#[test]
fn bare_return_in_result_function_is_reported() {
    let src = b"fn f() -> Result ! str { return 1; }";
    assert!(codes(src).contains(&DiagCode::TypeResultShapeMismatch));
}

#[test]
fn error_mark_outside_result_function_is_reported() {
    let src = b"fn f() -> i32 { return \"boom\"!; }";
    assert!(codes(src).contains(&DiagCode::TypeResultShapeMismatch));
}

#[test]
fn result_shapes_are_accepted_in_result_function() {
    let src = b"fn f(flag: bool) -> Result ! str {\n\
        if flag { return Result{.data = \"ok\"}; } else { return \"bad\"!; }\n\
    }";
    let out = compile(src);
    assert!(!out.diags.iter().any(|d| d.severity == Severity::Error));
}

#[test]
fn redundant_comptime_is_a_warning_and_never_blocks() {
    let out = compile(b"const x := comptime 3;");
    assert!(out.diags.iter().any(|d| d.code == DiagCode::WarnComptimeRedundant));
    assert!(out
        .diags
        .iter()
        .all(|d| d.severity == Severity::Warning));
    // warnings never block downstream phases
    assert!(ready_for_lowering(&out.diags));
}

#[test]
fn errors_block_lowering() {
    let out = compile(b"let x := nowhere;");
    assert!(!ready_for_lowering(&out.diags));
}

#[test]
fn diagnostics_render_a_message() {
    let out = compile(b"let a, b := 1, 2, 3;");
    let d = out
        .diags
        .iter()
        .find(|d| d.code == DiagCode::ParseArityMismatch)
        .expect("arity diagnostic");
    assert_eq!(d.message(), "multiple assignment arity mismatch");
    assert_eq!(d.severity, Severity::Error);
}

#[test]
fn oversized_array_count_is_a_type_error() {
    assert!(codes(b"let a: [9999999999]i32 = [1];").contains(&DiagCode::TypeBadArraySize));
    assert!(codes(b"type P struct { .x: [9999999999]i32 };").contains(&DiagCode::TypeBadArraySize));
}

#[test]
fn comptime_purity_follows_forward_chains() {
    let src = b"fn f() -> i32 { return g(); }\n\
                fn g() -> i32 { return h(); }\n\
                fn h() -> i32 { return 1; }\n\
                const x := comptime f();";
    let out = compile(src);
    assert!(!out.diags.iter().any(|d| d.severity == Severity::Error));
}
