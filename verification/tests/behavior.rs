//! Behaviour tests for checker rules beyond the headline scenarios.

use fer_front::compile;
use fer_front::diag::{DiagCode, Severity};

fn errors(src: &[u8]) -> usize {
    compile(src)
        .diags
        .iter()
        .filter(|d| d.severity == Severity::Error)
        .count()
}

fn has(src: &[u8], code: DiagCode) -> bool {
    compile(src).diags.iter().any(|d| d.code == code)
}

#[test]
fn while_condition_must_be_boolean() {
    assert!(has(b"while 1 { log(\"x\"); }", DiagCode::TypeMismatch));
    assert_eq!(errors(b"let a := 0; while a < 3 { a += 1; }"), 0);
}

#[test]
fn assignment_must_keep_the_declared_type() {
    assert!(has(b"let a := 1;\na = \"s\";", DiagCode::TypeMismatch));
    assert_eq!(errors(b"let a := 1;\na = 2;"), 0);
}

#[test]
fn plus_assign_concatenates_strings() {
    assert_eq!(errors(b"let s := \"a\";\ns += \"b\";"), 0);
    assert!(has(b"let s := \"a\";\ns += getNothing;", DiagCode::TypeUnknownName));
}

#[test]
fn when_null_arm_needs_an_optional_scrutinee() {
    assert!(has(
        b"let a := 1;\nwhen a { null => log(\"n\"), _ => log(\"s\") }",
        DiagCode::TypeInvalidNullComparison,
    ));
    assert_eq!(
        errors(b"let a: i32?;\nwhen a { null => log(\"n\"), _ => log(\"v: \" + a) }"),
        0
    );
}

#[test]
fn elvis_default_must_match_the_inner_type() {
    assert!(has(b"let a: i32?;\nlet v := a ?: \"s\";", DiagCode::TypeMismatch));
}

#[test]
fn ternary_branches_must_unify() {
    assert!(has(
        b"let a: i32?;\nlet v := a ? a : \"s\";",
        DiagCode::TypeMismatch,
    ));
}

#[test]
fn declarations_may_refer_forward() {
    let src = b"fn outer() -> i32 { return inner(); }\nfn inner() -> i32 { return 1; }";
    assert_eq!(errors(src), 0);
}

#[test]
fn reversed_null_check_also_narrows() {
    let src = b"let a: i32?;\nif null == a { log(\"n\"); } else { let v := a + 1; }";
    assert_eq!(errors(src), 0);
}

#[test]
fn negated_null_check_narrows_the_then_branch() {
    let src = b"let a: i32?;\nif a != null { let v := a + 1; } else { log(\"n\"); }";
    assert_eq!(errors(src), 0);
}

#[test]
fn for_iterates_fixed_arrays_too() {
    let src = b"let arr: [3]i32 = [1, 2, 3];\nfor i, v in arr { let w := v + i; }";
    assert_eq!(errors(src), 0);
}

#[test]
fn fixed_array_feeds_a_dynamic_array_of_the_same_element() {
    assert_eq!(errors(b"let d: []i32 = [1, 2, 3];"), 0);
    assert!(has(b"let d: []str = [1, 2, 3];", DiagCode::TypeMismatch));
}

#[test]
fn fixed_array_sizes_are_part_of_the_type() {
    assert!(has(
        b"let a: [2]i32 = [1, 2, 3];",
        DiagCode::TypeMismatch,
    ));
}
