//! End-to-end tests: the whole front end on complete programs.

use fer_front::compile;
use fer_front::diag::{ready_for_lowering, DiagCode, Severity};
use fer_front::types::Ty;

fn error_count(out: &fer_front::CompileOut) -> usize {
    let mut n = 0;
    for d in out.diags.iter() {
        if d.severity == Severity::Error {
            n += 1;
        }
    }
    n
}

fn has_code(out: &fer_front::CompileOut, code: DiagCode) -> bool {
    out.diags.iter().any(|d| d.code == code)
}

fn global_ty<'a>(out: &'a fer_front::CompileOut, name: &[u8]) -> Option<&'a Ty> {
    let mut found = None;
    for (n, t) in out.globals.iter() {
        if n.as_slice() == name {
            found = Some(t);
        }
    }
    found
}

const SAMPLE: &str = r#"
// Multiple assignment
let a, b, c := 1, 2, 4;

// Arrays
let arr: [10]i32 = [0, 1, 2, 3, 4, 5, 6, 7, 8, 9];
let dynArr: []i32 = [0, 1, 2, 3, 4, 5, 6, 7, 8, 9];

// Functions
fn getPi() -> f32 {
    return 3.14;
}

// Compile-time constant
const pi := comptime getPi();

// enum
type Color enum {
    Red,
    Green,
    Blue
};

// Structs
type Circle struct {
    .radius: f32,
    .area: f32,
    .color: Color
};

// Interfaces
type Shape interface {
    fn area(self) -> f32,
    fn perimeter(self) -> f32
};

// Methods
fn (c &Circle) area() -> f32 {
    return c.area;
}
fn (c &Circle) perimeter() -> f32 {
    return 2.0 * pi * c.radius;
}

// Struct literal
const circle1 := Circle {
    .radius = 5.0,
    .area = pi * 5.0 * 5.0,
    .color = Color::Red
};

// Result type & error handling
fn fetch(url: str) -> Result ! str {
    if url == "https://example.com/api/data" {
        return Result{.data = "Fetched Data"};
    } else {
        return "Network Error"!;
    }
}

// Catch with default value
let res := fetch("https://example.com/api/data") catch err {
    log("Error fetching data: " + err);
    with "default data";
};

// Loops
for i, v in 0..10:2 {
    log("Current index: " + i);
    log("Current value: " + v);
}

while a < 10 {
    a += 1;
}

// Optional types
let mayExist: i32?;

// Statement-only `when`
when mayExist {
    null => log("mayExist is null"),
    _ => log("mayExist has a value: " + mayExist)
}

// Optional unwrapping in `if`
if mayExist == null {
    log("mayExist is null");
} else {
    log("mayExist has a value: " + mayExist);
}

// Ternary / Elvis operators
let value  := mayExist ? mayExist : 42;
let value2 := mayExist ?: 42;
"#;

#[test]
fn whole_sample_program_checks_clean() {
    let out = compile(SAMPLE.as_bytes());
    for d in out.diags.iter() {
        println!("{:?} {:?} line {}", d.severity, d.code, d.span.line);
    }
    assert_eq!(error_count(&out), 0);
    assert!(ready_for_lowering(&out.diags));
}

#[test]
fn sample_program_infers_global_types() {
    let out = compile(SAMPLE.as_bytes());
    assert!(matches!(global_ty(&out, b"a"), Some(Ty::I32)));
    assert!(matches!(global_ty(&out, b"res"), Some(Ty::Str)));
    assert!(matches!(global_ty(&out, b"value"), Some(Ty::I32)));
    assert!(matches!(global_ty(&out, b"value2"), Some(Ty::I32)));
    assert!(matches!(global_ty(&out, b"mayExist"), Some(Ty::Opt(_))));
    assert!(matches!(global_ty(&out, b"pi"), Some(Ty::F32)));
    match global_ty(&out, b"arr") {
        Some(Ty::FixedArr(elem, n)) => {
            assert!(matches!(&**elem, Ty::I32));
            assert_eq!(*n, 10);
        }
        other => panic!("arr has wrong type: {:?}", other.is_some()),
    }
    assert!(matches!(global_ty(&out, b"dynArr"), Some(Ty::DynArr(_))));
    assert!(matches!(global_ty(&out, b"circle1"), Some(Ty::Named(_))));
}

#[test]
fn multiple_assignment_arity_mismatch_is_a_parse_error() {
    let out = compile(b"let a, b := 1, 2, 3;");
    assert!(has_code(&out, DiagCode::ParseArityMismatch));
    // never a silent truncation: no binding survives
    assert!(global_ty(&out, b"a").is_none());
    assert!(global_ty(&out, b"b").is_none());
}

#[test]
fn multiple_assignment_equal_arity_is_fine() {
    let out = compile(b"let a, b := 1, 2;");
    assert_eq!(error_count(&out), 0);
    assert!(matches!(global_ty(&out, b"a"), Some(Ty::I32)));
    assert!(matches!(global_ty(&out, b"b"), Some(Ty::I32)));
}

#[test]
fn struct_literal_field_order_is_irrelevant() {
    let decl = "type Circle struct { .radius: f32, .area: f32, .color: Color };\n\
                type Color enum { Red, Green, Blue };\n";
    let in_order = format!(
        "{}const c1 := Circle {{ .radius = 5.0, .area = 78.5, .color = Color::Red }};",
        decl
    );
    let out_of_order = format!(
        "{}const c1 := Circle {{ .area = 78.5, .color = Color::Red, .radius = 5.0 }};",
        decl
    );
    let a = compile(in_order.as_bytes());
    let b = compile(out_of_order.as_bytes());
    assert_eq!(error_count(&a), 0);
    assert_eq!(error_count(&b), 0);
    assert_eq!(error_count(&a), error_count(&b));
}

#[test]
fn struct_literal_missing_field_is_an_error() {
    let src = "type Color enum { Red };\n\
               type Circle struct { .radius: f32, .color: Color };\n\
               const c1 := Circle { .radius = 5.0 };";
    let out = compile(src.as_bytes());
    assert!(has_code(&out, DiagCode::TypeStructLiteralMismatch));
}

#[test]
fn struct_literal_wrong_field_type_is_an_error() {
    let src = "type Circle struct { .radius: f32 };\n\
               const c1 := Circle { .radius = \"wide\" };";
    let out = compile(src.as_bytes());
    assert!(has_code(&out, DiagCode::TypeStructLiteralMismatch));
}

#[test]
fn catch_takes_the_success_type_of_the_result() {
    let src = "fn fetch(url: str) -> Result ! str {\n\
                   return Result{.data = \"Fetched Data\"};\n\
               }\n\
               let res := fetch(\"u\") catch err { with \"default data\"; };";
    let out = compile(src.as_bytes());
    assert_eq!(error_count(&out), 0);
    assert!(matches!(global_ty(&out, b"res"), Some(Ty::Str)));
}

#[test]
fn catch_default_must_unify_with_success_type() {
    let src = "fn fetch(url: str) -> Result ! str {\n\
                   return Result{.data = \"d\"};\n\
               }\n\
               let res := fetch(\"u\") catch err { with 42; };";
    let out = compile(src.as_bytes());
    assert!(has_code(&out, DiagCode::TypeMismatch));
}

#[test]
fn catch_error_binding_has_the_error_type() {
    // the bound error is a string here, so concatenation with it is legal
    let src = "fn fetch(url: str) -> Result ! str {\n\
                   return \"boom\"!;\n\
               }\n\
               let res := fetch(\"u\") catch err { log(\"e: \" + err); with \"d\"; };";
    let out = compile(src.as_bytes());
    assert_eq!(error_count(&out), 0);
}

#[test]
fn optional_narrows_in_the_else_of_a_null_check() {
    let src = "let mayExist: i32?;\n\
               if mayExist == null {\n\
                   log(\"null\");\n\
               } else {\n\
                   let v := mayExist + 1;\n\
               }";
    let out = compile(src.as_bytes());
    assert_eq!(error_count(&out), 0);
}

#[test]
fn optional_used_without_narrowing_is_an_error() {
    let src = "let mayExist: i32?;\nlet v := mayExist + 1;";
    let out = compile(src.as_bytes());
    assert!(has_code(&out, DiagCode::TypeNarrowingRequired));
}

#[test]
fn narrowing_does_not_leak_out_of_its_branch() {
    let src = "let mayExist: i32?;\n\
               if mayExist == null { log(\"n\"); } else { log(\"s\"); }\n\
               let v := mayExist + 1;";
    let out = compile(src.as_bytes());
    assert!(has_code(&out, DiagCode::TypeNarrowingRequired));
}

#[test]
fn range_with_step_iterates_integers() {
    let src = "for i, v in 0..10:2 { let w := v + 1; let j := i + 1; }";
    let out = compile(src.as_bytes());
    assert_eq!(error_count(&out), 0);
}

#[test]
fn range_without_step_defaults_and_types_the_same() {
    let src = "let r := 0..10;\nlet s := 0..10:2;";
    let out = compile(src.as_bytes());
    assert_eq!(error_count(&out), 0);
    assert!(matches!(global_ty(&out, b"r"), Some(Ty::DynArr(_))));
    assert!(matches!(global_ty(&out, b"s"), Some(Ty::DynArr(_))));
}

#[test]
fn conforming_type_assigns_to_interface() {
    let src = "type Shape interface { fn area(self) -> f32, fn perimeter(self) -> f32 };\n\
               type Circle struct { .radius: f32 };\n\
               fn (c &Circle) area() -> f32 { return c.radius; }\n\
               fn (c &Circle) perimeter() -> f32 { return c.radius; }\n\
               const c1 := Circle { .radius = 1.0 };\n\
               let s: Shape = c1;";
    let out = compile(src.as_bytes());
    assert_eq!(error_count(&out), 0);
}

#[test]
fn missing_method_breaks_interface_conformance() {
    let src = "type Shape interface { fn area(self) -> f32, fn perimeter(self) -> f32 };\n\
               type Circle struct { .radius: f32 };\n\
               fn (c &Circle) area() -> f32 { return c.radius; }\n\
               const c1 := Circle { .radius = 1.0 };\n\
               let s: Shape = c1;";
    let out = compile(src.as_bytes());
    assert!(has_code(&out, DiagCode::TypeInterfaceUnsatisfied));
}

#[test]
fn wrong_method_signature_breaks_interface_conformance() {
    // area returns i32 instead of f32: not an exact signature match
    let src = "type Shape interface { fn area(self) -> f32, fn perimeter(self) -> f32 };\n\
               type Circle struct { .radius: f32 };\n\
               fn (c &Circle) area() -> i32 { return 1; }\n\
               fn (c &Circle) perimeter() -> f32 { return c.radius; }\n\
               const c1 := Circle { .radius = 1.0 };\n\
               let s: Shape = c1;";
    let out = compile(src.as_bytes());
    assert!(has_code(&out, DiagCode::TypeInterfaceUnsatisfied));
}
