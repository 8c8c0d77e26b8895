use oci_client_js::errors::{can_read_debug, ErrorCause};
use oci_client_js::json::{debug_to_json, is_float_syntax, parse_primitive, JsonValue};

fn text(v: &JsonValue) -> String {
    match v {
        JsonValue::String(s) => s.clone(),
        other => panic!("expected a string, got {:?}", other),
    }
}

fn number(v: &JsonValue) -> String {
    match v {
        JsonValue::Number(s) => s.clone(),
        other => panic!("expected a number, got {:?}", other),
    }
}

fn entries(v: &JsonValue) -> Vec<(String, String)> {
    match v {
        JsonValue::Object(es) => es
            .iter()
            .map(|(k, v)| {
                let shown = match v {
                    JsonValue::Number(n) => format!("num:{}", n),
                    JsonValue::Bool(b) => format!("bool:{}", b),
                    JsonValue::String(s) => format!("str:{}", s),
                    other => format!("{:?}", other),
                };
                (k.clone(), shown)
            })
            .collect(),
        other => panic!("expected an object, got {:?}", other),
    }
}

fn pairs(items: &[(&str, &str)]) -> Vec<(String, String)> {
    items.iter().map(|(k, v)| (k.to_string(), v.to_string())).collect()
}

#[test]
fn named_struct_fields() {
    let (name, value) =
        debug_to_json("Os { code: 2, kind: NotFound, message: \"No such file or directory\" }");
    assert_eq!(name, "Os");
    assert_eq!(
        entries(&value),
        pairs(&[
            ("code", "num:2"),
            ("kind", "str:NotFound"),
            ("message", "str:No such file or directory"),
        ])
    );
}

#[test]
fn named_struct_keeps_nested_values_whole() {
    let (name, value) = debug_to_json("Error { inner: Foo(1, 2), list: [1, 2], flag: true }");
    assert_eq!(name, "Error");
    assert_eq!(
        entries(&value),
        pairs(&[("inner", "str:Foo(1, 2)"), ("list", "str:[1, 2]"), ("flag", "bool:true")])
    );
}

#[test]
fn repeated_field_keeps_last_value_in_first_place() {
    let (_, value) = debug_to_json("S { a: 1, b: x, a: 2 }");
    assert_eq!(entries(&value), pairs(&[("a", "num:2"), ("b", "str:x")]));
}

#[test]
fn tuple_struct_arguments() {
    let (name, value) = debug_to_json("  Some(42, \"hi\", false)  ");
    assert_eq!(name, "Some");
    match value {
        JsonValue::Object(es) => {
            assert_eq!(es.len(), 1);
            assert_eq!(es[0].0, "args");
            match &es[0].1 {
                JsonValue::Array(a) => {
                    assert_eq!(a.len(), 3);
                    assert_eq!(number(&a[0]), "42");
                    assert_eq!(text(&a[1]), "hi");
                    assert!(matches!(a[2], JsonValue::Bool(false)));
                }
                other => panic!("expected an array, got {:?}", other),
            }
        }
        other => panic!("expected an object, got {:?}", other),
    }
}

#[test]
fn brace_before_paren_is_named() {
    let (name, value) = debug_to_json("Wrap { inner: Some(3) }");
    assert_eq!(name, "Wrap");
    assert_eq!(entries(&value), pairs(&[("inner", "str:Some(3)")]));
}

#[test]
fn unit_variant_is_a_primitive() {
    let (name, value) = debug_to_json("NotFound");
    assert_eq!(name, "NotFound");
    assert_eq!(text(&value), "NotFound");
}

#[test]
fn text_without_type_name_is_named_error() {
    let (name, value) = debug_to_json("\"quoted message\"");
    assert_eq!(name, "Error");
    assert_eq!(text(&value), "quoted message");
}

#[test]
fn leading_type_name_stops_at_other_characters() {
    let (name, value) = debug_to_json("1.5e3");
    assert_eq!(name, "1");
    assert_eq!(number(&value), "1.5e3");
    let (name, _) = debug_to_json("reqwest::Error { kind: Request }");
    assert_eq!(name, "reqwest::Error");
}

#[test]
fn named_without_closing_brace_is_a_primitive() {
    let (name, value) = debug_to_json("Half { a: 1");
    assert_eq!(name, "Half");
    assert_eq!(text(&value), "Half { a: 1");
}

#[test]
fn misplaced_delimiters_are_refused() {
    assert!(!can_read_debug("A}{"));
    assert!(!can_read_debug("A)("));
    assert!(can_read_debug("A{}"));
    assert!(can_read_debug("A()"));
    assert!(can_read_debug("plain"));
}

#[test]
fn empty_body_gives_no_fields() {
    let (_, value) = debug_to_json("Unit {}");
    assert_eq!(entries(&value), Vec::<(String, String)>::new());
}

#[test]
fn primitives() {
    assert_eq!(number(&parse_primitive("  \"3.14\" ")), "3.14");
    assert_eq!(number(&parse_primitive("inf")), "inf");
    assert_eq!(number(&parse_primitive("-NaN")), "-NaN");
    assert_eq!(number(&parse_primitive("5.")), "5.");
    assert_eq!(number(&parse_primitive(".5")), ".5");
    assert_eq!(number(&parse_primitive("+1E-7")), "+1E-7");
    assert_eq!(text(&parse_primitive(".")), ".");
    assert_eq!(text(&parse_primitive("1e")), "1e");
    assert_eq!(text(&parse_primitive("True")), "True");
    assert_eq!(text(&parse_primitive("")), "");
    assert!(matches!(parse_primitive("false"), JsonValue::Bool(false)));
    assert!(matches!(parse_primitive("\"true\""), JsonValue::Bool(true)));
}

#[test]
fn float_syntax_agrees_with_std() {
    let samples = [
        "0", "1", "-1", "+1", "1.", ".1", ".", "-.", "1.5", "1e5", "1E5", "1e+5", "1e-5", "1e",
        "e1", "1.5e", "1.5e3.2", "1..2", "inf", "INF", "Infinity", "infinit", "-inf", "+nan",
        "NaN", "nan1", "", " 1", "1 ", "0x10", "1_000", "١", "12abc", "++1", "-", "+", "1e--5",
        "9999999999999999999999", "1e400", "infinityx", "iNfInItY",
    ];
    for s in samples {
        let chars: Vec<char> = s.chars().collect();
        assert_eq!(is_float_syntax(&chars), s.parse::<f64>().is_ok(), "sample {:?}", s);
    }
}

#[test]
fn error_cause_describes_one_link() {
    let cause = ErrorCause::describe(
        "No such file or directory (os error 2)".to_string(),
        "Os { code: 2, kind: NotFound, message: \"No such file or directory\" }".to_string(),
    );
    assert_eq!(cause.type_, "Os");
    assert_eq!(cause.message, "No such file or directory (os error 2)");
    assert!(cause.debug.starts_with("Os {"));
    assert!(cause.cause.is_none());
    let parsed = cause.parsed.expect("parsed value");
    assert_eq!(entries(&parsed)[0], ("code".to_string(), "num:2".to_string()));
}
