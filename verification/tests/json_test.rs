use cv_writer_mcp::decimal::decimal_text;
use cv_writer_mcp::json::JsonValue;

fn s(t: &str) -> JsonValue {
    JsonValue::Str(t.to_string())
}

#[test]
fn get_finds_first_member() {
    let v = JsonValue::Object(vec![
        ("name".to_string(), s("render_cv")),
        ("arguments".to_string(), JsonValue::Object(vec![])),
        ("name".to_string(), s("other")),
    ]);
    assert_eq!(v.get("name"), Some(&s("render_cv")));
    assert_eq!(v.get("arguments"), Some(&JsonValue::Object(vec![])));
    assert_eq!(v.get("missing"), None);
}

#[test]
fn get_on_non_object_is_none() {
    assert_eq!(s("name").get("name"), None);
    assert_eq!(JsonValue::Array(vec![s("name")]).get("name"), None);
    assert_eq!(JsonValue::Null.get("name"), None);
}

#[test]
fn as_str_only_for_strings() {
    assert_eq!(s("x").as_str(), Some("x"));
    assert_eq!(JsonValue::Number("1".to_string()).as_str(), None);
    assert_eq!(JsonValue::Bool(false).as_str(), None);
}

#[test]
fn deep_clone_copies_nested_values() {
    let v = JsonValue::Object(vec![
        ("a".to_string(), JsonValue::Array(vec![s("x"), JsonValue::Null, JsonValue::Bool(true)])),
        ("b".to_string(), JsonValue::Object(vec![("c".to_string(), JsonValue::Number("-1.5e3".to_string()))])),
    ]);
    assert_eq!(v.deep_clone(), v);
}

#[test]
fn decimal_text_values() {
    assert_eq!(decimal_text(0), "0");
    assert_eq!(decimal_text(7), "7");
    assert_eq!(decimal_text(10), "10");
    assert_eq!(decimal_text(4096), "4096");
    assert_eq!(decimal_text(u64::MAX), u64::MAX.to_string());
}
