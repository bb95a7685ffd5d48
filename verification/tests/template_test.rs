use cv_writer_mcp::json::JsonValue;
use cv_writer_mcp::template::{escape_latex_str, latex_escape_value};

#[test]
fn test_escape_latex() {
    assert_eq!(
        escape_latex_str("C++ & C# 100% $500_000 {cool} ^ ~ \\"),
        "C++ \\& C\\# 100\\% \\$500\\_000 \\{cool\\} \\textasciicircum{} \\textasciitilde{} \\textbackslash{}"
    );
}

#[test]
fn escape_leaves_plain_text_alone() {
    assert_eq!(escape_latex_str("Jane Doe, Rust engineer (2020 -- 2024)."), "Jane Doe, Rust engineer (2020 -- 2024).");
    assert_eq!(escape_latex_str(""), "");
    assert_eq!(escape_latex_str("Zoë — naïve"), "Zoë — naïve");
}

#[test]
fn escape_of_joined_texts_is_joined_escapes() {
    let a = "50% & ";
    let b = "#1_{x}";
    let joined = format!("{}{}", a, b);
    assert_eq!(escape_latex_str(&joined), format!("{}{}", escape_latex_str(a), escape_latex_str(b)));
}

#[test]
fn escaped_text_has_no_active_specials() {
    let out = escape_latex_str("&&%%$$##__~~^^\\\\{}");
    let chars: Vec<char> = out.chars().collect();
    for (i, c) in chars.iter().enumerate() {
        assert!(*c != '~' && *c != '^');
        if matches!(c, '&' | '%' | '$' | '#' | '_') {
            assert!(i > 0 && chars[i - 1] == '\\');
        }
    }
}

#[test]
fn escape_filter_on_values() {
    assert_eq!(
        latex_escape_value(&JsonValue::Str("John & Jane Doe #1".to_string())),
        JsonValue::Str("John \\& Jane Doe \\#1".to_string())
    );
    assert_eq!(
        latex_escape_value(&JsonValue::Array(vec![
            JsonValue::Str("100%".to_string()),
            JsonValue::Number("7".to_string()),
            JsonValue::Array(vec![JsonValue::Str("a_b".to_string())]),
        ])),
        JsonValue::Array(vec![
            JsonValue::Str("100\\%".to_string()),
            JsonValue::Number("7".to_string()),
            JsonValue::Array(vec![JsonValue::Str("a_b".to_string())]),
        ])
    );
    let obj = JsonValue::Object(vec![("k".to_string(), JsonValue::Str("$".to_string()))]);
    assert_eq!(latex_escape_value(&obj), obj);
    assert_eq!(latex_escape_value(&JsonValue::Null), JsonValue::Null);
    assert_eq!(latex_escape_value(&JsonValue::Bool(true)), JsonValue::Bool(true));
}

#[test]
fn escaped_braces_and_backslashes_are_commands_or_empty_groups() {
    let out: Vec<char> = escape_latex_str("{a} \\ ~^ }{").chars().collect();
    for (i, c) in out.iter().enumerate() {
        let escaped = i > 0 && out[i - 1] == '\\';
        if *c == '\\' {
            assert!(i + 1 < out.len());
            assert!(matches!(out[i + 1], '&' | '%' | '$' | '#' | '_' | '{' | '}' | 't'));
        }
        if *c == '{' && !escaped {
            assert_eq!(out[i + 1], '}');
        }
        if *c == '}' && !escaped {
            assert_eq!(out[i - 1], '{');
        }
    }
}

#[test]
fn different_texts_escape_differently() {
    let texts = ["", "~", "^", "\\", "{}", "\\{", "textasciitilde{}", "\\textasciitilde{}", "&", "\\&"];
    for a in texts.iter() {
        for b in texts.iter() {
            assert_eq!(escape_latex_str(a) == escape_latex_str(b), a == b);
        }
    }
}
