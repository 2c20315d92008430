use dcode_backend::json::quoted_string;

#[test]
fn quotes_plain_text() {
    assert_eq!(quoted_string("abc"), "\"abc\"");
    assert_eq!(quoted_string(""), "\"\"");
}

#[test]
fn escapes_quotes_and_backslashes() {
    assert_eq!(quoted_string("a\"b\\c"), "\"a\\\"b\\\\c\"");
}

#[test]
fn escapes_named_control_characters() {
    assert_eq!(quoted_string("\n\t\r\u{8}\u{c}"), "\"\\n\\t\\r\\b\\f\"");
}

#[test]
fn escapes_other_control_characters_as_hex() {
    assert_eq!(quoted_string("\u{1}"), "\"\\u0001\"");
    assert_eq!(quoted_string("\u{1f}"), "\"\\u001f\"");
    assert_eq!(quoted_string("\u{0}"), "\"\\u0000\"");
}

#[test]
fn passes_unicode_through() {
    assert_eq!(quoted_string("h\u{e9}llo \u{2705}"), "\"h\u{e9}llo \u{2705}\"");
}

#[test]
fn agrees_with_reference_serializer() {
    let samples = [
        "plain",
        "with \"quotes\" and \\slashes\\",
        "line\nbreaks\tand\rcontrols \u{1}\u{1f}",
        "unicode caf\u{e9} \u{2705}",
        "",
    ];
    for s in samples {
        let reference = serde_json::to_string(&serde_json::Value::String(s.to_string())).unwrap();
        assert_eq!(quoted_string(s), reference);
    }
}
