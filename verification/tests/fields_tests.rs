use dcode_backend::fields::array_field;
use dcode_backend::fields::document_body;
use dcode_backend::fields::get_array;
use dcode_backend::fields::get_text;
use dcode_backend::fields::get_text_or_empty;
use dcode_backend::fields::text_field;

#[test]
fn one_string_field_document() {
    let fs = vec![text_field("id", "x")];
    assert_eq!(document_body(&fs), "{\"fields\":{\"id\":{\"stringValue\":\"x\"}}}");
}

#[test]
fn two_fields_are_comma_separated() {
    let fs = vec![text_field("name", "a"), text_field("content", "b")];
    assert_eq!(
        document_body(&fs),
        "{\"fields\":{\"name\":{\"stringValue\":\"a\"},\"content\":{\"stringValue\":\"b\"}}}"
    );
}

#[test]
fn array_field_document() {
    let fs = vec![array_field("members", vec!["m1".to_string(), "m2".to_string()])];
    assert_eq!(
        document_body(&fs),
        "{\"fields\":{\"members\":{\"arrayValue\":{\"values\":[{\"stringValue\":\"m1\"},{\"stringValue\":\"m2\"}]}}}}"
    );
}

#[test]
fn empty_array_field_document() {
    let fs = vec![array_field("projects", Vec::new())];
    assert_eq!(
        document_body(&fs),
        "{\"fields\":{\"projects\":{\"arrayValue\":{\"values\":[]}}}}"
    );
}

#[test]
fn empty_document() {
    let fs = Vec::new();
    assert_eq!(document_body(&fs), "{\"fields\":{}}");
}

#[test]
fn document_body_is_valid_json() {
    let fs = vec![
        text_field("name", "quo\"te"),
        array_field("files", vec!["f1".to_string()]),
    ];
    let parsed: serde_json::Value = serde_json::from_str(&document_body(&fs)).unwrap();
    assert_eq!(parsed["fields"]["name"]["stringValue"], "quo\"te");
    assert_eq!(parsed["fields"]["files"]["arrayValue"]["values"][0]["stringValue"], "f1");
}

#[test]
fn lookups_find_fields_by_name() {
    let fs = vec![
        text_field("name", "a"),
        array_field("members", vec!["m".to_string()]),
    ];
    assert_eq!(get_text(&fs, "name").unwrap(), "a");
    assert!(get_text(&fs, "missing").is_none());
    assert_eq!(get_array(&fs, "members").unwrap(), &vec!["m".to_string()]);
    assert!(get_array(&fs, "name").is_none());
    assert!(get_text(&fs, "members").is_none());
}

#[test]
fn lookup_takes_the_first_match() {
    let fs = vec![text_field("name", "first"), text_field("name", "second")];
    assert_eq!(get_text(&fs, "name").unwrap(), "first");
}

#[test]
fn missing_text_defaults_to_empty() {
    let fs = vec![text_field("name", "a")];
    assert_eq!(get_text_or_empty(&fs, "content"), "");
    assert_eq!(get_text_or_empty(&fs, "name"), "a");
}
