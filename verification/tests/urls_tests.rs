use dcode_backend::query::equality_query_body;
use dcode_backend::urls::collection_url;
use dcode_backend::urls::create_document_url;
use dcode_backend::urls::document_url;
use dcode_backend::urls::masked_update_url;
use dcode_backend::urls::run_query_url;

const ROOT: &str = "https://firestore.googleapis.com/v1/projects/demo-project/databases/(default)/documents";

#[test]
fn collection_and_document_urls() {
    assert_eq!(collection_url("demo-project", "projects"), format!("{}/projects", ROOT));
    assert_eq!(
        document_url("demo-project", "files", "f-1"),
        format!("{}/files/f-1", ROOT)
    );
}

#[test]
fn creation_url_picks_the_document_id() {
    assert_eq!(
        create_document_url("demo-project", "users", "u-1"),
        format!("{}/users?documentId=u-1", ROOT)
    );
}

#[test]
fn query_url() {
    assert_eq!(run_query_url("demo-project"), format!("{}:runQuery", ROOT));
}

#[test]
fn masked_update_urls() {
    assert_eq!(
        masked_update_url("demo-project", "files", "f-1", &vec!["content".to_string()]),
        format!("{}/files/f-1?updateMask.fieldPaths=content", ROOT)
    );
    assert_eq!(
        masked_update_url(
            "demo-project",
            "projects",
            "p-1",
            &vec!["name".to_string(), "description".to_string()]
        ),
        format!(
            "{}/projects/p-1?updateMask.fieldPaths=name&updateMask.fieldPaths=description",
            ROOT
        )
    );
}

#[test]
fn equality_query_exact_text() {
    assert_eq!(
        equality_query_body("files", "name", "main.rs"),
        "{\"structuredQuery\":{\"from\":[{\"collectionId\":\"files\"}],\"where\":{\"fieldFilter\":{\"field\":{\"fieldPath\":\"name\"},\"op\":\"EQUAL\",\"value\":{\"stringValue\":\"main.rs\"}}},\"limit\":1}}"
    );
}

#[test]
fn equality_query_is_valid_json() {
    let body = equality_query_body("users", "username", "a \"b\"");
    let parsed: serde_json::Value = serde_json::from_str(&body).unwrap();
    let q = &parsed["structuredQuery"];
    assert_eq!(q["from"][0]["collectionId"], "users");
    assert_eq!(q["where"]["fieldFilter"]["field"]["fieldPath"], "username");
    assert_eq!(q["where"]["fieldFilter"]["op"], "EQUAL");
    assert_eq!(q["where"]["fieldFilter"]["value"]["stringValue"], "a \"b\"");
    assert_eq!(q["limit"], 1);
}
