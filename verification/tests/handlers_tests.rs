use dcode_backend::fields::text_field;
use dcode_backend::files::CreateFileEvent;
use dcode_backend::files::CreateFileRequest;
use dcode_backend::files::DeleteFileEvent;
use dcode_backend::files::create_file_plan;
use dcode_backend::files::create_file_response;
use dcode_backend::files::delete_file_response;
use dcode_backend::files::delete_status_ok;
use dcode_backend::files::file_type_of;
use dcode_backend::ids::is_uuid_text;
use dcode_backend::login::AuthPayload;
use dcode_backend::login::LoginPayload;
use dcode_backend::login::evaluate_login;
use dcode_backend::login::register_plan;
use dcode_backend::project::CreateProjectRequest;
use dcode_backend::project::create_project_plan;
use dcode_backend::project::create_project_response;
use dcode_backend::project::delete_project_response;
use dcode_backend::project::delete_project_urls;
use dcode_backend::project::update_project_response;
use dcode_backend::project::with_added_file;
use dcode_backend::responses::error_body;
use dcode_backend::responses::message_body;
use dcode_backend::review::empty_review_response;
use dcode_backend::review::fallback_compile_response;
use dcode_backend::status::is_success_status;
use dcode_backend::store::QueryRow;
use dcode_backend::store::StoreDoc;
use dcode_backend::user::CreateUserEvent;
use dcode_backend::user::check_password;
use dcode_backend::user::create_user_response;
use dcode_backend::user::login_denied_response;
use dcode_backend::user::login_granted_response;

#[test]
fn status_classification() {
    assert!(is_success_status(200));
    assert!(is_success_status(204));
    assert!(is_success_status(299));
    assert!(!is_success_status(199));
    assert!(!is_success_status(300));
    assert!(!is_success_status(404));
    assert!(delete_status_ok(200));
    assert!(delete_status_ok(204));
    assert!(!delete_status_ok(500));
}

#[test]
fn file_types_from_extensions() {
    assert_eq!(file_type_of("main.rs"), "Rust");
    assert_eq!(file_type_of("app.py"), "Python");
    assert_eq!(file_type_of("a.c"), "C");
    assert_eq!(file_type_of("a.cpp"), "C++");
    assert_eq!(file_type_of("a.js"), "JavaScript");
    assert_eq!(file_type_of("a.ts"), "TypeScript");
    assert_eq!(file_type_of("index.html"), "HTML");
    assert_eq!(file_type_of("style.css"), "CSS");
    assert_eq!(file_type_of("archive.tar.gz"), "gz");
    assert_eq!(file_type_of("README"), "README");
    assert_eq!(file_type_of("trailing."), "");
    assert_eq!(file_type_of(".css"), "CSS");
}

#[test]
fn response_bodies() {
    assert_eq!(error_body("File not found"), "{\"error\":\"File not found\"}");
    assert_eq!(message_body("File deleted"), "{\"message\":\"File deleted\"}");
}

fn rows_with_password(pw: &str) -> Vec<QueryRow> {
    vec![QueryRow {
        document: Some(StoreDoc { fields: Some(vec![text_field("password", pw)]) }),
    }]
}

#[test]
fn login_fails_on_store_error() {
    let payload = LoginPayload { username: "bob".to_string(), password: "pw".to_string() };
    assert_eq!(evaluate_login(500, &rows_with_password("pw"), &payload), Err(500));
}

#[test]
fn login_misses_unknown_users() {
    let payload = LoginPayload { username: "bob".to_string(), password: "pw".to_string() };
    assert_eq!(evaluate_login(200, &Vec::new(), &payload), Err(404));
    let empty_row = vec![QueryRow { document: None }];
    assert_eq!(evaluate_login(200, &empty_row, &payload), Err(404));
}

#[test]
fn login_rejects_documents_without_fields() {
    let payload = LoginPayload { username: "bob".to_string(), password: "pw".to_string() };
    let rows = vec![QueryRow { document: Some(StoreDoc { fields: None }) }];
    assert_eq!(evaluate_login(200, &rows, &payload), Err(500));
}

#[test]
fn login_rejects_wrong_passwords() {
    let payload = LoginPayload { username: "bob".to_string(), password: "pw".to_string() };
    assert_eq!(evaluate_login(200, &rows_with_password("other"), &payload), Err(401));
}

#[test]
fn login_greets_on_success() {
    let payload = LoginPayload { username: "bob".to_string(), password: "pw".to_string() };
    let r = evaluate_login(200, &rows_with_password("pw"), &payload).unwrap();
    assert_eq!(r.message, "\u{2705} Login successful: bob");
}

#[test]
fn missing_stored_password_counts_as_empty_for_login() {
    let payload = LoginPayload { username: "bob".to_string(), password: "".to_string() };
    let rows = vec![QueryRow {
        document: Some(StoreDoc { fields: Some(vec![text_field("username", "bob")]) }),
    }];
    assert!(evaluate_login(200, &rows, &payload).is_ok());
}

#[test]
fn password_check_needs_an_exact_match() {
    let doc = Some(StoreDoc { fields: Some(vec![text_field("password", "pw")]) });
    assert!(check_password(&doc, "pw"));
    assert!(!check_password(&doc, "other"));
    assert!(!check_password(&None, "pw"));
    let no_fields = Some(StoreDoc { fields: None });
    assert!(!check_password(&no_fields, "pw"));
    let no_password = Some(StoreDoc { fields: Some(vec![text_field("username", "bob")]) });
    assert!(!check_password(&no_password, ""));
}

#[test]
fn register_plan_prepares_the_users_document() {
    let payload = AuthPayload {
        email: "ada@example.com".to_string(),
        password: "secret".to_string(),
        display_name: "Ada".to_string(),
        username: "ada".to_string(),
    };
    let plan = register_plan("demo-project", &payload);
    assert!(is_uuid_text(&plan.user.details.id));
    assert_eq!(plan.user.cred.id, plan.user.details.id);
    assert_eq!(plan.message, "User registered: ada@example.com");
    assert_eq!(
        plan.url,
        format!(
            "https://firestore.googleapis.com/v1/projects/demo-project/databases/(default)/documents/users?documentId={}",
            plan.user.details.id
        )
    );
    let body: serde_json::Value = serde_json::from_str(&plan.body).unwrap();
    assert_eq!(body["fields"]["username"]["stringValue"], "ada");
    assert_eq!(body["fields"]["password"]["stringValue"], "secret");
    assert!(body["fields"]["projects"]["arrayValue"]["values"].as_array().unwrap().is_empty());
}

#[test]
fn create_user_responses() {
    let (s, r) = create_user_response(&CreateUserEvent::EmailTaken);
    assert_eq!(s, 400);
    assert_eq!(r.message, "User with this email already exists");
    assert!(r.user_id.is_none());
    let (s, r) = create_user_response(&CreateUserEvent::Created("u-1".to_string()));
    assert_eq!(s, 201);
    assert_eq!(r.message, "User created successfully");
    assert_eq!(r.user_id.as_deref(), Some("u-1"));
    let (s, r) = create_user_response(&CreateUserEvent::Failed("boom".to_string()));
    assert_eq!(s, 500);
    assert_eq!(r.message, "boom");
    assert!(r.user_id.is_none());
}

#[test]
fn granted_login_carries_the_profile() {
    let doc = Some(StoreDoc {
        fields: Some(vec![
            text_field("id", "11111111-2222-3333-4444-555555555555"),
            text_field("username", "ada"),
        ]),
    });
    let r = login_granted_response(&doc);
    assert!(r.authenticated);
    let d = r.user_details.unwrap();
    assert_eq!(d.id, "11111111-2222-3333-4444-555555555555");
    assert_eq!(d.username, "ada");
    assert_eq!(d.email, "");
    let none = login_granted_response(&None);
    assert!(none.authenticated);
    assert!(none.user_details.is_none());
    let (s, denied) = login_denied_response();
    assert_eq!(s, 401);
    assert!(!denied.authenticated);
    assert!(denied.user_details.is_none());
}

#[test]
fn create_file_responses() {
    let (s, r) = create_file_response(&CreateFileEvent::NameTaken);
    assert_eq!(s, 400);
    assert_eq!(r.message, "File with this name already exists");
    assert!(r.file_id.is_none());
    let (s, r) = create_file_response(&CreateFileEvent::Created("f-1".to_string()));
    assert_eq!(s, 201);
    assert_eq!(r.message, "File created successfully");
    assert_eq!(r.file_id.as_deref(), Some("f-1"));
    let (s, r) = create_file_response(&CreateFileEvent::Failed("store down".to_string()));
    assert_eq!(s, 500);
    assert_eq!(r.message, "store down");
    assert!(r.file_id.is_none());
}

#[test]
fn delete_file_responses() {
    let (s, b) = delete_file_response(&DeleteFileEvent::Missing);
    assert_eq!((s, b.as_str()), (404, "{\"error\":\"File not found\"}"));
    let (s, b) = delete_file_response(&DeleteFileEvent::Deleted);
    assert_eq!((s, b.as_str()), (200, "{\"message\":\"File deleted\"}"));
    let (s, b) = delete_file_response(&DeleteFileEvent::DeleteRefused);
    assert_eq!((s, b.as_str()), (500, "{\"error\":\"Error while deleting file\"}"));
    let (s, b) = delete_file_response(&DeleteFileEvent::LookupFailed("x".to_string()));
    assert_eq!((s, b.as_str()), (500, "{\"error\":\"x\"}"));
    let (s, b) = delete_file_response(&DeleteFileEvent::DeleteFailed("y".to_string()));
    assert_eq!((s, b.as_str()), (500, "{\"error\":\"y\"}"));
}

#[test]
fn create_file_plan_builds_the_document() {
    let req = CreateFileRequest {
        name: "main.rs".to_string(),
        owner: "11111111-2222-3333-4444-555555555555".to_string(),
        project_id: "99999999-8888-7777-6666-555555555555".to_string(),
    };
    let (f, url, body) = create_file_plan("demo-project", &req);
    assert!(is_uuid_text(&f.id));
    assert_eq!(f.file_type, "Rust");
    assert_eq!(f.content, "");
    assert!(url.ends_with(&format!("/files?documentId={}", f.id)));
    let parsed: serde_json::Value = serde_json::from_str(&body).unwrap();
    assert_eq!(parsed["fields"]["id"]["stringValue"].as_str().unwrap(), f.id);
    assert_eq!(parsed["fields"]["name"]["stringValue"], "main.rs");
    assert_eq!(parsed["fields"]["file_type"]["stringValue"], "Rust");
}

#[test]
fn project_plan_and_responses() {
    let req = CreateProjectRequest {
        name: "demo".to_string(),
        description: "a demo".to_string(),
        owner: "11111111-2222-3333-4444-555555555555".to_string(),
    };
    let (p, url, body) = create_project_plan("demo-project", &req);
    assert!(is_uuid_text(&p.id));
    assert_eq!(p.members, vec![req.owner.clone()]);
    assert!(p.files.is_empty());
    assert!(url.ends_with(&format!("/projects?documentId={}", p.id)));
    let parsed: serde_json::Value = serde_json::from_str(&body).unwrap();
    assert_eq!(
        parsed["fields"]["members"]["arrayValue"]["values"][0]["stringValue"].as_str().unwrap(),
        req.owner
    );

    let ok = create_project_response(200, "", p.clone());
    assert!(ok.success);
    assert_eq!(ok.message, "Project created successfully");
    assert_eq!(ok.project, Some(p.clone()));
    let bad = create_project_response(500, "denied", p);
    assert!(!bad.success);
    assert_eq!(bad.message, "Failed to create project: denied");

    let up = update_project_response(200, "");
    assert_eq!(up.message, "Project updated successfully");
    let up_bad = update_project_response(400, "nope");
    assert_eq!(up_bad.message, "Failed to update project: nope");
    assert!(up_bad.project.is_none());

    let del = delete_project_response(200, "");
    assert_eq!(del.message, "Project deleted successfully");
    let del_bad = delete_project_response(500, "err");
    assert_eq!(del_bad.message, "Failed to delete project: err");
}

#[test]
fn deletion_removes_files_before_the_project() {
    let files = vec!["f-1".to_string(), "f-2".to_string()];
    let urls = delete_project_urls("demo-project", "p-1", &files);
    assert_eq!(urls.len(), 3);
    assert!(urls[0].ends_with("/files/f-1"));
    assert!(urls[1].ends_with("/files/f-2"));
    assert!(urls[2].ends_with("/projects/p-1"));
}

#[test]
fn added_files_append_in_order() {
    let files = vec!["f-1".to_string()];
    assert_eq!(with_added_file(&files, "f-2"), vec!["f-1".to_string(), "f-2".to_string()]);
}

#[test]
fn review_fallbacks() {
    assert!(empty_review_response().suggestions.is_empty());
    let c = fallback_compile_response();
    assert_eq!(c.stdout, "");
    assert_eq!(c.stderr, "Error parsing response");
    assert_eq!(c.exit_code, 1);
}

#[test]
fn registering_then_logging_in_succeeds() {
    let payload = AuthPayload {
        email: "ada@example.com".to_string(),
        password: "secret".to_string(),
        display_name: "Ada".to_string(),
        username: "ada".to_string(),
    };
    let plan = register_plan("demo-project", &payload);
    let stored = dcode_backend::records::registration_fields(&plan.user.details, "secret");
    let rows = vec![QueryRow { document: Some(StoreDoc { fields: Some(stored) }) }];
    let login = LoginPayload { username: "ada".to_string(), password: "secret".to_string() };
    let r = evaluate_login(200, &rows, &login).unwrap();
    assert_eq!(r.message, "\u{2705} Login successful: ada");
    let wrong = LoginPayload { username: "ada".to_string(), password: "guess".to_string() };
    assert_eq!(evaluate_login(200, &rows, &wrong), Err(401));
}

#[test]
fn content_update_plan_masks_and_carries_the_content() {
    let (url, body) = dcode_backend::files::content_update_plan("demo-project", "f-1", "new text");
    assert!(url.ends_with("/files/f-1?updateMask.fieldPaths=content"));
    let parsed: serde_json::Value = serde_json::from_str(&body).unwrap();
    assert_eq!(parsed["fields"]["content"]["stringValue"], "new text");
}

#[test]
fn metadata_and_members_update_plans() {
    let (url, body) =
        dcode_backend::project::metadata_update_plan("demo-project", "p-1", "n2", "d2");
    assert!(url.ends_with(
        "/projects/p-1?updateMask.fieldPaths=name&updateMask.fieldPaths=description"
    ));
    let parsed: serde_json::Value = serde_json::from_str(&body).unwrap();
    assert_eq!(parsed["fields"]["name"]["stringValue"], "n2");
    assert_eq!(parsed["fields"]["description"]["stringValue"], "d2");

    let members = vec!["m-1".to_string(), "m-2".to_string()];
    let (url, body) = dcode_backend::project::members_update_plan("demo-project", "p-1", &members);
    assert!(url.ends_with("/projects/p-1?updateMask.fieldPaths=members"));
    let parsed: serde_json::Value = serde_json::from_str(&body).unwrap();
    let values = parsed["fields"]["members"]["arrayValue"]["values"].as_array().unwrap();
    assert_eq!(values.len(), 2);
    assert_eq!(values[0]["stringValue"], "m-1");
    assert_eq!(values[1]["stringValue"], "m-2");
}

#[test]
fn create_user_plan_builds_both_documents() {
    let req = dcode_backend::user::CreateUserRequest {
        display_name: "Ada".to_string(),
        username: "ada".to_string(),
        email: "ada@example.com".to_string(),
        password: "secret".to_string(),
    };
    let plan = dcode_backend::user::create_user_plan("demo-project", &req);
    let id = plan.user.details.id.clone();
    assert!(is_uuid_text(&id));
    assert!(plan.creds_url.ends_with(&format!("/user_credentials?documentId={}", id)));
    assert!(plan.details_url.ends_with(&format!("/user_details?documentId={}", id)));
    assert!(plan.rollback_url.ends_with(&format!("/user_credentials/{}", id)));
    let creds: serde_json::Value = serde_json::from_str(&plan.creds_body).unwrap();
    assert_eq!(creds["fields"]["email"]["stringValue"], "ada@example.com");
    assert_eq!(creds["fields"]["password"]["stringValue"], "secret");
    let details: serde_json::Value = serde_json::from_str(&plan.details_body).unwrap();
    assert_eq!(details["fields"]["username"]["stringValue"], "ada");
    assert!(details["fields"].get("password").is_none());
}
