use dcode_backend::fields::get_text;
use dcode_backend::fields::text_field;
use dcode_backend::records::File;
use dcode_backend::records::Project;
use dcode_backend::records::UserCred;
use dcode_backend::records::UserDetails;
use dcode_backend::records::credentials_fields;
use dcode_backend::records::file_fields;
use dcode_backend::records::file_of_fields;
use dcode_backend::records::filter_uuids;
use dcode_backend::records::project_fields;
use dcode_backend::records::project_of_fields;
use dcode_backend::records::registration_fields;
use dcode_backend::records::user_details_fields;
use dcode_backend::records::user_details_of_fields;

const ID_A: &str = "11111111-2222-3333-4444-555555555555";
const ID_B: &str = "aaaaaaaa-bbbb-cccc-dddd-eeeeeeeeeeee";
const ID_C: &str = "99999999-8888-7777-6666-555555555555";

fn sample_file() -> File {
    File {
        id: ID_A.to_string(),
        name: "main.rs".to_string(),
        content: "fn main() {}".to_string(),
        file_type: "Rust".to_string(),
        owner: ID_B.to_string(),
        project_id: ID_C.to_string(),
    }
}

#[test]
fn file_round_trip() {
    let f = sample_file();
    let fs = file_fields(&f);
    assert_eq!(file_of_fields(&fs), Some(f));
}

#[test]
fn file_with_bad_identifier_is_rejected() {
    let f = File { id: "not-an-id".to_string(), ..sample_file() };
    let fs = file_fields(&f);
    assert_eq!(file_of_fields(&fs), None);
}

#[test]
fn file_strings_default_to_empty() {
    let fs = vec![
        text_field("id", ID_A),
        text_field("owner", ID_B),
        text_field("project_id", ID_C),
    ];
    let f = file_of_fields(&fs).unwrap();
    assert_eq!(f.name, "");
    assert_eq!(f.content, "");
    assert_eq!(f.file_type, "");
}

fn sample_project() -> Project {
    Project {
        id: ID_A.to_string(),
        name: "demo".to_string(),
        description: "a demo".to_string(),
        owner: ID_B.to_string(),
        members: vec![ID_B.to_string(), ID_C.to_string()],
        files: vec![ID_C.to_string()],
    }
}

#[test]
fn project_round_trip() {
    let p = sample_project();
    let fs = project_fields(&p);
    assert_eq!(project_of_fields(ID_A, &fs), Some(p));
}

#[test]
fn project_decode_drops_malformed_member_entries() {
    let mut p = sample_project();
    p.members.push("broken".to_string());
    let fs = project_fields(&p);
    let decoded = project_of_fields(ID_A, &fs).unwrap();
    assert_eq!(decoded.members, vec![ID_B.to_string(), ID_C.to_string()]);
}

#[test]
fn project_decode_requires_name() {
    let p = sample_project();
    let mut fs = project_fields(&p);
    fs.remove(1);
    assert!(get_text(&fs, "name").is_none());
    assert_eq!(project_of_fields(ID_A, &fs), None);
}

#[test]
fn project_decode_requires_a_canonical_owner() {
    let mut p = sample_project();
    p.owner = "nobody".to_string();
    let fs = project_fields(&p);
    assert_eq!(project_of_fields(ID_A, &fs), None);
}

#[test]
fn filter_keeps_only_canonical_identifiers() {
    let vs = vec![
        ID_A.to_string(),
        "junk".to_string(),
        ID_B.to_string(),
        "".to_string(),
    ];
    assert_eq!(filter_uuids(&vs), vec![ID_A.to_string(), ID_B.to_string()]);
}

fn sample_details() -> UserDetails {
    UserDetails {
        id: ID_A.to_string(),
        display_name: "Ada".to_string(),
        username: "ada".to_string(),
        email: "ada@example.com".to_string(),
        projects: vec![ID_B.to_string()],
    }
}

#[test]
fn user_details_round_trip() {
    let d = sample_details();
    let fs = user_details_fields(&d);
    assert_eq!(user_details_of_fields(&fs), d);
}

#[test]
fn user_details_fall_back_on_missing_fields() {
    let fs = Vec::new();
    let d = user_details_of_fields(&fs);
    assert_eq!(d.id, "00000000-0000-0000-0000-000000000000");
    assert_eq!(d.display_name, "");
    assert_eq!(d.username, "");
    assert_eq!(d.email, "");
    assert!(d.projects.is_empty());
}

#[test]
fn user_details_fall_back_on_malformed_identifier() {
    let mut d = sample_details();
    d.id = "zzz".to_string();
    d.projects = vec!["bad".to_string(), ID_C.to_string()];
    let fs = user_details_fields(&d);
    let decoded = user_details_of_fields(&fs);
    assert_eq!(decoded.id, "00000000-0000-0000-0000-000000000000");
    assert_eq!(decoded.projects, vec![ID_C.to_string()]);
}

#[test]
fn registration_stores_the_password() {
    let d = sample_details();
    let fs = registration_fields(&d, "secret");
    assert_eq!(get_text(&fs, "password").unwrap(), "secret");
    assert_eq!(get_text(&fs, "username").unwrap(), "ada");
    assert_eq!(get_text(&fs, "email").unwrap(), "ada@example.com");
}

#[test]
fn credentials_store_id_email_and_password() {
    let cred = UserCred { id: ID_A.to_string(), password: "pw".to_string() };
    let fs = credentials_fields(&cred, "ada@example.com");
    assert_eq!(get_text(&fs, "id").unwrap(), ID_A);
    assert_eq!(get_text(&fs, "email").unwrap(), "ada@example.com");
    assert_eq!(get_text(&fs, "password").unwrap(), "pw");
}
