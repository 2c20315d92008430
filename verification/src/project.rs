//! The project endpoints' compute half: fresh project records, the
//! store calls each endpoint makes, and the responses built from the
//! store's answers.

use crate::fields::Field;
use crate::fields::array_field;
use crate::fields::document_body;
use crate::fields::document_text;
use crate::fields::text_field;
use crate::fields::text_value;
use crate::fields::views_of;
use crate::ids::fresh_uuid;
use crate::ids::is_uuid_seq;
use crate::records::Project;
use crate::records::clone_strings;
use crate::records::encodes_project;
use crate::records::project_fields;
use crate::status::spec_is_success_status;
use crate::status::is_success_status;
use crate::urls::create_document_url;
use crate::urls::create_document_url_text;
use crate::urls::document_url;
use crate::urls::document_url_text;
use crate::urls::masked_update_url;
use crate::urls::masked_update_url_text;
use vstd::prelude::*;
use vstd::string::StringExecFns;

verus! {

/// A request to create or update a project.
#[derive(Debug, Clone, PartialEq, Eq)]
pub struct CreateProjectRequest {
    pub name: String,
    pub description: String,
    pub owner: String,
}

/// The answer of every project endpoint.
#[derive(Debug, Clone, PartialEq, Eq)]
pub struct ProjectResponse {
    pub success: bool,
    pub message: String,
    pub project: Option<Project>,
}

/// A fresh project record: a new identifier, the owner as the only
/// member, no files yet.
pub fn new_project(req: &CreateProjectRequest) -> (p: Project)
    ensures
        is_uuid_seq(p.id@),
        p.name@ == req.name@,
        p.description@ == req.description@,
        p.owner@ == req.owner@,
        views_of(p.members@) == seq![req.owner@],
        views_of(p.files@) == Seq::<Seq<char>>::empty(),
{
    let mut members: Vec<String> = Vec::new();
    members.push(req.owner.clone());
    let files: Vec<String> = Vec::new();
    proof {
        assert(views_of(members@) =~= seq![req.owner@]);
        assert(views_of(files@) =~= Seq::<Seq<char>>::empty());
    }
    Project {
        id: fresh_uuid(),
        name: req.name.clone(),
        description: req.description.clone(),
        owner: req.owner.clone(),
        members,
        files,
    }
}

/// Everything the creation endpoint sends: the fresh record, the URL
/// that creates its document, and the document body.
pub fn create_project_plan(store_project: &str, req: &CreateProjectRequest) -> (r: (
    Project,
    String,
    String,
))
    ensures
        is_uuid_seq(r.0.id@),
        r.0.name@ == req.name@,
        r.0.description@ == req.description@,
        r.0.owner@ == req.owner@,
        views_of(r.0.members@) == seq![req.owner@],
        views_of(r.0.files@) == Seq::<Seq<char>>::empty(),
        r.1@ == create_document_url_text(store_project@, "projects"@, r.0.id@),
        exists|fs: Seq<Field>| #[trigger] encodes_project(fs, r.0) && r.2@ == document_text(fs),
{
    let p = new_project(req);
    let url = create_document_url(store_project, "projects", p.id.as_str());
    let fs = project_fields(&p);
    let body = document_body(&fs);
    proof {
        assert(encodes_project(fs@, p) && body@ == document_text(fs@));
    }
    (p, url, body)
}

/// The patch the update endpoint sends: the document URL and a body
/// holding the new name, description and owner.
pub fn update_project_plan(store_project: &str, project_id: &str, req: &CreateProjectRequest) -> (r:
    (String, String))
    ensures
        r.0@ == document_url_text(store_project@, "projects"@, project_id@),
        exists|fs: Seq<Field>|
            {
                &&& #[trigger] fs.len() == 3
                &&& fs[0].name@ == "name"@ && text_value(fs[0].value) == Some(req.name@)
                &&& fs[1].name@ == "description"@ && text_value(fs[1].value) == Some(
                    req.description@,
                )
                &&& fs[2].name@ == "owner"@ && text_value(fs[2].value) == Some(req.owner@)
                &&& r.1@ == document_text(fs)
            },
{
    let url = document_url(store_project, "projects", project_id);
    let mut fs: Vec<Field> = Vec::new();
    fs.push(text_field("name", req.name.as_str()));
    fs.push(text_field("description", req.description.as_str()));
    fs.push(text_field("owner", req.owner.as_str()));
    let body = document_body(&fs);
    (url, body)
}

/// The patch that renames and re-describes a project, masked to those
/// two fields.
pub fn metadata_update_plan(store_project: &str, project_id: &str, name: &str, description: &str)
    -> (r: (String, String))
    ensures
        r.0@ == masked_update_url_text(
            store_project@,
            "projects"@,
            project_id@,
            seq!["name"@, "description"@],
        ),
        exists|fs: Seq<Field>|
            {
                &&& #[trigger] fs.len() == 2
                &&& fs[0].name@ == "name"@ && text_value(fs[0].value) == Some(name@)
                &&& fs[1].name@ == "description"@ && text_value(fs[1].value) == Some(description@)
                &&& r.1@ == document_text(fs)
            },
{
    let mut mask: Vec<String> = Vec::new();
    mask.push(String::from_str("name"));
    mask.push(String::from_str("description"));
    let url = masked_update_url(store_project, "projects", project_id, &mask);
    proof {
        assert(views_of(mask@) =~= seq!["name"@, "description"@]);
    }
    let mut fs: Vec<Field> = Vec::new();
    fs.push(text_field("name", name));
    fs.push(text_field("description", description));
    let body = document_body(&fs);
    (url, body)
}

/// The patch that replaces one array field of a project, masked to
/// that field — how the member and file lists are written back.
pub fn field_update_plan(store_project: &str, project_id: &str, field: &str, values: &Vec<String>)
    -> (r: (String, String))
    ensures
        r.0@ == masked_update_url_text(store_project@, "projects"@, project_id@, seq![field@]),
        exists|fs: Seq<Field>|
            {
                &&& #[trigger] fs.len() == 1
                &&& fs[0].name@ == field@
                &&& (match crate::fields::array_views(fs[0].value) {
                    Some(vs) => vs == views_of(values@),
                    None => false,
                })
                &&& r.1@ == document_text(fs)
            },
{
    let mut mask: Vec<String> = Vec::new();
    mask.push(String::from_str(field));
    let url = masked_update_url(store_project, "projects", project_id, &mask);
    proof {
        assert(views_of(mask@) =~= seq![field@]);
    }
    let mut fs: Vec<Field> = Vec::new();
    fs.push(array_field(field, clone_strings(values)));
    let body = document_body(&fs);
    (url, body)
}

/// The patch that replaces the member list.
pub fn members_update_plan(store_project: &str, project_id: &str, members: &Vec<String>) -> (r: (
    String,
    String,
))
    ensures
        r.0@ == masked_update_url_text(store_project@, "projects"@, project_id@, seq!["members"@]),
        exists|fs: Seq<Field>|
            {
                &&& #[trigger] fs.len() == 1
                &&& fs[0].name@ == "members"@
                &&& (match crate::fields::array_views(fs[0].value) {
                    Some(vs) => vs == views_of(members@),
                    None => false,
                })
                &&& r.1@ == document_text(fs)
            },
{
    field_update_plan(store_project, project_id, "members", members)
}

/// A file list with one more file at its end — how a created file is
/// recorded on its project.
pub fn with_added_file(files: &Vec<String>, file_id: &str) -> (r: Vec<String>)
    ensures
        views_of(r@) == views_of(files@).push(file_id@),
{
    let mut r = clone_strings(files);
    let ghost before = views_of(r@);
    r.push(String::from_str(file_id));
    proof {
        assert(views_of(r@) =~= before.push(file_id@));
    }
    r
}

/// The deletions that remove a project: every file's document first,
/// in order, then the project's own document.
pub fn delete_project_urls(store_project: &str, project_id: &str, file_ids: &Vec<String>) -> (r:
    Vec<String>)
    ensures
        r@.len() == file_ids@.len() + 1,
        forall|i: int|
            0 <= i < file_ids@.len() ==> #[trigger] r@[i]@ == document_url_text(
                store_project@,
                "files"@,
                file_ids@[i]@,
            ),
        r@.last()@ == document_url_text(store_project@, "projects"@, project_id@),
{
    let mut r: Vec<String> = Vec::new();
    for i in 0..file_ids.len()
        invariant
            r@.len() == i,
            forall|k: int|
                0 <= k < i ==> #[trigger] r@[k]@ == document_url_text(
                    store_project@,
                    "files"@,
                    file_ids@[k]@,
                ),
    {
        r.push(document_url(store_project, "files", file_ids[i].as_str()));
    }
    r.push(document_url(store_project, "projects", project_id));
    r
}

/// The creation endpoint's answer: the record always comes back, and
/// the message reports the store's verdict.
pub fn create_project_response(status: u16, store_body: &str, p: Project) -> (r: ProjectResponse)
    ensures
        r.success == spec_is_success_status(status),
        spec_is_success_status(status) ==> r.message@ == "Project created successfully"@,
        !spec_is_success_status(status) ==> r.message@ == "Failed to create project: "@
            + store_body@,
        r.project == Some(p),
{
    if is_success_status(status) {
        ProjectResponse {
            success: true,
            message: String::from_str("Project created successfully"),
            project: Some(p),
        }
    } else {
        let mut m = String::from_str("Failed to create project: ");
        m.append(store_body);
        ProjectResponse { success: false, message: m, project: Some(p) }
    }
}

/// The fetch endpoint's answer when the store returned a document that
/// decoded to a record.
pub fn project_retrieved_response(p: Project) -> (r: ProjectResponse)
    ensures
        r.success,
        r.message@ == "Project retrieved successfully"@,
        r.project == Some(p),
{
    ProjectResponse {
        success: true,
        message: String::from_str("Project retrieved successfully"),
        project: Some(p),
    }
}

/// The fetch endpoint's answer when the store refused.
pub fn project_fetch_failed_response(store_body: &str) -> (r: ProjectResponse)
    ensures
        !r.success,
        r.message@ == "Failed to fetch project: "@ + store_body@,
        r.project is None,
{
    let mut m = String::from_str("Failed to fetch project: ");
    m.append(store_body);
    ProjectResponse { success: false, message: m, project: None }
}

/// The update endpoint's answer for a store status.
pub fn update_project_response(status: u16, store_body: &str) -> (r: ProjectResponse)
    ensures
        r.success == spec_is_success_status(status),
        spec_is_success_status(status) ==> r.message@ == "Project updated successfully"@,
        !spec_is_success_status(status) ==> r.message@ == "Failed to update project: "@
            + store_body@,
        r.project is None,
{
    if is_success_status(status) {
        ProjectResponse {
            success: true,
            message: String::from_str("Project updated successfully"),
            project: None,
        }
    } else {
        let mut m = String::from_str("Failed to update project: ");
        m.append(store_body);
        ProjectResponse { success: false, message: m, project: None }
    }
}

/// The deletion endpoint's answer for a store status.
pub fn delete_project_response(status: u16, store_body: &str) -> (r: ProjectResponse)
    ensures
        r.success == spec_is_success_status(status),
        spec_is_success_status(status) ==> r.message@ == "Project deleted successfully"@,
        !spec_is_success_status(status) ==> r.message@ == "Failed to delete project: "@
            + store_body@,
        r.project is None,
{
    if is_success_status(status) {
        ProjectResponse {
            success: true,
            message: String::from_str("Project deleted successfully"),
            project: None,
        }
    } else {
        let mut m = String::from_str("Failed to delete project: ");
        m.append(store_body);
        ProjectResponse { success: false, message: m, project: None }
    }
}

} // verus!
