//! The file endpoints' compute half: classifying a file by its name's
//! extension, planning the store calls, and mapping store outcomes to
//! responses.

use crate::fields::Field;
use crate::fields::document_text;
use crate::fields::text_field;
use crate::fields::text_value;
use crate::fields::views_of;
use crate::ids::fresh_uuid;
use crate::ids::is_uuid_seq;
use crate::query::equality_query_body;
use crate::query::equality_query_text;
use crate::records::File;
use crate::records::encodes_file;
use crate::records::file_fields;
use crate::responses::error_body;
use crate::responses::error_body_text;
use crate::responses::message_body;
use crate::responses::message_body_text;
use crate::strutil::str_eq;
use crate::urls::create_document_url;
use crate::urls::create_document_url_text;
use crate::urls::masked_update_url;
use crate::urls::masked_update_url_text;
use crate::urls::run_query_url;
use crate::urls::run_query_url_text;
use crate::fields::document_body;
use vstd::prelude::*;
use vstd::string::StrSliceExecFns;
use vstd::string::StringExecFns;

verus! {

/// A request to create a file.
#[derive(Debug, Clone, PartialEq, Eq)]
pub struct CreateFileRequest {
    pub name: String,
    pub owner: String,
    pub project_id: String,
}

/// A request to replace a file's content.
#[derive(Debug, Clone, PartialEq, Eq)]
pub struct UpdateContentRequest {
    pub new_content: String,
}

/// The answer of the file-creation endpoint.
#[derive(Debug, Clone, PartialEq, Eq)]
pub struct FileResponse {
    pub message: String,
    pub file_id: Option<String>,
}

/// What follows the last dot of a name; the whole name when it has no
/// dot.
pub open spec fn ext_of(s: Seq<char>) -> Seq<char>
    decreases s.len(),
{
    if s.len() == 0 {
        s
    } else if s.last() == '.' {
        Seq::empty()
    } else {
        ext_of(s.drop_last()).push(s.last())
    }
}

/// The display name of a language, keyed by its file extension; an
/// unknown extension stands for itself.
pub open spec fn mapped_type(ext: Seq<char>) -> Seq<char> {
    if ext == "c"@ {
        "C"@
    } else if ext == "cpp"@ {
        "C++"@
    } else if ext == "py"@ {
        "Python"@
    } else if ext == "rs"@ {
        "Rust"@
    } else if ext == "js"@ {
        "JavaScript"@
    } else if ext == "ts"@ {
        "TypeScript"@
    } else if ext == "html"@ {
        "HTML"@
    } else if ext == "css"@ {
        "CSS"@
    } else {
        ext
    }
}

/// A name with no dot is its own extension.
proof fn lemma_ext_no_dot(s: Seq<char>)
    requires
        forall|j: int| 0 <= j < s.len() ==> s[j] != '.',
    ensures
        ext_of(s) == s,
    decreases s.len(),
{
    if s.len() == 0 {
    } else {
        lemma_ext_no_dot(s.drop_last());
        assert(s.drop_last().push(s.last()) =~= s);
    }
}

/// After the last dot, the extension is the tail that follows it.
proof fn lemma_ext_after_dot(s: Seq<char>, k: int)
    requires
        0 <= k < s.len(),
        s[k] == '.',
        forall|j: int| k < j < s.len() ==> s[j] != '.',
    ensures
        ext_of(s) == s.subrange(k + 1, s.len() as int),
    decreases s.len(),
{
    if k == s.len() - 1 {
        assert(ext_of(s) =~= s.subrange(k + 1, s.len() as int));
    } else {
        lemma_ext_after_dot(s.drop_last(), k);
        assert(s.drop_last().subrange(k + 1, s.len() - 1) =~= s.subrange(k + 1, s.len() - 1));
        assert(s.subrange(k + 1, s.len() - 1).push(s.last()) =~= s.subrange(
            k + 1,
            s.len() as int,
        ));
    }
}

/// The extension of a name, as the creation endpoint takes it.
fn extension_of(name: &str) -> (r: String)
    ensures
        r@ == ext_of(name@),
{
    let n = name.unicode_len();
    let mut dot: Option<usize> = None;
    for i in 0..n
        invariant
            n == name@.len(),
            match dot {
                Option::None => forall|j: int| 0 <= j < i ==> name@[j] != '.',
                Option::Some(d) => {
                    &&& d < i
                    &&& name@[d as int] == '.'
                    &&& forall|j: int| d < j < i ==> name@[j] != '.'
                },
            },
    {
        if name.get_char(i) == '.' {
            dot = Some(i);
        }
    }
    match dot {
        Some(d) => {
            let tail = name.substring_char(d + 1, n);
            proof {
                lemma_ext_after_dot(name@, d as int);
            }
            String::from_str(tail)
        },
        None => {
            proof {
                lemma_ext_no_dot(name@);
            }
            String::from_str(name)
        },
    }
}

/// The stored file type for a name: its extension, mapped through the
/// language table.
pub fn file_type_of(name: &str) -> (r: String)
    ensures
        r@ == mapped_type(ext_of(name@)),
{
    let ext = extension_of(name);
    if str_eq(ext.as_str(), "c") {
        String::from_str("C")
    } else if str_eq(ext.as_str(), "cpp") {
        String::from_str("C++")
    } else if str_eq(ext.as_str(), "py") {
        String::from_str("Python")
    } else if str_eq(ext.as_str(), "rs") {
        String::from_str("Rust")
    } else if str_eq(ext.as_str(), "js") {
        String::from_str("JavaScript")
    } else if str_eq(ext.as_str(), "ts") {
        String::from_str("TypeScript")
    } else if str_eq(ext.as_str(), "html") {
        String::from_str("HTML")
    } else if str_eq(ext.as_str(), "css") {
        String::from_str("CSS")
    } else {
        ext
    }
}

/// A fresh file record: a new identifier, empty content, the type
/// taken from the name's extension.
pub fn new_file(name: &str, owner: &str, project_id: &str) -> (f: File)
    ensures
        is_uuid_seq(f.id@),
        f.name@ == name@,
        f.content@ == Seq::<char>::empty(),
        f.file_type@ == mapped_type(ext_of(name@)),
        f.owner@ == owner@,
        f.project_id@ == project_id@,
{
    let f = File {
        id: fresh_uuid(),
        name: String::from_str(name),
        content: String::new(),
        file_type: file_type_of(name),
        owner: String::from_str(owner),
        project_id: String::from_str(project_id),
    };
    f
}

/// Everything the creation endpoint sends: the fresh record, the URL
/// that creates its document, and the document body.
pub fn create_file_plan(store_project: &str, req: &CreateFileRequest) -> (r: (File, String, String))
    ensures
        is_uuid_seq(r.0.id@),
        r.0.name@ == req.name@,
        r.0.content@ == Seq::<char>::empty(),
        r.0.file_type@ == mapped_type(ext_of(req.name@)),
        r.0.owner@ == req.owner@,
        r.0.project_id@ == req.project_id@,
        r.1@ == create_document_url_text(store_project@, "files"@, r.0.id@),
        exists|fs: Seq<Field>| #[trigger] encodes_file(fs, r.0) && r.2@ == document_text(fs),
{
    let f = new_file(req.name.as_str(), req.owner.as_str(), req.project_id.as_str());
    let url = create_document_url(store_project, "files", f.id.as_str());
    let fs = file_fields(&f);
    let body = document_body(&fs);
    proof {
        assert(encodes_file(fs@, f) && body@ == document_text(fs@));
    }
    (f, url, body)
}

/// The query that finds a file by name: the URL to post to and the
/// query body.
pub fn file_query_plan(store_project: &str, name: &str) -> (r: (String, String))
    ensures
        r.0@ == run_query_url_text(store_project@),
        r.1@ == equality_query_text("files"@, "name"@, name@),
{
    (run_query_url(store_project), equality_query_body("files", "name", name))
}

/// The patch that replaces a file's content: the masked URL and the
/// one-field document body.
pub fn content_update_plan(store_project: &str, file_id: &str, new_content: &str) -> (r: (
    String,
    String,
))
    ensures
        r.0@ == masked_update_url_text(store_project@, "files"@, file_id@, seq!["content"@]),
        exists|fs: Seq<Field>|
            {
                &&& #[trigger] fs.len() == 1
                &&& fs[0].name@ == "content"@
                &&& text_value(fs[0].value) == Some(new_content@)
                &&& r.1@ == document_text(fs)
            },
{
    let mut mask: Vec<String> = Vec::new();
    mask.push(String::from_str("content"));
    let url = masked_update_url(store_project, "files", file_id, &mask);
    proof {
        assert(views_of(mask@) =~= seq!["content"@]);
    }
    let mut fs: Vec<Field> = Vec::new();
    fs.push(text_field("content", new_content));
    let body = document_body(&fs);
    (url, body)
}

/// Whether a deletion response counts as success: the store answers a
/// delete with no-content or plain success.
pub fn delete_status_ok(status: u16) -> (r: bool)
    ensures
        r == (status == 204 || status == 200),
{
    status == 204 || status == 200
}

/// How an attempt to create a file ended.
#[derive(Debug, Clone, PartialEq, Eq)]
pub enum CreateFileEvent {
    NameTaken,
    Created(String),
    Failed(String),
}

/// The creation endpoint's answer for each outcome: a conflict for a
/// taken name, the fresh identifier on success, the store's error text
/// otherwise.
pub fn create_file_response(ev: &CreateFileEvent) -> (r: (u16, FileResponse))
    ensures
        ev is NameTaken ==> r.0 == 400 && r.1.message@ == "File with this name already exists"@
            && r.1.file_id is None,
        ev matches CreateFileEvent::Created(id) ==> r.0 == 201 && r.1.message@
            == "File created successfully"@ && (r.1.file_id matches Some(v) && v@ == id@),
        ev matches CreateFileEvent::Failed(e) ==> r.0 == 500 && r.1.message@ == e@
            && r.1.file_id is None,
{
    match ev {
        CreateFileEvent::NameTaken => (
            400,
            FileResponse {
                message: String::from_str("File with this name already exists"),
                file_id: None,
            },
        ),
        CreateFileEvent::Created(id) => (
            201,
            FileResponse {
                message: String::from_str("File created successfully"),
                file_id: Some(id.clone()),
            },
        ),
        CreateFileEvent::Failed(e) => (
            500,
            FileResponse { message: e.clone(), file_id: None },
        ),
    }
}

/// How an attempt to delete a file ended: the lookup may miss or fail,
/// then the deletion may succeed, be refused by the store, or fail.
#[derive(Debug, Clone, PartialEq, Eq)]
pub enum DeleteFileEvent {
    Missing,
    LookupFailed(String),
    Deleted,
    DeleteRefused,
    DeleteFailed(String),
}

/// The deletion endpoint's answer for each outcome.
pub fn delete_file_response(ev: &DeleteFileEvent) -> (r: (u16, String))
    ensures
        ev is Missing ==> r.0 == 404 && r.1@ == error_body_text("File not found"@),
        ev matches DeleteFileEvent::LookupFailed(e) ==> r.0 == 500 && r.1@ == error_body_text(e@),
        ev is Deleted ==> r.0 == 200 && r.1@ == message_body_text("File deleted"@),
        ev is DeleteRefused ==> r.0 == 500 && r.1@ == error_body_text(
            "Error while deleting file"@,
        ),
        ev matches DeleteFileEvent::DeleteFailed(e) ==> r.0 == 500 && r.1@ == error_body_text(e@),
{
    match ev {
        DeleteFileEvent::Missing => (404, error_body("File not found")),
        DeleteFileEvent::LookupFailed(e) => (500, error_body(e.as_str())),
        DeleteFileEvent::Deleted => (200, message_body("File deleted")),
        DeleteFileEvent::DeleteRefused => (500, error_body("Error while deleting file")),
        DeleteFileEvent::DeleteFailed(e) => (500, error_body(e.as_str())),
    }
}

} // verus!
