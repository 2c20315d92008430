//! The records the service stores, and how each one is laid out as a
//! typed-field document.
//!
//! Each record type has an encoder that lists its document fields and
//! a decoder that reads them back, with explicit defaults for missing
//! fields and explicit identifier checks.  The proof functions at the
//! end state that decoding an encoded record recovers it.

use crate::fields::Field;
use crate::fields::array_field;
use crate::fields::array_views;
use crate::fields::get_array;
use crate::fields::get_text;
use crate::fields::get_text_or_empty;
use crate::fields::lookup_array;
use crate::fields::lookup_field;
use crate::fields::lookup_array_views;
use crate::fields::lookup_text;
use crate::fields::text_field;
use crate::fields::text_or_empty;
use crate::fields::text_value;
use crate::fields::views_of;
use crate::ids::is_uuid_seq;
use crate::ids::is_uuid_text;
use crate::ids::nil_uuid;
use vstd::prelude::*;
use vstd::string::StringExecFns;

verus! {

/// A source file kept in the store.
#[derive(Debug, Clone, PartialEq, Eq)]
pub struct File {
    pub id: String,
    pub name: String,
    pub content: String,
    pub file_type: String,
    pub owner: String,
    pub project_id: String,
}

/// A project: metadata plus the identifiers of its members and files.
#[derive(Debug, Clone, PartialEq, Eq)]
pub struct Project {
    pub id: String,
    pub name: String,
    pub description: String,
    pub owner: String,
    pub members: Vec<String>,
    pub files: Vec<String>,
}

/// A user's stored credentials.
#[derive(Debug, Clone, PartialEq, Eq)]
pub struct UserCred {
    pub id: String,
    pub password: String,
}

/// A user's profile.
#[derive(Debug, Clone, PartialEq, Eq)]
pub struct UserDetails {
    pub id: String,
    pub display_name: String,
    pub username: String,
    pub email: String,
    pub projects: Vec<String>,
}

/// The canonical identifier form, for every entry of a list.
pub open spec fn all_uuids(vs: Seq<Seq<char>>) -> bool {
    forall|i: int| 0 <= i < vs.len() ==> is_uuid_seq(#[trigger] vs[i])
}

/// The document layout of a file record.
pub open spec fn encodes_file(fs: Seq<Field>, f: File) -> bool {
    &&& fs.len() == 6
    &&& fs[0].name@ == "id"@ && text_value(fs[0].value) == Some(f.id@)
    &&& fs[1].name@ == "name"@ && text_value(fs[1].value) == Some(f.name@)
    &&& fs[2].name@ == "content"@ && text_value(fs[2].value) == Some(f.content@)
    &&& fs[3].name@ == "file_type"@ && text_value(fs[3].value) == Some(f.file_type@)
    &&& fs[4].name@ == "owner"@ && text_value(fs[4].value) == Some(f.owner@)
    &&& fs[5].name@ == "project_id"@ && text_value(fs[5].value) == Some(f.project_id@)
}

/// The fields of a file record, in the order they are sent.
pub fn file_fields(f: &File) -> (r: Vec<Field>)
    ensures
        encodes_file(r@, *f),
{
    let mut r: Vec<Field> = Vec::new();
    r.push(text_field("id", f.id.as_str()));
    r.push(text_field("name", f.name.as_str()));
    r.push(text_field("content", f.content.as_str()));
    r.push(text_field("file_type", f.file_type.as_str()));
    r.push(text_field("owner", f.owner.as_str()));
    r.push(text_field("project_id", f.project_id.as_str()));
    r
}

/// A file document is well formed when its three identifier fields
/// hold canonical identifiers; the decoder rejects it otherwise.
pub open spec fn valid_file_fields(fs: Seq<Field>) -> bool {
    &&& is_uuid_seq(text_or_empty(fs, "id"@))
    &&& is_uuid_seq(text_or_empty(fs, "owner"@))
    &&& is_uuid_seq(text_or_empty(fs, "project_id"@))
}

/// Reads a file record back out of a document.  String fields default
/// to empty when missing; a malformed identifier rejects the document.
pub fn file_of_fields(fs: &Vec<Field>) -> (r: Option<File>)
    ensures
        r is Some <==> valid_file_fields(fs@),
        r matches Some(f) ==> {
            &&& f.id@ == text_or_empty(fs@, "id"@)
            &&& f.name@ == text_or_empty(fs@, "name"@)
            &&& f.content@ == text_or_empty(fs@, "content"@)
            &&& f.file_type@ == text_or_empty(fs@, "file_type"@)
            &&& f.owner@ == text_or_empty(fs@, "owner"@)
            &&& f.project_id@ == text_or_empty(fs@, "project_id"@)
        },
{
    let id = get_text_or_empty(fs, "id");
    let owner = get_text_or_empty(fs, "owner");
    let project_id = get_text_or_empty(fs, "project_id");
    if !is_uuid_text(id.as_str()) || !is_uuid_text(owner.as_str()) || !is_uuid_text(
        project_id.as_str(),
    ) {
        return None;
    }
    Some(
        File {
            id,
            name: get_text_or_empty(fs, "name"),
            content: get_text_or_empty(fs, "content"),
            file_type: get_text_or_empty(fs, "file_type"),
            owner,
            project_id,
        },
    )
}

/// Copies a list of strings, keeping every element's characters.
pub fn clone_strings(vs: &Vec<String>) -> (r: Vec<String>)
    ensures
        views_of(r@) == views_of(vs@),
{
    let mut r: Vec<String> = Vec::new();
    proof {
        assert(views_of(r@) =~= views_of(vs@.take(0)));
    }
    for i in 0..vs.len()
        invariant
            views_of(r@) == views_of(vs@.take(i as int)),
    {
        let ghost before = views_of(r@);
        r.push(vs[i].clone());
        proof {
            assert(views_of(vs@.take(i + 1)) =~= before.push(vs@[i as int]@));
            assert(views_of(r@) =~= before.push(vs@[i as int]@));
        }
    }
    proof {
        assert(vs@.take(vs@.len() as int) =~= vs@);
    }
    r
}

/// The document layout of a project record.
pub open spec fn encodes_project(fs: Seq<Field>, p: Project) -> bool {
    &&& fs.len() == 6
    &&& fs[0].name@ == "id"@ && text_value(fs[0].value) == Some(p.id@)
    &&& fs[1].name@ == "name"@ && text_value(fs[1].value) == Some(p.name@)
    &&& fs[2].name@ == "description"@ && text_value(fs[2].value) == Some(p.description@)
    &&& fs[3].name@ == "owner"@ && text_value(fs[3].value) == Some(p.owner@)
    &&& fs[4].name@ == "members"@ && array_views(fs[4].value) == Some(views_of(p.members@))
    &&& fs[5].name@ == "files"@ && array_views(fs[5].value) == Some(views_of(p.files@))
}

/// The fields of a project record, in the order they are sent.
pub fn project_fields(p: &Project) -> (r: Vec<Field>)
    ensures
        encodes_project(r@, *p),
{
    let mut r: Vec<Field> = Vec::new();
    r.push(text_field("id", p.id.as_str()));
    r.push(text_field("name", p.name.as_str()));
    r.push(text_field("description", p.description.as_str()));
    r.push(text_field("owner", p.owner.as_str()));
    r.push(array_field("members", clone_strings(&p.members)));
    r.push(array_field("files", clone_strings(&p.files)));
    r
}

/// A project document is well formed when name, description, owner
/// and both identifier arrays are present and the owner is a canonical
/// identifier; the decoder rejects anything less.
pub open spec fn valid_project_fields(fs: Seq<Field>) -> bool {
    &&& lookup_text(fs, "name"@) is Some
    &&& lookup_text(fs, "description"@) is Some
    &&& lookup_text(fs, "owner"@) is Some
    &&& is_uuid_seq(text_or_empty(fs, "owner"@))
    &&& lookup_array(fs, "members"@) is Some
    &&& lookup_array(fs, "files"@) is Some
}

/// Reads a project record back out of a document.  The identifier
/// comes from the request path, not from the document; member and file
/// entries that are not canonical identifiers are dropped.
pub fn project_of_fields(id: &str, fs: &Vec<Field>) -> (r: Option<Project>)
    ensures
        r is Some <==> valid_project_fields(fs@),
        r matches Some(p) ==> {
            &&& p.id@ == id@
            &&& Some(p.name@) == lookup_text(fs@, "name"@)
            &&& Some(p.description@) == lookup_text(fs@, "description"@)
            &&& Some(p.owner@) == lookup_text(fs@, "owner"@)
            &&& Some(views_of(p.members@)) == (match lookup_array_views(fs@, "members"@) {
                Some(vs) => Some(uuid_filter(vs)),
                None => None,
            })
            &&& Some(views_of(p.files@)) == (match lookup_array_views(fs@, "files"@) {
                Some(vs) => Some(uuid_filter(vs)),
                None => None,
            })
        },
{
    let name = match get_text(fs, "name") {
        Some(s) => s.clone(),
        None => {
            return None;
        },
    };
    let description = match get_text(fs, "description") {
        Some(s) => s.clone(),
        None => {
            return None;
        },
    };
    let owner = match get_text(fs, "owner") {
        Some(s) => s.clone(),
        None => {
            return None;
        },
    };
    if !is_uuid_text(owner.as_str()) {
        return None;
    }
    let members = match get_array(fs, "members") {
        Some(vs) => filter_uuids(vs),
        None => {
            return None;
        },
    };
    let files = match get_array(fs, "files") {
        Some(vs) => filter_uuids(vs),
        None => {
            return None;
        },
    };
    Some(
        Project {
            id: String::from_str(id),
            name,
            description,
            owner,
            members,
            files,
        },
    )
}

/// The document layout of a user profile.
pub open spec fn encodes_user_details(fs: Seq<Field>, d: UserDetails) -> bool {
    &&& fs.len() == 5
    &&& fs[0].name@ == "id"@ && text_value(fs[0].value) == Some(d.id@)
    &&& fs[1].name@ == "display_name"@ && text_value(fs[1].value) == Some(d.display_name@)
    &&& fs[2].name@ == "username"@ && text_value(fs[2].value) == Some(d.username@)
    &&& fs[3].name@ == "email"@ && text_value(fs[3].value) == Some(d.email@)
    &&& fs[4].name@ == "projects"@ && array_views(fs[4].value) == Some(views_of(d.projects@))
}

/// The fields of a user profile, in the order they are sent.
pub fn user_details_fields(d: &UserDetails) -> (r: Vec<Field>)
    ensures
        encodes_user_details(r@, *d),
{
    let mut r: Vec<Field> = Vec::new();
    r.push(text_field("id", d.id.as_str()));
    r.push(text_field("display_name", d.display_name.as_str()));
    r.push(text_field("username", d.username.as_str()));
    r.push(text_field("email", d.email.as_str()));
    r.push(array_field("projects", clone_strings(&d.projects)));
    r
}

/// The document layout of a registration: the profile fields and the
/// password in one document, as the registration endpoint stores them.
pub open spec fn encodes_registration(fs: Seq<Field>, d: UserDetails, password: Seq<char>) -> bool {
    &&& fs.len() == 6
    &&& fs[0].name@ == "id"@ && text_value(fs[0].value) == Some(d.id@)
    &&& fs[1].name@ == "display_name"@ && text_value(fs[1].value) == Some(d.display_name@)
    &&& fs[2].name@ == "username"@ && text_value(fs[2].value) == Some(d.username@)
    &&& fs[3].name@ == "email"@ && text_value(fs[3].value) == Some(d.email@)
    &&& fs[4].name@ == "projects"@ && array_views(fs[4].value) == Some(views_of(d.projects@))
    &&& fs[5].name@ == "password"@ && text_value(fs[5].value) == Some(password)
}

/// The fields the registration endpoint stores for a new user.
pub fn registration_fields(d: &UserDetails, password: &str) -> (r: Vec<Field>)
    ensures
        encodes_registration(r@, *d, password@),
{
    let mut r: Vec<Field> = Vec::new();
    r.push(text_field("id", d.id.as_str()));
    r.push(text_field("display_name", d.display_name.as_str()));
    r.push(text_field("username", d.username.as_str()));
    r.push(text_field("email", d.email.as_str()));
    r.push(array_field("projects", clone_strings(&d.projects)));
    r.push(text_field("password", password));
    r
}

/// The fields of a credentials document: the identifier, the email
/// kept alongside it for login lookups, and the password.
pub fn credentials_fields(cred: &UserCred, email: &str) -> (r: Vec<Field>)
    ensures
        r@.len() == 3,
        r@[0].name@ == "id"@ && text_value(r@[0].value) == Some(cred.id@),
        r@[1].name@ == "email"@ && text_value(r@[1].value) == Some(email@),
        r@[2].name@ == "password"@ && text_value(r@[2].value) == Some(cred.password@),
{
    let mut r: Vec<Field> = Vec::new();
    r.push(text_field("id", cred.id.as_str()));
    r.push(text_field("email", email));
    r.push(text_field("password", cred.password.as_str()));
    r
}

/// The password a document stores, with the empty-string default the
/// login check applies.
pub open spec fn password_of(fs: Seq<Field>) -> Seq<char> {
    text_or_empty(fs, "password"@)
}

/// Reads a user profile out of a document.  This never fails: a
/// missing or malformed identifier falls back to the all-zero
/// identifier, missing strings fall back to empty, and a missing
/// projects array falls back to no projects.
pub fn user_details_of_fields(fs: &Vec<Field>) -> (r: UserDetails)
    ensures
        r.id@ == (if is_uuid_seq(text_or_empty(fs@, "id"@)) {
            text_or_empty(fs@, "id"@)
        } else {
            "00000000-0000-0000-0000-000000000000"@
        }),
        r.display_name@ == text_or_empty(fs@, "display_name"@),
        r.username@ == text_or_empty(fs@, "username"@),
        r.email@ == text_or_empty(fs@, "email"@),
        views_of(r.projects@) == (match lookup_array_views(fs@, "projects"@) {
            Some(vs) => uuid_filter(vs),
            None => Seq::<Seq<char>>::empty(),
        }),
{
    let id_text = get_text_or_empty(fs, "id");
    let id = if is_uuid_text(id_text.as_str()) {
        id_text
    } else {
        nil_uuid()
    };
    let projects = match get_array(fs, "projects") {
        Some(vs) => filter_uuids(vs),
        None => Vec::new(),
    };
    proof {
        if lookup_array(fs@, "projects"@) is None {
            assert(views_of(Seq::<String>::empty()) =~= Seq::<Seq<char>>::empty());
        }
    }
    UserDetails {
        id,
        display_name: get_text_or_empty(fs, "display_name"),
        username: get_text_or_empty(fs, "username"),
        email: get_text_or_empty(fs, "email"),
        projects,
    }
}

/// A newly registered user: the profile and the credentials share one
/// fresh identifier.
pub struct NewUser {
    pub details: UserDetails,
    pub cred: UserCred,
}

/// A fresh user: a new identifier shared by profile and credentials,
/// no projects yet.
pub fn new_user(display_name: &str, username: &str, email: &str, password: &str) -> (r: NewUser)
    ensures
        is_uuid_seq(r.details.id@),
        r.cred.id@ == r.details.id@,
        r.details.display_name@ == display_name@,
        r.details.username@ == username@,
        r.details.email@ == email@,
        views_of(r.details.projects@) == Seq::<Seq<char>>::empty(),
        r.cred.password@ == password@,
{
    let id = crate::ids::fresh_uuid();
    let projects: Vec<String> = Vec::new();
    proof {
        assert(views_of(projects@) =~= Seq::<Seq<char>>::empty());
    }
    NewUser {
        details: UserDetails {
            id: id.clone(),
            display_name: String::from_str(display_name),
            username: String::from_str(username),
            email: String::from_str(email),
            projects,
        },
        cred: UserCred { id, password: String::from_str(password) },
    }
}

/// The entries in canonical identifier form, in order.
pub open spec fn uuid_filter(vs: Seq<Seq<char>>) -> Seq<Seq<char>> {
    vs.filter(|s: Seq<char>| is_uuid_seq(s))
}

/// Keeps exactly the entries in canonical identifier form, in order —
/// how every identifier array is read, dropping what fails the
/// check.
pub fn filter_uuids(vs: &Vec<String>) -> (r: Vec<String>)
    ensures
        views_of(r@) == uuid_filter(views_of(vs@)),
{
    let mut r: Vec<String> = Vec::new();
    proof {
        reveal(Seq::filter);
        assert(views_of(r@) =~= uuid_filter(views_of(vs@.take(0))));
    }
    for i in 0..vs.len()
        invariant
            views_of(r@) == uuid_filter(views_of(vs@.take(i as int))),
    {
        let ghost j = i as int;
        let ghost w = views_of(vs@.take(j));
        proof {
            assert(views_of(vs@.take(j + 1)) =~= w.push(vs@[j]@));
            reveal(Seq::filter);
            assert(w.push(vs@[j]@).drop_last() =~= w);
        }
        if is_uuid_text(vs[i].as_str()) {
            let c = vs[i].clone();
            let ghost before = views_of(r@);
            r.push(c);
            proof {
                assert(views_of(r@) =~= before.push(vs@[j]@));
            }
        }
    }
    proof {
        assert(vs@.take(vs@.len() as int) =~= vs@);
    }
    r
}

} // verus!

// What follows states, once and for all, that reading an encoded
// record back recovers it: the store may hold documents from anywhere,
// but a document this crate wrote always decodes to what was written.

verus! {

/// Filtering for canonical identifiers keeps a list that already
/// consists of them unchanged.
pub proof fn lemma_uuid_filter_all(vs: Seq<Seq<char>>)
    requires
        all_uuids(vs),
    ensures
        uuid_filter(vs) == vs,
    decreases vs.len(),
{
    reveal(Seq::filter);
    if vs.len() == 0 {
        assert(uuid_filter(vs) =~= vs);
    } else {
        lemma_uuid_filter_all(vs.drop_last());
        assert(is_uuid_seq(vs.last()));
        assert(vs.drop_last().push(vs.last()) =~= vs);
        assert(uuid_filter(vs) =~= vs);
    }
}

proof fn lemma_file_fields_lookup(fs: Seq<Field>, f: File)
    requires
        encodes_file(fs, f),
    ensures
        lookup_text(fs, "id"@) == Some(f.id@),
        lookup_text(fs, "name"@) == Some(f.name@),
        lookup_text(fs, "content"@) == Some(f.content@),
        lookup_text(fs, "file_type"@) == Some(f.file_type@),
        lookup_text(fs, "owner"@) == Some(f.owner@),
        lookup_text(fs, "project_id"@) == Some(f.project_id@),
{
    reveal_strlit("id");
    reveal_strlit("name");
    reveal_strlit("content");
    reveal_strlit("file_type");
    reveal_strlit("owner");
    reveal_strlit("project_id");
    assert("id"@.len() == 2);
    assert("name"@.len() == 4);
    assert("content"@.len() == 7);
    assert("file_type"@.len() == 9);
    assert("owner"@.len() == 5);
    assert("project_id"@.len() == 10);
    let s1 = fs.drop_first();
    let s2 = s1.drop_first();
    let s3 = s2.drop_first();
    let s4 = s3.drop_first();
    let s5 = s4.drop_first();
    assert(s1[0] == fs[1] && s1[1] == fs[2] && s1[2] == fs[3] && s1[3] == fs[4] && s1[4] == fs[5]);
    assert(s2[0] == fs[2] && s2[1] == fs[3] && s2[2] == fs[4] && s2[3] == fs[5]);
    assert(s3[0] == fs[3] && s3[1] == fs[4] && s3[2] == fs[5]);
    assert(s4[0] == fs[4] && s4[1] == fs[5]);
    assert(s5[0] == fs[5]);
    assert(lookup_field(fs, "id"@) == Some(fs[0].value));
    assert("id"@ != "name"@);
    assert("id"@ != "content"@);
    assert("id"@ != "file_type"@);
    assert("id"@ != "owner"@);
    assert("id"@ != "project_id"@);
    assert("name"@ != "content"@);
    assert("name"@ != "file_type"@);
    assert("name"@ != "owner"@);
    assert("name"@
        != "project_id"@);
    assert("content"@ != "file_type"@);
    assert("content"@ != "owner"@);
    assert("content"@ != "project_id"@);
    assert("file_type"@ != "owner"@);
    assert("file_type"@ != "project_id"@);
    assert("owner"@ != "project_id"@);
    assert(lookup_field(fs, "name"@) == lookup_field(s1, "name"@));
    assert(lookup_field(s1, "name"@) == Some(fs[1].value));
    assert(lookup_field(fs, "content"@) == lookup_field(s1, "content"@));
    assert(lookup_field(s1, "content"@) == lookup_field(s2, "content"@));
    assert(lookup_field(s2, "content"@) == Some(fs[2].value));
    assert(lookup_field(fs, "file_type"@) == lookup_field(s1, "file_type"@));
    assert(lookup_field(s1, "file_type"@) == lookup_field(s2, "file_type"@));
    assert(lookup_field(s2, "file_type"@) == lookup_field(s3, "file_type"@));
    assert(lookup_field(s3, "file_type"@) == Some(fs[3].value));
    assert(lookup_field(fs, "owner"@) == lookup_field(s1, "owner"@));
    assert(lookup_field(s1, "owner"@) == lookup_field(s2, "owner"@));
    assert(lookup_field(s2, "owner"@) == lookup_field(s3, "owner"@));
    assert(lookup_field(s3, "owner"@) == lookup_field(s4, "owner"@));
    assert(lookup_field(s4, "owner"@) == Some(fs[4].value));
    assert(lookup_field(fs, "project_id"@) == lookup_field(s1, "project_id"@));
    assert(lookup_field(s1, "project_id"@) == lookup_field(s2, "project_id"@));
    assert(lookup_field(s2, "project_id"@) == lookup_field(s3, "project_id"@));
    assert(lookup_field(s3, "project_id"@) == lookup_field(s4, "project_id"@));
    assert(lookup_field(s4, "project_id"@) == lookup_field(s5, "project_id"@));
    assert(lookup_field(s5, "project_id"@) == Some(fs[5].value));
}

/// A file document written by [`file_fields`] is well formed and reads
/// back field for field.
pub proof fn lemma_file_roundtrip(fs: Seq<Field>, f: File)
    requires
        encodes_file(fs, f),
        is_uuid_seq(f.id@),
        is_uuid_seq(f.owner@),
        is_uuid_seq(f.project_id@),
    ensures
        valid_file_fields(fs),
        text_or_empty(fs, "id"@) == f.id@,
        text_or_empty(fs, "name"@) == f.name@,
        text_or_empty(fs, "content"@) == f.content@,
        text_or_empty(fs, "file_type"@) == f.file_type@,
        text_or_empty(fs, "owner"@) == f.owner@,
        text_or_empty(fs, "project_id"@) == f.project_id@,
{
    lemma_file_fields_lookup(fs, f);
}

proof fn lemma_project_fields_lookup(fs: Seq<Field>, p: Project)
    requires
        encodes_project(fs, p),
    ensures
        lookup_text(fs, "id"@) == Some(p.id@),
        lookup_text(fs, "name"@) == Some(p.name@),
        lookup_text(fs, "description"@) == Some(p.description@),
        lookup_text(fs, "owner"@) == Some(p.owner@),
        lookup_array_views(fs, "members"@) == Some(views_of(p.members@)),
        lookup_array_views(fs, "files"@) == Some(views_of(p.files@)),
{
    reveal_strlit("id");
    reveal_strlit("name");
    reveal_strlit("description");
    reveal_strlit("owner");
    reveal_strlit("members");
    reveal_strlit("files");
    assert("id"@.len() == 2);
    assert("name"@.len() == 4);
    assert("description"@.len() == 11);
    assert("owner"@.len() == 5);
    assert("members"@.len() == 7);
    assert("files"@.len() == 5);
    assert("owner"@[0] == 'o');
    assert("files"@[0] == 'f');
    let s1 = fs.drop_first();
    let s2 = s1.drop_first();
    let s3 = s2.drop_first();
    let s4 = s3.drop_first();
    let s5 = s4.drop_first();
    assert(s1[0] == fs[1] && s1[1] == fs[2] && s1[2] == fs[3] && s1[3] == fs[4] && s1[4] == fs[5]);
    assert(s2[0] == fs[2] && s2[1] == fs[3] && s2[2] == fs[4] && s2[3] == fs[5]);
    assert(s3[0] == fs[3] && s3[1] == fs[4] && s3[2] == fs[5]);
    assert(s4[0] == fs[4] && s4[1] == fs[5]);
    assert(s5[0] == fs[5]);
    assert("id"@ != "name"@);
    assert("id"@ != "description"@);
    assert("id"@ != "owner"@);
    assert("id"@ != "members"@);
    assert("id"@ != "files"@);
    assert("name"@ != "description"@);
    assert("name"@ != "owner"@);
    assert("name"@ != "members"@);
    assert("name"@
        != "files"@);
    assert("description"@ != "owner"@);
    assert("description"@ != "members"@);
    assert("description"@
        != "files"@);
    assert("owner"@ != "members"@);
    assert("owner"@ != "files"@);
    assert("members"@ != "files"@);
    assert(lookup_field(fs, "id"@) == Some(fs[0].value));
    assert(lookup_field(fs, "name"@) == lookup_field(s1, "name"@));
    assert(lookup_field(s1, "name"@) == Some(fs[1].value));
    assert(lookup_field(fs, "description"@) == lookup_field(s1, "description"@));
    assert(lookup_field(s1, "description"@) == lookup_field(s2, "description"@));
    assert(lookup_field(s2, "description"@) == Some(fs[2].value));
    assert(lookup_field(fs, "owner"@) == lookup_field(s1, "owner"@));
    assert(lookup_field(s1, "owner"@) == lookup_field(s2, "owner"@));
    assert(lookup_field(s2, "owner"@) == lookup_field(s3, "owner"@));
    assert(lookup_field(s3, "owner"@) == Some(fs[3].value));
    assert(lookup_field(fs, "members"@) == lookup_field(s1, "members"@));
    assert(lookup_field(s1, "members"@) == lookup_field(s2, "members"@));
    assert(lookup_field(s2, "members"@) == lookup_field(s3, "members"@));
    assert(lookup_field(s3, "members"@) == lookup_field(s4, "members"@));
    assert(lookup_field(s4, "members"@) == Some(fs[4].value));
    assert(lookup_field(fs, "files"@) == lookup_field(s1, "files"@));
    assert(lookup_field(s1, "files"@) == lookup_field(s2, "files"@));
    assert(lookup_field(s2, "files"@) == lookup_field(s3, "files"@));
    assert(lookup_field(s3, "files"@) == lookup_field(s4, "files"@));
    assert(lookup_field(s4, "files"@) == lookup_field(s5, "files"@));
    assert(lookup_field(s5, "files"@) == Some(fs[5].value));
}

/// A project document written by [`project_fields`] is well formed and
/// reads back field for field, identifier lists included.
pub proof fn lemma_project_roundtrip(fs: Seq<Field>, p: Project)
    requires
        encodes_project(fs, p),
        is_uuid_seq(p.owner@),
        all_uuids(views_of(p.members@)),
        all_uuids(views_of(p.files@)),
    ensures
        valid_project_fields(fs),
        lookup_text(fs, "name"@) == Some(p.name@),
        lookup_text(fs, "description"@) == Some(p.description@),
        text_or_empty(fs, "owner"@) == p.owner@,
        lookup_array_views(fs, "members"@) == Some(views_of(p.members@)),
        lookup_array_views(fs, "files"@) == Some(views_of(p.files@)),
        uuid_filter(views_of(p.members@)) == views_of(p.members@),
        uuid_filter(views_of(p.files@)) == views_of(p.files@),
{
    lemma_project_fields_lookup(fs, p);
    lemma_uuid_filter_all(views_of(p.members@));
    lemma_uuid_filter_all(views_of(p.files@));
}

proof fn lemma_user_fields_lookup(fs: Seq<Field>, d: UserDetails)
    requires
        encodes_user_details(fs, d),
    ensures
        lookup_text(fs, "id"@) == Some(d.id@),
        lookup_text(fs, "display_name"@) == Some(d.display_name@),
        lookup_text(fs, "username"@) == Some(d.username@),
        lookup_text(fs, "email"@) == Some(d.email@),
        lookup_array_views(fs, "projects"@) == Some(views_of(d.projects@)),
{
    reveal_strlit("id");
    reveal_strlit("display_name");
    reveal_strlit("username");
    reveal_strlit("email");
    reveal_strlit("projects");
    assert("id"@.len() == 2);
    assert("display_name"@.len() == 12);
    assert("username"@.len() == 8);
    assert("email"@.len() == 5);
    assert("projects"@.len() == 8);
    assert("username"@[0] == 'u');
    assert("projects"@[0] == 'p');
    let s1 = fs.drop_first();
    let s2 = s1.drop_first();
    let s3 = s2.drop_first();
    let s4 = s3.drop_first();
    assert(s1[0] == fs[1] && s1[1] == fs[2] && s1[2] == fs[3] && s1[3] == fs[4]);
    assert(s2[0] == fs[2] && s2[1] == fs[3] && s2[2] == fs[4]);
    assert(s3[0] == fs[3] && s3[1] == fs[4]);
    assert(s4[0] == fs[4]);
    assert("id"@ != "display_name"@);
    assert("id"@ != "username"@);
    assert("id"@ != "email"@);
    assert("id"@
        != "projects"@);
    assert("display_name"@ != "username"@);
    assert("display_name"@ != "email"@);
    assert("display_name"@
        != "projects"@);
    assert("username"@ != "email"@);
    assert("username"@ != "projects"@);
    assert("email"@ != "projects"@);
    assert(lookup_field(fs, "id"@) == Some(fs[0].value));
    assert(lookup_field(fs, "display_name"@) == lookup_field(s1, "display_name"@));
    assert(lookup_field(s1, "display_name"@) == Some(fs[1].value));
    assert(lookup_field(fs, "username"@) == lookup_field(s1, "username"@));
    assert(lookup_field(s1, "username"@) == lookup_field(s2, "username"@));
    assert(lookup_field(s2, "username"@) == Some(fs[2].value));
    assert(lookup_field(fs, "email"@) == lookup_field(s1, "email"@));
    assert(lookup_field(s1, "email"@) == lookup_field(s2, "email"@));
    assert(lookup_field(s2, "email"@) == lookup_field(s3, "email"@));
    assert(lookup_field(s3, "email"@) == Some(fs[3].value));
    assert(lookup_field(fs, "projects"@) == lookup_field(s1, "projects"@));
    assert(lookup_field(s1, "projects"@) == lookup_field(s2, "projects"@));
    assert(lookup_field(s2, "projects"@) == lookup_field(s3, "projects"@));
    assert(lookup_field(s3, "projects"@) == lookup_field(s4, "projects"@));
    assert(lookup_field(s4, "projects"@) == Some(fs[4].value));
}

/// A profile document written by [`user_details_fields`] reads back
/// field for field: no fallback fires.
pub proof fn lemma_user_details_roundtrip(fs: Seq<Field>, d: UserDetails)
    requires
        encodes_user_details(fs, d),
        is_uuid_seq(d.id@),
        all_uuids(views_of(d.projects@)),
    ensures
        text_or_empty(fs, "id"@) == d.id@,
        is_uuid_seq(text_or_empty(fs, "id"@)),
        text_or_empty(fs, "display_name"@) == d.display_name@,
        text_or_empty(fs, "username"@) == d.username@,
        text_or_empty(fs, "email"@) == d.email@,
        lookup_array_views(fs, "projects"@) == Some(views_of(d.projects@)),
        uuid_filter(views_of(d.projects@)) == views_of(d.projects@),
{
    lemma_user_fields_lookup(fs, d);
    lemma_uuid_filter_all(views_of(d.projects@));
}

/// A registration document stores exactly the password it was given:
/// logging in right after registering compares against that password.
pub proof fn lemma_registration_password(fs: Seq<Field>, d: UserDetails, password: Seq<char>)
    requires
        encodes_registration(fs, d, password),
    ensures
        password_of(fs) == password,
        lookup_text(fs, "username"@) == Some(d.username@),
{
    reveal_strlit("id");
    reveal_strlit("display_name");
    reveal_strlit("username");
    reveal_strlit("email");
    reveal_strlit("projects");
    reveal_strlit("password");
    assert("id"@.len() == 2);
    assert("display_name"@.len() == 12);
    assert("username"@.len() == 8);
    assert("email"@.len() == 5);
    assert("projects"@.len() == 8);
    assert("password"@.len() == 8);
    assert("username"@[0] == 'u');
    assert("projects"@[0] == 'p');
    assert("password"@[0] == 'p');
    assert("projects"@[1] == 'r');
    assert("password"@[1] == 'a');
    let s1 = fs.drop_first();
    let s2 = s1.drop_first();
    let s3 = s2.drop_first();
    let s4 = s3.drop_first();
    let s5 = s4.drop_first();
    assert(s1[0] == fs[1] && s1[1] == fs[2] && s1[2] == fs[3] && s1[3] == fs[4] && s1[4] == fs[5]);
    assert(s2[0] == fs[2] && s2[1] == fs[3] && s2[2] == fs[4] && s2[3] == fs[5]);
    assert(s3[0] == fs[3] && s3[1] == fs[4] && s3[2] == fs[5]);
    assert(s4[0] == fs[4] && s4[1] == fs[5]);
    assert(s5[0] == fs[5]);
    assert("password"@ != "id"@);
    assert("password"@ != "display_name"@);
    assert("password"@ != "username"@);
    assert("password"@ != "email"@);
    assert("password"@ != "projects"@);
    assert("username"@ != "id"@);
    assert("username"@ != "display_name"@);
    assert(lookup_field(fs, "password"@) == lookup_field(s1, "password"@));
    assert(lookup_field(s1, "password"@) == lookup_field(s2, "password"@));
    assert(lookup_field(s2, "password"@) == lookup_field(s3, "password"@));
    assert(lookup_field(s3, "password"@) == lookup_field(s4, "password"@));
    assert(lookup_field(s4, "password"@) == lookup_field(s5, "password"@));
    assert(lookup_field(s5, "password"@) == Some(fs[5].value));
    assert(lookup_field(fs, "username"@) == lookup_field(s1, "username"@));
    assert(lookup_field(s1, "username"@) == lookup_field(s2, "username"@));
    assert(lookup_field(s2, "username"@) == Some(fs[2].value));
}

} // verus!

