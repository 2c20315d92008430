//! The auth endpoints' compute half: what registration stores, what
//! the login query asks, and how a login attempt is judged.

use crate::fields::Field;
use crate::fields::document_body;
use crate::fields::document_text;
use crate::fields::get_text_or_empty;
use crate::ids::is_uuid_seq;
use crate::query::equality_query_body;
use crate::query::equality_query_text;
use crate::records::NewUser;
use crate::records::encodes_registration;
use crate::records::new_user;
use crate::records::password_of;
use crate::records::registration_fields;
use crate::status::is_success_status;
use crate::status::spec_is_success_status;
use crate::store::QueryRow;
use crate::store::StoreDoc;
use crate::urls::create_document_url;
use crate::urls::create_document_url_text;
use crate::urls::run_query_url;
use crate::urls::run_query_url_text;
use vstd::prelude::*;
use vstd::string::StringExecFns;

verus! {

/// A registration request.
#[derive(Debug, Clone, PartialEq, Eq)]
pub struct AuthPayload {
    pub email: String,
    pub password: String,
    pub display_name: String,
    pub username: String,
}

/// A login request against the registration collection.
#[derive(Debug, Clone, PartialEq, Eq)]
pub struct LoginPayload {
    pub username: String,
    pub password: String,
}

/// The auth endpoints' answer.
#[derive(Debug, Clone, PartialEq, Eq)]
pub struct AuthResponse {
    pub message: String,
}

/// Everything the registration endpoint prepares before it talks to
/// the store.
pub struct RegisterPlan {
    pub user: NewUser,
    pub url: String,
    pub body: String,
    pub message: String,
}

/// The registration endpoint's work: a fresh user, the document that
/// stores profile and password together, and the answer it will give —
/// an answer that does not depend on the store's verdict.
pub fn register_plan(store_project: &str, payload: &AuthPayload) -> (r: RegisterPlan)
    ensures
        is_uuid_seq(r.user.details.id@),
        r.user.cred.id@ == r.user.details.id@,
        r.user.details.display_name@ == payload.display_name@,
        r.user.details.username@ == payload.username@,
        r.user.details.email@ == payload.email@,
        crate::fields::views_of(r.user.details.projects@) == Seq::<Seq<char>>::empty(),
        r.user.cred.password@ == payload.password@,
        r.url@ == create_document_url_text(store_project@, "users"@, r.user.details.id@),
        exists|fs: Seq<Field>|
            #[trigger] encodes_registration(fs, r.user.details, payload.password@) && r.body@
                == document_text(fs),
        r.message@ == "User registered: "@ + payload.email@,
{
    let user = new_user(
        payload.display_name.as_str(),
        payload.username.as_str(),
        payload.email.as_str(),
        payload.password.as_str(),
    );
    let url = create_document_url(store_project, "users", user.details.id.as_str());
    let fs = registration_fields(&user.details, payload.password.as_str());
    let body = document_body(&fs);
    let mut message = String::from_str("User registered: ");
    message.append(payload.email.as_str());
    proof {
        assert(encodes_registration(fs@, user.details, payload.password@) && body@
            == document_text(fs@));
    }
    RegisterPlan { user, url, body, message }
}

/// The query the login endpoint posts: first user whose username
/// matches.
pub fn login_query_plan(store_project: &str, payload: &LoginPayload) -> (r: (String, String))
    ensures
        r.0@ == run_query_url_text(store_project@),
        r.1@ == equality_query_text("users"@, "username"@, payload.username@),
{
    (run_query_url(store_project), equality_query_body("users", "username", payload.username.as_str()))
}

/// The first row's document, if the query returned one.
pub open spec fn first_document(rows: Seq<QueryRow>) -> Option<StoreDoc> {
    if rows.len() == 0 {
        None
    } else {
        rows[0].document
    }
}

/// Judges a login attempt from the store's answer: a failed query is
/// a server error, no matching document means the user is unknown, a
/// document without fields is a server error, a password mismatch is
/// unauthorized, and otherwise the login succeeds.  The stored password defaults to empty where
/// the field is missing.
pub fn evaluate_login(status: u16, rows: &Vec<QueryRow>, payload: &LoginPayload) -> (r: Result<
    AuthResponse,
    u16,
>)
    ensures
        !spec_is_success_status(status) ==> (r matches Err(c) && c == 500),
        spec_is_success_status(status) && first_document(rows@) is None ==> (r matches Err(c) && c
            == 404),
        spec_is_success_status(status) && (first_document(rows@) matches Some(d) && d.fields
            is None) ==> (r matches Err(c) && c == 500),
        spec_is_success_status(status) && (first_document(rows@) matches Some(d)
            && d.fields matches Some(fv) && password_of(fv@) != payload.password@) ==> (r matches
        Err(c) && c == 401),
        spec_is_success_status(status) && (first_document(rows@) matches Some(d)
            && d.fields matches Some(fv) && password_of(fv@) == payload.password@) ==> (r matches
        Ok(a) && a.message@ == "\u{2705} Login successful: "@ + payload.username@),
{
    if !is_success_status(status) {
        return Err(500);
    }
    if rows.len() == 0 {
        return Err(404);
    }
    let doc = match &rows[0].document {
        Some(d) => d,
        None => {
            return Err(404);
        },
    };
    let fs = match &doc.fields {
        Some(fv) => fv,
        None => {
            return Err(500);
        },
    };
    let stored = get_text_or_empty(fs, "password");
    if !stored.eq(&payload.password) {
        return Err(401);
    }
    let mut message = String::from_str("\u{2705} Login successful: ");
    message.append(payload.username.as_str());
    Ok(AuthResponse { message })
}

} // verus!
