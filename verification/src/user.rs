//! The user endpoints' compute half: the two documents a new user
//! becomes, the lookup queries, the password check, and the answers.

use crate::fields::Field;
use crate::fields::document_body;
use crate::fields::document_text;
use crate::fields::lookup_array_views;
use crate::fields::lookup_text;
use crate::fields::text_or_empty;
use crate::fields::views_of;
use crate::ids::is_uuid_seq;
use crate::query::equality_query_body;
use crate::query::equality_query_text;
use crate::records::NewUser;
use crate::records::UserDetails;
use crate::records::encodes_user_details;
use crate::records::new_user;
use crate::records::credentials_fields;
use crate::records::user_details_fields;
use crate::records::user_details_of_fields;
use crate::records::uuid_filter;
use crate::store::StoreDoc;
use crate::urls::create_document_url;
use crate::urls::create_document_url_text;
use crate::urls::document_url;
use crate::urls::document_url_text;
use crate::urls::run_query_url;
use crate::urls::run_query_url_text;
use vstd::prelude::*;
use vstd::string::StringExecFns;

verus! {

/// A request to create a user.
#[derive(Debug, Clone, PartialEq, Eq)]
pub struct CreateUserRequest {
    pub display_name: String,
    pub username: String,
    pub email: String,
    pub password: String,
}

/// The answer of the user-creation endpoint.
#[derive(Debug, Clone, PartialEq, Eq)]
pub struct UserResponse {
    pub message: String,
    pub user_id: Option<String>,
}

/// The answer of the user login endpoint.
#[derive(Debug, Clone, PartialEq, Eq)]
pub struct LoginResponse {
    pub authenticated: bool,
    pub user_details: Option<UserDetails>,
}

/// A login request against the user collections.
#[derive(Debug, Clone, PartialEq, Eq)]
pub struct LoginRequest {
    pub email: String,
    pub password: String,
}

/// Everything the user-creation endpoint prepares: the fresh user,
/// the credentials document, the profile document, and the URL that
/// removes the credentials again should the second write fail.
pub struct CreateUserPlan {
    pub user: NewUser,
    pub creds_url: String,
    pub creds_body: String,
    pub details_url: String,
    pub details_body: String,
    pub rollback_url: String,
}

/// Plans the two writes that create a user: credentials first, then
/// the profile, with the rollback URL for a half-done creation.
pub fn create_user_plan(store_project: &str, req: &CreateUserRequest) -> (r: CreateUserPlan)
    ensures
        is_uuid_seq(r.user.details.id@),
        r.user.cred.id@ == r.user.details.id@,
        r.user.details.display_name@ == req.display_name@,
        r.user.details.username@ == req.username@,
        r.user.details.email@ == req.email@,
        views_of(r.user.details.projects@) == Seq::<Seq<char>>::empty(),
        r.user.cred.password@ == req.password@,
        r.creds_url@ == create_document_url_text(
            store_project@,
            "user_credentials"@,
            r.user.details.id@,
        ),
        exists|fs: Seq<Field>|
            {
                &&& #[trigger] fs.len() == 3
                &&& fs[0].name@ == "id"@ && crate::fields::text_value(fs[0].value) == Some(
                    r.user.details.id@,
                )
                &&& fs[1].name@ == "email"@ && crate::fields::text_value(fs[1].value) == Some(
                    req.email@,
                )
                &&& fs[2].name@ == "password"@ && crate::fields::text_value(fs[2].value) == Some(
                    req.password@,
                )
                &&& r.creds_body@ == document_text(fs)
            },
        r.details_url@ == create_document_url_text(
            store_project@,
            "user_details"@,
            r.user.details.id@,
        ),
        exists|fs: Seq<Field>|
            #[trigger] encodes_user_details(fs, r.user.details) && r.details_body@
                == document_text(fs),
        r.rollback_url@ == document_url_text(
            store_project@,
            "user_credentials"@,
            r.user.details.id@,
        ),
{
    let user = new_user(
        req.display_name.as_str(),
        req.username.as_str(),
        req.email.as_str(),
        req.password.as_str(),
    );
    let creds_url = create_document_url(store_project, "user_credentials", user.details.id.as_str());
    let creds_fs = credentials_fields(&user.cred, req.email.as_str());
    let creds_body = document_body(&creds_fs);
    let details_url = create_document_url(store_project, "user_details", user.details.id.as_str());
    let details_fs = user_details_fields(&user.details);
    let details_body = document_body(&details_fs);
    let rollback_url = document_url(store_project, "user_credentials", user.details.id.as_str());
    proof {
        assert(creds_fs@.len() == 3 && creds_body@ == document_text(creds_fs@));
        assert(encodes_user_details(details_fs@, user.details) && details_body@ == document_text(
            details_fs@,
        ));
    }
    CreateUserPlan { user, creds_url, creds_body, details_url, details_body, rollback_url }
}

/// The query that looks a user up by one field — email, identifier or
/// username, as each endpoint chooses.
pub fn user_query_plan(store_project: &str, field: &str, value: &str) -> (r: (String, String))
    ensures
        r.0@ == run_query_url_text(store_project@),
        r.1@ == equality_query_text("users"@, field@, value@),
{
    (run_query_url(store_project), equality_query_body("users", field, value))
}

/// Whether a looked-up document authenticates the given password: it
/// must carry a password field that matches exactly.  No document, no
/// fields or no password field all deny.
pub fn check_password(doc: &Option<StoreDoc>, password: &str) -> (r: bool)
    ensures
        r == (match *doc {
            Some(d) => match d.fields {
                Some(fv) => match lookup_text(fv@, "password"@) {
                    Some(stored) => stored == password@,
                    None => false,
                },
                None => false,
            },
            None => false,
        }),
{
    match doc {
        Some(d) => match &d.fields {
            Some(fv) => match crate::fields::get_text(fv, "password") {
                Some(stored) => crate::strutil::str_eq(stored.as_str(), password),
                None => false,
            },
            None => false,
        },
        None => false,
    }
}

/// How an attempt to create a user ended.
#[derive(Debug, Clone, PartialEq, Eq)]
pub enum CreateUserEvent {
    EmailTaken,
    Created(String),
    Failed(String),
}

/// The creation endpoint's answer for each outcome.
pub fn create_user_response(ev: &CreateUserEvent) -> (r: (u16, UserResponse))
    ensures
        ev is EmailTaken ==> r.0 == 400 && r.1.message@ == "User with this email already exists"@
            && r.1.user_id is None,
        ev matches CreateUserEvent::Created(id) ==> r.0 == 201 && r.1.message@
            == "User created successfully"@ && (r.1.user_id matches Some(v) && v@ == id@),
        ev matches CreateUserEvent::Failed(e) ==> r.0 == 500 && r.1.message@ == e@
            && r.1.user_id is None,
{
    match ev {
        CreateUserEvent::EmailTaken => (
            400,
            UserResponse {
                message: String::from_str("User with this email already exists"),
                user_id: None,
            },
        ),
        CreateUserEvent::Created(id) => (
            201,
            UserResponse {
                message: String::from_str("User created successfully"),
                user_id: Some(id.clone()),
            },
        ),
        CreateUserEvent::Failed(e) => (
            500,
            UserResponse { message: e.clone(), user_id: None },
        ),
    }
}

/// The fields a fetched document carries, empty when it has none.
pub open spec fn doc_fields(d: StoreDoc) -> Seq<Field> {
    match d.fields {
        Some(fv) => fv@,
        None => Seq::empty(),
    }
}

/// The login endpoint's answer once the password has matched: the
/// profile decoded from whatever lookup document came back, or no
/// profile when none did.
pub fn login_granted_response(doc: &Option<StoreDoc>) -> (r: LoginResponse)
    ensures
        r.authenticated,
        doc is None ==> r.user_details is None,
        (*doc) matches Some(d) ==> (r.user_details matches Some(u) && {
            &&& u.id@ == (if is_uuid_seq(text_or_empty(doc_fields(d), "id"@)) {
                text_or_empty(doc_fields(d), "id"@)
            } else {
                "00000000-0000-0000-0000-000000000000"@
            })
            &&& u.display_name@ == text_or_empty(doc_fields(d), "display_name"@)
            &&& u.username@ == text_or_empty(doc_fields(d), "username"@)
            &&& u.email@ == text_or_empty(doc_fields(d), "email"@)
            &&& views_of(u.projects@) == (match lookup_array_views(doc_fields(d), "projects"@) {
                Some(vs) => uuid_filter(vs),
                None => Seq::<Seq<char>>::empty(),
            })
        }),
{
    match doc {
        Some(d) => {
            let details = match &d.fields {
                Some(fv) => user_details_of_fields(fv),
                None => {
                    let empty: Vec<Field> = Vec::new();
                    proof {
                        assert(empty@ =~= Seq::<Field>::empty());
                    }
                    user_details_of_fields(&empty)
                },
            };
            LoginResponse { authenticated: true, user_details: Some(details) }
        },
        None => LoginResponse { authenticated: true, user_details: None },
    }
}

/// The login endpoint's answer for a failed password check.
pub fn login_denied_response() -> (r: (u16, LoginResponse))
    ensures
        r.0 == 401,
        !r.1.authenticated,
        r.1.user_details is None,
{
    (401, LoginResponse { authenticated: false, user_details: None })
}

} // verus!
