//! The ad hoc JSON bodies the handlers answer with.

use crate::json::push_quoted;
use crate::json::quoted;
use vstd::prelude::*;
use vstd::string::StringExecFns;

verus! {

/// The body `{"error":...}` that carries an error text.
pub open spec fn error_body_text(msg: Seq<char>) -> Seq<char> {
    "{\"error\":"@ + quoted(msg) + "}"@
}

/// The body `{"message":...}` that carries a success text.
pub open spec fn message_body_text(msg: Seq<char>) -> Seq<char> {
    "{\"message\":"@ + quoted(msg) + "}"@
}

/// Builds the error body.
pub fn error_body(msg: &str) -> (r: String)
    ensures
        r@ == error_body_text(msg@),
{
    let mut out = String::new();
    out.append("{\"error\":");
    push_quoted(&mut out, msg);
    out.append("}");
    assert(out@ =~= error_body_text(msg@));
    out
}

/// Builds the success body.
pub fn message_body(msg: &str) -> (r: String)
    ensures
        r@ == message_body_text(msg@),
{
    let mut out = String::new();
    out.append("{\"message\":");
    push_quoted(&mut out, msg);
    out.append("}");
    assert(out@ =~= message_body_text(msg@));
    out
}

} // verus!
