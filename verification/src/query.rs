//! The one structured query the service runs: find the first document
//! of a collection whose field equals a value.

use crate::json::push_quoted;
use crate::json::quoted;
use vstd::prelude::*;
use vstd::string::StringExecFns;

verus! {

/// The JSON body of an equality query limited to one result.
pub open spec fn equality_query_text(
    collection: Seq<char>,
    field: Seq<char>,
    value: Seq<char>,
) -> Seq<char> {
    "{\"structuredQuery\":{\"from\":[{\"collectionId\":"@ + quoted(collection)
        + "}],\"where\":{\"fieldFilter\":{\"field\":{\"fieldPath\":"@ + quoted(field)
        + "},\"op\":\"EQUAL\",\"value\":{\"stringValue\":"@ + quoted(value)
        + "}}},\"limit\":1}}"@
}

/// Builds the equality query body.
pub fn equality_query_body(collection: &str, field: &str, value: &str) -> (r: String)
    ensures
        r@ == equality_query_text(collection@, field@, value@),
{
    let mut out = String::new();
    out.append("{\"structuredQuery\":{\"from\":[{\"collectionId\":");
    push_quoted(&mut out, collection);
    out.append("}],\"where\":{\"fieldFilter\":{\"field\":{\"fieldPath\":");
    push_quoted(&mut out, field);
    out.append("},\"op\":\"EQUAL\",\"value\":{\"stringValue\":");
    push_quoted(&mut out, value);
    out.append("}}},\"limit\":1}}");
    assert(out@ =~= equality_query_text(collection@, field@, value@));
    out
}

} // verus!
