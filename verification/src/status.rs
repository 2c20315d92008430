//! HTTP status classification used when translating document-store
//! responses into client-facing results.

use vstd::prelude::*;

verus! {

/// A status code reports success exactly when it lies in the 2xx range.
pub open spec fn spec_is_success_status(status: u16) -> bool {
    200 <= status < 300
}

/// Mirrors the success test applied to every document-store response.
pub fn is_success_status(status: u16) -> (r: bool)
    ensures
        r == spec_is_success_status(status),
{
    200 <= status && status < 300
}

} // verus!

