//! The code-review and compile endpoints' data shapes, and the
//! fallback answers used when the reviewing service's reply cannot be
//! read.  The forwarding itself is plain HTTP and lives in the shell.

use vstd::prelude::*;
use vstd::string::StringExecFns;

verus! {

/// One suggestion of the reviewing service.
#[derive(Debug, Clone, PartialEq, Eq)]
pub struct Suggestion {
    pub line: usize,
    pub message: String,
    pub severity: Option<String>,
    pub fix: Option<String>,
}

/// The review endpoint's answer.
#[derive(Debug, Clone, PartialEq, Eq)]
pub struct ReviewResponse {
    pub suggestions: Vec<Suggestion>,
}

/// A request to compile a piece of code.
#[derive(Debug, Clone, PartialEq, Eq)]
pub struct CompileRequest {
    pub language: String,
    pub code: String,
}

/// The compile endpoint's answer.
#[derive(Debug, Clone, PartialEq, Eq)]
pub struct CompileResponse {
    pub stdout: String,
    pub stderr: String,
    pub exit_code: i32,
}

/// The review answer used when the reviewing service's reply does not
/// parse: no suggestions.
pub fn empty_review_response() -> (r: ReviewResponse)
    ensures
        r.suggestions@.len() == 0,
{
    ReviewResponse { suggestions: Vec::new() }
}

/// The compile answer used when the reviewing service's reply does not
/// parse: a failed run with the parse complaint on stderr.
pub fn fallback_compile_response() -> (r: CompileResponse)
    ensures
        r.stdout@ == Seq::<char>::empty(),
        r.stderr@ == "Error parsing response"@,
        r.exit_code == 1,
{
    CompileResponse {
        stdout: String::new(),
        stderr: String::from_str("Error parsing response"),
        exit_code: 1,
    }
}

} // verus!
