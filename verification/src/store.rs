//! The shapes the document store sends back.
//!
//! A document fetch returns a document that may or may not carry a
//! `fields` object; a structured query returns rows, each of which may
//! or may not carry a document.  The distinctions matter: the handlers
//! answer differently for a missing row, a missing document and a
//! document without fields.

use crate::fields::Field;
use vstd::prelude::*;

verus! {

/// A document as the store returns it.
#[derive(Debug, Clone, PartialEq, Eq)]
pub struct StoreDoc {
    pub fields: Option<Vec<Field>>,
}

/// One row of a structured-query response.
#[derive(Debug, Clone, PartialEq, Eq)]
pub struct QueryRow {
    pub document: Option<StoreDoc>,
}

} // verus!
