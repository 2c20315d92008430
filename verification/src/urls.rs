//! Request URLs for the document store's REST interface.
//!
//! Every call the service makes goes to a URL of a fixed shape under
//! the store's documents root; the only varying parts are the store
//! project, the collection, the document identifier and, for partial
//! updates, the field mask.

use crate::fields::views_of;
use vstd::prelude::*;
use vstd::string::StringExecFns;

verus! {

/// The documents root of a store project.
pub open spec fn documents_root(project: Seq<char>) -> Seq<char> {
    "https://firestore.googleapis.com/v1/projects/"@ + project
        + "/databases/(default)/documents"@
}

/// The URL of a collection.
pub open spec fn collection_url_text(project: Seq<char>, collection: Seq<char>) -> Seq<char> {
    documents_root(project) + "/"@ + collection
}

/// The URL of one document.
pub open spec fn document_url_text(
    project: Seq<char>,
    collection: Seq<char>,
    doc_id: Seq<char>,
) -> Seq<char> {
    documents_root(project) + "/"@ + collection + "/"@ + doc_id
}

/// The URL that creates a document under a chosen identifier.
pub open spec fn create_document_url_text(
    project: Seq<char>,
    collection: Seq<char>,
    doc_id: Seq<char>,
) -> Seq<char> {
    documents_root(project) + "/"@ + collection + "?documentId="@ + doc_id
}

/// The URL that runs a structured query over the project.
pub open spec fn run_query_url_text(project: Seq<char>) -> Seq<char> {
    documents_root(project) + ":runQuery"@
}

/// The query string that masks an update to the named fields.
pub open spec fn mask_query(fields: Seq<Seq<char>>) -> Seq<char>
    decreases fields.len(),
{
    if fields.len() == 0 {
        Seq::empty()
    } else if fields.len() == 1 {
        "?updateMask.fieldPaths="@ + fields[0]
    } else {
        mask_query(fields.drop_last()) + "&updateMask.fieldPaths="@ + fields.last()
    }
}

/// The URL that patches only the named fields of a document.
pub open spec fn masked_update_url_text(
    project: Seq<char>,
    collection: Seq<char>,
    doc_id: Seq<char>,
    fields: Seq<Seq<char>>,
) -> Seq<char> {
    document_url_text(project, collection, doc_id) + mask_query(fields)
}

fn push_documents_root(out: &mut String, project: &str)
    ensures
        final(out)@ == old(out)@ + documents_root(project@),
{
    out.append("https://firestore.googleapis.com/v1/projects/");
    out.append(project);
    out.append("/databases/(default)/documents");
    assert(out@ =~= old(out)@ + documents_root(project@));
}

/// The URL of a collection.
pub fn collection_url(project: &str, collection: &str) -> (r: String)
    ensures
        r@ == collection_url_text(project@, collection@),
{
    let mut out = String::new();
    push_documents_root(&mut out, project);
    out.append("/");
    out.append(collection);
    assert(out@ =~= collection_url_text(project@, collection@));
    out
}

/// The URL of one document.
pub fn document_url(project: &str, collection: &str, doc_id: &str) -> (r: String)
    ensures
        r@ == document_url_text(project@, collection@, doc_id@),
{
    let mut out = String::new();
    push_documents_root(&mut out, project);
    out.append("/");
    out.append(collection);
    out.append("/");
    out.append(doc_id);
    assert(out@ =~= document_url_text(project@, collection@, doc_id@));
    out
}

/// The URL that creates a document under a chosen identifier.
pub fn create_document_url(project: &str, collection: &str, doc_id: &str) -> (r: String)
    ensures
        r@ == create_document_url_text(project@, collection@, doc_id@),
{
    let mut out = String::new();
    push_documents_root(&mut out, project);
    out.append("/");
    out.append(collection);
    out.append("?documentId=");
    out.append(doc_id);
    assert(out@ =~= create_document_url_text(project@, collection@, doc_id@));
    out
}

/// The URL that runs a structured query over the project.
pub fn run_query_url(project: &str) -> (r: String)
    ensures
        r@ == run_query_url_text(project@),
{
    let mut out = String::new();
    push_documents_root(&mut out, project);
    out.append(":runQuery");
    assert(out@ =~= run_query_url_text(project@));
    out
}

/// The URL that patches only the named fields of a document.
pub fn masked_update_url(
    project: &str,
    collection: &str,
    doc_id: &str,
    fields: &Vec<String>,
) -> (r: String)
    ensures
        r@ == masked_update_url_text(project@, collection@, doc_id@, views_of(fields@)),
{
    let mut out = document_url(project, collection, doc_id);
    let ghost base = out@;
    proof {
        assert(views_of(fields@.take(0)) =~= Seq::<Seq<char>>::empty());
    }
    for i in 0..fields.len()
        invariant
            out@ == base + mask_query(views_of(fields@.take(i as int))),
    {
        let ghost j = i as int;
        let ghost w = views_of(fields@.take(j));
        proof {
            assert(views_of(fields@.take(j + 1)) =~= w.push(fields@[j]@));
            assert(w.push(fields@[j]@).drop_last() =~= w);
            assert(w.push(fields@[j]@).last() == fields@[j]@);
            if j > 0 {
                assert(w.push(fields@[j]@).len() > 1);
            }
        }
        if i == 0 {
            out.append("?updateMask.fieldPaths=");
        } else {
            out.append("&updateMask.fieldPaths=");
        }
        out.append(fields[i].as_str());
        assert(out@ =~= base + mask_query(views_of(fields@.take(j + 1))));
    }
    proof {
        assert(fields@.take(fields@.len() as int) =~= fields@);
    }
    out
}

} // verus!
