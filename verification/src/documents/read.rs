//! Reading one document.
use vstd::prelude::*;
use vstd::string::*;
use crate::documents::{document_name, firebase_url_base, spec_document_name, spec_firebase_url_base};
use crate::http::{Method, Payload, PayloadView, Request, RequestView};

verus! {

/// The request that reads the document with the given resource name.
pub open spec fn spec_read_by_name(document_name: Seq<char>) -> RequestView {
    RequestView {
        method: Method::Get,
        url: spec_firebase_url_base(document_name),
        payload: PayloadView::Empty,
        resource: document_name,
    }
}

/// Prepares the reading of a document by its resource name, such as
/// `projects/my_project/databases/(default)/documents/tests/test`.
pub fn read_by_name(document_name: &str) -> (request: Request)
    ensures
        request@ == spec_read_by_name(document_name@),
{
    Request {
        method: Method::Get,
        url: firebase_url_base(document_name),
        payload: Payload::Empty,
        resource: String::from_str(document_name),
    }
}

/// Prepares the reading of a document of a collection.
///
/// `path` is the collection, such as `my_collection` or
/// `a/nested/collection`, and does not hold the document id.
pub fn read(project_id: &str, path: &str, document_id: &str) -> (request: Request)
    ensures
        request@ == spec_read_by_name(spec_document_name(project_id@, path@, document_id@)),
{
    let name = document_name(project_id, path, document_id);
    read_by_name(name.as_str())
}

} // verus!
