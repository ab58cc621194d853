//! The three verbs of the database: read, query and write.
//!
//! Each verb is a function from its arguments to the request to send, a
//! [`crate::http::Request`]. What one attempt at sending it came to is
//! judged by [`attempt_outcome`]. What the answer that ends the call holds
//! is read off by [`crate::values::document_to_pod`] after a read, by
//! [`query::Query`] after a query, and by [`write::write_result`] after a
//! write.
use vstd::prelude::*;
use vstd::string::*;
use crate::backoff::{retryable_http_status, spec_retryable_http_status, Attempt};
use crate::errors::{
    extract_google_api_error, spec_response_failure, ErrorKind, FirebaseError, FirebaseErrorView,
};
use crate::http::{spec_is_success, HttpResponse};

pub mod query;
pub mod read;
pub mod write;

verus! {

/// The address of the database's REST interface.
pub open spec fn api_root() -> Seq<char> {
    "https://firestore.googleapis.com/v1/"@
}

/// The resource name of the documents of a project, up to and including the
/// last separator.
pub open spec fn spec_documents_root(project_id: Seq<char>) -> Seq<char> {
    "projects/"@ + project_id + "/databases/(default)/documents/"@
}

/// The resource name of a document.
pub open spec fn spec_document_name(
    project_id: Seq<char>,
    path: Seq<char>,
    document_id: Seq<char>,
) -> Seq<char> {
    spec_documents_root(project_id) + path + "/"@ + document_id
}

/// The address of the resource with the given name.
pub open spec fn spec_firebase_url_base(name: Seq<char>) -> Seq<char> {
    api_root() + name
}

/// The address of a document.
pub open spec fn spec_firebase_url_extended(
    project_id: Seq<char>,
    path: Seq<char>,
    document_id: Seq<char>,
) -> Seq<char> {
    api_root() + spec_document_name(project_id, path, document_id)
}

/// The address of a collection, ending in the mark that opens its parameters.
pub open spec fn spec_firebase_url(project_id: Seq<char>, path: Seq<char>) -> Seq<char> {
    api_root() + spec_documents_root(project_id) + path + "?"@
}

/// The address to which the queries of a project are sent.
pub open spec fn spec_firebase_url_query(project_id: Seq<char>) -> Seq<char> {
    api_root() + "projects/"@ + project_id + "/databases/(default)/documents:runQuery"@
}

/// The resource name of a document.
pub fn document_name(project_id: &str, path: &str, document_id: &str) -> (name: String)
    ensures
        name@ == spec_document_name(project_id@, path@, document_id@),
{
    let mut name = String::from_str("projects/");
    name.append(project_id);
    name.append("/databases/(default)/documents/");
    name.append(path);
    name.append("/");
    name.append(document_id);
    name
}

/// The address of the resource with the given name.
pub fn firebase_url_base(name: &str) -> (url: String)
    ensures
        url@ == spec_firebase_url_base(name@),
{
    let mut url = String::from_str("https://firestore.googleapis.com/v1/");
    url.append(name);
    url
}

/// The address of a document.
pub fn firebase_url_extended(project_id: &str, path: &str, document_id: &str) -> (url: String)
    ensures
        url@ == spec_firebase_url_extended(project_id@, path@, document_id@),
{
    let name = document_name(project_id, path, document_id);
    firebase_url_base(name.as_str())
}

/// The address of a collection, ending in the mark that opens its parameters.
pub fn firebase_url(project_id: &str, path: &str) -> (url: String)
    ensures
        url@ == spec_firebase_url(project_id@, path@),
{
    let mut url = String::from_str("https://firestore.googleapis.com/v1/");
    url.append("projects/");
    url.append(project_id);
    url.append("/databases/(default)/documents/");
    url.append(path);
    url.append("?");
    proof {
        assert(url@ =~= spec_firebase_url(project_id@, path@));
    }
    url
}

/// The address to which the queries of a project are sent.
pub fn firebase_url_query(project_id: &str) -> (url: String)
    ensures
        url@ == spec_firebase_url_query(project_id@),
{
    let mut url = String::from_str("https://firestore.googleapis.com/v1/");
    url.append("projects/");
    url.append(project_id);
    url.append("/databases/(default)/documents:runQuery");
    url
}

/// The error that stands for an exchange that the transport could not
/// complete.
pub open spec fn spec_network_failure(message: Seq<char>, resource: Seq<char>) -> FirebaseErrorView {
    FirebaseErrorView { kind: ErrorKind::Network, message, status: None, resource }
}

/// Judges one attempt at a request.
///
/// `reply` is the response, or the transport's account of why there is none.
/// A response in the 2xx range is a success and is handed on unchanged. Any
/// other response is a failure, transient on the statuses that are retried
/// and permanent on the others. No response at all is a transient failure.
pub fn attempt_outcome(reply: Result<HttpResponse, String>, resource: &str) -> (outcome: Attempt<
    HttpResponse,
>)
    ensures
        match reply {
            Ok(response) => if spec_is_success(response.status) {
                outcome == Attempt::Success(response)
            } else if spec_retryable_http_status(response.status) {
                outcome matches Attempt::Transient(error) && error@ == spec_response_failure(
                    response,
                    resource@,
                )
            } else {
                outcome matches Attempt::Permanent(error) && error@ == spec_response_failure(
                    response,
                    resource@,
                )
            },
            Err(message) => outcome matches Attempt::Transient(error) && error@
                == spec_network_failure(message@, resource@),
        },
        outcome matches Attempt::Transient(error) ==> error@.is_transient(),
        outcome matches Attempt::Permanent(error) ==> !error@.is_transient(),
{
    match reply {
        Ok(response) => {
            let status = response.status;
            let context = || -> (name: String)
                ensures
                    name@ == resource@,
                { String::from_str(resource) };
            match extract_google_api_error(response, context) {
                Ok(passed) => Attempt::Success(passed),
                Err(error) => {
                    if retryable_http_status(status) {
                        Attempt::Transient(error)
                    } else {
                        Attempt::Permanent(error)
                    }
                },
            }
        },
        Err(message) => Attempt::Transient(
            FirebaseError {
                kind: ErrorKind::Network,
                message,
                status: None,
                resource: String::from_str(resource),
            },
        ),
    }
}

} // verus!
