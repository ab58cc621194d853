//! The error type shared by every operation, and how a failed response
//! becomes one.
use vstd::prelude::*;
use vstd::string::*;
use crate::dto::{text_view, GoogleRestApiError, GoogleRestApiErrorView};
use crate::http::{is_success, spec_is_success, HttpResponse};

verus! {

/// What went wrong, by where it went wrong.
#[derive(Debug, Clone, Copy, PartialEq, Eq, Structural)]
pub enum ErrorKind {
    /// The transport could not complete the exchange.
    Network,
    /// The database answered with a status outside the 2xx range.
    Http,
    /// A body that should have decoded did not.
    Parse,
    /// A value has no counterpart on the other side of the mapping.
    Mapping,
    /// A resource name could not be reduced to a document id.
    Path,
}

/// An error of the access layer, with what is needed to diagnose it: the
/// HTTP status where there was one, and the resource that the operation was
/// about.
#[derive(Debug, Clone, PartialEq, Eq)]
pub struct FirebaseError {
    pub kind: ErrorKind,
    pub message: String,
    pub status: Option<u16>,
    pub resource: String,
}

/// The mathematical content of a [`FirebaseError`].
pub struct FirebaseErrorView {
    pub kind: ErrorKind,
    pub message: Seq<char>,
    pub status: Option<u16>,
    pub resource: Seq<char>,
}

impl View for FirebaseError {
    type V = FirebaseErrorView;

    open spec fn view(&self) -> FirebaseErrorView {
        FirebaseErrorView {
            kind: self.kind,
            message: self.message@,
            status: self.status,
            resource: self.resource@,
        }
    }
}

impl FirebaseError {
    /// An error of the given kind that no HTTP status belongs to.
    pub fn new(kind: ErrorKind, message: &str, resource: &str) -> (error: FirebaseError)
        ensures
            error@ == (FirebaseErrorView {
                kind,
                message: message@,
                status: None,
                resource: resource@,
            }),
    {
        FirebaseError {
            kind,
            message: String::from_str(message),
            status: None,
            resource: String::from_str(resource),
        }
    }

    /// Whether sending the request again may help.
    pub fn is_transient(&self) -> (yes: bool)
        ensures
            yes == self@.is_transient(),
    {
        match self.kind {
            ErrorKind::Network => true,
            ErrorKind::Http => match self.status {
                Some(status) => crate::backoff::retryable_http_status(status),
                None => false,
            },
            _ => false,
        }
    }
}

impl FirebaseErrorView {
    /// Whether sending the request again may help: after a network failure
    /// it always may, after a failed response it may on the statuses that
    /// are retried, and after anything else it does not.
    pub open spec fn is_transient(self) -> bool {
        match self.kind {
            ErrorKind::Network => true,
            ErrorKind::Http => match self.status {
                Some(status) => crate::backoff::spec_retryable_http_status(status),
                None => false,
            },
            _ => false,
        }
    }
}

/// The text found in a JSON document at the place that a JSON pointer
/// names, or nothing where the document is not JSON or holds no text there.
pub uninterp spec fn json_text_at(document: Seq<char>, pointer: Seq<char>) -> Option<Seq<char>>;

/// The number found in a JSON document at the place that a JSON pointer
/// names, or nothing where the document is not JSON or holds no integer
/// from zero up to the largest `u64` there.
pub uninterp spec fn json_unsigned_at(document: Seq<char>, pointer: Seq<char>) -> Option<u64>;

/// Calls `serde_json::from_str` for a `serde_json::Value`, then
/// `Value::pointer` and `Value::as_str` on what it parsed.
///
/// The outcome depends on the two texts alone, so the contract names it:
/// `json_text_at`. Nothing more is claimed of it.
#[verifier::external_body]
fn text_at(document: &str, pointer: &str) -> (text: Option<String>)
    ensures
        text_view(text) == json_text_at(document@, pointer@),
{
    let parsed: serde_json::Value = serde_json::from_str(document).ok()?;
    parsed.pointer(pointer)?.as_str().map(str::to_owned)
}

/// Calls `serde_json::from_str` for a `serde_json::Value`, then
/// `Value::pointer` and `Value::as_u64` on what it parsed.
///
/// The outcome depends on the two texts alone, so the contract names it:
/// `json_unsigned_at`. Nothing more is claimed of it.
#[verifier::external_body]
fn unsigned_at(document: &str, pointer: &str) -> (number: Option<u64>)
    ensures
        number == json_unsigned_at(document@, pointer@),
{
    let parsed: serde_json::Value = serde_json::from_str(document).ok()?;
    parsed.pointer(pointer)?.as_u64()
}

/// Puts an error descriptor together from what was found of its parts:
/// there is one only if all three were found.
pub open spec fn spec_assemble_api_error(
    code: Option<u64>,
    message: Option<Seq<char>>,
    status: Option<Seq<char>>,
) -> Option<GoogleRestApiErrorView> {
    match (code, message, status) {
        (Some(code), Some(message), Some(status)) => Some(
            GoogleRestApiErrorView { code, message, status },
        ),
        _ => None,
    }
}

/// Puts an error descriptor together from what was found of its parts.
pub fn assemble_api_error(code: Option<u64>, message: Option<String>, status: Option<String>) -> (
    descriptor: Option<GoogleRestApiError>)
    ensures
        descriptor_view(descriptor) == spec_assemble_api_error(
            code,
            text_view(message),
            text_view(status),
        ),
{
    match (code, message, status) {
        (Some(code), Some(message), Some(status)) => Some(
            GoogleRestApiError { code, message, status },
        ),
        _ => None,
    }
}

/// The view of an optional error descriptor.
pub open spec fn descriptor_view(descriptor: Option<GoogleRestApiError>) -> Option<
    GoogleRestApiErrorView,
> {
    match descriptor {
        Some(d) => Some(d@),
        None => None,
    }
}

/// The error descriptor that the body of a failed response holds: the
/// body is a JSON object whose member `error` is an object with a number
/// `code`, a text `message` and a text `status`. Anything else holds none.
pub open spec fn spec_decode_api_error(body: Seq<char>) -> Option<GoogleRestApiErrorView> {
    spec_assemble_api_error(
        json_unsigned_at(body, "/error/code"@),
        json_text_at(body, "/error/message"@),
        json_text_at(body, "/error/status"@),
    )
}

/// Looks for the database's error descriptor in the body of a response.
pub fn decode_api_error(body: &str) -> (descriptor: Option<GoogleRestApiError>)
    ensures
        descriptor_view(descriptor) == spec_decode_api_error(body@),
{
    let code = unsigned_at(body, "/error/code");
    let message = text_at(body, "/error/message");
    let status = text_at(body, "/error/status");
    assemble_api_error(code, message, status)
}

/// The message of the error that a failed response becomes: the status word
/// and the message of the descriptor where the body held one, else the text
/// of the body as it came.
pub open spec fn spec_failure_message(
    descriptor: Option<GoogleRestApiErrorView>,
    body: Seq<char>,
) -> Seq<char> {
    match descriptor {
        Some(d) => d.status + ": "@ + d.message,
        None => body,
    }
}

/// The error that a failed response becomes for the given resource. It
/// carries the status of the response, whatever code the descriptor holds.
pub open spec fn spec_api_failure(
    status: u16,
    descriptor: Option<GoogleRestApiErrorView>,
    body: Seq<char>,
    resource: Seq<char>,
) -> FirebaseErrorView {
    FirebaseErrorView {
        kind: ErrorKind::Http,
        message: spec_failure_message(descriptor, body),
        status: Some(status),
        resource,
    }
}

/// The error that a failed response becomes for the given resource, where
/// `descriptor` is what was found in its body.
pub fn api_failure(
    status: u16,
    descriptor: Option<GoogleRestApiError>,
    body: &str,
    resource: String,
) -> (error: FirebaseError)
    ensures
        error@ == spec_api_failure(status, descriptor_view(descriptor), body@, resource@),
{
    let message = match descriptor {
        Some(d) => {
            let mut text = d.status;
            text.append(": ");
            text.append(d.message.as_str());
            text
        },
        None => String::from_str(body),
    };
    FirebaseError { kind: ErrorKind::Http, message, status: Some(status), resource }
}

/// The error that a response with a status outside the 2xx range becomes.
pub open spec fn spec_response_failure(response: HttpResponse, resource: Seq<char>) -> FirebaseErrorView {
    spec_api_failure(
        response.status,
        spec_decode_api_error(response.body@),
        response.body@,
        resource,
    )
}

/// Lets a successful response through and turns any other into an error.
///
/// A response with a status in the 2xx range is handed back as it came, and
/// `context` is not called. Any other response becomes an error for the
/// resource that `context` names: the error of the descriptor in its body
/// or, where the body holds none, one with the text of the body.
pub fn extract_google_api_error<F: FnOnce() -> String>(response: HttpResponse, context: F) -> (result:
    Result<HttpResponse, FirebaseError>)
    requires
        call_requires(context, ()),
    ensures
        spec_is_success(response.status) ==> result == Ok::<HttpResponse, FirebaseError>(response),
        !spec_is_success(response.status) ==> (result matches Err(error) && exists|
            resource: String,
        |
            call_ensures(context, (), resource) && error@ == spec_response_failure(
                response,
                resource@,
            )),
{
    if is_success(response.status) {
        Ok(response)
    } else {
        let resource = context();
        let descriptor = decode_api_error(response.body.as_str());
        Err(api_failure(response.status, descriptor, response.body.as_str(), resource))
    }
}

} // verus!
