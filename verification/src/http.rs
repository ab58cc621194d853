//! Requests as the library prepares them, and responses as it receives them.
//!
//! The library performs no exchange itself: it hands out a [`Request`] and is
//! handed back an [`HttpResponse`].
use vstd::prelude::*;
use crate::dto::{Document, DocumentView, RunQueryRequest, RunQueryRequestView};

verus! {

/// The verb of a request.
#[derive(Debug, Clone, Copy, PartialEq, Eq, Structural)]
pub enum Method {
    Get,
    Post,
    Patch,
}

/// What a request carries in its body.
#[derive(Debug, PartialEq, Eq)]
pub enum Payload {
    Empty,
    Document(Document),
    Query(RunQueryRequest),
}

/// The mathematical content of a [`Payload`].
pub enum PayloadView {
    Empty,
    Document(DocumentView),
    Query(RunQueryRequestView),
}

impl View for Payload {
    type V = PayloadView;

    open spec fn view(&self) -> PayloadView {
        match self {
            Payload::Empty => PayloadView::Empty,
            Payload::Document(document) => PayloadView::Document(document@),
            Payload::Query(query) => PayloadView::Query(query@),
        }
    }
}

/// A request, ready to be sent as often as the retry policy asks.
///
/// `resource` names what the request is about, for the errors that an
/// attempt may end in.
#[derive(Debug, PartialEq, Eq)]
pub struct Request {
    pub method: Method,
    pub url: String,
    pub payload: Payload,
    pub resource: String,
}

/// The mathematical content of a [`Request`].
pub struct RequestView {
    pub method: Method,
    pub url: Seq<char>,
    pub payload: PayloadView,
    pub resource: Seq<char>,
}

impl View for Request {
    type V = RequestView;

    open spec fn view(&self) -> RequestView {
        RequestView {
            method: self.method,
            url: self.url@,
            payload: self.payload@,
            resource: self.resource@,
        }
    }
}

/// A response: its status and the text of its body.
#[derive(Debug, Clone, PartialEq, Eq)]
pub struct HttpResponse {
    pub status: u16,
    pub body: String,
}

/// The statuses of the 2xx range.
pub open spec fn spec_is_success(status: u16) -> bool {
    200 <= status < 300
}

/// Whether the status is in the 2xx range.
#[verifier::when_used_as_spec(spec_is_success)]
pub fn is_success(status: u16) -> (yes: bool)
    ensures
        yes == spec_is_success(status),
{
    200 <= status && status < 300
}

} // verus!
