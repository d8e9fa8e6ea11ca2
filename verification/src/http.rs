//! The HTTP exchanges of the client, as plain values.
//!
//! The library performs no I/O. It describes each exchange it wants as an
//! `HttpRequest`, and is told what came of it as an `HttpReply`.

use vstd::prelude::*;

verus! {

/// The HTTP method of a request.
#[derive(Clone, Copy, Debug, PartialEq, Eq)]
pub enum HttpMethod {
    Get,
    Post,
}

/// One HTTP request, to be sent with basic authentication. `body` is the
/// JSON text to post, and empty for a `Get`.
#[derive(Clone, Debug, PartialEq, Eq)]
pub struct HttpRequest {
    pub method: HttpMethod,
    pub url: String,
    pub username: String,
    pub password: String,
    pub body: String,
}

/// An `HttpRequest` with its texts as sequences of characters.
pub struct HttpRequestView {
    pub method: HttpMethod,
    pub url: Seq<char>,
    pub username: Seq<char>,
    pub password: Seq<char>,
    pub body: Seq<char>,
}

impl View for HttpRequest {
    type V = HttpRequestView;

    open spec fn view(&self) -> HttpRequestView {
        HttpRequestView {
            method: self.method,
            url: self.url@,
            username: self.username@,
            password: self.password@,
            body: self.body@,
        }
    }
}

/// What came of sending one request.
#[derive(Clone, Debug, PartialEq, Eq)]
pub enum HttpReply {
    /// No response was received; the text describes the failure.
    Failed(String),
    /// The server answered with this status code and body.
    Answer { status: u16, body: String },
}

/// An `HttpReply` with its texts as sequences of characters.
pub enum HttpReplyView {
    Failed(Seq<char>),
    Answer { status: u16, body: Seq<char> },
}

impl View for HttpReply {
    type V = HttpReplyView;

    open spec fn view(&self) -> HttpReplyView {
        match self {
            HttpReply::Failed(detail) => HttpReplyView::Failed(detail@),
            HttpReply::Answer { status, body } => HttpReplyView::Answer {
                status: *status,
                body: body@,
            },
        }
    }
}

/// Whether a status code reports a client or server error: the codes from
/// 400 to 599.
pub open spec fn is_error_status(status: u16) -> bool {
    400 <= status <= 599
}

/// Decides whether a status code reports a client or server error.
pub fn error_status(status: u16) -> (r: bool)
    ensures
        r == is_error_status(status),
{
    400 <= status && status <= 599
}

} // verus!
