//! The errors of the client, each with the description shown to a caller.

use crate::json::{compact_text, json_view, to_text, JsonView};
use serde_json::Value;
use vstd::prelude::*;
use vstd::string::StringExecFns;

verus! {

/// Why a session could not be established.
#[derive(Clone, Debug, PartialEq, Eq)]
pub enum ConnectError {
    /// The session resource could not be fetched; the text is the
    /// transport's account of the failure.
    Transport(String),
    /// The server answered the session request with this error status.
    Auth(u16),
    /// The session resource is not JSON of the expected shape.
    Decode,
    /// The session names no primary account for mail.
    NoMailAccount,
    /// The primary mail account, whose identifier this is, is missing from
    /// the session's accounts.
    AccountConsistency(String),
}

/// A `ConnectError` with its texts as sequences of characters.
pub enum ConnectErrorView {
    Transport(Seq<char>),
    Auth(u16),
    Decode,
    NoMailAccount,
    AccountConsistency(Seq<char>),
}

impl View for ConnectError {
    type V = ConnectErrorView;

    open spec fn view(&self) -> ConnectErrorView {
        match self {
            ConnectError::Transport(detail) => ConnectErrorView::Transport(detail@),
            ConnectError::Auth(status) => ConnectErrorView::Auth(*status),
            ConnectError::Decode => ConnectErrorView::Decode,
            ConnectError::NoMailAccount => ConnectErrorView::NoMailAccount,
            ConnectError::AccountConsistency(id) => ConnectErrorView::AccountConsistency(id@),
        }
    }
}

/// The description of a `ConnectError`.
pub open spec fn connect_error_text(e: ConnectErrorView) -> Seq<char> {
    match e {
        ConnectErrorView::Transport(_) => "failed to fetch JMAP session"@,
        ConnectErrorView::Auth(_) => "JMAP session auth failed"@,
        ConnectErrorView::Decode => "failed to parse JMAP session"@,
        ConnectErrorView::NoMailAccount => "no primary mail account found"@,
        ConnectErrorView::AccountConsistency(id) => "account "@ + id + " not in session"@,
    }
}

impl ConnectError {
    /// The description of this error.
    pub fn message(&self) -> (text: String)
        ensures
            text@ == connect_error_text(self@),
    {
        match self {
            ConnectError::Transport(_) => "failed to fetch JMAP session".to_owned(),
            ConnectError::Auth(_) => "JMAP session auth failed".to_owned(),
            ConnectError::Decode => "failed to parse JMAP session".to_owned(),
            ConnectError::NoMailAccount => "no primary mail account found".to_owned(),
            ConnectError::AccountConsistency(id) => {
                let mut text = "account ".to_owned();
                text.append(id.as_str());
                text.append(" not in session");
                text
            },
        }
    }
}

/// Why an operation on the mail server failed.
#[derive(Clone, Debug, PartialEq, Eq)]
pub enum ProtocolError {
    /// No response was received; the text is the transport's account of the
    /// failure.
    Transport(String),
    /// The server answered with this error status.
    Auth(u16),
    /// The response body is not JSON of the expected shape.
    Decode,
    /// The server reported an error for one method call of the batch; the
    /// value is the error it reported.
    RemoteMethod(Value),
    /// The server answered a single call with no method response at all.
    EmptyResponse,
    /// The account has no mailbox with the role of drafts.
    NoDraftsMailbox,
    /// The account has no sending identity.
    NoIdentity,
    /// The server answered a send with no method response at all.
    NoSubmissionResponse,
}

/// A `ProtocolError` over texts and JSON trees.
pub enum ProtocolErrorView {
    Transport(Seq<char>),
    Auth(u16),
    Decode,
    RemoteMethod(JsonView),
    EmptyResponse,
    NoDraftsMailbox,
    NoIdentity,
    NoSubmissionResponse,
}

impl View for ProtocolError {
    type V = ProtocolErrorView;

    open spec fn view(&self) -> ProtocolErrorView {
        match self {
            ProtocolError::Transport(detail) => ProtocolErrorView::Transport(detail@),
            ProtocolError::Auth(status) => ProtocolErrorView::Auth(*status),
            ProtocolError::Decode => ProtocolErrorView::Decode,
            ProtocolError::RemoteMethod(payload) => ProtocolErrorView::RemoteMethod(
                json_view(*payload),
            ),
            ProtocolError::EmptyResponse => ProtocolErrorView::EmptyResponse,
            ProtocolError::NoDraftsMailbox => ProtocolErrorView::NoDraftsMailbox,
            ProtocolError::NoIdentity => ProtocolErrorView::NoIdentity,
            ProtocolError::NoSubmissionResponse => ProtocolErrorView::NoSubmissionResponse,
        }
    }
}

/// The description of a `ProtocolError`. A transport failure is described by
/// the transport's own text, and a remote error by the compact JSON text of
/// what the server reported.
pub open spec fn protocol_error_text(e: ProtocolErrorView) -> Seq<char> {
    match e {
        ProtocolErrorView::Transport(detail) => detail,
        ProtocolErrorView::Auth(_) => "JMAP request auth failed"@,
        ProtocolErrorView::Decode => "error decoding response body"@,
        ProtocolErrorView::RemoteMethod(payload) => "JMAP error: "@ + compact_text(payload),
        ProtocolErrorView::EmptyResponse => "empty JMAP response"@,
        ProtocolErrorView::NoDraftsMailbox => "no drafts mailbox found"@,
        ProtocolErrorView::NoIdentity => "no identity found for this account"@,
        ProtocolErrorView::NoSubmissionResponse => "no submission response"@,
    }
}

impl ProtocolError {
    /// The description of this error.
    pub fn message(&self) -> (text: String)
        ensures
            text@ == protocol_error_text(self@),
    {
        match self {
            ProtocolError::Transport(detail) => detail.clone(),
            ProtocolError::Auth(_) => "JMAP request auth failed".to_owned(),
            ProtocolError::Decode => "error decoding response body".to_owned(),
            ProtocolError::RemoteMethod(payload) => {
                let mut text = "JMAP error: ".to_owned();
                let rendered = to_text(payload);
                text.append(rendered.as_str());
                text
            },
            ProtocolError::EmptyResponse => "empty JMAP response".to_owned(),
            ProtocolError::NoDraftsMailbox => "no drafts mailbox found".to_owned(),
            ProtocolError::NoIdentity => "no identity found for this account".to_owned(),
            ProtocolError::NoSubmissionResponse => "no submission response".to_owned(),
        }
    }
}

} // verus!
