//! Establishing a session: the request for the session resource, and the
//! client that the reply to it yields.
//!
//! A session names the API endpoint, the accounts, and for each capability
//! the account that is primary for it. The client is bound to the primary
//! account for mail, which must be among the accounts.

use crate::error::{ConnectError, ConnectErrorView};
use crate::http::{
    error_status, is_error_status, HttpMethod, HttpReply, HttpReplyView, HttpRequest,
    HttpRequestView,
};
use crate::jmap::{JmapClient, JmapClientView};
use crate::json::{as_object, as_str, get, json_view, keys, parse, parsed, texts, JsonView};
use crate::values::{member, text_member, text_of};
use serde_json::Value;
use vstd::prelude::*;

verus! {

/// The capability whose primary account the client is bound to.
pub open spec fn mail_capability() -> Seq<char> {
    "urn:ietf:params:jmap:mail"@
}

/// A session: the API endpoint, the identifiers of the accounts, and the
/// primary account of each capability.
pub struct SessionView {
    pub api_url: Seq<char>,
    pub accounts: Set<Seq<char>>,
    pub primary_accounts: Map<Seq<char>, Seq<char>>,
}

/// Whether a tree describes an account: an object with a name.
pub open spec fn is_account(info: JsonView) -> bool {
    text_member(info, "name"@) is Some
}

/// Whether a tree is an object all of whose members describe accounts.
pub open spec fn is_accounts(tree: JsonView) -> bool {
    tree matches JsonView::Object(m) && forall|id: Seq<char>| #[trigger]
        m.contains_key(id) ==> is_account(m[id])
}

/// Whether a tree is an object all of whose members are strings.
pub open spec fn is_primary_accounts(tree: JsonView) -> bool {
    tree matches JsonView::Object(m) && forall|capability: Seq<char>| #[trigger]
        m.contains_key(capability) ==> m[capability] is Str
}

/// The session that a tree describes: an object with the endpoint as a
/// string under `apiUrl`, the accounts under `accounts`, and the primary
/// accounts under `primaryAccounts`. Any other tree describes none.
pub open spec fn session_in(tree: JsonView) -> Option<SessionView> {
    match (text_member(tree, "apiUrl"@), member(tree, "accounts"@), member(tree, "primaryAccounts"@)) {
        (Some(api_url), Some(accounts), Some(primary)) => if is_accounts(accounts)
            && is_primary_accounts(primary) {
            Some(
                SessionView {
                    api_url,
                    accounts: accounts->Object_0.dom(),
                    primary_accounts: primary->Object_0.map_values(|v: JsonView| v->Str_0),
                },
            )
        } else {
            None
        },
        _ => None,
    }
}

/// The account that a client of the session is bound to: the primary account
/// for mail. It is an error for the session to name none, or to name one that
/// is not among its accounts.
pub open spec fn mail_account(session: SessionView) -> Result<Seq<char>, ConnectErrorView> {
    if !session.primary_accounts.contains_key(mail_capability()) {
        Err(ConnectErrorView::NoMailAccount)
    } else {
        let id = session.primary_accounts[mail_capability()];
        if session.accounts.contains(id) {
            Ok(id)
        } else {
            Err(ConnectErrorView::AccountConsistency(id))
        }
    }
}

/// The client that a session resource yields for the given credentials.
pub open spec fn session_client(
    tree: JsonView,
    username: Seq<char>,
    password: Seq<char>,
) -> Result<JmapClientView, ConnectErrorView> {
    match session_in(tree) {
        Some(session) => match mail_account(session) {
            Ok(account_id) => Ok(
                JmapClientView { api_url: session.api_url, username, password, account_id },
            ),
            Err(e) => Err(e),
        },
        None => Err(ConnectErrorView::Decode),
    }
}

/// The client that the reply to a session request yields for the given
/// credentials.
pub open spec fn connect_outcome(
    reply: HttpReplyView,
    username: Seq<char>,
    password: Seq<char>,
) -> Result<JmapClientView, ConnectErrorView> {
    match reply {
        HttpReplyView::Failed(detail) => Err(ConnectErrorView::Transport(detail)),
        HttpReplyView::Answer { status, body } => if is_error_status(status) {
            Err(ConnectErrorView::Auth(status))
        } else {
            match parsed(body) {
                Some(tree) => session_client(tree, username, password),
                None => Err(ConnectErrorView::Decode),
            }
        },
    }
}

/// The view of a client or of the error in its place.
pub open spec fn connect_view(
    r: Result<JmapClient, ConnectError>,
) -> Result<JmapClientView, ConnectErrorView> {
    match r {
        Ok(client) => Ok(client@),
        Err(e) => Err(e@),
    }
}

/// Decides whether a value is an object all of whose members describe
/// accounts.
fn check_accounts(accounts: &Value) -> (ok: bool)
    ensures
        ok == is_accounts(json_view(*accounts)),
{
    let map = match as_object(accounts) {
        Some(map) => map,
        None => { return false; },
    };
    let ids = keys(map);
    let ghost members = json_view(*accounts)->Object_0;
    let mut i: usize = 0;
    while i < ids.len()
        invariant
            i <= ids.len(),
            json_view(*accounts) == JsonView::Object(members),
            texts(ids@).to_set() == members.dom(),
            forall|j: int| 0 <= j < i ==> is_account(members[#[trigger] texts(ids@)[j]]),
        decreases ids.len() - i,
    {
        assert(texts(ids@).to_set().contains(texts(ids@)[i as int]));
        let described = match get(accounts, ids[i].as_str()) {
            Some(info) => text_of(info, "name").is_some(),
            None => false,
        };
        if !described {
            return false;
        }
        i += 1;
    }
    true
}

/// Decides whether a value is an object all of whose members are strings.
fn check_primary_accounts(primary: &Value) -> (ok: bool)
    ensures
        ok == is_primary_accounts(json_view(*primary)),
{
    let map = match as_object(primary) {
        Some(map) => map,
        None => { return false; },
    };
    let capabilities = keys(map);
    let ghost members = json_view(*primary)->Object_0;
    let mut i: usize = 0;
    while i < capabilities.len()
        invariant
            i <= capabilities.len(),
            json_view(*primary) == JsonView::Object(members),
            texts(capabilities@).to_set() == members.dom(),
            forall|j: int| 0 <= j < i ==> members[#[trigger] texts(capabilities@)[j]] is Str,
        decreases capabilities.len() - i,
    {
        assert(texts(capabilities@).to_set().contains(texts(capabilities@)[i as int]));
        let named = match get(primary, capabilities[i].as_str()) {
            Some(id) => as_str(id).is_some(),
            None => false,
        };
        if !named {
            return false;
        }
        i += 1;
    }
    true
}

impl JmapClient {
    /// The request for the session resource: a get with the credentials.
    /// Its reply is for `connect`.
    pub fn session_request(
        session_url: &str,
        username: &str,
        password: &str,
    ) -> (request: HttpRequest)
        ensures
            request@ == (HttpRequestView {
                method: HttpMethod::Get,
                url: session_url@,
                username: username@,
                password: password@,
                body: Seq::empty(),
            }),
    {
        HttpRequest {
            method: HttpMethod::Get,
            url: session_url.to_owned(),
            username: username.to_owned(),
            password: password.to_owned(),
            body: String::new(),
        }
    }

    /// The client that a decoded session resource yields: bound to the
    /// session's endpoint and to its primary account for mail, with the
    /// credentials given.
    pub fn from_session(
        session: &Value,
        username: &str,
        password: &str,
    ) -> (r: Result<JmapClient, ConnectError>)
        ensures
            connect_view(r) == session_client(json_view(*session), username@, password@),
    {
        let api_url = match text_of(session, "apiUrl") {
            Some(url) => url,
            None => { return Err(ConnectError::Decode); },
        };
        let accounts = match get(session, "accounts") {
            Some(accounts) => accounts,
            None => { return Err(ConnectError::Decode); },
        };
        let primary = match get(session, "primaryAccounts") {
            Some(primary) => primary,
            None => { return Err(ConnectError::Decode); },
        };
        if !check_accounts(accounts) || !check_primary_accounts(primary) {
            return Err(ConnectError::Decode);
        }
        let account_id = match text_of(primary, "urn:ietf:params:jmap:mail") {
            Some(id) => id,
            None => { return Err(ConnectError::NoMailAccount); },
        };
        if get(accounts, account_id.as_str()).is_none() {
            return Err(ConnectError::AccountConsistency(account_id));
        }
        Ok(JmapClient::bound(api_url, username.to_owned(), password.to_owned(), account_id))
    }

    /// The client that the reply to the session request yields. No client
    /// comes of a reply that fails at any point.
    pub fn connect(
        reply: &HttpReply,
        username: &str,
        password: &str,
    ) -> (r: Result<JmapClient, ConnectError>)
        ensures
            connect_view(r) == connect_outcome(reply@, username@, password@),
    {
        match reply {
            HttpReply::Failed(detail) => Err(ConnectError::Transport(detail.clone())),
            HttpReply::Answer { status, body } => {
                if error_status(*status) {
                    return Err(ConnectError::Auth(*status));
                }
                match parse(body.as_str()) {
                    Ok(session) => JmapClient::from_session(&session, username, password),
                    Err(_) => Err(ConnectError::Decode),
                }
            },
        }
    }
}

/// A session resource that names no primary account for mail yields no
/// client, for whatever credentials: connecting fails with `NoMailAccount`.
pub proof fn lemma_no_mail_account(
    status: u16,
    body: Seq<char>,
    username: Seq<char>,
    password: Seq<char>,
)
    requires
        !is_error_status(status),
        parsed(body) matches Some(tree) && session_in(tree) matches Some(session)
            && !session.primary_accounts.contains_key(mail_capability()),
    ensures
        connect_outcome(HttpReplyView::Answer { status, body }, username, password) == Err::<
            JmapClientView,
            ConnectErrorView,
        >(ConnectErrorView::NoMailAccount),
{
}

/// A client comes only of a session whose primary account for mail is among
/// its accounts, and is bound to that account and to the session's endpoint.
pub proof fn lemma_client_account(tree: JsonView, username: Seq<char>, password: Seq<char>)
    requires
        session_client(tree, username, password) is Ok,
    ensures
        session_in(tree) matches Some(session) && session.primary_accounts.contains_key(
            mail_capability(),
        ) && session.accounts.contains(session.primary_accounts[mail_capability()])
            && session_client(tree, username, password) == Ok::<JmapClientView, ConnectErrorView>(
            JmapClientView {
                api_url: session.api_url,
                username,
                password,
                account_id: session.primary_accounts[mail_capability()],
            },
        ),
{
}

} // verus!
