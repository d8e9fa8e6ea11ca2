//! The protocol client: the account it is bound to, and the mail operations
//! as requests to send and replies to interpret.

use crate::batch::{
    batch_outcome, call_views, decode_batch, distinct_ids, envelope, envelope_of, result_view,
    MethodCall, MethodCallView,
};
use crate::error::{ProtocolError, ProtocolErrorView};
use crate::http::{HttpMethod, HttpReply, HttpReplyView, HttpRequest, HttpRequestView};
use crate::json::{
    array, boolean, compact_text, json_view, map_insert, map_new, no_members, null, object,
    string, texts, to_text, unsigned, views, JsonView, NumberView,
};
use crate::values::{strings, text_list};
use serde_json::Value;
use vstd::prelude::*;

verus! {

/// A client bound to one account of a mail server: the API endpoint, the
/// credentials that go with every request, and the account's identifier.
#[derive(Clone, Debug, PartialEq, Eq)]
pub struct JmapClient {
    api_url: String,
    username: String,
    password: String,
    account_id: String,
}

/// A `JmapClient` with its texts as sequences of characters.
pub struct JmapClientView {
    pub api_url: Seq<char>,
    pub username: Seq<char>,
    pub password: Seq<char>,
    pub account_id: Seq<char>,
}

impl View for JmapClient {
    type V = JmapClientView;

    closed spec fn view(&self) -> JmapClientView {
        JmapClientView {
            api_url: self.api_url@,
            username: self.username@,
            password: self.password@,
            account_id: self.account_id@,
        }
    }
}

/// The identifier under which a single call is made.
pub open spec fn single_call_id() -> Seq<char> {
    "r0"@
}

/// The batch of one call.
pub open spec fn single_call(method: Seq<char>, args: JsonView) -> Seq<MethodCallView> {
    seq![MethodCallView { method, args, id: single_call_id() }]
}

/// The request that carries a batch: a post to the client's API endpoint,
/// with the client's credentials, of the compact JSON text of the envelope.
pub open spec fn batch_request(client: JmapClientView, calls: Seq<MethodCallView>) -> HttpRequestView {
    HttpRequestView {
        method: HttpMethod::Post,
        url: client.api_url,
        username: client.username,
        password: client.password,
        body: compact_text(envelope(calls)),
    }
}

/// What a single call yields from the reply to its request: the first result
/// of the batch, and an error where the batch is answered with none.
pub open spec fn single_outcome(reply: HttpReplyView) -> Result<JsonView, ProtocolErrorView> {
    match batch_outcome(reply) {
        Ok(results) => if results.len() == 0 {
            Err(ProtocolErrorView::EmptyResponse)
        } else {
            Ok(results[0])
        },
        Err(e) => Err(e),
    }
}

/// The properties requested of each mailbox.
pub open spec fn mailbox_properties() -> Seq<Seq<char>> {
    seq!["id"@, "name"@, "parentId"@, "role"@, "totalEmails"@, "unreadEmails"@]
}

/// The arguments of `Mailbox/get` for an account.
pub open spec fn mailbox_get_args(account_id: Seq<char>) -> JsonView {
    JsonView::Object(
        no_members().insert("accountId"@, JsonView::Str(account_id)).insert(
            "properties"@,
            text_list(mailbox_properties()),
        ),
    )
}

/// The sort order of a search that names none: most recently received first.
pub open spec fn default_sort() -> JsonView {
    JsonView::Array(
        seq![
            JsonView::Object(
                no_members().insert("property"@, JsonView::Str("receivedAt"@)).insert(
                    "isAscending"@,
                    JsonView::Bool(false),
                ),
            ),
        ],
    )
}

/// A non-negative integer as a JSON number.
pub open spec fn count(n: u32) -> JsonView {
    JsonView::Number(NumberView::PosInt(n as u64))
}

/// The arguments of `Email/query` for an account. Position and limit go in
/// as given.
pub open spec fn email_query_args(
    account_id: Seq<char>,
    filter: JsonView,
    sort: Option<JsonView>,
    position: u32,
    limit: u32,
) -> JsonView {
    JsonView::Object(
        no_members().insert("accountId"@, JsonView::Str(account_id)).insert("filter"@, filter).insert(
            "sort"@,
            match sort {
                Some(order) => order,
                None => default_sort(),
            },
        ).insert("position"@, count(position)).insert("limit"@, count(limit)),
    )
}

/// The properties requested of each email.
pub open spec fn email_properties() -> Seq<Seq<char>> {
    seq![
        "id"@,
        "threadId"@,
        "mailboxIds"@,
        "from"@,
        "to"@,
        "cc"@,
        "bcc"@,
        "subject"@,
        "receivedAt"@,
        "sentAt"@,
        "size"@,
        "keywords"@,
        "preview"@,
        "textBody"@,
        "htmlBody"@,
        "bodyValues"@,
    ]
}

/// The most bytes of a body part that the server is asked to inline.
pub open spec fn max_body_value_bytes() -> u32 {
    65536
}

/// An unset result reference: all three of its parts are null.
pub open spec fn no_reference() -> JsonView {
    JsonView::Object(
        no_members().insert("resultOf"@, JsonView::Null).insert("name"@, JsonView::Null).insert(
            "path"@,
            JsonView::Null,
        ),
    )
}

/// The arguments of `Email/get` for an account and a list of identifiers:
/// the fixed set of properties, with text and HTML bodies inlined up to the
/// fixed cap.
pub open spec fn email_get_args(account_id: Seq<char>, ids: Seq<Seq<char>>) -> JsonView {
    JsonView::Object(
        no_members().insert("accountId"@, JsonView::Str(account_id)).insert(
            "#ids"@,
            no_reference(),
        ).insert("ids"@, text_list(ids)).insert("properties"@, text_list(email_properties())).insert(
            "fetchTextBodyValues"@,
            JsonView::Bool(true),
        ).insert("fetchHTMLBodyValues"@, JsonView::Bool(true)).insert(
            "maxBodyValueBytes"@,
            count(max_body_value_bytes()),
        ),
    )
}

/// The arguments of `Identity/get` for an account.
pub open spec fn identity_get_args(account_id: Seq<char>) -> JsonView {
    JsonView::Object(no_members().insert("accountId"@, JsonView::Str(account_id)))
}

/// Builds the array of the given literal names.
fn names(items: &[&str]) -> (v: Value)
    ensures
        json_view(v) == text_list(items@.map_values(|t: &str| t@)),
{
    let mut out: Vec<Value> = Vec::new();
    let mut i: usize = 0;
    while i < items.len()
        invariant
            i <= items.len(),
            out.len() == i,
            forall|j: int| 0 <= j < i ==> json_view(#[trigger] out[j]) == JsonView::Str(items[j]@),
        decreases items.len() - i,
    {
        out.push(string(items[i]));
        i += 1;
    }
    assert(views(out@) =~= text_list(items@.map_values(|t: &str| t@))->Array_0);
    array(out)
}

impl JmapClient {
    /// A client bound to an account at an endpoint, with its credentials.
    pub(crate) fn bound(
        api_url: String,
        username: String,
        password: String,
        account_id: String,
    ) -> (client: JmapClient)
        ensures
            client@ == (JmapClientView {
                api_url: api_url@,
                username: username@,
                password: password@,
                account_id: account_id@,
            }),
    {
        JmapClient { api_url, username, password, account_id }
    }

    /// A client bound to the same account as this one.
    pub(crate) fn copy(&self) -> (other: JmapClient)
        ensures
            other@ == self@,
    {
        JmapClient {
            api_url: self.api_url.clone(),
            username: self.username.clone(),
            password: self.password.clone(),
            account_id: self.account_id.clone(),
        }
    }

    /// The identifier of the account that the client is bound to.
    pub fn account_id(&self) -> (id: &str)
        ensures
            id@ == self@.account_id,
    {
        self.account_id.as_str()
    }

    /// The user name that the client authenticates with.
    pub fn username(&self) -> (name: &str)
        ensures
            name@ == self@.username,
    {
        self.username.as_str()
    }

    /// The request that submits a batch of method calls, in the order given.
    /// Its reply is for `decode_batch`.
    pub fn call_multi(&self, calls: &[MethodCall]) -> (request: HttpRequest)
        requires
            distinct_ids(call_views(calls@)),
        ensures
            request@ == batch_request(self@, call_views(calls@)),
    {
        let body = to_text(&envelope_of(calls));
        HttpRequest {
            method: HttpMethod::Post,
            url: self.api_url.clone(),
            username: self.username.clone(),
            password: self.password.clone(),
            body,
        }
    }

    /// The request that makes a single method call. Its reply is for
    /// `decode_single`.
    pub fn call(&self, method: &str, args: Value) -> (request: HttpRequest)
        ensures
            request@ == batch_request(self@, single_call(method@, json_view(args))),
    {
        let mut calls: Vec<MethodCall> = Vec::new();
        calls.push(MethodCall { method: method.to_owned(), args, id: "r0".to_owned() });
        assert(call_views(calls@) =~= single_call(method@, json_view(args)));
        self.call_multi(calls.as_slice())
    }

    /// The request that lists the mailboxes of the account.
    pub fn get_mailboxes(&self) -> (request: HttpRequest)
        ensures
            request@ == batch_request(
                self@,
                single_call("Mailbox/get"@, mailbox_get_args(self@.account_id)),
            ),
    {
        let properties = ["id", "name", "parentId", "role", "totalEmails", "unreadEmails"];
        assert(properties@.map_values(|t: &str| t@) =~= mailbox_properties());
        let mut args = map_new();
        map_insert(&mut args, "accountId", string(self.account_id.as_str()));
        map_insert(&mut args, "properties", names(properties.as_slice()));
        self.call("Mailbox/get", object(args))
    }

    /// The request that searches the account's emails. Without a sort order
    /// the most recently received come first; position and limit go to the
    /// server as given.
    pub fn search_emails(
        &self,
        filter: Value,
        sort: Option<Value>,
        position: u32,
        limit: u32,
    ) -> (request: HttpRequest)
        ensures
            request@ == batch_request(
                self@,
                single_call(
                    "Email/query"@,
                    email_query_args(
                        self@.account_id,
                        json_view(filter),
                        match sort {
                            Some(order) => Some(json_view(order)),
                            None => None,
                        },
                        position,
                        limit,
                    ),
                ),
            ),
    {
        let order = match sort {
            Some(order) => order,
            None => {
                let mut by_date = map_new();
                map_insert(&mut by_date, "property", string("receivedAt"));
                map_insert(&mut by_date, "isAscending", boolean(false));
                let mut keys: Vec<Value> = Vec::new();
                keys.push(object(by_date));
                assert(views(keys@) =~= default_sort()->Array_0);
                array(keys)
            },
        };
        let mut args = map_new();
        map_insert(&mut args, "accountId", string(self.account_id.as_str()));
        map_insert(&mut args, "filter", filter);
        map_insert(&mut args, "sort", order);
        map_insert(&mut args, "position", unsigned(position as u64));
        map_insert(&mut args, "limit", unsigned(limit as u64));
        self.call("Email/query", object(args))
    }

    /// The request that fetches the emails with the given identifiers, each
    /// with the fixed set of properties and its bodies inlined up to the cap.
    pub fn get_emails(&self, ids: &[String]) -> (request: HttpRequest)
        ensures
            request@ == batch_request(
                self@,
                single_call("Email/get"@, email_get_args(self@.account_id, texts(ids@))),
            ),
    {
        let properties = [
            "id",
            "threadId",
            "mailboxIds",
            "from",
            "to",
            "cc",
            "bcc",
            "subject",
            "receivedAt",
            "sentAt",
            "size",
            "keywords",
            "preview",
            "textBody",
            "htmlBody",
            "bodyValues",
        ];
        assert(properties@.map_values(|t: &str| t@) =~= email_properties());
        let mut reference = map_new();
        map_insert(&mut reference, "resultOf", null());
        map_insert(&mut reference, "name", null());
        map_insert(&mut reference, "path", null());
        let mut args = map_new();
        map_insert(&mut args, "accountId", string(self.account_id.as_str()));
        map_insert(&mut args, "#ids", object(reference));
        map_insert(&mut args, "ids", strings(ids));
        map_insert(&mut args, "properties", names(properties.as_slice()));
        map_insert(&mut args, "fetchTextBodyValues", boolean(true));
        map_insert(&mut args, "fetchHTMLBodyValues", boolean(true));
        map_insert(&mut args, "maxBodyValueBytes", unsigned(65536));
        self.call("Email/get", object(args))
    }
}

/// Decodes the reply to a single call into its result.
pub fn decode_single(reply: &HttpReply) -> (r: Result<Value, ProtocolError>)
    ensures
        result_view(r) == single_outcome(reply@),
{
    match decode_batch(reply) {
        Ok(results) => {
            if results.len() == 0 {
                Err(ProtocolError::EmptyResponse)
            } else {
                Ok(results[0].clone())
            }
        },
        Err(e) => Err(e),
    }
}

} // verus!
