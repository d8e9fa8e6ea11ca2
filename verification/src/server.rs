//! The operation router: it checks and normalises the parameters of each
//! tool, turns them into a request of the client, and renders what comes
//! back as the text shown to the caller.

use crate::batch::result_view;
use crate::error::{protocol_error_text, ProtocolError, ProtocolErrorView};
use crate::http::{HttpReply, HttpRequest};
use crate::jmap::{
    batch_request, decode_single, email_get_args, email_query_args, mailbox_get_args,
    single_call, single_outcome, JmapClient, JmapClientView,
};
use crate::json::{
    array, json_view, map_insert, map_new, no_members, object, pretty_text, string, texts,
    to_text_pretty, views, JsonView,
};
use serde_json::Value;
use vstd::prelude::*;

verus! {

/// The parameters of a search: each filter is applied where it is given.
#[derive(Clone, Debug, PartialEq, Eq)]
pub struct SearchParams {
    /// Text to look for anywhere in an email.
    pub query: Option<String>,
    /// Sender to look for.
    pub from: Option<String>,
    /// Recipient to look for.
    pub to: Option<String>,
    /// Text to look for in the subject.
    pub subject: Option<String>,
    /// The mailbox to search in.
    pub mailbox_id: Option<String>,
    /// Where in the list of matches to start; 0 where not given.
    pub position: Option<u32>,
    /// The most matches to return; 10 where not given, and never over 50.
    pub limit: Option<u32>,
}

/// The text of an optional string.
pub open spec fn optional_text(s: Option<String>) -> Option<Seq<char>> {
    match s {
        Some(t) => Some(t@),
        None => None,
    }
}

/// `SearchParams` with its texts as sequences of characters.
pub struct SearchParamsView {
    pub query: Option<Seq<char>>,
    pub from: Option<Seq<char>>,
    pub to: Option<Seq<char>>,
    pub subject: Option<Seq<char>>,
    pub mailbox_id: Option<Seq<char>>,
    pub position: Option<u32>,
    pub limit: Option<u32>,
}

impl View for SearchParams {
    type V = SearchParamsView;

    open spec fn view(&self) -> SearchParamsView {
        SearchParamsView {
            query: optional_text(self.query),
            from: optional_text(self.from),
            to: optional_text(self.to),
            subject: optional_text(self.subject),
            mailbox_id: optional_text(self.mailbox_id),
            position: self.position,
            limit: self.limit,
        }
    }
}

/// The parameters of a fetch: the identifiers of the emails wanted.
#[derive(Clone, Debug, PartialEq, Eq)]
pub struct GetEmailsParams {
    pub ids: Vec<String>,
}

/// Parameters that are refused before any request is made.
#[derive(Clone, Debug, PartialEq, Eq)]
pub struct ValidationError {
    pub message: String,
}

/// What a tool hands to its caller: the result as indented JSON text, or the
/// description of the error.
#[derive(Clone, Debug, PartialEq, Eq)]
pub enum ToolOutput {
    Success(String),
    Failure(String),
}

/// A `ToolOutput` with its text as a sequence of characters.
pub enum ToolOutputView {
    Success(Seq<char>),
    Failure(Seq<char>),
}

impl View for ToolOutput {
    type V = ToolOutputView;

    open spec fn view(&self) -> ToolOutputView {
        match self {
            ToolOutput::Success(text) => ToolOutputView::Success(text@),
            ToolOutput::Failure(text) => ToolOutputView::Failure(text@),
        }
    }
}

/// One search condition: a single field with the value to match.
pub open spec fn condition(field: Seq<char>, value: Seq<char>) -> JsonView {
    JsonView::Object(no_members().insert(field, JsonView::Str(value)))
}

/// A list of conditions with one more for a field, where a value is given
/// for it.
pub open spec fn with_condition(
    conditions: Seq<JsonView>,
    field: Seq<char>,
    value: Option<Seq<char>>,
) -> Seq<JsonView> {
    match value {
        Some(v) => conditions.push(condition(field, v)),
        None => conditions,
    }
}

/// The conditions of a search, one for each filter given: full text, sender,
/// recipient, subject and mailbox, in this order.
pub open spec fn search_conditions(params: SearchParamsView) -> Seq<JsonView> {
    with_condition(
        with_condition(
            with_condition(
                with_condition(
                    with_condition(Seq::empty(), "text"@, params.query),
                    "from"@,
                    params.from,
                ),
                "to"@,
                params.to,
            ),
            "subject"@,
            params.subject,
        ),
        "inMailbox"@,
        params.mailbox_id,
    )
}

/// The conjunction of conditions: an object with the operator `AND` and the
/// conditions in order.
pub open spec fn conjunction(conditions: Seq<JsonView>) -> JsonView {
    JsonView::Object(
        no_members().insert("operator"@, JsonView::Str("AND"@)).insert(
            "conditions"@,
            JsonView::Array(conditions),
        ),
    )
}

/// The filter that holds where all of the conditions hold: the empty object
/// for none, the condition itself for one, and for more the conjunction of
/// them all.
pub open spec fn combined_filter(conditions: Seq<JsonView>) -> JsonView {
    if conditions.len() == 0 {
        JsonView::Object(no_members())
    } else if conditions.len() == 1 {
        conditions[0]
    } else {
        conjunction(conditions)
    }
}

/// The position a search starts at: the one asked for, or 0.
pub open spec fn effective_position(position: Option<u32>) -> u32 {
    match position {
        Some(p) => p,
        None => 0,
    }
}

/// The limit a search runs with: the one asked for, or 10, and 50 where that
/// is more than 50.
pub open spec fn effective_limit(limit: Option<u32>) -> u32 {
    let asked = match limit {
        Some(l) => l,
        None => 10,
    };
    if asked > 50 {
        50
    } else {
        asked
    }
}

/// The filter of a search.
pub open spec fn search_filter(params: SearchParamsView) -> JsonView {
    combined_filter(search_conditions(params))
}

/// The text shown for a result: a value as indented JSON, or as nothing
/// where it cannot be written; an error as its description.
pub open spec fn rendered(result: Result<JsonView, ProtocolErrorView>) -> ToolOutputView {
    match result {
        Ok(tree) => ToolOutputView::Success(
            match pretty_text(tree) {
                Some(text) => text,
                None => Seq::empty(),
            },
        ),
        Err(e) => ToolOutputView::Failure(protocol_error_text(e)),
    }
}

/// The message of the error for a fetch without identifiers.
pub open spec fn no_ids_message() -> Seq<char> {
    "ids must not be empty"@
}

/// Adds the condition for a field to a list, where a value is given for it.
fn push_condition(conditions: &mut Vec<Value>, field: &str, value: &Option<String>)
    ensures
        views(final(conditions)@) == with_condition(
            views(old(conditions)@),
            field@,
            optional_text(*value),
        ),
{
    match value {
        Some(v) => {
            let mut leaf = map_new();
            map_insert(&mut leaf, field, string(v.as_str()));
            conditions.push(object(leaf));
        },
        None => {},
    }
}

/// Builds the conditions of a search.
pub fn conditions_of(params: &SearchParams) -> (conditions: Vec<Value>)
    ensures
        views(conditions@) == search_conditions(params@),
{
    let mut conditions: Vec<Value> = Vec::new();
    push_condition(&mut conditions, "text", &params.query);
    push_condition(&mut conditions, "from", &params.from);
    push_condition(&mut conditions, "to", &params.to);
    push_condition(&mut conditions, "subject", &params.subject);
    push_condition(&mut conditions, "inMailbox", &params.mailbox_id);
    conditions
}

/// Combines conditions into the filter that holds where all of them hold.
/// A single condition stands bare, never as a conjunction of one.
pub fn combine(conditions: Vec<Value>) -> (filter: Value)
    ensures
        json_view(filter) == combined_filter(views(conditions@)),
{
    let mut conditions = conditions;
    if conditions.len() == 1 {
        match conditions.pop() {
            Some(only) => only,
            None => object(map_new()),
        }
    } else if conditions.len() == 0 {
        object(map_new())
    } else {
        let mut members = map_new();
        map_insert(&mut members, "operator", string("AND"));
        map_insert(&mut members, "conditions", array(conditions));
        object(members)
    }
}

/// The position a search starts at.
pub fn position_of(position: Option<u32>) -> (r: u32)
    ensures
        r == effective_position(position),
{
    match position {
        Some(p) => p,
        None => 0,
    }
}

/// The limit a search runs with. A limit over the ceiling is lowered to it,
/// not refused.
pub fn limit_of(limit: Option<u32>) -> (r: u32)
    ensures
        r == effective_limit(limit),
        r <= 50,
{
    let asked = match limit {
        Some(l) => l,
        None => 10,
    };
    if asked > 50 {
        50
    } else {
        asked
    }
}

/// Renders the result of an operation as the text shown to the caller.
pub fn render(result: &Result<Value, ProtocolError>) -> (output: ToolOutput)
    ensures
        output@ == rendered(result_view(*result)),
{
    match result {
        Ok(value) => match to_text_pretty(value) {
            Ok(text) => ToolOutput::Success(text),
            Err(_) => ToolOutput::Success(String::new()),
        },
        Err(e) => ToolOutput::Failure(e.message()),
    }
}

/// The router of the mail tools over one client.
#[derive(Clone, Debug, PartialEq, Eq)]
pub struct StalwartServer {
    client: JmapClient,
}

impl StalwartServer {
    /// The client that the router works on.
    pub closed spec fn client_view(&self) -> JmapClientView {
        self.client@
    }

    /// A router over the given client.
    pub fn new(client: JmapClient) -> (server: Self)
        ensures
            server.client_view() == client@,
    {
        StalwartServer { client }
    }

    /// The request of the tool that lists the mailboxes.
    pub fn get_mailboxes(&self) -> (request: HttpRequest)
        ensures
            request@ == batch_request(
                self.client_view(),
                single_call("Mailbox/get"@, mailbox_get_args(self.client_view().account_id)),
            ),
    {
        self.client.get_mailboxes()
    }

    /// The request of the tool that searches emails: the filter of the
    /// parameters, no sort order of its own, and position and limit
    /// normalised.
    pub fn search_emails(&self, params: &SearchParams) -> (request: HttpRequest)
        ensures
            request@ == batch_request(
                self.client_view(),
                single_call(
                    "Email/query"@,
                    email_query_args(
                        self.client_view().account_id,
                        search_filter(params@),
                        None,
                        effective_position(params.position),
                        effective_limit(params.limit),
                    ),
                ),
            ),
    {
        let filter = combine(conditions_of(params));
        let position = position_of(params.position);
        let limit = limit_of(params.limit);
        self.client.search_emails(filter, None, position, limit)
    }

    /// The request of the tool that fetches emails. An empty list of
    /// identifiers is refused, and no request is made for it.
    pub fn get_emails(&self, params: &GetEmailsParams) -> (r: Result<HttpRequest, ValidationError>)
        ensures
            r is Err <==> params.ids.len() == 0,
            r matches Err(e) ==> e.message@ == no_ids_message(),
            r matches Ok(request) ==> request@ == batch_request(
                self.client_view(),
                single_call(
                    "Email/get"@,
                    email_get_args(self.client_view().account_id, texts(params.ids@)),
                ),
            ),
    {
        if params.ids.len() == 0 {
            return Err(ValidationError { message: "ids must not be empty".to_owned() });
        }
        Ok(self.client.get_emails(params.ids.as_slice()))
    }

    /// The output of a tool for the reply to its request.
    pub fn respond(&self, reply: &HttpReply) -> (output: ToolOutput)
        ensures
            output@ == rendered(single_outcome(reply@)),
    {
        let result = decode_single(reply);
        render(&result)
    }
}

/// The number of filters that the parameters of a search give.
pub open spec fn given(params: SearchParamsView) -> nat {
    search_conditions(params).len()
}

/// Whether a tree is a single field with the value to match.
pub open spec fn is_leaf(tree: JsonView) -> bool {
    exists|field: Seq<char>, value: Seq<char>| tree == condition(field, value)
}

/// The filter of a search is the empty object where no filter is given, the
/// one condition itself where one is given, and the conjunction of all
/// conditions where more are given.
pub proof fn lemma_filter_shape(params: SearchParamsView)
    ensures
        given(params) == 0 ==> search_filter(params) == JsonView::Object(no_members()),
        given(params) == 1 ==> search_filter(params) == search_conditions(params)[0] && is_leaf(
            search_filter(params),
        ),
        given(params) > 1 ==> search_filter(params) == conjunction(search_conditions(params)),
{
    if given(params) == 1 {
        lemma_conditions_are_leaves(params, 0);
    }
}

/// The filter of a search is never a conjunction of fewer than two
/// conditions: neither of none nor of a single one.
pub proof fn lemma_no_conjunction_of_one(params: SearchParamsView, conditions: Seq<JsonView>)
    requires
        search_filter(params) == conjunction(conditions),
    ensures
        conditions.len() >= 2,
        conditions == search_conditions(params),
{
    reveal_strlit("operator");
    reveal_strlit("conditions");
    let own = search_conditions(params);
    if own.len() == 0 {
        assert(!no_members().contains_key("operator"@));
    } else if own.len() == 1 {
        lemma_conditions_are_leaves(params, 0);
        let (field, value) = choose|field: Seq<char>, value: Seq<char>|
            own[0] == condition(field, value);
        let leaf = condition(field, value)->Object_0;
        assert(leaf.contains_key("operator"@) ==> field == "operator"@);
        assert(leaf.contains_key("conditions"@) ==> field == "conditions"@);
    } else {
        assert(conjunction(own)->Object_0["conditions"@] == JsonView::Array(own));
    }
}

/// Each condition of a search is a single field with the value to match.
pub proof fn lemma_conditions_are_leaves(params: SearchParamsView, i: int)
    requires
        0 <= i < search_conditions(params).len(),
    ensures
        is_leaf(search_conditions(params)[i]),
{
    let c0 = Seq::<JsonView>::empty();
    let c1 = with_condition(c0, "text"@, params.query);
    let c2 = with_condition(c1, "from"@, params.from);
    let c3 = with_condition(c2, "to"@, params.to);
    let c4 = with_condition(c3, "subject"@, params.subject);
    lemma_leaf_added(c0, "text"@, params.query);
    lemma_leaf_added(c1, "from"@, params.from);
    lemma_leaf_added(c2, "to"@, params.to);
    lemma_leaf_added(c3, "subject"@, params.subject);
    lemma_leaf_added(c4, "inMailbox"@, params.mailbox_id);
}

/// A list of leaves stays one when a condition for a field is added.
proof fn lemma_leaf_added(conditions: Seq<JsonView>, field: Seq<char>, value: Option<Seq<char>>)
    requires
        forall|i: int| 0 <= i < conditions.len() ==> is_leaf(#[trigger] conditions[i]),
    ensures
        forall|i: int|
            0 <= i < with_condition(conditions, field, value).len() ==> is_leaf(
                #[trigger] with_condition(conditions, field, value)[i],
            ),
{
    match value {
        Some(v) => {
        },
        None => {},
    }
}

} // verus!
