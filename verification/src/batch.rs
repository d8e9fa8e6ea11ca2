//! Batches of method calls: the request envelope that carries them, and the
//! decoding of the response that answers them.
//!
//! A batch is answered as a whole. One method call that the server reports as
//! failed fails the batch, and nothing of the other calls is handed out.

use crate::error::{ProtocolError, ProtocolErrorView};
use crate::http::{error_status, is_error_status, HttpReply, HttpReplyView};
use crate::json::{
    array, as_array, as_str, get, json_view, map_insert, map_new, no_members, object, parse,
    parsed, string, views, JsonView,
};
use crate::values::{member, same_text};
use serde_json::Value;
use vstd::prelude::*;

verus! {

/// One method call of a batch: the method's name, its arguments, and the
/// identifier by which the batch refers to this call.
#[derive(Clone, Debug, PartialEq, Eq)]
pub struct MethodCall {
    pub method: String,
    pub args: Value,
    pub id: String,
}

/// A `MethodCall` over texts and a JSON tree.
pub struct MethodCallView {
    pub method: Seq<char>,
    pub args: JsonView,
    pub id: Seq<char>,
}

impl View for MethodCall {
    type V = MethodCallView;

    open spec fn view(&self) -> MethodCallView {
        MethodCallView { method: self.method@, args: json_view(self.args), id: self.id@ }
    }
}

/// The views of a sequence of method calls, element by element.
pub open spec fn call_views(calls: Seq<MethodCall>) -> Seq<MethodCallView> {
    calls.map_values(|c: MethodCall| c@)
}

/// Whether no two calls of a batch share an identifier.
pub open spec fn distinct_ids(calls: Seq<MethodCallView>) -> bool {
    forall|i: int, j: int| 0 <= i < j < calls.len() ==> calls[i].id != calls[j].id
}

/// A method call on the wire: the triple of name, arguments and identifier.
pub open spec fn call_tree(call: MethodCallView) -> JsonView {
    JsonView::Array(seq![JsonView::Str(call.method), call.args, JsonView::Str(call.id)])
}

/// The capabilities that every request declares: core, mail and submission.
pub open spec fn capabilities() -> JsonView {
    JsonView::Array(
        seq![
            JsonView::Str("urn:ietf:params:jmap:core"@),
            JsonView::Str("urn:ietf:params:jmap:mail"@),
            JsonView::Str("urn:ietf:params:jmap:submission"@),
        ],
    )
}

/// The request envelope of a batch: the capabilities in use, and the calls
/// in the order given.
pub open spec fn envelope(calls: Seq<MethodCallView>) -> JsonView {
    JsonView::Object(
        no_members().insert("using"@, capabilities()).insert(
            "methodCalls"@,
            JsonView::Array(calls.map_values(|c: MethodCallView| call_tree(c))),
        ),
    )
}

/// Builds the request envelope of a batch.
pub fn envelope_of(calls: &[MethodCall]) -> (v: Value)
    ensures
        json_view(v) == envelope(call_views(calls@)),
{
    let mut using: Vec<Value> = Vec::new();
    using.push(string("urn:ietf:params:jmap:core"));
    using.push(string("urn:ietf:params:jmap:mail"));
    using.push(string("urn:ietf:params:jmap:submission"));
    assert(views(using@) =~= capabilities()->Array_0);

    let mut triples: Vec<Value> = Vec::new();
    let mut i: usize = 0;
    while i < calls.len()
        invariant
            i <= calls.len(),
            triples.len() == i,
            forall|j: int| 0 <= j < i ==> json_view(#[trigger] triples[j]) == call_tree(calls[j]@),
        decreases calls.len() - i,
    {
        let call = &calls[i];
        let mut triple: Vec<Value> = Vec::new();
        triple.push(string(call.method.as_str()));
        triple.push(call.args.clone());
        triple.push(string(call.id.as_str()));
        assert(views(triple@) =~= call_tree(call@)->Array_0);
        triples.push(array(triple));
        i += 1;
    }
    assert(views(triples@) =~= call_views(calls@).map_values(|c: MethodCallView| call_tree(c)));

    let mut members = map_new();
    map_insert(&mut members, "using", array(using));
    map_insert(&mut members, "methodCalls", array(triples));
    object(members)
}

/// Whether a response entry has the shape of a method response: an array of
/// at least a tag and a payload.
pub open spec fn well_formed_entry(entry: JsonView) -> bool {
    entry matches JsonView::Array(parts) && parts.len() >= 2
}

/// The tag of a method response: its first element.
pub open spec fn entry_tag(entry: JsonView) -> JsonView {
    entry->Array_0[0]
}

/// The payload of a method response: its second element.
pub open spec fn entry_payload(entry: JsonView) -> JsonView {
    entry->Array_0[1]
}

/// Whether a method response reports an error: its tag is the string
/// `error`.
pub open spec fn is_error_entry(entry: JsonView) -> bool {
    entry_tag(entry) == JsonView::Str("error"@)
}

/// The method responses of a response envelope: the array under
/// `methodResponses`, where the envelope is an object that has one and each
/// of its entries is well formed.
pub open spec fn response_entries(envelope: JsonView) -> Option<Seq<JsonView>> {
    match member(envelope, "methodResponses"@) {
        Some(JsonView::Array(entries)) => if forall|i: int|
            0 <= i < entries.len() ==> well_formed_entry(#[trigger] entries[i]) {
            Some(entries)
        } else {
            None
        },
        _ => None,
    }
}

/// The payload of the first entry at or after `from` that reports an error.
pub open spec fn first_error(entries: Seq<JsonView>, from: int) -> Option<JsonView>
    decreases entries.len() - from,
{
    if from < 0 || from >= entries.len() {
        None
    } else if is_error_entry(entries[from]) {
        Some(entry_payload(entries[from]))
    } else {
        first_error(entries, from + 1)
    }
}

/// The payloads of all entries, in order.
pub open spec fn payloads(entries: Seq<JsonView>) -> Seq<JsonView> {
    entries.map_values(|e: JsonView| entry_payload(e))
}

/// What a batch yields from its method responses: the first error that an
/// entry reports, or else every payload in the order of the entries.
pub open spec fn batch_results(entries: Seq<JsonView>) -> Result<Seq<JsonView>, ProtocolErrorView> {
    match first_error(entries, 0) {
        Some(payload) => Err(ProtocolErrorView::RemoteMethod(payload)),
        None => Ok(payloads(entries)),
    }
}

/// What a batch yields from a decoded response envelope.
pub open spec fn envelope_results(envelope: JsonView) -> Result<Seq<JsonView>, ProtocolErrorView> {
    match response_entries(envelope) {
        Some(entries) => batch_results(entries),
        None => Err(ProtocolErrorView::Decode),
    }
}

/// What a batch yields from the reply to its request.
pub open spec fn batch_outcome(reply: HttpReplyView) -> Result<Seq<JsonView>, ProtocolErrorView> {
    match reply {
        HttpReplyView::Failed(detail) => Err(ProtocolErrorView::Transport(detail)),
        HttpReplyView::Answer { status, body } => if is_error_status(status) {
            Err(ProtocolErrorView::Auth(status))
        } else {
            match parsed(body) {
                Some(envelope) => envelope_results(envelope),
                None => Err(ProtocolErrorView::Decode),
            }
        },
    }
}

/// The view of a batch's results or of the error in their place.
pub open spec fn results_view(
    r: Result<Vec<Value>, ProtocolError>,
) -> Result<Seq<JsonView>, ProtocolErrorView> {
    match r {
        Ok(values) => Ok(views(values@)),
        Err(e) => Err(e@),
    }
}

/// The view of a single result or of the error in its place.
pub open spec fn result_view(r: Result<Value, ProtocolError>) -> Result<JsonView, ProtocolErrorView> {
    match r {
        Ok(value) => Ok(json_view(value)),
        Err(e) => Err(e@),
    }
}

/// Decodes a response envelope into the results of its batch.
pub fn decode_envelope(envelope: &Value) -> (r: Result<Vec<Value>, ProtocolError>)
    ensures
        results_view(r) == envelope_results(json_view(*envelope)),
{
    let entries = match get(envelope, "methodResponses") {
        Some(list) => match as_array(list) {
            Some(entries) => entries,
            None => { return Err(ProtocolError::Decode); },
        },
        None => { return Err(ProtocolError::Decode); },
    };
    let ghost trees = views(entries@);
    let mut i: usize = 0;
    while i < entries.len()
        invariant
            i <= entries.len(),
            trees == views(entries@),
            member(json_view(*envelope), "methodResponses"@) == Some(JsonView::Array(trees)),
            forall|j: int| 0 <= j < i ==> well_formed_entry(#[trigger] trees[j]),
        decreases entries.len() - i,
    {
        let well_formed = match as_array(&entries[i]) {
            Some(parts) => parts.len() >= 2,
            None => false,
        };
        if !well_formed {
            assert(!well_formed_entry(trees[i as int]));
            return Err(ProtocolError::Decode);
        }
        i += 1;
    }

    let mut results: Vec<Value> = Vec::new();
    let mut k: usize = 0;
    while k < entries.len()
        invariant
            k <= entries.len(),
            trees == views(entries@),
            forall|j: int| 0 <= j < trees.len() ==> well_formed_entry(#[trigger] trees[j]),
            response_entries(json_view(*envelope)) == Some(trees),
            first_error(trees, 0) == first_error(trees, k as int),
            results.len() == k,
            forall|j: int| 0 <= j < k ==> json_view(#[trigger] results[j]) == entry_payload(trees[j]),
        decreases entries.len() - k,
    {
        match as_array(&entries[k]) {
            Some(parts) => {
                let failed = match as_str(&parts[0]) {
                    Some(tag) => same_text(tag, "error"),
                    None => false,
                };
                if failed {
                    return Err(ProtocolError::RemoteMethod(parts[1].clone()));
                }
                results.push(parts[1].clone());
            },
            None => {},
        }
        k += 1;
    }
    assert(views(results@) =~= payloads(trees));
    Ok(results)
}

/// Decodes the reply to a batch request into the results of the batch.
pub fn decode_batch(reply: &HttpReply) -> (r: Result<Vec<Value>, ProtocolError>)
    ensures
        results_view(r) == batch_outcome(reply@),
{
    match reply {
        HttpReply::Failed(detail) => Err(ProtocolError::Transport(detail.clone())),
        HttpReply::Answer { status, body } => {
            if error_status(*status) {
                return Err(ProtocolError::Auth(*status));
            }
            match parse(body.as_str()) {
                Ok(envelope) => decode_envelope(&envelope),
                Err(_) => Err(ProtocolError::Decode),
            }
        },
    }
}

/// A batch with an entry that reports an error fails as a whole, whatever
/// its other entries hold: no payload is handed out.
pub proof fn lemma_error_fails_batch(entries: Seq<JsonView>, at: int)
    requires
        0 <= at < entries.len(),
        is_error_entry(entries[at]),
    ensures
        batch_results(entries) is Err,
{
    lemma_some_error_from(entries, 0, at);
}

/// The error that a failed batch yields is the one that the first of its
/// failed entries reports.
pub proof fn lemma_first_error_decides(entries: Seq<JsonView>, at: int)
    requires
        0 <= at < entries.len(),
        is_error_entry(entries[at]),
        forall|j: int| 0 <= j < at ==> !is_error_entry(#[trigger] entries[j]),
    ensures
        batch_results(entries) == Err::<Seq<JsonView>, ProtocolErrorView>(
            ProtocolErrorView::RemoteMethod(entry_payload(entries[at])),
        ),
{
    lemma_first_error_from(entries, 0, at);
}

/// Where an entry at or after `from` reports an error, there is a first
/// error from there on.
proof fn lemma_some_error_from(entries: Seq<JsonView>, from: int, at: int)
    requires
        0 <= from <= at < entries.len(),
        is_error_entry(entries[at]),
    ensures
        first_error(entries, from) is Some,
    decreases at - from,
{
    if !is_error_entry(entries[from]) {
        lemma_some_error_from(entries, from + 1, at);
    }
}

/// Where the entry at `at` reports an error and none between `from` and it
/// does, the first error from `from` on is that entry's.
proof fn lemma_first_error_from(entries: Seq<JsonView>, from: int, at: int)
    requires
        0 <= from <= at < entries.len(),
        is_error_entry(entries[at]),
        forall|j: int| from <= j < at ==> !is_error_entry(#[trigger] entries[j]),
    ensures
        first_error(entries, from) == Some(entry_payload(entries[at])),
    decreases at - from,
{
    if from < at {
        lemma_first_error_from(entries, from + 1, at);
    }
}

/// A batch none of whose entries reports an error yields the payload of
/// every entry, in the order of the entries.
pub proof fn lemma_batch_in_order(entries: Seq<JsonView>)
    requires
        forall|i: int| 0 <= i < entries.len() ==> !is_error_entry(#[trigger] entries[i]),
    ensures
        batch_results(entries) == Ok::<Seq<JsonView>, ProtocolErrorView>(payloads(entries)),
        payloads(entries).len() == entries.len(),
        forall|i: int|
            0 <= i < entries.len() ==> #[trigger] payloads(entries)[i] == entry_payload(entries[i]),
{
    lemma_no_error_from(entries, 0);
}

/// Where no entry reports an error, there is no first error.
proof fn lemma_no_error_from(entries: Seq<JsonView>, from: int)
    requires
        0 <= from,
        forall|i: int| 0 <= i < entries.len() ==> !is_error_entry(#[trigger] entries[i]),
    ensures
        first_error(entries, from) is None,
    decreases entries.len() - from,
{
    if from < entries.len() {
        lemma_no_error_from(entries, from + 1);
    }
}

} // verus!
