//! Sending a message: a draft is created in the drafts mailbox and submitted
//! in one batch, after the drafts mailbox and the sending identity have been
//! looked up.
//!
//! The three exchanges with the server form a small state machine. The caller
//! sends the request it is given, hands back the reply, and is told either
//! what to send next or how the send ended.

use crate::batch::{
    batch_outcome, call_views, decode_batch, distinct_ids, result_view, MethodCall,
    MethodCallView,
};
use crate::error::{ProtocolError, ProtocolErrorView};
use crate::http::{HttpReply, HttpReplyView, HttpRequest, HttpRequestView};
use crate::jmap::{
    batch_request, decode_single, identity_get_args, mailbox_get_args, single_call,
    single_outcome, JmapClient, JmapClientView,
};
use crate::json::{
    array, as_array, boolean, get, json_view, map_insert, map_new, no_members, object, string,
    texts, views, JsonView,
};
use crate::values::{member, same_text, text_member, text_of};
use serde_json::Value;
use vstd::prelude::*;
use vstd::string::StringExecFns;

verus! {

/// The name under which a send creates its draft.
pub open spec fn draft_creation_id() -> Seq<char> {
    "draft"@
}

/// The name under which a send creates its submission.
pub open spec fn submission_creation_id() -> Seq<char> {
    "send"@
}

/// How the arguments of a method call name an object: by the identifier that
/// the server gave it, or by the name under which a call of the same batch
/// creates it.
#[derive(Clone, Debug, PartialEq, Eq)]
pub enum ObjectRef {
    Existing(String),
    Created(String),
}

/// An `ObjectRef` with its texts as sequences of characters.
pub enum ObjectRefView {
    Existing(Seq<char>),
    Created(Seq<char>),
}

impl View for ObjectRef {
    type V = ObjectRefView;

    open spec fn view(&self) -> ObjectRefView {
        match self {
            ObjectRef::Existing(id) => ObjectRefView::Existing(id@),
            ObjectRef::Created(name) => ObjectRefView::Created(name@),
        }
    }
}

/// The text that stands for an object in the arguments of a method call: the
/// identifier itself, or the creation name behind a `#`.
pub open spec fn reference_token(r: ObjectRefView) -> Seq<char> {
    match r {
        ObjectRefView::Existing(id) => id,
        ObjectRefView::Created(name) => "#"@ + name,
    }
}

impl ObjectRef {
    /// The text that stands for the object in the arguments of a method call.
    pub fn token(&self) -> (text: String)
        ensures
            text@ == reference_token(self@),
    {
        match self {
            ObjectRef::Existing(id) => id.clone(),
            ObjectRef::Created(name) => {
                let mut text = "#".to_owned();
                text.append(name.as_str());
                text
            },
        }
    }
}

/// A message to send: sender, recipients, subject and plain-text body.
#[derive(Clone, Debug, PartialEq, Eq)]
pub struct Message {
    pub from: String,
    pub to: Vec<String>,
    pub subject: String,
    pub body: String,
    pub cc: Vec<String>,
    pub bcc: Vec<String>,
}

/// A `Message` with its texts as sequences of characters.
pub struct MessageView {
    pub from: Seq<char>,
    pub to: Seq<Seq<char>>,
    pub subject: Seq<char>,
    pub body: Seq<char>,
    pub cc: Seq<Seq<char>>,
    pub bcc: Seq<Seq<char>>,
}

impl View for Message {
    type V = MessageView;

    open spec fn view(&self) -> MessageView {
        MessageView {
            from: self.from@,
            to: texts(self.to@),
            subject: self.subject@,
            body: self.body@,
            cc: texts(self.cc@),
            bcc: texts(self.bcc@),
        }
    }
}

/// One address: an object with the address under `email`.
pub open spec fn address(email: Seq<char>) -> JsonView {
    JsonView::Object(no_members().insert("email"@, JsonView::Str(email)))
}

/// A list of addresses, in order.
pub open spec fn addresses(emails: Seq<Seq<char>>) -> JsonView {
    JsonView::Array(emails.map_values(|e: Seq<char>| address(e)))
}

/// The members that every draft has: sender, recipients, subject, the body
/// as the one plain-text part, and the drafts mailbox as its only mailbox.
pub open spec fn draft_base(message: MessageView, drafts_id: Seq<char>) -> Map<Seq<char>, JsonView> {
    no_members().insert("from"@, addresses(seq![message.from])).insert(
        "to"@,
        addresses(message.to),
    ).insert("subject"@, JsonView::Str(message.subject)).insert(
        "bodyValues"@,
        JsonView::Object(
            no_members().insert(
                "body"@,
                JsonView::Object(
                    no_members().insert("value"@, JsonView::Str(message.body)).insert(
                        "charset"@,
                        JsonView::Str("utf-8"@),
                    ),
                ),
            ),
        ),
    ).insert(
        "textBody"@,
        JsonView::Array(
            seq![
                JsonView::Object(
                    no_members().insert("partId"@, JsonView::Str("body"@)).insert(
                        "type"@,
                        JsonView::Str("text/plain"@),
                    ),
                ),
            ],
        ),
    ).insert("mailboxIds"@, JsonView::Object(no_members().insert(drafts_id, JsonView::Bool(true))))
}

/// The members of a draft with a list of further recipients under a name:
/// the list where it has addresses, and no such member at all where it has
/// none.
pub open spec fn with_recipients(
    members: Map<Seq<char>, JsonView>,
    name: Seq<char>,
    emails: Seq<Seq<char>>,
) -> Map<Seq<char>, JsonView> {
    if emails.len() == 0 {
        members
    } else {
        members.insert(name, addresses(emails))
    }
}

/// The draft of a message, placed in the mailbox with the given identifier.
pub open spec fn draft_email(message: MessageView, drafts_id: Seq<char>) -> JsonView {
    JsonView::Object(
        with_recipients(
            with_recipients(draft_base(message, drafts_id), "cc"@, message.cc),
            "bcc"@,
            message.bcc,
        ),
    )
}

/// The arguments of the `Email/set` that creates the draft.
pub open spec fn email_set_args(account_id: Seq<char>, draft: JsonView) -> JsonView {
    JsonView::Object(
        no_members().insert("accountId"@, JsonView::Str(account_id)).insert(
            "create"@,
            JsonView::Object(no_members().insert(draft_creation_id(), draft)),
        ),
    )
}

/// The arguments of the `EmailSubmission/set` that submits the draft of the
/// same batch under an identity, and has the draft destroyed once sent.
pub open spec fn submission_set_args(account_id: Seq<char>, identity_id: Seq<char>) -> JsonView {
    JsonView::Object(
        no_members().insert("accountId"@, JsonView::Str(account_id)).insert(
            "create"@,
            JsonView::Object(
                no_members().insert(
                    submission_creation_id(),
                    JsonView::Object(
                        no_members().insert(
                            "emailId"@,
                            JsonView::Str(
                                reference_token(ObjectRefView::Created(draft_creation_id())),
                            ),
                        ).insert("identityId"@, JsonView::Str(identity_id)),
                    ),
                ),
            ),
        ).insert(
            "onSuccessDestroyEmail"@,
            JsonView::Array(
                seq![
                    JsonView::Str(
                        reference_token(ObjectRefView::Created(submission_creation_id())),
                    ),
                ],
            ),
        ),
    )
}

/// The batch of a send: the creation of the draft, then its submission.
pub open spec fn send_calls(
    account_id: Seq<char>,
    message: MessageView,
    drafts_id: Seq<char>,
    identity_id: Seq<char>,
) -> Seq<MethodCallView> {
    seq![
        MethodCallView {
            method: "Email/set"@,
            args: email_set_args(account_id, draft_email(message, drafts_id)),
            id: "r0"@,
        },
        MethodCallView {
            method: "EmailSubmission/set"@,
            args: submission_set_args(account_id, identity_id),
            id: "r1"@,
        },
    ]
}

/// Whether a mailbox has the given role: it is an object whose `role` is
/// that string.
pub open spec fn has_role(mailbox: JsonView, role: Seq<char>) -> bool {
    text_member(mailbox, "role"@) == Some(role)
}

/// The first mailbox at or after `from` that has the given role.
pub open spec fn first_with_role(
    mailboxes: Seq<JsonView>,
    role: Seq<char>,
    from: int,
) -> Option<JsonView>
    decreases mailboxes.len() - from,
{
    if from < 0 || from >= mailboxes.len() {
        None
    } else if has_role(mailboxes[from], role) {
        Some(mailboxes[from])
    } else {
        first_with_role(mailboxes, role, from + 1)
    }
}

/// The identifier of the drafts mailbox in a mailbox listing: the `id` of
/// the first entry of `list` whose role is `drafts`, where there is such an
/// entry and its `id` is a string.
pub open spec fn drafts_id_in(listing: JsonView) -> Option<Seq<char>> {
    match member(listing, "list"@) {
        Some(JsonView::Array(mailboxes)) => match first_with_role(mailboxes, "drafts"@, 0) {
            Some(mailbox) => text_member(mailbox, "id"@),
            None => None,
        },
        _ => None,
    }
}

/// The identifier of the sending identity in an identity listing: the `id`
/// of the first entry of `list`, where there is one and its `id` is a string.
pub open spec fn identity_id_in(listing: JsonView) -> Option<Seq<char>> {
    match member(listing, "list"@) {
        Some(JsonView::Array(identities)) => if identities.len() == 0 {
            None
        } else {
            text_member(identities[0], "id"@)
        },
        _ => None,
    }
}

/// Finds the identifier of the drafts mailbox in a mailbox listing.
pub fn drafts_mailbox_id(listing: &Value) -> (r: Result<String, ProtocolError>)
    ensures
        r is Ok <==> drafts_id_in(json_view(*listing)) is Some,
        r matches Ok(id) ==> drafts_id_in(json_view(*listing)) == Some(id@),
        r matches Err(e) ==> e@ == ProtocolErrorView::NoDraftsMailbox,
{
    let mailboxes = match get(listing, "list") {
        Some(list) => match as_array(list) {
            Some(mailboxes) => mailboxes,
            None => { return Err(ProtocolError::NoDraftsMailbox); },
        },
        None => { return Err(ProtocolError::NoDraftsMailbox); },
    };
    let ghost trees = views(mailboxes@);
    let mut i: usize = 0;
    while i < mailboxes.len()
        invariant
            i <= mailboxes.len(),
            trees == views(mailboxes@),
            member(json_view(*listing), "list"@) == Some(JsonView::Array(trees)),
            first_with_role(trees, "drafts"@, 0) == first_with_role(trees, "drafts"@, i as int),
        decreases mailboxes.len() - i,
    {
        let mailbox = &mailboxes[i];
        let found = match text_of(mailbox, "role") {
            Some(role) => same_text(role.as_str(), "drafts"),
            None => false,
        };
        if found {
            return match text_of(mailbox, "id") {
                Some(id) => Ok(id),
                None => Err(ProtocolError::NoDraftsMailbox),
            };
        }
        i += 1;
    }
    Err(ProtocolError::NoDraftsMailbox)
}

/// Finds the identifier of the sending identity in an identity listing.
pub fn identity_id(listing: &Value) -> (r: Result<String, ProtocolError>)
    ensures
        r is Ok <==> identity_id_in(json_view(*listing)) is Some,
        r matches Ok(id) ==> identity_id_in(json_view(*listing)) == Some(id@),
        r matches Err(e) ==> e@ == ProtocolErrorView::NoIdentity,
{
    let identities = match get(listing, "list") {
        Some(list) => match as_array(list) {
            Some(identities) => identities,
            None => { return Err(ProtocolError::NoIdentity); },
        },
        None => { return Err(ProtocolError::NoIdentity); },
    };
    if identities.len() == 0 {
        return Err(ProtocolError::NoIdentity);
    }
    match text_of(&identities[0], "id") {
        Some(id) => Ok(id),
        None => Err(ProtocolError::NoIdentity),
    }
}

/// Builds a list of addresses.
pub fn address_list(emails: &[String]) -> (v: Value)
    ensures
        json_view(v) == addresses(texts(emails@)),
{
    let mut out: Vec<Value> = Vec::new();
    let mut i: usize = 0;
    while i < emails.len()
        invariant
            i <= emails.len(),
            out.len() == i,
            forall|j: int| 0 <= j < i ==> json_view(#[trigger] out[j]) == address(emails[j]@),
        decreases emails.len() - i,
    {
        let mut entry = map_new();
        map_insert(&mut entry, "email", string(emails[i].as_str()));
        out.push(object(entry));
        i += 1;
    }
    assert(views(out@) =~= addresses(texts(emails@))->Array_0);
    array(out)
}

/// Builds the draft of a message, placed in the mailbox with the given
/// identifier. Copy recipients appear only where there are any.
pub fn draft(message: &Message, drafts_id: &str) -> (v: Value)
    ensures
        json_view(v) == draft_email(message@, drafts_id@),
{
    let mut sender: Vec<Value> = Vec::new();
    let mut from = map_new();
    map_insert(&mut from, "email", string(message.from.as_str()));
    sender.push(object(from));
    assert(views(sender@) =~= addresses(seq![message.from@])->Array_0);

    let mut text = map_new();
    map_insert(&mut text, "value", string(message.body.as_str()));
    map_insert(&mut text, "charset", string("utf-8"));
    let mut body_values = map_new();
    map_insert(&mut body_values, "body", object(text));

    let mut part = map_new();
    map_insert(&mut part, "partId", string("body"));
    map_insert(&mut part, "type", string("text/plain"));
    let mut parts: Vec<Value> = Vec::new();
    parts.push(object(part));
    assert(views(parts@) =~= seq![
        JsonView::Object(
            no_members().insert("partId"@, JsonView::Str("body"@)).insert(
                "type"@,
                JsonView::Str("text/plain"@),
            ),
        ),
    ]);

    let mut mailbox_ids = map_new();
    map_insert(&mut mailbox_ids, drafts_id, boolean(true));

    let mut email = map_new();
    map_insert(&mut email, "from", array(sender));
    map_insert(&mut email, "to", address_list(message.to.as_slice()));
    map_insert(&mut email, "subject", string(message.subject.as_str()));
    map_insert(&mut email, "bodyValues", object(body_values));
    map_insert(&mut email, "textBody", array(parts));
    map_insert(&mut email, "mailboxIds", object(mailbox_ids));
    if message.cc.len() > 0 {
        map_insert(&mut email, "cc", address_list(message.cc.as_slice()));
    }
    if message.bcc.len() > 0 {
        map_insert(&mut email, "bcc", address_list(message.bcc.as_slice()));
    }
    object(email)
}

/// Builds the batch of a send: the creation of the draft, then its
/// submission under the identity.
pub fn send_batch(
    account_id: &str,
    message: &Message,
    drafts_id: &str,
    identity_id: &str,
) -> (calls: Vec<MethodCall>)
    ensures
        call_views(calls@) == send_calls(account_id@, message@, drafts_id@, identity_id@),
{
    let draft_name = "draft";
    let submission_name = "send";

    let mut drafts = map_new();
    map_insert(&mut drafts, draft_name, draft(message, drafts_id));
    let mut create_draft = map_new();
    map_insert(&mut create_draft, "accountId", string(account_id));
    map_insert(&mut create_draft, "create", object(drafts));

    let draft_token = ObjectRef::Created(draft_name.to_owned()).token();
    let submission_token = ObjectRef::Created(submission_name.to_owned()).token();
    let mut submission = map_new();
    map_insert(&mut submission, "emailId", string(draft_token.as_str()));
    map_insert(&mut submission, "identityId", string(identity_id));
    let mut submissions = map_new();
    map_insert(&mut submissions, submission_name, object(submission));
    let mut destroy: Vec<Value> = Vec::new();
    destroy.push(string(submission_token.as_str()));
    assert(views(destroy@) =~= seq![
        JsonView::Str(reference_token(ObjectRefView::Created(submission_creation_id()))),
    ]);
    let mut submit = map_new();
    map_insert(&mut submit, "accountId", string(account_id));
    map_insert(&mut submit, "create", object(submissions));
    map_insert(&mut submit, "onSuccessDestroyEmail", array(destroy));

    let mut calls: Vec<MethodCall> = Vec::new();
    calls.push(
        MethodCall { method: "Email/set".to_owned(), args: object(create_draft), id: "r0".to_owned() },
    );
    calls.push(
        MethodCall {
            method: "EmailSubmission/set".to_owned(),
            args: object(submit),
            id: "r1".to_owned(),
        },
    );
    calls
}

/// How far a send has come: which reply it waits for.
#[derive(Clone, Debug, PartialEq, Eq)]
pub enum SendStage {
    /// The mailbox listing has been asked for.
    Mailboxes,
    /// The drafts mailbox is known, and the identities have been asked for.
    Identity { drafts_id: String },
    /// The draft and its submission have been sent.
    Submission,
}

/// A `SendStage` with its texts as sequences of characters.
pub enum SendStageView {
    Mailboxes,
    Identity { drafts_id: Seq<char> },
    Submission,
}

impl View for SendStage {
    type V = SendStageView;

    open spec fn view(&self) -> SendStageView {
        match self {
            SendStage::Mailboxes => SendStageView::Mailboxes,
            SendStage::Identity { drafts_id } => SendStageView::Identity { drafts_id: drafts_id@ },
            SendStage::Submission => SendStageView::Submission,
        }
    }
}

/// A send under way: the client it runs on, the message, and the stage
/// reached.
#[derive(Clone, Debug, PartialEq, Eq)]
pub struct SendEmail {
    client: JmapClient,
    message: Message,
    stage: SendStage,
}

/// A `SendEmail` over views.
pub struct SendEmailView {
    pub client: JmapClientView,
    pub message: MessageView,
    pub stage: SendStageView,
}

impl View for SendEmail {
    type V = SendEmailView;

    closed spec fn view(&self) -> SendEmailView {
        SendEmailView { client: self.client@, message: self.message@, stage: self.stage@ }
    }
}

/// What a send does on a reply: it goes on with another request, or it is
/// over, with the result of the submission or an error.
#[derive(Debug, PartialEq, Eq)]
pub enum SendProgress {
    Next(SendEmail, HttpRequest),
    Done(Result<Value, ProtocolError>),
}

/// A `SendProgress` over views.
pub enum SendProgressView {
    Next(SendEmailView, HttpRequestView),
    Done(Result<JsonView, ProtocolErrorView>),
}

impl View for SendProgress {
    type V = SendProgressView;

    open spec fn view(&self) -> SendProgressView {
        match self {
            SendProgress::Next(flow, request) => SendProgressView::Next(flow@, request@),
            SendProgress::Done(result) => SendProgressView::Done(result_view(*result)),
        }
    }
}

/// The request that opens a send: the listing of the account's mailboxes.
pub open spec fn send_opening(client: JmapClientView) -> HttpRequestView {
    batch_request(client, single_call("Mailbox/get"@, mailbox_get_args(client.account_id)))
}

/// What a send yields from the reply to its batch: the result of the last
/// call, which is the submission.
pub open spec fn submission_outcome(reply: HttpReplyView) -> Result<JsonView, ProtocolErrorView> {
    match batch_outcome(reply) {
        Ok(results) => if results.len() == 0 {
            Err(ProtocolErrorView::NoSubmissionResponse)
        } else {
            Ok(results.last())
        },
        Err(e) => Err(e),
    }
}

/// The step of a send on the reply to its pending request.
///
/// - Waiting for the mailboxes: a failed listing ends the send with that
///   failure, a listing without a drafts mailbox with `NoDraftsMailbox`;
///   otherwise the identities are asked for.
/// - Waiting for the identities: a failed listing ends the send with that
///   failure, a listing without an identity with `NoIdentity`; otherwise the
///   draft and its submission go out as one batch.
/// - Waiting for the submission: the send ends with what the batch yields.
pub open spec fn send_progress(flow: SendEmailView, reply: HttpReplyView) -> SendProgressView {
    match flow.stage {
        SendStageView::Mailboxes => match single_outcome(reply) {
            Ok(listing) => match drafts_id_in(listing) {
                Some(drafts_id) => SendProgressView::Next(
                    SendEmailView {
                        client: flow.client,
                        message: flow.message,
                        stage: SendStageView::Identity { drafts_id },
                    },
                    batch_request(
                        flow.client,
                        single_call("Identity/get"@, identity_get_args(flow.client.account_id)),
                    ),
                ),
                None => SendProgressView::Done(Err(ProtocolErrorView::NoDraftsMailbox)),
            },
            Err(e) => SendProgressView::Done(Err(e)),
        },
        SendStageView::Identity { drafts_id } => match single_outcome(reply) {
            Ok(listing) => match identity_id_in(listing) {
                Some(identity_id) => SendProgressView::Next(
                    SendEmailView {
                        client: flow.client,
                        message: flow.message,
                        stage: SendStageView::Submission,
                    },
                    batch_request(
                        flow.client,
                        send_calls(flow.client.account_id, flow.message, drafts_id, identity_id),
                    ),
                ),
                None => SendProgressView::Done(Err(ProtocolErrorView::NoIdentity)),
            },
            Err(e) => SendProgressView::Done(Err(e)),
        },
        SendStageView::Submission => SendProgressView::Done(submission_outcome(reply)),
    }
}

/// Copies a list of strings.
fn copy_of(items: &[String]) -> (out: Vec<String>)
    ensures
        out@ == items@,
{
    let mut out: Vec<String> = Vec::new();
    let mut i: usize = 0;
    while i < items.len()
        invariant
            i <= items.len(),
            out@ == items@.take(i as int),
        decreases items.len() - i,
    {
        out.push(items[i].clone());
        i += 1;
    }
    out
}

/// Decodes the reply to the batch of a send into the result of the
/// submission.
pub fn decode_submission(reply: &HttpReply) -> (r: Result<Value, ProtocolError>)
    ensures
        result_view(r) == submission_outcome(reply@),
{
    match decode_batch(reply) {
        Ok(results) => {
            let n = results.len();
            if n == 0 {
                Err(ProtocolError::NoSubmissionResponse)
            } else {
                Ok(results[n - 1].clone())
            }
        },
        Err(e) => Err(e),
    }
}

impl JmapClient {
    /// Opens the send of a message: the send in its first stage, and the
    /// request to send first.
    pub fn send_email(
        &self,
        from: &str,
        to: &[String],
        subject: &str,
        body: &str,
        cc: &[String],
        bcc: &[String],
    ) -> (opened: (SendEmail, HttpRequest))
        ensures
            opened.0@ == (SendEmailView {
                client: self@,
                message: MessageView {
                    from: from@,
                    to: texts(to@),
                    subject: subject@,
                    body: body@,
                    cc: texts(cc@),
                    bcc: texts(bcc@),
                },
                stage: SendStageView::Mailboxes,
            }),
            opened.1@ == send_opening(self@),
    {
        let message = Message {
            from: from.to_owned(),
            to: copy_of(to),
            subject: subject.to_owned(),
            body: body.to_owned(),
            cc: copy_of(cc),
            bcc: copy_of(bcc),
        };
        let flow = SendEmail { client: self.copy(), message, stage: SendStage::Mailboxes };
        (flow, self.get_mailboxes())
    }
}

impl SendEmail {
    /// Takes the reply to the pending request, and says what comes next.
    pub fn advance(self, reply: &HttpReply) -> (progress: SendProgress)
        ensures
            progress@ == send_progress(self@, reply@),
    {
        let SendEmail { client, message, stage } = self;
        match stage {
            SendStage::Mailboxes => {
                let listing = match decode_single(reply) {
                    Ok(listing) => listing,
                    Err(e) => { return SendProgress::Done(Err(e)); },
                };
                let drafts_id = match drafts_mailbox_id(&listing) {
                    Ok(id) => id,
                    Err(e) => { return SendProgress::Done(Err(e)); },
                };
                let mut args = map_new();
                map_insert(&mut args, "accountId", string(client.account_id()));
                let request = client.call("Identity/get", object(args));
                SendProgress::Next(
                    SendEmail { client, message, stage: SendStage::Identity { drafts_id } },
                    request,
                )
            },
            SendStage::Identity { drafts_id } => {
                let listing = match decode_single(reply) {
                    Ok(listing) => listing,
                    Err(e) => { return SendProgress::Done(Err(e)); },
                };
                let identity = match identity_id(&listing) {
                    Ok(id) => id,
                    Err(e) => { return SendProgress::Done(Err(e)); },
                };
                let calls = send_batch(
                    client.account_id(),
                    &message,
                    drafts_id.as_str(),
                    identity.as_str(),
                );
                proof {
                    lemma_send_ids_distinct(
                        client@.account_id,
                        message@,
                        drafts_id@,
                        identity@,
                    );
                }
                let request = client.call_multi(calls.as_slice());
                SendProgress::Next(
                    SendEmail { client, message, stage: SendStage::Submission },
                    request,
                )
            },
            SendStage::Submission => SendProgress::Done(decode_submission(reply)),
        }
    }
}

/// The two calls of a send go under different identifiers.
pub proof fn lemma_send_ids_distinct(
    account_id: Seq<char>,
    message: MessageView,
    drafts_id: Seq<char>,
    identity_id: Seq<char>,
)
    ensures
        distinct_ids(send_calls(account_id, message, drafts_id, identity_id)),
{
    reveal_strlit("r0");
    reveal_strlit("r1");
    assert("r0"@[1] != "r1"@[1]);
}

/// A draft has a `cc` member exactly where the message has copy recipients,
/// and a `bcc` member exactly where it has blind-copy recipients: a list
/// without addresses leaves no member behind, not an empty array.
pub proof fn lemma_copy_recipients(message: MessageView, drafts_id: Seq<char>)
    ensures
        draft_email(message, drafts_id) is Object,
        member(draft_email(message, drafts_id), "cc"@) is Some <==> message.cc.len() > 0,
        member(draft_email(message, drafts_id), "bcc"@) is Some <==> message.bcc.len() > 0,
        message.cc.len() > 0 ==> member(draft_email(message, drafts_id), "cc"@) == Some(
            addresses(message.cc),
        ),
        message.bcc.len() > 0 ==> member(draft_email(message, drafts_id), "bcc"@) == Some(
            addresses(message.bcc),
        ),
{
    reveal_strlit("from");
    reveal_strlit("to");
    reveal_strlit("subject");
    reveal_strlit("bodyValues");
    reveal_strlit("textBody");
    reveal_strlit("mailboxIds");
    reveal_strlit("cc");
    reveal_strlit("bcc");
    assert("to"@[0] != "cc"@[0]);
    assert("bcc"@.len() == 3 && "from"@.len() == 4 && "to"@.len() == 2 && "subject"@.len() == 7);
}

/// A send whose batch is answered with the results of its two calls, in
/// order, ends with the second: the result of the submission, not that of
/// the draft's creation.
pub proof fn lemma_send_yields_submission(
    flow: SendEmailView,
    reply: HttpReplyView,
    creation: JsonView,
    submission: JsonView,
)
    requires
        flow.stage is Submission,
        batch_outcome(reply) == Ok::<Seq<JsonView>, ProtocolErrorView>(seq![creation, submission]),
    ensures
        send_progress(flow, reply) == SendProgressView::Done(Ok(submission)),
{
}

/// A send in its last stage ends on any reply, and with an error where the
/// batch fails: nothing of a batch that failed is handed out.
pub proof fn lemma_send_fails_with_batch(flow: SendEmailView, reply: HttpReplyView)
    requires
        flow.stage is Submission,
        batch_outcome(reply) is Err,
    ensures
        send_progress(flow, reply) == SendProgressView::Done(
            Err(batch_outcome(reply)->Err_0),
        ),
{
}

} // verus!
