use mcp_server_stalwart::error::ProtocolError;
use mcp_server_stalwart::http::{HttpMethod, HttpReply, HttpRequest};
use mcp_server_stalwart::jmap::JmapClient;
use mcp_server_stalwart::server::{
    combine, conditions_of, limit_of, position_of, render, GetEmailsParams, SearchParams,
    StalwartServer, ToolOutput, ValidationError,
};
use serde_json::Value;

fn tree(text: &str) -> Value {
    serde_json::from_str(text).unwrap()
}

fn ok(body: &str) -> HttpReply {
    HttpReply::Answer { status: 200, body: body.to_string() }
}

fn client() -> JmapClient {
    let body = r#"{
        "apiUrl": "https://mail.example.org/jmap/",
        "accounts": {"a1": {"name": "alice"}},
        "primaryAccounts": {"urn:ietf:params:jmap:mail": "a1"}
    }"#;
    JmapClient::connect(&ok(body), "alice", "secret").unwrap()
}

fn server() -> StalwartServer {
    StalwartServer::new(client())
}

fn no_filters() -> SearchParams {
    SearchParams {
        query: None,
        from: None,
        to: None,
        subject: None,
        mailbox_id: None,
        position: None,
        limit: None,
    }
}

fn args_of(request: &HttpRequest) -> Value {
    assert_eq!(request.method, HttpMethod::Post);
    let body: Value = serde_json::from_str(&request.body).unwrap();
    assert_eq!(body["methodCalls"].as_array().unwrap().len(), 1);
    assert_eq!(body["methodCalls"][0][0], "Email/query");
    assert_eq!(body["methodCalls"][0][2], "r0");
    body["methodCalls"][0][1].clone()
}

#[test]
fn limit_is_clamped_never_rejected() {
    assert_eq!(limit_of(Some(0)), 0);
    assert_eq!(limit_of(Some(10)), 10);
    assert_eq!(limit_of(Some(50)), 50);
    assert_eq!(limit_of(Some(51)), 50);
    assert_eq!(limit_of(Some(1000)), 50);
}

#[test]
fn limit_defaults_to_ten() {
    assert_eq!(limit_of(None), 10);
    assert_eq!(limit_of(Some(1)), 1);
    assert_eq!(limit_of(Some(49)), 49);
    assert_eq!(limit_of(Some(u32::MAX)), 50);
}

#[test]
fn position_defaults_to_zero() {
    assert_eq!(position_of(None), 0);
    assert_eq!(position_of(Some(0)), 0);
    assert_eq!(position_of(Some(7)), 7);
    assert_eq!(position_of(Some(u32::MAX)), u32::MAX);
}

#[test]
fn no_condition_gives_the_empty_filter() {
    assert_eq!(combine(Vec::new()), tree("{}"));
    assert_eq!(combine(conditions_of(&no_filters())), tree("{}"));
}

#[test]
fn one_condition_stands_bare() {
    assert_eq!(combine(vec![tree(r#"{"from": "bob"}"#)]), tree(r#"{"from": "bob"}"#));
    let cases = [
        (SearchParams { query: Some("invoice".to_string()), ..no_filters() }, r#"{"text": "invoice"}"#),
        (SearchParams { from: Some("bob@x.org".to_string()), ..no_filters() }, r#"{"from": "bob@x.org"}"#),
        (SearchParams { to: Some("al@x.org".to_string()), ..no_filters() }, r#"{"to": "al@x.org"}"#),
        (SearchParams { subject: Some("Re:".to_string()), ..no_filters() }, r#"{"subject": "Re:"}"#),
        (SearchParams { mailbox_id: Some("mb1".to_string()), ..no_filters() }, r#"{"inMailbox": "mb1"}"#),
    ];
    for (params, expected) in cases {
        assert_eq!(combine(conditions_of(&params)), tree(expected));
    }
}

#[test]
fn several_conditions_are_joined_by_and() {
    assert_eq!(
        combine(vec![tree(r#"{"from": "bob"}"#), tree(r#"{"to": "al"}"#)]),
        tree(r#"{"operator": "AND", "conditions": [{"from": "bob"}, {"to": "al"}]}"#)
    );
    let params = SearchParams {
        query: Some("q".to_string()),
        from: Some("f".to_string()),
        to: Some("t".to_string()),
        subject: Some("s".to_string()),
        mailbox_id: Some("m".to_string()),
        position: None,
        limit: None,
    };
    assert_eq!(
        combine(conditions_of(&params)),
        tree(
            r#"{"operator": "AND", "conditions": [
                {"text": "q"}, {"from": "f"}, {"to": "t"}, {"subject": "s"}, {"inMailbox": "m"}
            ]}"#
        )
    );
}

#[test]
fn conditions_follow_the_given_filters_in_order() {
    let params = SearchParams {
        subject: Some("s".to_string()),
        query: Some("q".to_string()),
        ..no_filters()
    };
    assert_eq!(conditions_of(&params), vec![tree(r#"{"text": "q"}"#), tree(r#"{"subject": "s"}"#)]);
    assert_eq!(conditions_of(&no_filters()), Vec::<Value>::new());
}

#[test]
fn an_empty_filter_text_still_counts_as_given() {
    let params = SearchParams { from: Some(String::new()), ..no_filters() };
    assert_eq!(combine(conditions_of(&params)), tree(r#"{"from": ""}"#));
}

#[test]
fn search_request_uses_defaults() {
    let request = server().search_emails(&no_filters());
    assert_eq!(
        args_of(&request),
        tree(
            r#"{"accountId": "a1", "filter": {},
                "sort": [{"property": "receivedAt", "isAscending": false}],
                "position": 0, "limit": 10}"#
        )
    );
}

#[test]
fn search_request_normalises_position_and_limit() {
    let params = SearchParams {
        from: Some("bob".to_string()),
        mailbox_id: Some("mb1".to_string()),
        position: Some(20),
        limit: Some(500),
        ..no_filters()
    };
    let request = server().search_emails(&params);
    assert_eq!(
        args_of(&request),
        tree(
            r#"{"accountId": "a1",
                "filter": {"operator": "AND", "conditions": [{"from": "bob"}, {"inMailbox": "mb1"}]},
                "sort": [{"property": "receivedAt", "isAscending": false}],
                "position": 20, "limit": 50}"#
        )
    );
}

#[test]
fn router_lists_mailboxes_through_the_client() {
    assert_eq!(server().get_mailboxes(), client().get_mailboxes());
}

#[test]
fn fetch_of_no_ids_is_refused_before_any_request() {
    let r = server().get_emails(&GetEmailsParams { ids: Vec::new() });
    assert_eq!(r, Err(ValidationError { message: "ids must not be empty".to_string() }));
}

#[test]
fn fetch_of_ids_goes_to_the_client() {
    let ids = vec!["m1".to_string()];
    let r = server().get_emails(&GetEmailsParams { ids: ids.clone() });
    assert_eq!(r, Ok(client().get_emails(&ids)));
}

#[test]
fn success_is_rendered_as_indented_json() {
    let result = Ok(tree(r#"{"list": [{"id": "mb1", "totalEmails": 3}], "state": "s"}"#));
    assert_eq!(
        render(&result),
        ToolOutput::Success(
            "{\n  \"list\": [\n    {\n      \"id\": \"mb1\",\n      \"totalEmails\": 3\n    }\n  ],\n  \"state\": \"s\"\n}"
                .to_string()
        )
    );
    assert_eq!(render(&Ok(tree("null"))), ToolOutput::Success("null".to_string()));
    assert_eq!(render(&Ok(tree("[]"))), ToolOutput::Success("[]".to_string()));
}

#[test]
fn errors_are_rendered_as_their_description() {
    assert_eq!(
        render(&Err(ProtocolError::EmptyResponse)),
        ToolOutput::Failure("empty JMAP response".to_string())
    );
    assert_eq!(
        render(&Err(ProtocolError::RemoteMethod(tree(r#"{"type": "unknownMethod"}"#)))),
        ToolOutput::Failure(r#"JMAP error: {"type":"unknownMethod"}"#.to_string())
    );
    assert_eq!(
        render(&Err(ProtocolError::Transport("connection reset".to_string()))),
        ToolOutput::Failure("connection reset".to_string())
    );
}

#[test]
fn respond_renders_the_first_result_of_the_reply() {
    let reply = ok(r#"{"methodResponses": [["Email/query", {"ids": ["m1"]}, "r0"]]}"#);
    assert_eq!(
        server().respond(&reply),
        ToolOutput::Success("{\n  \"ids\": [\n    \"m1\"\n  ]\n}".to_string())
    );
}

#[test]
fn respond_renders_every_failure_as_text() {
    let s = server();
    assert_eq!(
        s.respond(&HttpReply::Failed("no route to host".to_string())),
        ToolOutput::Failure("no route to host".to_string())
    );
    assert_eq!(
        s.respond(&HttpReply::Answer { status: 401, body: String::new() }),
        ToolOutput::Failure("JMAP request auth failed".to_string())
    );
    assert_eq!(s.respond(&ok("oops")), ToolOutput::Failure("error decoding response body".to_string()));
    assert_eq!(
        s.respond(&ok(r#"{"methodResponses": []}"#)),
        ToolOutput::Failure("empty JMAP response".to_string())
    );
    assert_eq!(
        s.respond(&ok(r#"{"methodResponses": [["error", {"type": "serverFail"}, "r0"]]}"#)),
        ToolOutput::Failure(r#"JMAP error: {"type":"serverFail"}"#.to_string())
    );
}

#[test]
fn fetch_of_no_ids_never_reaches_the_transport() {
    let s = server();
    let mut sent: Vec<HttpRequest> = Vec::new();
    let mut run = |params: GetEmailsParams| match s.get_emails(&params) {
        Ok(request) => {
            sent.push(request);
            Ok(())
        }
        Err(e) => Err(e),
    };
    assert_eq!(
        run(GetEmailsParams { ids: Vec::new() }),
        Err(ValidationError { message: "ids must not be empty".to_string() })
    );
    assert_eq!(run(GetEmailsParams { ids: vec!["m1".to_string()] }), Ok(()));
    assert_eq!(sent.len(), 1);
    assert_eq!(sent[0], client().get_emails(&["m1".to_string()]));
}
