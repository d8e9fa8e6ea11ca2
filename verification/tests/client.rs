use mcp_server_stalwart::batch::MethodCall;
use mcp_server_stalwart::http::{HttpMethod, HttpReply, HttpRequest};
use mcp_server_stalwart::jmap::JmapClient;
use mcp_server_stalwart::values::{same_text, strings, text_of};
use serde_json::Value;

fn tree(text: &str) -> Value {
    serde_json::from_str(text).unwrap()
}

fn client() -> JmapClient {
    let body = r#"{
        "apiUrl": "https://mail.example.org/jmap/",
        "accounts": {"a1": {"name": "alice"}},
        "primaryAccounts": {"urn:ietf:params:jmap:mail": "a1"}
    }"#;
    let reply = HttpReply::Answer { status: 200, body: body.to_string() };
    JmapClient::connect(&reply, "alice", "secret").unwrap()
}

fn body_of(request: &HttpRequest) -> Value {
    assert_eq!(request.method, HttpMethod::Post);
    assert_eq!(request.url, "https://mail.example.org/jmap/");
    assert_eq!(request.username, "alice");
    assert_eq!(request.password, "secret");
    serde_json::from_str(&request.body).unwrap()
}

fn single(method: &str, args: &str) -> Value {
    let using = r#"["urn:ietf:params:jmap:core", "urn:ietf:params:jmap:mail", "urn:ietf:params:jmap:submission"]"#;
    tree(&format!(r#"{{"using": {using}, "methodCalls": [["{method}", {args}, "r0"]]}}"#))
}

#[test]
fn get_mailboxes_request_text_is_compact_json() {
    let request = client().get_mailboxes();
    assert_eq!(
        request.body,
        concat_parts(&[
            r#"{"methodCalls":[["Mailbox/get",{"accountId":"a1","properties":"#,
            r#"["id","name","parentId","role","totalEmails","unreadEmails"]},"r0"]],"#,
            r#""using":["urn:ietf:params:jmap:core","urn:ietf:params:jmap:mail","#,
            r#""urn:ietf:params:jmap:submission"]}"#,
        ])
    );
}

fn concat_parts(parts: &[&str]) -> String {
    let mut out = String::new();
    for part in parts {
        out.push_str(part);
    }
    out
}

#[test]
fn get_mailboxes_asks_for_the_mailbox_properties() {
    let request = client().get_mailboxes();
    assert_eq!(
        body_of(&request),
        single(
            "Mailbox/get",
            r#"{"accountId": "a1",
                "properties": ["id", "name", "parentId", "role", "totalEmails", "unreadEmails"]}"#
        )
    );
}

#[test]
fn search_emails_defaults_to_newest_first() {
    let request = client().search_emails(tree(r#"{"from": "bob"}"#), None, 0, 10);
    assert_eq!(
        body_of(&request),
        single(
            "Email/query",
            r#"{"accountId": "a1",
                "filter": {"from": "bob"},
                "sort": [{"property": "receivedAt", "isAscending": false}],
                "position": 0,
                "limit": 10}"#
        )
    );
}

#[test]
fn search_emails_passes_sort_position_and_limit_through() {
    let sort = tree(r#"[{"property": "size", "isAscending": true}]"#);
    let request = client().search_emails(tree("{}"), Some(sort), 4_000_000_000, u32::MAX);
    assert_eq!(
        body_of(&request),
        single(
            "Email/query",
            r#"{"accountId": "a1",
                "filter": {},
                "sort": [{"property": "size", "isAscending": true}],
                "position": 4000000000,
                "limit": 4294967295}"#
        )
    );
}

#[test]
fn get_emails_asks_for_the_fixed_properties_with_capped_bodies() {
    let ids = vec!["m1".to_string(), "m2".to_string()];
    let request = client().get_emails(&ids);
    assert_eq!(
        body_of(&request),
        single(
            "Email/get",
            r##"{"accountId": "a1",
                "#ids": {"resultOf": null, "name": null, "path": null},
                "ids": ["m1", "m2"],
                "properties": ["id", "threadId", "mailboxIds", "from", "to", "cc", "bcc",
                    "subject", "receivedAt", "sentAt", "size", "keywords", "preview",
                    "textBody", "htmlBody", "bodyValues"],
                "fetchTextBodyValues": true,
                "fetchHTMLBodyValues": true,
                "maxBodyValueBytes": 65536}"##
        )
    );
}

#[test]
fn get_emails_of_no_ids_still_builds_a_request() {
    let request = client().get_emails(&[]);
    let body = body_of(&request);
    assert_eq!(body["methodCalls"][0][1]["ids"], tree("[]"));
}

#[test]
fn call_wraps_one_method_call() {
    let request = client().call("Thread/get", tree(r#"{"ids": ["t1"]}"#));
    assert_eq!(body_of(&request), single("Thread/get", r#"{"ids": ["t1"]}"#));
}

#[test]
fn call_multi_keeps_the_callers_identifiers() {
    let calls = vec![
        MethodCall { method: "A/get".to_string(), args: tree("{}"), id: "x".to_string() },
        MethodCall { method: "B/get".to_string(), args: tree("[]"), id: "y".to_string() },
    ];
    let request = client().call_multi(&calls);
    let body = body_of(&request);
    assert_eq!(body["methodCalls"], tree(r#"[["A/get", {}, "x"], ["B/get", [], "y"]]"#));
}

#[test]
fn strings_become_a_json_array() {
    let items = vec!["a".to_string(), "".to_string(), "\"q\"".to_string()];
    assert_eq!(strings(&items), tree(r#"["a", "", "\"q\""]"#));
    assert_eq!(strings(&[]), tree("[]"));
}

#[test]
fn text_of_reads_string_members_only() {
    let v = tree(r#"{"id": "m1", "size": 3, "name": null}"#);
    assert_eq!(text_of(&v, "id"), Some("m1".to_string()));
    assert_eq!(text_of(&v, "size"), None);
    assert_eq!(text_of(&v, "name"), None);
    assert_eq!(text_of(&v, "missing"), None);
    assert_eq!(text_of(&tree(r#"["id"]"#), "id"), None);
    assert_eq!(text_of(&tree(r#""id""#), "id"), None);
}

#[test]
fn same_text_compares_whole_texts() {
    assert!(same_text("drafts", "drafts"));
    assert!(same_text("", ""));
    assert!(!same_text("drafts", "Drafts"));
    assert!(!same_text("drafts", "draft"));
    assert!(!same_text("", " "));
}

#[test]
fn request_text_escapes_what_json_must_escape() {
    let request = client().call("Echo", Value::String("a \"quoted\" line\n\ttab \\ é ✓".to_string()));
    assert!(request.body.contains(r#"["Echo","a \"quoted\" line\n\ttab \\ é ✓","r0"]"#));
    let body: Value = serde_json::from_str(&request.body).unwrap();
    assert_eq!(body["methodCalls"][0][1], "a \"quoted\" line\n\ttab \\ é ✓");
}

#[test]
fn account_and_user_are_those_of_the_session() {
    let c = client();
    assert_eq!(c.account_id(), "a1");
    assert_eq!(c.username(), "alice");
}
