use mcp_server_stalwart::error::ConnectError;
use mcp_server_stalwart::http::{HttpMethod, HttpReply, HttpRequest};
use mcp_server_stalwart::jmap::JmapClient;
use serde_json::Value;

fn answer(body: &str) -> HttpReply {
    HttpReply::Answer { status: 200, body: body.to_string() }
}

const SESSION: &str = r#"{
    "capabilities": {"urn:ietf:params:jmap:core": {}},
    "apiUrl": "https://mail.example.org/jmap/",
    "accounts": {
        "a1": {"name": "alice@example.org", "isPersonal": true},
        "a2": {"name": "shared"}
    },
    "primaryAccounts": {
        "urn:ietf:params:jmap:mail": "a1",
        "urn:ietf:params:jmap:submission": "a2"
    },
    "username": "alice"
}"#;

#[test]
fn session_request_is_an_authenticated_get() {
    let request = JmapClient::session_request("https://mail.example.org/.well-known/jmap", "alice", "secret");
    assert_eq!(
        request,
        HttpRequest {
            method: HttpMethod::Get,
            url: "https://mail.example.org/.well-known/jmap".to_string(),
            username: "alice".to_string(),
            password: "secret".to_string(),
            body: String::new(),
        }
    );
}

#[test]
fn connect_binds_the_primary_mail_account() {
    let client = JmapClient::connect(&answer(SESSION), "alice", "secret").unwrap();
    assert_eq!(client.account_id(), "a1");
    assert_eq!(client.username(), "alice");
    let request = client.get_mailboxes();
    assert_eq!(request.method, HttpMethod::Post);
    assert_eq!(request.url, "https://mail.example.org/jmap/");
    assert_eq!(request.username, "alice");
    assert_eq!(request.password, "secret");
}

#[test]
fn connect_fails_without_primary_mail_account() {
    let body = r#"{
        "apiUrl": "https://mail.example.org/jmap/",
        "accounts": {"a1": {"name": "alice"}},
        "primaryAccounts": {"urn:ietf:params:jmap:contacts": "a1"}
    }"#;
    let r = JmapClient::connect(&answer(body), "alice", "secret");
    assert_eq!(r, Err(ConnectError::NoMailAccount));
    assert_eq!(r.unwrap_err().message(), "no primary mail account found");
}

#[test]
fn connect_fails_with_empty_primary_accounts() {
    let body = r#"{"apiUrl": "u", "accounts": {}, "primaryAccounts": {}}"#;
    assert_eq!(
        JmapClient::connect(&answer(body), "alice", "secret"),
        Err(ConnectError::NoMailAccount)
    );
}

#[test]
fn connect_fails_when_primary_account_is_unknown() {
    let body = r#"{
        "apiUrl": "https://mail.example.org/jmap/",
        "accounts": {"a1": {"name": "alice"}},
        "primaryAccounts": {"urn:ietf:params:jmap:mail": "zz"}
    }"#;
    let r = JmapClient::connect(&answer(body), "alice", "secret");
    assert_eq!(r, Err(ConnectError::AccountConsistency("zz".to_string())));
    assert_eq!(r.unwrap_err().message(), "account zz not in session");
}

#[test]
fn connect_reports_transport_failure() {
    let reply = HttpReply::Failed("connection refused".to_string());
    let r = JmapClient::connect(&reply, "alice", "secret");
    assert_eq!(r, Err(ConnectError::Transport("connection refused".to_string())));
    assert_eq!(r.unwrap_err().message(), "failed to fetch JMAP session");
}

#[test]
fn connect_reports_rejected_credentials() {
    let reply = HttpReply::Answer { status: 401, body: SESSION.to_string() };
    let r = JmapClient::connect(&reply, "alice", "wrong");
    assert_eq!(r, Err(ConnectError::Auth(401)));
    assert_eq!(r.unwrap_err().message(), "JMAP session auth failed");
}

#[test]
fn connect_treats_every_error_status_alike() {
    for status in [400u16, 403, 404, 500, 503, 599] {
        let reply = HttpReply::Answer { status, body: SESSION.to_string() };
        assert_eq!(JmapClient::connect(&reply, "alice", "secret"), Err(ConnectError::Auth(status)));
    }
    for status in [200u16, 204, 302, 399, 600] {
        let reply = HttpReply::Answer { status, body: SESSION.to_string() };
        assert!(JmapClient::connect(&reply, "alice", "secret").is_ok());
    }
}

#[test]
fn connect_rejects_text_that_is_not_json() {
    let r = JmapClient::connect(&answer("<html>login</html>"), "alice", "secret");
    assert_eq!(r, Err(ConnectError::Decode));
    assert_eq!(r.unwrap_err().message(), "failed to parse JMAP session");
}

#[test]
fn connect_rejects_sessions_of_the_wrong_shape() {
    let bodies = [
        r#"{}"#,
        r#"[]"#,
        r#""apiUrl""#,
        // no endpoint
        r#"{"accounts": {"a1": {"name": "n"}}, "primaryAccounts": {"urn:ietf:params:jmap:mail": "a1"}}"#,
        // endpoint is not a string
        r#"{"apiUrl": 7, "accounts": {"a1": {"name": "n"}}, "primaryAccounts": {"urn:ietf:params:jmap:mail": "a1"}}"#,
        // no accounts
        r#"{"apiUrl": "u", "primaryAccounts": {"urn:ietf:params:jmap:mail": "a1"}}"#,
        // accounts is not an object
        r#"{"apiUrl": "u", "accounts": ["a1"], "primaryAccounts": {"urn:ietf:params:jmap:mail": "a1"}}"#,
        // an account without a name
        r#"{"apiUrl": "u", "accounts": {"a1": {"name": "n"}, "a2": {}}, "primaryAccounts": {"urn:ietf:params:jmap:mail": "a1"}}"#,
        // an account whose name is not a string
        r#"{"apiUrl": "u", "accounts": {"a1": {"name": null}}, "primaryAccounts": {"urn:ietf:params:jmap:mail": "a1"}}"#,
        // an account that is not an object
        r#"{"apiUrl": "u", "accounts": {"a1": "n"}, "primaryAccounts": {"urn:ietf:params:jmap:mail": "a1"}}"#,
        // no primary accounts
        r#"{"apiUrl": "u", "accounts": {"a1": {"name": "n"}}}"#,
        // primary accounts is not an object
        r#"{"apiUrl": "u", "accounts": {"a1": {"name": "n"}}, "primaryAccounts": "a1"}"#,
        // a primary account that is not a string
        r#"{"apiUrl": "u", "accounts": {"a1": {"name": "n"}}, "primaryAccounts": {"urn:ietf:params:jmap:mail": "a1", "x": 1}}"#,
        // the primary mail account is not a string
        r#"{"apiUrl": "u", "accounts": {"a1": {"name": "n"}}, "primaryAccounts": {"urn:ietf:params:jmap:mail": null}}"#,
    ];
    for body in bodies {
        assert_eq!(
            JmapClient::connect(&answer(body), "alice", "secret"),
            Err(ConnectError::Decode),
            "{body}"
        );
    }
}

#[test]
fn from_session_works_on_a_decoded_value() {
    let session: Value = serde_json::from_str(SESSION).unwrap();
    let client = JmapClient::from_session(&session, "bob", "pw").unwrap();
    assert_eq!(client.account_id(), "a1");
    assert_eq!(client.username(), "bob");
    assert_eq!(client.clone(), client);
}
