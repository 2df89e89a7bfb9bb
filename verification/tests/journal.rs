use ghost::tools::journal::{
    journal_answer, journal_batch, journal_reply, shadow_accepted, shadow_api_token, shadow_ingest_request, shadow_response_payload,
    shadow_token_files, status_line, wall_micros, JournalError, TokenBase,
};
use ghost::tools::{ParamValue, Params};
use serde_json::Value;

fn params(members: Vec<(&str, ParamValue)>) -> Params {
    Params { entries: members.into_iter().map(|(k, v)| (k.to_string(), v)).collect() }
}

#[test]
fn wall_micros_is_a_positive_unix_timestamp() {
    // Well past 2020 in microseconds — proves we read the wall clock, not 0.
    assert!(wall_micros() > 1_600_000_000_000_000);
}

#[test]
fn shadow_api_token_env_resolution() {
    let good = shadow_api_token(Some("  secret-token  "), &vec![]);
    assert_eq!(good.as_deref(), Some("secret-token"), "env token wins, trimmed");

    // A whitespace-only env token must not be accepted as the bearer.
    let blank = shadow_api_token(Some("   "), &vec![]);
    assert_ne!(blank.as_deref(), Some(""));
    assert_ne!(blank.as_deref(), Some("   "));
}

#[test]
fn token_files_are_tried_in_order() {
    let blank = shadow_api_token(Some(" "), &vec![None, Some("\n".to_string()), Some(" file-token\n".to_string()), Some("later".to_string())]);
    assert_eq!(blank.as_deref(), Some("file-token"));
    assert_eq!(shadow_api_token(None, &vec![None]), None);
    assert_eq!(shadow_api_token(Some("env"), &vec![Some("file".to_string())]).as_deref(), Some("env"));
}

#[test]
fn token_file_locations() {
    let files = shadow_token_files(Some(" /data/ryu "), true);
    assert_eq!(files.len(), 3);
    assert!(matches!(&files[0].base, TokenBase::Dir(d) if d == "/data/ryu"));
    assert_eq!(files[0].components, vec!["shadow", "api-token"]);
    assert!(matches!(files[1].base, TokenBase::Home));
    assert_eq!(files[1].components, vec![".ryu", "shadow", "api-token"]);
    assert_eq!(files[2].components, vec![".shadow", "api-token"]);
    assert_eq!(shadow_token_files(Some("  "), false).len(), 0);
    assert_eq!(shadow_token_files(None, true).len(), 2);
}

#[test]
fn marker_needs_a_title() {
    assert_eq!(journal_batch(&params(vec![]), 1).unwrap_err(), JournalError::TitleRequired);
    let blank = params(vec![("title", ParamValue::Str("  ".to_string()))]);
    assert_eq!(journal_batch(&blank, 1).unwrap_err(), JournalError::TitleRequired);
    assert_eq!(JournalError::TitleRequired.message(), "title required");
}

#[test]
fn marker_batch_fills_defaults() {
    let p = params(vec![
        ("title", ParamValue::Str("  Shipped  ".to_string())),
        ("category", ParamValue::Str(" ".to_string())),
        ("app", ParamValue::Int(3)),
    ]);
    let text = journal_batch(&p, 1_700_000_000_000_000).unwrap();
    assert_eq!(
        text,
        "{\"events\":[{\"app_name\":\"Ghost\",\"body\":\"\",\"category\":\"Milestone\",\"source\":\"ghost\",\"track\":12,\"ts\":1700000000000000,\"type\":\"journal_marker\",\"v\":2,\"window_title\":\"Shipped\"}]}"
    );
    let v: Value = serde_json::from_str(&text).unwrap();
    assert_eq!(v["events"][0]["window_title"], Value::from("Shipped"));
}

#[test]
fn ingest_request_carries_the_token() {
    assert_eq!(
        shadow_ingest_request(Some("tok"), "{}"),
        "POST /ingest HTTP/1.1\r\nHost: 127.0.0.1:3030\r\nAuthorization: Bearer tok\r\nContent-Type: application/json\r\nAccept: application/json\r\nContent-Length: 2\r\nConnection: close\r\n\r\n{}"
    );
    assert_eq!(
        shadow_ingest_request(None, "ab"),
        "POST /ingest HTTP/1.1\r\nHost: 127.0.0.1:3030\r\nContent-Type: application/json\r\nAccept: application/json\r\nContent-Length: 2\r\nConnection: close\r\n\r\nab"
    );
}

#[test]
fn response_payload_is_the_body() {
    assert_eq!(shadow_response_payload("HTTP/1.1 200 OK\r\nA: b\r\n\r\n {\"ok\":1} \n"), "{\"ok\":1}");
    assert_eq!(shadow_response_payload("HTTP/1.1 200 OK\r\n\r\nfirst\r\n\r\nsecond"), "first");
    assert_eq!(shadow_response_payload("  no headers  "), "no headers");
}

#[test]
fn marker_reply_is_json() {
    let t = journal_reply("{\"ok\":true}");
    let v: Value = serde_json::from_str(&t).unwrap();
    assert_eq!(v["ok"], Value::from(true));
    assert_eq!(v["shadow_response"], Value::from("{\"ok\":true}"));
    assert_eq!(
        v["suggestion"],
        Value::from("The marker is now available in Shadow's journal and desktop timeline.")
    );
}

#[test]
fn accepted_marker_gets_the_ok_reply() {
    let answer = journal_answer("HTTP/1.1 200 OK\r\nContent-Type: application/json\r\n\r\n{\"accepted\":1}").unwrap();
    let v: Value = serde_json::from_str(&answer).unwrap();
    assert_eq!(v["ok"], Value::from(true));
    assert_eq!(v["shadow_response"], Value::from("{\"accepted\":1}"));
}

#[test]
fn rejected_marker_is_an_error_carrying_the_body() {
    let err = journal_answer("HTTP/1.1 401 Unauthorized\r\n\r\n{\"error\":\"unauthorized\"}").unwrap_err();
    assert_eq!(
        err,
        JournalError::Rejected {
            status_line: "HTTP/1.1 401 Unauthorized".to_string(),
            body: "{\"error\":\"unauthorized\"}".to_string(),
        }
    );
    assert_eq!(
        err.message(),
        "Shadow rejected the marker (HTTP/1.1 401 Unauthorized): {\"error\":\"unauthorized\"}"
    );
}

#[test]
fn server_errors_are_rejections() {
    assert!(journal_answer("HTTP/1.1 500 Internal Server Error\r\n\r\noops").is_err());
    assert!(journal_answer("HTTP/1.1 garbled\r\n\r\n").is_err());
}

#[test]
fn an_answer_without_a_status_line_is_ok_with_its_payload() {
    let empty: Value = serde_json::from_str(&journal_answer("").unwrap()).unwrap();
    assert_eq!(empty["ok"], Value::from(true));
    assert_eq!(empty["shadow_response"], Value::from(""));
    let text: Value = serde_json::from_str(&journal_answer("  plain text  ").unwrap()).unwrap();
    assert_eq!(text["shadow_response"], Value::from("plain text"));
}

#[test]
fn status_checks() {
    assert!(shadow_accepted("HTTP/1.1 200 OK\r\n\r\n"));
    assert!(shadow_accepted("HTTP/1.1 204\r\n\r\n"));
    assert!(shadow_accepted("HTTP/1.0 201 Created"));
    assert!(!shadow_accepted("HTTP/1.1 301 Moved\r\n\r\n"));
    assert!(!shadow_accepted("HTTP/1.1 2000 OK\r\n"));
    assert!(!shadow_accepted("HTTP/1.1 2x0 OK\r\n"));
    assert!(!shadow_accepted("XTTP/1.1 200 OK\r\n"));
    assert!(!shadow_accepted("HTTP/1.1\r\nX: 200 OK"));
    assert_eq!(status_line("HTTP/1.1 404 Not Found\r\nA: b\r\n\r\n"), "HTTP/1.1 404 Not Found");
    assert_eq!(status_line("just text"), "just text");
}

#[test]
fn reply_escapes_the_payload_as_serde_json_does() {
    let payload = "q\"b\\s\u{8}\t\n\u{c}\r\u{1}\u{1f}é/";
    let t = journal_reply(payload);
    let expected_literal = "\"q\\\"b\\\\s\\b\\t\\n\\f\\r\\u0001\\u001fé/\"";
    assert_eq!(serde_json::to_string(payload).unwrap(), expected_literal);
    assert_eq!(
        t,
        format!(
            "{{\"ok\":true,\"shadow_response\":{},\"suggestion\":\"The marker is now available in Shadow's journal and desktop timeline.\"}}",
            expected_literal
        )
    );
}
