use ghost::mcp::server::{
    content_length_header, frame_message, handle_message, message_transport, ndjson_line,
    peek_first_byte, read_body, request_of, tool_call_reply, HeaderLine, NdjsonLine, Outcome, Request,
    Transport, PROTOCOL_VERSION, SERVER_NAME,
};
use ghost::json::Json;
use serde_json::Value;
use std::io::{BufRead, BufReader, Cursor, Read};

const VERSION: &str = "0.3.1";
const DEFINITIONS: &str = "[{\"name\":\"ghost_click\"},{\"name\":\"ghost_type\"}]";

fn request(method: Option<&str>, id: Option<&str>) -> Request {
    Request {
        method: method.map(|s| s.to_string()),
        id: id.map(|s| s.to_string()),
        tool_name: None,
        tool_arguments: None,
    }
}

fn reply(outcome: Outcome) -> Value {
    match outcome {
        Outcome::Reply(t) => serde_json::from_str(&t).expect("reply is JSON"),
        other => panic!("expected a reply, got {:?}", other),
    }
}

/// Reads one newline-delimited message from `reader`, skipping blank lines.
fn read_ndjson(reader: &mut BufReader<Cursor<Vec<u8>>>) -> Option<Request> {
    let mut line = String::new();
    loop {
        line.clear();
        reader.read_line(&mut line).ok()?;
        match ndjson_line(&line) {
            NdjsonLine::End => return None,
            NdjsonLine::Blank => continue,
            NdjsonLine::Message(text) => return read_body(text.as_bytes()),
        }
    }
}

/// Reads one `Content-Length` framed message from `reader`.
fn read_content_length(reader: &mut BufReader<Cursor<Vec<u8>>>) -> Option<Request> {
    let mut content_length: Option<usize> = None;
    loop {
        let mut line = String::new();
        reader.read_line(&mut line).ok()?;
        match content_length_header(content_length, &line) {
            HeaderLine::End(n) => {
                content_length = n;
                break;
            }
            HeaderLine::Next(n) => content_length = n,
        }
    }
    let mut body = vec![0u8; content_length?];
    reader.read_exact(&mut body).ok()?;
    read_body(&body)
}

fn read_message(reader: &mut BufReader<Cursor<Vec<u8>>>, transport: &mut Transport) -> Option<Request> {
    let first = if *transport == Transport::Unknown {
        peek_first_byte(reader.fill_buf().ok()?)
    } else {
        None
    };
    *transport = message_transport(*transport, first)?;
    match transport {
        Transport::ContentLength => read_content_length(reader),
        _ => read_ndjson(reader),
    }
}

fn reader_of(input: &str) -> BufReader<Cursor<Vec<u8>>> {
    BufReader::new(Cursor::new(input.as_bytes().to_vec()))
}

#[test]
fn initialize_returns_protocol_and_server_info() {
    let resp = reply(handle_message(&request(Some("initialize"), Some("1")), VERSION, DEFINITIONS));
    assert_eq!(resp["id"], 1);
    assert_eq!(resp["result"]["protocolVersion"], PROTOCOL_VERSION);
    assert_eq!(resp["result"]["serverInfo"]["name"], SERVER_NAME);
    assert_eq!(resp["result"]["serverInfo"]["version"], VERSION);
    assert!(resp["result"]["instructions"].as_str().is_some());
}

#[test]
fn initialized_notification_has_no_reply() {
    let out = handle_message(&request(Some("notifications/initialized"), None), VERSION, DEFINITIONS);
    assert!(matches!(out, Outcome::Silent));
}

#[test]
fn tools_list_returns_all_definitions() {
    let resp = reply(handle_message(&request(Some("tools/list"), Some("2")), VERSION, DEFINITIONS));
    let tools = resp["result"]["tools"].as_array().expect("tools array");
    assert_eq!(tools.len(), 2);
}

#[test]
fn ping_returns_empty_result() {
    let resp = reply(handle_message(&request(Some("ping"), Some("9")), VERSION, DEFINITIONS));
    assert_eq!(resp["id"], 9);
    assert_eq!(resp["result"], Value::Object(serde_json::Map::new()));
}

#[test]
fn unknown_method_returns_method_not_found() {
    let resp = reply(handle_message(&request(Some("totally/bogus"), Some("3")), VERSION, DEFINITIONS));
    assert_eq!(resp["error"]["code"], -32601);
    assert!(resp["error"]["message"].as_str().unwrap().contains("totally/bogus"));
}

#[test]
fn message_without_method_is_ignored() {
    assert!(matches!(handle_message(&request(None, Some("5")), VERSION, DEFINITIONS), Outcome::Silent));
}

#[test]
fn tools_call_unknown_tool_wraps_error_result() {
    let msg = Request {
        method: Some("tools/call".to_string()),
        id: Some("4".to_string()),
        tool_name: Some("ghost_not_a_tool".to_string()),
        tool_arguments: Some("{}".to_string()),
    };
    let (id, name, arguments) = match handle_message(&msg, VERSION, DEFINITIONS) {
        Outcome::CallTool { id, name, arguments } => (id, name, arguments),
        other => panic!("expected a tool call, got {:?}", other),
    };
    assert_eq!(name, "ghost_not_a_tool");
    assert_eq!(arguments, "{}");
    let dispatched: Result<String, String> = Err(format!("Unknown tool: {}", name));
    let text = tool_call_reply(&id, &dispatched);
    let resp: Value = serde_json::from_str(&text).unwrap();
    assert_eq!(resp["result"]["isError"], true);
    let text = resp["result"]["content"][0]["text"].as_str().unwrap();
    assert!(text.contains("Unknown tool"), "got: {text}");
}

#[test]
fn tools_call_without_id_is_dropped() {
    let msg = Request {
        method: Some("tools/call".to_string()),
        id: None,
        tool_name: Some("ghost_not_a_tool".to_string()),
        tool_arguments: Some("{}".to_string()),
    };
    assert!(matches!(handle_message(&msg, VERSION, DEFINITIONS), Outcome::Silent));
}

#[test]
fn tools_call_defaults_name_and_arguments() {
    let msg = request(Some("tools/call"), Some("\"abc\""));
    match handle_message(&msg, VERSION, DEFINITIONS) {
        Outcome::CallTool { id, name, arguments } => {
            assert_eq!(id, "\"abc\"");
            assert_eq!(name, "");
            assert_eq!(arguments, "{}");
        }
        other => panic!("expected a tool call, got {:?}", other),
    }
}

#[test]
fn tool_output_is_a_text_item() {
    let text = tool_call_reply("7", &Ok("{\"clicked\":true}".to_string()));
    assert_eq!(
        text,
        "{\"id\":7,\"jsonrpc\":\"2.0\",\"result\":{\"content\":[{\"text\":\"{\\\"clicked\\\":true}\",\"type\":\"text\"}]}}"
    );
}

#[test]
fn read_ndjson_parses_a_line_skipping_blanks() {
    let input = "\n\n{\"jsonrpc\":\"2.0\",\"id\":7,\"method\":\"ping\"}\n";
    let v = read_ndjson(&mut reader_of(input)).expect("parsed");
    assert_eq!(v.id.as_deref(), Some("7"));
    assert_eq!(v.method.as_deref(), Some("ping"));
}

#[test]
fn read_ndjson_eof_returns_none() {
    assert!(read_ndjson(&mut reader_of("")).is_none());
}

#[test]
fn read_content_length_reads_exact_body() {
    let body = r#"{"jsonrpc":"2.0","id":1,"method":"ping"}"#;
    let framed = format!("Content-Length: {}\r\n\r\n{}", body.len(), body);
    let v = read_content_length(&mut reader_of(&framed)).expect("parsed");
    assert_eq!(v.method.as_deref(), Some("ping"));
}

#[test]
fn read_message_detects_content_length_from_leading_c() {
    let body = r#"{"id":1,"method":"ping"}"#;
    let framed = format!("Content-Length: {}\r\n\r\n{}", body.len(), body);
    let mut transport = Transport::Unknown;
    let v = read_message(&mut reader_of(&framed), &mut transport).expect("parsed");
    assert_eq!(transport, Transport::ContentLength);
    assert_eq!(v.method.as_deref(), Some("ping"));
}

#[test]
fn read_message_detects_ndjson_from_leading_brace() {
    let line = "{\"id\":2,\"method\":\"ping\"}\n";
    let mut transport = Transport::Unknown;
    let v = read_message(&mut reader_of(line), &mut transport).expect("parsed");
    assert_eq!(transport, Transport::NdJson);
    assert_eq!(v.id.as_deref(), Some("2"));
}

#[test]
fn write_message_content_length_framing() {
    let out = frame_message(b"{\"ok\":true}", Transport::ContentLength);
    let s = String::from_utf8(out).unwrap();
    assert!(s.starts_with("Content-Length: "));
    assert!(s.contains("\r\n\r\n"));
    assert!(s.trim_end().ends_with("{\"ok\":true}"));
    assert_eq!(s, "Content-Length: 11\r\n\r\n{\"ok\":true}");
}

#[test]
fn write_message_ndjson_appends_newline() {
    let out = frame_message(b"{\"ok\":true}", Transport::NdJson);
    let s = String::from_utf8(out).unwrap();
    assert_eq!(s, "{\"ok\":true}\n");
}

#[test]
fn header_lines_set_and_forget_the_length() {
    assert_eq!(content_length_header(None, "Content-Length: 42\r\n"), HeaderLine::Next(Some(42)));
    assert_eq!(content_length_header(None, "Content-Length:  +7 \n"), HeaderLine::Next(Some(7)));
    assert_eq!(content_length_header(Some(3), "Content-Type: x\r\n"), HeaderLine::Next(Some(3)));
    assert_eq!(content_length_header(Some(3), "Content-Length: abc\r\n"), HeaderLine::Next(None));
    assert_eq!(
        content_length_header(Some(3), "Content-Length: 99999999999999999999999\r\n"),
        HeaderLine::Next(None)
    );
    assert_eq!(content_length_header(Some(3), "\r\n"), HeaderLine::End(Some(3)));
    assert_eq!(content_length_header(None, ""), HeaderLine::End(None));
}

#[test]
fn transport_is_detected_once() {
    assert_eq!(message_transport(Transport::Unknown, None), None);
    assert_eq!(message_transport(Transport::Unknown, Some(b'C')), Some(Transport::ContentLength));
    assert_eq!(message_transport(Transport::Unknown, Some(b'{')), Some(Transport::NdJson));
    assert_eq!(message_transport(Transport::NdJson, Some(b'C')), Some(Transport::NdJson));
    assert_eq!(message_transport(Transport::ContentLength, None), Some(Transport::ContentLength));
}

#[test]
fn framed_messages_read_back() {
    let body = "{\"jsonrpc\":\"2.0\",\"id\":12,\"method\":\"ping\",\"note\":\"héllo\"}";
    let framed = String::from_utf8(frame_message(body.as_bytes(), Transport::ContentLength)).unwrap();
    let v = read_content_length(&mut reader_of(&framed)).expect("content-length read back");
    assert_eq!(v.id.as_deref(), Some("12"));
    assert_eq!(v.method.as_deref(), Some("ping"));
    let line = String::from_utf8(frame_message(body.as_bytes(), Transport::NdJson)).unwrap();
    let v = read_ndjson(&mut reader_of(&line)).expect("ndjson read back");
    assert_eq!(v.method.as_deref(), Some("ping"));
}

#[test]
fn every_request_with_an_id_is_answered_once() {
    for method in ["initialize", "tools/list", "ping", "resources/list", "notifications/initialized"] {
        let out = handle_message(&request(Some(method), Some("5")), VERSION, DEFINITIONS);
        match out {
            Outcome::Reply(text) => {
                assert_ne!(method, "notifications/initialized");
                let v: Value = serde_json::from_str(&text).unwrap();
                assert_eq!(v["jsonrpc"], "2.0");
                assert_eq!(v["id"], 5);
                assert_eq!(v.get("error").is_some(), method == "resources/list");
            }
            Outcome::Silent => assert_eq!(method, "notifications/initialized"),
            Outcome::CallTool { .. } => panic!("no tool call for {method}"),
        }
    }
    assert!(matches!(
        handle_message(&request(Some("tools/call"), Some("5")), VERSION, DEFINITIONS),
        Outcome::CallTool { .. }
    ));
}

#[test]
fn a_content_length_frame_splits_into_header_body_and_rest() {
    let body = b"{\"id\":1}";
    let mut stream = frame_message(body, Transport::ContentLength);
    let header_len = stream.len() - body.len();
    stream.extend_from_slice(b"Content-Length: 2\r\n\r\n{}");
    assert_eq!(&stream[..header_len], b"Content-Length: 8\r\n\r\n");
    assert_eq!(&stream[header_len..header_len + body.len()], body);
    assert_eq!(&stream[header_len + body.len()..], b"Content-Length: 2\r\n\r\n{}");
}

#[test]
fn an_ndjson_frame_is_the_first_line() {
    let body = b"{\"id\":1}";
    let mut stream = frame_message(body, Transport::NdJson);
    stream.extend_from_slice(b"{\"id\":2}\n");
    let first_newline = stream.iter().position(|&b| b == b'\n').unwrap();
    assert_eq!(&stream[..first_newline], body);
    assert_eq!(&stream[first_newline + 1..], b"{\"id\":2}\n");
}

#[test]
fn read_body_picks_the_routed_fields() {
    let body = br#"{"jsonrpc":"2.0","id":{"b":[1,2.5,null],"a":"x\ny"},"method":"tools/call","params":{"name":"ghost_click","arguments":{"z":true,"app":"Safari"}}}"#;
    let r = read_body(body).expect("parsed");
    assert_eq!(r.method.as_deref(), Some("tools/call"));
    assert_eq!(r.id.as_deref(), Some("{\"a\":\"x\\ny\",\"b\":[1,2.5,null]}"));
    assert_eq!(r.tool_name.as_deref(), Some("ghost_click"));
    assert_eq!(r.tool_arguments.as_deref(), Some("{\"app\":\"Safari\",\"z\":true}"));
    let v: Value = serde_json::from_slice(body).unwrap();
    assert_eq!(r.id.as_deref(), Some(v["id"].to_string().as_str()));
    assert_eq!(r.tool_arguments.as_deref(), Some(v["params"]["arguments"].to_string().as_str()));
}

#[test]
fn read_body_without_an_object_or_with_odd_fields() {
    assert!(read_body(b"{not json").is_none());
    assert!(read_body(b"").is_none());
    let r = read_body(b"[1,2]").expect("parsed");
    assert_eq!((r.method, r.id, r.tool_name, r.tool_arguments), (None, None, None, None));
    let r = read_body(br#"{"method":5,"id":null,"params":[1]}"#).expect("parsed");
    assert_eq!(r.method, None);
    assert_eq!(r.id.as_deref(), Some("null"));
    assert_eq!((r.tool_name, r.tool_arguments), (None, None));
    let r = read_body(br#"{"method":"tools/call","id":-3,"params":{"name":7}}"#).expect("parsed");
    assert_eq!(r.id.as_deref(), Some("-3"));
    assert_eq!((r.tool_name, r.tool_arguments), (None, None));
}

#[test]
fn request_of_a_built_value() {
    let msg = Json::Object(vec![
        ("id".to_string(), Json::Number("9".to_string())),
        ("method".to_string(), Json::Str("ping".to_string())),
    ]);
    let r = request_of(&msg);
    assert_eq!(r.id.as_deref(), Some("9"));
    assert_eq!(r.method.as_deref(), Some("ping"));
    assert_eq!(r.tool_name, None);
}

#[test]
fn back_to_back_frames_are_read_one_per_call() {
    let mut input = frame_message(br#"{"id":1,"method":"ping"}"#, Transport::ContentLength);
    input.extend(frame_message(br#"{"id":2,"method":"tools/list"}"#, Transport::ContentLength));
    let mut reader = BufReader::new(Cursor::new(input));
    let mut transport = Transport::Unknown;
    let first = read_message(&mut reader, &mut transport).expect("first");
    let second = read_message(&mut reader, &mut transport).expect("second");
    assert_eq!(first.id.as_deref(), Some("1"));
    assert_eq!(second.method.as_deref(), Some("tools/list"));
    assert!(read_message(&mut reader, &mut transport).is_none());
}
