//! MCP JSON-RPC over stdio: message framing and request routing.
//!
//! Two framings are spoken, detected from the first byte a client sends: a
//! `Content-Length:` header block before each body (a leading `C`), or one JSON
//! document per line otherwise. Replies go out in the framing that was detected.
//!
//! Requests arrive here with the fields the router reads (the method, the id as
//! JSON text, the tool name and the tool arguments as JSON text); replies leave as
//! JSON text, keys in the order serde_json writes an object.

use vstd::prelude::*;
use vstd::utf8::encode_utf8;

use crate::json::{
    get_member, json_member, member, json_string_literal, json_text, json_text_of, parse_json, parsed_json,
    push_string_literal, Json, JsonView,
};
use crate::text::{
    decimal, opt_view, parse_usize, parse_usize_spec, push_decimal, starts_with,
    str_equals, strip_line_end, strip_line_end_str, trim, trim_str,
};

verus! {

/// The MCP protocol revision the server speaks.
pub const PROTOCOL_VERSION: &'static str = "2024-11-05";

/// The name the server reports.
pub const SERVER_NAME: &'static str = "ghost";

/// Guidance sent to clients when they initialize.
pub const INSTRUCTIONS: &'static str = "Ghost gives you eyes and hands on any desktop app. Call ghost_recipes first for multi-step tasks. Call ghost_context before acting on any app. Use ghost_find to locate elements. Always pass the app parameter to action tools. Use ghost_annotate for visual orientation (numbered labels on screenshot). Use ghost_ground when AX tree returns generic elements.";

// ---------------------------------------------------------------------------
// Framing
// ---------------------------------------------------------------------------

/// The framing of the stream.
#[derive(Debug, Clone, Copy, PartialEq, Eq, Structural)]
pub enum Transport {
    Unknown,
    ContentLength,
    NdJson,
}

/// The first byte of what is buffered, if anything is.
pub fn peek_first_byte(buf: &[u8]) -> (r: Option<u8>)
    ensures
        r == (if buf@.len() > 0 {
            Some(buf@[0])
        } else {
            None
        }),
{
    if buf.len() > 0 {
        Some(buf[0])
    } else {
        None
    }
}

/// The framing announced by the first byte of a stream.
pub open spec fn transport_of_first_byte(b: u8) -> Transport {
    if b == 67 {
        Transport::ContentLength
    } else {
        Transport::NdJson
    }
}

/// The framing in which the next message is read: once known it stays; while
/// unknown, the first buffered byte decides it, and with nothing buffered (end of
/// input) there is no next message.
pub open spec fn message_transport_spec(current: Transport, first: Option<u8>) -> Option<Transport> {
    match current {
        Transport::Unknown => match first {
            Some(b) => Some(transport_of_first_byte(b)),
            None => None,
        },
        _ => Some(current),
    }
}

/// Decides the framing of the next message (see [`message_transport_spec`]).
pub fn message_transport(current: Transport, first: Option<u8>) -> (r: Option<Transport>)
    ensures
        r == message_transport_spec(current, first),
{
    match current {
        Transport::Unknown => match first {
            Some(b) => {
                if b == 67u8 {
                    Some(Transport::ContentLength)
                } else {
                    Some(Transport::NdJson)
                }
            },
            None => None,
        },
        _ => Some(current),
    }
}

/// One header line of a `Content-Length` framed message, read: either the blank
/// line that ends the header block, or another header; each carries the body
/// length known so far.
#[derive(Debug, Clone, Copy, PartialEq, Eq, Structural)]
pub enum HeaderLine {
    End(Option<usize>),
    Next(Option<usize>),
}

/// The header prefix that announces the body length.
pub open spec fn content_length_key() -> Seq<char> {
    "Content-Length: "@
}

/// Reading one header line with the body length `acc` known so far: a line that is
/// empty once its line ends are stripped ends the block; a `Content-Length: ` line
/// sets the length to its (trimmed) value, or forgets it when that is no number;
/// other headers change nothing.
pub open spec fn header_line_spec(acc: Option<usize>, line: Seq<char>) -> HeaderLine {
    let l = strip_line_end(line);
    let k = content_length_key();
    if l.len() == 0 {
        HeaderLine::End(acc)
    } else if k.len() <= l.len() && l.take(k.len() as int) == k {
        HeaderLine::Next(parse_usize_spec(trim(l.skip(k.len() as int))))
    } else {
        HeaderLine::Next(acc)
    }
}

/// Reads one header line (see [`header_line_spec`]).
pub fn content_length_header(acc: Option<usize>, line: &str) -> (r: HeaderLine)
    ensures
        r == header_line_spec(acc, line@),
{
    let l = strip_line_end_str(line);
    if l.unicode_len() == 0 {
        return HeaderLine::End(acc);
    }
    if starts_with(l, "Content-Length: ") {
        let rest = l.substring_char("Content-Length: ".unicode_len(), l.unicode_len());
        HeaderLine::Next(parse_usize(trim_str(rest)))
    } else {
        HeaderLine::Next(acc)
    }
}

/// One line of a newline-delimited stream, read.
#[derive(Debug)]
pub enum NdjsonLine {
    /// Nothing was read: the input has ended.
    End,
    /// A line with nothing but white space, which is skipped.
    Blank,
    /// A line holding a message (its trimmed text).
    Message(String),
}

/// Reads one line of a newline-delimited stream; an empty read is the end of input.
pub fn ndjson_line(line: &str) -> (r: NdjsonLine)
    ensures
        r is End <==> line@.len() == 0,
        r is Blank <==> (line@.len() > 0 && trim(line@).len() == 0),
        r matches NdjsonLine::Message(m) ==> m@ == trim(line@),
{
    if line.unicode_len() == 0 {
        return NdjsonLine::End;
    }
    let t = trim_str(line);
    if t.unicode_len() == 0 {
        NdjsonLine::Blank
    } else {
        NdjsonLine::Message(t.to_owned())
    }
}

/// The header that announces a body of `n` bytes, blank line included.
pub open spec fn content_length_prefix(n: nat) -> Seq<char> {
    content_length_key() + decimal(n) + "\r\n\r\n"@
}

/// A message body as it goes out in the given framing: after its header block, or
/// followed by a newline.
pub open spec fn framed_spec(data: Seq<u8>, t: Transport) -> Seq<u8> {
    match t {
        Transport::ContentLength => encode_utf8(content_length_prefix(data.len())) + data,
        _ => data.push(10u8),
    }
}

/// Frames a message body for the given transport.
pub fn frame_message(data: &[u8], transport: Transport) -> (r: Vec<u8>)
    ensures
        r@ == framed_spec(data@, transport),
{
    match transport {
        Transport::ContentLength => {
            let mut header = "Content-Length: ".to_owned();
            push_decimal(&mut header, data.len() as u128);
            header.append("\r\n\r\n");
            let mut out = header.as_str().as_bytes_vec();
            crate::text::append_bytes(&mut out, data);
            out
        },
        _ => {
            let mut out: Vec<u8> = Vec::new();
            crate::text::append_bytes(&mut out, data);
            out.push(10u8);
            out
        },
    }
}

// ---------------------------------------------------------------------------
// Requests and replies
// ---------------------------------------------------------------------------

/// The fields of an incoming JSON-RPC message that routing reads: the method when
/// it is a string, the id as JSON text when present, and, from an object `params`,
/// the tool name when it is a string and the tool arguments as JSON text.
pub struct Request {
    pub method: Option<String>,
    pub id: Option<String>,
    pub tool_name: Option<String>,
    pub tool_arguments: Option<String>,
}

/// The mathematical content of a [`Request`].
pub struct RequestView {
    pub method: Option<Seq<char>>,
    pub id: Option<Seq<char>>,
    pub tool_name: Option<Seq<char>>,
    pub tool_arguments: Option<Seq<char>>,
}

impl View for Request {
    type V = RequestView;

    open spec fn view(&self) -> RequestView {
        RequestView {
            method: opt_view(self.method),
            id: opt_view(self.id),
            tool_name: opt_view(self.tool_name),
            tool_arguments: opt_view(self.tool_arguments),
        }
    }
}

/// A string member's text.
pub open spec fn as_string(o: Option<JsonView>) -> Option<Seq<char>> {
    match o {
        Some(JsonView::Str(t)) => Some(t),
        _ => None,
    }
}

/// A member's compact JSON text.
pub open spec fn as_text(o: Option<JsonView>) -> Option<Seq<char>> {
    match o {
        Some(v) => Some(json_text(v)),
        None => None,
    }
}

/// The fields routing reads from a parsed message: `method` when it is a string,
/// `id` as its JSON text when present, and, when `params` is an object, its `name`
/// when that is a string and its `arguments` as JSON text when present.
pub open spec fn request_spec(msg: JsonView) -> RequestView {
    let params = match get_member(msg, "params"@) {
        Some(JsonView::Object(members)) => Some(JsonView::Object(members)),
        _ => None,
    };
    RequestView {
        method: as_string(get_member(msg, "method"@)),
        id: as_text(get_member(msg, "id"@)),
        tool_name: match params {
            Some(p) => as_string(get_member(p, "name"@)),
            None => None,
        },
        tool_arguments: match params {
            Some(p) => as_text(get_member(p, "arguments"@)),
            None => None,
        },
    }
}

fn string_member(j: &Json, key: &str) -> (r: Option<String>)
    ensures
        opt_view(r) == as_string(get_member(j@, key@)),
{
    match json_member(j, key) {
        Some(Json::Str(t)) => Some(t.clone()),
        _ => None,
    }
}

fn text_member(j: &Json, key: &str) -> (r: Option<String>)
    ensures
        opt_view(r) == as_text(get_member(j@, key@)),
{
    match json_member(j, key) {
        Some(m) => Some(json_text_of(m)),
        None => None,
    }
}

/// The fields routing reads from a parsed message (see [`request_spec`]).
pub fn request_of(msg: &Json) -> (r: Request)
    ensures
        r@ == request_spec(msg@),
{
    let method = string_member(msg, "method");
    let id = text_member(msg, "id");
    let (tool_name, tool_arguments) = match json_member(msg, "params") {
        Some(p) => match p {
            Json::Object(_) => (string_member(p, "name"), text_member(p, "arguments")),
            _ => (None, None),
        },
        None => (None, None),
    };
    Request { method, id, tool_name, tool_arguments }
}

/// An optional request, viewed.
pub open spec fn opt_request_view(o: Option<Request>) -> Option<RequestView> {
    match o {
        Some(q) => Some(q@),
        None => None,
    }
}

/// The request in a message body: what routing reads from the JSON that serde_json
/// parses from the body, or `None` where the body is not one JSON document.
pub fn read_body(body: &[u8]) -> (r: Option<Request>)
    ensures
        opt_request_view(r) == (match parsed_json(body@) {
            Some(v) => Some(request_spec(v)),
            None => None,
        }),
{
    match parse_json(body) {
        Some(msg) => Some(request_of(&msg)),
        None => None,
    }
}

/// What the server does with a message.
#[derive(Debug)]
pub enum Outcome {
    /// Nothing is sent back.
    Silent,
    /// This JSON text is sent back.
    Reply(String),
    /// The named tool is run with these arguments (JSON text); its result is
    /// answered to the request with this id (JSON text).
    CallTool { id: String, name: String, arguments: String },
}

/// The mathematical content of an [`Outcome`].
pub enum OutcomeView {
    Silent,
    Reply(Seq<char>),
    CallTool { id: Seq<char>, name: Seq<char>, arguments: Seq<char> },
}

impl View for Outcome {
    type V = OutcomeView;

    open spec fn view(&self) -> OutcomeView {
        match self {
            Outcome::Silent => OutcomeView::Silent,
            Outcome::Reply(t) => OutcomeView::Reply(t@),
            Outcome::CallTool { id, name, arguments } => OutcomeView::CallTool {
                id: id@,
                name: name@,
                arguments: arguments@,
            },
        }
    }
}

/// A successful reply to the request with id `id`.
pub open spec fn reply_envelope_spec(id: Seq<char>, result: Seq<char>) -> Seq<char> {
    "{\"id\":"@ + id + ",\"jsonrpc\":\"2.0\",\"result\":"@ + result + "}"@
}

/// The result of `initialize`.
pub open spec fn initialize_result_spec(version: Seq<char>) -> Seq<char> {
    "{\"capabilities\":{\"tools\":{}},\"instructions\":"@ + json_string_literal(INSTRUCTIONS@)
        + ",\"protocolVersion\":"@ + json_string_literal(PROTOCOL_VERSION@)
        + ",\"serverInfo\":{\"name\":"@ + json_string_literal(SERVER_NAME@) + ",\"version\":"@
        + json_string_literal(version) + "}}"@
}

/// The result of `tools/list`, around the tool definitions (JSON text).
pub open spec fn tools_list_result_spec(definitions: Seq<char>) -> Seq<char> {
    "{\"tools\":"@ + definitions + "}"@
}

/// The error reply to the request with id `id` for an unknown method.
pub open spec fn method_not_found_spec(id: Seq<char>, method: Seq<char>) -> Seq<char> {
    "{\"error\":{\"code\":-32601,\"message\":"@ + json_string_literal("Method not found: "@ + method)
        + "},\"id\":"@ + id + ",\"jsonrpc\":\"2.0\"}"@
}

/// How a message is handled. Without a method, or without an id (a notification),
/// nothing is answered. `initialize`, `tools/list` and `ping` are answered here;
/// `tools/call` runs a tool (named by `params.name`, default empty, with
/// `params.arguments`, default `{}`); any other method is answered with error
/// -32601.
pub open spec fn handle_message_spec(
    msg: RequestView,
    version: Seq<char>,
    definitions: Seq<char>,
) -> OutcomeView {
    match (msg.method, msg.id) {
        (Some(m), Some(id)) => if m == "initialize"@ {
            OutcomeView::Reply(reply_envelope_spec(id, initialize_result_spec(version)))
        } else if m == "notifications/initialized"@ {
            OutcomeView::Silent
        } else if m == "tools/list"@ {
            OutcomeView::Reply(reply_envelope_spec(id, tools_list_result_spec(definitions)))
        } else if m == "tools/call"@ {
            OutcomeView::CallTool {
                id,
                name: match msg.tool_name {
                    Some(n) => n,
                    None => Seq::empty(),
                },
                arguments: match msg.tool_arguments {
                    Some(a) => a,
                    None => "{}"@,
                },
            }
        } else if m == "ping"@ {
            OutcomeView::Reply(reply_envelope_spec(id, "{}"@))
        } else {
            OutcomeView::Reply(method_not_found_spec(id, m))
        },
        _ => OutcomeView::Silent,
    }
}

fn reply_envelope(id: &str, result: &str) -> (r: String)
    ensures
        r@ == reply_envelope_spec(id@, result@),
{
    let mut out = "{\"id\":".to_owned();
    out.append(id);
    out.append(",\"jsonrpc\":\"2.0\",\"result\":");
    out.append(result);
    out.append("}");
    out
}

fn initialize_result(version: &str) -> (r: String)
    ensures
        r@ == initialize_result_spec(version@),
{
    let mut out = "{\"capabilities\":{\"tools\":{}},\"instructions\":".to_owned();
    push_string_literal(&mut out, INSTRUCTIONS);
    out.append(",\"protocolVersion\":");
    push_string_literal(&mut out, PROTOCOL_VERSION);
    out.append(",\"serverInfo\":{\"name\":");
    push_string_literal(&mut out, SERVER_NAME);
    out.append(",\"version\":");
    push_string_literal(&mut out, version);
    out.append("}}");
    out
}

fn method_not_found(id: &str, method: &str) -> (r: String)
    ensures
        r@ == method_not_found_spec(id@, method@),
{
    let mut message = "Method not found: ".to_owned();
    message.append(method);
    let mut out = "{\"error\":{\"code\":-32601,\"message\":".to_owned();
    push_string_literal(&mut out, message.as_str());
    out.append("},\"id\":");
    out.append(id);
    out.append(",\"jsonrpc\":\"2.0\"}");
    out
}

/// Handles one message (see [`handle_message_spec`]). `server_version` is the
/// version the server reports; `tool_definitions` is the JSON text of the tool list.
pub fn handle_message(msg: &Request, server_version: &str, tool_definitions: &str) -> (r: Outcome)
    ensures
        r@ == handle_message_spec(msg@, server_version@, tool_definitions@),
{
    let method = match &msg.method {
        Some(m) => m.as_str(),
        None => {
            return Outcome::Silent;
        },
    };
    let id = match &msg.id {
        Some(i) => i.as_str(),
        None => {
            return Outcome::Silent;
        },
    };
    if str_equals(method, "initialize") {
        let res = initialize_result(server_version);
        Outcome::Reply(reply_envelope(id, res.as_str()))
    } else if str_equals(method, "notifications/initialized") {
        Outcome::Silent
    } else if str_equals(method, "tools/list") {
        let mut result = "{\"tools\":".to_owned();
        result.append(tool_definitions);
        result.append("}");
        Outcome::Reply(reply_envelope(id, result.as_str()))
    } else if str_equals(method, "tools/call") {
        let name = match &msg.tool_name {
            Some(n) => n.clone(),
            None => String::new(),
        };
        let arguments = match &msg.tool_arguments {
            Some(a) => a.clone(),
            None => "{}".to_owned(),
        };
        Outcome::CallTool { id: id.to_owned(), name, arguments }
    } else if str_equals(method, "ping") {
        Outcome::Reply(reply_envelope(id, "{}"))
    } else {
        Outcome::Reply(method_not_found(id, method))
    }
}

/// The reply to a `tools/call` request with id `id`, given what the tool
/// returned: its output (JSON text) as a text content item, or its error message,
/// prefixed with `Error: `, as a text content item flagged `isError`.
pub open spec fn tool_call_reply_spec(id: Seq<char>, result: Result<Seq<char>, Seq<char>>) -> Seq<char> {
    match result {
        Ok(content) => reply_envelope_spec(
            id,
            "{\"content\":[{\"text\":"@ + json_string_literal(content) + ",\"type\":\"text\"}]}"@,
        ),
        Err(e) => reply_envelope_spec(
            id,
            "{\"content\":[{\"text\":"@ + json_string_literal("Error: "@ + e)
                + ",\"type\":\"text\"}],\"isError\":true}"@,
        ),
    }
}

/// The view of a tool's result.
pub open spec fn result_view(r: Result<String, String>) -> Result<Seq<char>, Seq<char>> {
    match r {
        Ok(c) => Ok(c@),
        Err(e) => Err(e@),
    }
}

/// Answers a `tools/call` request (see [`tool_call_reply_spec`]).
pub fn tool_call_reply(id: &str, result: &Result<String, String>) -> (r: String)
    ensures
        r@ == tool_call_reply_spec(id@, result_view(*result)),
{
    let mut body = "{\"content\":[{\"text\":".to_owned();
    match result {
        Ok(content) => {
            push_string_literal(&mut body, content.as_str());
            body.append(",\"type\":\"text\"}]}");
        },
        Err(e) => {
            let mut message = "Error: ".to_owned();
            message.append(e.as_str());
            push_string_literal(&mut body, message.as_str());
            body.append(",\"type\":\"text\"}],\"isError\":true}");
        },
    }
    reply_envelope(id, body.as_str())
}

// ---------------------------------------------------------------------------
// Laws
// ---------------------------------------------------------------------------

/// Messages without a method, and notifications (messages without an id), are
/// never answered and run no tool.
pub proof fn lemma_unanswered_without_method_or_id(msg: RequestView, version: Seq<char>, definitions: Seq<char>)
    requires
        msg.method is None || msg.id is None,
    ensures
        handle_message_spec(msg, version, definitions) is Silent,
{
}

/// Whether `m` is a method this server answers itself or by running a tool.
pub open spec fn is_known_method(m: Seq<char>) -> bool {
    m == "initialize"@ || m == "tools/list"@ || m == "tools/call"@ || m == "ping"@
}

/// Every request with a method and an id gets exactly one answer, except the
/// `notifications/initialized` notification: `tools/call` runs the tool (whose
/// reply [`tool_call_reply`] always writes), `initialize`, `tools/list` and `ping`
/// are answered with a result for that id, and any other method with the
/// method-not-found error for that id.
pub proof fn lemma_every_request_is_answered(msg: RequestView, version: Seq<char>, definitions: Seq<char>)
    ensures
        (handle_message_spec(msg, version, definitions) is Silent) <==> (msg.method is None || msg.id is None
            || msg.method == Some("notifications/initialized"@)),
        match (msg.method, msg.id) {
            (Some(m), Some(id)) => {
                &&& (handle_message_spec(msg, version, definitions) is CallTool) <==> m == "tools/call"@
                &&& m == "initialize"@ ==> handle_message_spec(msg, version, definitions) == OutcomeView::Reply(
                    reply_envelope_spec(id, initialize_result_spec(version)),
                )
                &&& m == "tools/list"@ ==> handle_message_spec(msg, version, definitions) == OutcomeView::Reply(
                    reply_envelope_spec(id, tools_list_result_spec(definitions)),
                )
                &&& m == "ping"@ ==> handle_message_spec(msg, version, definitions) == OutcomeView::Reply(
                    reply_envelope_spec(id, "{}"@),
                )
                &&& (!is_known_method(m) && m != "notifications/initialized"@) ==> handle_message_spec(
                    msg,
                    version,
                    definitions,
                ) == OutcomeView::Reply(method_not_found_spec(id, m))
            },
            _ => true,
        },
{
    reveal_strlit("initialize");
    reveal_strlit("notifications/initialized");
    reveal_strlit("tools/list");
    reveal_strlit("tools/call");
    reveal_strlit("ping");
    let n = "notifications/initialized"@;
    assert(n.len() == 25 && "initialize"@.len() == 10 && "tools/list"@.len() == 10 && "tools/call"@.len() == 10 && "ping"@.len() == 4);
    assert(n != "initialize"@ && n != "tools/list"@ && n != "tools/call"@ && n != "ping"@);
    assert("initialize"@[0] != "tools/list"@[0] && "initialize"@[0] != "tools/call"@[0]);
    assert("initialize"@ != "tools/list"@ && "initialize"@ != "tools/call"@);
    assert("tools/list"@[6] != "tools/call"@[6]);
    assert("tools/list"@ != "tools/call"@);
}

/// A `tools/call` message runs the tool it names with the arguments it carries, and
/// the tool's reply goes to its id: for a parsed message whose `method` is the
/// string `tools/call` and which has an `id`, the tool call carries the id's JSON
/// text, the `params.name` string (empty when `params` is not an object or its
/// `name` is absent or not a string), and the JSON text of `params.arguments`
/// (`{}` only when `params` is not an object or has no `arguments`).
pub proof fn lemma_tool_call_carries_the_request(msg: JsonView, version: Seq<char>, definitions: Seq<char>)
    requires
        get_member(msg, "method"@) == Some(JsonView::Str("tools/call"@)),
        get_member(msg, "id"@) is Some,
    ensures
        handle_message_spec(request_spec(msg), version, definitions) == (OutcomeView::CallTool {
            id: json_text(get_member(msg, "id"@)->0),
            name: match get_member(msg, "params"@) {
                Some(JsonView::Object(ps)) => match member(ps, "name"@) {
                    Some(JsonView::Str(n)) => n,
                    _ => Seq::empty(),
                },
                _ => Seq::empty(),
            },
            arguments: match get_member(msg, "params"@) {
                Some(JsonView::Object(ps)) => match member(ps, "arguments"@) {
                    Some(a) => json_text(a),
                    None => "{}"@,
                },
                _ => "{}"@,
            },
        }),
{
    reveal_strlit("initialize");
    reveal_strlit("notifications/initialized");
    reveal_strlit("tools/list");
    reveal_strlit("tools/call");
    let c = "tools/call"@;
    assert(c != "initialize"@) by {
        assert(c[0] != "initialize"@[0]);
    }
    assert(c != "notifications/initialized"@) by {
        assert(c.len() != "notifications/initialized"@.len());
    }
    assert(c != "tools/list"@) by {
        assert(c[6] != "tools/list"@[6]);
    }
}

/// What each answered request gets back, written out: every reply is a JSON-RPC 2.0
/// object for the request's id; `ping` gets the empty result, `tools/list` the tool
/// definitions under `tools`, `initialize` the protocol version, the server's name
/// and version, the instructions and the tools capability, and any unknown method
/// the error -32601 whose message names the method.
pub proof fn lemma_reply_texts(msg: RequestView, version: Seq<char>, definitions: Seq<char>)
    requires
        msg.method is Some,
        msg.id is Some,
    ensures
        ({
            let m = msg.method->0;
            let id = msg.id->0;
            let out = handle_message_spec(msg, version, definitions);
            &&& m == "ping"@ ==> out == OutcomeView::Reply(
                "{\"id\":"@ + id + ",\"jsonrpc\":\"2.0\",\"result\":{}}"@,
            )
            &&& m == "tools/list"@ ==> out == OutcomeView::Reply(
                "{\"id\":"@ + id + ",\"jsonrpc\":\"2.0\",\"result\":{\"tools\":"@ + definitions + "}}"@,
            )
            &&& m == "initialize"@ ==> out == OutcomeView::Reply(
                "{\"id\":"@ + id
                    + ",\"jsonrpc\":\"2.0\",\"result\":{\"capabilities\":{\"tools\":{}},\"instructions\":"@
                    + json_string_literal(INSTRUCTIONS@) + ",\"protocolVersion\":"@ + json_string_literal(
                    "2024-11-05"@,
                ) + ",\"serverInfo\":{\"name\":"@ + json_string_literal("ghost"@) + ",\"version\":"@
                    + json_string_literal(version) + "}}}"@,
            )
            &&& (!is_known_method(m) && m != "notifications/initialized"@) ==> out == OutcomeView::Reply(
                "{\"error\":{\"code\":-32601,\"message\":"@ + json_string_literal("Method not found: "@ + m)
                    + "},\"id\":"@ + id + ",\"jsonrpc\":\"2.0\"}"@,
            )
        }),
{
    reveal_strlit("initialize");
    reveal_strlit("notifications/initialized");
    reveal_strlit("tools/list");
    reveal_strlit("tools/call");
    reveal_strlit("ping");
    let n = "notifications/initialized"@;
    assert(n.len() == 25 && "initialize"@.len() == 10 && "tools/list"@.len() == 10 && "tools/call"@.len() == 10 && "ping"@.len() == 4);
    assert(n != "initialize"@ && n != "tools/list"@ && n != "tools/call"@ && n != "ping"@);
    assert("initialize"@[0] != "tools/list"@[0] && "initialize"@[0] != "tools/call"@[0]);
    assert("initialize"@ != "tools/list"@ && "initialize"@ != "tools/call"@);
    assert("tools/list"@[6] != "tools/call"@[6]);
    assert("tools/list"@ != "tools/call"@);
    let id = msg.id->0;
    assert(reply_envelope_spec(id, "{}"@) =~= "{\"id\":"@ + id + ",\"jsonrpc\":\"2.0\",\"result\":{}}"@) by {
        reveal_strlit("{}");
        reveal_strlit("{\"id\":");
        reveal_strlit(",\"jsonrpc\":\"2.0\",\"result\":");
        reveal_strlit("}");
        reveal_strlit(",\"jsonrpc\":\"2.0\",\"result\":{}}");
    }
    assert(reply_envelope_spec(id, tools_list_result_spec(definitions)) =~= "{\"id\":"@ + id
        + ",\"jsonrpc\":\"2.0\",\"result\":{\"tools\":"@ + definitions + "}}"@) by {
        reveal_strlit("{\"tools\":");
        reveal_strlit("}");
        reveal_strlit(",\"jsonrpc\":\"2.0\",\"result\":");
        reveal_strlit(",\"jsonrpc\":\"2.0\",\"result\":{\"tools\":");
        reveal_strlit("}}");
    }
    assert(reply_envelope_spec(id, initialize_result_spec(version)) =~= "{\"id\":"@ + id
        + ",\"jsonrpc\":\"2.0\",\"result\":{\"capabilities\":{\"tools\":{}},\"instructions\":"@
        + json_string_literal(INSTRUCTIONS@) + ",\"protocolVersion\":"@ + json_string_literal("2024-11-05"@)
        + ",\"serverInfo\":{\"name\":"@ + json_string_literal("ghost"@) + ",\"version\":"@
        + json_string_literal(version) + "}}}"@) by {
        reveal_strlit(",\"jsonrpc\":\"2.0\",\"result\":");
        reveal_strlit("{\"capabilities\":{\"tools\":{}},\"instructions\":");
        reveal_strlit(",\"jsonrpc\":\"2.0\",\"result\":{\"capabilities\":{\"tools\":{}},\"instructions\":");
        reveal_strlit("}}");
        reveal_strlit("}");
        reveal_strlit("}}}");
    }
}

/// A tool's result is answered to the request's id as one text content item: its
/// output as the text, or, when it failed, its message after `Error: ` with the
/// reply flagged `isError`.
pub proof fn lemma_tool_result_reply(id: Seq<char>, result: Result<Seq<char>, Seq<char>>)
    ensures
        result matches Ok(content) ==> tool_call_reply_spec(id, result) == "{\"id\":"@ + id
            + ",\"jsonrpc\":\"2.0\",\"result\":{\"content\":[{\"text\":"@ + json_string_literal(content)
            + ",\"type\":\"text\"}]}}"@,
        result matches Err(e) ==> tool_call_reply_spec(id, result) == "{\"id\":"@ + id
            + ",\"jsonrpc\":\"2.0\",\"result\":{\"content\":[{\"text\":"@ + json_string_literal(
            "Error: "@ + e,
        ) + ",\"type\":\"text\"}],\"isError\":true}}"@,
{
    reveal_strlit(",\"jsonrpc\":\"2.0\",\"result\":");
    reveal_strlit("{\"content\":[{\"text\":");
    reveal_strlit(",\"jsonrpc\":\"2.0\",\"result\":{\"content\":[{\"text\":");
    reveal_strlit(",\"type\":\"text\"}]}");
    reveal_strlit(",\"type\":\"text\"}]}}");
    reveal_strlit(",\"type\":\"text\"}],\"isError\":true}");
    reveal_strlit(",\"type\":\"text\"}],\"isError\":true}}");
    reveal_strlit("}");
    match result {
        Ok(content) => {
            let t = json_string_literal(content);
            assert(tool_call_reply_spec(id, result) =~= "{\"id\":"@ + id
                + ",\"jsonrpc\":\"2.0\",\"result\":{\"content\":[{\"text\":"@ + t
                + ",\"type\":\"text\"}]}}"@);
        },
        Err(e) => {
            let t = json_string_literal("Error: "@ + e);
            assert(tool_call_reply_spec(id, result) =~= "{\"id\":"@ + id
                + ",\"jsonrpc\":\"2.0\",\"result\":{\"content\":[{\"text\":"@ + t
                + ",\"type\":\"text\"}],\"isError\":true}}"@);
        },
    }
}

/// A body framed with a `Content-Length` header is read back whole: the header block
/// is one header line and one blank line; the header line announces the length and
/// the blank line after it ends the block.
pub proof fn lemma_content_length_round_trip(n: usize)
    ensures
        content_length_prefix(n as nat) == (content_length_key() + decimal(n as nat) + "\r\n"@)
            + "\r\n"@,
        header_line_spec(None, content_length_key() + decimal(n as nat) + "\r\n"@)
            == HeaderLine::Next(Some(n)),
        header_line_spec(Some(n), "\r\n"@) == HeaderLine::End(Some(n)),
{
    reveal_strlit("\r\n");
    reveal_strlit("\r\n\r\n");
    reveal_strlit("Content-Length: ");
    assert(content_length_prefix(n as nat) =~= (content_length_key() + decimal(n as nat)
        + "\r\n"@) + "\r\n"@);
    let k = content_length_key();
    let d = decimal(n as nat);
    crate::text::lemma_parse_decimal(n);
    crate::text::lemma_decimal_digits(n as nat);
    let line = k + d + "\r\n"@;
    assert(strip_line_end(line) == strip_line_end(k + d + seq!['\r'])) by {
        assert(line.drop_last() =~= k + d + seq!['\r']);
    }
    assert(strip_line_end(k + d + seq!['\r']) == strip_line_end(k + d)) by {
        assert((k + d + seq!['\r']).drop_last() =~= k + d);
    }
    assert(strip_line_end(k + d) == k + d) by {
        assert((k + d).last() == d.last());
        assert(crate::text::is_digit(d[d.len() - 1]));
    }
    assert((k + d).take(k.len() as int) =~= k);
    assert((k + d).skip(k.len() as int) =~= d);
    assert(trim(d) == d) by {
        assert(crate::text::is_digit(d[0]));
        assert(crate::text::is_digit(d[d.len() - 1]));
        crate::text::lemma_trim_fixed(d);
    }
    let blank = "\r\n"@;
    let cr = seq!['\r'];
    let e = Seq::<char>::empty();
    assert(blank =~= seq!['\r', '\n']);
    assert(blank.drop_last() =~= cr);
    assert(cr.drop_last() =~= e);
    assert(strip_line_end(cr) == strip_line_end(e));
    assert(strip_line_end(blank) == strip_line_end(cr));
}

/// A body framed with a `Content-Length` header, followed by anything else, splits
/// back into its parts: the header block, then exactly the body's bytes, then what
/// follows.
pub proof fn lemma_content_length_frame_splits(data: Seq<u8>, rest: Seq<u8>)
    ensures
        ({
            let h = encode_utf8(content_length_prefix(data.len()));
            let f = framed_spec(data, Transport::ContentLength) + rest;
            &&& f.take(h.len() as int) == h
            &&& f.subrange(h.len() as int, (h.len() + data.len()) as int) == data
            &&& f.skip((h.len() + data.len()) as int) == rest
        }),
{
    let h = encode_utf8(content_length_prefix(data.len()));
    let f = framed_spec(data, Transport::ContentLength) + rest;
    assert(f.take(h.len() as int) =~= h);
    assert(f.subrange(h.len() as int, (h.len() + data.len()) as int) =~= data);
    assert(f.skip((h.len() + data.len()) as int) =~= rest);
}

/// A message written newline-delimited, followed by anything else, is the first line
/// of the stream when it holds no newline byte itself: the first newline comes right
/// after it, and what follows that newline is the rest.
pub proof fn lemma_ndjson_frame_splits(data: Seq<u8>, rest: Seq<u8>)
    requires
        forall|i: int| 0 <= i < data.len() ==> data[i] != 10u8,
    ensures
        ({
            let f = framed_spec(data, Transport::NdJson) + rest;
            &&& f[data.len() as int] == 10u8
            &&& forall|i: int| 0 <= i < data.len() ==> f[i] != 10u8
            &&& f.take(data.len() as int) == data
            &&& f.skip(data.len() + 1int) == rest
        }),
{
    let f = framed_spec(data, Transport::NdJson) + rest;
    assert(f.take(data.len() as int) =~= data);
    assert(f.skip(data.len() + 1int) =~= rest);
}

/// A message written newline-delimited is read back as one line holding it, as
/// long as it neither starts nor ends with white space.
pub proof fn lemma_ndjson_round_trip(body: Seq<char>)
    requires
        body.len() > 0,
        crate::text::is_trimmed(body),
    ensures
        trim(body.push('\n')) == body,
{
    crate::text::lemma_trim_fixed(body);
    assert(crate::text::trim_start(body.push('\n')) =~= body.push('\n'));
    assert(body.push('\n').drop_last() =~= body);
    crate::text::lemma_trim_end_fixed(body);
}

} // verus!
