//! Journal markers: a titled milestone posted to Shadow's local ingest endpoint.
//!
//! The ingest endpoint is bearer-gated; the token is found by precedence (an
//! explicit environment token, then token files). Markers are one-event JSON
//! batches. When Shadow accepts a marker (a 2xx status) its reply body is handed
//! back to the caller; any other answer, such as the rejection of an ingest without
//! a valid token, is an error that carries Shadow's status line and reply body.

use vstd::prelude::*;

use crate::clock::{reading_micros, unix_micros, unix_reading, valid_reading};
use crate::json::{json_string_literal, push_string_literal};
use crate::text::{
    byte_len, chars_of, decimal, find_char, find_str, first_index_of, first_occurrence, is_digit, is_trimmed,
    lemma_trim_shape, opt_view, push_decimal, starts_with, trim, trim_str,
};
use crate::tools::{str_param, str_param_spec, Params};

verus! {

/// Where Shadow's ingest endpoint listens.
pub const SHADOW_INGEST_ADDR: &'static str = "127.0.0.1:3030";

/// Microseconds since the Unix epoch by the wall clock, cut to 64 bits; 0 when the
/// clock reads earlier than the epoch.
pub fn wall_micros() -> (us: u64)
    ensures
        exists|reading: Option<(u64, u32)>| valid_reading(reading) && us == reading_micros(reading),
{
    let reading = unix_reading();
    let us = unix_micros(reading);
    assert(valid_reading(reading) && us == reading_micros(reading));
    us
}

// ---------------------------------------------------------------------------
// The bearer token
// ---------------------------------------------------------------------------

/// A token text counts when it is not blank; it is used trimmed.
pub open spec fn token_text_spec(t: Seq<char>) -> Option<Seq<char>> {
    if trim(t).len() > 0 {
        Some(trim(t))
    } else {
        None
    }
}

/// The directory a token file is found under: a given directory, or the home
/// directory.
#[derive(Debug)]
pub enum TokenBase {
    Dir(String),
    Home,
}

/// One place a token file may be: under `base`, at the path made of `components`.
#[derive(Debug)]
pub struct TokenFile {
    pub base: TokenBase,
    pub components: Vec<&'static str>,
}

/// Whether `f` is the file under `base` (`None`: the home directory) at `components`.
pub open spec fn is_token_file(f: TokenFile, base: Option<Seq<char>>, components: Seq<Seq<char>>) -> bool {
    &&& match (f.base, base) {
        (TokenBase::Dir(d), Some(b)) => d@ == b,
        (TokenBase::Home, None) => true,
        _ => false,
    }
    &&& f.components@.len() == components.len()
    &&& forall|i: int| 0 <= i < components.len() ==> (#[trigger] f.components@[i])@ == components[i]
}

/// The token files, in the order they are tried: `shadow/api-token` under a
/// non-blank data directory (trimmed), then `.ryu/shadow/api-token` and
/// `.shadow/api-token` under the home directory when it is known.
pub open spec fn token_files_are(files: Seq<TokenFile>, data_dir: Option<Seq<char>>, home_known: bool) -> bool {
    let dir = match data_dir {
        Some(d) => token_text_spec(d),
        None => None,
    };
    let k: int = if dir is Some { 1 } else { 0 };
    &&& files.len() == k + if home_known { 2int } else { 0int }
    &&& dir matches Some(d) ==> is_token_file(files[0], Some(d), seq!["shadow"@, "api-token"@])
    &&& home_known ==> is_token_file(files[k], None, seq![".ryu"@, "shadow"@, "api-token"@])
    &&& home_known ==> is_token_file(files[k + 1], None, seq![".shadow"@, "api-token"@])
}

/// The token files to try (see [`token_files_are`]).
pub fn shadow_token_files(data_dir: Option<&str>, home_known: bool) -> (r: Vec<TokenFile>)
    ensures
        token_files_are(r@, opt_view(data_dir), home_known),
{
    let mut files: Vec<TokenFile> = Vec::new();
    if let Some(d) = data_dir {
        let t = trim_str(d);
        if t.unicode_len() > 0 {
            files.push(TokenFile { base: TokenBase::Dir(t.to_owned()), components: vec!["shadow", "api-token"] });
        }
    }
    if home_known {
        files.push(TokenFile { base: TokenBase::Home, components: vec![".ryu", "shadow", "api-token"] });
        files.push(TokenFile { base: TokenBase::Home, components: vec![".shadow", "api-token"] });
    }
    files
}

/// The first file text that holds a token.
pub open spec fn first_file_token(texts: Seq<Option<Seq<char>>>) -> Option<Seq<char>>
    decreases texts.len(),
{
    if texts.len() == 0 {
        None
    } else {
        match texts[0] {
            Some(t) if token_text_spec(t) is Some => token_text_spec(t),
            _ => first_file_token(texts.drop_first()),
        }
    }
}

/// The token Shadow's HTTP surface is called with: the environment token when it is
/// not blank, else the first token file (in the order of [`shadow_token_files`])
/// whose text is not blank; absent when none is (Shadow then rejects the ingest).
pub open spec fn shadow_api_token_spec(env_token: Option<Seq<char>>, file_texts: Seq<Option<Seq<char>>>) -> Option<Seq<char>> {
    match env_token {
        Some(e) if token_text_spec(e) is Some => token_text_spec(e),
        _ => first_file_token(file_texts),
    }
}

/// A token text that counts is never blank and carries no surrounding white space.
proof fn lemma_token_text_trimmed(t: Seq<char>)
    ensures
        token_text_spec(t) matches Some(k) ==> k.len() > 0 && is_trimmed(k),
{
    lemma_trim_shape(t);
}

proof fn lemma_first_file_token_trimmed(texts: Seq<Option<Seq<char>>>)
    ensures
        first_file_token(texts) matches Some(k) ==> k.len() > 0 && is_trimmed(k),
    decreases texts.len(),
{
    if texts.len() > 0 {
        if let Some(t) = texts[0] {
            lemma_token_text_trimmed(t);
        }
        lemma_first_file_token_trimmed(texts.drop_first());
    }
}

/// The bearer token is never blank and never carries surrounding white space,
/// whatever the environment and the token files hold.
pub proof fn lemma_token_never_blank(env_token: Option<Seq<char>>, file_texts: Seq<Option<Seq<char>>>)
    ensures
        shadow_api_token_spec(env_token, file_texts) matches Some(k) ==> k.len() > 0 && is_trimmed(
            k,
        ),
{
    if let Some(e) = env_token {
        lemma_token_text_trimmed(e);
    }
    lemma_first_file_token_trimmed(file_texts);
}

/// Whether an optional text holds something other than white space.
pub open spec fn holds_text(o: Option<Seq<char>>) -> bool {
    o matches Some(t) && trim(t).len() > 0
}

proof fn lemma_first_file_token_is_first(texts: Seq<Option<Seq<char>>>)
    ensures
        (forall|i: int| 0 <= i < texts.len() ==> !holds_text(#[trigger] texts[i])) ==> first_file_token(
            texts,
        ) is None,
        forall|i: int|
            0 <= i < texts.len() && holds_text(#[trigger] texts[i]) && (forall|j: int|
                0 <= j < i ==> !holds_text(texts[j])) ==> first_file_token(texts) == Some(
                trim(texts[i]->0),
            ),
    decreases texts.len(),
{
    if texts.len() > 0 {
        let rest = texts.drop_first();
        lemma_first_file_token_is_first(rest);
        assert forall|i: int|
            0 <= i < texts.len() && holds_text(#[trigger] texts[i]) && (forall|j: int|
                0 <= j < i ==> !holds_text(texts[j])) implies first_file_token(texts) == Some(
            trim(texts[i]->0),
        ) by {
            if i > 0 {
                assert(!holds_text(texts[0]));
                assert(rest[i - 1] == texts[i]);
                assert forall|j: int| 0 <= j < i - 1 implies !holds_text(rest[j]) by {
                    assert(rest[j] == texts[j + 1]);
                }
            }
        }
        if forall|i: int| 0 <= i < texts.len() ==> !holds_text(#[trigger] texts[i]) {
            assert(!holds_text(texts[0]));
            assert forall|i: int| 0 <= i < rest.len() implies !holds_text(#[trigger] rest[i]) by {
                assert(rest[i] == texts[i + 1]);
            }
        }
    }
}

/// The token is found by precedence: a non-blank environment token, trimmed, wins;
/// otherwise the trimmed text of the first token file whose text is not blank, any
/// earlier file (unread, or blank) being skipped; with none, there is no token.
pub proof fn lemma_token_precedence(env_token: Option<Seq<char>>, file_texts: Seq<Option<Seq<char>>>)
    ensures
        holds_text(env_token) ==> shadow_api_token_spec(env_token, file_texts) == Some(trim(env_token->0)),
        !holds_text(env_token) && (forall|i: int|
            0 <= i < file_texts.len() ==> !holds_text(#[trigger] file_texts[i])) ==> shadow_api_token_spec(
            env_token,
            file_texts,
        ) is None,
        forall|i: int|
            !holds_text(env_token) && 0 <= i < file_texts.len() && holds_text(#[trigger] file_texts[i])
                && (forall|j: int| 0 <= j < i ==> !holds_text(file_texts[j])) ==> shadow_api_token_spec(
                env_token,
                file_texts,
            ) == Some(trim(file_texts[i]->0)),
{
    lemma_first_file_token_is_first(file_texts);
}

/// The views of a list of optional texts.
pub open spec fn texts_view(texts: Seq<Option<String>>) -> Seq<Option<Seq<char>>> {
    texts.map_values(|t: Option<String>| opt_view(t))
}

fn token_text(t: &str) -> (r: Option<String>)
    ensures
        opt_view(r) == token_text_spec(t@),
{
    let s = trim_str(t);
    if s.unicode_len() > 0 {
        Some(s.to_owned())
    } else {
        None
    }
}

/// Resolves the bearer token (see [`shadow_api_token_spec`]) from the environment
/// token and the texts of the token files that could be read.
pub fn shadow_api_token(env_token: Option<&str>, file_texts: &Vec<Option<String>>) -> (r: Option<String>)
    ensures
        opt_view(r) == shadow_api_token_spec(opt_view(env_token), texts_view(file_texts@)),
{
    if let Some(e) = env_token {
        let t = token_text(e);
        if t.is_some() {
            return t;
        }
    }
    let n = file_texts.len();
    let mut i: usize = 0;
    let ghost all = texts_view(file_texts@);
    assert(all.skip(0) =~= all);
    while i < n
        invariant
            n == file_texts@.len(),
            i <= n,
            all == texts_view(file_texts@),
            shadow_api_token_spec(opt_view(env_token), all) == first_file_token(all),
            first_file_token(all) == first_file_token(all.skip(i as int)),
        decreases n - i,
    {
        assert(all.skip(i as int)[0] == opt_view(file_texts@[i as int]));
        assert(all.skip(i as int).drop_first() =~= all.skip(i + 1));
        if let Some(text) = &file_texts[i] {
            let t = token_text(text.as_str());
            if t.is_some() {
                return t;
            }
        }
        i = i + 1;
    }
    None
}

// ---------------------------------------------------------------------------
// The marker
// ---------------------------------------------------------------------------

/// Why a marker cannot be made, or was not recorded.
#[derive(Debug, Clone, PartialEq, Eq)]
pub enum JournalError {
    /// The `title` parameter is absent, not a string, or blank.
    TitleRequired,
    /// Shadow answered the ingest with a status outside 2xx, or with no status line:
    /// the first line of its answer and the payload of its reply.
    Rejected { status_line: String, body: String },
}

/// The message that reports an error.
pub open spec fn journal_error_message(e: JournalError) -> Seq<char> {
    match e {
        JournalError::TitleRequired => "title required"@,
        JournalError::Rejected { status_line, body } => "Shadow rejected the marker ("@ + status_line@
            + "): "@ + body@,
    }
}

impl JournalError {
    /// The error's message.
    pub fn message(&self) -> (r: String)
        ensures
            r@ == journal_error_message(*self),
    {
        match self {
            JournalError::TitleRequired => "title required".to_owned(),
            JournalError::Rejected { status_line, body } => {
                let mut out = "Shadow rejected the marker (".to_owned();
                out.append(status_line.as_str());
                out.append("): ");
                out.append(body.as_str());
                out
            },
        }
    }
}

/// A trimmed string parameter, with a default when absent or not a string.
pub open spec fn trimmed_param_or_spec(params: Params, key: Seq<char>, default: Seq<char>) -> Seq<char> {
    trim(
        match str_param_spec(params, key) {
            Some(s) => s,
            None => default,
        },
    )
}

/// A trimmed string parameter that falls back to `default` when blank too.
pub open spec fn label_param_or_spec(params: Params, key: Seq<char>, default: Seq<char>) -> Seq<char> {
    let v = trimmed_param_or_spec(params, key, default);
    if v.len() == 0 {
        default
    } else {
        v
    }
}

/// The ingest batch for a marker at time `ts` (µs): one `journal_marker` event
/// whose window title is the trimmed `title` (required, not blank), with the
/// trimmed `body` (default empty), `category` (default, also when blank,
/// `Milestone`) and `app` (default, also when blank, `Ghost`). Keys are in the
/// order serde_json writes them.
pub open spec fn journal_batch_spec(params: Params, ts: u64) -> Result<Seq<char>, JournalError> {
    let title = match str_param_spec(params, "title"@) {
        Some(t) => trim(t),
        None => Seq::empty(),
    };
    if title.len() == 0 {
        Err(JournalError::TitleRequired)
    } else {
        Ok(
            "{\"events\":[{\"app_name\":"@ + json_string_literal(label_param_or_spec(params, "app"@, "Ghost"@))
                + ",\"body\":"@ + json_string_literal(trimmed_param_or_spec(params, "body"@, Seq::empty()))
                + ",\"category\":"@ + json_string_literal(label_param_or_spec(params, "category"@, "Milestone"@))
                + ",\"source\":\"ghost\",\"track\":12,\"ts\":"@ + decimal(ts as nat)
                + ",\"type\":\"journal_marker\",\"v\":2,\"window_title\":"@ + json_string_literal(title)
                + "}]}"@,
        )
    }
}

fn trimmed_param_or<'a>(params: &'a Params, key: &str, default: &'a str) -> (r: &'a str)
    ensures
        r@ == trimmed_param_or_spec(*params, key@, default@),
{
    match str_param(params, key) {
        Some(s) => trim_str(s),
        None => trim_str(default),
    }
}

fn label_param_or<'a>(params: &'a Params, key: &str, default: &'a str) -> (r: &'a str)
    ensures
        r@ == label_param_or_spec(*params, key@, default@),
{
    let v = trimmed_param_or(params, key, default);
    if v.unicode_len() == 0 {
        default
    } else {
        v
    }
}

/// The ingest batch for a marker (see [`journal_batch_spec`]).
pub fn journal_batch(params: &Params, ts: u64) -> (r: Result<String, JournalError>)
    ensures
        match r {
            Ok(t) => journal_batch_spec(*params, ts) == Ok::<Seq<char>, JournalError>(t@),
            Err(e) => journal_batch_spec(*params, ts) == Err::<Seq<char>, JournalError>(e),
        },
{
    let title = match str_param(params, "title") {
        Some(t) => trim_str(t),
        None => "",
    };
    assert(title@ == (match str_param_spec(*params, "title"@) {
        Some(t) => trim(t),
        None => Seq::empty(),
    })) by {
        reveal_strlit("");
    }
    if title.unicode_len() == 0 {
        return Err(JournalError::TitleRequired);
    }
    let app = label_param_or(params, "app", "Ghost");
    let body = trimmed_param_or(params, "body", "");
    assert(body@ == trimmed_param_or_spec(*params, "body"@, Seq::empty())) by {
        reveal_strlit("");
    }
    let category = label_param_or(params, "category", "Milestone");
    let mut out = "{\"events\":[{\"app_name\":".to_owned();
    push_string_literal(&mut out, app);
    out.append(",\"body\":");
    push_string_literal(&mut out, body);
    out.append(",\"category\":");
    push_string_literal(&mut out, category);
    out.append(",\"source\":\"ghost\",\"track\":12,\"ts\":");
    push_decimal(&mut out, ts as u128);
    out.append(",\"type\":\"journal_marker\",\"v\":2,\"window_title\":");
    push_string_literal(&mut out, title);
    out.append("}]}");
    Ok(out)
}

// ---------------------------------------------------------------------------
// The ingest request and its reply
// ---------------------------------------------------------------------------

/// A label parameter of a marker as the caller gave it: the trimmed string when the
/// parameter is a string that is not blank once trimmed, `default` otherwise.
pub open spec fn marker_label(params: Params, key: Seq<char>, default: Seq<char>) -> Seq<char> {
    match str_param_spec(params, key) {
        Some(s) => if trim(s).len() > 0 {
            trim(s)
        } else {
            default
        },
        None => default,
    }
}

/// The marker's fields come from the caller: without a title that is a string and
/// not blank once trimmed there is no batch; with one, the batch holds one
/// `journal_marker` event stamped `ts` whose window title is that trimmed title,
/// whose app and category are the caller's trimmed, non-blank strings (`Ghost` and
/// `Milestone` when absent, not strings, or blank), and whose body is the caller's
/// trimmed body string (empty when absent or not a string).
pub proof fn lemma_marker_fields(params: Params, ts: u64)
    ensures
        ({
            let title = marker_label(params, "title"@, Seq::empty());
            let body = match str_param_spec(params, "body"@) {
                Some(b) => trim(b),
                None => Seq::empty(),
            };
            &&& title.len() == 0 ==> journal_batch_spec(params, ts) == Err::<Seq<char>, JournalError>(
                JournalError::TitleRequired,
            )
            &&& title.len() > 0 ==> journal_batch_spec(params, ts) == Ok::<Seq<char>, JournalError>(
                "{\"events\":[{\"app_name\":"@ + json_string_literal(marker_label(params, "app"@, "Ghost"@))
                    + ",\"body\":"@ + json_string_literal(body) + ",\"category\":"@ + json_string_literal(
                    marker_label(params, "category"@, "Milestone"@),
                ) + ",\"source\":\"ghost\",\"track\":12,\"ts\":"@ + decimal(ts as nat)
                    + ",\"type\":\"journal_marker\",\"v\":2,\"window_title\":"@ + json_string_literal(title)
                    + "}]}"@,
            )
        }),
{
    reveal_strlit("Ghost");
    reveal_strlit("Milestone");
    crate::text::lemma_trim_fixed("Ghost"@);
    crate::text::lemma_trim_fixed("Milestone"@);
    crate::text::lemma_trim_fixed(Seq::<char>::empty());
}

/// The header line that carries the bearer token, when there is one.
pub open spec fn authorization_line(token: Option<Seq<char>>) -> Seq<char> {
    match token {
        Some(t) => "Authorization: Bearer "@ + t + "\r\n"@,
        None => Seq::empty(),
    }
}

/// The HTTP/1.1 request that posts `body` to Shadow's `/ingest`.
pub open spec fn shadow_request_spec(token: Option<Seq<char>>, body: Seq<char>) -> Seq<char> {
    "POST /ingest HTTP/1.1\r\nHost: 127.0.0.1:3030\r\n"@ + authorization_line(token)
        + "Content-Type: application/json\r\nAccept: application/json\r\nContent-Length: "@
        + decimal(byte_len(body)) + "\r\nConnection: close\r\n\r\n"@ + body
}

/// The request that posts `body` to Shadow's ingest endpoint with the given token.
pub fn shadow_ingest_request(token: Option<&str>, body: &str) -> (r: String)
    ensures
        r@ == shadow_request_spec(opt_view(token), body@),
{
    let mut out = "POST /ingest HTTP/1.1\r\nHost: 127.0.0.1:3030\r\n".to_owned();
    if let Some(t) = token {
        out.append("Authorization: Bearer ");
        out.append(t);
        out.append("\r\n");
    }
    out.append("Content-Type: application/json\r\nAccept: application/json\r\nContent-Length: ");
    push_decimal(&mut out, body.len() as u128);
    out.append("\r\nConnection: close\r\n\r\n");
    out.append(body);
    assert(out@ =~= shadow_request_spec(opt_view(token), body@));
    out
}

/// The payload of an HTTP response: the part after the header block up to the next
/// blank line, trimmed; the whole response, trimmed, when it has no blank line.
pub open spec fn response_payload_spec(response: Seq<char>) -> Seq<char> {
    let sep = "\r\n\r\n"@;
    match first_occurrence(response, sep) {
        None => trim(response),
        Some(i) => {
            let rest = response.skip(i + sep.len());
            match first_occurrence(rest, sep) {
                Some(j) => trim(rest.take(j)),
                None => trim(rest),
            }
        },
    }
}

/// The payload of Shadow's reply (see [`response_payload_spec`]).
pub fn shadow_response_payload(response: &str) -> (r: String)
    ensures
        r@ == response_payload_spec(response@),
{
    let sep = "\r\n\r\n";
    match find_str(response, sep) {
        None => trim_str(response).to_owned(),
        Some(i) => {
            proof {
                crate::text::lemma_first_occurrence_found(response@, sep@);
            }
            let rl = response.unicode_len();
            let sl = sep.unicode_len();
            let rest = response.substring_char(i + sl, rl);
            assert(rest@ =~= response@.skip(i + sep@.len()));
            match find_str(rest, sep) {
                Some(j) => {
                    proof {
                        crate::text::lemma_first_occurrence_found(rest@, sep@);
                    }
                    trim_str(rest.substring_char(0, j)).to_owned()
                },
                None => trim_str(rest).to_owned(),
            }
        },
    }
}

/// The first line of an HTTP response: the text before its first CRLF.
pub open spec fn status_line_spec(response: Seq<char>) -> Seq<char> {
    match first_occurrence(response, "\r\n"@) {
        Some(i) => response.take(i),
        None => response,
    }
}

/// Whether an HTTP response reports success: its first line starts with `HTTP/`, and
/// the token after the first space is a three-digit status code `2xx`.
pub open spec fn accepted_spec(response: Seq<char>) -> bool {
    let line = status_line_spec(response);
    &&& line.len() >= 5
    &&& line.take(5) == "HTTP/"@
    &&& match first_index_of(line, ' ') {
        Some(i) => i + 4 <= line.len() && line[i + 1] == '2' && is_digit(line[i + 2]) && is_digit(
            line[i + 3],
        ) && (i + 4 == line.len() || line[i + 4] == ' '),
        None => false,
    }
}

/// The first line of an HTTP response (see [`status_line_spec`]).
pub fn status_line(response: &str) -> (r: &str)
    ensures
        r@ == status_line_spec(response@),
{
    match find_str(response, "\r\n") {
        Some(i) => {
            proof {
                crate::text::lemma_first_occurrence_found(response@, "\r\n"@);
            }
            response.substring_char(0, i)
        },
        None => response,
    }
}

fn is_ascii_digit(c: char) -> (r: bool)
    ensures
        r == is_digit(c),
{
    let u = c as u32;
    48 <= u && u <= 57
}

/// Whether Shadow's answer reports success (see [`accepted_spec`]).
pub fn shadow_accepted(response: &str) -> (r: bool)
    ensures
        r == accepted_spec(response@),
{
    let line = status_line(response);
    if !starts_with(line, "HTTP/") {
        proof {
            reveal_strlit("HTTP/");
        }
        return false;
    }
    proof {
        reveal_strlit("HTTP/");
    }
    let cs = chars_of(line);
    match find_char(&cs, ' ') {
        None => false,
        Some(i) => {
            if cs.len() < 4 || i > cs.len() - 4 {
                return false;
            }
            let ok = cs[i + 1] == '2' && is_ascii_digit(cs[i + 2]) && is_ascii_digit(cs[i + 3]) && (
            i + 4 == cs.len() || cs[i + 4] == ' ');
            ok
        },
    }
}

/// The text the marker tool answers with once Shadow accepted the marker and replied
/// with `payload`.
pub open spec fn journal_reply_spec(payload: Seq<char>) -> Seq<char> {
    "{\"ok\":true,\"shadow_response\":"@ + json_string_literal(payload) + ",\"suggestion\":"@
        + json_string_literal("The marker is now available in Shadow's journal and desktop timeline."@)
        + "}"@
}

/// The marker tool's answer for an accepted marker (see [`journal_reply_spec`]).
pub fn journal_reply(payload: &str) -> (r: String)
    ensures
        r@ == journal_reply_spec(payload@),
{
    let mut out = "{\"ok\":true,\"shadow_response\":".to_owned();
    push_string_literal(&mut out, payload);
    out.append(",\"suggestion\":");
    push_string_literal(&mut out, "The marker is now available in Shadow's journal and desktop timeline.");
    out.append("}");
    out
}

/// Whether an answer carries an HTTP status line: its first line starts with `HTTP/`.
pub open spec fn has_status_line(response: Seq<char>) -> bool {
    let line = status_line_spec(response);
    line.len() >= 5 && line.take(5) == "HTTP/"@
}

/// Whether Shadow rejected the ingest: its answer carries a status line whose status
/// is not 2xx.
pub open spec fn rejected_spec(response: Seq<char>) -> bool {
    has_status_line(response) && !accepted_spec(response)
}

proof fn lemma_first_line_end(line: Seq<char>, rest: Seq<char>)
    requires
        forall|k: int| 0 <= k < line.len() ==> line[k] != '\r',
    ensures
        first_occurrence(line + "\r\n"@ + rest, "\r\n"@) == Some(line.len() as int),
    decreases line.len(),
{
    reveal_strlit("\r\n");
    let hay = line + "\r\n"@ + rest;
    if line.len() == 0 {
        assert(hay.subrange(0, 2) =~= "\r\n"@);
    } else {
        assert(hay[0] == line[0]);
        assert(hay.subrange(0, 2)[0] != '\r');
        let tail = line.drop_first();
        assert forall|k: int| 0 <= k < tail.len() implies tail[k] != '\r' by {
            assert(tail[k] == line[k + 1]);
        }
        lemma_first_line_end(tail, rest);
        assert(hay.drop_first() =~= tail + "\r\n"@ + rest);
    }
}

/// Shadow's verdict on a marker is read from its status code: for an answer whose
/// first line is `HTTP/<version> <code>` followed by nothing or by a space and a
/// reason (no carriage return in that line), with a three-digit code, the marker
/// is rejected exactly when the code does not start with `2`; an answer that does
/// not start with `HTTP/` is never a rejection.
pub proof fn lemma_verdict_by_status(
    version: Seq<char>,
    code: Seq<char>,
    tail: Seq<char>,
    rest: Seq<char>,
    other: Seq<char>,
)
    requires
        forall|k: int| 0 <= k < version.len() ==> version[k] != ' ' && version[k] != '\r',
        code.len() == 3,
        forall|k: int| 0 <= k < 3 ==> is_digit(#[trigger] code[k]),
        tail.len() == 0 || tail[0] == ' ',
        forall|k: int| 0 <= k < tail.len() ==> tail[k] != '\r',
    ensures
        rejected_spec("HTTP/"@ + version + seq![' '] + code + tail + "\r\n"@ + rest) <==> code[0] != '2',
        !(other.len() >= 5 && other.take(5) == "HTTP/"@) ==> !rejected_spec(other),
{
    reveal_strlit("HTTP/");
    reveal_strlit("\r\n");
    let line = "HTTP/"@ + version + seq![' '] + code + tail;
    let k: int = 5 + version.len() as int;
    assert forall|j: int| 0 <= j < line.len() implies line[j] != '\r' by {
        if j < 5 {
        } else if j < k {
            assert(line[j] == version[j - 5]);
        } else if j == k {
        } else if j < k + 4 {
            assert(line[j] == code[j - k - 1]);
            assert(is_digit(code[j - k - 1]));
        } else {
            assert(line[j] == tail[j - k - 4]);
        }
    }
    lemma_first_line_end(line, rest);
    let response = line + "\r\n"@ + rest;
    assert(response.take(line.len() as int) =~= line);
    assert(status_line_spec(response) == line);
    crate::text::lemma_first_index_of(line, ' ');
    assert(line[k] == ' ');
    assert forall|j: int| 0 <= j < k implies line[j] != ' ' by {
        if j >= 5 {
            assert(line[j] == version[j - 5]);
        }
    }
    assert(first_index_of(line, ' ') == Some(k));
    assert(line.take(5) =~= "HTTP/"@);
    assert(line[k + 1] == code[0] && line[k + 2] == code[1] && line[k + 3] == code[2]);
    assert(is_digit(code[1]) && is_digit(code[2]));
    if line.len() > k + 4 {
        assert(line[k + 4] == tail[0]);
    }
    if !(other.len() >= 5 && other.take(5) == "HTTP/"@) {
        let sl = status_line_spec(other);
        crate::text::lemma_first_occurrence_found(other, "\r\n"@);
        if sl.len() >= 5 {
            assert(sl.take(5) =~= other.take(5));
        }
    }
}

/// The marker tool's answer to Shadow's raw HTTP `response`: a rejection, carrying the
/// status line and the payload, when the response has a status line that is not
/// 2xx; otherwise the marker reply around the response payload.
pub fn journal_answer(response: &str) -> (r: Result<String, JournalError>)
    ensures
        r is Err <==> rejected_spec(response@),
        r matches Ok(t) ==> t@ == journal_reply_spec(response_payload_spec(response@)),
        r matches Err(e) ==> e matches JournalError::Rejected { status_line, body } && status_line@
            == status_line_spec(response@) && body@ == response_payload_spec(response@),
{
    let payload = shadow_response_payload(response);
    let line = status_line(response);
    proof {
        reveal_strlit("HTTP/");
    }
    if starts_with(line, "HTTP/") && !shadow_accepted(response) {
        Err(JournalError::Rejected { status_line: line.to_owned(), body: payload })
    } else {
        Ok(journal_reply(payload.as_str()))
    }
}

} // verus!
