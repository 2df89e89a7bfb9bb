//! JSON text: parsing (by serde_json) into a value the library can read, and text
//! assembly. String literals are written by serde_json; the objects and arrays
//! around them are assembled here, keys in the order serde_json emits them.

use vstd::prelude::*;
use serde_json::Value;

use crate::text::{str_equals, string_push};

verus! {

#[verifier::external_type_specification]
#[verifier::external_body]
pub struct ExJsonError(serde_json::Error);

/// A hexadecimal digit, in lower case, as serde_json writes it.
pub open spec fn hex_digit(d: nat) -> char {
    if d < 10 {
        (48 + d) as char
    } else {
        (87 + d) as char
    }
}

/// What serde_json writes for one character inside a string literal: `"` and `\`
/// behind a backslash, the short escapes of backspace, tab, line feed, form feed and
/// carriage return, `\u00` and two hex digits for the other control characters
/// below U+0020, and any other character as it is.
pub open spec fn json_escape(c: char) -> Seq<char> {
    if c == '"' {
        seq!['\\', '"']
    } else if c == '\\' {
        seq!['\\', '\\']
    } else if c == '\u{8}' {
        seq!['\\', 'b']
    } else if c == '\t' {
        seq!['\\', 't']
    } else if c == '\n' {
        seq!['\\', 'n']
    } else if c == '\u{c}' {
        seq!['\\', 'f']
    } else if c == '\r' {
        seq!['\\', 'r']
    } else if (c as u32) < 0x20 {
        seq!['\\', 'u', '0', '0', hex_digit((c as u32 / 16) as nat), hex_digit((c as u32 % 16) as nat)]
    } else {
        seq![c]
    }
}

/// The characters of `s`, each escaped as serde_json writes it.
pub open spec fn escaped_chars(s: Seq<char>) -> Seq<char>
    decreases s.len(),
{
    if s.len() == 0 {
        Seq::empty()
    } else {
        escaped_chars(s.drop_last()) + json_escape(s.last())
    }
}

/// The JSON string literal that `serde_json::to_string` writes for a string with the
/// characters `s`: the escaped characters between double quotes.
pub open spec fn json_string_literal(s: Seq<char>) -> Seq<char> {
    seq!['"'] + escaped_chars(s) + seq!['"']
}

/// Trusted: `serde_json::to_string` applied to a `str`. It succeeds: a `str`
/// serializes without error into the in-memory buffer that `to_string` writes to,
/// whose writes cannot fail. Its text is the string literal with serde_json's
/// escapes (see [`json_escape`]), as `format_escaped_str` and its escape table write
/// them with the compact formatter.
#[verifier::external_body]
fn serde_string_literal(s: &str) -> (r: Result<String, serde_json::Error>)
    ensures
        r is Ok,
        r matches Ok(t) ==> t@ == json_string_literal(s@),
{
    serde_json::to_string(s)
}

/// Appends the JSON string literal of `s` to `out`.
pub fn push_string_literal(out: &mut String, s: &str)
    ensures
        final(out)@ == old(out)@ + json_string_literal(s@),
{
    match serde_string_literal(s) {
        Ok(t) => out.append(t.as_str()),
        Err(_) => {},
    }
}


// ---------------------------------------------------------------------------
// JSON values
// ---------------------------------------------------------------------------

/// A parsed JSON value. A number is kept as the text serde_json writes for it; an
/// object keeps its members in serde_json's map order.
#[derive(Debug)]
pub enum Json {
    Null,
    Bool(bool),
    Number(String),
    Str(String),
    Array(Vec<Json>),
    Object(Vec<(String, Json)>),
}

/// The view of a JSON value.
pub enum JsonView {
    Null,
    Bool(bool),
    Number(Seq<char>),
    Str(Seq<char>),
    Array(Seq<JsonView>),
    Object(Seq<(Seq<char>, JsonView)>),
}

/// The view of a JSON value.
pub open spec fn json_view(j: Json) -> JsonView
    decreases j, 0int,
{
    match j {
        Json::Null => JsonView::Null,
        Json::Bool(b) => JsonView::Bool(b),
        Json::Number(t) => JsonView::Number(t@),
        Json::Str(t) => JsonView::Str(t@),
        Json::Array(items) => JsonView::Array(items_view(items@)),
        Json::Object(members) => JsonView::Object(members_view(members@)),
    }
}

/// The views of a list of JSON values.
pub open spec fn items_view(items: Seq<Json>) -> Seq<JsonView>
    decreases items, 1int,
{
    if items.len() == 0 {
        Seq::empty()
    } else {
        items_view(items.subrange(0, items.len() - 1)).push(json_view(items[items.len() - 1]))
    }
}

/// The views of a list of object members.
pub open spec fn members_view(members: Seq<(String, Json)>) -> Seq<(Seq<char>, JsonView)>
    decreases members, 1int,
{
    if members.len() == 0 {
        Seq::empty()
    } else {
        members_view(members.subrange(0, members.len() - 1)).push(
            (members[members.len() - 1].0@, json_view(members[members.len() - 1].1)),
        )
    }
}

impl View for Json {
    type V = JsonView;

    open spec fn view(&self) -> JsonView {
        json_view(*self)
    }
}

/// An optional JSON value, viewed.
pub open spec fn opt_json_view(o: Option<Json>) -> Option<JsonView> {
    match o {
        Some(j) => Some(j@),
        None => None,
    }
}

/// The compact JSON text of a value, as serde_json writes a `Value`: `null`,
/// `true`/`false`, a number's text, a string literal, and arrays and objects with
/// their elements (members `"key":value`) separated by commas and no white space.
pub open spec fn json_text(v: JsonView) -> Seq<char>
    decreases v, 0int,
{
    match v {
        JsonView::Null => "null"@,
        JsonView::Bool(b) => if b {
            "true"@
        } else {
            "false"@
        },
        JsonView::Number(t) => t,
        JsonView::Str(t) => json_string_literal(t),
        JsonView::Array(items) => seq!['['] + items_text(items) + seq![']'],
        JsonView::Object(members) => seq!['{'] + members_text(members) + seq!['}'],
    }
}

/// The texts of array elements, separated by commas.
pub open spec fn items_text(items: Seq<JsonView>) -> Seq<char>
    decreases items, 1int,
{
    if items.len() == 0 {
        Seq::empty()
    } else {
        let pre = items.subrange(0, items.len() - 1);
        let last = json_text(items[items.len() - 1]);
        if pre.len() == 0 {
            last
        } else {
            items_text(pre) + seq![','] + last
        }
    }
}

/// The texts of object members (`"key":value`), separated by commas.
pub open spec fn members_text(members: Seq<(Seq<char>, JsonView)>) -> Seq<char>
    decreases members, 1int,
{
    if members.len() == 0 {
        Seq::empty()
    } else {
        let pre = members.subrange(0, members.len() - 1);
        let m = members[members.len() - 1];
        let last = json_string_literal(m.0) + seq![':'] + json_text(m.1);
        if pre.len() == 0 {
            last
        } else {
            members_text(pre) + seq![','] + last
        }
    }
}

/// A list of values has as many views as values.
pub proof fn lemma_items_view_len(items: Seq<Json>)
    ensures
        items_view(items).len() == items.len(),
    decreases items.len(),
{
    if items.len() > 0 {
        lemma_items_view_len(items.subrange(0, items.len() - 1));
    }
}

/// A list of members has as many views as members.
pub proof fn lemma_members_view_len(members: Seq<(String, Json)>)
    ensures
        members_view(members).len() == members.len(),
    decreases members.len(),
{
    if members.len() > 0 {
        lemma_members_view_len(members.subrange(0, members.len() - 1));
    }
}

/// Writes the compact JSON text of `j` (see [`json_text`]).
pub fn write_json_text(out: &mut String, j: &Json)
    ensures
        final(out)@ == old(out)@ + json_text(j@),
    decreases j,
{
    match j {
        Json::Null => {
            out.append("null");
            proof {
                reveal_strlit("null");
            }
        },
        Json::Bool(b) => {
            if *b {
                out.append("true");
            } else {
                out.append("false");
            }
        },
        Json::Number(t) => out.append(t.as_str()),
        Json::Str(t) => push_string_literal(out, t.as_str()),
        Json::Array(items) => {
            string_push(out, '[');
            let ghost start = out@;
            let mut i: usize = 0;
            while i < items.len()
                invariant
                    i <= items@.len(),
                    *j == Json::Array(*items),
                    out@ == start + items_text(items_view(items@.subrange(0, i as int))),
                decreases items@.len() - i,
            {
                if i > 0 {
                    string_push(out, ',');
                }
                proof {
                    assert(decreases_to!(*j => (*j)->Array_0));
                    assert(decreases_to!(*items => items@));
                    assert(decreases_to!(items@ => items@[i as int]));
                }
                write_json_text(out, &items[i]);
                proof {
                    let pre = items@.subrange(0, i as int);
                    let s = items@.subrange(0, i + 1);
                    assert(s.subrange(0, i as int) =~= pre);
                    lemma_items_view_len(pre);
                    let vs = items_view(s);
                    assert(vs.subrange(0, i as int) =~= items_view(pre));
                    assert(vs[i as int] == json_view(items@[i as int]));
                }
                i = i + 1;
            }
            assert(items@.subrange(0, items@.len() as int) =~= items@);
            string_push(out, ']');
        },
        Json::Object(members) => {
            string_push(out, '{');
            let ghost start = out@;
            let mut i: usize = 0;
            while i < members.len()
                invariant
                    i <= members@.len(),
                    *j == Json::Object(*members),
                    out@ == start + members_text(members_view(members@.subrange(0, i as int))),
                decreases members@.len() - i,
            {
                if i > 0 {
                    string_push(out, ',');
                }
                push_string_literal(out, members[i].0.as_str());
                string_push(out, ':');
                proof {
                    assert(decreases_to!(*j => (*j)->Object_0));
                    assert(decreases_to!(*members => members@));
                    assert(decreases_to!(members@ => members@[i as int]));
                    assert(decreases_to!(members@[i as int] => members@[i as int].1));
                }
                write_json_text(out, &members[i].1);
                proof {
                    let pre = members@.subrange(0, i as int);
                    let s = members@.subrange(0, i + 1);
                    assert(s.subrange(0, i as int) =~= pre);
                    lemma_members_view_len(pre);
                    let vs = members_view(s);
                    assert(vs.subrange(0, i as int) =~= members_view(pre));
                    assert(vs[i as int] == (members@[i as int].0@, json_view(members@[i as int].1)));
                }
                i = i + 1;
            }
            assert(members@.subrange(0, members@.len() as int) =~= members@);
            string_push(out, '}');
        },
    }
}

/// The compact JSON text of `j` (see [`json_text`]).
pub fn json_text_of(j: &Json) -> (r: String)
    ensures
        r@ == json_text(j@),
{
    let mut out = String::new();
    write_json_text(&mut out, j);
    out
}


// ---------------------------------------------------------------------------
// Parsing
// ---------------------------------------------------------------------------

#[verifier::external_type_specification]
#[verifier::external_body]
pub struct ExJsonValue(Value);

/// What `serde_json::from_slice::<Value>` parses from `bytes`, converted one for one
/// to a [`Json`] (see [`parse_json`]); `None` where the bytes are not one JSON
/// document.
pub uninterp spec fn parsed_json(bytes: Seq<u8>) -> Option<JsonView>;

/// Trusted, the conversion half of [`parse_json`]: a serde_json `Value` becomes the
/// `Json` of the same shape, one variant for one, a number becoming the text its
/// `Display` writes and an object's members kept in the map's order. Nothing is
/// claimed here; [`parsed_json`] names the parse and this conversion together.
#[verifier::external_body]
fn json_of_value(v: &Value) -> Json {
    match v {
        Value::Null => Json::Null,
        Value::Bool(b) => Json::Bool(*b),
        Value::Number(n) => Json::Number(n.to_string()),
        Value::String(t) => Json::Str(t.clone()),
        Value::Array(items) => Json::Array(items.iter().map(json_of_value).collect()),
        Value::Object(members) => Json::Object(
            members.iter().map(|(k, m)| (k.clone(), json_of_value(m))).collect(),
        ),
    }
}

/// Trusted: `serde_json::from_slice::<Value>`, its error turned into `None` and its
/// value converted by [`json_of_value`]. The result is named by [`parsed_json`]: it
/// depends on the bytes alone.
#[verifier::external_body]
pub(crate) fn parse_json(bytes: &[u8]) -> (r: Option<Json>)
    ensures
        opt_json_view(r) == parsed_json(bytes@),
{
    serde_json::from_slice::<Value>(bytes).ok().map(|v| json_of_value(&v))
}

/// The member named `key` among an object's members: the first one with that name.
pub open spec fn member(members: Seq<(Seq<char>, JsonView)>, key: Seq<char>) -> Option<JsonView>
    decreases members.len(),
{
    if members.len() == 0 {
        None
    } else if members[0].0 == key {
        Some(members[0].1)
    } else {
        member(members.drop_first(), key)
    }
}

/// The member named `key` of `v` when `v` is an object.
pub open spec fn get_member(v: JsonView, key: Seq<char>) -> Option<JsonView> {
    match v {
        JsonView::Object(members) => member(members, key),
        _ => None,
    }
}

/// The view of each member is its name's view and its value's view.
pub proof fn lemma_members_view_index(members: Seq<(String, Json)>)
    ensures
        members_view(members).len() == members.len(),
        forall|k: int|
            0 <= k < members.len() ==> #[trigger] members_view(members)[k] == (
                members[k].0@,
                json_view(members[k].1),
            ),
    decreases members.len(),
{
    if members.len() > 0 {
        let pre = members.subrange(0, members.len() - 1);
        lemma_members_view_index(pre);
        assert forall|k: int| 0 <= k < members.len() implies #[trigger] members_view(members)[k] == (
            members[k].0@,
            json_view(members[k].1),
        ) by {
            if k < members.len() - 1 {
                assert(pre[k] == members[k]);
            }
        }
    }
}

/// The member named `key` among `members` (see [`member`]).
pub fn find_member<'a>(members: &'a Vec<(String, Json)>, key: &str) -> (r: Option<&'a Json>)
    ensures
        opt_json_view(
            match r {
                Some(j) => Some(*j),
                None => None,
            },
        ) == member(members_view(members@), key@),
{
    let ghost mv = members_view(members@);
    proof {
        lemma_members_view_index(members@);
    }
    let mut i: usize = 0;
    assert(mv.skip(0) =~= mv);
    while i < members.len()
        invariant
            i <= members@.len(),
            mv == members_view(members@),
            mv.len() == members@.len(),
            forall|k: int|
                0 <= k < members@.len() ==> #[trigger] mv[k] == (members@[k].0@, json_view(members@[k].1)),
            member(mv, key@) == member(mv.skip(i as int), key@),
        decreases members@.len() - i,
    {
        assert(mv.skip(i as int)[0] == mv[i as int]);
        if str_equals(members[i].0.as_str(), key) {
            return Some(&members[i].1);
        }
        assert(mv.skip(i as int).drop_first() =~= mv.skip(i + 1));
        i = i + 1;
    }
    None
}

/// The member named `key` of `j` when `j` is an object (see [`get_member`]).
pub fn json_member<'a>(j: &'a Json, key: &str) -> (r: Option<&'a Json>)
    ensures
        opt_json_view(
            match r {
                Some(m) => Some(*m),
                None => None,
            },
        ) == get_member(j@, key@),
{
    match j {
        Json::Object(members) => find_member(members, key),
        _ => None,
    }
}

} // verus!
