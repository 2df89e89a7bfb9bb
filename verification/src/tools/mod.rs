//! The tools the server offers, and the parameters they read.


pub mod journal;
pub mod overlay_events;
pub mod wait;


use vstd::prelude::*;

use crate::text::str_equals;

verus! {

/// A tool parameter's value, as far as the tools read it: a string, a boolean, an
/// integer that fits in an `i64`, or anything else (null, other numbers, arrays,
/// objects).
#[derive(Debug, Clone)]
pub enum ParamValue {
    Str(String),
    Bool(bool),
    Int(i64),
    Other,
}

/// The parameters of a tool call: the members of its arguments object, keys unique.
/// Arguments that are not an object have no members.
#[derive(Debug, Clone)]
pub struct Params {
    pub entries: Vec<(String, ParamValue)>,
}

/// The value of the first member named `key`.
pub open spec fn lookup_param(entries: Seq<(String, ParamValue)>, key: Seq<char>) -> Option<
    ParamValue,
>
    decreases entries.len(),
{
    if entries.len() == 0 {
        None
    } else if entries[0].0@ == key {
        Some(entries[0].1)
    } else {
        lookup_param(entries.drop_first(), key)
    }
}

/// The string parameter `key`, when it is present and a string.
pub open spec fn str_param_spec(params: Params, key: Seq<char>) -> Option<Seq<char>> {
    match lookup_param(params.entries@, key) {
        Some(ParamValue::Str(s)) => Some(s@),
        _ => None,
    }
}

/// The boolean parameter `key`, or `default` when it is absent or not a boolean.
pub open spec fn bool_param_spec(params: Params, key: Seq<char>, default: bool) -> bool {
    match lookup_param(params.entries@, key) {
        Some(ParamValue::Bool(b)) => b,
        _ => default,
    }
}

/// The integer parameter `key`, or `default` when it is absent or not an `i64`.
pub open spec fn int_param_spec(params: Params, key: Seq<char>, default: i64) -> i64 {
    match lookup_param(params.entries@, key) {
        Some(ParamValue::Int(n)) => n,
        _ => default,
    }
}

fn find_param<'a>(params: &'a Params, key: &str) -> (r: Option<&'a ParamValue>)
    ensures
        match r {
            Some(v) => lookup_param(params.entries@, key@) == Some(*v),
            None => lookup_param(params.entries@, key@) is None,
        },
{
    let n = params.entries.len();
    let mut i: usize = 0;
    assert(params.entries@.skip(0) =~= params.entries@);
    while i < n
        invariant
            n == params.entries@.len(),
            i <= n,
            lookup_param(params.entries@, key@) == lookup_param(
                params.entries@.skip(i as int),
                key@,
            ),
        decreases n - i,
    {
        assert(params.entries@.skip(i as int)[0] == params.entries@[i as int]);
        if str_equals(params.entries[i].0.as_str(), key) {
            return Some(&params.entries[i].1);
        }
        assert(params.entries@.skip(i as int).drop_first() =~= params.entries@.skip(i + 1));
        i = i + 1;
    }
    None
}

/// The string parameter `key`, when it is present and a string.
pub fn str_param<'a>(params: &'a Params, key: &str) -> (r: Option<&'a str>)
    ensures
        crate::text::opt_view(r) == str_param_spec(*params, key@),
{
    match find_param(params, key) {
        Some(ParamValue::Str(s)) => Some(s.as_str()),
        _ => None,
    }
}

/// The boolean parameter `key`, or `default` when it is absent or not a boolean.
pub fn bool_param(params: &Params, key: &str, default: bool) -> (r: bool)
    ensures
        r == bool_param_spec(*params, key@, default),
{
    match find_param(params, key) {
        Some(ParamValue::Bool(b)) => *b,
        _ => default,
    }
}

/// The integer parameter `key`, or `default` when it is absent or not an `i64`.
pub fn int_param(params: &Params, key: &str, default: i64) -> (r: i64)
    ensures
        r == int_param_spec(*params, key@, default),
{
    match find_param(params, key) {
        Some(ParamValue::Int(n)) => *n,
        _ => default,
    }
}

} // verus!
