//! What widgets share when an agent drives them: matching action names,
//! the reply to an action that a widget does not know, and the JSON
//! replies themselves.

use vstd::prelude::*;
use crate::ontology::action::AgentAction;
use crate::ontology::json::{
    entries_view, json_as_str, json_as_u64, json_from_entries, json_from_string, json_from_values,
    json_from_opt_u64, json_get, json_get_field, json_of_array, json_of_entries, json_of_opt_u64,
    json_of_str, json_str, json_type_of, json_u64, JsonType,
};

verus! {

broadcast use vstd::string::group_string_axioms;

/// The view of an action's reply: the JSON value, or the error text.
pub open spec fn reply_view(r: Result<serde_json::Value, String>) -> Result<
    serde_json::Value,
    Seq<char>,
> {
    match r {
        Ok(v) => Ok(v),
        Err(e) => Err(e@),
    }
}

/// The error text for an action that a widget does not know.
pub open spec fn unknown_action_text(action: Seq<char>) -> Seq<char> {
    "Unknown action: "@ + action
}

/// A refused action is answered with "Unknown action: " followed by the
/// action's name, so the name can be read back from the message.
pub proof fn lemma_unknown_action_text(action: Seq<char>)
    ensures
        unknown_action_text(action) == "Unknown action: "@ + action,
        unknown_action_text(action).len() == 16 + action.len(),
        unknown_action_text(action).subrange(16, 16 + action.len() as int) == action,
{
    reveal_strlit("Unknown action: ");
    assert(("Unknown action: "@ + action).subrange(16, 16 + action.len() as int) =~= action);
}

/// `a` describes a parameterless action with this name, description and
/// mutability, as `AgentAction::simple` builds it.
pub open spec fn is_simple_action(
    a: AgentAction,
    name: Seq<char>,
    description: Seq<char>,
    mutates: bool,
) -> bool {
    &&& a.name@ == name
    &&& a.description@ == description
    &&& a.params@.len() == 0
    &&& a.returns is None
    &&& a.mutates == mutates
    &&& a.idempotent == !mutates
    &&& a.shortcut is None
}

/// The unsigned integer that an agent passed under `key`, if the member
/// is there and holds one.
pub open spec fn u64_param(params: serde_json::Value, key: Seq<char>) -> Option<u64> {
    match json_get(params, key) {
        Some(v) => json_u64(v),
        None => None,
    }
}

/// The text that an agent passed under `key`, if the member is there and
/// is a string.
pub open spec fn str_param(params: serde_json::Value, key: Seq<char>) -> Option<Seq<char>> {
    match json_get(params, key) {
        Some(v) => if json_type_of(v) == JsonType::Str {
            Some(json_str(v))
        } else {
            None
        },
        None => None,
    }
}

/// The JSON array of the given strings, in order.
pub open spec fn strings_json(items: Seq<String>) -> serde_json::Value {
    json_of_array(items.map_values(|s: String| json_of_str(s@)))
}

/// An optional index as a JSON value: `null`, or the number.
pub open spec fn index_json(index: Option<usize>) -> serde_json::Value {
    json_of_opt_u64(
        match index {
            Some(i) => Some(i as u64),
            None => None,
        },
    )
}

/// A parameter is read from the member under its key: a number that is a
/// `u64` for an index, a JSON string for a text; a missing member, or one
/// of another kind, reads as absent.
pub proof fn lemma_params_read(params: serde_json::Value, key: Seq<char>)
    ensures
        json_get(params, key) is None ==> u64_param(params, key) is None && str_param(params, key) is None,
        json_get(params, key) matches Some(x) ==> (u64_param(params, key) == json_u64(x) && (
        str_param(params, key) == if json_type_of(x) == JsonType::Str {
            Some(json_str(x))
        } else {
            None
        })),
{
}

/// An optional index is shown as `null` when absent and as the number
/// otherwise; a list of strings as the array of those strings, in order.
pub proof fn lemma_index_and_strings_json(index: usize, items: Seq<String>)
    ensures
        index_json(None) == json_of_opt_u64(None),
        index_json(Some(index)) == json_of_opt_u64(Some(index as u64)),
        strings_json(items) == json_of_array(Seq::new(items.len(), |i: int| json_of_str(items[i]@))),
{
    assert(items.map_values(|s: String| json_of_str(s@)) =~= Seq::new(
        items.len(),
        |i: int| json_of_str(items[i]@),
    ));
}

/// An optional index as a JSON value (see `index_json`).
pub fn json_index(index: Option<usize>) -> (r: serde_json::Value)
    ensures
        r == index_json(index),
{
    let o = match index {
        Some(i) => Some(i as u64),
        None => None,
    };
    json_from_opt_u64(o)
}

/// Reads an unsigned integer parameter (see `u64_param`).
pub fn read_u64_param(params: &serde_json::Value, key: &str) -> (r: Option<u64>)
    ensures
        r == u64_param(*params, key@),
{
    match json_get_field(params, key) {
        Some(v) => json_as_u64(v),
        None => None,
    }
}

/// Reads a string parameter (see `str_param`).
pub fn read_str_param<'a>(params: &'a serde_json::Value, key: &str) -> (r: Option<&'a str>)
    ensures
        match r {
            Some(s) => str_param(*params, key@) == Some(s@),
            None => str_param(*params, key@) is None,
        },
{
    match json_get_field(params, key) {
        Some(v) => json_as_str(v),
        None => None,
    }
}

/// The JSON array of the given strings (see `strings_json`).
pub fn json_strings(items: &Vec<String>) -> (r: serde_json::Value)
    ensures
        r == strings_json(items@),
{
    let mut out: Vec<serde_json::Value> = Vec::new();
    let mut i: usize = 0;
    while i < items.len()
        invariant
            i <= items@.len(),
            out@ =~= items@.subrange(0, i as int).map_values(|s: String| json_of_str(s@)),
        decreases items.len() - i,
    {
        out.push(json_text(items[i].as_str()));
        proof {
            assert(items@.subrange(0, i + 1) =~= items@.subrange(0, i as int).push(items@[i as int]));
        }
        i = i + 1;
    }
    proof {
        assert(items@.subrange(0, items@.len() as int) =~= items@);
    }
    json_from_values(out)
}

/// Whether two strings hold the same text.
pub fn same_text(a: &str, b: &str) -> (r: bool)
    ensures
        r == (a@ == b@),
{
    let x = a.to_owned();
    let y = b.to_owned();
    x == y
}

/// The reply to an action that a widget does not know.
pub fn unknown_action(action: &str) -> (r: String)
    ensures
        r@ == unknown_action_text(action@),
{
    let mut s = "Unknown action: ".to_owned();
    s.push_str(action);
    s
}

/// A key of a JSON object paired with its value.
pub fn entry(key: &str, value: serde_json::Value) -> (r: (String, serde_json::Value))
    ensures
        r.0@ == key@,
        r.1 == value,
{
    (key.to_owned(), value)
}

/// The JSON object `{k1: v1}`.
pub fn object1(k1: &str, v1: serde_json::Value) -> (r: serde_json::Value)
    ensures
        r == json_of_entries(seq![(k1@, v1)]),
{
    let e = vec![entry(k1, v1)];
    proof {
        assert(entries_view(e@) =~= seq![(k1@, v1)]);
    }
    json_from_entries(e)
}

/// The JSON object `{k1: v1, k2: v2}`.
pub fn object2(k1: &str, v1: serde_json::Value, k2: &str, v2: serde_json::Value) -> (r:
    serde_json::Value)
    ensures
        r == json_of_entries(seq![(k1@, v1), (k2@, v2)]),
{
    let e = vec![entry(k1, v1), entry(k2, v2)];
    proof {
        assert(entries_view(e@) =~= seq![(k1@, v1), (k2@, v2)]);
    }
    json_from_entries(e)
}

/// The JSON object `{k1: v1, k2: v2, k3: v3}`.
pub fn object3(
    k1: &str,
    v1: serde_json::Value,
    k2: &str,
    v2: serde_json::Value,
    k3: &str,
    v3: serde_json::Value,
) -> (r: serde_json::Value)
    ensures
        r == json_of_entries(seq![(k1@, v1), (k2@, v2), (k3@, v3)]),
{
    let e = vec![entry(k1, v1), entry(k2, v2), entry(k3, v3)];
    proof {
        assert(entries_view(e@) =~= seq![(k1@, v1), (k2@, v2), (k3@, v3)]);
    }
    json_from_entries(e)
}

/// The JSON object `{k1: v1, k2: v2, k3: v3, k4: v4}`.
pub fn object4(
    k1: &str,
    v1: serde_json::Value,
    k2: &str,
    v2: serde_json::Value,
    k3: &str,
    v3: serde_json::Value,
    k4: &str,
    v4: serde_json::Value,
) -> (r: serde_json::Value)
    ensures
        r == json_of_entries(seq![(k1@, v1), (k2@, v2), (k3@, v3), (k4@, v4)]),
{
    let e = vec![entry(k1, v1), entry(k2, v2), entry(k3, v3), entry(k4, v4)];
    proof {
        assert(entries_view(e@) =~= seq![(k1@, v1), (k2@, v2), (k3@, v3), (k4@, v4)]);
    }
    json_from_entries(e)
}

/// The JSON object `{k1: v1, k2: v2, k3: v3, k4: v4, k5: v5}`.
pub fn object5(
    k1: &str,
    v1: serde_json::Value,
    k2: &str,
    v2: serde_json::Value,
    k3: &str,
    v3: serde_json::Value,
    k4: &str,
    v4: serde_json::Value,
    k5: &str,
    v5: serde_json::Value,
) -> (r: serde_json::Value)
    ensures
        r == json_of_entries(seq![(k1@, v1), (k2@, v2), (k3@, v3), (k4@, v4), (k5@, v5)]),
{
    let e = vec![entry(k1, v1), entry(k2, v2), entry(k3, v3), entry(k4, v4), entry(k5, v5)];
    proof {
        assert(entries_view(e@) =~= seq![(k1@, v1), (k2@, v2), (k3@, v3), (k4@, v4), (k5@, v5)]);
    }
    json_from_entries(e)
}

/// A JSON string holding `s`.
pub fn json_text(s: &str) -> (r: serde_json::Value)
    ensures
        r == crate::ontology::json::json_of_str(s@),
{
    json_from_string(s.to_owned())
}

} // verus!
