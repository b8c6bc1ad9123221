//! JSON values as the library sees them through its calls into
//! `serde_json`: reading the parameters that agents pass, building the
//! states and replies that widgets give, and writing and reading JSON text.

use vstd::prelude::*;

verus! {

#[verifier::external_type_specification]
#[verifier::external_body]
pub struct ExJsonValue(serde_json::Value);

/// The variant of a JSON value.
#[derive(Debug, Clone, Copy, PartialEq, Eq, Structural)]
pub enum JsonType {
    Null,
    Bool,
    Number,
    Str,
    Array,
    Object,
}

/// The variant of a JSON value (what matching on `serde_json::Value` finds).
pub uninterp spec fn json_type_of(v: serde_json::Value) -> JsonType;

/// What `serde_json::Value::is_i64` returns for `v`.
pub uninterp spec fn json_is_i64(v: serde_json::Value) -> bool;

/// What `serde_json::Value::is_u64` returns for `v`.
pub uninterp spec fn json_is_u64(v: serde_json::Value) -> bool;

/// The text of a JSON string value, as `serde_json::Value::as_str` gives it.
pub uninterp spec fn json_str(v: serde_json::Value) -> Seq<char>;

/// What `serde_json::Value::get` finds under `key`.
pub uninterp spec fn json_get(v: serde_json::Value, key: Seq<char>) -> Option<serde_json::Value>;

/// The text that `{:?}` formatting gives for a string: the string quoted,
/// with special characters escaped.
pub uninterp spec fn debug_quoted(s: Seq<char>) -> Seq<char>;

/// Tells the variants of a `serde_json::Value` apart.
#[verifier::external_body]
pub(crate) fn json_type(v: &serde_json::Value) -> (r: JsonType)
    ensures
        r == json_type_of(*v),
{
    match v {
        serde_json::Value::Null => JsonType::Null,
        serde_json::Value::Bool(_) => JsonType::Bool,
        serde_json::Value::Number(_) => JsonType::Number,
        serde_json::Value::String(_) => JsonType::Str,
        serde_json::Value::Array(_) => JsonType::Array,
        serde_json::Value::Object(_) => JsonType::Object,
    }
}

/// `serde_json::Value::is_i64`: true for numbers that fit in `i64`
/// (never for other variants).
#[verifier::external_body]
pub(crate) fn json_is_i64_value(v: &serde_json::Value) -> (r: bool)
    ensures
        r == json_is_i64(*v),
        r ==> json_type_of(*v) == JsonType::Number,
{
    v.is_i64()
}

/// `serde_json::Value::is_u64`: true for numbers that are integers in
/// `0..=u64::MAX` (never for other variants).
#[verifier::external_body]
pub(crate) fn json_is_u64_value(v: &serde_json::Value) -> (r: bool)
    ensures
        r == json_is_u64(*v),
        r ==> json_type_of(*v) == JsonType::Number,
{
    v.is_u64()
}

/// `serde_json::Value::as_str`: the text of a `String` value, `None` for
/// every other variant.
#[verifier::external_body]
pub(crate) fn json_as_str(v: &serde_json::Value) -> (r: Option<&str>)
    ensures
        r is Some <==> json_type_of(*v) == JsonType::Str,
        r matches Some(s) ==> s@ == json_str(*v),
{
    v.as_str()
}

/// `serde_json::Value::get` with a string key: the member of an object
/// under `key`; `None` when there is none or `v` is not an object.
#[verifier::external_body]
pub(crate) fn json_get_field<'a>(v: &'a serde_json::Value, key: &str) -> (r: Option<&'a serde_json::Value>)
    ensures
        match r {
            None => json_get(*v, key@) is None,
            Some(x) => json_get(*v, key@) == Some(*x),
        },
        r is Some ==> json_type_of(*v) == JsonType::Object,
{
    v.get(key)
}

/// What `serde_json::Value::as_u64` returns for `v`.
pub uninterp spec fn json_u64(v: serde_json::Value) -> Option<u64>;

/// The value that `serde_json::Value::from` builds from a `bool`.
pub uninterp spec fn json_of_bool(b: bool) -> serde_json::Value;

/// The value that `serde_json::Value::from` builds from a `u64`.
pub uninterp spec fn json_of_u64(n: u64) -> serde_json::Value;

/// The value that `serde_json::Value::from` builds from an `Option<u64>`.
pub uninterp spec fn json_of_opt_u64(o: Option<u64>) -> serde_json::Value;

/// The value that `serde_json::Value::from` builds from a `String`.
pub uninterp spec fn json_of_str(s: Seq<char>) -> serde_json::Value;

/// The value that `serde_json::Value::from` builds from an `Option<String>`.
pub uninterp spec fn json_of_opt_str(o: Option<Seq<char>>) -> serde_json::Value;

/// The value that `serde_json::Value::from` builds from a `Vec` of values.
pub uninterp spec fn json_of_array(items: Seq<serde_json::Value>) -> serde_json::Value;

/// The object that collecting key/value pairs into a `serde_json::Value` builds.
pub uninterp spec fn json_of_entries(entries: Seq<(Seq<char>, serde_json::Value)>) -> serde_json::Value;

/// The compact JSON text that `serde_json` writes for `v`.
pub uninterp spec fn json_text_of(v: serde_json::Value) -> Seq<char>;

/// The value that `serde_json::from_str` reads from the text `s`, `None`
/// when `s` is not a JSON text.
pub uninterp spec fn json_parse_of(s: Seq<char>) -> Option<serde_json::Value>;

/// The keys of an object, in the order `serde_json::Map::keys` lists them;
/// `None` for the other variants.
pub uninterp spec fn json_keys_of(v: serde_json::Value) -> Option<Seq<Seq<char>>>;

/// Whether `v` is a string, or an object with a single key whose value is
/// a string or an unsigned integer: values that `serde_json` reads back
/// from the text it writes for them.
pub open spec fn string_or_single_plain_entry(v: serde_json::Value) -> bool {
    ||| json_type_of(v) == JsonType::Str
    ||| (json_keys_of(v) matches Some(ks) && ks.len() == 1 && (json_get(v, ks[0]) matches Some(
        inner,
    ) && (json_type_of(inner) == JsonType::Str || json_is_u64(inner))))
}

/// The key/value pairs of `entries` with the keys taken as text.
pub open spec fn entries_view(entries: Seq<(String, serde_json::Value)>) -> Seq<
    (Seq<char>, serde_json::Value),
> {
    entries.map_values(|e: (String, serde_json::Value)| (e.0@, e.1))
}

/// `serde_json::Value::as_u64`: the number when it is an integer in
/// `0..=u64::MAX`, `None` otherwise (exactly when `is_u64` is false).
#[verifier::external_body]
pub(crate) fn json_as_u64(v: &serde_json::Value) -> (r: Option<u64>)
    ensures
        r == json_u64(*v),
        r is Some <==> json_is_u64(*v),
{
    v.as_u64()
}

/// `serde_json::Value::from(bool)`: a `Bool` value.
#[verifier::external_body]
pub(crate) fn json_from_bool(b: bool) -> (r: serde_json::Value)
    ensures
        r == json_of_bool(b),
        json_type_of(r) == JsonType::Bool,
{
    serde_json::Value::from(b)
}

/// `serde_json::Value::from(u64)`: a `Number` holding `n`.
#[verifier::external_body]
pub(crate) fn json_from_u64(n: u64) -> (r: serde_json::Value)
    ensures
        r == json_of_u64(n),
        json_type_of(r) == JsonType::Number,
        json_is_u64(r),
        json_u64(r) == Some(n),
{
    serde_json::Value::from(n)
}

/// `serde_json::Value::from(Option<u64>)`: `Null` for `None`, the number
/// for `Some`.
#[verifier::external_body]
pub(crate) fn json_from_opt_u64(o: Option<u64>) -> (r: serde_json::Value)
    ensures
        r == json_of_opt_u64(o),
        o matches Some(n) ==> r == json_of_u64(n),
        o is None ==> json_type_of(r) == JsonType::Null,
{
    serde_json::Value::from(o)
}

/// `serde_json::Value::from(String)`: a `String` value holding `s`.
#[verifier::external_body]
pub(crate) fn json_from_string(s: String) -> (r: serde_json::Value)
    ensures
        r == json_of_str(s@),
        json_type_of(r) == JsonType::Str,
        json_str(r) == s@,
{
    serde_json::Value::from(s)
}

/// `serde_json::Value::from(Option<String>)`: `Null` for `None`, the
/// string for `Some`.
#[verifier::external_body]
pub(crate) fn json_from_opt_string(o: Option<String>) -> (r: serde_json::Value)
    ensures
        r == json_of_opt_str(
            match o {
                Some(s) => Some(s@),
                None => None,
            },
        ),
        o matches Some(s) ==> r == json_of_str(s@),
        o is None ==> json_type_of(r) == JsonType::Null,
{
    serde_json::Value::from(o)
}

/// `serde_json::Value::from(Vec<Value>)`: an `Array` of the items, in order.
#[verifier::external_body]
pub(crate) fn json_from_values(items: Vec<serde_json::Value>) -> (r: serde_json::Value)
    ensures
        r == json_of_array(items@),
        json_type_of(r) == JsonType::Array,
{
    serde_json::Value::from(items)
}

/// Collects key/value pairs into a `serde_json::Value`, which is an
/// `Object`; built from a single pair, it has that one key, holding that
/// value. Which value a repeated key keeps is left unsaid.
#[verifier::external_body]
pub(crate) fn json_from_entries(entries: Vec<(String, serde_json::Value)>) -> (r: serde_json::Value)
    ensures
        r == json_of_entries(entries_view(entries@)),
        json_type_of(r) == JsonType::Object,
        entries@.len() == 1 ==> json_keys_of(r) == Some(seq![entries@[0].0@]),
        entries@.len() == 1 ==> json_get(r, entries@[0].0@) == Some(entries@[0].1),
{
    entries.into_iter().collect()
}

/// `serde_json::Value`'s `Display`: the compact JSON text of `v`. For a
/// string, or an object with one key holding a string or an unsigned
/// integer, reading the text with `serde_json::from_str` gives `v` back
/// (strings are escaped and unescaped, integers written and read in
/// decimal); nothing is said of this for other values.
#[verifier::external_body]
pub(crate) fn json_to_text(v: &serde_json::Value) -> (r: String)
    ensures
        r@ == json_text_of(*v),
        string_or_single_plain_entry(*v) ==> json_parse_of(r@) == Some(*v),
{
    v.to_string()
}

/// `serde_json::from_str` into a `serde_json::Value`: the value that the
/// text holds, `None` where the text is not JSON.
#[verifier::external_body]
pub(crate) fn json_parse(s: &str) -> (r: Option<serde_json::Value>)
    ensures
        r == json_parse_of(s@),
{
    serde_json::from_str(s).ok()
}

/// `serde_json::Map::keys` of an object value: its keys, `None` for the
/// other variants.
#[verifier::external_body]
pub(crate) fn json_object_keys(v: &serde_json::Value) -> (r: Option<Vec<String>>)
    ensures
        match r {
            Some(ks) => json_keys_of(*v) == Some(ks@.map_values(|k: String| k@)),
            None => json_keys_of(*v) is None,
        },
        r is Some <==> json_type_of(*v) == JsonType::Object,
{
    match v {
        serde_json::Value::Object(m) => Some(m.keys().cloned().collect()),
        serde_json::Value::Null => None,
        serde_json::Value::Bool(_) => None,
        serde_json::Value::Number(_) => None,
        serde_json::Value::String(_) => None,
        serde_json::Value::Array(_) => None,
    }
}

/// `{:?}` formatting of a string.
#[verifier::external_body]
pub(crate) fn debug_text(s: &str) -> (r: String)
    ensures
        r@ == debug_quoted(s@),
{
    format!("{:?}", s)
}

} // verus!
