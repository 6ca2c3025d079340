//! The JSON and TOML documents that project manifests are written in.
//!
//! `serde_json` and `toml` parse the text; the library holds the result as a
//! value of its own and reads it with verified code.

use vstd::prelude::*;
use crate::text::{find_map, lemma_find_map_end, lemma_find_map_hit, lemma_find_map_skip,
    lemma_find_map_start, str_eq};

verus! {

#[verifier::external_type_specification]
#[verifier::external_body]
pub struct ExSerdeJsonValue(serde_json::Value);

#[verifier::external_type_specification]
#[verifier::external_body]
pub struct ExTomlValue(toml::Value);

/// A JSON value, one for one with `serde_json::Value`; numbers are kept as
/// the text serde_json writes for them, objects as their entries in the order
/// serde_json keeps them.
#[derive(Debug)]
pub enum JsonValue {
    Null,
    Bool(bool),
    Number(String),
    Str(String),
    Array(Vec<JsonValue>),
    Object(Vec<(String, JsonValue)>),
}

/// A TOML value, one for one with `toml::Value`; floats and datetimes are
/// kept as the text toml writes for them, tables as their entries in the
/// order toml keeps them.
#[derive(Debug)]
pub enum TomlValue {
    Str(String),
    Integer(i64),
    Float(String),
    Boolean(bool),
    Datetime(String),
    Array(Vec<TomlValue>),
    Table(Vec<(String, TomlValue)>),
}

/// What `serde_json` makes of a text: the value, or the text of its error.
pub uninterp spec fn json_document(text: Seq<char>) -> Result<JsonValue, Seq<char>>;

/// What `toml` makes of a text: the value, or the text of its error.
pub uninterp spec fn toml_document(text: Seq<char>) -> Result<TomlValue, Seq<char>>;

/// Converts a `serde_json::Value` into a `JsonValue`, variant by variant.
#[verifier::external_body]
fn json_value_model(v: &serde_json::Value) -> JsonValue {
    match v {
        serde_json::Value::Null => JsonValue::Null,
        serde_json::Value::Bool(b) => JsonValue::Bool(*b),
        serde_json::Value::Number(n) => JsonValue::Number(n.to_string()),
        serde_json::Value::String(s) => JsonValue::Str(s.clone()),
        serde_json::Value::Array(a) => JsonValue::Array(a.iter().map(json_value_model).collect()),
        serde_json::Value::Object(o) => JsonValue::Object(
            o.iter().map(|(k, x)| (k.clone(), json_value_model(x))).collect(),
        ),
    }
}

/// Parses a JSON text with `serde_json::from_str` into a
/// `serde_json::Value`. The result is the document that `json_document`
/// names for this text; an error is given by its message.
#[verifier::external_body]
pub(crate) fn parse_json(text: &str) -> (r: Result<JsonValue, String>)
    ensures
        match r {
            Ok(v) => json_document(text@) == Ok::<JsonValue, Seq<char>>(v),
            Err(e) => json_document(text@) == Err::<JsonValue, Seq<char>>(e@),
        },
{
    match serde_json::from_str::<serde_json::Value>(text) {
        Ok(v) => Ok(json_value_model(&v)),
        Err(e) => Err(e.to_string()),
    }
}

/// Converts a `toml::Value` into a `TomlValue`, variant by variant.
#[verifier::external_body]
fn toml_value_model(v: &toml::Value) -> TomlValue {
    match v {
        toml::Value::String(s) => TomlValue::Str(s.clone()),
        toml::Value::Integer(i) => TomlValue::Integer(*i),
        toml::Value::Float(x) => TomlValue::Float(x.to_string()),
        toml::Value::Boolean(b) => TomlValue::Boolean(*b),
        toml::Value::Datetime(d) => TomlValue::Datetime(d.to_string()),
        toml::Value::Array(a) => TomlValue::Array(a.iter().map(toml_value_model).collect()),
        toml::Value::Table(t) => TomlValue::Table(
            t.iter().map(|(k, x)| (k.clone(), toml_value_model(x))).collect(),
        ),
    }
}

/// Parses a TOML document with `toml::from_str` into a `toml::Value`. The
/// result is the document that `toml_document` names for this text; an error
/// is given by its message.
#[verifier::external_body]
pub(crate) fn parse_toml(text: &str) -> (r: Result<TomlValue, String>)
    ensures
        match r {
            Ok(v) => toml_document(text@) == Ok::<TomlValue, Seq<char>>(v),
            Err(e) => toml_document(text@) == Err::<TomlValue, Seq<char>>(e@),
        },
{
    match toml::from_str::<toml::Value>(text) {
        Ok(v) => Ok(toml_value_model(&v)),
        Err(e) => Err(e.to_string()),
    }
}

/// The value of an entry whose key is `key`.
pub open spec fn key_match<V>(key: Seq<char>) -> spec_fn((String, V)) -> Option<V> {
    |e: (String, V)| if e.0@ == key { Some(e.1) } else { None }
}

/// The value of the first entry with key `key`.
pub open spec fn lookup<V>(entries: Seq<(String, V)>, key: Seq<char>) -> Option<V> {
    find_map(entries, key_match::<V>(key))
}

/// The value of the first entry with key `key`.
pub fn lookup_entry<'a, V>(entries: &'a Vec<(String, V)>, key: &str) -> (r: Option<&'a V>)
    ensures
        r matches Some(x) ==> lookup(entries@, key@) == Some(*x),
        r is None ==> lookup(entries@, key@) is None,
{
    let ghost f = key_match::<V>(key@);
    proof {
        lemma_find_map_start(entries@, f);
    }
    let mut i: usize = 0;
    while i < entries.len()
        invariant
            f == key_match::<V>(key@),
            i <= entries@.len(),
            find_map(entries@, f) == find_map(entries@.skip(i as int), f),
        decreases entries@.len() - i,
    {
        if str_eq(entries[i].0.as_str(), key) {
            proof {
                assert(f(entries@[i as int]) == Some(entries@[i as int].1));
                lemma_find_map_hit(entries@, f, i as int);
            }
            return Some(&entries[i].1);
        }
        proof {
            assert(f(entries@[i as int]) is None);
            lemma_find_map_skip(entries@, f, i as int);
        }
        i = i + 1;
    }
    proof {
        lemma_find_map_end(entries@, f);
    }
    None
}

/// The member `key` of a JSON object; none for other values.
pub open spec fn json_member(v: JsonValue, key: Seq<char>) -> Option<JsonValue> {
    match v {
        JsonValue::Object(es) => lookup(es@, key),
        _ => None,
    }
}

/// The member `key` of a JSON object.
pub fn json_get<'a>(v: &'a JsonValue, key: &str) -> (r: Option<&'a JsonValue>)
    ensures
        r matches Some(x) ==> json_member(*v, key@) == Some(*x),
        r is None ==> json_member(*v, key@) is None,
{
    match v {
        JsonValue::Object(es) => lookup_entry(es, key),
        _ => None,
    }
}

/// The text of a JSON string; none for other values.
pub open spec fn json_text(v: JsonValue) -> Option<Seq<char>> {
    match v {
        JsonValue::Str(s) => Some(s@),
        _ => None,
    }
}

/// The member `key` of a TOML table; none for other values.
pub open spec fn toml_member(v: TomlValue, key: Seq<char>) -> Option<TomlValue> {
    match v {
        TomlValue::Table(es) => lookup(es@, key),
        _ => None,
    }
}

/// The member `key` of a TOML table.
pub fn toml_get<'a>(v: &'a TomlValue, key: &str) -> (r: Option<&'a TomlValue>)
    ensures
        r matches Some(x) ==> toml_member(*v, key@) == Some(*x),
        r is None ==> toml_member(*v, key@) is None,
{
    match v {
        TomlValue::Table(es) => lookup_entry(es, key),
        _ => None,
    }
}

/// The text of a TOML string; none for other values.
pub open spec fn toml_text(v: TomlValue) -> Option<Seq<char>> {
    match v {
        TomlValue::Str(s) => Some(s@),
        _ => None,
    }
}

} // verus!
