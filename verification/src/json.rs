//! A JSON document as plain values, read with `serde_json`, and the lookups
//! that session logs need from it.

use vstd::prelude::*;
use crate::text::str_eq;

verus! {

/// One JSON value. Numbers keep the three kinds that `serde_json` tells apart;
/// a number with a fraction or an exponent keeps no value, since nothing here
/// reads one. Object members are kept in the order `serde_json` hands them
/// out, one member per key.
#[derive(Debug)]
pub enum Json {
    Null,
    Bool(bool),
    /// A non-negative integer that fits in a `u64`.
    PosInt(u64),
    /// A negative integer that fits in an `i64`.
    NegInt(i64),
    /// Any other number.
    Float,
    Str(String),
    Array(Vec<Json>),
    Object(Vec<(String, Json)>),
}

/// The first member of `entries` whose key is `key`.
pub open spec fn lookup(entries: Seq<(String, Json)>, key: Seq<char>) -> Option<Json>
    decreases entries.len(),
{
    if entries.len() == 0 {
        None
    } else if entries[0].0@ == key {
        Some(entries[0].1)
    } else {
        lookup(entries.drop_first(), key)
    }
}

impl Json {
    /// `Value::get` with a string key: the member of an object, `None` for
    /// anything that is not an object or has no such member.
    pub open spec fn field(self, key: Seq<char>) -> Option<Json> {
        match self {
            Json::Object(entries) => lookup(entries@, key),
            _ => None,
        }
    }

    /// `Value::as_str`.
    pub open spec fn text(self) -> Option<Seq<char>> {
        match self {
            Json::Str(s) => Some(s@),
            _ => None,
        }
    }

    /// `Value::as_u64`.
    pub open spec fn unsigned(self) -> Option<u64> {
        match self {
            Json::PosInt(n) => Some(n),
            _ => None,
        }
    }

    /// The member `key` of an object.
    pub fn get(&self, key: &str) -> (member: Option<&Json>)
        ensures
            match member {
                Some(m) => self.field(key@) == Some(*m),
                None => self.field(key@) is None,
            },
    {
        match self {
            Json::Object(entries) => {
                let mut i: usize = 0;
                assert(entries@.skip(0) =~= entries@);
                while i < entries.len()
                    invariant
                        i <= entries.len(),
                        self.field(key@) == lookup(entries@, key@),
                        lookup(entries@, key@) == lookup(entries@.skip(i as int), key@),
                    decreases entries.len() - i,
                {
                    if str_eq(entries[i].0.as_str(), key) {
                        assert(entries@.skip(i as int)[0] == entries@[i as int]);
                        return Some(&entries[i].1);
                    }
                    assert(entries@.skip(i as int).drop_first() =~= entries@.skip(i + 1));
                    i += 1;
                }
                None
            },
            _ => None,
        }
    }

    /// The text of a string value.
    pub fn as_str(&self) -> (t: Option<&str>)
        ensures
            match t {
                Some(s) => self.text() == Some(s@),
                None => self.text() is None,
            },
    {
        match self {
            Json::Str(s) => Some(s.as_str()),
            _ => None,
        }
    }

    /// The value of an integer that fits in a `u64`.
    pub fn as_u64(&self) -> (n: Option<u64>)
        ensures
            n == self.unsigned(),
    {
        match self {
            Json::PosInt(n) => Some(*n),
            _ => None,
        }
    }
}

/// What `serde_json::from_str::<serde_json::Value>` reads from `text`, as a
/// [`Json`]: `None` where `serde_json` rejects the text.
pub uninterp spec fn json_document(text: Seq<char>) -> Option<Json>;

#[verifier::external_type_specification]
#[verifier::external_body]
pub struct ExJsonValue(serde_json::Value);

/// Parses `text` with `serde_json::from_str::<serde_json::Value>`. The
/// contract claims only that the outcome is a function of the text (the name
/// `json_document`); which texts `serde_json` accepts, and what it reads from
/// them, is left to its source.
#[verifier::external_body]
pub fn parse_json(text: &str) -> (doc: Option<Json>)
    ensures
        doc == json_document(text@),
{
    serde_json::from_str::<serde_json::Value>(text).ok().map(json_from_value)
}

/// Turns a `serde_json::Value` into a [`Json`], variant for variant; a number
/// is told apart by `as_u64` and `as_i64`. It is part of [`parse_json`] and
/// claims nothing of its own.
#[verifier::external_body]
fn json_from_value(value: serde_json::Value) -> Json {
    match value {
        serde_json::Value::Null => Json::Null,
        serde_json::Value::Bool(b) => Json::Bool(b),
        serde_json::Value::Number(n) => match (n.as_u64(), n.as_i64()) {
            (Some(u), _) => Json::PosInt(u),
            (None, Some(i)) => Json::NegInt(i),
            (None, None) => Json::Float,
        },
        serde_json::Value::String(s) => Json::Str(s),
        serde_json::Value::Array(items) => Json::Array(items.into_iter().map(json_from_value).collect()),
        serde_json::Value::Object(map) => Json::Object(map.into_iter().map(|(k, v)| (k, json_from_value(v))).collect()),
    }
}

} // verus!
