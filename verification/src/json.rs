//! JSON documents as plain trees, and the parser that produces them.
//!
//! Provider replies are read through [`Json`], a tree of plain values that
//! verified code can inspect. Turning text into such a tree is left to
//! `serde_json`; the two functions that touch its `Value` are the only
//! unproved ones here.

use vstd::prelude::*;
use vstd::string::*;

verus! {

/// `serde_json::Value`, carried from the parser to the copy below and never
/// looked into by verified code.
#[verifier::external_type_specification]
#[verifier::external_body]
pub struct ExJsonValue(serde_json::Value);

/// A JSON value. Numbers are kept as a bare marker: nothing in this crate
/// reads their magnitude. An object lists its members in the order in which
/// the parser hands them out.
#[derive(Debug, PartialEq)]
pub enum Json {
    Null,
    Bool(bool),
    Number,
    Text(String),
    Array(Vec<Json>),
    Object(Vec<(String, Json)>),
}

/// What `serde_json::from_str::<serde_json::Value>` makes of `text`: the
/// parsed value, or `None` where the text is not one JSON document.
pub uninterp spec fn parsed_value(text: Seq<char>) -> Option<serde_json::Value>;

/// The plain tree that holds what a `serde_json::Value` holds.
pub uninterp spec fn tree_of(value: serde_json::Value) -> Json;

/// Calls `serde_json::from_str` for a `serde_json::Value`. The contract
/// claims only that the outcome is a function of the text: the same text
/// always parses to the same value, or always fails.
#[verifier::external_body]
fn read_value(text: &str) -> (value: Option<serde_json::Value>)
    ensures
        value == parsed_value(text@),
{
    serde_json::from_str::<serde_json::Value>(text).ok()
}

/// Copies a `serde_json::Value` into a [`Json`], variant by variant; object
/// members come in the order of `serde_json::Map::iter`. The contract gives
/// the copy its name and claims nothing else.
#[verifier::external_body]
fn lift(value: &serde_json::Value) -> (tree: Json)
    ensures
        tree == tree_of(*value),
{
    match value {
        serde_json::Value::Null => Json::Null,
        serde_json::Value::Bool(flag) => Json::Bool(*flag),
        serde_json::Value::Number(_) => Json::Number,
        serde_json::Value::String(text) => Json::Text(text.clone()),
        serde_json::Value::Array(items) => Json::Array(items.iter().map(lift).collect()),
        serde_json::Value::Object(members) => Json::Object(
            members.iter().map(|(key, member)| (key.clone(), lift(member))).collect(),
        ),
    }
}

/// The document that `text` spells, if it spells one.
pub open spec fn document(text: Seq<char>) -> Option<Json> {
    match parsed_value(text) {
        Some(value) => Some(tree_of(value)),
        None => None,
    }
}

/// Parses `text` as one JSON document.
pub fn parse(text: &str) -> (doc: Option<Json>)
    ensures
        doc == document(text@),
{
    match read_value(text) {
        Some(value) => Some(lift(&value)),
        None => None,
    }
}

/// The value of the first member named `key` among `members`.
pub open spec fn lookup(members: Seq<(String, Json)>, key: Seq<char>) -> Option<Json>
    decreases members.len(),
{
    if members.len() == 0 {
        None
    } else if members[0].0@ == key {
        Some(members[0].1)
    } else {
        lookup(members.skip(1), key)
    }
}

impl Json {
    /// The member `key` of an object; `None` for a missing member and for
    /// anything that is not an object.
    pub open spec fn spec_member(self, key: Seq<char>) -> Option<Json> {
        match self {
            Json::Object(members) => lookup(members@, key),
            _ => None,
        }
    }

    /// Looks up the member `key` of an object.
    pub fn member(&self, key: &str) -> (found: Option<&Json>)
        ensures
            match found {
                Some(value) => self.spec_member(key@) == Some(*value),
                None => self.spec_member(key@) is None,
            },
    {
        match self {
            Json::Object(members) => {
                let wanted = String::from_str(key);
                let mut i: usize = 0;
                assert(members@.skip(0) =~= members@);
                while i < members.len()
                    invariant
                        i <= members.len(),
                        wanted@ == key@,
                        self.spec_member(key@) == lookup(members@, key@),
                        lookup(members@, key@) == lookup(members@.skip(i as int), key@),
                    decreases members.len() - i,
                {
                    assert(members@.skip(i as int)[0] == members@[i as int]);
                    if members[i].0 == wanted {
                        return Some(&members[i].1);
                    }
                    assert(members@.skip(i as int).skip(1) =~= members@.skip(i as int + 1));
                    i = i + 1;
                }
                None
            },
            _ => None,
        }
    }

    /// Whether the value is an object.
    pub fn is_object(&self) -> (yes: bool)
        ensures
            yes == (self is Object),
    {
        match self {
            Json::Object(_) => true,
            _ => false,
        }
    }
}

} // verus!
