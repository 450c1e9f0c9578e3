//! JSON documents: the tree that the logic reads, and the outside parser and
//! canonicalizer that stand behind it.

use crate::crypto;
use crate::text;
use vstd::prelude::*;
use vstd::utf8::*;

verus! {

/// A JSON value. Numbers are kept as they are written.
#[derive(Debug)]
pub enum Json {
    Null,
    Bool(bool),
    Number(String),
    Text(String),
    List(Vec<Json>),
    Object(Vec<(String, Json)>),
}

pub enum JsonModel {
    Null,
    Bool(bool),
    Number(Seq<char>),
    Text(Seq<char>),
    List(Seq<JsonModel>),
    Object(Seq<(Seq<char>, JsonModel)>),
}

/// The tree of a value.
pub open spec fn tree(value: Json) -> JsonModel
    decreases value,
{
    match value {
        Json::Null => JsonModel::Null,
        Json::Bool(value) => JsonModel::Bool(value),
        Json::Number(numeral) => JsonModel::Number(numeral@),
        Json::Text(value) => JsonModel::Text(value@),
        Json::List(items) => JsonModel::List(
            Seq::new(
                items@.len(),
                |i: int|
                    if 0 <= i < items@.len() {
                        tree(items@[i])
                    } else {
                        arbitrary()
                    },
            ),
        ),
        Json::Object(members) => JsonModel::Object(
            Seq::new(
                members@.len(),
                |i: int|
                    if 0 <= i < members@.len() {
                        (members@[i].0@, tree(members@[i].1))
                    } else {
                        arbitrary()
                    },
            ),
        ),
    }
}

impl View for Json {
    type V = JsonModel;

    open spec fn view(&self) -> JsonModel {
        tree(*self)
    }
}

/// The trees of a list of values.
pub open spec fn trees(items: Seq<Json>) -> Seq<JsonModel> {
    Seq::new(items.len(), |i: int| items[i]@)
}

/// The trees of a list of members.
pub open spec fn member_trees(members: Seq<(String, Json)>) -> Seq<(Seq<char>, JsonModel)> {
    Seq::new(members.len(), |i: int| (members[i].0@, members[i].1@))
}

/// The value of the first member of that name.
pub open spec fn find_member(members: Seq<(Seq<char>, JsonModel)>, key: Seq<char>) -> Option<
    JsonModel,
>
    decreases members.len(),
{
    if members.len() == 0 {
        None
    } else if members[0].0 == key {
        Some(members[0].1)
    } else {
        find_member(members.skip(1), key)
    }
}

/// The value of a member, if the value is an object that has it.
pub open spec fn member(value: JsonModel, key: Seq<char>) -> Option<JsonModel> {
    match value {
        JsonModel::Object(members) => find_member(members, key),
        _ => None,
    }
}

/// An element, if the value is a list that has it.
pub open spec fn element(value: JsonModel, index: int) -> Option<JsonModel> {
    match value {
        JsonModel::List(items) => if 0 <= index < items.len() {
            Some(items[index])
        } else {
            None
        },
        _ => None,
    }
}

/// The text of a value, if it is a text.
pub open spec fn text_of(value: Option<JsonModel>) -> Option<Seq<char>> {
    match value {
        Some(JsonModel::Text(value)) => Some(value),
        _ => None,
    }
}

/// The text of a member, if it has one.
pub open spec fn member_text(value: JsonModel, key: Seq<char>) -> Option<Seq<char>> {
    text_of(member(value, key))
}

/// The tree of an optional value.
pub open spec fn tree_opt(value: Option<&Json>) -> Option<JsonModel> {
    match value {
        Some(value) => Some(value@),
        None => None,
    }
}

/// The tree of an optional owned value.
pub open spec fn owned_tree_opt(value: Option<Json>) -> Option<JsonModel> {
    match value {
        Some(value) => Some(value@),
        None => None,
    }
}

/// The text of an optional borrowed string.
pub open spec fn borrowed_text(value: Option<&String>) -> Option<Seq<char>> {
    match value {
        Some(value) => Some(value@),
        None => None,
    }
}

impl Json {
    /// The member named `key`.
    pub fn get(&self, key: &str) -> (found: Option<&Json>)
        ensures
            tree_opt(found) == member(self@, key@),
    {
        match self {
            Json::Object(members) => {
                let ghost all = match self@ {
                    JsonModel::Object(all) => all,
                    _ => arbitrary(),
                };
                assert(all.skip(0) =~= all);
                let mut i: usize = 0;
                while i < members.len()
                    invariant
                        i <= members@.len(),
                        self@ == JsonModel::Object(all),
                        all.len() == members@.len(),
                        forall|j: int|
                            0 <= j < all.len() ==> #[trigger] all[j] == (
                                members@[j].0@,
                                members@[j].1@,
                            ),
                        find_member(all, key@) == find_member(all.skip(i as int), key@),
                    decreases members.len() - i,
                {
                    assert(all.skip(i as int)[0] == all[i as int]);
                    if text::same_text(&members[i].0, key) {
                        return Some(&members[i].1);
                    }
                    assert(all.skip(i as int).skip(1) =~= all.skip(i as int + 1));
                    i = i + 1;
                }
                None
            },
            _ => None,
        }
    }

    /// The element at `index`.
    pub fn at(&self, index: usize) -> (found: Option<&Json>)
        ensures
            tree_opt(found) == element(self@, index as int),
    {
        match self {
            Json::List(items) => {
                if index < items.len() {
                    Some(&items[index])
                } else {
                    None
                }
            },
            _ => None,
        }
    }

    /// The text that the value is.
    pub fn as_text(&self) -> (value: Option<&String>)
        ensures
            borrowed_text(value) == text_of(Some(self@)),
    {
        match self {
            Json::Text(value) => Some(value),
            _ => None,
        }
    }

    /// The text of the member named `key`.
    pub fn get_text(&self, key: &str) -> (value: Option<&String>)
        ensures
            borrowed_text(value) == member_text(self@, key@),
    {
        match self.get(key) {
            Some(value) => value.as_text(),
            None => None,
        }
    }
}

/// A value of the `serde_json` crate.
#[verifier::external_type_specification]
#[verifier::external_body]
pub struct ExValue(serde_json::Value);

/// The tree that a parsed value holds.
pub uninterp spec fn json_tree(value: serde_json::Value) -> JsonModel;

/// The tree of a JSON document, if the bytes are one.
pub uninterp spec fn parsed_json(document: Seq<u8>) -> Option<JsonModel>;

/// The canonical (RFC 8785) bytes of a tree, if it has them.
pub uninterp spec fn canonical_json(tree: JsonModel) -> Option<Seq<u8>>;

/// The JSON text inside a document, without the white space around it, if the
/// document is JSON.
pub uninterp spec fn raw_json(document: Seq<char>) -> Option<Seq<char>>;

/// `serde_json::from_slice` into a `serde_json::Value`: the result depends on
/// the bytes alone.
#[verifier::external_body]
fn read_value(document: &[u8]) -> (value: Option<serde_json::Value>)
    ensures
        match value {
            Some(value) => parsed_json(document@) == Some(json_tree(value)),
            None => parsed_json(document@) is None,
        },
{
    serde_json::from_slice(document).ok()
}

/// Moves a `serde_json::Value` into a tree, node by node.
#[verifier::external_body]
fn tree_of(value: serde_json::Value) -> (tree: Json)
    ensures
        tree@ == json_tree(value),
{
    match value {
        serde_json::Value::Null => Json::Null,
        serde_json::Value::Bool(value) => Json::Bool(value),
        serde_json::Value::Number(number) => Json::Number(number.to_string()),
        serde_json::Value::String(value) => Json::Text(value),
        serde_json::Value::Array(items) => Json::List(items.into_iter().map(tree_of).collect()),
        serde_json::Value::Object(members) => Json::Object(
            members.into_iter().map(|(key, value)| (key, tree_of(value))).collect(),
        ),
    }
}

/// `serde_json_canonicalizer::to_vec`: the canonical bytes depend on the value
/// alone.
#[verifier::external_body]
fn canonical_bytes(value: &serde_json::Value) -> (bytes: Option<Vec<u8>>)
    ensures
        crypto::bytes_opt(bytes) == canonical_json(json_tree(*value)),
{
    serde_json_canonicalizer::to_vec(value).ok()
}

/// `serde_json::value::RawValue::from_string`: the text of a JSON document as
/// it was sent, or nothing if the document is not JSON.
#[verifier::external_body]
fn raw_text(document: String) -> (text: Option<String>)
    ensures
        text::text_opt(text) == raw_json(document@),
{
    match serde_json::value::RawValue::from_string(document) {
        Ok(raw) => Some(raw.get().to_owned()),
        Err(_) => None,
    }
}

/// `std::str::from_utf8` accepts exactly the valid UTF-8 byte strings.
#[verifier::external_body]
fn utf8_text(bytes: &[u8]) -> (text: Option<String>)
    ensures
        match text {
            Some(text) => encode_utf8(text@) == bytes@,
            None => !valid_utf8(bytes@),
        },
{
    match std::str::from_utf8(bytes) {
        Ok(text) => Some(text.to_owned()),
        Err(_) => None,
    }
}

/// Parses a JSON document.
pub fn parse_json(document: &[u8]) -> (value: Option<Json>)
    ensures
        match value {
            Some(value) => parsed_json(document@) == Some(value@),
            None => parsed_json(document@) is None,
        },
{
    match read_value(document) {
        Some(value) => Some(tree_of(value)),
        None => None,
    }
}

/// The tree of a document whose bytes are already in canonical form.
pub open spec fn canonical_tree(document: Seq<u8>) -> Option<JsonModel> {
    match parsed_json(document) {
        Some(tree) => if canonical_json(tree) == Some(document) {
            Some(tree)
        } else {
            None
        },
        None => None,
    }
}

/// Parses a JSON document that must be in canonical form byte for byte.
pub fn parse_canonical(document: &[u8]) -> (value: Option<Json>)
    ensures
        match value {
            Some(value) => canonical_tree(document@) == Some(value@),
            None => canonical_tree(document@) is None,
        },
{
    let value: serde_json::Value = match read_value(document) {
        Some(value) => value,
        None => return None,
    };
    let canonical: Option<Vec<u8>> = canonical_bytes(&value);
    accept_canonical(document, tree_of(value), &canonical)
}

/// Accepts a parsed document whose canonical form is the document itself.
pub fn accept_canonical(document: &[u8], tree: Json, canonical: &Option<Vec<u8>>) -> (value: Option<
    Json,
>)
    ensures
        value == (if crypto::bytes_opt(*canonical) == Some(document@) {
            Some(tree)
        } else {
            None
        }),
{
    match canonical {
        Some(bytes) => if text::same_bytes(bytes, document) {
            Some(tree)
        } else {
            None
        },
        None => None,
    }
}

/// The JSON text of a document, as it was sent.
pub open spec fn raw_document(document: Seq<u8>) -> Option<Seq<char>> {
    if valid_utf8(document) {
        raw_json(decode_utf8(document))
    } else {
        None
    }
}

/// The JSON text of a document, or nothing if the document is not JSON.
pub fn raw_event(document: &[u8]) -> (text: Option<String>)
    ensures
        text::text_opt(text) == raw_document(document@),
{
    match utf8_text(document) {
        Some(body) => {
            proof {
                encode_utf8_decode_utf8(body@);
                encode_utf8_valid_utf8(body@);
            }
            raw_text(body)
        },
        None => None,
    }
}

} // verus!
