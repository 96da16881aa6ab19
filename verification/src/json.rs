//! JSON documents: what the library reads of them, and those that it makes.

use vstd::prelude::*;

verus! {

/// `serde_json::Value`, a JSON document in memory. Its content is `json_tree`.
#[verifier::external_type_specification]
#[verifier::external_body]
pub struct ExJsonValue(serde_json::Value);

/// The content of a JSON document. The value of a number is not modelled.
pub ghost enum JsonTree {
    Null,
    Bool(bool),
    Number,
    Text(Seq<char>),
    Array(Seq<JsonTree>),
    Object(Map<Seq<char>, JsonTree>),
}

/// What a `serde_json::Value` holds.
pub uninterp spec fn json_tree(value: serde_json::Value) -> JsonTree;

/// What `serde_json::from_slice` reads from the given bytes, `None` where they are not one JSON
/// document.
pub uninterp spec fn json_document(bytes: Seq<u8>) -> Option<JsonTree>;

/// The member of an object with the given key.
pub open spec fn member(tree: JsonTree, key: Seq<char>) -> Option<JsonTree> {
    match tree {
        JsonTree::Object(members) => if members.dom().contains(key) {
            Some(members[key])
        } else {
            None
        },
        _ => None,
    }
}

/// The text of a string.
pub open spec fn text(tree: JsonTree) -> Option<Seq<char>> {
    match tree {
        JsonTree::Text(t) => Some(t),
        _ => None,
    }
}

/// The content of the object with the given members.
pub open spec fn object(members: Seq<(Seq<char>, JsonTree)>) -> JsonTree {
    JsonTree::Object(member_map(members))
}

/// The members of an object, by their keys.
pub open spec fn member_map(members: Seq<(Seq<char>, JsonTree)>) -> Map<Seq<char>, JsonTree>
    decreases members.len(),
{
    if members.len() == 0 {
        Map::empty()
    } else {
        member_map(members.drop_last()).insert(members.last().0, members.last().1)
    }
}

/// The key and the content of each member.
pub open spec fn member_trees(members: Seq<(String, serde_json::Value)>) -> Seq<
    (Seq<char>, JsonTree),
> {
    members.map_values(|m: (String, serde_json::Value)| (m.0@, json_tree(m.1)))
}

/// `serde_json::from_slice` into a `serde_json::Value`: the document that the bytes spell, or
/// `None` where it reports an error. Which bytes spell which document is not stated.
#[verifier::external_body]
pub(crate) fn parse_json(bytes: &[u8]) -> (r: Option<serde_json::Value>)
    ensures
        match r {
            Some(value) => json_document(bytes@) == Some(json_tree(value)),
            None => json_document(bytes@) is None,
        },
{
    serde_json::from_slice(bytes).ok()
}

/// `serde_json::Value::get` with a string: the member of an object with that key, and nothing
/// for a document that is no object.
#[verifier::external_body]
pub(crate) fn json_member<'a>(value: &'a serde_json::Value, key: &str) -> (r: Option<
    &'a serde_json::Value,
>)
    ensures
        match r {
            Some(found) => member(json_tree(*value), key@) == Some(json_tree(*found)),
            None => member(json_tree(*value), key@) is None,
        },
{
    value.get(key)
}

/// `serde_json::Value::as_str`: the text of a string, and nothing for any other document.
#[verifier::external_body]
pub(crate) fn json_text(value: &serde_json::Value) -> (r: Option<&str>)
    ensures
        match r {
            Some(t) => text(json_tree(*value)) == Some(t@),
            None => text(json_tree(*value)) is None,
        },
{
    value.as_str()
}

/// `serde_json::Value::from` on a string: the JSON string with this text.
#[verifier::external_body]
pub(crate) fn json_string(t: &str) -> (r: serde_json::Value)
    ensures
        json_tree(r) == JsonTree::Text(t@),
{
    serde_json::Value::from(t)
}

/// `serde_json::Value::default`: the JSON null.
#[verifier::external_body]
pub(crate) fn json_null() -> (r: serde_json::Value)
    ensures
        json_tree(r) == JsonTree::Null,
{
    serde_json::Value::default()
}

/// `serde_json::Value::from` on a vector: the JSON array with these items in this order.
#[verifier::external_body]
pub(crate) fn json_array(items: Vec<serde_json::Value>) -> (r: serde_json::Value)
    ensures
        json_tree(r) == JsonTree::Array(items@.map_values(|v: serde_json::Value| json_tree(v))),
{
    serde_json::Value::from(items)
}

/// `serde_json::Value::from_iter` on pairs: the JSON object with these members, no two of which
/// have one key.
#[verifier::external_body]
pub(crate) fn json_object(members: Vec<(String, serde_json::Value)>) -> (r: serde_json::Value)
    requires
        forall|i: int, j: int|
            0 <= i < j < members@.len() ==> (#[trigger] members@[i]).0@ != (
            #[trigger] members@[j]).0@,
    ensures
        json_tree(r) == object(member_trees(members@)),
{
    serde_json::Value::from_iter(members)
}

} // verus!
