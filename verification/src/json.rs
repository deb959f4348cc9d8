//! JSON objects of `serde_json`, and what they hold.
use vstd::prelude::*;

verus! {

/// `serde_json::Value`, carried as it is.
#[verifier::external_type_specification]
#[verifier::external_body]
pub struct ExJsonValue(serde_json::Value);

/// `serde_json::Map`, the type of JSON objects. What one holds is [`members`].
#[verifier::external_type_specification]
#[verifier::external_body]
#[verifier::reject_recursive_types(K)]
#[verifier::reject_recursive_types(V)]
pub struct ExJsonMap<K, V>(serde_json::Map<K, V>);

/// What stands under one key of a JSON object.
pub enum Member {
    Text(Seq<char>),
    Number(u64),
    /// Anything but a string or an unsigned 64-bit number.
    Other,
}

/// The members of a JSON object, by key.
pub uninterp spec fn members(object: serde_json::Map<String, serde_json::Value>) -> Map<
    Seq<char>,
    Member,
>;

/// `serde_json::Map::new`: the object that it makes has no members.
#[verifier::external_body]
pub(crate) fn new_object() -> (object: serde_json::Map<String, serde_json::Value>)
    ensures
        (members(object) == Map::<Seq<char>, Member>::empty()),
{
    serde_json::Map::new()
}

/// `serde_json::Map::insert` of a string made by `Value::from`: the string then
/// stands under the key, in place of what stood there, and nothing else changes.
#[verifier::external_body]
pub(crate) fn insert_text(
    object: &mut serde_json::Map<String, serde_json::Value>,
    key: &str,
    text: &str,
)
    ensures
        members(*final(object)) == members(*old(object)).insert(key@, Member::Text(text@)),
{
    object.insert(key.to_owned(), serde_json::Value::from(text));
}

/// `serde_json::Map::insert` of a number made by `Value::from`: the number then
/// stands under the key, in place of what stood there, and nothing else changes.
#[verifier::external_body]
pub(crate) fn insert_number(
    object: &mut serde_json::Map<String, serde_json::Value>,
    key: &str,
    number: u64,
)
    ensures
        members(*final(object)) == members(*old(object)).insert(key@, Member::Number(number)),
{
    object.insert(key.to_owned(), serde_json::Value::from(number));
}

} // verus!
