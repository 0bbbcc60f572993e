//! JSON objects, held by `serde_json` and described here by what they contain.
//!
//! Nothing in this file is proved: each item states what this library takes
//! `serde_json` to do when it is built without its `preserve_order` feature,
//! so that an object keeps its members sorted by key.

use vstd::prelude::*;

verus! {

/// A member value of a JSON object, as far as this library tells values apart.
pub enum JsonMember {
    /// `true` or `false`.
    Bool(bool),
    /// A number that is held as an unsigned integer.
    Unsigned(u64),
    /// Any other value: `null`, a negative or fractional number, a string, an
    /// array or an object.
    Other,
}

/// `serde_json::Map`.
#[verifier::external_type_specification]
#[verifier::external_body]
#[verifier::reject_recursive_types(K)]
#[verifier::reject_recursive_types(V)]
pub struct ExJsonObject<K, V>(serde_json::Map<K, V>);

/// `serde_json::Value`.
#[verifier::external_type_specification]
#[verifier::external_body]
pub struct ExJsonValue(serde_json::Value);

/// `serde_json::Error`.
#[verifier::external_type_specification]
#[verifier::external_body]
pub struct ExJsonError(serde_json::Error);

/// The members of `object`: each key with what its value is.
pub uninterp spec fn object_members(object: serde_json::Map<String, serde_json::Value>) -> Map<
    Seq<char>,
    JsonMember,
>;

/// The text that `serde_json::to_string` gives for an object with these
/// members.
pub uninterp spec fn object_text(members: Map<Seq<char>, JsonMember>) -> Seq<char>;

/// Every member is a boolean or an unsigned integer.
pub open spec fn all_scalar(members: Map<Seq<char>, JsonMember>) -> bool {
    forall|key: Seq<char>| #[trigger] members.contains_key(key) ==> !(members[key] is Other)
}

/// `serde_json::Map::new`: the object that it makes has no member.
#[verifier::external_body]
pub(crate) fn new_object() -> (object: serde_json::Map<String, serde_json::Value>)
    ensures
        object_members(object) =~= Map::empty(),
{
    serde_json::Map::new()
}

/// `serde_json::Map::insert` with a value made by `Value::from(bool)`: the key
/// then holds that boolean, whether or not it held something before, and no
/// other member changes.
#[verifier::external_body]
pub(crate) fn insert_bool(
    object: &mut serde_json::Map<String, serde_json::Value>,
    key: &str,
    value: bool,
)
    ensures
        object_members(*final(object)) == object_members(*old(object)).insert(
            key@,
            JsonMember::Bool(value),
        ),
{
    object.insert(key.to_owned(), serde_json::Value::from(value));
}

/// `serde_json::Map::insert` with a value made by `Value::from(u64)`: the key
/// then holds that unsigned integer, whether or not it held something before,
/// and no other member changes.
#[verifier::external_body]
pub(crate) fn insert_unsigned(
    object: &mut serde_json::Map<String, serde_json::Value>,
    key: &str,
    value: u64,
)
    ensures
        object_members(*final(object)) == object_members(*old(object)).insert(
            key@,
            JsonMember::Unsigned(value),
        ),
{
    object.insert(key.to_owned(), serde_json::Value::from(value));
}

/// `serde_json::to_string` on an object whose members are all booleans and
/// unsigned integers. The call succeeds: the encoder fails only where a write
/// fails or a key is no string, and here it writes string keys, booleans and
/// unsigned integers into a byte vector. The map walks its keys in their
/// sorted order, so the text depends on the members alone. Nothing is claimed
/// about what the text looks like.
#[verifier::external_body]
pub(crate) fn object_to_text(object: &serde_json::Map<String, serde_json::Value>) -> (encoded:
    Result<String, serde_json::Error>)
    requires
        all_scalar(object_members(*object)),
    ensures
        encoded is Ok,
        encoded->Ok_0@ == object_text(object_members(*object)),
{
    serde_json::to_string(object)
}

} // verus!
