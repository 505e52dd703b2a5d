//! JSON documents, which `serde_json` reads and writes.
//!
//! A delivery is a JSON object whose members are text, so a document is known
//! here by its members alone: each name with the text it holds, or with
//! nothing where it holds something that is not text. A document that is no
//! object has no members.

use vstd::prelude::*;
use vstd::utf8::*;

verus! {

/// `serde_json::Value`, a document of any shape. Nothing is known of one but
/// its members.
#[verifier::external_type_specification]
#[verifier::external_body]
pub struct ExValue(serde_json::Value);

/// `serde_json::Map`, an object on its way to being written. Nothing is known
/// of one but its members.
#[verifier::external_type_specification]
#[verifier::external_body]
#[verifier::reject_recursive_types(K)]
#[verifier::reject_recursive_types(V)]
pub struct ExMap<K, V>(serde_json::Map<K, V>);

/// What a document says: each name with the text it holds, or with nothing
/// where it holds something else.
pub type Members = Map<Seq<char>, Option<Seq<char>>>;

/// The members of the document `value`; none where it is no object.
pub uninterp spec fn document_members(value: serde_json::Value) -> Members;

/// The members of the object `object`.
pub uninterp spec fn object_members(
    object: serde_json::Map<String, serde_json::Value>,
) -> Members;

/// What `serde_json::from_slice` makes of `text`: the members of the document
/// it is, or what is wrong with it in words.
pub uninterp spec fn json_document(text: Seq<u8>) -> Result<Members, Seq<char>>;

/// The compact JSON text of the object with these members, all of them text.
pub uninterp spec fn json_text(members: Members) -> Seq<char>;

/// Whether every member is text.
pub open spec fn all_text(members: Members) -> bool {
    forall|name: Seq<char>| #[trigger]
        members.contains_key(name) ==> members[name] is Some
}

/// The text that the member `name` holds, where there is one and it is text.
pub open spec fn member_text(
    members: Members,
    name: Seq<char>,
) -> Option<Seq<char>> {
    if members.contains_key(name) {
        members[name]
    } else {
        None
    }
}

/// Reads a document.
///
/// Trusts `serde_json::from_slice`: whether it reads the bytes as one
/// `Value`, which members that has, and how its error shows itself in words,
/// are a function of the bytes.
#[verifier::external_body]
pub(crate) fn read_document(bytes: &[u8]) -> (document: Result<serde_json::Value, String>)
    ensures
        match document {
            Ok(value) => json_document(bytes@) == Ok::<Members, Seq<char>>(
                document_members(value),
            ),
            Err(fault) => json_document(bytes@) == Err::<Members, Seq<char>>(fault@),
        },
{
    serde_json::from_slice(bytes).map_err(|fault| fault.to_string())
}

/// The text of one member of a document.
///
/// Trusts indexing a `serde_json::Value` by a name, which gives the member of
/// that name where the value is an object that has one and `Null` otherwise,
/// and `Value::as_str`, which gives the text where the value is a string.
#[verifier::external_body]
pub(crate) fn text_of(value: &serde_json::Value, name: &str) -> (text: Option<String>)
    ensures
        match text {
            Some(shown) => member_text(document_members(*value), name@) == Some(shown@),
            None => member_text(document_members(*value), name@) is None,
        },
{
    value[name].as_str().map(str::to_string)
}

/// An object with no members.
///
/// Trusts `serde_json::Map::new`, which makes an empty map.
#[verifier::external_body]
pub(crate) fn new_object() -> (object: serde_json::Map<String, serde_json::Value>)
    ensures
        object_members(object) == Members::empty(),
{
    serde_json::Map::new()
}

/// Gives `object` the member `name` with the text `text`.
///
/// Trusts `serde_json::Map::insert`, which adds the member, or puts the new
/// value in the place of the old one where the name is there already.
#[verifier::external_body]
pub(crate) fn insert_text(
    object: &mut serde_json::Map<String, serde_json::Value>,
    name: &str,
    text: &str,
)
    ensures
        object_members(*final(object)) == object_members(*old(object)).insert(
            name@,
            Some(text@),
        ),
{
    object.insert(name.to_string(), serde_json::Value::String(text.to_string()));
}

/// Writes `object`, whose members are all text, as compact JSON.
///
/// Trusts the `Display` of `serde_json::Value`: such an object is written
/// from its members alone, in the order of their names, with a brace first,
/// and `serde_json::from_slice` reads what was written as an object with the
/// same members.
#[verifier::external_body]
pub(crate) fn write_object(object: serde_json::Map<String, serde_json::Value>) -> (text: String)
    requires
        all_text(object_members(object)),
    ensures
        text@ == json_text(object_members(object)),
        text@.len() > 0 && text@[0] == '{',
        (json_document(encode_utf8(text@)) == Ok::<Members, Seq<char>>(object_members(object))),
{
    serde_json::Value::Object(object).to_string()
}

} // verus!
