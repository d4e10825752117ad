//! The few questions that the client asks of JSON text, and the one JSON
//! text that it writes.

use vstd::prelude::*;

verus! {

/// The error of `serde_json`. It is carried through, never looked into.
#[verifier::external_type_specification]
#[verifier::external_body]
pub struct ExJsonError(serde_json::Error);

/// Whether the bytes are the JSON text of an object that has a member
/// named `name`.
pub uninterp spec fn json_has_member(bytes: Seq<u8>, name: Seq<char>) -> bool;

/// The text of the member named `name`, where the bytes are the JSON text
/// of an object that has such a member and it is a string.
pub uninterp spec fn json_string_member(bytes: Seq<u8>, name: Seq<char>) -> Option<Seq<char>>;

/// The JSON text of the object whose members, all strings, are the given
/// pairs of name and value, inserted in their order; nothing where the
/// object cannot be written.
pub uninterp spec fn json_object_text(members: Seq<(Seq<char>, Seq<char>)>) -> Option<Seq<char>>;

/// The pairs of texts that a list of pairs of strings holds.
pub open spec fn member_texts(members: Seq<(String, String)>) -> Seq<(Seq<char>, Seq<char>)> {
    Seq::new(members.len(), |i: int| (members[i].0@, members[i].1@))
}

/// Calls `serde_json::from_slice` for a `Value` and `Value::get` with the
/// name: whether the bytes parse and the value is an object with that
/// member. The answer depends on the bytes and the name alone and is named,
/// not stated.
#[verifier::external_body]
pub(crate) fn has_member(bytes: &[u8], name: &str) -> (found: bool)
    ensures
        found == json_has_member(bytes@, name@),
{
    match serde_json::from_slice::<serde_json::Value>(bytes) {
        Ok(value) => value.get(name).is_some(),
        Err(_) => false,
    }
}

/// Calls `serde_json::from_slice` for a `Value`, `Value::get` with the name
/// and `Value::as_str` on the member: its text where the bytes parse, the
/// value is an object with that member and the member is a string. The
/// answer depends on the bytes and the name alone and is named, not stated.
#[verifier::external_body]
pub(crate) fn string_member(bytes: &[u8], name: &str) -> (text: Option<String>)
    ensures
        match text {
            Some(t) => json_string_member(bytes@, name@) == Some(t@),
            None => json_string_member(bytes@, name@) is None,
        },
{
    match serde_json::from_slice::<serde_json::Value>(bytes) {
        Ok(value) => value.get(name).and_then(|member| member.as_str()).map(|t| t.to_string()),
        Err(_) => None,
    }
}

/// Calls `serde_json::Map::insert` for each pair, in order, and
/// `serde_json::to_string` on the object. The text depends on the pairs
/// alone and is named, not stated.
#[verifier::external_body]
pub(crate) fn object_text(members: &Vec<(String, String)>) -> (text: Result<
    String,
    serde_json::Error,
>)
    ensures
        match text {
            Ok(t) => json_object_text(member_texts(members@)) == Some(t@),
            Err(_) => json_object_text(member_texts(members@)) is None,
        },
{
    let mut object = serde_json::Map::new();
    for (name, value) in members.iter() {
        object.insert(name.clone(), serde_json::Value::String(value.clone()));
    }
    serde_json::to_string(&serde_json::Value::Object(object))
}

/// Calls `serde_json::Error`'s `to_string`: the description of a failure.
/// Nothing is claimed of the text.
#[verifier::external_body]
pub(crate) fn json_error_text(error: &serde_json::Error) -> (text: String) {
    error.to_string()
}

} // verus!
