//! Reading the JSON arguments of a client-tool call.

use serde_json::Value;
use vstd::prelude::*;

verus! {

/// A JSON value; opaque.
#[verifier::external_type_specification]
#[verifier::external_body]
pub struct ExValue(serde_json::Value);

/// The members of a JSON object whose value is a string, by their name. Empty
/// for a value that is not an object.
pub uninterp spec fn text_members(value: serde_json::Value) -> Map<Seq<char>, Seq<char>>;

/// `serde_json::Value::get` looks a member up in an object, and finds nothing in
/// any other value. The claim is that the member is found and is a string
/// exactly when `text_members` holds its name, and that it is then that string.
#[verifier::external_body]
pub(crate) fn text_member(value: &Value, name: &str) -> (r: Option<String>)
    ensures
        r is Some <==> text_members(*value).contains_key(name@),
        r matches Some(t) ==> t@ == text_members(*value)[name@],
{
    match value.get(name) {
        Some(Value::String(t)) => Some(t.clone()),
        _ => None,
    }
}

} // verus!
