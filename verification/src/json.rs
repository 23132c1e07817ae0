//! The boundary with `serde_json`: JSON values are carried through the
//! library as they are, and the few questions the rules ask of them are
//! answered by the crate's own accessors.

use vstd::prelude::*;

verus! {

/// `serde_json::Value`: a JSON value, carried as it is.
#[verifier::external_type_specification]
#[verifier::external_body]
pub struct ExJsonValue(serde_json::Value);

/// `serde_json::Map`: the map inside a JSON object.
#[verifier::external_type_specification]
#[verifier::external_body]
#[verifier::reject_recursive_types(K)]
#[verifier::reject_recursive_types(V)]
pub struct ExJsonMap<K, V>(serde_json::Map<K, V>);

/// `serde_json::Error`: what the JSON parser or serializer reports.
#[verifier::external_type_specification]
#[verifier::external_body]
pub struct ExJsonError(serde_json::Error);

/// The members of a JSON object, by name; nothing for a value that is not an
/// object.
pub uninterp spec fn json_members(v: serde_json::Value) -> Option<Map<Seq<char>, serde_json::Value>>;

/// The entries that a `serde_json::Map` holds, by key.
pub uninterp spec fn map_entries(m: serde_json::Map<String, serde_json::Value>) -> Map<
    Seq<char>,
    serde_json::Value,
>;

/// Whether a JSON value is `null`, as `serde_json::Value::is_null` reports it.
pub uninterp spec fn json_is_null(v: serde_json::Value) -> bool;

/// The text that `serde_json::to_string_pretty` gives for a value, where it
/// gives one.
pub uninterp spec fn json_pretty_text(v: serde_json::Value) -> Option<Seq<char>>;

/// Whether a `serde_json::Error` is of the I/O category, as
/// `serde_json::Error::is_io` reports it: it then wraps an error of the
/// system's.
pub uninterp spec fn json_error_is_io(e: serde_json::Error) -> bool;

/// What a `serde_json::Error` that is not of the I/O category prints as: its
/// message, followed by the line and the column where it has them.
pub uninterp spec fn json_error_text(e: serde_json::Error) -> Seq<char>;

/// The member of a JSON value under a name: present only where the value is
/// an object that has it.
pub open spec fn json_member(v: serde_json::Value, key: Seq<char>) -> Option<serde_json::Value> {
    match json_members(v) {
        Some(m) => if m.contains_key(key) {
            Some(m[key])
        } else {
            None
        },
        None => None,
    }
}

/// Whether a JSON value is an object with a member of that name.
pub open spec fn json_has_member(v: serde_json::Value, key: Seq<char>) -> bool {
    json_member(v, key) is Some
}

/// `Clone` for `serde_json::Value`: the copy equals the value it was made from.
pub assume_specification[ <serde_json::Value as Clone>::clone ](v: &serde_json::Value) -> (r:
    serde_json::Value)
    ensures
        r == *v,
;

/// `serde_json::Value::as_object`: the map inside an object, nothing for any
/// other kind of value.
#[verifier::external_body]
pub(crate) fn as_object(v: &serde_json::Value) -> (r: Option<
    &serde_json::Map<String, serde_json::Value>,
>)
    ensures
        r is Some <==> json_members(*v) is Some,
        r matches Some(m) ==> json_members(*v) == Some(map_entries(*m)),
{
    v.as_object()
}

/// `serde_json::Value::get` with a string index: the member of that name
/// where the value is an object that has one, nothing otherwise.
#[verifier::external_body]
pub(crate) fn get_member<'a>(v: &'a serde_json::Value, key: &str) -> (r: Option<
    &'a serde_json::Value,
>)
    ensures
        r is Some <==> json_has_member(*v, key@),
        r matches Some(m) ==> json_member(*v, key@) == Some(*m),
{
    v.get(key)
}

/// `serde_json::Map::contains_key`: whether the map has an entry under the
/// key.
#[verifier::external_body]
pub(crate) fn contains_key(m: &serde_json::Map<String, serde_json::Value>, key: &str) -> (b: bool)
    ensures
        b == map_entries(*m).contains_key(key@),
{
    m.contains_key(key)
}

/// `serde_json::Value::default`: the value `null`.
#[verifier::external_body]
pub(crate) fn null() -> (v: serde_json::Value)
    ensures
        json_is_null(v),
{
    serde_json::Value::default()
}

/// `serde_json::to_string_pretty` on a JSON value: the pretty-printed text,
/// or the error that the serializer reported.
#[verifier::external_body]
pub(crate) fn to_string_pretty(v: &serde_json::Value) -> (r: Result<String, serde_json::Error>)
    ensures
        r is Ok <==> json_pretty_text(*v) is Some,
        r matches Ok(text) ==> json_pretty_text(*v) == Some(text@),
{
    serde_json::to_string_pretty(v)
}

/// `Display` for `serde_json::Error`: the text the error prints as. For an
/// error that is not of the I/O category the text depends on the error
/// alone. An error of the I/O category prints the text of the system's
/// error that it wraps, and nothing is stated of that.
#[verifier::external_body]
pub(crate) fn error_text(e: &serde_json::Error) -> (r: String)
    ensures
        !json_error_is_io(*e) ==> r@ == json_error_text(*e),
{
    e.to_string()
}

} // verus!
