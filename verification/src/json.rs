//! The JSON boundary of the pipeline.
//!
//! Request and response bodies are JSON text. The text itself is parsed and
//! printed by `serde_json`; this module gives that work a mathematical face:
//! `JsonData` models a parsed document, the trusted items below say how the
//! `serde_json` calls relate to that model, and the verified decoders of the
//! other modules read the model alone.

use vstd::prelude::*;

verus! {

/// The model of a parsed JSON document.
///
/// An object is modelled as a map from member name to member value, since
/// `serde_json`'s object keeps one entry per name. A number that the parser
/// holds as a non-negative integer is `Int`; any other number — negative,
/// or written with a fraction or exponent, even one whose value is whole —
/// is `OtherNum`, which is all the decoders here distinguish.
pub enum JsonData {
    Null,
    Bool(bool),
    Int(u64),
    OtherNum,
    Str(Seq<char>),
    Arr(Seq<JsonData>),
    Obj(Map<Seq<char>, JsonData>),
}

#[verifier::external_type_specification]
#[verifier::external_body]
pub struct ExValue(serde_json::Value);

#[verifier::external_type_specification]
#[verifier::external_body]
#[verifier::reject_recursive_types(K)]
#[verifier::reject_recursive_types(V)]
pub struct ExJsonMap<K, V>(serde_json::Map<K, V>);

/// What `serde_json` parses the text `s` into: `None` where the text is not
/// one well-formed JSON document, otherwise the model of that document.
pub uninterp spec fn json_parsed(s: Seq<char>) -> Option<JsonData>;

/// The model of the document a `serde_json::Value` holds.
pub uninterp spec fn value_data(v: serde_json::Value) -> JsonData;

/// The model of the members a `serde_json::Map` holds.
pub uninterp spec fn obj_model(m: serde_json::Map<String, serde_json::Value>) -> Map<
    Seq<char>,
    JsonData,
>;

/// Relies on `serde_json::from_str::<Value>`: parses a whole JSON document,
/// failing on anything else — in particular on empty input.
#[verifier::external_body]
pub(crate) fn parse_json(s: &str) -> (r: Option<serde_json::Value>)
    ensures
        r matches Some(v) ==> json_parsed(s@) == Some(value_data(v)),
        r is Some <==> json_parsed(s@) is Some,
        s@.len() == 0 ==> r is None,
{
    serde_json::from_str::<serde_json::Value>(s).ok()
}

/// Relies on `serde_json::Value::get`: on an object, looks the member up by
/// name; on any other value there is no member.
#[verifier::external_body]
pub(crate) fn json_get<'a>(v: &'a serde_json::Value, key: &str) -> (r: Option<&'a serde_json::Value>)
    ensures
        match value_data(*v) {
            JsonData::Obj(m) => {
                &&& r is Some <==> m.contains_key(key@)
                &&& r matches Some(w) ==> value_data(*w) == m[key@]
            },
            _ => r is None,
        },
{
    v.get(key)
}

/// Relies on `serde_json::Value::as_str`: the characters of a string value,
/// and nothing for any other value.
#[verifier::external_body]
pub(crate) fn json_as_str(v: &serde_json::Value) -> (r: Option<String>)
    ensures
        match value_data(*v) {
            JsonData::Str(s) => r matches Some(out) && out@ == s,
            _ => r is None,
        },
{
    v.as_str().map(|s| s.to_owned())
}

/// Relies on `serde_json::Value::is_null`: whether the value is the JSON
/// document `null`.
#[verifier::external_body]
pub(crate) fn json_is_null(v: &serde_json::Value) -> (r: bool)
    ensures
        r == (value_data(*v) is Null),
{
    v.is_null()
}

/// Relies on `serde_json::Value::as_u64`: the value of a number that is
/// representable as a `u64`, and nothing for any other value.
#[verifier::external_body]
pub(crate) fn json_as_u64(v: &serde_json::Value) -> (r: Option<u64>)
    ensures
        match value_data(*v) {
            JsonData::Int(n) => r == Some(n),
            _ => r is None,
        },
{
    v.as_u64()
}

/// Relies on `serde_json::Value::as_array`: the elements of an array value,
/// in order, and nothing for any other value.
#[verifier::external_body]
pub(crate) fn json_as_array<'a>(v: &'a serde_json::Value) -> (r: Option<&'a Vec<serde_json::Value>>)
    ensures
        match value_data(*v) {
            JsonData::Arr(elems) => {
                &&& r matches Some(a)
                &&& a@.len() == elems.len()
                &&& forall|i: int| 0 <= i < elems.len() ==> value_data(a@[i]) == elems[i]
            },
            _ => r is None,
        },
{
    v.as_array()
}

/// Whether every member value of the modelled object is a string.
pub open spec fn obj_all_strings(m: Map<Seq<char>, JsonData>) -> bool {
    forall|k: Seq<char>| m.contains_key(k) ==> m[k] is Str
}

/// Whether `entries` lists exactly the members of the modelled object `m`:
/// each entry is a member, every member appears, and no name repeats.
pub open spec fn string_members_of(entries: Seq<(String, String)>, m: Map<Seq<char>, JsonData>) -> bool {
    &&& forall|i: int|
        #![trigger entries[i]]
        0 <= i < entries.len() ==> m.contains_key(entries[i].0@) && m[entries[i].0@]
            == JsonData::Str(entries[i].1@)
    &&& forall|k: Seq<char>|
        #![trigger m[k]]
        m.contains_key(k) ==> exists|i: int|
            0 <= i < entries.len() && (#[trigger] entries[i]).0@ == k
    &&& forall|i: int, j: int|
        #![trigger entries[i], entries[j]]
        0 <= i < entries.len() && 0 <= j < entries.len() && i != j ==> entries[i].0@
            != entries[j].0@
}

/// Relies on `serde_json::from_value::<BTreeMap<String, String>>`: succeeds
/// exactly on an object all of whose member values are strings, handing out
/// every member once.
#[verifier::external_body]
pub(crate) fn json_string_members(v: &serde_json::Value) -> (r: Option<Vec<(String, String)>>)
    ensures
        match value_data(*v) {
            JsonData::Obj(m) => {
                &&& r is Some <==> obj_all_strings(m)
                &&& r matches Some(entries) ==> string_members_of(entries@, m)
            },
            _ => r is None,
        },
{
    serde_json::from_value::<std::collections::BTreeMap<String, String>>(v.clone()).ok().map(
        |m| m.into_iter().collect(),
    )
}

/// Relies on `serde_json::Map::new`: an object with no members.
#[verifier::external_body]
pub(crate) fn object_new() -> (m: serde_json::Map<String, serde_json::Value>)
    ensures
        forall|k: Seq<char>| !obj_model(m).contains_key(k),
{
    serde_json::Map::new()
}

/// Relies on `serde_json::Map::insert`: binds the name to a string value,
/// replacing any earlier binding.
#[verifier::external_body]
pub(crate) fn object_insert_string(m: &mut serde_json::Map<String, serde_json::Value>, k: &str, v: &str)
    ensures
        obj_model(*final(m)) == obj_model(*old(m)).insert(k@, JsonData::Str(v@)),
{
    m.insert(k.to_owned(), serde_json::Value::String(v.to_owned()));
}

/// Relies on `serde_json::to_string` and `from_str`: an object whose member
/// values are strings prints as JSON text that parses back to that object.
/// Printing such an object cannot fail: the writer is an in-memory buffer,
/// every key is a string, and no member holds a number.
#[verifier::external_body]
pub(crate) fn encode_object(m: serde_json::Map<String, serde_json::Value>) -> (r: Result<String, String>)
    requires
        forall|k: Seq<char>| obj_model(m).contains_key(k) ==> obj_model(m)[k] is Str,
    ensures
        r is Ok,
        r matches Ok(s) ==> json_parsed(s@) == Some(JsonData::Obj(obj_model(m))),
{
    match serde_json::to_string(&serde_json::Value::Object(m)) {
        Ok(s) => Ok(s),
        Err(e) => Err(format!("{}", e)),
    }
}

} // verus!
