//! The JSON surface of the tool. Configuration and manifest files are
//! JSON; serde_json parses them, and the parsed tree is modeled by the
//! ghost type `JsonData` so that the extraction logic above it can be
//! specified exactly.
use vstd::prelude::*;

verus! {

/// Ghost image of a parsed JSON document.
pub enum JsonData {
    Null,
    Bool(bool),
    Number,
    Text(Seq<u8>),
    List(Seq<JsonData>),
    Object(Map<Seq<u8>, JsonData>),
}

#[verifier::external_type_specification]
#[verifier::external_body]
pub struct ExJsonValue(serde_json::Value);

/// What serde_json's parser makes of these exact bytes: the parsed
/// document, or nothing when they are not valid JSON. A pure function of
/// the bytes.
pub uninterp spec fn json_doc(bytes: Seq<u8>) -> Option<JsonData>;

/// The document a parsed `serde_json::Value` holds.
pub uninterp spec fn json_data(v: serde_json::Value) -> JsonData;

/// Relies on serde_json::from_slice::<Value>: parses the bytes as one
/// JSON document, `Err` exactly on malformed input, depending on the
/// bytes alone.
#[verifier::external_body]
pub fn json_parse(bytes: &[u8]) -> (r: Option<serde_json::Value>)
    ensures
        r is Some <==> json_doc(bytes@) is Some,
        r matches Some(v) ==> json_doc(bytes@) == Some(json_data(v)),
{
    serde_json::from_slice::<serde_json::Value>(bytes).ok()
}

/// Relies on serde_json::Value::as_bool: the boolean held, when the
/// value is one.
#[verifier::external_body]
pub fn json_as_bool(v: &serde_json::Value) -> (r: Option<bool>)
    ensures
        r == (match json_data(*v) {
            JsonData::Bool(b) => Some(b),
            _ => None::<bool>,
        }),
{
    v.as_bool()
}

/// Relies on serde_json::Value::is_null.
#[verifier::external_body]
pub fn json_is_null(v: &serde_json::Value) -> (r: bool)
    ensures
        r <==> json_data(*v) is Null,
{
    v.is_null()
}

/// Relies on serde_json::Value::is_array.
#[verifier::external_body]
pub fn json_is_list(v: &serde_json::Value) -> (r: bool)
    ensures
        r <==> json_data(*v) is List,
{
    v.is_array()
}

/// Relies on serde_json::Value::is_object.
#[verifier::external_body]
pub fn json_is_object(v: &serde_json::Value) -> (r: bool)
    ensures
        r <==> json_data(*v) is Object,
{
    v.is_object()
}

/// Relies on serde_json::Value::as_str: the string held, when the value
/// is one; returned as its bytes.
#[verifier::external_body]
pub fn json_as_text(v: &serde_json::Value) -> (r: Option<Vec<u8>>)
    ensures
        r is Some <==> json_data(*v) is Text,
        r matches Some(b) ==> json_data(*v) == JsonData::Text(b@),
{
    v.as_str().map(|s| s.as_bytes().to_vec())
}

/// Relies on serde_json::Value::get with a string index: the member of
/// an object under that key; `None` on any other value, or when the key
/// is absent. JSON object keys are UTF-8, so a key that is not valid
/// UTF-8 is under no object.
#[verifier::external_body]
pub fn json_get<'a>(v: &'a serde_json::Value, key: &[u8]) -> (r: Option<&'a serde_json::Value>)
    ensures
        r is Some <==> (json_data(*v) matches JsonData::Object(m) && m.dom().contains(key@)),
        r matches Some(f) ==> (json_data(*v) matches JsonData::Object(m) && json_data(*f)
            == m[key@]),
{
    match core::str::from_utf8(key) {
        Ok(k) => v.get(k),
        Err(_) => None,
    }
}

/// Relies on serde_json::Value::as_array: the elements held, when the
/// value is an array.
#[verifier::external_body]
pub fn json_as_list<'a>(v: &'a serde_json::Value) -> (r: Option<&'a Vec<serde_json::Value>>)
    ensures
        r is Some <==> json_data(*v) is List,
        r matches Some(a) ==> (json_data(*v) matches JsonData::List(s) && a@.len() == s.len()
            && forall|i: int| 0 <= i < s.len() ==> json_data(#[trigger] a@[i]) == s[i]),
{
    v.as_array()
}

/// The bytes of a byte string decoded lossily and re-encoded, as
/// String::from_utf8_lossy yields them: valid UTF-8 passes through,
/// invalid sequences become the replacement character. A pure function
/// of the bytes.
pub uninterp spec fn utf8_lossy(s: Seq<u8>) -> Seq<u8>;

/// Relies on String::from_utf8_lossy: decodes the bytes; per its
/// documentation, valid UTF-8 — ASCII included — passes through
/// unchanged.
#[verifier::external_body]
pub fn lossy_decode(s: &[u8]) -> (r: Vec<u8>)
    ensures
        r@ == utf8_lossy(s@),
        (forall|i: int| 0 <= i < s@.len() ==> s@[i] < 128) ==> r@ == s@,
{
    String::from_utf8_lossy(s).into_owned().into_bytes()
}

/// What serde_json's serializer prints for a value; a pure function of
/// the value.
pub uninterp spec fn json_serialized(v: serde_json::Value) -> Seq<u8>;

/// Relies on serde_json::to_vec: serializes the value, which for a
/// `Value` (string keys throughout) cannot fail.
#[verifier::external_body]
pub fn json_to_bytes(v: &serde_json::Value) -> (r: Vec<u8>)
    ensures
        r@ == json_serialized(*v),
{
    serde_json::to_vec(v).unwrap_or_else(|_| Vec::new())
}

/// Relies on serde_json::Value::clone: the copy holds the same
/// document.
#[verifier::external_body]
pub fn json_clone(v: &serde_json::Value) -> (r: serde_json::Value)
    ensures
        json_data(r) == json_data(*v),
{
    v.clone()
}

/// Relies on serde_json::Value::String: a string value from the bytes,
/// decoded lossily.
#[verifier::external_body]
pub fn json_text_value(s: &[u8]) -> (r: serde_json::Value)
    ensures
        json_data(r) == JsonData::Text(utf8_lossy(s@)),
{
    serde_json::Value::String(String::from_utf8_lossy(s).into_owned())
}

/// The array document of an element list.
pub open spec fn list_data_of(items: Seq<serde_json::Value>) -> JsonData {
    JsonData::List(Seq::new(items.len(), |i: int| json_data(items[i])))
}

/// Relies on serde_json::Value::Array: an array value of the given
/// elements, in order.
#[verifier::external_body]
pub fn json_list_value(items: Vec<serde_json::Value>) -> (r: serde_json::Value)
    ensures
        json_data(r) == list_data_of(items@),
{
    serde_json::Value::Array(items)
}

/// The documents of an entry list, keys decoded lossily.
pub open spec fn view_value_entries(s: Seq<(Vec<u8>, serde_json::Value)>) -> Seq<
    (Seq<u8>, JsonData),
> {
    Seq::new(s.len(), |i: int| (utf8_lossy(s[i].0@), json_data(s[i].1)))
}

/// Relies on serde_json::Value::Object and Map::from_iter: an object
/// value of the given members, a later entry for a key shadowing an
/// earlier one.
#[verifier::external_body]
pub fn json_object_value(entries: Vec<(Vec<u8>, serde_json::Value)>) -> (r: serde_json::Value)
    ensures
        json_data(r) == JsonData::Object(
            crate::options::pairs_to_map(view_value_entries(entries@)),
        ),
{
    serde_json::Value::Object(
        entries
            .into_iter()
            .map(|(k, v)| (String::from_utf8_lossy(&k).into_owned(), v))
            .collect(),
    )
}

/// Relies on serde_json::Value::as_object and Map::iter: every member of
/// an object, each key once, keys as their bytes. Keys come from
/// strings, so they are valid UTF-8 and the lossy decoding leaves them
/// unchanged.
#[verifier::external_body]
pub fn json_object_entries(v: &serde_json::Value) -> (r: Option<
    Vec<(Vec<u8>, serde_json::Value)>,
>)
    ensures
        r is Some <==> json_data(*v) is Object,
        r matches Some(es) ==> (json_data(*v) matches JsonData::Object(m) && (forall|i: int|
            0 <= i < es@.len() ==> m.dom().contains((#[trigger] es@[i]).0@) && json_data(es@[i].1)
                == m[es@[i].0@]) && (forall|i: int, j: int|
            0 <= i < j < es@.len() ==> (#[trigger] es@[i]).0@ != (#[trigger] es@[j]).0@) && (
        forall|k: Seq<u8>|
            m.dom().contains(k) ==> exists|i: int|
                0 <= i < es@.len() && (#[trigger] es@[i]).0@ == k) && (forall|i: int|
            0 <= i < es@.len() ==> utf8_lossy((#[trigger] es@[i]).0@) == es@[i].0@)),
{
    v.as_object().map(
        |m| m.iter().map(|(k, val)| (k.as_bytes().to_vec(), val.clone())).collect(),
    )
}

} // verus!
