//! JSON objects, kept by `serde_json` and seen here as maps from field names to values.

use vstd::prelude::*;

verus! {

/// What a field of a JSON object holds, as far as this crate reads it.
pub enum JsonField {
    /// A string.
    Text(Seq<char>),
    /// A number that is an unsigned integer of at most 64 bits.
    Unsigned(u64),
    /// Anything else.
    Other,
}

/// `serde_json::Map`, the collection that holds the fields of a JSON object.
#[verifier::external_type_specification]
#[verifier::external_body]
#[verifier::reject_recursive_types(K)]
#[verifier::reject_recursive_types(V)]
pub struct ExJsonMap<K, V>(serde_json::Map<K, V>);

/// `serde_json::Value`, any JSON value.
#[verifier::external_type_specification]
#[verifier::external_body]
pub struct ExJsonValue(serde_json::Value);

/// The fields that a `serde_json` object holds.
pub uninterp spec fn json_fields(object: serde_json::Map<String, serde_json::Value>) -> Map<
    Seq<char>,
    JsonField,
>;

/// The fields of the JSON object that `text` spells, `None` where it spells none.
pub uninterp spec fn json_object_in_text(text: Seq<char>) -> Option<Map<Seq<char>, JsonField>>;

/// The fields of the JSON object that `bytes` spell, `None` where they spell none.
pub uninterp spec fn json_object_in_bytes(bytes: Seq<u8>) -> Option<Map<Seq<char>, JsonField>>;

/// The text that spells an object of strings and unsigned integers with the given fields.
pub uninterp spec fn json_object_text(fields: Map<Seq<char>, JsonField>) -> Seq<char>;

/// The fields of the object that has none.
pub open spec fn no_fields() -> Map<Seq<char>, JsonField> {
    Map::empty()
}

/// The text of the string field `name`, `None` where there is no such field or it holds
/// something else.
pub open spec fn text_of(fields: Map<Seq<char>, JsonField>, name: Seq<char>) -> Option<Seq<char>> {
    if fields.dom().contains(name) {
        match fields[name] {
            JsonField::Text(text) => Some(text),
            _ => None,
        }
    } else {
        None
    }
}

/// The number in the field `name`, `None` where there is no such field or it holds something
/// else than an unsigned integer.
pub open spec fn unsigned_of(fields: Map<Seq<char>, JsonField>, name: Seq<char>) -> Option<u64> {
    if fields.dom().contains(name) {
        match fields[name] {
            JsonField::Unsigned(number) => Some(number),
            _ => None,
        }
    } else {
        None
    }
}

/// Every field is a string or an unsigned integer.
pub open spec fn is_flat(fields: Map<Seq<char>, JsonField>) -> bool {
    forall|name: Seq<char>| #[trigger]
        fields.dom().contains(name) ==> !(fields[name] is Other)
}

/// `serde_json::from_str` into an object. Claimed: whether the text is a JSON object, and
/// with which fields, depends on the text alone.
#[verifier::external_body]
pub(crate) fn object_from_text(text: &str) -> (object: Option<
    serde_json::Map<String, serde_json::Value>,
>)
    ensures
        match object {
            Some(object) => json_object_in_text(text@) == Some(json_fields(object)),
            None => json_object_in_text(text@) is None,
        },
{
    serde_json::from_str(text).ok()
}

/// `serde_json::from_slice` into a value, kept where the value is an object. Claimed: whether
/// the bytes are a JSON object, and with which fields, depends on the bytes alone.
#[verifier::external_body]
pub(crate) fn object_from_bytes(bytes: &[u8]) -> (object: Option<
    serde_json::Map<String, serde_json::Value>,
>)
    ensures
        match object {
            Some(object) => json_object_in_bytes(bytes@) == Some(json_fields(object)),
            None => json_object_in_bytes(bytes@) is None,
        },
{
    match serde_json::from_slice::<serde_json::Value>(bytes) {
        Ok(serde_json::Value::Object(object)) => Some(object),
        Ok(_) => None,
        Err(_) => None,
    }
}

/// `serde_json::Map::keys`. Claimed: every field name comes out, once, and nothing else does.
/// The order is left open.
#[verifier::external_body]
pub(crate) fn field_names(object: &serde_json::Map<String, serde_json::Value>) -> (names: Vec<
    String,
>)
    ensures
        forall|i: int|
            0 <= i < names@.len() ==> json_fields(*object).dom().contains(#[trigger] names@[i]@),
        forall|name: Seq<char>| #[trigger]
            json_fields(*object).dom().contains(name) ==> exists|i: int|
                0 <= i < names@.len() && #[trigger] names@[i]@ == name,
        forall|i: int, j: int|
            0 <= i < j < names@.len() ==> #[trigger] names@[i]@ != #[trigger] names@[j]@,
{
    object.keys().cloned().collect()
}

/// `serde_json::Map::get` with `serde_json::Value::as_str`. Claimed: the text of a string
/// field, nothing for a missing field or one that holds something else.
#[verifier::external_body]
pub(crate) fn text_field<'a>(
    object: &'a serde_json::Map<String, serde_json::Value>,
    name: &str,
) -> (text: Option<&'a str>)
    ensures
        match text {
            Some(text) => text_of(json_fields(*object), name@) == Some(text@),
            None => text_of(json_fields(*object), name@) is None,
        },
{
    object.get(name).and_then(serde_json::Value::as_str)
}

/// `serde_json::Map::get` with `serde_json::Value::as_u64`. Claimed: the number of an unsigned
/// integer field, nothing for a missing field or one that holds something else.
#[verifier::external_body]
pub(crate) fn unsigned_field(
    object: &serde_json::Map<String, serde_json::Value>,
    name: &str,
) -> (number: Option<u64>)
    ensures
        number == unsigned_of(json_fields(*object), name@),
{
    object.get(name).and_then(serde_json::Value::as_u64)
}

/// `serde_json::Map::new`. Claimed: the object has no field.
#[verifier::external_body]
pub(crate) fn empty_object() -> (object: serde_json::Map<String, serde_json::Value>)
    ensures
        json_fields(object) == no_fields(),
{
    serde_json::Map::new()
}

/// `serde_json::Map::insert` of a string. Claimed: the field holds that string afterwards and
/// no other field changes.
#[verifier::external_body]
pub(crate) fn put_text(
    object: &mut serde_json::Map<String, serde_json::Value>,
    name: &str,
    text: &str,
)
    ensures
        json_fields(*final(object)) == json_fields(*old(object)).insert(
            name@,
            JsonField::Text(text@),
        ),
{
    object.insert(name.to_owned(), serde_json::Value::String(text.to_owned()));
}

/// `serde_json::Map::insert` of an unsigned integer. Claimed: the field holds that number
/// afterwards and no other field changes.
#[verifier::external_body]
pub(crate) fn put_unsigned(
    object: &mut serde_json::Map<String, serde_json::Value>,
    name: &str,
    number: u64,
)
    ensures
        json_fields(*final(object)) == json_fields(*old(object)).insert(
            name@,
            JsonField::Unsigned(number),
        ),
{
    object.insert(name.to_owned(), serde_json::Value::from(number));
}

/// `serde_json::Value::to_string` of an object. Claimed, for an object of strings and unsigned
/// integers: the text depends on the fields alone, as the map walks them in the order of their
/// names, and reading the text back gives the fields again. Nothing is claimed of an object
/// that holds another value.
#[verifier::external_body]
pub(crate) fn object_to_text(object: serde_json::Map<String, serde_json::Value>) -> (text: String)
    ensures
        is_flat(json_fields(object)) ==> text@ == json_object_text(json_fields(object)),
        is_flat(json_fields(object)) ==> json_object_in_text(text@) == Some(json_fields(object)),
{
    serde_json::Value::Object(object).to_string()
}

} // verus!
