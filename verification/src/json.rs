//! JSON documents as this library sees them.
//!
//! Reading and printing JSON text is done by `serde_json`. A document in
//! memory is a `serde_json::Value`, which the verifier cannot look into, so
//! contracts speak of its model, a [`Json`] tree. Every item in this file that
//! names `serde_json` is believed, not proved: each says what it believes.
use vstd::prelude::*;

verus! {

/// The mathematical model of a JSON document.
pub enum Json {
    Null,
    Bool(bool),
    /// A number, by the decimal text that is printed for it.
    Number(Seq<char>),
    Text(Seq<char>),
    Items(Seq<Json>),
    /// An object: its member names, each with its value.
    Object(Map<Seq<char>, Json>),
}

/// The member of `document` called `name`: `None` where `document` is no
/// object, or has no such member.
pub open spec fn member_of(document: Json, name: Seq<char>) -> Option<Json> {
    match document {
        Json::Object(members) => if members.contains_key(name) {
            Some(members[name])
        } else {
            None
        },
        _ => None,
    }
}

/// `serde_json::Value`, a document in memory. Proofs see nothing of its
/// inside; they speak of [`json_model`].
#[verifier::external_type_specification]
#[verifier::external_body]
pub struct ExValue(serde_json::Value);

/// `serde_json::Error`, what the reader and the printer report. It is carried
/// and never looked into.
#[verifier::external_type_specification]
#[verifier::external_body]
pub struct ExError(serde_json::Error);

/// `serde_json::Map`, the members of an object in memory. Proofs see nothing
/// of its inside; they speak of [`json_entries`].
#[verifier::external_type_specification]
#[verifier::external_body]
#[verifier::reject_recursive_types(K)]
#[verifier::reject_recursive_types(V)]
pub struct ExMap<K, V>(serde_json::Map<K, V>);

/// The document that a `serde_json::Value` holds.
pub uninterp spec fn json_model(value: serde_json::Value) -> Json;

/// The members that a `serde_json::Map` holds: each name with the document
/// stored under it.
pub uninterp spec fn json_entries(members: serde_json::Map<String, serde_json::Value>) -> Map<
    Seq<char>,
    Json,
>;

/// The document that `serde_json::from_str` reads from `text`, or `None` where
/// it reports an error.
pub uninterp spec fn json_parse(text: Seq<char>) -> Option<Json>;

/// The text that `serde_json::to_string` prints for a value that holds
/// `document`. As this library builds `serde_json`, without its
/// `preserve_order` feature, an object's members are printed in the order of
/// their names, and a number is in the model by its printed text: so the
/// text depends on the document alone.
pub uninterp spec fn json_rendering(document: Json) -> Seq<char>;

/// An object's members where it has none.
pub open spec fn without_members() -> Map<Seq<char>, Json> {
    Map::empty()
}

/// The documents that a sequence of values holds, one for one.
pub open spec fn json_models(values: Seq<serde_json::Value>) -> Seq<Json> {
    values.map_values(|value: serde_json::Value| json_model(value))
}

/// `serde_json::from_str` at type `Value`. It is a function of the text alone:
/// on success the value holds the document that the text denotes, and it
/// fails exactly where the text denotes none.
#[verifier::external_body]
pub(crate) fn parse_document(text: &str) -> (r: Result<serde_json::Value, serde_json::Error>)
    ensures
        match r {
            Ok(value) => json_parse(text@) == Some(json_model(value)),
            Err(_) => json_parse(text@).is_none(),
        },
{
    serde_json::from_str::<serde_json::Value>(text)
}

/// `serde_json::to_string` on a `Value`. It succeeds, and the text is the one
/// printed for the value's document. The printer's errors are those of its
/// writer, of an object member whose name is no string, and of a number under
/// the `arbitrary_precision` feature: here the writer is a `Vec<u8>`, every
/// name in a `Map` is a `String`, and the feature is off.
#[verifier::external_body]
pub(crate) fn render_document(value: &serde_json::Value) -> (r: Result<
    String,
    serde_json::Error,
>)
    ensures
        r is Ok,
        r matches Ok(text) ==> text@ == json_rendering(json_model(*value)),
{
    serde_json::to_string(value)
}

/// `Value::get` with a string index: the member of that name where the value
/// is an object that has one, `None` otherwise.
#[verifier::external_body]
pub(crate) fn member<'a>(value: &'a serde_json::Value, name: &str) -> (r: Option<
    &'a serde_json::Value,
>)
    ensures
        match r {
            Some(found) => member_of(json_model(*value), name@) == Some(json_model(*found)),
            None => member_of(json_model(*value), name@).is_none(),
        },
{
    value.get(name)
}

/// `Value::as_str`: the text of a string value, `None` for any other value.
pub assume_specification<'a>[ serde_json::Value::as_str ](value: &'a serde_json::Value) -> (r:
    Option<&'a str>)
    ensures
        match r {
            Some(text) => json_model(*value) == Json::Text(text@),
            None => !(json_model(*value) is Text),
        },
;

/// `Value::as_array`: the elements of an array value, `None` for any other
/// value.
pub assume_specification<'a>[ serde_json::Value::as_array ](value: &'a serde_json::Value) -> (r:
    Option<&'a Vec<serde_json::Value>>)
    ensures
        match r {
            Some(items) => json_model(*value) == Json::Items(json_models(items@)),
            None => !(json_model(*value) is Items),
        },
;

/// `Value::is_null`: whether the value is JSON's `null`.
pub assume_specification[ serde_json::Value::is_null ](value: &serde_json::Value) -> (r: bool)
    ensures
        r == (json_model(*value) is Null),
;

/// The variant `Value::Null`.
#[verifier::external_body]
pub(crate) fn null_value() -> (r: serde_json::Value)
    ensures
        json_model(r) == Json::Null,
{
    serde_json::Value::Null
}

/// The variant `Value::String`, which holds the text it is given.
#[verifier::external_body]
pub(crate) fn text_value(text: String) -> (r: serde_json::Value)
    ensures
        json_model(r) == Json::Text(text@),
{
    serde_json::Value::String(text)
}

/// The variant `Value::Array`, which holds the elements it is given, in their
/// order.
#[verifier::external_body]
pub(crate) fn items_value(items: Vec<serde_json::Value>) -> (r: serde_json::Value)
    ensures
        json_model(r) == Json::Items(json_models(items@)),
{
    serde_json::Value::Array(items)
}

/// The variant `Value::Object`, which holds the members it is given.
#[verifier::external_body]
pub(crate) fn object_value(members: serde_json::Map<String, serde_json::Value>) -> (r:
    serde_json::Value)
    ensures
        json_model(r) == Json::Object(json_entries(members)),
{
    serde_json::Value::Object(members)
}

/// `Map::new`: a map without members.
#[verifier::external_body]
pub(crate) fn no_members() -> (r: serde_json::Map<String, serde_json::Value>)
    ensures
        json_entries(r) == without_members(),
{
    serde_json::Map::new()
}

/// `Map::insert`: the value is stored under the name, in place of what was
/// stored there before; the other members stay.
#[verifier::external_body]
pub(crate) fn put_member(
    members: &mut serde_json::Map<String, serde_json::Value>,
    name: String,
    value: serde_json::Value,
)
    ensures
        json_entries(*final(members)) == json_entries(*old(members)).insert(
            name@,
            json_model(value),
        ),
{
    members.insert(name, value);
}

} // verus!
