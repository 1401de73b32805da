//! The calls into serde_json that the library makes, with what they promise.
use vstd::prelude::*;

verus! {

#[verifier::external_type_specification]
#[verifier::external_body]
pub struct ExJsonValue(serde_json::Value);

#[verifier::external_type_specification]
#[verifier::external_body]
pub struct ExJsonError(serde_json::Error);

#[verifier::external_type_specification]
#[verifier::external_body]
#[verifier::reject_recursive_types(K)]
#[verifier::reject_recursive_types(V)]
pub struct ExJsonMap<K, V>(serde_json::Map<K, V>);

/// What a JSON value holds, as far as the library reads it: the text of a
/// string, the elements of an array, and the members of an object in the
/// order in which serde_json's map hands them out. A number's digits are
/// not modelled.
pub enum JsonModel {
    Null,
    Bool(bool),
    Number,
    Str(Seq<char>),
    Array(Seq<JsonModel>),
    Object(Seq<(Seq<char>, JsonModel)>),
}

/// What a parsed `serde_json::Value` holds.
pub uninterp spec fn json_model(v: serde_json::Value) -> JsonModel;

/// The members of a `serde_json::Map`, in the order of its iterator.
pub uninterp spec fn map_model(m: serde_json::Map<String, serde_json::Value>) -> Seq<
    (Seq<char>, JsonModel),
>;

/// The value that serde_json reads from a text, `None` where it refuses the
/// text. It depends on the text alone.
pub uninterp spec fn parsed_json(s: Seq<char>) -> Option<JsonModel>;

/// The value under `key` among an object's members.
pub open spec fn find_member(ms: Seq<(Seq<char>, JsonModel)>, key: Seq<char>) -> Option<JsonModel>
    decreases ms.len(),
{
    if ms.len() == 0 {
        None
    } else if ms.last().0 == key {
        Some(ms.last().1)
    } else {
        find_member(ms.drop_last(), key)
    }
}

/// The member of an object under `key`; `None` for a missing key or a value
/// that is no object.
pub open spec fn model_member(v: JsonModel, key: Seq<char>) -> Option<JsonModel> {
    match v {
        JsonModel::Object(ms) => find_member(ms, key),
        _ => None,
    }
}

/// The element of an array at `i`; `None` out of range or for a value that
/// is no array.
pub open spec fn model_element(v: JsonModel, i: int) -> Option<JsonModel> {
    match v {
        JsonModel::Array(xs) => if 0 <= i < xs.len() {
            Some(xs[i])
        } else {
            None
        },
        _ => None,
    }
}

/// Relies on `serde_json::from_str::<Value>`: it reads the one JSON value that
/// the text holds, or fails.
#[verifier::external_body]
pub(crate) fn parse_json(s: &str) -> (r: Result<serde_json::Value, serde_json::Error>)
    ensures
        r is Ok <==> parsed_json(s@) is Some,
        r matches Ok(v) ==> parsed_json(s@) == Some(json_model(v)),
{
    serde_json::from_str(s)
}

/// Relies on `serde_json::Value::get` with a string key: the member of an
/// object under that key, `None` for a missing key or a value that is no object.
#[verifier::external_body]
pub(crate) fn member<'a>(v: &'a serde_json::Value, key: &str) -> (r: Option<&'a serde_json::Value>)
    ensures
        r is None <==> model_member(json_model(*v), key@) is None,
        r matches Some(x) ==> model_member(json_model(*v), key@) == Some(json_model(*x)),
{
    v.get(key)
}

/// Relies on `serde_json::Value::get` with an index: the element of an array
/// at that index, `None` when out of range or for a value that is no array.
#[verifier::external_body]
pub(crate) fn element(v: &serde_json::Value, i: usize) -> (r: Option<&serde_json::Value>)
    ensures
        r is None <==> model_element(json_model(*v), i as int) is None,
        r matches Some(x) ==> model_element(json_model(*v), i as int) == Some(json_model(*x)),
{
    v.get(i)
}

/// Relies on `serde_json::Value::as_object`: the map of an object, `None` for
/// any other value.
pub assume_specification[ serde_json::Value::as_object ](v: &serde_json::Value) -> (r: Option<
    &serde_json::Map<String, serde_json::Value>,
>)
    ensures
        r is Some <==> json_model(*v) is Object,
        r matches Some(m) ==> json_model(*v) == JsonModel::Object(map_model(*m)),
;

/// Relies on `serde_json::Value::as_str`: the text of a string, `None` for
/// any other value.
pub assume_specification[ serde_json::Value::as_str ](v: &serde_json::Value) -> (r: Option<&str>)
    ensures
        r is Some <==> json_model(*v) is Str,
        r matches Some(t) ==> json_model(*v) == JsonModel::Str(t@),
;

/// Relies on `serde_json::Map::iter`: each member of the map once, in the
/// map's order, so no key occurs twice.
#[verifier::external_body]
pub(crate) fn object_members(m: &serde_json::Map<String, serde_json::Value>) -> (r: Vec<
    (String, &serde_json::Value),
>)
    ensures
        r@.len() == map_model(*m).len(),
        forall|i: int|
            0 <= i < r@.len() ==> r@[i].0@ == map_model(*m)[i].0 && json_model(*r@[i].1)
                == map_model(*m)[i].1,
        forall|i: int, j: int| 0 <= i < j < r@.len() ==> r@[i].0@ != r@[j].0@,
{
    m.iter().map(|(k, x)| (k.clone(), x)).collect()
}

} // verus!
