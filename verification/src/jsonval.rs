//! Trusted declarations over `serde_json`: the opaque JSON value type,
//! a mathematical model of the documents it holds, and thin wrappers
//! around its accessors, each specified over that model. Verified
//! decoding walks values through these alone.

use vstd::prelude::*;

verus! {

#[verifier::external_type_specification]
#[verifier::external_body]
pub struct ExValue(serde_json::Value);

#[verifier::external_type_specification]
#[verifier::external_body]
#[verifier::reject_recursive_types(K)]
#[verifier::reject_recursive_types(V)]
pub struct ExMap<K, V>(serde_json::Map<K, V>);

/// The mathematical shape of a JSON document. A number is kept as the
/// integer it denotes when it lies in serde_json's signed or unsigned
/// 64-bit range, and abstract otherwise.
pub ghost enum JsonView {
    Null,
    Bool(bool),
    Int(int),
    NonIntNumber,
    Str(Seq<char>),
    Arr(Seq<JsonView>),
    Obj(Seq<(Seq<char>, JsonView)>),
}

/// What a parsed value holds: the document's shape.
pub uninterp spec fn value_view(v: serde_json::Value) -> JsonView;

/// What a parsed object holds: its members, in iteration order. Keys
/// are unique.
pub uninterp spec fn map_view(m: serde_json::Map<String, serde_json::Value>) -> Seq<
    (Seq<char>, JsonView),
>;

/// What serde_json::from_slice returns for these bytes: the document's
/// shape when they parse as JSON, nothing when they are refused.
pub uninterp spec fn json_of(bytes: Seq<u8>) -> Option<JsonView>;

/// What serde_json::from_str returns for this text.
pub uninterp spec fn json_of_str(text: Seq<char>) -> Option<JsonView>;

/// The member of an object under a key: the first entry carrying it.
pub open spec fn obj_lookup(ms: Seq<(Seq<char>, JsonView)>, key: Seq<char>) -> Option<JsonView>
    decreases ms.len(),
{
    if ms.len() == 0 {
        None
    } else if ms[0].0 == key {
        Some(ms[0].1)
    } else {
        obj_lookup(ms.skip(1), key)
    }
}

/// Relies on serde_json::from_slice: parses bytes as one JSON value;
/// malformed input is refused. The outcome depends on the bytes alone
/// and is named `json_of`.
#[verifier::external_body]
pub fn json_from_slice(bytes: &[u8]) -> (r: Option<serde_json::Value>)
    ensures
        match r {
            Some(v) => json_of(bytes@) == Some(value_view(v)),
            None => json_of(bytes@) is None,
        },
{
    match serde_json::from_slice(bytes) {
        Ok(v) => Some(v),
        Err(_) => None,
    }
}

/// Relies on serde_json::from_str: parses a string as one JSON value;
/// malformed input is refused. The outcome depends on the text alone
/// and is named `json_of_str`.
#[verifier::external_body]
pub fn json_from_str(s: &str) -> (r: Option<serde_json::Value>)
    ensures
        match r {
            Some(v) => json_of_str(s@) == Some(value_view(v)),
            None => json_of_str(s@) is None,
        },
{
    match serde_json::from_str(s) {
        Ok(v) => Some(v),
        Err(_) => None,
    }
}

/// Relies on serde_json::Value::get: the member of an object under a
/// key, when the value is an object and has it; object keys are
/// unique, so the first entry is the one.
#[verifier::external_body]
pub fn json_get<'a>(v: &'a serde_json::Value, key: &str) -> (r: Option<&'a serde_json::Value>)
    ensures
        match value_view(*v) {
            JsonView::Obj(ms) => match r {
                Some(x) => obj_lookup(ms, key@) == Some(value_view(*x)),
                None => obj_lookup(ms, key@) is None,
            },
            _ => r is None,
        },
{
    v.get(key)
}

/// Relies on serde_json::Value::as_str: the text of a JSON string.
#[verifier::external_body]
pub fn json_as_str<'a>(v: &'a serde_json::Value) -> (r: Option<&'a str>)
    ensures
        match r {
            Some(s) => value_view(*v) == JsonView::Str(s@),
            None => !(value_view(*v) is Str),
        },
{
    v.as_str()
}

/// Relies on serde_json::Value::as_i64: a JSON number as `i64`, when
/// it is an integer in the signed 64-bit range.
#[verifier::external_body]
pub fn json_as_i64(v: &serde_json::Value) -> (r: Option<i64>)
    ensures
        r matches Some(n) ==> value_view(*v) == JsonView::Int(n as int),
        r is None ==> (value_view(*v) matches JsonView::Int(k) ==> !(i64::MIN <= k <= i64::MAX)),
{
    v.as_i64()
}

/// Relies on serde_json::Value::as_u64: a JSON number as `u64`, when
/// it is an integer in the unsigned 64-bit range.
#[verifier::external_body]
pub fn json_as_u64(v: &serde_json::Value) -> (r: Option<u64>)
    ensures
        r matches Some(n) ==> value_view(*v) == JsonView::Int(n as int),
        r is None ==> (value_view(*v) matches JsonView::Int(k) ==> !(0 <= k <= u64::MAX)),
{
    v.as_u64()
}

/// Relies on serde_json::Value::as_bool: a JSON boolean.
#[verifier::external_body]
pub fn json_as_bool(v: &serde_json::Value) -> (r: Option<bool>)
    ensures
        r matches Some(b) ==> value_view(*v) == JsonView::Bool(b),
        r is None ==> !(value_view(*v) is Bool),
{
    v.as_bool()
}

/// Relies on serde_json::Value::is_null: whether the value is JSON
/// null.
#[verifier::external_body]
pub fn json_is_null(v: &serde_json::Value) -> (r: bool)
    ensures
        r == (value_view(*v) is Null),
{
    v.is_null()
}

/// Relies on serde_json::Value::as_array: the elements of a JSON
/// array, in order.
#[verifier::external_body]
pub fn json_as_array<'a>(v: &'a serde_json::Value) -> (r: Option<&'a Vec<serde_json::Value>>)
    ensures
        match r {
            Some(a) => value_view(*v) matches JsonView::Arr(elems) && elems.len() == a@.len()
                && (forall|i: int|
                0 <= i < a@.len() ==> value_view(#[trigger] a@[i]) == elems[i]),
            None => !(value_view(*v) is Arr),
        },
{
    v.as_array()
}

/// Relies on serde_json::Value::as_object: the members of a JSON
/// object.
#[verifier::external_body]
pub fn json_as_object<'a>(v: &'a serde_json::Value) -> (r: Option<
    &'a serde_json::Map<String, serde_json::Value>,
>)
    ensures
        match r {
            Some(m) => value_view(*v) matches JsonView::Obj(ms) && map_view(*m) == ms,
            None => !(value_view(*v) is Obj),
        },
{
    v.as_object()
}

/// Relies on serde_json::Map::iter: the members of an object, as
/// key-value pairs in the map's order.
#[verifier::external_body]
pub fn json_object_entries<'a>(m: &'a serde_json::Map<String, serde_json::Value>) -> (r: Vec<
    (&'a String, &'a serde_json::Value),
>)
    ensures
        r@.len() == map_view(*m).len(),
        forall|i: int|
            0 <= i < r@.len() ==> (#[trigger] r@[i]).0@ == map_view(*m)[i].0 && value_view(
                *r@[i].1,
            ) == map_view(*m)[i].1,
{
    m.iter().collect()
}

} // verus!
