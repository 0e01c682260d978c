//! The boundary with `serde_json`: its value, number, map and error types, and
//! the few operations on them that the report logic needs.
//!
//! A `serde_json::Value` is opaque to the verifier. It is read one layer at a
//! time through [`unfold`], which hands out a [`Layer`] whose children are
//! again opaque values, and built one layer at a time through [`fold`].
use vstd::prelude::*;

verus! {

#[verifier::external_type_specification]
#[verifier::external_body]
pub struct ExValue(serde_json::Value);

#[verifier::external_type_specification]
#[verifier::external_body]
pub struct ExNumber(serde_json::Number);

#[verifier::external_type_specification]
#[verifier::external_body]
#[verifier::reject_recursive_types(K)]
#[verifier::reject_recursive_types(V)]
pub struct ExMap<K, V>(serde_json::Map<K, V>);

#[verifier::external_type_specification]
#[verifier::external_body]
pub struct ExError(serde_json::Error);

/// A JSON object as `serde_json` stores it.
pub type JsonMap = serde_json::Map<String, serde_json::Value>;

/// The outermost layer of a JSON value; nested values stay opaque.
pub enum Layer {
    Null,
    Bool(bool),
    Number(serde_json::Number),
    Str(String),
    Array(Vec<serde_json::Value>),
    Object(JsonMap),
}

/// The outermost layer of a value, as `serde_json::Value`'s variants give it.
pub uninterp spec fn layer_of(v: serde_json::Value) -> Layer;

/// The integer that `serde_json::Number::as_u64` reads from a number.
pub uninterp spec fn number_u64(n: serde_json::Number) -> Option<u64>;

/// The entries of a `serde_json::Map`, by key.
pub uninterp spec fn map_entries(m: JsonMap) -> Map<Seq<char>, serde_json::Value>;

/// The value that `serde_json::from_slice` reads from a text, if it is JSON.
pub uninterp spec fn parsed_text(b: Seq<u8>) -> Option<serde_json::Value>;

/// Whether two values are equal, as `PartialEq for serde_json::Value` finds.
pub uninterp spec fn json_eq(a: serde_json::Value, b: serde_json::Value) -> bool;

/// Relies on `PartialEq for serde_json::Value`, derived: it compares the two
/// trees variant by variant, so a value equals itself.
#[verifier::external_body]
pub(crate) fn values_equal(a: &serde_json::Value, b: &serde_json::Value) -> (r: bool)
    ensures
        r == json_eq(*a, *b),
        *a == *b ==> r,
{
    a == b
}

/// Relies on the variants of `serde_json::Value`: each one is taken apart,
/// its contents moved out unchanged.
#[verifier::external_body]
pub(crate) fn unfold(v: serde_json::Value) -> (r: Layer)
    ensures
        r == layer_of(v),
{
    match v {
        serde_json::Value::Null => Layer::Null,
        serde_json::Value::Bool(b) => Layer::Bool(b),
        serde_json::Value::Number(n) => Layer::Number(n),
        serde_json::Value::String(s) => Layer::Str(s),
        serde_json::Value::Array(a) => Layer::Array(a),
        serde_json::Value::Object(m) => Layer::Object(m),
    }
}

/// Relies on the variants of `serde_json::Value`: each layer is put back into
/// the variant that [`unfold`] takes it out of.
#[verifier::external_body]
pub(crate) fn fold(l: Layer) -> (r: serde_json::Value)
    ensures
        layer_of(r) == l,
{
    match l {
        Layer::Null => serde_json::Value::Null,
        Layer::Bool(b) => serde_json::Value::Bool(b),
        Layer::Number(n) => serde_json::Value::Number(n),
        Layer::Str(s) => serde_json::Value::String(s),
        Layer::Array(a) => serde_json::Value::Array(a),
        Layer::Object(m) => serde_json::Value::Object(m),
    }
}

/// Relies on `serde_json::Number::as_u64`: the integer, when the number holds
/// a non-negative integer.
#[verifier::external_body]
pub(crate) fn number_as_u64(n: &serde_json::Number) -> (r: Option<u64>)
    ensures
        r == number_u64(*n),
{
    n.as_u64()
}

/// Relies on `From<u64> for serde_json::Number`: a number that `as_u64` reads
/// back as the same integer.
#[verifier::external_body]
pub(crate) fn number_from_u64(u: u64) -> (r: serde_json::Number)
    ensures
        number_u64(r) == Some(u),
{
    serde_json::Number::from(u)
}

/// Relies on `serde_json::Map::new`: a map with no entries.
#[verifier::external_body]
pub(crate) fn map_new() -> (r: JsonMap)
    ensures
        map_entries(r).dom() =~= Set::empty(),
{
    serde_json::Map::new()
}

/// Relies on `serde_json::Map::insert`: the key now maps to the value, and
/// every other key is unchanged.
#[verifier::external_body]
pub(crate) fn map_insert(m: &mut JsonMap, k: String, v: serde_json::Value)
    ensures
        map_entries(*final(m)) == map_entries(*old(m)).insert(k@, v),
{
    m.insert(k, v);
}

/// Relies on `serde_json::Map::remove`: the value under the key, if any, is
/// moved out, and every other key is unchanged.
#[verifier::external_body]
pub(crate) fn map_remove(m: &mut JsonMap, k: &str) -> (r: Option<serde_json::Value>)
    ensures
        map_entries(*final(m)) == map_entries(*old(m)).remove(k@),
        r == map_entries(*old(m)).get(k@),
{
    m.remove(k)
}

/// Relies on `serde_json::from_slice`, reading a `serde_json::Value`: it fails
/// exactly when the bytes are not one JSON text.
#[verifier::external_body]
pub(crate) fn parse_text(b: &[u8]) -> (r: Result<serde_json::Value, serde_json::Error>)
    ensures
        match r {
            Ok(v) => parsed_text(b@) == Some(v),
            Err(_) => parsed_text(b@) is None,
        },
{
    serde_json::from_slice(b)
}

} // verus!
