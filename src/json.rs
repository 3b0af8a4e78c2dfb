//! What the library reads from JSON values, through serde_json.
use vstd::prelude::*;

verus! {

#[verifier::external_type_specification]
#[verifier::external_body]
pub struct ExValue(serde_json::Value);

#[verifier::external_type_specification]
#[verifier::external_body]
#[verifier::reject_recursive_types(K)]
#[verifier::reject_recursive_types(V)]
pub struct ExMap<K, V>(serde_json::Map<K, V>);

/// The members of a value, when it is an object.
pub uninterp spec fn json_object_of(v: serde_json::Value) -> Option<
    serde_json::Map<String, serde_json::Value>,
>;

/// The text of a value, when it is a string.
pub uninterp spec fn json_str_of(v: serde_json::Value) -> Option<Seq<char>>;

/// The number a value holds, when it is an integer that fits `u64`.
pub uninterp spec fn json_u64_of(v: serde_json::Value) -> Option<u64>;

/// The items of a value, when it is an array.
pub uninterp spec fn json_array_of(v: serde_json::Value) -> Option<Seq<serde_json::Value>>;

/// The member of an object under a key.
pub uninterp spec fn json_member_of(
    m: serde_json::Map<String, serde_json::Value>,
    key: Seq<char>,
) -> Option<serde_json::Value>;

/// Relies on serde_json's `Value::as_object`: the members of an object,
/// which depend on the value alone.
pub assume_specification[ serde_json::Value::as_object ](v: &serde_json::Value) -> (r: Option<
    &serde_json::Map<String, serde_json::Value>,
>)
    ensures
        match r {
            Some(m) => json_object_of(*v) == Some(*m),
            None => json_object_of(*v) is None,
        },
;

/// Relies on serde_json's `Value::as_array`: the items of an array, which
/// depend on the value alone.
pub assume_specification[ serde_json::Value::as_array ](v: &serde_json::Value) -> (r: Option<
    &Vec<serde_json::Value>,
>)
    ensures
        match r {
            Some(a) => json_array_of(*v) == Some(a@),
            None => json_array_of(*v) is None,
        },
;

/// Relies on serde_json's `Value::as_str`: the text of a string, which
/// depends on the value alone.
pub assume_specification[ serde_json::Value::as_str ](v: &serde_json::Value) -> (r: Option<&str>)
    ensures
        match r {
            Some(s) => json_str_of(*v) == Some(s@),
            None => json_str_of(*v) is None,
        },
;

/// Relies on serde_json's `Value::as_u64`: a number that fits `u64`, which
/// depends on the value alone.
pub assume_specification[ serde_json::Value::as_u64 ](v: &serde_json::Value) -> (r: Option<u64>)
    ensures
        r == json_u64_of(*v),
;

/// Relies on serde_json's `Map::get`: the member under `key`, which
/// depends on the map and the key alone.
#[verifier::external_body]
pub(crate) fn json_member<'a>(
    m: &'a serde_json::Map<String, serde_json::Value>,
    key: &str,
) -> (r: Option<&'a serde_json::Value>)
    ensures
        match r {
            Some(v) => json_member_of(*m, key@) == Some(*v),
            None => json_member_of(*m, key@) is None,
        },
{
    m.get(key)
}

} // verus!
