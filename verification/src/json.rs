//! What the configuration logic knows of `serde_json` values.

use serde_json::Value;
use vstd::prelude::*;

verus! {

/// A JSON value of `serde_json`.
#[verifier::external_type_specification]
#[verifier::external_body]
pub struct ExValue(serde_json::Value);

/// The key-value table inside a JSON object of `serde_json`.
#[verifier::external_type_specification]
#[verifier::external_body]
#[verifier::reject_recursive_types(K)]
#[verifier::reject_recursive_types(V)]
pub struct ExObject<K, V>(serde_json::Map<K, V>);

/// The entries of a JSON object's table, by key.
pub uninterp spec fn object_entries(object: serde_json::Map<String, Value>) -> Map<
    Seq<char>,
    Value,
>;

/// The entries of a value that is a JSON object, `None` for any other value.
pub uninterp spec fn value_entries(value: Value) -> Option<Map<Seq<char>, Value>>;

/// The text of a value that is a JSON string, `None` for any other value.
pub uninterp spec fn value_text(value: Value) -> Option<Seq<char>>;

/// `serde_json::Value::clone`: the copy is the value it was made from.
pub assume_specification[ <serde_json::Value as Clone>::clone ](value: &Value) -> (r: Value)
    ensures
        r == *value,
;

/// `serde_json::Value::as_object`: the table of an object, nothing for any other value.
pub assume_specification[ serde_json::Value::as_object ](value: &Value) -> (r: Option<
    &serde_json::Map<String, Value>,
>)
    ensures
        match r {
            Some(object) => value_entries(*value) == Some(object_entries(*object)),
            None => value_entries(*value) is None,
        },
;

/// `serde_json::Value::as_object_mut`: the table of an object, to change in place, and
/// nothing for any other value, which then stays as it was.
pub assume_specification[ serde_json::Value::as_object_mut ](value: &mut Value) -> (r: Option<
    &mut serde_json::Map<String, Value>,
>)
    ensures
        match r {
            Some(object) => value_entries(*old(value)) == Some(object_entries(*object))
                && value_entries(*final(value)) == Some(object_entries(*final(object))),
            None => value_entries(*old(value)) is None && *final(value) == *old(value),
        },
;

/// `serde_json::Value::as_str`: the text of a string, nothing for any other value.
pub assume_specification[ serde_json::Value::as_str ](value: &Value) -> (r: Option<&str>)
    ensures
        match r {
            Some(text) => value_text(*value) == Some(text@),
            None => value_text(*value) is None,
        },
;

/// `serde_json::Map::insert`: the key now leads to the new value, every other entry stays,
/// and the value that the key led to before comes back.
pub assume_specification[ serde_json::Map::<String, Value>::insert ](
    object: &mut serde_json::Map<String, Value>,
    k: String,
    v: Value,
) -> (r: Option<Value>)
    ensures
        object_entries(*final(object)) == object_entries(*old(object)).insert(k@, v),
        r == object_entries(*old(object)).get(k@),
;

/// `serde_json::Map::keys`, collected: every key of the object, each once.
#[verifier::external_body]
fn object_keys(object: &serde_json::Map<String, Value>) -> (r: Vec<String>)
    ensures
        forall|i: int, j: int| 0 <= i < j < r@.len() ==> #[trigger] r@[i]@ != #[trigger] r@[j]@,
        forall|i: int| 0 <= i < r@.len() ==> object_entries(*object).contains_key(#[trigger] r@[i]@),
        forall|k: Seq<char>| #[trigger]
            object_entries(*object).contains_key(k) ==> exists|i: int|
                0 <= i < r@.len() && #[trigger] r@[i]@ == k,
{
    object.keys().cloned().collect()
}

/// `serde_json::Map::get`: the value that the key leads to, nothing for an absent key.
#[verifier::external_body]
fn object_get<'a>(object: &'a serde_json::Map<String, Value>, key: &str) -> (r: Option<&'a Value>)
    ensures
        match r {
            Some(value) => object_entries(*object).get(key@) == Some(*value),
            None => !object_entries(*object).contains_key(key@),
        },
{
    object.get(key)
}

/// `serde_json::Value::get` with a text: the value that the key leads to in an object, nothing
/// for an absent key or for a value that is no object.
#[verifier::external_body]
pub(crate) fn value_get<'a>(value: &'a Value, key: &str) -> (r: Option<&'a Value>)
    ensures
        match r {
            Some(member) => value_entries(*value) is Some && value_entries(*value)->0.get(key@)
                == Some(*member),
            None => value_entries(*value) matches Some(entries) ==> !entries.contains_key(key@),
        },
{
    value.get(key)
}

/// Copies every entry of `other` into `object`, over what its keys led to before.
pub fn copy_entries(
    object: &mut serde_json::Map<String, Value>,
    other: &serde_json::Map<String, Value>,
)
    ensures
        object_entries(*final(object)) == object_entries(*old(object)).union_prefer_right(
            object_entries(*other),
        ),
{
    let keys = object_keys(other);
    let ghost before = object_entries(*object);
    let ghost added = object_entries(*other);
    let mut i: usize = 0;
    while i < keys.len()
        invariant
            i <= keys.len(),
            added == object_entries(*other),
            forall|j: int| 0 <= j < keys@.len() ==> added.contains_key(#[trigger] keys@[j]@),
            forall|k: Seq<char>| #[trigger]
                object_entries(*object).contains_key(k) <==> before.contains_key(k) || exists|
                    j: int,
                | 0 <= j < i && #[trigger] keys@[j]@ == k,
            forall|k: Seq<char>|
                object_entries(*object).contains_key(k) ==> #[trigger] object_entries(*object)[k]
                    == if exists|j: int| 0 <= j < i && #[trigger] keys@[j]@ == k {
                    added[k]
                } else {
                    before[k]
                },
        decreases keys.len() - i,
    {
        if let Some(value) = object_get(other, keys[i].as_str()) {
            let _ = object.insert(keys[i].clone(), value.clone());
        }
        i += 1;
    }
    assert(object_entries(*object) =~= before.union_prefer_right(added));
}

} // verus!
