use vstd::prelude::*;

verus! {

/// JSON documents (job arguments) are carried through the library unread.
#[verifier::external_type_specification]
#[verifier::external_body]
pub struct ExJsonValue(serde_json::Value);

/// What `v[key].as_i64()` gives on a JSON document: the integer under
/// `key` when `v` is an object holding one that fits in an `i64`, else
/// `None`.
pub uninterp spec fn json_i64_field(v: serde_json::Value, key: Seq<char>) -> Option<i64>;

/// `serde_json::Value`'s indexing by a string key followed by
/// `Value::as_i64`. Indexing never panics on a string key (it gives `Null`
/// when `v` is not an object or has no such key), and the result depends on
/// the document and the key alone; it is given only by name.
#[verifier::external_body]
pub(crate) fn json_i64_at(v: &serde_json::Value, key: &str) -> (r: Option<i64>)
    ensures
        r == json_i64_field(*v, key@),
{
    v[key].as_i64()
}

} // verus!
