//! Trusted boundary to the JSON parser. A parsed configuration document
//! is a serde_json value; the names below model what such a tree holds —
//! the kind of a value, the member of an object under a key, and the
//! payload of a scalar — and each trusted accessor's contract is stated
//! over them. Every decision on what the tree holds is then taken by
//! verified code in the document module.

use vstd::prelude::*;

verus! {

#[verifier::external_type_specification]
#[verifier::external_body]
pub struct ExValue(serde_json::Value);

/// The kind of a JSON value.
pub ghost enum JsonKind {
    Null,
    Boolean,
    Number,
    Text,
    Array,
    Object,
}

/// What kind a JSON value is: a name for the tree's shape, a function of
/// the value alone.
pub uninterp spec fn json_kind(v: serde_json::Value) -> JsonKind;

/// The member of a JSON object under a key, `None` when the value is no
/// object or has no such member: a name for the tree's contents.
pub uninterp spec fn json_member(v: serde_json::Value, key: Seq<char>) -> Option<
    serde_json::Value,
>;

/// The unsigned integer a JSON number holds, when it holds one.
pub uninterp spec fn json_u64(v: serde_json::Value) -> Option<u64>;

/// The characters a JSON string holds, when the value is one.
pub uninterp spec fn json_string(v: serde_json::Value) -> Option<Seq<char>>;

/// The boolean a JSON value holds, when it is one.
pub uninterp spec fn json_bool(v: serde_json::Value) -> Option<bool>;

/// The tree the JSON parser yields for a text, `None` when it rejects the
/// text: a name for the parser's result, a function of the text alone.
pub uninterp spec fn json_tree_of(s: Seq<char>) -> Option<serde_json::Value>;

/// Relies on serde_json::from_str::<serde_json::Value>: parses a text
/// into its tree, failing on whatever the parser rejects (a nesting depth
/// beyond its limit included). The result carries the name
/// [`json_tree_of`]; nothing more is assumed of it.
#[verifier::external_body]
pub(crate) fn parse_json_text(s: &str) -> (r: Option<serde_json::Value>)
    ensures
        match r {
            Some(v) => json_tree_of(s@) == Some(v),
            None => json_tree_of(s@) is None,
        },
{
    serde_json::from_str(s).ok()
}

/// Relies on serde_json::Value::is_object: whether the value is a JSON
/// object.
#[verifier::external_body]
pub(crate) fn json_is_object(v: &serde_json::Value) -> (r: bool)
    ensures
        r == (json_kind(*v) is Object),
{
    v.is_object()
}

/// Relies on serde_json::Value::is_null: whether the value is JSON `null`.
#[verifier::external_body]
pub(crate) fn json_is_null(v: &serde_json::Value) -> (r: bool)
    ensures
        r == (json_kind(*v) is Null),
{
    v.is_null()
}

/// Relies on serde_json::Value::get with a string index: the member of a
/// JSON object under `key`, `None` when the value is no object or has no
/// such member.
#[verifier::external_body]
pub(crate) fn json_get<'a>(v: &'a serde_json::Value, key: &str) -> (r: Option<
    &'a serde_json::Value,
>)
    ensures
        match r {
            Some(m) => json_member(*v, key@) == Some(*m),
            None => json_member(*v, key@) is None,
        },
{
    v.get(key)
}

/// Relies on serde_json::Value::as_u64: the value as an unsigned integer,
/// `None` when it is not an unsigned JSON number.
#[verifier::external_body]
pub(crate) fn json_as_u64(v: &serde_json::Value) -> (r: Option<u64>)
    ensures
        r == json_u64(*v),
{
    v.as_u64()
}

/// Relies on serde_json::Value::as_str, with a one-for-one copy to an
/// owned string: the value as a string, `None` when it is not a JSON
/// string.
#[verifier::external_body]
pub(crate) fn json_as_string(v: &serde_json::Value) -> (r: Option<String>)
    ensures
        match r {
            Some(s) => json_string(*v) == Some(s@),
            None => json_string(*v) is None,
        },
{
    v.as_str().map(|s| s.to_owned())
}

/// Relies on serde_json::Value::as_bool: the value as a boolean, `None`
/// when it is not a JSON boolean.
#[verifier::external_body]
pub(crate) fn json_as_bool(v: &serde_json::Value) -> (r: Option<bool>)
    ensures
        r == json_bool(*v),
{
    v.as_bool()
}

} // verus!
