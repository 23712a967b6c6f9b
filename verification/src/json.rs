//! The compiler's dump as it is read from JSON text, before any kind of node
//! is told apart.
//!
//! The text is read by `serde_json` into the node type of `clang_ast`, with a
//! JSON value for what each node holds. Nothing here is proved: each function
//! states what the crate it calls is known to do.

use crate::utils::identity_number;
use serde_json::Value;
use vstd::prelude::*;

verus! {

/// A JSON value. Of a number only that it is one is kept.
pub enum Json {
    Null,
    Bool(bool),
    Number,
    Text(Seq<char>),
    Array(Seq<Json>),
    Object(Map<Seq<char>, Json>),
}

/// A node of the dump: its identity, its fields other than `id` and `inner`
/// as a JSON object, and its children.
pub struct Dump {
    pub id: u64,
    pub fields: Json,
    pub inner: Seq<Dump>,
}

/// The JSON value of `serde_json`. Of what a value holds only `json_of`
/// speaks.
#[verifier::external_type_specification]
#[verifier::external_body]
pub struct ExValue(serde_json::Value);

/// The error of `serde_json`. Nothing is said of what it holds.
#[verifier::external_type_specification]
#[verifier::external_body]
pub struct ExJsonError(serde_json::Error);

/// The node of `clang_ast`. Of what a node holds only `dump_of` speaks.
#[verifier::external_type_specification]
#[verifier::external_body]
#[verifier::reject_recursive_types(T)]
pub struct ExRawNode<T>(clang_ast::Node<T>);

/// What a JSON value of `serde_json` holds.
pub uninterp spec fn json_of(value: Value) -> Json;

/// What a node of `clang_ast` holds whose kind is kept as a JSON value.
pub uninterp spec fn dump_of(node: clang_ast::Node<Value>) -> Dump;

/// The dump that `serde_json` and `clang_ast` read from `text`, where they
/// read one.
pub uninterp spec fn read_dump(text: Seq<char>) -> Option<Dump>;

/// `serde_json::from_str` for a node of `clang_ast`: succeeds where `text` is
/// read as a dump, and then gives that dump.
#[verifier::external_body]
pub(crate) fn parse_dump(text: &str) -> (r: Result<clang_ast::Node<Value>, serde_json::Error>)
    ensures
        r is Ok <==> read_dump(text@) is Some,
        r matches Ok(node) ==> Some(dump_of(node)) == read_dump(text@),
{
    serde_json::from_str(text)
}

/// `to_string` of the field `id` of a node of `clang_ast`: the crate shows
/// an identity as `0x` and the hexadecimal digits of its number.
#[verifier::external_body]
pub(crate) fn raw_id_text(node: &clang_ast::Node<Value>) -> (text: String)
    ensures
        identity_number(text@) == Some(dump_of(*node).id),
{
    node.id.to_string()
}

/// The field `kind` of a node of `clang_ast`: here the JSON object of the
/// node's fields.
#[verifier::external_body]
pub(crate) fn raw_fields(node: &clang_ast::Node<Value>) -> (fields: &Value)
    ensures
        json_of(*fields) == dump_of(*node).fields,
{
    &node.kind
}

/// The field `inner` of a node of `clang_ast`: the node's children.
#[verifier::external_body]
pub(crate) fn raw_inner(node: &clang_ast::Node<Value>) -> (inner: &Vec<clang_ast::Node<Value>>)
    ensures
        inner@.map_values(|child: clang_ast::Node<Value>| dump_of(child)) == dump_of(*node).inner,
{
    &node.inner
}

/// `Value::get` with a string: the value under `key` where `value` is an
/// object that has the key, else `None`.
#[verifier::external_body]
pub(crate) fn json_get<'a>(value: &'a Value, key: &str) -> (r: Option<&'a Value>)
    ensures
        match r {
            Some(found) => json_of(*value) matches Json::Object(map) && map.contains_key(key@)
                && json_of(*found) == map[key@],
            None => !(json_of(*value) matches Json::Object(map) && map.contains_key(key@)),
        },
{
    value.get(key)
}

/// `Value::as_str`: the text where `value` is a string, else `None`.
#[verifier::external_body]
pub(crate) fn json_str<'a>(value: &'a Value) -> (r: Option<&'a str>)
    ensures
        match r {
            Some(text) => json_of(*value) == Json::Text(text@),
            None => !(json_of(*value) is Text),
        },
{
    value.as_str()
}

/// `Value::as_bool`: the boolean where `value` is one, else `None`.
#[verifier::external_body]
pub(crate) fn json_bool(value: &Value) -> (r: Option<bool>)
    ensures
        match r {
            Some(b) => json_of(*value) == Json::Bool(b),
            None => !(json_of(*value) is Bool),
        },
{
    value.as_bool()
}

/// `Value::is_null`: whether `value` is `null`.
#[verifier::external_body]
pub(crate) fn json_is_null(value: &Value) -> (r: bool)
    ensures
        r == (json_of(*value) is Null),
{
    value.is_null()
}

/// `Value::is_object`: whether `value` is an object.
#[verifier::external_body]
pub(crate) fn json_is_object(value: &Value) -> (r: bool)
    ensures
        r == (json_of(*value) is Object),
{
    value.is_object()
}

} // verus!
