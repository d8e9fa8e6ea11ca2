//! JSON values: the mathematical model of a `serde_json::Value`, and the
//! `serde_json` operations this crate relies on.
//!
//! `serde_json` is not verified. Each operation used from it is declared here
//! once, with a contract over the model that is taken on trust; everything
//! else in the crate is proved against these contracts.

use serde_json::Value;
use vstd::prelude::*;

verus! {

/// `serde_json::Value`, opaque to the verifier; its content is `json_view`.
#[verifier::external_type_specification]
#[verifier::external_body]
pub struct ExValue(serde_json::Value);

/// `serde_json::Map`, opaque to the verifier; its content is `object_view`.
#[verifier::external_type_specification]
#[verifier::external_body]
#[verifier::reject_recursive_types(K)]
#[verifier::reject_recursive_types(V)]
pub struct ExMap<K, V>(serde_json::Map<K, V>);

/// `serde_json::Error`, opaque to the verifier.
#[verifier::external_type_specification]
#[verifier::external_body]
pub struct ExError(serde_json::Error);

/// A JSON number.
pub enum NumberView {
    /// A non-negative integer.
    PosInt(u64),
    /// A negative integer.
    NegInt(i64),
    /// Any other number, identified by the 64 bits of its binary encoding.
    Binary(u64),
}

/// A JSON document as a mathematical tree. An object is a finite map from
/// member names to trees: member order is not part of the model.
pub enum JsonView {
    Null,
    Bool(bool),
    Number(NumberView),
    Str(Seq<char>),
    Array(Seq<JsonView>),
    Object(Map<Seq<char>, JsonView>),
}

/// The tree that a `serde_json::Value` holds.
pub uninterp spec fn json_view(v: Value) -> JsonView;

/// The members that a `serde_json::Map` holds.
pub uninterp spec fn object_view(m: serde_json::Map<String, Value>) -> Map<Seq<char>, JsonView>;

/// What `serde_json::from_str` makes of a text: the tree it describes, or
/// nothing where the text is rejected.
pub uninterp spec fn parsed(text: Seq<char>) -> Option<JsonView>;

/// The compact JSON text of a tree, as `serde_json` writes it.
pub uninterp spec fn compact_text(tree: JsonView) -> Seq<char>;

/// The indented JSON text of a tree, as `serde_json::to_string_pretty` writes
/// it, or nothing where that function reports an error.
pub uninterp spec fn pretty_text(tree: JsonView) -> Option<Seq<char>>;

/// The members of an object that has none.
pub open spec fn no_members() -> Map<Seq<char>, JsonView> {
    Map::empty()
}

/// The trees of a sequence of values, element by element.
pub open spec fn views(s: Seq<Value>) -> Seq<JsonView> {
    s.map_values(|v: Value| json_view(v))
}

/// The texts of a sequence of strings, element by element.
pub open spec fn texts(s: Seq<String>) -> Seq<Seq<char>> {
    s.map_values(|t: String| t@)
}

/// `Value::Null`: the JSON null.
#[verifier::external_body]
pub(crate) fn null() -> (v: Value)
    ensures
        json_view(v) == JsonView::Null,
{
    Value::Null
}

/// `Value::Bool`: a JSON boolean.
#[verifier::external_body]
pub(crate) fn boolean(b: bool) -> (v: Value)
    ensures
        json_view(v) == JsonView::Bool(b),
{
    Value::Bool(b)
}

/// `Value::from` on a `u64`: the number that is this non-negative integer.
#[verifier::external_body]
pub(crate) fn unsigned(n: u64) -> (v: Value)
    ensures
        json_view(v) == JsonView::Number(NumberView::PosInt(n)),
{
    Value::from(n)
}

/// `Value::String`: a JSON string with the given text.
#[verifier::external_body]
pub(crate) fn string(s: &str) -> (v: Value)
    ensures
        json_view(v) == JsonView::Str(s@),
{
    Value::String(s.to_owned())
}

/// `Value::Array`: a JSON array with the given elements, in order.
#[verifier::external_body]
pub(crate) fn array(items: Vec<Value>) -> (v: Value)
    ensures
        json_view(v) == JsonView::Array(views(items@)),
{
    Value::Array(items)
}

/// `Map::new`: a map without members.
#[verifier::external_body]
pub(crate) fn map_new() -> (r: serde_json::Map<String, Value>)
    ensures
        object_view(r) == no_members(),
{
    serde_json::Map::new()
}

/// `Map::insert`: the map gains the member, which replaces one of the same
/// name; all other members stay.
#[verifier::external_body]
pub(crate) fn map_insert(m: &mut serde_json::Map<String, Value>, key: &str, value: Value)
    ensures
        object_view(*final(m)) == object_view(*old(m)).insert(key@, json_view(value)),
{
    m.insert(key.to_owned(), value);
}

/// `Value::Object`: a JSON object with the members of the map.
#[verifier::external_body]
pub(crate) fn object(m: serde_json::Map<String, Value>) -> (v: Value)
    ensures
        json_view(v) == JsonView::Object(object_view(m)),
{
    Value::Object(m)
}

/// `Value::get` with a string index: the member of that name where the value
/// is an object that has one, and nothing otherwise.
#[verifier::external_body]
pub(crate) fn get<'a>(v: &'a Value, key: &str) -> (r: Option<&'a Value>)
    ensures
        r is Some <==> (json_view(*v) matches JsonView::Object(m) && m.contains_key(key@)),
        r matches Some(x) ==> json_view(*v)->Object_0[key@] == json_view(*x),
{
    v.get(key)
}

/// `Value::as_array`: the elements of an array, and nothing for any other
/// kind of value.
#[verifier::external_body]
pub(crate) fn as_array(v: &Value) -> (r: Option<&Vec<Value>>)
    ensures
        r is Some <==> json_view(*v) is Array,
        r matches Some(items) ==> json_view(*v) == JsonView::Array(views(items@)),
{
    v.as_array()
}

/// `Value::as_str`: the text of a string, and nothing for any other kind of
/// value.
#[verifier::external_body]
pub(crate) fn as_str(v: &Value) -> (r: Option<&str>)
    ensures
        r is Some <==> json_view(*v) is Str,
        r matches Some(s) ==> json_view(*v) == JsonView::Str(s@),
{
    v.as_str()
}

/// `Value::as_object`: the map of an object, and nothing for any other kind
/// of value.
#[verifier::external_body]
pub(crate) fn as_object(v: &Value) -> (r: Option<&serde_json::Map<String, Value>>)
    ensures
        r is Some <==> json_view(*v) is Object,
        r matches Some(m) ==> json_view(*v) == JsonView::Object(object_view(*m)),
{
    v.as_object()
}

/// `Map::keys`: the names of the members, all of them. The order in which
/// they come is left open.
#[verifier::external_body]
pub(crate) fn keys(m: &serde_json::Map<String, Value>) -> (r: Vec<String>)
    ensures
        texts(r@).to_set() == object_view(*m).dom(),
{
    m.keys().cloned().collect()
}

/// `Value::clone`: a value that holds the same tree.
pub assume_specification[ <serde_json::Value as Clone>::clone ](v: &serde_json::Value) -> (r:
    serde_json::Value)
    ensures
        json_view(r) == json_view(*v),
;

/// `serde_json::from_str` into a `Value`: the outcome depends on the text
/// alone.
#[verifier::external_body]
pub(crate) fn parse(text: &str) -> (r: Result<Value, serde_json::Error>)
    ensures
        r is Ok <==> parsed(text@) is Some,
        r matches Ok(v) ==> parsed(text@) == Some(json_view(v)),
{
    serde_json::from_str(text)
}

/// The `Display` form of a `Value`: its compact JSON text, which depends on
/// the tree alone.
#[verifier::external_body]
pub(crate) fn to_text(v: &Value) -> (r: String)
    ensures
        r@ == compact_text(json_view(*v)),
{
    v.to_string()
}

/// `serde_json::to_string_pretty` on a `Value`: the outcome depends on the
/// tree alone.
#[verifier::external_body]
pub(crate) fn to_text_pretty(v: &Value) -> (r: Result<String, serde_json::Error>)
    ensures
        r is Ok <==> pretty_text(json_view(*v)) is Some,
        r matches Ok(s) ==> pretty_text(json_view(*v)) == Some(s@),
{
    serde_json::to_string_pretty(v)
}

} // verus!
