//! Building and reading JSON values: the few shapes that the protocol needs.

use crate::json::{array, as_str, get, json_view, string, texts, views, JsonView};
use serde_json::Value;
use vstd::prelude::*;

verus! {

/// The array whose elements are the given texts, as strings.
pub open spec fn text_list(items: Seq<Seq<char>>) -> JsonView {
    JsonView::Array(items.map_values(|t: Seq<char>| JsonView::Str(t)))
}

/// The member of an object under a name, where the tree is an object that
/// has one.
pub open spec fn member(tree: JsonView, key: Seq<char>) -> Option<JsonView> {
    match tree {
        JsonView::Object(m) => if m.contains_key(key) {
            Some(m[key])
        } else {
            None
        },
        _ => None,
    }
}

/// The text of the string member under a name, where the tree is an object
/// that has a member of that name which is a string.
pub open spec fn text_member(tree: JsonView, key: Seq<char>) -> Option<Seq<char>> {
    match member(tree, key) {
        Some(JsonView::Str(t)) => Some(t),
        _ => None,
    }
}

/// Builds the array of the given strings.
pub fn strings(items: &[String]) -> (v: Value)
    ensures
        json_view(v) == text_list(texts(items@)),
{
    let mut out: Vec<Value> = Vec::new();
    let mut i: usize = 0;
    while i < items.len()
        invariant
            i <= items.len(),
            out.len() == i,
            forall|j: int| 0 <= j < i ==> json_view(#[trigger] out[j]) == JsonView::Str(items[j]@),
        decreases items.len() - i,
    {
        out.push(string(items[i].as_str()));
        i += 1;
    }
    assert(views(out@) =~= text_list(texts(items@))->Array_0);
    array(out)
}

/// Reads the string member under a name.
pub fn text_of(v: &Value, key: &str) -> (r: Option<String>)
    ensures
        r is Some <==> text_member(json_view(*v), key@) is Some,
        r matches Some(t) ==> text_member(json_view(*v), key@) == Some(t@),
{
    match get(v, key) {
        Some(inner) => match as_str(inner) {
            Some(t) => Some(t.to_owned()),
            None => None,
        },
        None => None,
    }
}

/// Decides whether two texts are the same.
pub fn same_text(a: &str, b: &str) -> (r: bool)
    ensures
        r == (a@ == b@),
{
    a.to_owned() == b.to_owned()
}

} // verus!
