//! JSON documents: a plain tree the library builds, and its text.
use vstd::prelude::*;

use crate::text;

verus! {

/// A JSON value.
#[derive(Debug)]
pub enum Json {
    /// `null`.
    Null,
    /// `true` or `false`.
    Bool(bool),
    /// A non-negative integer.
    Num(u64),
    /// A string.
    Str(String),
    /// An array.
    Array(Vec<Json>),
    /// An object, its members in order.
    Object(Vec<(String, Json)>),
}

/// The value of a JSON tree.
pub enum JsonValue {
    Null,
    Bool(bool),
    Num(nat),
    Str(Seq<char>),
    Array(Seq<JsonValue>),
    Object(Seq<(Seq<char>, JsonValue)>),
}

/// The value of a JSON tree.
pub open spec fn json_view(j: Json) -> JsonValue
    decreases j,
{
    match j {
        Json::Null => JsonValue::Null,
        Json::Bool(b) => JsonValue::Bool(b),
        Json::Num(n) => JsonValue::Num(n as nat),
        Json::Str(s) => JsonValue::Str(s@),
        Json::Array(v) => JsonValue::Array(
            v@.map_values(|x: Json| if decreases_to!(j => x) { json_view(x) } else { JsonValue::Null }),
        ),
        Json::Object(v) => JsonValue::Object(
            v@.map_values(
                |e: (String, Json)|
                    (e.0@, if decreases_to!(j => e.1) { json_view(e.1) } else { JsonValue::Null }),
            ),
        ),
    }
}

/// The values of a list of JSON trees.
pub open spec fn json_views(v: Seq<Json>) -> Seq<JsonValue> {
    v.map_values(|x: Json| json_view(x))
}

/// The values of a list of JSON members.
pub open spec fn member_views(v: Seq<(String, Json)>) -> Seq<(Seq<char>, JsonValue)> {
    v.map_values(|e: (String, Json)| (e.0@, json_view(e.1)))
}

/// An array of values.
pub fn array(items: Vec<Json>) -> (r: Json)
    ensures
        json_view(r) == JsonValue::Array(json_views(items@)),
{
    let r = Json::Array(items);
    proof {
        assert(r->Array_0 == items);
        let s = json_view(r)->Array_0;
        assert(s.len() == items@.len());
        assert forall|i: int| 0 <= i < items@.len() implies s[i] == json_view(#[trigger] items@[i]) by {
            assert(decreases_to!(r => r->Array_0));
            assert(decreases_to!(items => items@));
            assert(decreases_to!(items@ => items@[i]));
        }
        assert(s =~= json_views(items@));
    }
    r
}

/// An object with members in order.
pub fn object(members: Vec<(String, Json)>) -> (r: Json)
    ensures
        json_view(r) == JsonValue::Object(member_views(members@)),
{
    let r = Json::Object(members);
    proof {
        assert(r->Object_0 == members);
        let s = json_view(r)->Object_0;
        assert(s.len() == members@.len());
        assert forall|i: int| 0 <= i < members@.len() implies s[i] == (
            (#[trigger] members@[i]).0@,
            json_view(members@[i].1),
        ) by {
            assert(decreases_to!(r => r->Object_0));
            assert(decreases_to!(members => members@));
            assert(decreases_to!(members@ => members@[i]));
            assert(decreases_to!(members@[i] => members@[i].1));
        }
        assert(s =~= member_views(members@));
    }
    r
}

/// A JSON string.
pub fn str_json(s: &str) -> (r: Json)
    ensures
        json_view(r) == JsonValue::Str(s@),
{
    Json::Str(text::owned(s))
}

/// Appends a member to the members of an object under construction.
pub fn push_member(members: &mut Vec<(String, Json)>, key: &str, value: Json)
    ensures
        member_views(final(members)@) == member_views(old(members)@).push((key@, json_view(value))),
{
    let ghost before = members@;
    let k = text::owned(key);
    members.push((k, value));
    proof {
        assert(members@ == before.push((k, value)));
        assert(member_views(members@) =~= member_views(before).push((key@, json_view(value))));
    }
}

/// Appends an item to the items of an array under construction.
pub fn push_item(items: &mut Vec<Json>, value: Json)
    ensures
        json_views(final(items)@) == json_views(old(items)@).push(json_view(value)),
{
    let ghost before = items@;
    items.push(value);
    proof {
        assert(json_views(items@) =~= json_views(before).push(json_view(value)));
    }
}

/// An object with one member.
pub open spec fn member1(key: Seq<char>, value: JsonValue) -> JsonValue {
    JsonValue::Object(seq![(key, value)])
}

/// An object with one member.
pub fn object1(key: &str, value: Json) -> (r: Json)
    ensures
        json_view(r) == member1(key@, json_view(value)),
{
    let mut m: Vec<(String, Json)> = Vec::new();
    proof {
        assert(member_views(m@) =~= Seq::<(Seq<char>, JsonValue)>::empty());
    }
    push_member(&mut m, key, value);
    object(m)
}

/// An empty member list.
pub fn empty_members() -> (r: Vec<(String, Json)>)
    ensures
        member_views(r@) == Seq::<(Seq<char>, JsonValue)>::empty(),
{
    let r: Vec<(String, Json)> = Vec::new();
    assert(member_views(r@) =~= Seq::<(Seq<char>, JsonValue)>::empty());
    r
}

/// An empty item list.
pub fn empty_items() -> (r: Vec<Json>)
    ensures
        json_views(r@) == Seq::<JsonValue>::empty(),
{
    let r: Vec<Json> = Vec::new();
    assert(json_views(r@) =~= Seq::<JsonValue>::empty());
    r
}

/// `serde_json`'s JSON value.
#[verifier::external_type_specification]
#[verifier::external_body]
pub struct ExSerdeJsonValue(serde_json::Value);

/// The pretty-printed text `serde_json` gives a JSON value, members in order.
pub uninterp spec fn json_text(v: JsonValue) -> Seq<char>;

/// Converts a JSON tree into a `serde_json::Value`, variant for variant
/// (with `serde_json`'s `preserve_order` feature, `serde_json::Map` keeps
/// members in insertion order; a repeated key keeps its first position and
/// its last value).
#[verifier::external_body]
fn to_serde(v: &Json) -> serde_json::Value {
    match v {
        Json::Null => serde_json::Value::Null,
        Json::Bool(b) => serde_json::Value::Bool(*b),
        Json::Num(n) => serde_json::Value::from(*n),
        Json::Str(s) => serde_json::Value::String(s.clone()),
        Json::Array(a) => serde_json::Value::Array(a.iter().map(to_serde).collect()),
        Json::Object(m) => serde_json::Value::Object(m.iter().map(|(k, x)| (k.clone(), to_serde(x))).collect()),
    }
}

/// Renders a JSON tree as pretty-printed text.
///
/// Converts the tree with `to_serde` and calls `serde_json::to_string_pretty`,
/// which does not fail on a `serde_json::Value` (its keys are strings); the
/// text, a function of the value alone, is named `json_text`.
#[verifier::external_body]
pub fn json_pretty(v: &Json) -> (r: String)
    ensures
        r@ == json_text(json_view(*v)),
{
    serde_json::to_string_pretty(&to_serde(v)).unwrap_or_default()
}

} // verus!
