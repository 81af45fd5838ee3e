//! JSON values, by what they hold.

use vstd::prelude::*;

use crate::text;

verus! {

/// What a JSON value holds.
pub enum Json {
    Null,
    Bool(bool),
    /// A number that is an integer.
    Int(int),
    /// Any other number, by an integer that tells it apart from the others.
    Float(int),
    Text(Seq<char>),
    Array(Seq<Json>),
    Object(Map<Seq<char>, Json>),
}

/// `serde_json::Value`, whose contents are named by `view_of`.
#[verifier::external_type_specification]
#[verifier::external_body]
pub struct ExValue(serde_json::Value);

/// `serde_json::Map`, whose contents are named by `members`.
#[verifier::external_type_specification]
#[verifier::external_body]
#[verifier::reject_recursive_types(K)]
#[verifier::reject_recursive_types(V)]
pub struct ExMap<K, V>(serde_json::Map<K, V>);

/// What a value holds.
pub uninterp spec fn view_of(v: serde_json::Value) -> Json;

/// The members of an object.
pub uninterp spec fn members(m: serde_json::Map<String, serde_json::Value>) -> Map<Seq<char>, Json>;

/// An object without members.
pub open spec fn no_members() -> Map<Seq<char>, Json> {
    Map::empty()
}

/// The member `key` of a value, where the value is an object that has it.
pub open spec fn member(v: Json, key: Seq<char>) -> Option<Json> {
    match v {
        Json::Object(m) => if m.contains_key(key) {
            Some(m[key])
        } else {
            None
        },
        _ => None,
    }
}

/// The text that a value is.
pub open spec fn text_of(v: Option<Json>) -> Option<Seq<char>> {
    match v {
        Some(Json::Text(s)) => Some(s),
        _ => None,
    }
}

/// The signed 64-bit integer that a value is.
pub open spec fn int_of(v: Option<Json>) -> Option<int> {
    match v {
        Some(Json::Int(i)) => if i64::MIN <= i <= i64::MAX {
            Some(i)
        } else {
            None
        },
        _ => None,
    }
}

/// The members that a value has, where it is an object.
pub open spec fn object_of(v: Json) -> Option<Map<Seq<char>, Json>> {
    match v {
        Json::Object(m) => Some(m),
        _ => None,
    }
}

/// The contents of an optional value.
pub open spec fn opt_view(v: Option<&serde_json::Value>) -> Option<Json> {
    match v {
        Some(x) => Some(view_of(*x)),
        None => None,
    }
}

/// Calls `Value::get` with a string: the member of that name of an object, and `None` for a
/// value that is no object or lacks it.
#[verifier::external_body]
pub(crate) fn get<'a>(v: &'a serde_json::Value, key: &str) -> (r: Option<&'a serde_json::Value>)
    ensures
        opt_view(r) == member(view_of(*v), key@),
{
    v.get(key)
}

/// Calls `Value::as_str`: the text that the value is, and `None` for any other kind of value.
#[verifier::external_body]
pub(crate) fn as_str<'a>(v: &'a serde_json::Value) -> (r: Option<&'a str>)
    ensures
        text::opt_str(r) == text_of(Some(view_of(*v))),
{
    v.as_str()
}

/// Calls `Value::as_i64`: the integer that the value is, where it fits in 64 signed bits.
#[verifier::external_body]
pub(crate) fn as_i64(v: &serde_json::Value) -> (r: Option<i64>)
    ensures
        (match r {
            Some(i) => Some(i as int),
            None => None,
        }) == int_of(Some(view_of(*v))),
{
    v.as_i64()
}

/// Calls `Value::as_bool`: the truth value that the value is.
#[verifier::external_body]
pub(crate) fn as_bool(v: &serde_json::Value) -> (r: Option<bool>)
    ensures
        r == (match view_of(*v) {
            Json::Bool(b) => Some(b),
            _ => None,
        }),
{
    v.as_bool()
}

/// Calls `Value::as_object`: the members of an object, and `None` for any other kind of value.
#[verifier::external_body]
pub(crate) fn as_object<'a>(v: &'a serde_json::Value) -> (r: Option<
    &'a serde_json::Map<String, serde_json::Value>,
>)
    ensures
        (match r {
            Some(m) => Some(members(*m)),
            None => None,
        }) == object_of(view_of(*v)),
{
    v.as_object()
}

/// Calls `Map::new`: no members.
#[verifier::external_body]
pub(crate) fn new_map() -> (r: serde_json::Map<String, serde_json::Value>)
    ensures
        members(r) == no_members(),
{
    serde_json::Map::new()
}

/// Calls `Map::clone`: the same members.
#[verifier::external_body]
pub(crate) fn copy_map(m: &serde_json::Map<String, serde_json::Value>) -> (r: serde_json::Map<
    String,
    serde_json::Value,
>)
    ensures
        members(r) == members(*m),
{
    m.clone()
}

/// Calls `Map::insert`: the member `key` is now `value`, whether there was one or not.
#[verifier::external_body]
pub(crate) fn insert(
    m: &mut serde_json::Map<String, serde_json::Value>,
    key: &str,
    value: serde_json::Value,
)
    ensures
        members(*final(m)) == members(*old(m)).insert(key@, view_of(value)),
{
    m.insert(key.to_string(), value);
}

/// Calls `Value::from` on the members: an object with them.
#[verifier::external_body]
pub(crate) fn object(m: serde_json::Map<String, serde_json::Value>) -> (r: serde_json::Value)
    ensures
        view_of(r) == Json::Object(members(m)),
{
    serde_json::Value::from(m)
}

/// Calls `Value::from` on a string slice: a text.
#[verifier::external_body]
pub(crate) fn text_value(s: &str) -> (r: serde_json::Value)
    ensures
        view_of(r) == Json::Text(s@),
{
    serde_json::Value::from(s)
}

/// Calls `Value::from` on a truth value.
#[verifier::external_body]
pub(crate) fn bool_value(b: bool) -> (r: serde_json::Value)
    ensures
        view_of(r) == Json::Bool(b),
{
    serde_json::Value::from(b)
}

/// Calls `Value::from` on an unsigned integer.
#[verifier::external_body]
pub(crate) fn u64_value(n: u64) -> (r: serde_json::Value)
    ensures
        view_of(r) == Json::Int(n as int),
{
    serde_json::Value::from(n)
}

/// Calls `Value::from` on a signed integer.
#[verifier::external_body]
pub(crate) fn i64_value(n: i64) -> (r: serde_json::Value)
    ensures
        view_of(r) == Json::Int(n as int),
{
    serde_json::Value::from(n)
}

/// Calls `Value::from` on the unit: null.
#[verifier::external_body]
pub(crate) fn null_value() -> (r: serde_json::Value)
    ensures
        view_of(r) == Json::Null,
{
    serde_json::Value::from(())
}

/// What the values of a sequence hold.
pub open spec fn views(v: Seq<serde_json::Value>) -> Seq<Json> {
    v.map_values(|x: serde_json::Value| view_of(x))
}

/// Calls `Value::from` on a vector of values: an array of them, in order.
#[verifier::external_body]
pub(crate) fn array(v: Vec<serde_json::Value>) -> (r: serde_json::Value)
    ensures
        view_of(r) == Json::Array(views(v@)),
{
    serde_json::Value::from(v)
}

/// A text, or null where there is none.
pub open spec fn text_or_null(s: Option<Seq<char>>) -> Json {
    match s {
        Some(t) => Json::Text(t),
        None => Json::Null,
    }
}

/// A text, or null where there is none.
pub fn text_or_null_value(s: &Option<String>) -> (r: serde_json::Value)
    ensures
        view_of(r) == text_or_null(text::opt(*s)),
{
    match s {
        Some(t) => text_value(t.as_str()),
        None => null_value(),
    }
}

/// Texts as an array.
pub open spec fn texts(s: Seq<Seq<char>>) -> Json {
    Json::Array(s.map_values(|t: Seq<char>| Json::Text(t)))
}

/// Texts as an array.
pub fn text_array(v: &Vec<String>) -> (r: serde_json::Value)
    ensures
        view_of(r) == texts(text::views(v@)),
{
    let mut values: Vec<serde_json::Value> = Vec::new();
    let mut i: usize = 0;
    while i < v.len()
        invariant
            i <= v@.len(),
            values@.len() == i,
            forall|j: int| 0 <= j < i ==> view_of(#[trigger] values@[j]) == Json::Text(v@[j]@),
        decreases v@.len() - i,
    {
        values.push(text_value(v[i].as_str()));
        i = i + 1;
    }
    proof {
        assert(views(values@) =~= text::views(v@).map_values(|t: Seq<char>| Json::Text(t)));
    }
    array(values)
}

/// The text member `key` of `args`.
pub fn text_arg<'a>(args: &'a serde_json::Value, key: &str) -> (r: Option<&'a str>)
    ensures
        text::opt_str(r) == text_of(member(view_of(*args), key@)),
{
    match get(args, key) {
        Some(v) => as_str(v),
        None => None,
    }
}

/// The integer member `key` of `args`.
pub fn int_arg(args: &serde_json::Value, key: &str) -> (r: Option<i64>)
    ensures
        (match r {
            Some(i) => Some(i as int),
            None => None,
        }) == int_of(member(view_of(*args), key@)),
{
    match get(args, key) {
        Some(v) => as_i64(v),
        None => None,
    }
}

} // verus!
