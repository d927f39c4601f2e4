//! JSON documents as plain values. Parsing is done by `serde_json`; the
//! parsed value is handed to the library as a [`Json`], and every lookup the
//! site parsers make on it is verified here.

use vstd::prelude::*;
use serde_json::Value;

verus! {

/// A JSON value. Numbers keep their integer value when they have one; other
/// numbers keep the text `serde_json` writes for them.
#[derive(Debug)]
pub enum Json {
    Null,
    Bool(bool),
    /// A non-negative integer.
    UInt(u64),
    /// A negative integer.
    Int(i64),
    /// A number that is not an integer, as `serde_json` writes it.
    Float(String),
    Str(String),
    Array(Vec<Json>),
    /// The members of an object, keys distinct, in key order.
    Object(Vec<(String, Json)>),
}

/// `serde_json::Value`.
#[verifier::external_type_specification]
#[verifier::external_body]
pub struct ExValue(serde_json::Value);

/// The [`Json`] of a `serde_json::Value`, variant by variant.
#[verifier::external_body]
fn json_of(v: &Value) -> Json {
    match v {
        Value::Null => Json::Null,
        Value::Bool(b) => Json::Bool(*b),
        Value::Number(n) => match (n.as_u64(), n.as_i64()) {
            (Some(u), _) => Json::UInt(u),
            (None, Some(i)) => Json::Int(i),
            (None, None) => Json::Float(n.to_string()),
        },
        Value::String(s) => Json::Str(s.clone()),
        Value::Array(a) => Json::Array(a.iter().map(json_of).collect()),
        Value::Object(m) => Json::Object(m.iter().map(|(k, x)| (k.clone(), json_of(x))).collect()),
    }
}

/// The value that `serde_json` parses the text `s` into, or `None` when `s`
/// is not a JSON document.
pub uninterp spec fn json_parsed(s: Seq<char>) -> Option<Json>;

/// `serde_json::from_str::<serde_json::Value>`: the result depends on the
/// text alone.
#[verifier::external_body]
pub(crate) fn parse_json(s: &str) -> (r: Option<Json>)
    ensures
        r == json_parsed(s@),
{
    match serde_json::from_str::<serde_json::Value>(s) {
        Ok(v) => Some(json_of(&v)),
        Err(_) => None,
    }
}

/// The parsed document, or `Null` when the text does not parse
/// (`unwrap_or_default`).
pub open spec fn json_or_null(s: Seq<char>) -> Json {
    match json_parsed(s) {
        Some(j) => j,
        None => Json::Null,
    }
}

/// The parsed text, or `Null`.
pub fn parse_or_null(s: &str) -> (r: Json)
    ensures
        r == json_or_null(s@),
{
    match parse_json(s) {
        Some(j) => j,
        None => Json::Null,
    }
}

/// The value of the first member named `key`.
pub open spec fn member(fields: Seq<(String, Json)>, key: Seq<char>) -> Option<Json>
    decreases fields.len(),
{
    if fields.len() == 0 {
        None
    } else if fields[0].0@ == key {
        Some(fields[0].1)
    } else {
        member(fields.skip(1), key)
    }
}

/// `Value::get` with a key: the member of an object, `None` otherwise.
pub open spec fn jget(v: Json, key: Seq<char>) -> Option<Json> {
    match v {
        Json::Object(fields) => member(fields@, key),
        _ => None,
    }
}

/// [`jget`] on an optional value.
pub open spec fn oget(v: Option<Json>, key: Seq<char>) -> Option<Json> {
    match v {
        Some(x) => jget(x, key),
        None => None,
    }
}

/// The first of two optional values that is present (`Option::or_else`).
pub open spec fn or_opt(a: Option<Json>, b: Option<Json>) -> Option<Json> {
    match a {
        Some(x) => Some(x),
        None => b,
    }
}

/// `Value::as_str` on an optional value.
pub open spec fn ostr(v: Option<Json>) -> Option<Seq<char>> {
    match v {
        Some(Json::Str(s)) => Some(s@),
        _ => None,
    }
}

/// The string, or empty (`.as_str().unwrap_or("")`).
pub open spec fn str_or_empty(v: Option<Json>) -> Seq<char> {
    match ostr(v) {
        Some(s) => s,
        None => Seq::empty(),
    }
}

/// `Value::as_u64` on an optional value.
pub open spec fn ou64(v: Option<Json>) -> Option<u64> {
    match v {
        Some(Json::UInt(n)) => Some(n),
        _ => None,
    }
}

/// `Value::as_i64` on an optional value.
pub open spec fn oi64(v: Option<Json>) -> Option<i64> {
    match v {
        Some(Json::UInt(n)) => if n <= i64::MAX {
            Some(n as i64)
        } else {
            None
        },
        Some(Json::Int(n)) => Some(n),
        _ => None,
    }
}

/// `Value::as_bool` on an optional value.
pub open spec fn obool(v: Option<Json>) -> Option<bool> {
    match v {
        Some(Json::Bool(b)) => Some(b),
        _ => None,
    }
}

/// `Value::as_array` on an optional value.
pub open spec fn oarr(v: Option<Json>) -> Option<Seq<Json>> {
    match v {
        Some(Json::Array(a)) => Some(a@),
        _ => None,
    }
}

/// The elements of an array, or none.
pub open spec fn arr_or_empty(v: Option<Json>) -> Seq<Json> {
    match oarr(v) {
        Some(a) => a,
        None => Seq::empty(),
    }
}

/// An optional reference and an optional value agree.
pub open spec fn same(r: Option<&Json>, v: Option<Json>) -> bool {
    match (r, v) {
        (Some(a), Some(b)) => *a == b,
        (None, None) => true,
        _ => false,
    }
}

/// The member `key` of `v`, if `v` is an object that has it.
pub fn get<'a>(v: &'a Json, key: &str) -> (r: Option<&'a Json>)
    ensures
        same(r, jget(*v, key@)),
{
    match v {
        Json::Object(fields) => {
            let ghost fv = fields@;
            let mut i: usize = 0;
            assert(fv.skip(0) =~= fv);
            while i < fields.len()
                invariant
                    i <= fields.len(),
                    fv == fields@,
                    jget(*v, key@) == member(fv, key@),
                    member(fv, key@) == member(fv.skip(i as int), key@),
                decreases fields.len() - i,
            {
                assert(fv.skip(i as int)[0] == fields@[i as int]);
                assert(fv.skip(i as int).skip(1) =~= fv.skip(i + 1));
                if crate::text::str_eq(fields[i].0.as_str(), key) {
                    assert(member(fv.skip(i as int), key@) == Some(fields@[i as int].1));
                    return Some(&fields[i].1);
                }
                i += 1;
            }
            None
        },
        _ => None,
    }
}

/// [`get`] on an optional value.
pub fn oget_exec<'a>(v: Option<&'a Json>, key: &str) -> (r: Option<&'a Json>)
    ensures
        forall|o: Option<Json>| same(v, o) ==> same(r, oget(o, key@)),
{
    match v {
        Some(x) => get(x, key),
        None => None,
    }
}

/// The string of a value, if it is one.
pub fn as_str<'a>(v: Option<&'a Json>) -> (r: Option<&'a str>)
    ensures
        forall|o: Option<Json>| same(v, o) ==> (match r {
            Some(s) => ostr(o) == Some(s@),
            None => ostr(o) is None,
        }),
{
    match v {
        Some(Json::Str(s)) => Some(s.as_str()),
        _ => None,
    }
}

/// The string of a value, or empty.
pub fn str_or_empty_exec(v: Option<&Json>) -> (r: String)
    ensures
        forall|o: Option<Json>| same(v, o) ==> r@ == str_or_empty(o),
{
    match v {
        Some(Json::Str(s)) => crate::text::owned(s.as_str()),
        _ => String::new(),
    }
}

/// The non-negative integer of a value, if it is one.
pub fn as_u64(v: Option<&Json>) -> (r: Option<u64>)
    ensures
        forall|o: Option<Json>| same(v, o) ==> r == ou64(o),
{
    match v {
        Some(Json::UInt(n)) => Some(*n),
        _ => None,
    }
}

/// The integer of a value, if it is one that fits `i64`.
pub fn as_i64(v: Option<&Json>) -> (r: Option<i64>)
    ensures
        forall|o: Option<Json>| same(v, o) ==> r == oi64(o),
{
    match v {
        Some(Json::UInt(n)) => if *n <= 9223372036854775807u64 {
            Some(*n as i64)
        } else {
            None
        },
        Some(Json::Int(n)) => Some(*n),
        _ => None,
    }
}

/// The boolean of a value, if it is one.
pub fn as_bool(v: Option<&Json>) -> (r: Option<bool>)
    ensures
        forall|o: Option<Json>| same(v, o) ==> r == obool(o),
{
    match v {
        Some(Json::Bool(b)) => Some(*b),
        _ => None,
    }
}

/// The elements of a value, if it is an array.
pub fn as_array<'a>(v: Option<&'a Json>) -> (r: Option<&'a Vec<Json>>)
    ensures
        forall|o: Option<Json>| same(v, o) ==> (match r {
            Some(a) => oarr(o) == Some(a@),
            None => oarr(o) is None,
        }),
{
    match v {
        Some(Json::Array(a)) => Some(a),
        _ => None,
    }
}

/// The first present of two optional references.
pub fn or_ref<'a>(a: Option<&'a Json>, b: Option<&'a Json>) -> (r: Option<&'a Json>)
    ensures
        forall|x: Option<Json>, y: Option<Json>| same(a, x) && same(b, y) ==> same(r, or_opt(x, y)),
{
    match a {
        Some(x) => Some(x),
        None => b,
    }
}


/// The `serde_json::Value` of a [`Json`], variant by variant.
#[verifier::external_body]
fn value_of(j: &Json) -> Value {
    match j {
        Json::Null => Value::Null,
        Json::Bool(b) => Value::Bool(*b),
        Json::UInt(u) => Value::from(*u),
        Json::Int(i) => Value::from(*i),
        Json::Float(t) => serde_json::from_str(t).unwrap_or(Value::Null),
        Json::Str(s) => Value::String(s.clone()),
        Json::Array(a) => Value::Array(a.iter().map(value_of).collect()),
        Json::Object(m) => Value::Object(m.iter().map(|(k, x)| (k.clone(), value_of(x))).collect()),
    }
}

/// The compact JSON text of a value, as `serde_json` writes it.
pub uninterp spec fn json_text(j: Json) -> Seq<char>;

/// `serde_json::Value`'s `to_string`: the result depends on the value alone.
#[verifier::external_body]
pub(crate) fn to_text(j: &Json) -> (r: String)
    ensures
        r@ == json_text(*j),
{
    value_of(j).to_string()
}

/// The JSON text of a present value, or empty.
pub open spec fn text_or_empty(v: Option<Json>) -> Seq<char> {
    match v {
        Some(j) => json_text(j),
        None => Seq::empty(),
    }
}

/// The JSON text of a present value with its `"` removed, or empty.
pub open spec fn unquoted(v: Option<Json>) -> Seq<char> {
    match v {
        Some(j) => crate::text::replace_all(json_text(j), "\""@, Seq::empty()),
        None => Seq::empty(),
    }
}

/// The JSON text of a value, or empty.
pub fn text_or_empty_exec(v: Option<&Json>) -> (r: String)
    ensures
        forall|o: Option<Json>| same(v, o) ==> r@ == text_or_empty(o),
{
    match v {
        Some(j) => to_text(j),
        None => String::new(),
    }
}

/// The JSON text of a value with its `"` removed, or empty.
pub fn unquoted_exec(v: Option<&Json>) -> (r: String)
    ensures
        forall|o: Option<Json>| same(v, o) ==> r@ == unquoted(o),
{
    match v {
        Some(j) => {
            let t = to_text(j);
            proof {
                reveal_strlit("\"");
                reveal_strlit("");
            }
            assert(""@ =~= Seq::<char>::empty());
            crate::text::replace_exec(t.as_str(), "\"", "")
        },
        None => String::new(),
    }
}

/// The value at a path of member names (`Value::pointer` with names).
pub open spec fn at_path(v: Option<Json>, path: Seq<Seq<char>>) -> Option<Json>
    decreases path.len(),
{
    if path.len() == 0 {
        v
    } else {
        at_path(oget(v, path[0]), path.skip(1))
    }
}

/// The value at a path of member names.
pub fn at_path_exec<'a>(v: &'a Json, path: &Vec<&str>) -> (r: Option<&'a Json>)
    ensures
        same(r, at_path(Some(*v), crate::html::strs_view(path@))),
{
    let ghost all = crate::html::strs_view(path@);
    let mut cur: Option<&'a Json> = Some(v);
    let ghost mut cv: Option<Json> = Some(*v);
    let mut i: usize = 0;
    assert(all.skip(0) =~= all);
    while i < path.len()
        invariant
            i <= path.len(),
            all == crate::html::strs_view(path@),
            same(cur, cv),
            at_path(Some(*v), all) == at_path(cv, all.skip(i as int)),
        decreases path.len() - i,
    {
        assert(all.skip(i as int)[0] == path@[i as int]@);
        assert(all.skip(i as int).skip(1) =~= all.skip(i + 1));
        cur = oget_exec(cur, path[i]);
        proof {
            cv = oget(cv, path@[i as int]@);
        }
        i += 1;
    }
    cur
}

} // verus!
