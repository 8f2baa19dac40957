//! JSON documents as plain values, and the variable that each constraint of a JSON
//! FlatZinc model defines.
use vstd::prelude::*;

verus! {

#[verifier::external_type_specification]
#[verifier::external_body]
pub struct ExJsonValue(serde_json::Value);

/// A JSON document.
#[derive(Debug)]
pub enum Json {
    Null,
    Bool(bool),
    /// A number, by the text that `serde_json` gives it.
    Num(String),
    Str(String),
    Arr(Vec<Json>),
    /// An object, by its members in the order `serde_json` keeps them.
    Obj(Vec<(String, Json)>),
}

/// The document that `serde_json` reads from a text; `None` when it reports the text
/// is not JSON.
pub uninterp spec fn parsed_json(text: Seq<char>) -> Option<Json>;

/// The document that a `serde_json::Value` holds, member for member. Nothing is stated
/// of the result: the value is opaque here.
#[verifier::external_body]
fn json_of_value(v: serde_json::Value) -> Json {
    match v {
        serde_json::Value::Null => Json::Null,
        serde_json::Value::Bool(b) => Json::Bool(b),
        serde_json::Value::Number(n) => Json::Num(n.to_string()),
        serde_json::Value::String(s) => Json::Str(s),
        serde_json::Value::Array(a) => Json::Arr(a.into_iter().map(json_of_value).collect()),
        serde_json::Value::Object(o) => Json::Obj(o.into_iter().map(|(k, x)| (k, json_of_value(x))).collect()),
    }
}

/// Reads a JSON document with `serde_json::from_str` into a `serde_json::Value`. The
/// contract claims only that the result is a function of the text, named
/// [`parsed_json`]; what `serde_json` accepts and builds is not stated.
#[verifier::external_body]
fn parse_json(text: &str) -> (r: Option<Json>)
    ensures
        r == parsed_json(text@),
{
    match serde_json::from_str::<serde_json::Value>(text) {
        Ok(v) => Some(json_of_value(v)),
        Err(_) => None,
    }
}

/// The value of the first member named `key`.
pub open spec fn member(fields: Seq<(String, Json)>, key: Seq<char>) -> Option<Json>
    decreases fields.len(),
{
    if fields.len() == 0 {
        None
    } else if fields[0].0@ == key {
        Some(fields[0].1)
    } else {
        member(fields.drop_first(), key)
    }
}

/// The member `key` of an object; `None` for a document that is no object or has no
/// such member.
pub open spec fn get(j: Json, key: Seq<char>) -> Option<Json> {
    match j {
        Json::Obj(fields) => member(fields@, key),
        _ => None,
    }
}

/// The variable a constraint entry defines: its member `defines` when that is a string.
pub open spec fn define_of(item: Json) -> Option<String> {
    match get(item, "defines"@) {
        Some(Json::Str(s)) => Some(s),
        _ => None,
    }
}

/// The variable that each entry of the member `constraints` of a model defines, in
/// order; empty when the model has no array `constraints`.
pub open spec fn defines_spec(model: Json) -> Seq<Option<String>> {
    match get(model, "constraints"@) {
        Some(Json::Arr(items)) => items@.map_values(|x: Json| define_of(x)),
        _ => Seq::empty(),
    }
}

/// Whether `s` spells `name`.
fn spells(s: &String, name: &str) -> (r: bool)
    ensures
        r == (s@ == name@),
{
    let n = name.to_owned();
    *s == n
}

/// The member `key` of an object (see [`get`]).
pub fn get_member<'a>(j: &'a Json, key: &str) -> (r: Option<&'a Json>)
    ensures
        match r {
            Some(x) => get(*j, key@) == Some(*x),
            None => get(*j, key@) is None,
        },
{
    match j {
        Json::Obj(fields) => {
            let n = fields.len();
            proof {
                assert(fields@.subrange(0, n as int) =~= fields@);
            }
            for i in 0..n
                invariant
                    n == fields@.len(),
                    get(*j, key@) == member(fields@, key@),
                    member(fields@, key@) == member(fields@.subrange(i as int, n as int), key@),
            {
                proof {
                    assert(fields@.subrange(i as int, n as int).drop_first() =~= fields@.subrange(
                        i + 1,
                        n as int,
                    ));
                    assert(fields@.subrange(i as int, n as int)[0] == fields@[i as int]);
                }
                if spells(&fields[i].0, key) {
                    proof {
                        let rest = fields@.subrange(i as int, n as int);
                        assert(rest.len() > 0 && rest[0].0@ == key@);
                        assert(member(rest, key@) == Some(fields@[i as int].1));
                    }
                    return Some(&fields[i].1);
                }
            }
            proof {
                assert(fields@.subrange(n as int, n as int).len() == 0);
            }
            None
        },
        _ => None,
    }
}

/// The variable a constraint entry defines (see [`define_of`]).
fn define_in(item: &Json) -> (r: Option<String>)
    ensures
        r == define_of(*item),
{
    match get_member(item, "defines") {
        Some(Json::Str(s)) => Some(s.clone()),
        _ => None,
    }
}

/// The variable that each constraint of a JSON model defines (see [`defines_spec`]).
pub fn defines_of(model: &Json) -> (r: Vec<Option<String>>)
    ensures
        r@ == defines_spec(*model),
{
    let mut out: Vec<Option<String>> = Vec::new();
    match get_member(model, "constraints") {
        Some(Json::Arr(items)) => {
            for i in 0..items.len()
                invariant
                    out@ == items@.take(i as int).map_values(|x: Json| define_of(x)),
            {
                let d = define_in(&items[i]);
                out.push(d);
                proof {
                    assert(items@.take(i + 1).map_values(|x: Json| define_of(x)) =~= items@.take(
                        i as int,
                    ).map_values(|x: Json| define_of(x)).push(define_of(items@[i as int])));
                }
            }
            proof {
                assert(items@.take(items@.len() as int) =~= items@);
            }
            out
        },
        _ => out,
    }
}

/// The variable that each constraint of the JSON model `text` defines (see
/// [`defines_spec`]); `None` when the text is not JSON.
pub fn defines_in(text: &str) -> (r: Option<Vec<Option<String>>>)
    ensures
        r is Some <==> parsed_json(text@) is Some,
        r matches Some(d) ==> d@ == defines_spec(parsed_json(text@)->0),
{
    match parse_json(text) {
        Some(j) => Some(defines_of(&j)),
        None => None,
    }
}

} // verus!
