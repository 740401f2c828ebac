use vstd::prelude::*;
use crate::keycode::str_equal;

verus! {

/// A JSON number as a descriptor reader sees it: an integer, or a number with
/// a fractional part (whose value no descriptor field reads).
#[derive(Debug, Clone, Copy, PartialEq, Eq, Structural)]
pub enum JsonNumber {
    PosInt(u64),
    NegInt(i64),
    Float,
}

/// A parsed JSON document.
#[derive(Debug)]
pub enum Json {
    Null,
    Bool(bool),
    Number(JsonNumber),
    Str(String),
    Array(Vec<Json>),
    Object(Vec<(String, Json)>),
}

/// The value stored under `key`, the first one where a key repeats.
pub open spec fn lookup(entries: Seq<(String, Json)>, key: Seq<char>) -> Option<Json>
    decreases entries.len(),
{
    if entries.len() == 0 {
        None
    } else if entries[0].0@ == key {
        Some(entries[0].1)
    } else {
        lookup(entries.drop_first(), key)
    }
}

/// The member `key` of an object; nothing for a missing key or a non-object.
pub open spec fn member(j: Json, key: Seq<char>) -> Option<Json> {
    match j {
        Json::Object(es) => lookup(es@, key),
        _ => None,
    }
}

pub open spec fn as_bool(o: Option<Json>) -> Option<bool> {
    match o {
        Some(Json::Bool(b)) => Some(b),
        _ => None,
    }
}

pub open spec fn as_str(o: Option<Json>) -> Option<Seq<char>> {
    match o {
        Some(Json::Str(s)) => Some(s@),
        _ => None,
    }
}

pub open spec fn as_array(o: Option<Json>) -> Option<Seq<Json>> {
    match o {
        Some(Json::Array(a)) => Some(a@),
        _ => None,
    }
}

/// The integer of a number that fits in an `i64`.
pub open spec fn as_i64(o: Option<Json>) -> Option<i64> {
    match o {
        Some(Json::Number(JsonNumber::PosInt(u))) => if u <= i64::MAX as u64 {
            Some(u as i64)
        } else {
            None
        },
        Some(Json::Number(JsonNumber::NegInt(i))) => Some(i),
        _ => None,
    }
}

/// The integer of a non-negative number.
pub open spec fn as_u64(o: Option<Json>) -> Option<u64> {
    match o {
        Some(Json::Number(JsonNumber::PosInt(u))) => Some(u),
        _ => None,
    }
}

/// Element `i` of an array, if there is one.
pub open spec fn element(a: Seq<Json>, i: int) -> Option<Json> {
    if 0 <= i < a.len() {
        Some(a[i])
    } else {
        None
    }
}

/// Looks up the member `key` of an object.
pub fn get_member<'a>(j: &'a Json, key: &str) -> (r: Option<&'a Json>)
    ensures
        match r {
            Some(v) => member(*j, key@) == Some(*v),
            None => member(*j, key@) is None,
        },
{
    match j {
        Json::Object(es) => {
            assert(member(*j, key@) == lookup(es@, key@));
            assert(es@.skip(0) =~= es@);
            let mut i: usize = 0;
            while i < es.len()
                invariant
                    i <= es.len(),
                    member(*j, key@) == lookup(es@, key@),
                    lookup(es@, key@) == lookup(es@.skip(i as int), key@),
                decreases es.len() - i,
            {
                assert(es@.skip(i as int).drop_first() =~= es@.skip(i as int + 1));
                assert(es@.skip(i as int)[0] == es@[i as int]);
                let entry = &es[i];
                if str_equal(entry.0.as_str(), key) {
                    assert(lookup(es@.skip(i as int), key@) == Some(entry.1));
                    return Some(&entry.1);
                }
                i = i + 1;
            }
            None
        },
        _ => None,
    }
}

pub fn get_bool(o: Option<&Json>) -> (r: Option<bool>)
    ensures
        r == as_bool(match o { Some(v) => Some(*v), None => None }),
{
    match o {
        Some(Json::Bool(b)) => Some(*b),
        _ => None,
    }
}

pub fn get_str<'a>(o: Option<&'a Json>) -> (r: Option<&'a String>)
    ensures
        match r {
            Some(s) => as_str(match o { Some(v) => Some(*v), None => None }) == Some(s@),
            None => as_str(match o { Some(v) => Some(*v), None => None }) is None,
        },
{
    match o {
        Some(Json::Str(s)) => Some(s),
        _ => None,
    }
}

pub fn get_array<'a>(o: Option<&'a Json>) -> (r: Option<&'a Vec<Json>>)
    ensures
        match r {
            Some(a) => as_array(match o { Some(v) => Some(*v), None => None }) == Some(a@),
            None => as_array(match o { Some(v) => Some(*v), None => None }) is None,
        },
{
    match o {
        Some(Json::Array(a)) => Some(a),
        _ => None,
    }
}

pub fn get_i64(o: Option<&Json>) -> (r: Option<i64>)
    ensures
        r == as_i64(match o { Some(v) => Some(*v), None => None }),
{
    match o {
        Some(Json::Number(JsonNumber::PosInt(u))) => if *u <= i64::MAX as u64 {
            Some(*u as i64)
        } else {
            None
        },
        Some(Json::Number(JsonNumber::NegInt(i))) => Some(*i),
        _ => None,
    }
}

pub fn get_u64(o: Option<&Json>) -> (r: Option<u64>)
    ensures
        r == as_u64(match o { Some(v) => Some(*v), None => None }),
{
    match o {
        Some(Json::Number(JsonNumber::PosInt(u))) => Some(*u),
        _ => None,
    }
}

/// Element `i` of an array.
pub fn get_element(a: &Vec<Json>, i: usize) -> (r: Option<&Json>)
    ensures
        match r {
            Some(v) => element(a@, i as int) == Some(*v),
            None => element(a@, i as int) is None,
        },
{
    if i < a.len() {
        Some(&a[i])
    } else {
        None
    }
}

} // verus!
