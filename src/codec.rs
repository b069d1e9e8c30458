//! Decoding typed values out of JSON documents.
use crate::error::joined;
use crate::json::{
    field, get_field, integer_in, to_i64_value, to_number_value, to_u64_value, Json, JsonNumber,
};
use vstd::prelude::*;

verus! {

/// A type with a wire form in JSON.
pub trait FromJson: Sized {
    /// Whether `j` is in the wire form of this type.
    spec fn wire_accepts(j: Json) -> bool;

    /// Whether `v` is the value that the accepted document `j` stands for.
    spec fn wire_denotes(j: Json, v: Self) -> bool;

    /// Decodes `j`; the error says what was expected where.
    fn from_json(j: &Json) -> (r: Result<Self, String>)
        ensures
            match r {
                Ok(v) => Self::wire_accepts(*j) && Self::wire_denotes(*j, v),
                Err(_) => !Self::wire_accepts(*j),
            },
    ;
}

impl FromJson for bool {
    open spec fn wire_accepts(j: Json) -> bool {
        j is Bool
    }

    open spec fn wire_denotes(j: Json, v: bool) -> bool {
        j == Json::Bool(v)
    }

    fn from_json(j: &Json) -> (r: Result<bool, String>) {
        match j {
            Json::Bool(b) => Ok(*b),
            _ => Err("expected a boolean".to_owned()),
        }
    }
}

/// Whether every document of `items` is in the wire form of `T`.
pub open spec fn all_accepted<T: FromJson>(items: Seq<Json>) -> bool {
    forall|i: int| 0 <= i < items.len() ==> #[trigger] T::wire_accepts(items[i])
}

/// Whether `values` are, one for one, what the documents `items` stand for.
pub open spec fn all_denote<T: FromJson>(items: Seq<Json>, values: Seq<T>) -> bool {
    values.len() == items.len() && forall|i: int|
        0 <= i < items.len() ==> #[trigger] T::wire_denotes(items[i], values[i])
}

/// A list is an array whose every element is in the element type's form.
impl<T: FromJson> FromJson for Vec<T> {
    open spec fn wire_accepts(j: Json) -> bool {
        match j {
            Json::Array(items) => all_accepted::<T>(items@),
            _ => false,
        }
    }

    open spec fn wire_denotes(j: Json, v: Vec<T>) -> bool {
        match j {
            Json::Array(items) => all_denote::<T>(items@, v@),
            _ => false,
        }
    }

    fn from_json(j: &Json) -> (r: Result<Vec<T>, String>) {
        match j {
            Json::Array(items) => {
                let mut out: Vec<T> = Vec::new();
                let mut i: usize = 0;
                while i < items.len()
                    invariant
                        i <= items@.len(),
                        *j == Json::Array(*items),
                        out@.len() == i,
                        forall|k: int| 0 <= k < i ==> #[trigger] T::wire_accepts(items@[k]),
                        forall|k: int|
                            0 <= k < i ==> #[trigger] T::wire_denotes(items@[k], out@[k]),
                    decreases items@.len() - i,
                {
                    match T::from_json(&items[i]) {
                        Ok(v) => out.push(v),
                        Err(e) => {
                            assert(!T::wire_accepts(items@[i as int]));
                            return Err(e);
                        },
                    }
                    i = i + 1;
                }
                Ok(out)
            },
            _ => Err("expected an array".to_owned()),
        }
    }
}

/// Whether `j` is an object whose every member value is in the wire form of `T`.
pub open spec fn members_accept<T: FromJson>(j: Json) -> bool {
    match j {
        Json::Object(entries) => values_accepted::<T>(entries@),
        _ => false,
    }
}

/// Whether every member value of `entries` is in the wire form of `T`.
pub open spec fn values_accepted<T: FromJson>(entries: Seq<(String, Json)>) -> bool {
    forall|i: int| 0 <= i < entries.len() ==> #[trigger] T::wire_accepts(entries[i].1)
}

/// Whether `v` holds, in order, the keys of the object `j` with what their
/// values stand for.
pub open spec fn members_denote<T: FromJson>(j: Json, v: Seq<(String, T)>) -> bool {
    match j {
        Json::Object(entries) => v.len() == entries@.len() && forall|i: int|
            0 <= i < entries@.len() ==> #[trigger] v[i].0 == entries@[i].0 && T::wire_denotes(
                entries@[i].1,
                v[i].1,
            ),
        _ => false,
    }
}

/// Decodes an object whose member values are all `T`s, keeping each key.
pub fn members_from_json<T: FromJson>(j: &Json) -> (r: Result<Vec<(String, T)>, String>)
    ensures
        match r {
            Ok(v) => members_accept::<T>(*j) && members_denote::<T>(*j, v@),
            Err(_) => !members_accept::<T>(*j),
        },
{
    match j {
        Json::Object(entries) => {
            let mut out: Vec<(String, T)> = Vec::new();
            let mut i: usize = 0;
            while i < entries.len()
                invariant
                    i <= entries@.len(),
                    *j == Json::Object(*entries),
                    out@.len() == i,
                    forall|k: int| 0 <= k < i ==> #[trigger] T::wire_accepts(entries@[k].1),
                    forall|k: int|
                        0 <= k < i ==> #[trigger] out@[k].0 == entries@[k].0 && T::wire_denotes(
                            entries@[k].1,
                            out@[k].1,
                        ),
                decreases entries@.len() - i,
            {
                match T::from_json(&entries[i].1) {
                    Ok(v) => out.push((entries[i].0.clone(), v)),
                    Err(e) => {
                        assert(!T::wire_accepts(entries@[i as int].1));
                        return Err(e);
                    },
                }
                i = i + 1;
            }
            Ok(out)
        },
        _ => Err("expected an object".to_owned()),
    }
}

/// The string member `key` of `j`.
pub open spec fn string_field(j: Json, key: Seq<char>) -> Option<String> {
    match field(j, key) {
        Some(Json::String(s)) => Some(s),
        _ => None,
    }
}

/// The boolean member `key` of `j`.
pub open spec fn bool_field(j: Json, key: Seq<char>) -> Option<bool> {
    match field(j, key) {
        Some(Json::Bool(b)) => Some(b),
        _ => None,
    }
}

/// The member `key` of `j`, if it is a number of any kind.
pub open spec fn number_field(j: Json, key: Seq<char>) -> Option<JsonNumber> {
    match field(j, key) {
        Some(Json::Number(n)) => Some(n),
        _ => None,
    }
}

/// The member `key` of `j`, if it is an integer in `lo ..= hi`.
pub open spec fn int_field(j: Json, key: Seq<char>, lo: int, hi: int) -> Option<int> {
    match field(j, key) {
        Some(x) => integer_in(x, lo, hi),
        None => None,
    }
}

fn missing(key: &str) -> String {
    joined("missing or mistyped field '", key, "'")
}

pub fn get_string_field(j: &Json, key: &str) -> (r: Result<String, String>)
    ensures
        match r {
            Ok(s) => string_field(*j, key@) == Some(s),
            Err(_) => string_field(*j, key@) is None,
        },
{
    match get_field(j, key) {
        Some(Json::String(s)) => Ok(s.clone()),
        _ => Err(missing(key)),
    }
}

pub fn get_bool_field(j: &Json, key: &str) -> (r: Result<bool, String>)
    ensures
        match r {
            Ok(b) => bool_field(*j, key@) == Some(b),
            Err(_) => bool_field(*j, key@) is None,
        },
{
    match get_field(j, key) {
        Some(Json::Bool(b)) => Ok(*b),
        _ => Err(missing(key)),
    }
}

pub fn get_number_field(j: &Json, key: &str) -> (r: Result<JsonNumber, String>)
    ensures
        match r {
            Ok(n) => number_field(*j, key@) == Some(n),
            Err(_) => number_field(*j, key@) is None,
        },
{
    match get_field(j, key) {
        Some(x) => match to_number_value(x) {
            Some(n) => Ok(n),
            None => Err(missing(key)),
        },
        None => Err(missing(key)),
    }
}

pub fn get_u64_field(j: &Json, key: &str) -> (r: Result<u64, String>)
    ensures
        match r {
            Ok(v) => int_field(*j, key@, 0, u64::MAX as int) == Some(v as int),
            Err(_) => int_field(*j, key@, 0, u64::MAX as int) is None,
        },
{
    match get_field(j, key) {
        Some(x) => match to_u64_value(x) {
            Some(v) => Ok(v),
            None => Err(missing(key)),
        },
        None => Err(missing(key)),
    }
}

pub fn get_u32_field(j: &Json, key: &str) -> (r: Result<u32, String>)
    ensures
        match r {
            Ok(v) => int_field(*j, key@, 0, u32::MAX as int) == Some(v as int),
            Err(_) => int_field(*j, key@, 0, u32::MAX as int) is None,
        },
{
    match get_field(j, key) {
        Some(x) => match to_u64_value(x) {
            Some(v) => if v <= u32::MAX as u64 {
                Ok(v as u32)
            } else {
                Err(missing(key))
            },
            None => Err(missing(key)),
        },
        None => Err(missing(key)),
    }
}

pub fn get_u16_field(j: &Json, key: &str) -> (r: Result<u16, String>)
    ensures
        match r {
            Ok(v) => int_field(*j, key@, 0, u16::MAX as int) == Some(v as int),
            Err(_) => int_field(*j, key@, 0, u16::MAX as int) is None,
        },
{
    match get_field(j, key) {
        Some(x) => match to_u64_value(x) {
            Some(v) => if v <= u16::MAX as u64 {
                Ok(v as u16)
            } else {
                Err(missing(key))
            },
            None => Err(missing(key)),
        },
        None => Err(missing(key)),
    }
}

pub fn get_i64_field(j: &Json, key: &str) -> (r: Result<i64, String>)
    ensures
        match r {
            Ok(v) => int_field(*j, key@, i64::MIN as int, i64::MAX as int) == Some(v as int),
            Err(_) => int_field(*j, key@, i64::MIN as int, i64::MAX as int) is None,
        },
{
    match get_field(j, key) {
        Some(x) => match to_i64_value(x) {
            Some(v) => Ok(v),
            None => Err(missing(key)),
        },
        None => Err(missing(key)),
    }
}

pub fn get_i32_field(j: &Json, key: &str) -> (r: Result<i32, String>)
    ensures
        match r {
            Ok(v) => int_field(*j, key@, i32::MIN as int, i32::MAX as int) == Some(v as int),
            Err(_) => int_field(*j, key@, i32::MIN as int, i32::MAX as int) is None,
        },
{
    match get_field(j, key) {
        Some(x) => match to_i64_value(x) {
            Some(v) => if i32::MIN as i64 <= v && v <= i32::MAX as i64 {
                Ok(v as i32)
            } else {
                Err(missing(key))
            },
            None => Err(missing(key)),
        },
        None => Err(missing(key)),
    }
}

} // verus!
