//! A plain-value model of the JSON shapes the remote endpoints return.
//!
//! The catalog logic only ever reads string values and object fields, so the
//! model keeps those two shapes and folds every other JSON form into
//! `Other`. Object fields keep their order; the endpoints never repeat a key,
//! but lookup is well defined either way (first occurrence wins).

use vstd::prelude::*;
use crate::text::str_eq;

verus! {

/// One JSON value, as far as this library reads it.
pub enum JsonValue {
    /// A JSON string.
    Str(String),
    /// A JSON object, as ordered key/value pairs.
    Obj(Vec<(String, JsonValue)>),
    /// Any other JSON form (null, boolean, number, array).
    Other,
}

/// The value under `key` in `fields`, at its first occurrence.
pub open spec fn field_of(fields: Seq<(String, JsonValue)>, key: Seq<char>) -> Option<JsonValue>
    decreases fields.len(),
{
    if fields.len() == 0 {
        None
    } else if fields[0].0@ == key {
        Some(fields[0].1)
    } else {
        field_of(fields.drop_first(), key)
    }
}

/// The string content under `key`, when the field is there and is a string.
pub open spec fn string_field_of(fields: Seq<(String, JsonValue)>, key: Seq<char>) -> Option<
    Seq<char>,
> {
    match field_of(fields, key) {
        Some(JsonValue::Str(s)) => Some(s@),
        _ => None,
    }
}

impl JsonValue {
    /// Looks `key` up among the fields of an object value.
    pub fn get<'a>(fields: &'a Vec<(String, JsonValue)>, key: &str) -> (r: Option<&'a JsonValue>)
        ensures
            match r {
                Some(v) => field_of(fields@, key@) == Some(*v),
                None => field_of(fields@, key@) is None,
            },
    {
        let mut i: usize = 0;
        proof {
            assert(fields@.skip(0) =~= fields@);
        }
        while i < fields.len()
            invariant
                i <= fields@.len(),
                field_of(fields@, key@) == field_of(fields@.skip(i as int), key@),
            decreases fields@.len() - i,
        {
            let ghost rest = fields@.skip(i as int);
            proof {
                assert(rest[0] == fields@[i as int]);
                assert(rest.drop_first() =~= fields@.skip(i + 1));
            }
            if str_eq(fields[i].0.as_str(), key) {
                return Some(&fields[i].1);
            }
            i += 1;
        }
        proof {
            assert(fields@.skip(fields@.len() as int) =~= Seq::<(String, JsonValue)>::empty());
        }
        None
    }
}

} // verus!
