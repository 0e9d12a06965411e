//! Replies of outside services, read by field name.

use vstd::prelude::*;

use crate::text::number::{decimal_i64, decimal_u64};
#[allow(unused_imports)]
use crate::text::number::{decimal, decimal_int};
use crate::text::same;

verus! {

/// A JSON value. A number that is no integer is only known as such.
#[derive(Debug)]
pub enum Json {
    Null,
    Bool(bool),
    PosInt(u64),
    NegInt(i64),
    Float,
    Str(String),
    Array(Vec<Json>),
    Object(Vec<(String, Json)>),
}

/// The value under a key, `Null` if there is none.
pub open spec fn entry(entries: Seq<(String, Json)>, key: Seq<char>) -> Json
    decreases entries.len(),
{
    if entries.len() == 0 {
        Json::Null
    } else if entries[0].0@ == key {
        entries[0].1
    } else {
        entry(entries.skip(1), key)
    }
}

/// The value under a key of an object; `Null` if there is none, or if `j` is no object.
pub open spec fn field(j: Json, key: Seq<char>) -> Json {
    match j {
        Json::Object(entries) => entry(entries@, key),
        _ => Json::Null,
    }
}

/// The text that a value is.
pub open spec fn text_of(j: Json) -> Option<Seq<char>> {
    match j {
        Json::Str(s) => Some(s@),
        _ => None,
    }
}

/// The integer that a value is, if it fits in 64 bits with a sign.
pub open spec fn int_of(j: Json) -> Option<i64> {
    match j {
        Json::PosInt(n) => if n <= i64::MAX {
            Some(n as i64)
        } else {
            None
        },
        Json::NegInt(n) => Some(n),
        _ => None,
    }
}

/// The natural number that a value is.
pub open spec fn nat_of(j: Json) -> Option<u64> {
    match j {
        Json::PosInt(n) => Some(n),
        Json::NegInt(n) => if n >= 0 {
            Some(n as u64)
        } else {
            None
        },
        _ => None,
    }
}

/// The truth value that a value is.
pub open spec fn bool_of(j: Json) -> Option<bool> {
    match j {
        Json::Bool(b) => Some(b),
        _ => None,
    }
}

/// The items of an array, none if `j` is no array.
pub open spec fn items_of(j: Json) -> Seq<Json> {
    match j {
        Json::Array(items) => items@,
        _ => Seq::empty(),
    }
}

/// An identifier, given as a text or as an integer.
pub open spec fn id_of(j: Json) -> Option<Seq<char>> {
    match j {
        Json::Str(s) => Some(s@),
        Json::PosInt(n) => Some(decimal(n as nat)),
        Json::NegInt(n) => Some(decimal_int(n as int)),
        _ => None,
    }
}

/// The first text that is there, of two.
pub open spec fn first_text(a: Json, b: Json) -> Option<Seq<char>> {
    if text_of(a) is Some {
        text_of(a)
    } else {
        text_of(b)
    }
}

impl Json {
    /// The value under a key of an object.
    pub fn get(&self, key: &str) -> (r: Option<&Json>)
        ensures
            match r {
                Some(v) => field(*self, key@) == *v,
                None => field(*self, key@) == Json::Null,
            },
    {
        match self {
            Json::Object(entries) => {
                let mut i: usize = 0;
                assert(entries@.skip(0) == entries@);
                while i < entries.len()
                    invariant
                        i <= entries@.len(),
                        field(*self, key@) == entry(entries@, key@),
                        entry(entries@, key@) == entry(entries@.skip(i as int), key@),
                    decreases entries@.len() - i,
                {
                    let ghost rest = entries@.skip(i as int);
                    assert(rest[0] == entries@[i as int]);
                    assert(rest.skip(1) == entries@.skip(i + 1));
                    if same(entries[i].0.as_str(), key) {
                        return Some(&entries[i].1);
                    }
                    i = i + 1;
                }
                None
            },
            _ => None,
        }
    }

    /// Whether there is nothing under a key.
    pub fn null_at(&self, key: &str) -> (r: bool)
        ensures
            r == (field(*self, key@) == Json::Null),
    {
        match self.get(key) {
            Some(Json::Null) | None => true,
            _ => false,
        }
    }

    /// The text under a key.
    pub fn str_at(&self, key: &str) -> (r: Option<&String>)
        ensures
            match r {
                Some(s) => text_of(field(*self, key@)) == Some(s@),
                None => text_of(field(*self, key@)) is None,
            },
    {
        match self.get(key) {
            Some(Json::Str(s)) => Some(s),
            _ => None,
        }
    }

    /// The integer that a value is.
    pub fn as_i64(&self) -> (r: Option<i64>)
        ensures
            r == int_of(*self),
    {
        match self {
            Json::PosInt(n) => if *n <= i64::MAX as u64 {
                Some(*n as i64)
            } else {
                None
            },
            Json::NegInt(n) => Some(*n),
            _ => None,
        }
    }

    /// The integer under a key.
    pub fn i64_at(&self, key: &str) -> (r: Option<i64>)
        ensures
            r == int_of(field(*self, key@)),
    {
        match self.get(key) {
            Some(v) => v.as_i64(),
            None => None,
        }
    }

    /// The natural number under a key.
    pub fn u64_at(&self, key: &str) -> (r: Option<u64>)
        ensures
            r == nat_of(field(*self, key@)),
    {
        match self.get(key) {
            Some(Json::PosInt(n)) => Some(*n),
            Some(Json::NegInt(n)) => if *n >= 0 {
                Some(*n as u64)
            } else {
                None
            },
            _ => None,
        }
    }

    /// The truth value under a key.
    pub fn bool_at(&self, key: &str) -> (r: Option<bool>)
        ensures
            r == bool_of(field(*self, key@)),
    {
        match self.get(key) {
            Some(Json::Bool(b)) => Some(*b),
            _ => None,
        }
    }

    /// The array under a key.
    pub fn items_at(&self, key: &str) -> (r: Option<&Vec<Json>>)
        ensures
            match r {
                Some(v) => items_of(field(*self, key@)) == v@,
                None => items_of(field(*self, key@)) == Seq::<Json>::empty(),
            },
    {
        match self.get(key) {
            Some(Json::Array(items)) => Some(items),
            _ => None,
        }
    }

    /// The identifier under a key.
    pub fn id_at(&self, key: &str) -> (r: Option<String>)
        ensures
            match r {
                Some(s) => id_of(field(*self, key@)) == Some(s@),
                None => id_of(field(*self, key@)) is None,
            },
    {
        match self.get(key) {
            Some(v) => value_to_string(v),
            None => None,
        }
    }
}

/// An identifier, given as a text or as an integer.
pub fn value_to_string(value: &Json) -> (r: Option<String>)
    ensures
        match r {
            Some(s) => id_of(*value) == Some(s@),
            None => id_of(*value) is None,
        },
{
    match value {
        Json::Str(s) => Some(s.clone()),
        Json::PosInt(n) => Some(decimal_u64(*n)),
        Json::NegInt(n) => Some(decimal_i64(*n)),
        _ => None,
    }
}

} // verus!
