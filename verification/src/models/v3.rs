//! The third API version: its operations and their wire conventions.
//!
//! This module holds the field readers every record decoder is built from.
//! They mirror the service's conventions: booleans are sometimes sent as
//! numbers (zero is false, anything else true), an empty string stands for
//! an absent value, and timestamps are unix seconds that must name a
//! calendar date.

pub mod keys;
pub mod projects;

use vstd::prelude::*;
use crate::json::{Json, JVal, spec_field};

verus! {

/// The largest unix timestamp that names a calendar date: the last second
/// of the year 9999.
pub const MAX_TIMESTAMP: i64 = 253402300799;

/// The smallest unix timestamp that names a calendar date: the first second
/// of the year -9999.
pub const MIN_TIMESTAMP: i64 = -377705116800;

/// The string field `key` of the object `j`.
pub open spec fn spec_str_field(j: JVal, key: Seq<char>) -> Option<Seq<char>> {
    match spec_field(j, key) {
        Some(JVal::Str(s)) => Some(s),
        _ => None,
    }
}

/// The boolean field `key` of the object `j`.
pub open spec fn spec_bool_field(j: JVal, key: Seq<char>) -> Option<bool> {
    match spec_field(j, key) {
        Some(JVal::Bool(b)) => Some(b),
        _ => None,
    }
}

/// The numeric flag field `key` of the object `j`: a number in `0 ..= 255`,
/// false for zero and true for anything else.
pub open spec fn spec_num_bool_field(j: JVal, key: Seq<char>) -> Option<bool> {
    match spec_field(j, key) {
        Some(JVal::Int(i)) => if 0 <= i <= 255 {
            Some(i != 0)
        } else {
            None
        },
        _ => None,
    }
}

/// The `u8` field `key` of the object `j`.
pub open spec fn spec_u8_field(j: JVal, key: Seq<char>) -> Option<u8> {
    match spec_field(j, key) {
        Some(JVal::Int(i)) => if 0 <= i <= 255 {
            Some(i as u8)
        } else {
            None
        },
        _ => None,
    }
}

/// The `u32` field `key` of the object `j`.
pub open spec fn spec_u32_field(j: JVal, key: Seq<char>) -> Option<u32> {
    match spec_field(j, key) {
        Some(JVal::Int(i)) => if 0 <= i <= u32::MAX {
            Some(i as u32)
        } else {
            None
        },
        _ => None,
    }
}

/// The `u64` field `key` of the object `j`.
pub open spec fn spec_u64_field(j: JVal, key: Seq<char>) -> Option<u64> {
    match spec_field(j, key) {
        Some(JVal::Int(i)) => if 0 <= i <= u64::MAX {
            Some(i as u64)
        } else {
            None
        },
        _ => None,
    }
}

/// The timestamp field `key` of the object `j`: unix seconds that must name
/// a calendar date.
pub open spec fn spec_timestamp_field(j: JVal, key: Seq<char>) -> Option<i64> {
    match spec_field(j, key) {
        Some(JVal::Int(i)) => if MIN_TIMESTAMP <= i <= MAX_TIMESTAMP {
            Some(i as i64)
        } else {
            None
        },
        _ => None,
    }
}

/// The sentinel-encoded string field `key` of the object `j`: the empty
/// string stands for an absent value.
pub open spec fn spec_opt_str_field(j: JVal, key: Seq<char>) -> Option<Option<Seq<char>>> {
    match spec_field(j, key) {
        Some(JVal::Str(s)) => if s.len() == 0 {
            Some(None)
        } else {
            Some(Some(s))
        },
        _ => None,
    }
}

/// The JSON form of an optional string: `null` when absent.
pub open spec fn jval_opt_str(o: Option<&str>) -> JVal {
    match o {
        Some(s) => JVal::Str(s@),
        None => JVal::Null,
    }
}

/// The JSON form of an optional boolean: `null` when absent.
pub open spec fn jval_opt_bool(o: Option<bool>) -> JVal {
    match o {
        Some(b) => JVal::Bool(b),
        None => JVal::Null,
    }
}

/// The JSON form of an optional `u32`: `null` when absent.
pub open spec fn jval_opt_u32(o: Option<u32>) -> JVal {
    match o {
        Some(u) => JVal::Int(u as int),
        None => JVal::Null,
    }
}

/// The JSON form of an optional `i32`: `null` when absent.
pub open spec fn jval_opt_i32(o: Option<i32>) -> JVal {
    match o {
        Some(i) => JVal::Int(i as int),
        None => JVal::Null,
    }
}

/// The JSON form of an optional timestamp: `null` when absent.
pub open spec fn jval_opt_i64(o: Option<i64>) -> JVal {
    match o {
        Some(i) => JVal::Int(i as int),
        None => JVal::Null,
    }
}

/// Builds the JSON form of an optional string.
pub fn json_opt_str(o: Option<&str>) -> (r: Json)
    ensures
        r@ == jval_opt_str(o),
{
    match o {
        Some(s) => Json::Str(s.to_owned()),
        None => Json::Null,
    }
}

/// Builds the JSON form of an optional boolean.
pub fn json_opt_bool(o: Option<bool>) -> (r: Json)
    ensures
        r@ == jval_opt_bool(o),
{
    match o {
        Some(b) => Json::Bool(b),
        None => Json::Null,
    }
}

/// Builds the JSON form of an optional `u32`.
pub fn json_opt_u32(o: Option<u32>) -> (r: Json)
    ensures
        r@ == jval_opt_u32(o),
{
    match o {
        Some(u) => Json::Int(u as i64),
        None => Json::Null,
    }
}

/// Builds the JSON form of an optional `i32`.
pub fn json_opt_i32(o: Option<i32>) -> (r: Json)
    ensures
        r@ == jval_opt_i32(o),
{
    match o {
        Some(i) => Json::Int(i as i64),
        None => Json::Null,
    }
}

/// Builds the JSON form of an optional timestamp.
pub fn json_opt_i64(o: Option<i64>) -> (r: Json)
    ensures
        r@ == jval_opt_i64(o),
{
    match o {
        Some(i) => Json::Int(i),
        None => Json::Null,
    }
}

/// Reads a string field.
pub fn str_field(j: &Json, key: &str) -> (r: Option<String>)
    ensures
        match r {
            Some(s) => spec_str_field(j@, key@) == Some(s@),
            None => spec_str_field(j@, key@) is None,
        },
{
    match j.field(key) {
        Some(v) => match v.as_str() {
            Some(s) => Some(s.clone()),
            None => None,
        },
        None => None,
    }
}

/// Reads a boolean field.
pub fn bool_field(j: &Json, key: &str) -> (r: Option<bool>)
    ensures
        r == spec_bool_field(j@, key@),
{
    match j.field(key) {
        Some(v) => v.as_bool(),
        None => None,
    }
}

/// Reads a numeric flag field: zero is false, any other number up to 255 is
/// true.
pub fn num_bool_field(j: &Json, key: &str) -> (r: Option<bool>)
    ensures
        r == spec_num_bool_field(j@, key@),
{
    match j.field(key) {
        Some(v) => match v.as_u64() {
            Some(u) => if u <= 255 {
                Some(u != 0)
            } else {
                None
            },
            None => None,
        },
        None => None,
    }
}

/// Reads a `u8` field.
pub fn u8_field(j: &Json, key: &str) -> (r: Option<u8>)
    ensures
        r == spec_u8_field(j@, key@),
{
    match j.field(key) {
        Some(v) => match v.as_u64() {
            Some(u) => if u <= 255 {
                Some(u as u8)
            } else {
                None
            },
            None => None,
        },
        None => None,
    }
}

/// Reads a `u32` field.
pub fn u32_field(j: &Json, key: &str) -> (r: Option<u32>)
    ensures
        r == spec_u32_field(j@, key@),
{
    match j.field(key) {
        Some(v) => match v.as_u64() {
            Some(u) => if u <= u32::MAX as u64 {
                Some(u as u32)
            } else {
                None
            },
            None => None,
        },
        None => None,
    }
}

/// Reads a `u64` field.
pub fn u64_field(j: &Json, key: &str) -> (r: Option<u64>)
    ensures
        r == spec_u64_field(j@, key@),
{
    match j.field(key) {
        Some(v) => v.as_u64(),
        None => None,
    }
}

/// Reads a timestamp field.
pub fn timestamp_field(j: &Json, key: &str) -> (r: Option<i64>)
    ensures
        r == spec_timestamp_field(j@, key@),
{
    match j.field(key) {
        Some(v) => match v.as_i64() {
            Some(i) => if MIN_TIMESTAMP <= i && i <= MAX_TIMESTAMP {
                Some(i)
            } else {
                None
            },
            None => None,
        },
        None => None,
    }
}

/// Reads a sentinel-encoded string field: the empty string comes back as an
/// absent value.
pub fn opt_str_field(j: &Json, key: &str) -> (r: Option<Option<String>>)
    ensures
        match r {
            Some(Some(s)) => spec_opt_str_field(j@, key@) == Some(Some(s@)),
            Some(None) => spec_opt_str_field(j@, key@) == Some(None::<Seq<char>>),
            None => spec_opt_str_field(j@, key@) is None,
        },
{
    match str_field(j, key) {
        Some(s) => if s.as_str().is_empty() {
            Some(None)
        } else {
            Some(Some(s))
        },
        None => None,
    }
}

} // verus!
