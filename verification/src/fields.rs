//! Typed access to payload fields, with the decode-failure text each
//! handler folds into its serialization error. A request field is optional:
//! an absent field and an explicit null both read as `None`, while a value
//! of the wrong shape is a decode error naming the field.

use vstd::prelude::*;
use crate::value::Value;

verus! {

/// The decode-error text for a field that has the wrong shape.
pub open spec fn spec_field_error(key: Seq<char>, expected: Seq<char>) -> Seq<char> {
    "field `"@ + key + "`: expected "@ + expected
}

fn field_error(key: &str, expected: &str) -> (r: String)
    ensures
        r@ == spec_field_error(key@, expected@),
{
    let mut s = String::from_str("field `");
    s.append(key);
    s.append("`: expected ");
    s.append(expected);
    proof {
        assert(s@ =~= spec_field_error(key@, expected@));
    }
    s
}

/// Whether an optional string field decodes, and to what.
pub open spec fn spec_opt_string(payload: Value, key: Seq<char>) -> Option<Option<String>> {
    match payload.spec_get(key) {
        None => Some(None),
        Some(v) => match v {
            Value::Null => Some(None),
            Value::Str(s) => Some(Some(s)),
            _ => None,
        },
    }
}

/// Reads an optional string field: absent or null is `None`, any other
/// non-string shape is a decode error.
pub fn opt_string_field(payload: &Value, key: &str) -> (r: Result<Option<String>, String>)
    ensures
        match r {
            Ok(opt) => spec_opt_string(*payload, key@) == Some(opt),
            Err(m) => {
                &&& spec_opt_string(*payload, key@) is None
                &&& m@ == spec_field_error(key@, "a string"@)
            },
        },
{
    match payload.get(key) {
        None => Ok(None),
        Some(v) => match v {
            Value::Null => Ok(None),
            Value::Str(s) => Ok(Some(s.clone())),
            _ => Err(field_error(key, "a string")),
        },
    }
}

/// Whether an optional unsigned-integer field decodes, and to what.
pub open spec fn spec_opt_u64(payload: Value, key: Seq<char>) -> Option<Option<u64>> {
    match payload.spec_get(key) {
        None => Some(None),
        Some(v) => match v {
            Value::Null => Some(None),
            Value::UInt(n) => Some(Some(n)),
            _ => None,
        },
    }
}

/// Reads an optional unsigned-integer field.
pub fn opt_u64_field(payload: &Value, key: &str) -> (r: Result<Option<u64>, String>)
    ensures
        match r {
            Ok(opt) => spec_opt_u64(*payload, key@) == Some(opt),
            Err(m) => {
                &&& spec_opt_u64(*payload, key@) is None
                &&& m@ == spec_field_error(key@, "an unsigned integer"@)
            },
        },
{
    match payload.get(key) {
        None => Ok(None),
        Some(v) => match v {
            Value::Null => Ok(None),
            Value::UInt(n) => Ok(Some(*n)),
            _ => Err(field_error(key, "an unsigned integer")),
        },
    }
}

/// Whether an optional boolean field decodes, and to what.
pub open spec fn spec_opt_bool(payload: Value, key: Seq<char>) -> Option<Option<bool>> {
    match payload.spec_get(key) {
        None => Some(None),
        Some(v) => match v {
            Value::Null => Some(None),
            Value::Bool(b) => Some(Some(b)),
            _ => None,
        },
    }
}

/// Reads an optional boolean field.
pub fn opt_bool_field(payload: &Value, key: &str) -> (r: Result<Option<bool>, String>)
    ensures
        match r {
            Ok(opt) => spec_opt_bool(*payload, key@) == Some(opt),
            Err(m) => {
                &&& spec_opt_bool(*payload, key@) is None
                &&& m@ == spec_field_error(key@, "a boolean"@)
            },
        },
{
    match payload.get(key) {
        None => Ok(None),
        Some(v) => match v {
            Value::Null => Ok(None),
            Value::Bool(b) => Ok(Some(*b)),
            _ => Err(field_error(key, "a boolean")),
        },
    }
}

/// Whether an optional count field decodes: an unsigned integer that must
/// also fit the platform's `usize`.
pub open spec fn spec_opt_usize(payload: Value, key: Seq<char>) -> Option<Option<usize>> {
    match spec_opt_u64(payload, key) {
        None => None,
        Some(None) => Some(None),
        Some(Some(n)) => if n <= usize::MAX as u64 {
            Some(Some(n as usize))
        } else {
            None
        },
    }
}

/// Reads an optional count field; a value above `usize::MAX` is a decode
/// error, as the platform cannot hold such a count.
pub fn opt_usize_field(payload: &Value, key: &str) -> (r: Result<Option<usize>, String>)
    ensures
        match r {
            Ok(opt) => spec_opt_usize(*payload, key@) == Some(opt),
            Err(m) => {
                &&& spec_opt_usize(*payload, key@) is None
                &&& m@ == spec_field_error(key@, "an unsigned integer"@)
            },
        },
{
    match opt_u64_field(payload, key) {
        Err(m) => Err(m),
        Ok(None) => Ok(None),
        Ok(Some(n)) => {
            if n <= usize::MAX as u64 {
                Ok(Some(n as usize))
            } else {
                Err(field_error(key, "an unsigned integer"))
            }
        },
    }
}

/// Reads a required string field: it must be present and a string.
pub fn req_string_field(payload: &Value, key: &str) -> (r: Result<String, String>)
    ensures
        match r {
            Ok(s) => match spec_opt_string(*payload, key@) {
                Some(Some(t)) => s == t,
                _ => false,
            },
            Err(m) => {
                &&& !(spec_opt_string(*payload, key@) matches Some(Some(_)))
                &&& m@ == spec_field_error(key@, "a string"@)
            },
        },
{
    match opt_string_field(payload, key) {
        Err(m) => Err(m),
        Ok(None) => Err(field_error(key, "a string")),
        Ok(Some(s)) => Ok(s),
    }
}

/// Saturates a wire count into a `usize`.
pub fn saturate_usize(n: u64) -> (r: usize)
    ensures
        r == if n <= usize::MAX as u64 {
            n as usize
        } else {
            usize::MAX
        },
{
    if n <= usize::MAX as u64 {
        n as usize
    } else {
        usize::MAX
    }
}

} // verus!
