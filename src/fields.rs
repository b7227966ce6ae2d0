//! How a member of a JSON object is read as a field of a record: required or
//! optional, and of which type. An absent optional field and one set to
//! `null` both read as absent.
use vstd::prelude::*;
use crate::json::{JsonNumber, JsonValue};

verus! {

/// Why a JSON value does not fit the record shape that was asked for.
#[derive(Debug, Clone, Copy, PartialEq, Eq, Structural)]
pub enum SchemaError {
    /// A required member is absent.
    MissingField,
    /// A member holds a value of the wrong kind.
    InvalidType,
    /// A number does not fit the integer type of its field.
    InvalidValue,
    /// A content item names a kind that is not known.
    UnknownVariant,
}

impl SchemaError {
    /// A short description of the error, for diagnostics.
    pub fn describe(&self) -> (r: String)
        ensures
            r@ == match self {
                SchemaError::MissingField => "a required field is missing"@,
                SchemaError::InvalidType => "a field holds a value of the wrong type"@,
                SchemaError::InvalidValue => "a number does not fit its field"@,
                SchemaError::UnknownVariant => "unknown content item type"@,
            },
    {
        match self {
            SchemaError::MissingField => String::from_str("a required field is missing"),
            SchemaError::InvalidType => String::from_str("a field holds a value of the wrong type"),
            SchemaError::InvalidValue => String::from_str("a number does not fit its field"),
            SchemaError::UnknownVariant => String::from_str("unknown content item type"),
        }
    }
}

pub open spec fn required_string(v: Option<JsonValue>) -> Result<String, SchemaError> {
    match v {
        None => Err(SchemaError::MissingField),
        Some(JsonValue::Str(s)) => Ok(s),
        Some(_) => Err(SchemaError::InvalidType),
    }
}

pub open spec fn optional_string(v: Option<JsonValue>) -> Result<Option<String>, SchemaError> {
    match v {
        None => Ok(None),
        Some(JsonValue::Null) => Ok(None),
        Some(JsonValue::Str(s)) => Ok(Some(s)),
        Some(_) => Err(SchemaError::InvalidType),
    }
}

pub open spec fn optional_bool(v: Option<JsonValue>) -> Result<Option<bool>, SchemaError> {
    match v {
        None => Ok(None),
        Some(JsonValue::Null) => Ok(None),
        Some(JsonValue::Bool(b)) => Ok(Some(b)),
        Some(_) => Err(SchemaError::InvalidType),
    }
}

/// A number read as an `i32`: an integer in range, else an error.
pub open spec fn int32(v: JsonValue) -> Result<i32, SchemaError> {
    match v {
        JsonValue::Number(JsonNumber::PosInt(u)) => if u <= i32::MAX {
            Ok(u as i32)
        } else {
            Err(SchemaError::InvalidValue)
        },
        JsonValue::Number(JsonNumber::NegInt(i)) => if i >= i32::MIN {
            Ok(i as i32)
        } else {
            Err(SchemaError::InvalidValue)
        },
        _ => Err(SchemaError::InvalidType),
    }
}

pub open spec fn required_int32(v: Option<JsonValue>) -> Result<i32, SchemaError> {
    match v {
        None => Err(SchemaError::MissingField),
        Some(x) => int32(x),
    }
}

pub open spec fn optional_int32(v: Option<JsonValue>) -> Result<Option<i32>, SchemaError> {
    match v {
        None => Ok(None),
        Some(JsonValue::Null) => Ok(None),
        Some(x) => match int32(x) {
            Ok(n) => Ok(Some(n)),
            Err(e) => Err(e),
        },
    }
}

pub fn read_required_string(v: Option<JsonValue>) -> (r: Result<String, SchemaError>)
    ensures
        r == required_string(v),
{
    match v {
        None => Err(SchemaError::MissingField),
        Some(JsonValue::Str(s)) => Ok(s),
        Some(_) => Err(SchemaError::InvalidType),
    }
}

pub fn read_optional_string(v: Option<JsonValue>) -> (r: Result<Option<String>, SchemaError>)
    ensures
        r == optional_string(v),
{
    match v {
        None => Ok(None),
        Some(JsonValue::Null) => Ok(None),
        Some(JsonValue::Str(s)) => Ok(Some(s)),
        Some(_) => Err(SchemaError::InvalidType),
    }
}

pub fn read_optional_bool(v: Option<JsonValue>) -> (r: Result<Option<bool>, SchemaError>)
    ensures
        r == optional_bool(v),
{
    match v {
        None => Ok(None),
        Some(JsonValue::Null) => Ok(None),
        Some(JsonValue::Bool(b)) => Ok(Some(b)),
        Some(_) => Err(SchemaError::InvalidType),
    }
}

pub fn read_int32(v: JsonValue) -> (r: Result<i32, SchemaError>)
    ensures
        r == int32(v),
{
    match v {
        JsonValue::Number(JsonNumber::PosInt(u)) => if u <= i32::MAX as u64 {
            Ok(u as i32)
        } else {
            Err(SchemaError::InvalidValue)
        },
        JsonValue::Number(JsonNumber::NegInt(i)) => if i >= i32::MIN as i64 {
            Ok(i as i32)
        } else {
            Err(SchemaError::InvalidValue)
        },
        _ => Err(SchemaError::InvalidType),
    }
}

pub fn read_required_int32(v: Option<JsonValue>) -> (r: Result<i32, SchemaError>)
    ensures
        r == required_int32(v),
{
    match v {
        None => Err(SchemaError::MissingField),
        Some(x) => read_int32(x),
    }
}

pub fn read_optional_int32(v: Option<JsonValue>) -> (r: Result<Option<i32>, SchemaError>)
    ensures
        r == optional_int32(v),
{
    match v {
        None => Ok(None),
        Some(JsonValue::Null) => Ok(None),
        Some(x) => match read_int32(x) {
            Ok(n) => Ok(Some(n)),
            Err(e) => Err(e),
        },
    }
}

} // verus!
