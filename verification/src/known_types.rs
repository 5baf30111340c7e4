//! The fixed table of well-known Rust type names and their TypeScript
//! counterparts.

use vstd::prelude::*;
use crate::text::str_eq;

verus! {

/// Names of the string-like built-in types.
pub open spec fn is_string_name(name: Seq<char>) -> bool {
    name == "String"@ || name == "str"@ || name == "char"@
}

/// Names of the signed integer types.
pub open spec fn is_signed_integer_name(name: Seq<char>) -> bool {
    name == "i8"@ || name == "i16"@ || name == "i32"@ || name == "i64"@ || name == "i128"@
        || name == "isize"@
}

/// Names of the unsigned integer types.
pub open spec fn is_unsigned_integer_name(name: Seq<char>) -> bool {
    name == "u8"@ || name == "u16"@ || name == "u32"@ || name == "u64"@ || name == "u128"@
        || name == "usize"@
}

/// Names of the floating-point types.
pub open spec fn is_float_name(name: Seq<char>) -> bool {
    name == "f32"@ || name == "f64"@
}

/// The name of the boolean type.
pub open spec fn is_bool_name(name: Seq<char>) -> bool {
    name == "bool"@
}

/// Names of the built-in types.
pub open spec fn is_primitive_name(name: Seq<char>) -> bool {
    is_string_name(name) || is_signed_integer_name(name) || is_unsigned_integer_name(name)
        || is_float_name(name) || is_bool_name(name)
}

/// Names of well-known library types that serialize to strings: dates and
/// times, identifiers, decimals, paths, network addresses and URLs.
pub open spec fn is_external_string_name(name: Seq<char>) -> bool {
    name == "DateTime"@ || name == "NaiveDateTime"@ || name == "NaiveDate"@ || name == "NaiveTime"@
        || name == "OffsetDateTime"@ || name == "PrimitiveDateTime"@ || name == "Date"@ || name
        == "Time"@ || name == "Uuid"@ || name == "Decimal"@ || name == "BigDecimal"@ || name
        == "PathBuf"@ || name == "Path"@ || name == "IpAddr"@ || name == "Ipv4Addr"@ || name
        == "Ipv6Addr"@ || name == "Url"@
}

/// Names of well-known library types that serialize to numbers.
pub open spec fn is_external_number_name(name: Seq<char>) -> bool {
    name == "Duration"@
}

/// The name of the type that stands for any JSON value.
pub open spec fn is_json_value_name(name: Seq<char>) -> bool {
    name == "Value"@
}

/// The name of the byte-buffer type.
pub open spec fn is_bytes_name(name: Seq<char>) -> bool {
    name == "Bytes"@
}

/// The TypeScript type of a well-known name, or `None` for any other name.
pub open spec fn typescript_primitive(name: Seq<char>) -> Option<Seq<char>> {
    if is_string_name(name) {
        Some("string"@)
    } else if is_signed_integer_name(name) || is_unsigned_integer_name(name) || is_float_name(name) {
        Some("number"@)
    } else if is_bool_name(name) {
        Some("boolean"@)
    } else if is_external_string_name(name) {
        Some("string"@)
    } else if is_external_number_name(name) {
        Some("number"@)
    } else if is_json_value_name(name) {
        Some("unknown"@)
    } else if is_bytes_name(name) {
        Some("number[]"@)
    } else {
        None
    }
}

fn is_string_type(name: &str) -> (r: bool)
    ensures
        r == is_string_name(name@),
{
    str_eq(name, "String") || str_eq(name, "str") || str_eq(name, "char")
}

fn is_signed_integer_type(name: &str) -> (r: bool)
    ensures
        r == is_signed_integer_name(name@),
{
    str_eq(name, "i8") || str_eq(name, "i16") || str_eq(name, "i32") || str_eq(name, "i64")
        || str_eq(name, "i128") || str_eq(name, "isize")
}

fn is_unsigned_integer_type(name: &str) -> (r: bool)
    ensures
        r == is_unsigned_integer_name(name@),
{
    str_eq(name, "u8") || str_eq(name, "u16") || str_eq(name, "u32") || str_eq(name, "u64")
        || str_eq(name, "u128") || str_eq(name, "usize")
}

fn is_float_type(name: &str) -> (r: bool)
    ensures
        r == is_float_name(name@),
{
    str_eq(name, "f32") || str_eq(name, "f64")
}

/// Whether the name is one of the built-in types.
pub fn is_primitive_type(name: &str) -> (r: bool)
    ensures
        r == is_primitive_name(name@),
{
    is_string_type(name) || is_signed_integer_type(name) || is_unsigned_integer_type(name)
        || is_float_type(name) || str_eq(name, "bool")
}

/// Whether the name is a well-known library type that serializes to a string.
pub fn is_external_string_type(name: &str) -> (r: bool)
    ensures
        r == is_external_string_name(name@),
{
    str_eq(name, "DateTime") || str_eq(name, "NaiveDateTime") || str_eq(name, "NaiveDate")
        || str_eq(name, "NaiveTime") || str_eq(name, "OffsetDateTime") || str_eq(
        name,
        "PrimitiveDateTime",
    ) || str_eq(name, "Date") || str_eq(name, "Time") || str_eq(name, "Uuid") || str_eq(
        name,
        "Decimal",
    ) || str_eq(name, "BigDecimal") || str_eq(name, "PathBuf") || str_eq(name, "Path") || str_eq(
        name,
        "IpAddr",
    ) || str_eq(name, "Ipv4Addr") || str_eq(name, "Ipv6Addr") || str_eq(name, "Url")
}

/// Whether the name is a well-known library type that serializes to a number.
pub fn is_external_number_type(name: &str) -> (r: bool)
    ensures
        r == is_external_number_name(name@),
{
    str_eq(name, "Duration")
}

/// The TypeScript type for a well-known Rust type name.
pub fn primitive_to_typescript(name: &str) -> (r: Option<&'static str>)
    ensures
        match r {
            Some(ts) => typescript_primitive(name@) == Some(ts@),
            None => typescript_primitive(name@) is None,
        },
{
    if is_string_type(name) {
        Some("string")
    } else if is_signed_integer_type(name) || is_unsigned_integer_type(name) || is_float_type(name) {
        Some("number")
    } else if str_eq(name, "bool") {
        Some("boolean")
    } else if is_external_string_type(name) {
        Some("string")
    } else if is_external_number_type(name) {
        Some("number")
    } else if str_eq(name, "Value") {
        Some("unknown")
    } else if str_eq(name, "Bytes") {
        Some("number[]")
    } else {
        None
    }
}

} // verus!
