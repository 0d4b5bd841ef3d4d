//! Conversion of a leaf's text into a typed value.
use vstd::prelude::*;
use crate::errors::{Fault, TraversalError};

verus! {

/// The failure of one of the outside parsers, carried until it is mapped.
#[verifier::external_type_specification]
#[verifier::external_body]
pub struct ExTraversingError(azure_core::TraversingError);

/// Whether `c` is an ASCII decimal digit.
pub open spec fn is_decimal_digit(c: char) -> bool {
    '0' <= c && c <= '9'
}

/// The value of a string of decimal digits, most significant first.
pub open spec fn decimal_value(d: Seq<char>) -> int
    decreases d.len(),
{
    if d.len() == 0 {
        0
    } else {
        decimal_value(d.drop_last()) * 10 + (d.last() as int - '0' as int)
    }
}

/// The `u64` that `s` writes: an optional `+`, then one or more decimal
/// digits whose value fits in 64 bits.
pub open spec fn u64_of_text(s: Seq<char>) -> Option<u64> {
    let d = if s.len() > 0 && s[0] == '+' {
        s.drop_first()
    } else {
        s
    };
    if d.len() > 0 && (forall|i: int| 0 <= i < d.len() ==> is_decimal_digit(#[trigger] d[i]))
        && decimal_value(d) <= u64::MAX {
        Some(decimal_value(d) as u64)
    } else {
        None
    }
}

/// The `bool` that `s` writes: exactly `true` or `false`.
pub open spec fn bool_of_text(s: Seq<char>) -> Option<bool> {
    if s == seq!['t', 'r', 'u', 'e'] {
        Some(true)
    } else if s == seq!['f', 'a', 'l', 's', 'e'] {
        Some(false)
    } else {
        None
    }
}

/// A type whose values can be read from the text of a leaf.
pub trait FromStringOptional: Sized + View {
    /// The value that the text `s` denotes, if it denotes one.
    spec fn from_text(s: Seq<char>) -> Option<Self::V>;

    /// Reads a value from `s`; fails exactly where `s` denotes none.
    fn from_str_optional(s: &str) -> (r: Result<Self, TraversalError>)
        ensures
            match r {
                Ok(v) => Self::from_text(s@) == Some(v@),
                Err(e) => Self::from_text(s@) is None && e@ == Fault::ConversionFailed(s@),
            },
    ;
}

/// Relies on azure_core's `FromStringOptional` for `u64`, which is
/// `str::parse::<u64>`: an optional `+` followed by decimal digits only, whose
/// value fits in a `u64`.
#[verifier::external_body]
fn parse_u64(s: &str) -> (r: Result<u64, azure_core::TraversingError>)
    ensures
        match r {
            Ok(v) => u64_of_text(s@) == Some(v),
            Err(_) => u64_of_text(s@) is None,
        },
{
    <u64 as azure_core::parsing::FromStringOptional<u64>>::from_str_optional(s)
}

/// Relies on azure_core's `FromStringOptional` for `bool`: `true` and `false`
/// are read, any other text is refused.
#[verifier::external_body]
fn parse_bool(s: &str) -> (r: Result<bool, azure_core::TraversingError>)
    ensures
        match r {
            Ok(v) => bool_of_text(s@) == Some(v),
            Err(_) => bool_of_text(s@) is None,
        },
{
    <bool as azure_core::parsing::FromStringOptional<bool>>::from_str_optional(s)
}

/// Relies on azure_core's `FromStringOptional` for `String`, which copies
/// the text and never fails.
#[verifier::external_body]
fn parse_string(s: &str) -> (r: Result<String, azure_core::TraversingError>)
    ensures
        match r {
            Ok(v) => v@ == s@,
            Err(_) => false,
        },
{
    <String as azure_core::parsing::FromStringOptional<String>>::from_str_optional(s)
}

impl FromStringOptional for u64 {
    open spec fn from_text(s: Seq<char>) -> Option<u64> {
        u64_of_text(s)
    }

    fn from_str_optional(s: &str) -> (r: Result<u64, TraversalError>) {
        match parse_u64(s) {
            Ok(v) => Ok(v),
            Err(_) => Err(TraversalError::ConversionFailed(s.to_owned())),
        }
    }
}

impl FromStringOptional for bool {
    open spec fn from_text(s: Seq<char>) -> Option<bool> {
        bool_of_text(s)
    }

    fn from_str_optional(s: &str) -> (r: Result<bool, TraversalError>) {
        match parse_bool(s) {
            Ok(v) => Ok(v),
            Err(_) => Err(TraversalError::ConversionFailed(s.to_owned())),
        }
    }
}

impl FromStringOptional for String {
    open spec fn from_text(s: Seq<char>) -> Option<Seq<char>> {
        Some(s)
    }

    fn from_str_optional(s: &str) -> (r: Result<String, TraversalError>) {
        match parse_string(s) {
            Ok(v) => Ok(v),
            Err(_) => Err(TraversalError::ConversionFailed(s.to_owned())),
        }
    }
}

} // verus!
