//! The value codec: converts protocol-native structured values to and from
//! the concrete typed values that handlers work with.
//!
//! Encoding is total; decoding fails exactly when the value's shape does not
//! match the requested type, and the round trip decodes an encoded value to
//! the value it started from.

use vstd::prelude::*;

use crate::value::ProtocolValue;
use crate::value::ValueModel;

verus! {

/// Error returned when a protocol value does not have the shape that the
/// requested type expects.
#[derive(Debug, PartialEq, Eq, Clone, Copy)]
pub struct TypeMismatch;

/// Model of encoding the void value.
pub open spec fn encoded_unit() -> ValueModel {
    ValueModel::Null
}

/// Model of decoding the void value: succeeds exactly on null.
pub open spec fn decoded_unit(m: ValueModel) -> Option<()> {
    if m is Null {
        Some(())
    } else {
        None
    }
}

/// Model of encoding a boolean.
pub open spec fn encoded_bool(b: bool) -> ValueModel {
    ValueModel::Bool(b)
}

/// Model of decoding a boolean: succeeds exactly on a boolean value.
pub open spec fn decoded_bool(m: ValueModel) -> Option<bool> {
    match m {
        ValueModel::Bool(b) => Some(b),
        _ => None,
    }
}

/// Model of encoding an integer.
pub open spec fn encoded_int(i: i64) -> ValueModel {
    ValueModel::Int(i)
}

/// Model of decoding an integer: succeeds exactly on an integer value.
pub open spec fn decoded_int(m: ValueModel) -> Option<i64> {
    match m {
        ValueModel::Int(i) => Some(i),
        _ => None,
    }
}

/// Model of encoding a string.
pub open spec fn encoded_text(s: Seq<char>) -> ValueModel {
    ValueModel::Text(s)
}

/// Model of decoding a string: succeeds exactly on a string value.
pub open spec fn decoded_text(m: ValueModel) -> Option<Seq<char>> {
    match m {
        ValueModel::Text(s) => Some(s),
        _ => None,
    }
}

/// Model of encoding a structured value as itself.
pub open spec fn encoded_value(m: ValueModel) -> ValueModel {
    m
}

/// Model of decoding a structured value: always succeeds with the value
/// itself.
pub open spec fn decoded_value(m: ValueModel) -> Option<ValueModel> {
    Some(m)
}

/// Encodes the void value.
pub fn encode_unit() -> (r: ProtocolValue)
    ensures
        r@ == encoded_unit(),
{
    ProtocolValue::Null
}

/// Decodes the void value; fails unless the value is null.
pub fn decode_unit(v: &ProtocolValue) -> (r: Result<(), TypeMismatch>)
    ensures
        match decoded_unit(v@) {
            Some(u) => r == Ok::<(), TypeMismatch>(u),
            None => r == Err::<(), TypeMismatch>(TypeMismatch),
        },
{
    match v {
        ProtocolValue::Null => Ok(()),
        _ => Err(TypeMismatch),
    }
}

/// Encodes a boolean.
pub fn encode_bool(b: bool) -> (r: ProtocolValue)
    ensures
        r@ == encoded_bool(b),
{
    ProtocolValue::Bool(b)
}

/// Decodes a boolean; fails unless the value is a boolean.
pub fn decode_bool(v: &ProtocolValue) -> (r: Result<bool, TypeMismatch>)
    ensures
        match decoded_bool(v@) {
            Some(b) => r == Ok::<bool, TypeMismatch>(b),
            None => r == Err::<bool, TypeMismatch>(TypeMismatch),
        },
{
    match v {
        ProtocolValue::Bool(b) => Ok(*b),
        _ => Err(TypeMismatch),
    }
}

/// Encodes an integer.
pub fn encode_int(i: i64) -> (r: ProtocolValue)
    ensures
        r@ == encoded_int(i),
{
    ProtocolValue::Int(i)
}

/// Decodes an integer; fails unless the value is an integer.
pub fn decode_int(v: &ProtocolValue) -> (r: Result<i64, TypeMismatch>)
    ensures
        match decoded_int(v@) {
            Some(i) => r == Ok::<i64, TypeMismatch>(i),
            None => r == Err::<i64, TypeMismatch>(TypeMismatch),
        },
{
    match v {
        ProtocolValue::Int(i) => Ok(*i),
        _ => Err(TypeMismatch),
    }
}

/// Encodes a string.
pub fn encode_text(s: String) -> (r: ProtocolValue)
    ensures
        r@ == encoded_text(s@),
{
    ProtocolValue::Text(s)
}

/// Decodes a string; fails unless the value is a string.
pub fn decode_text(v: &ProtocolValue) -> (r: Result<String, TypeMismatch>)
    ensures
        match decoded_text(v@) {
            Some(t) => r matches Ok(s) && s@ == t,
            None => r matches Err(e) && e == TypeMismatch,
        },
{
    match v {
        ProtocolValue::Text(s) => Ok(s.clone()),
        _ => Err(TypeMismatch),
    }
}

/// Encodes a structured value as itself.
pub fn encode_value(v: ProtocolValue) -> (r: ProtocolValue)
    ensures
        r@ == encoded_value(v@),
{
    v
}

/// Decodes a structured value; always succeeds with a copy of the value.
pub fn decode_value(v: &ProtocolValue) -> (r: Result<ProtocolValue, TypeMismatch>)
    ensures
        match decoded_value(v@) {
            Some(m) => r matches Ok(w) && w@ == m,
            None => r matches Err(e) && e == TypeMismatch,
        },
{
    Ok(v.clone())
}

/// Round trip: decoding an encoded void value gives the void value back.
pub proof fn lemma_round_trip_unit()
    ensures
        decoded_unit(encoded_unit()) == Some(()),
{
}

/// Round trip: decoding an encoded boolean gives the boolean back.
pub proof fn lemma_round_trip_bool(b: bool)
    ensures
        decoded_bool(encoded_bool(b)) == Some(b),
{
}

/// Round trip: decoding an encoded integer gives the integer back.
pub proof fn lemma_round_trip_int(i: i64)
    ensures
        decoded_int(encoded_int(i)) == Some(i),
{
}

/// Round trip: decoding an encoded string gives the string back.
pub proof fn lemma_round_trip_text(s: Seq<char>)
    ensures
        decoded_text(encoded_text(s)) == Some(s),
{
}

/// Round trip: decoding an encoded structured value gives the value back.
pub proof fn lemma_round_trip_value(m: ValueModel)
    ensures
        decoded_value(encoded_value(m)) == Some(m),
{
}

} // verus!
