//! Round trips and shape failures of the value codec.

use modcore::codec::decode_bool;
use modcore::codec::decode_int;
use modcore::codec::decode_text;
use modcore::codec::decode_unit;
use modcore::codec::decode_value;
use modcore::codec::encode_bool;
use modcore::codec::encode_int;
use modcore::codec::encode_text;
use modcore::codec::encode_unit;
use modcore::codec::encode_value;
use modcore::codec::TypeMismatch;
use modcore::value::ProtocolValue;

fn sample_tree() -> ProtocolValue {
    ProtocolValue::Record(vec![
        ("flag".to_string(), ProtocolValue::Bool(true)),
        ("count".to_string(), ProtocolValue::Int(-7)),
        (
            "items".to_string(),
            ProtocolValue::List(vec![
                ProtocolValue::Null,
                ProtocolValue::Text("abc".to_string()),
                ProtocolValue::List(vec![ProtocolValue::Int(0)]),
            ]),
        ),
    ])
}

#[test]
fn round_trip_unit() {
    assert_eq!(decode_unit(&encode_unit()), Ok(()));
}

#[test]
fn round_trip_bool() {
    assert_eq!(decode_bool(&encode_bool(true)), Ok(true));
    assert_eq!(decode_bool(&encode_bool(false)), Ok(false));
}

#[test]
fn round_trip_int() {
    assert_eq!(decode_int(&encode_int(0)), Ok(0));
    assert_eq!(decode_int(&encode_int(i64::MAX)), Ok(i64::MAX));
    assert_eq!(decode_int(&encode_int(i64::MIN)), Ok(i64::MIN));
}

#[test]
fn round_trip_text() {
    let v = encode_text("hello world".to_string());
    assert_eq!(decode_text(&v), Ok("hello world".to_string()));
    let empty = encode_text(String::new());
    assert_eq!(decode_text(&empty), Ok(String::new()));
}

#[test]
fn round_trip_structured_value() {
    let v = encode_value(sample_tree());
    assert_eq!(decode_value(&v), Ok(sample_tree()));
}

#[test]
fn decode_rejects_wrong_shapes() {
    assert_eq!(decode_unit(&ProtocolValue::Bool(true)), Err(TypeMismatch));
    assert_eq!(decode_bool(&ProtocolValue::Null), Err(TypeMismatch));
    assert_eq!(decode_bool(&ProtocolValue::Int(1)), Err(TypeMismatch));
    assert_eq!(decode_int(&ProtocolValue::Text("5".to_string())), Err(TypeMismatch));
    assert_eq!(decode_text(&ProtocolValue::Int(5)), Err(TypeMismatch));
}

#[test]
fn decode_value_accepts_everything() {
    assert_eq!(decode_value(&ProtocolValue::Null), Ok(ProtocolValue::Null));
    assert_eq!(decode_value(&ProtocolValue::Int(9)), Ok(ProtocolValue::Int(9)));
}

#[test]
fn clone_is_deep() {
    let v = sample_tree();
    let w = v.clone();
    assert_eq!(v, w);
}
