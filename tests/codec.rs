use ciborium::Value;
use rotors::codec::{CborFault, CodecError};
use rotors::status::Code;
use rotors::{CborCodec, CborDecoder, CborEncoder};

fn round_trip(v: &Value) -> Value {
    let mut codec: CborCodec<Value, Value> = CborCodec::default();
    let mut enc: CborEncoder<Value> = codec.encoder();
    let mut dec: CborDecoder<Value> = codec.decoder();
    let mut bytes = Vec::new();
    enc.encode(v, &mut bytes).unwrap();
    dec.decode(&bytes).unwrap()
}

#[test]
fn values_survive_a_round_trip() {
    let values = vec![
        Value::Integer(0.into()),
        Value::Integer((-1234567).into()),
        Value::Text("hello".to_string()),
        Value::Bytes(vec![0, 1, 2, 255]),
        Value::Bool(true),
        Value::Null,
        Value::Array(vec![Value::Integer(1.into()), Value::Text(String::new())]),
        Value::Map(vec![(Value::Text("message".to_string()), Value::Text("hi".to_string()))]),
    ];
    for v in &values {
        assert_eq!(&round_trip(v), v);
    }
}

#[test]
fn serde_message_survives_a_round_trip() {
    let msg: (String, u32, Vec<bool>) = ("echo".to_string(), 7, vec![true, false]);
    let value = Value::serialized(&msg).unwrap();
    let back: (String, u32, Vec<bool>) = round_trip(&value).deserialized().unwrap();
    assert_eq!(back, msg);
}

#[test]
fn encoding_appends_to_existing_bytes() {
    let mut enc: CborEncoder<Value> = CborEncoder { marker: std::marker::PhantomData };
    let mut bytes = vec![9, 9];
    enc.encode(&Value::Integer(1.into()), &mut bytes).unwrap();
    assert_eq!(bytes, vec![9, 9, 0x01]);
    enc.encode(&Value::Text("a".to_string()), &mut bytes).unwrap();
    assert_eq!(bytes, vec![9, 9, 0x01, 0x61, b'a']);
}

#[test]
fn truncated_bytes_are_a_format_error() {
    let mut dec: CborDecoder<Value> = CborDecoder { marker: std::marker::PhantomData };
    let mut bytes = Vec::new();
    CborEncoder::<Value> { marker: std::marker::PhantomData }
        .encode(&Value::Text("a longer message".to_string()), &mut bytes)
        .unwrap();
    bytes.truncate(5);
    match dec.decode(&bytes) {
        Err(e @ CodecError::Format(_)) => assert_eq!(e.code(), Code::Internal),
        other => panic!("expected a format error, got {:?}", other),
    }
}

#[test]
fn empty_input_is_a_format_error() {
    let mut dec: CborDecoder<Value> = CborDecoder { marker: std::marker::PhantomData };
    assert!(matches!(dec.decode(&[]), Err(CodecError::Format(_))));
}

#[test]
fn corrupt_bytes_are_a_format_error() {
    let mut dec: CborDecoder<Value> = CborDecoder { marker: std::marker::PhantomData };
    // a break code with nothing to break out of
    assert!(matches!(dec.decode(&[0xff]), Err(CodecError::Format(_))));
    // a reserved additional-information value
    assert!(matches!(dec.decode(&[0x1c]), Err(CodecError::Format(_))));
}

#[test]
fn io_failures_report_unknown() {
    assert_eq!(CodecError::Io("closed".to_string()).code(), Code::Unknown);
}

#[test]
fn write_faults_are_classified() {
    assert!(matches!(
        CodecError::of_write_fault(CborFault::Io("closed".to_string())),
        CodecError::Io(m) if m == "closed"
    ));
    assert!(matches!(
        CodecError::of_write_fault(CborFault::Value("expected tag".to_string())),
        CodecError::Format(CborFault::Value(m)) if m == "expected tag"
    ));
}

#[test]
fn read_faults_are_format_errors() {
    assert!(matches!(
        CodecError::of_read_fault(CborFault::Io("eof".to_string())),
        CodecError::Format(CborFault::Io(_))
    ));
    assert!(matches!(
        CodecError::of_read_fault(CborFault::RecursionLimitExceeded),
        CodecError::Format(CborFault::RecursionLimitExceeded)
    ));
}

#[test]
fn encoding_always_writes_something() {
    let mut enc: CborEncoder<Value> = CborEncoder { marker: std::marker::PhantomData };
    for v in [Value::Null, Value::Array(vec![]), Value::Tag(7, Box::new(Value::Bool(false)))] {
        let mut bytes = Vec::new();
        assert!(enc.encode(&v, &mut bytes).is_ok());
        assert!(!bytes.is_empty());
    }
}
