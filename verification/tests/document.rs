use jsonb_envelope::capability::{JsonDecodable, JsonEncodable};
use jsonb_envelope::codec::{decode, encode, IsNull};
use jsonb_envelope::envelope::DecodeError;
use serde_json::{Number, Value};

fn bar(x: i64) -> Value {
    let mut object = serde_json::Map::new();
    object.insert(String::from("x"), Value::Number(Number::from(x)));
    Value::Object(object)
}

#[test]
fn document_to_json_is_compact_text() {
    assert_eq!(bar(5).to_json().unwrap(), b"{\"x\":5}".to_vec());
    assert_eq!(Value::Null.to_json().unwrap(), b"null".to_vec());
    assert_eq!(Value::Bool(true).to_json().unwrap(), b"true".to_vec());
    assert_eq!(Value::String(String::from("a b")).to_json().unwrap(), b"\"a b\"".to_vec());
    let list = Value::Array(vec![Value::from(1), Value::from("two"), Value::Null]);
    assert_eq!(list.to_json().unwrap(), b"[1,\"two\",null]".to_vec());
}

#[test]
fn document_from_json_reads_one_whole_document() {
    assert_eq!(Value::from_json(b"{\"x\":5}").unwrap(), bar(5));
    assert_eq!(Value::from_json(b" { \"x\" : 5 } ").unwrap(), bar(5));
    assert_eq!(Value::from_json(b"null").unwrap(), Value::Null);
    assert!(Value::from_json(b"").is_err());
    assert!(Value::from_json(b"not valid json").is_err());
    assert!(Value::from_json(b"{\"x\":5").is_err());
    assert!(Value::from_json(b"{\"x\":5} 6").is_err());
    assert!(Value::from_json(&[0xff]).is_err());
}

#[test]
fn encode_document_writes_tag_then_json() {
    let mut sink = Vec::new();
    assert_eq!(encode(&bar(5), &mut sink).unwrap(), IsNull::No);
    assert_eq!(sink, vec![1, 123, 34, 120, 34, 58, 53, 125]);
}

#[test]
fn encode_null_document_is_present_all_the_same() {
    let mut sink = Vec::new();
    assert_eq!(encode(&Value::Null, &mut sink).unwrap(), IsNull::No);
    assert_eq!(sink, b"\x01null".to_vec());
}

#[test]
fn decode_document_from_its_envelope() {
    let document: Result<Value, DecodeError> = decode(&[1, 123, 34, 120, 34, 58, 53, 125]);
    assert_eq!(document, Ok(bar(5)));
    let empty_object: Result<Value, DecodeError> = decode(&[1, 123, 125]);
    assert_eq!(empty_object, Ok(Value::Object(serde_json::Map::new())));
}

#[test]
fn decode_document_rejects_what_is_no_envelope() {
    let empty: Result<Value, DecodeError> = decode(&[]);
    assert_eq!(empty, Err(DecodeError::MalformedEnvelope));
    let version: Result<Value, DecodeError> = decode(b"\x02{\"x\":5}");
    assert_eq!(version, Err(DecodeError::UnsupportedVersion(2)));
    let untagged: Result<Value, DecodeError> = decode(b"{\"x\":5}");
    assert_eq!(untagged, Err(DecodeError::UnsupportedVersion(123)));
    let text: Result<Value, DecodeError> = decode(b"\x01not valid json");
    assert_eq!(text, Err(DecodeError::InvalidPayload));
    let tag_alone: Result<Value, DecodeError> = decode(&[1]);
    assert_eq!(tag_alone, Err(DecodeError::InvalidPayload));
}

#[test]
fn decode_document_undoes_encode() {
    let mut nested = serde_json::Map::new();
    nested.insert(String::from("b"), Value::Array(vec![bar(-1), Value::Bool(false)]));
    nested.insert(String::from("a"), Value::String(String::from("quote \" and \\ and \u{e9}")));
    nested.insert(String::from("n"), Value::Number(Number::from(u64::MAX)));
    let documents = [
        Value::Null,
        Value::Bool(true),
        Value::from(0),
        Value::from(-12),
        Value::String(String::new()),
        Value::Array(Vec::new()),
        bar(5),
        Value::Object(nested),
    ];
    for document in documents {
        let mut sink = Vec::new();
        encode(&document, &mut sink).unwrap();
        assert_eq!(sink[0], 1);
        let back: Result<Value, DecodeError> = decode(&sink);
        assert_eq!(back, Ok(document));
    }
}

#[test]
fn encode_document_twice_gives_the_same_bytes() {
    let mut first = Vec::new();
    let mut second = Vec::new();
    encode(&bar(77), &mut first).unwrap();
    encode(&bar(77), &mut second).unwrap();
    assert_eq!(first, second);
    assert_eq!(first, b"\x01{\"x\":77}".to_vec());
}
