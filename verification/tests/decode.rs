use msgpack_rpc::{Float, Integer, Request, RequestDecodeError, Value};

fn unsigned(n: u64) -> Value {
    Value::Integer(Integer::U64(n))
}

fn signed(n: i64) -> Value {
    Value::Integer(Integer::I64(n))
}

fn string(s: &str) -> Value {
    Value::String(s.to_string())
}

fn request(tag: Value, msgid: Value, method: Value, params: Value) -> Value {
    Value::Array(vec![tag, msgid, method, params])
}

#[test]
fn valid_request_decodes() {
    let message = request(
        unsigned(0),
        unsigned(42),
        string("foo"),
        Value::Array(vec![unsigned(1), unsigned(2), unsigned(3)]),
    );
    let decoded = Request::decode(message).unwrap();
    assert_eq!(decoded.msgid(), Integer::U64(42));
    assert_eq!(decoded.method(), "foo");
    assert_eq!(decoded.params(), &vec![unsigned(1), unsigned(2), unsigned(3)]);
}

#[test]
fn decoded_request_comes_apart_into_its_fields() {
    let message = request(signed(0), signed(-3), string("sum"), Value::Array(vec![signed(-1)]));
    let (msgid, method, params) = Request::decode(message).unwrap().into_parts();
    assert_eq!(msgid, Integer::I64(-3));
    assert_eq!(method, "sum".to_string());
    assert_eq!(params, vec![signed(-1)]);
}

#[test]
fn signed_and_unsigned_zero_tag_decode_alike() {
    let with_unsigned = Request::decode(request(
        unsigned(0),
        unsigned(1),
        string("m"),
        Value::Array(vec![]),
    ));
    let with_signed = Request::decode(request(
        signed(0),
        unsigned(1),
        string("m"),
        Value::Array(vec![]),
    ));
    assert!(with_unsigned.is_ok());
    assert_eq!(with_unsigned, with_signed);
    let decoded = with_signed.unwrap();
    assert_eq!(decoded.msgid(), Integer::U64(1));
    assert_eq!(decoded.method(), "m");
    assert!(decoded.params().is_empty());
}

#[test]
fn wrong_tag_is_invalid_message_type() {
    let decoded = Request::decode(request(
        unsigned(2),
        unsigned(1),
        string("m"),
        Value::Array(vec![]),
    ));
    assert_eq!(decoded, Err(RequestDecodeError::InvalidMessageType));
}

#[test]
fn response_tag_is_invalid_message_type() {
    let decoded = Request::decode(request(
        unsigned(1),
        unsigned(1),
        string("m"),
        Value::Array(vec![]),
    ));
    assert_eq!(decoded, Err(RequestDecodeError::InvalidMessageType));
}

#[test]
fn negative_tag_is_invalid_message_type() {
    let decoded = Request::decode(request(
        signed(-1),
        unsigned(1),
        string("m"),
        Value::Array(vec![]),
    ));
    assert_eq!(decoded, Err(RequestDecodeError::InvalidMessageType));
}

#[test]
fn largest_unsigned_tag_is_invalid_message_type() {
    let decoded = Request::decode(request(
        unsigned(u64::MAX),
        unsigned(1),
        string("m"),
        Value::Array(vec![]),
    ));
    assert_eq!(decoded, Err(RequestDecodeError::InvalidMessageType));
}

#[test]
fn msgid_of_the_wrong_type_is_a_type_mismatch() {
    let decoded = Request::decode(request(
        unsigned(0),
        string("not-an-int"),
        string("m"),
        Value::Array(vec![]),
    ));
    assert_eq!(decoded, Err(RequestDecodeError::TypeMismatch));
}

#[test]
fn tag_of_the_wrong_type_is_a_type_mismatch() {
    let decoded = Request::decode(request(
        string("0"),
        unsigned(1),
        string("m"),
        Value::Array(vec![]),
    ));
    assert_eq!(decoded, Err(RequestDecodeError::TypeMismatch));
}

#[test]
fn method_of_the_wrong_type_is_a_type_mismatch() {
    let decoded = Request::decode(request(
        unsigned(0),
        unsigned(1),
        Value::Binary(vec![0x6d]),
        Value::Array(vec![]),
    ));
    assert_eq!(decoded, Err(RequestDecodeError::TypeMismatch));
}

#[test]
fn params_of_the_wrong_type_are_a_type_mismatch() {
    let decoded = Request::decode(request(unsigned(0), unsigned(1), string("m"), Value::Nil));
    assert_eq!(decoded, Err(RequestDecodeError::TypeMismatch));
    let decoded = Request::decode(request(
        unsigned(0),
        unsigned(1),
        string("m"),
        Value::Mapping(vec![]),
    ));
    assert_eq!(decoded, Err(RequestDecodeError::TypeMismatch));
}

#[test]
fn wrong_type_comes_before_wrong_tag() {
    let decoded = Request::decode(request(
        unsigned(2),
        string("not-an-int"),
        string("m"),
        Value::Array(vec![]),
    ));
    assert_eq!(decoded, Err(RequestDecodeError::TypeMismatch));
}

#[test]
fn three_elements_are_an_invalid_length() {
    let message = Value::Array(vec![unsigned(0), unsigned(1), string("m")]);
    assert_eq!(Request::decode(message), Err(RequestDecodeError::InvalidLength));
}

#[test]
fn five_elements_are_an_invalid_length() {
    let message = Value::Array(vec![
        unsigned(0),
        unsigned(1),
        string("m"),
        Value::Array(vec![]),
        unsigned(99),
    ]);
    assert_eq!(Request::decode(message), Err(RequestDecodeError::InvalidLength));
}

#[test]
fn empty_array_is_an_invalid_length() {
    assert_eq!(Request::decode(Value::Array(vec![])), Err(RequestDecodeError::InvalidLength));
}

#[test]
fn short_array_of_wrong_types_is_an_invalid_length() {
    let message = Value::Array(vec![string("zero"), Value::Nil]);
    assert_eq!(Request::decode(message), Err(RequestDecodeError::InvalidLength));
}

#[test]
fn long_array_of_wrong_types_is_an_invalid_length() {
    let message = Value::Array(vec![
        Value::Nil,
        Value::Nil,
        Value::Nil,
        Value::Nil,
        Value::Nil,
        Value::Nil,
    ]);
    assert_eq!(Request::decode(message), Err(RequestDecodeError::InvalidLength));
}

#[test]
fn not_an_array_is_a_type_mismatch() {
    assert_eq!(Request::decode(unsigned(5)), Err(RequestDecodeError::TypeMismatch));
}

#[test]
fn other_values_than_arrays_are_type_mismatches() {
    assert_eq!(Request::decode(Value::Nil), Err(RequestDecodeError::TypeMismatch));
    assert_eq!(Request::decode(Value::Boolean(true)), Err(RequestDecodeError::TypeMismatch));
    assert_eq!(Request::decode(string("request")), Err(RequestDecodeError::TypeMismatch));
    assert_eq!(
        Request::decode(Value::Float(Float::F64(0x3ff8_0000_0000_0000))),
        Err(RequestDecodeError::TypeMismatch)
    );
    assert_eq!(Request::decode(Value::Binary(vec![0, 1, 2, 3])), Err(RequestDecodeError::TypeMismatch));
    assert_eq!(Request::decode(Value::Ext(4, vec![0, 1, 2, 3])), Err(RequestDecodeError::TypeMismatch));
    assert_eq!(
        Request::decode(Value::Mapping(vec![(unsigned(0), unsigned(1))])),
        Err(RequestDecodeError::TypeMismatch)
    );
}

#[test]
fn msgid_keeps_its_encoding() {
    let decoded = Request::decode(request(
        unsigned(0),
        signed(5),
        string("m"),
        Value::Array(vec![]),
    ))
    .unwrap();
    assert_eq!(decoded.msgid(), Integer::I64(5));
    assert_ne!(decoded.msgid(), Integer::U64(5));
}

#[test]
fn params_pass_through_untouched() {
    let params = || {
        vec![
            Value::Nil,
            Value::Boolean(false),
            signed(i64::MIN),
            unsigned(u64::MAX),
            Value::Float(Float::F32(0x3fc0_0000)),
            Value::Float(Float::F64(0xfff8_0000_0000_0001)),
            string("text"),
            Value::Binary(vec![0xde, 0xad]),
            Value::Array(vec![Value::Array(vec![unsigned(0), unsigned(1), string("m"), Value::Array(vec![])])]),
            Value::Mapping(vec![(string("key"), Value::Nil), (string("key"), unsigned(2))]),
            Value::Ext(-1, vec![1, 2, 3, 4]),
        ]
    };
    let decoded = Request::decode(request(
        unsigned(0),
        unsigned(9),
        string("echo"),
        Value::Array(params()),
    ))
    .unwrap();
    assert_eq!(decoded.params(), &params());
}

#[test]
fn empty_method_name_is_a_method_name() {
    let decoded =
        Request::decode(request(unsigned(0), unsigned(0), string(""), Value::Array(vec![])))
            .unwrap();
    assert_eq!(decoded.method(), "");
    assert_eq!(decoded.msgid(), Integer::U64(0));
}
