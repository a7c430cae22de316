use amqp_json_values::ToAmqp;
use amqp_json_values::ToJson;
use amqp_json_values::errors::ToAmqpError;
use amqp_json_values::errors::ToJsonError;
use amqp_json_values::number::JsonNumber;
use amqp_json_values::values::AmqpValue;
use amqp_json_values::values::DecimalValue;
use amqp_json_values::values::JsonValue;

fn double_only(bits: u64) -> JsonNumber {
    JsonNumber { double: Some(bits), long: None, ulong: None }
}

fn convert_bool_to_json_value(val: bool) {
    assert_eq!(AmqpValue::Boolean(val).to_json_value(), Ok(JsonValue::Bool(val)));
}

fn convert_short_string_to_json_value(string: &str) {
    assert_eq!(
        AmqpValue::ShortString(string.to_string()).to_json_value(),
        Ok(JsonValue::String(string.to_string()))
    );
}

fn convert_long_string_to_json_value(string: &str) {
    assert_eq!(
        AmqpValue::LongString(string.to_string()).to_json_value(),
        Ok(JsonValue::String(string.to_string()))
    );
}

fn convert_float_to_json_value(num: f32) {
    let bits = (num as f64).to_bits();
    assert_eq!(
        AmqpValue::Float(bits).to_json_value(),
        Ok(JsonValue::Number(double_only(bits)))
    );
}

fn convert_double_to_json_value(num: f64) {
    let bits = num.to_bits();
    assert_eq!(
        AmqpValue::Double(bits).to_json_value(),
        Ok(JsonValue::Number(double_only(bits)))
    );
}

#[test]
fn bool_to_json_value() {
    for val in [true, false] {
        convert_bool_to_json_value(val);
    }
}

#[test]
fn short_string_to_json_value() {
    for val in ["a", "hello", "hello, world"] {
        convert_short_string_to_json_value(val);
    }
}

#[test]
fn long_string_to_json_value() {
    for val in ["a", "hello", "hello, world"] {
        convert_long_string_to_json_value(val);
    }
}

#[test]
fn float_to_json_value() {
    for val in [0f32, 0.1f32, 15f32, 145432f32] {
        convert_float_to_json_value(val);
    }
}

#[test]
fn double_to_json_value() {
    for val in [0f64, 0.1f64, 15f64, 145464f64] {
        convert_double_to_json_value(val);
    }
}

#[test]
fn empty_and_multibyte_strings_to_json_value() {
    for val in ["", "h\u{e9}llo w\u{f6}rld", "\u{1f600}\u{4e16}\u{754c}"] {
        convert_short_string_to_json_value(val);
        convert_long_string_to_json_value(val);
    }
}

#[test]
fn non_finite_float_fails() {
    for val in [f32::NAN, f32::INFINITY, f32::NEG_INFINITY] {
        let bits = (val as f64).to_bits();
        assert_eq!(
            AmqpValue::Float(bits).to_json_value(),
            Err(ToJsonError::InvalidFloat(bits))
        );
    }
}

#[test]
fn non_finite_double_fails() {
    for val in [f64::NAN, f64::INFINITY, f64::NEG_INFINITY] {
        let bits = val.to_bits();
        assert_eq!(
            AmqpValue::Double(bits).to_json_value(),
            Err(ToJsonError::InvalidDouble(bits))
        );
    }
}

#[test]
fn decimal_is_unimplemented() {
    for (scale, value) in [(0u8, 0u32), (2, 314), (255, u32::MAX)] {
        assert_eq!(
            AmqpValue::DecimalValue(DecimalValue { scale, value }).to_json_value(),
            Err(ToJsonError::Unimplemented)
        );
    }
}

#[test]
fn integers_to_json_value() {
    assert_eq!(
        AmqpValue::ShortShortInt(-3).to_json_value(),
        Ok(JsonValue::Number(JsonNumber {
            double: Some((-3f64).to_bits()),
            long: Some(-3),
            ulong: None,
        }))
    );
    assert_eq!(
        AmqpValue::ShortShortUInt(7).to_json_value(),
        Ok(JsonValue::Number(JsonNumber {
            double: Some(7f64.to_bits()),
            long: Some(7),
            ulong: Some(7),
        }))
    );
    assert_eq!(
        AmqpValue::ShortInt(-300).to_json_value(),
        Ok(JsonValue::Number(JsonNumber::from_i64(-300)))
    );
    assert_eq!(
        AmqpValue::ShortUInt(65535).to_json_value(),
        Ok(JsonValue::Number(JsonNumber::from_u64(65535)))
    );
    assert_eq!(
        AmqpValue::LongInt(-70000).to_json_value(),
        Ok(JsonValue::Number(JsonNumber::from_i64(-70000)))
    );
    assert_eq!(
        AmqpValue::LongUInt(4000000000).to_json_value(),
        Ok(JsonValue::Number(JsonNumber::from_u64(4000000000)))
    );
    assert_eq!(
        AmqpValue::LongLongInt(i64::MIN).to_json_value(),
        Ok(JsonValue::Number(JsonNumber::from_i64(i64::MIN)))
    );
}

#[test]
fn timestamp_to_json_value() {
    assert_eq!(
        AmqpValue::Timestamp(u64::MAX).to_json_value(),
        Ok(JsonValue::Number(JsonNumber {
            double: Some((u64::MAX as f64).to_bits()),
            long: None,
            ulong: Some(u64::MAX),
        }))
    );
}

#[test]
fn number_views_match_document_library() {
    // The model's integer-built numbers must answer the three queries
    // exactly as a serde_json number built from the same integer does.
    let n = JsonNumber::from_i64(5);
    let reference = serde_json::Number::from(5i64);
    assert_eq!(n.double, reference.as_f64().map(f64::to_bits));
    assert_eq!(n.long, reference.as_i64());
    assert_eq!(n.ulong, reference.as_u64());
    assert_eq!(n.double, Some(5f64.to_bits()));

    let m = JsonNumber::from_u64(u64::MAX);
    let reference = serde_json::Number::from(u64::MAX);
    assert_eq!(m.double, reference.as_f64().map(f64::to_bits));
    assert_eq!(m.long, reference.as_i64());
    assert_eq!(m.ulong, reference.as_u64());
}

#[test]
fn from_double_bits_rejects_non_finite() {
    assert_eq!(
        JsonNumber::from_double_bits(0.25f64.to_bits()),
        Some(JsonNumber { double: Some(0.25f64.to_bits()), long: None, ulong: None })
    );
    assert_eq!(JsonNumber::from_double_bits(f64::NAN.to_bits()), None);
    assert_eq!(JsonNumber::from_double_bits(f64::INFINITY.to_bits()), None);
    assert!(serde_json::Number::from_f64(f64::NAN).is_none());
}

#[test]
fn byte_array_to_json_value() {
    let result = AmqpValue::ByteArray(vec![0u8, 7, 255]).to_json_value();
    let expected = JsonValue::Array(vec![
        JsonValue::Number(JsonNumber::from_u64(0)),
        JsonValue::Number(JsonNumber::from_u64(7)),
        JsonValue::Number(JsonNumber::from_u64(255)),
    ]);
    assert_eq!(result, Ok(expected));
}

#[test]
fn bool_and_null_round_trip() {
    for val in [true, false] {
        assert_eq!(JsonValue::Bool(val).to_amqp_value(), Ok(AmqpValue::Boolean(val)));
        assert_eq!(AmqpValue::Boolean(val).to_json_value(), Ok(JsonValue::Bool(val)));
    }
    assert_eq!(JsonValue::Null.to_amqp_value(), Ok(AmqpValue::Void));
    assert_eq!(AmqpValue::Void.to_json_value(), Ok(JsonValue::Null));
}

#[test]
fn document_string_to_amqp_value() {
    assert_eq!(
        JsonValue::String("hello".to_string()).to_amqp_value(),
        Ok(AmqpValue::LongString("hello".to_string()))
    );
}

#[test]
fn number_with_float_view_becomes_double() {
    // The document number 5 has a float view as well as exact integer
    // views; the float view wins, so the protocol value is 5.0, not an
    // integer variant.
    let five = JsonNumber::from_i64(5);
    assert_eq!(five.long, Some(5));
    assert_eq!(
        JsonValue::Number(five).to_amqp_value(),
        Ok(AmqpValue::Double(5f64.to_bits()))
    );
}

#[test]
fn number_without_float_view_falls_back() {
    let long_only = JsonNumber { double: None, long: Some(-9), ulong: None };
    assert_eq!(
        JsonValue::Number(long_only).to_amqp_value(),
        Ok(AmqpValue::LongLongInt(-9))
    );
    let ulong_only = JsonNumber { double: None, long: None, ulong: Some(u64::MAX) };
    assert_eq!(
        JsonValue::Number(ulong_only).to_amqp_value(),
        Ok(AmqpValue::Timestamp(u64::MAX))
    );
    let no_view = JsonNumber { double: None, long: None, ulong: None };
    assert_eq!(
        JsonValue::Number(no_view).to_amqp_value(),
        Err(ToAmqpError::NumberError)
    );
}

#[test]
fn nested_array_round_trip() {
    let doc = JsonValue::Array(vec![
        JsonValue::Number(JsonNumber::from_i64(1)),
        JsonValue::String("a".to_string()),
        JsonValue::Array(vec![JsonValue::Bool(true), JsonValue::Null]),
    ]);
    let proto = doc.to_amqp_value().unwrap();
    assert_eq!(
        proto,
        AmqpValue::FieldArray(vec![
            AmqpValue::Double(1f64.to_bits()),
            AmqpValue::LongString("a".to_string()),
            AmqpValue::FieldArray(vec![AmqpValue::Boolean(true), AmqpValue::Void]),
        ])
    );
    // Back to document form: the same values, with the number reduced
    // to its float view.
    let back = proto.to_json_value().unwrap();
    assert_eq!(
        back,
        JsonValue::Array(vec![
            JsonValue::Number(double_only(1f64.to_bits())),
            JsonValue::String("a".to_string()),
            JsonValue::Array(vec![JsonValue::Bool(true), JsonValue::Null]),
        ])
    );
}

#[test]
fn nested_array_fails_as_a_whole() {
    let bad = JsonNumber { double: None, long: None, ulong: None };
    let doc = JsonValue::Array(vec![
        JsonValue::Bool(true),
        JsonValue::Array(vec![JsonValue::Number(bad)]),
        JsonValue::Null,
    ]);
    assert_eq!(doc.to_amqp_value(), Err(ToAmqpError::NumberError));
}

#[test]
fn field_array_fails_with_first_error() {
    let nan32 = (f32::NAN as f64).to_bits();
    let nan64 = f64::NAN.to_bits();
    let proto = AmqpValue::FieldArray(vec![
        AmqpValue::Boolean(true),
        AmqpValue::Double(nan64),
        AmqpValue::Float(nan32),
    ]);
    assert_eq!(proto.to_json_value(), Err(ToJsonError::InvalidDouble(nan64)));
}

#[test]
fn object_preserves_keys_and_order() {
    let doc = JsonValue::Object(vec![
        ("x".to_string(), JsonValue::Number(JsonNumber::from_i64(1))),
        ("y".to_string(), JsonValue::String("z".to_string())),
    ]);
    let proto = doc.to_amqp_value().unwrap();
    assert_eq!(
        proto,
        AmqpValue::FieldTable(vec![
            ("x".to_string(), AmqpValue::Double(1f64.to_bits())),
            ("y".to_string(), AmqpValue::LongString("z".to_string())),
        ])
    );
    let back = proto.to_json_value().unwrap();
    assert_eq!(
        back,
        JsonValue::Object(vec![
            ("x".to_string(), JsonValue::Number(double_only(1f64.to_bits()))),
            ("y".to_string(), JsonValue::String("z".to_string())),
        ])
    );
}

#[test]
fn table_to_json_value_preserves_keys_and_order() {
    let proto = AmqpValue::FieldTable(vec![
        ("x".to_string(), AmqpValue::ShortShortInt(1)),
        ("y".to_string(), AmqpValue::ShortString("z".to_string())),
    ]);
    assert_eq!(
        proto.to_json_value(),
        Ok(JsonValue::Object(vec![
            ("x".to_string(), JsonValue::Number(JsonNumber::from_i64(1))),
            ("y".to_string(), JsonValue::String("z".to_string())),
        ]))
    );
}

#[test]
fn table_fails_on_first_bad_entry() {
    let proto = AmqpValue::FieldTable(vec![
        ("ok".to_string(), AmqpValue::Boolean(false)),
        (
            "bad".to_string(),
            AmqpValue::DecimalValue(DecimalValue { scale: 1, value: 10 }),
        ),
        ("after".to_string(), AmqpValue::Double(f64::NAN.to_bits())),
    ]);
    assert_eq!(proto.to_json_value(), Err(ToJsonError::Unimplemented));
}

#[test]
fn errors_are_comparable_clonable_and_described() {
    let e = ToJsonError::InvalidFloat(f64::INFINITY.to_bits());
    assert_eq!(e.clone(), e);
    assert_eq!(e.message(), "Invalid float".to_string());
    assert_eq!(
        ToJsonError::Unimplemented.message(),
        "Conversion not implemented".to_string()
    );
    let n = ToAmqpError::NumberError;
    assert_eq!(n.clone(), n);
    assert_eq!(n.message(), "Error converting number to an AMQPValue".to_string());
}
