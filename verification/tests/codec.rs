use greetings::{A, B, C, D, DecodeError, Greeting, Value};

#[test]
fn round_trip_c() {
    let c = C::new("alpha".to_string());
    let v = c.to_value();
    let back = C::from_value(&v).unwrap();
    assert_eq!(back.name, c.name);
}

#[test]
fn round_trip_d() {
    let d = D::new("beta".to_string());
    let v = d.to_value();
    let back = D::from_value(&v).unwrap();
    assert_eq!(back.name, d.name);
}

#[test]
fn round_trip_b() {
    let b = B::new("gamma".to_string());
    let v = b.to_value();
    let back = B::from_value(&v).unwrap();
    assert_eq!(back.name, b.name);
    assert_eq!(back.c.name, b.c.name);
}

#[test]
fn round_trip_a() {
    let a = A::new("delta".to_string());
    let v = a.to_value();
    let back = A::from_value(&v).unwrap();
    assert_eq!(back.name, a.name);
    assert_eq!(back.b.name, a.b.name);
    assert_eq!(back.b.c.name, a.b.c.name);
}

#[test]
fn round_trip_greeting() {
    let g = Greeting {
        message: "Hello, World!".to_string(),
    };
    let v = g.to_value();
    let back = Greeting::from_value(&v).unwrap();
    assert_eq!(back.message, g.message);
}

#[test]
fn decode_text_is_not_a_record() {
    let v = Value::Text("x".to_string());
    assert_eq!(C::from_value(&v).unwrap_err(), DecodeError::NotARecord);
    assert_eq!(A::from_value(&v).unwrap_err(), DecodeError::NotARecord);
}

#[test]
fn decode_empty_record_has_bad_fields() {
    let v = Value::Record(vec![]);
    assert_eq!(D::from_value(&v).unwrap_err(), DecodeError::BadFields);
}

#[test]
fn decode_misnamed_field_has_bad_fields() {
    let v = Value::Record(vec![("label".to_string(), Value::Text("x".to_string()))]);
    assert_eq!(C::from_value(&v).unwrap_err(), DecodeError::BadFields);
    assert_eq!(
        Greeting::from_value(&v).unwrap_err(),
        DecodeError::BadFields
    );
}

#[test]
fn decode_wrong_field_type() {
    let v = Value::Record(vec![("name".to_string(), Value::Record(vec![]))]);
    assert_eq!(C::from_value(&v).unwrap_err(), DecodeError::WrongFieldType);
}

#[test]
fn decode_nested_error_propagates() {
    let v = Value::Record(vec![
        ("name".to_string(), Value::Text("n".to_string())),
        ("c".to_string(), Value::Text("not a record".to_string())),
    ]);
    assert_eq!(B::from_value(&v).unwrap_err(), DecodeError::NotARecord);
}

#[test]
fn decode_composite_missing_child_field() {
    let v = Value::Record(vec![("name".to_string(), Value::Text("n".to_string()))]);
    assert_eq!(B::from_value(&v).unwrap_err(), DecodeError::BadFields);
}
