use warp10::{Data, GeoValue, Label, Timestamp, Value, Warp10Serializable};

#[test]
fn serialize_int() {
    assert_eq!(Value::Int(42).warp10_serialize(), "42");
}

#[test]
fn serialize_long() {
    assert_eq!(Value::Long(42).warp10_serialize(), "42");
}

#[test]
fn serialize_double() {
    assert_eq!(Value::Double(42.66f64.to_string()).warp10_serialize(), "42.66");
}

#[test]
fn serialize_boolean() {
    assert_eq!(Value::Boolean(true).warp10_serialize(), "true");
    assert_eq!(Value::Boolean(false).warp10_serialize(), "false");
}

#[test]
fn serialize_string() {
    assert_eq!(Value::String("foobar".to_string()).warp10_serialize(), "'foobar'");
}

#[test]
fn serialize_geo() {
    assert_eq!(
        GeoValue::new(42.66f64.to_string(), 32.85f64.to_string(), None).warp10_serialize(),
        "42.66:32.85/"
    );
    assert_eq!(
        GeoValue::new(42.66f64.to_string(), 32.85f64.to_string(), Some(10)).warp10_serialize(),
        "42.66:32.85/10"
    );
}

#[test]
fn serialize_label() {
    assert_eq!(
        Label::new("name 1", "凄い value 2").warp10_serialize(),
        "name%201=%E5%87%84%E3%81%84%20value%202"
    );
}

fn timestamp_at(seconds: i64, nanos: i32) -> Timestamp {
    let date = time::OffsetDateTime::UNIX_EPOCH + time::Duration::new(seconds, nanos);
    Timestamp::new(date.unix_timestamp(), date.microsecond())
}

#[test]
fn serialize_data() {
    assert_eq!(
        Data::new(
            timestamp_at(25, 123456789),
            None,
            "original name".to_string(),
            vec![Label::new("label1", "value1"), Label::new("label 2", "value 2"),],
            Value::String("foobar".to_string())
        )
        .warp10_serialize(),
        "25123456// original%20name{label1=value1,label%202=value%202} 'foobar'"
    );
    assert_eq!(
        Data::new(
            timestamp_at(25, 123456789),
            Some(GeoValue::new(42.66f64.to_string(), 32.85f64.to_string(), Some(10))),
            "original name".to_string(),
            vec![Label::new("label1", "value1"), Label::new("label 2", "value 2"),],
            Value::String("foobar".to_string())
        )
        .warp10_serialize(),
        "25123456/42.66:32.85/10 original%20name{label1=value1,label%202=value%202} 'foobar'"
    );
    assert_eq!(
        Data::new_without_time(
            Some(GeoValue::new(42.66f64.to_string(), 32.85f64.to_string(), Some(10))),
            "original name".to_string(),
            vec![Label::new("label1", "value1"), Label::new("label 2", "value 2"),],
            Value::String("foobar".to_string())
        )
        .warp10_serialize(),
        "/42.66:32.85/10 original%20name{label1=value1,label%202=value%202} 'foobar'"
    );
}

#[test]
fn serialize_label_non_ascii_value() {
    assert_eq!(Label::new("name 1", "café").warp10_serialize(), "name%201=caf%C3%A9");
}

#[test]
fn numeric_round_trips() {
    assert_eq!(Value::Int(i32::MAX).warp10_serialize().parse::<i32>().unwrap(), i32::MAX);
    assert_eq!(Value::Int(i32::MIN).warp10_serialize().parse::<i32>().unwrap(), i32::MIN);
    assert_eq!(Value::Int(0).warp10_serialize().parse::<i32>().unwrap(), 0);
    assert_eq!(Value::Long(i64::MAX).warp10_serialize().parse::<i64>().unwrap(), i64::MAX);
    assert_eq!(Value::Long(i64::MIN).warp10_serialize().parse::<i64>().unwrap(), i64::MIN);
    assert_eq!(Value::Long(-42).warp10_serialize().parse::<i64>().unwrap(), -42);
    assert_eq!(Value::Double(42.66f64.to_string()).warp10_serialize().parse::<f64>().unwrap(), 42.66f64);
    assert_eq!(Value::Boolean(true).warp10_serialize().parse::<bool>().unwrap(), true);
    assert_eq!(Value::Boolean(false).warp10_serialize().parse::<bool>().unwrap(), false);
}

#[test]
fn value_conversions() {
    assert_eq!(Value::from(7i32).warp10_serialize(), "7");
    assert_eq!(Value::from(-7i64).warp10_serialize(), "-7");
    assert_eq!(Value::from(true).warp10_serialize(), "true");
    assert_eq!(Value::from("quoted".to_string()).warp10_serialize(), "'quoted'");
    assert_eq!(Value::from("borrowed").warp10_serialize(), "'borrowed'");
}

#[test]
fn label_equality() {
    assert_eq!(Label::new("a", "b"), Label::new("a", "b"));
    assert!(Label::new("a", "b") != Label::new("a", "c"));
    assert!(Label::new("a", "b") != Label::new("x", "b"));
}

#[test]
fn value_and_data_equality() {
    assert_eq!(Value::Int(3), Value::Int(3));
    assert!(Value::Int(3) != Value::Long(3));
    assert!(Value::Boolean(true) != Value::Boolean(false));
    let a = Data::new_without_time(
        Some(GeoValue::new("1.5".to_string(), "2.5".to_string(), None)),
        "n".to_string(),
        vec![Label::new("k", "v")],
        Value::Int(1),
    );
    assert_eq!(a, a.clone());
    let b = Data::new_without_time(
        Some(GeoValue::new("1.5".to_string(), "2.5".to_string(), None)),
        "n".to_string(),
        vec![Label::new("k", "w")],
        Value::Int(1),
    );
    assert!(a != b);
}

#[test]
fn serialize_empty_labels() {
    assert_eq!(
        Data::new_without_time(None, "n".to_string(), vec![], Value::Int(1)).warp10_serialize(),
        "// n{} 1"
    );
}
