use firestore_db::value::FieldValue;

#[test]
fn bool_round_trip() {
    assert_eq!(FieldValue::from(true).try_bool(), Ok(true));
    assert_eq!(FieldValue::from_bool(false).try_bool(), Ok(false));
}

#[test]
fn integer_round_trip() {
    for x in [0i64, 42, -7, i64::MAX, i64::MIN] {
        assert_eq!(FieldValue::from_i64(x).try_i64(), Ok(x));
    }
    assert_eq!(FieldValue::from_i32(-3).try_i64(), Ok(-3));
    assert_eq!(FieldValue::from_u32(4_000_000_000).try_u32(), Ok(4_000_000_000));
}

#[test]
fn integer_is_decimal_text() {
    match FieldValue::from_i64(-120) {
        FieldValue::Integer(t) => assert_eq!(t, "-120"),
        other => panic!("unexpected variant {:?}", other),
    }
}

#[test]
fn integer_text_that_does_not_parse() {
    let v = FieldValue::Integer("12a".to_string());
    assert_eq!(v.try_i64(), Err("Failed to read FieldValue as long int(i64)."));
    let w = FieldValue::Integer("+15".to_string());
    assert_eq!(w.try_i64(), Ok(15));
}

#[test]
fn double_round_trip() {
    let bits = 2.5f64.to_bits();
    let back = FieldValue::from_double_bits(bits).try_double_bits().unwrap();
    assert_eq!(f64::from_bits(back), 2.5);
}

#[test]
fn string_round_trip() {
    assert_eq!(FieldValue::from_str("hi").try_string(), Ok("hi".to_string()));
    assert_eq!(FieldValue::from("x".to_string()).try_string(), Ok("x".to_string()));
}

#[test]
fn geo_round_trip() {
    let (lat, lng) = (52.5f64.to_bits(), 13.4f64.to_bits());
    assert_eq!(FieldValue::from_geo_bits(lat, lng).try_geo_bits(), Ok((lat, lng)));
}

#[test]
fn mismatched_variant_is_an_error() {
    assert_eq!(FieldValue::from_i64(1).try_bool(), Err("Failed to read FieldValue as bool."));
    assert_eq!(FieldValue::from_bool(true).try_i64(), Err("Failed to read FieldValue as long int(i64)."));
    assert_eq!(FieldValue::null_value().try_string(), Err("Failed to read FieldValue as String."));
    assert_eq!(FieldValue::from_str("a").try_double_bits(), Err("Failed to read FieldValue as double(f64)."));
    assert_eq!(FieldValue::from_bool(true).try_geo_bits(), Err("Failed to read FieldValue as (f64, f64)."));
}

#[test]
fn bytes_are_utf8_text() {
    assert_eq!(FieldValue::from_bytes(b"abc"), FieldValue::Bytes("abc".to_string()));
    assert_eq!(FieldValue::from_bytes(&[0xff, 0xfe]), FieldValue::Bytes(String::new()));
}

#[test]
fn value_equality() {
    let a = FieldValue::from(vec![FieldValue::from_i64(1), FieldValue::from_str("x")]);
    let b = FieldValue::from_vec(vec![FieldValue::from_i64(1), FieldValue::from_str("x")]);
    let c = FieldValue::from_vec(vec![FieldValue::from_i64(1), FieldValue::from_str("y")]);
    assert_eq!(a, b);
    assert_ne!(a, c);
    let m1 = FieldValue::map_value(vec![("k".to_string(), FieldValue::from(()))]);
    let m2 = FieldValue::map_value(vec![("k".to_string(), FieldValue::null_value())]);
    assert_eq!(m1, m2);
    assert_ne!(FieldValue::timestamp_value("t"), FieldValue::reference_value("t"));
    let ab = FieldValue::map_value(vec![
        ("a".to_string(), FieldValue::from_i64(1)),
        ("b".to_string(), FieldValue::from_bool(true)),
    ]);
    let ba = FieldValue::map_value(vec![
        ("b".to_string(), FieldValue::from_bool(true)),
        ("a".to_string(), FieldValue::from_i64(0)),
        ("a".to_string(), FieldValue::from_i64(1)),
    ]);
    assert_eq!(ab, ba);
    let short = FieldValue::map_value(vec![("a".to_string(), FieldValue::from_i64(1))]);
    assert_ne!(ab, short);
    assert_ne!(short, ab);
}
