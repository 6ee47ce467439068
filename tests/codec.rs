use component_host::codec::{encode, value_fits, zero_value, ConversionErrorKind, Token, TypeDescriptor, TypeKind, Value};
use component_host::text::{read_bool, read_decimal};

fn tok(s: &str) -> Token {
    Token::plain(s.to_string())
}

#[test]
fn u8_overflow_is_parse_failure() {
    assert_eq!(encode(&TypeDescriptor::U8, &tok("9999999999")), Err(ConversionErrorKind::ParseFailure));
    assert_eq!(encode(&TypeDescriptor::U8, &tok("256")), Err(ConversionErrorKind::ParseFailure));
    assert_eq!(encode(&TypeDescriptor::U8, &tok("255")), Ok(Value::U8(255)));
}

#[test]
fn integers_at_their_exact_width() {
    assert_eq!(encode(&TypeDescriptor::U16, &tok("65535")), Ok(Value::U16(65535)));
    assert_eq!(encode(&TypeDescriptor::U16, &tok("65536")), Err(ConversionErrorKind::ParseFailure));
    assert_eq!(encode(&TypeDescriptor::U32, &tok("4294967295")), Ok(Value::U32(u32::MAX)));
    assert_eq!(encode(&TypeDescriptor::U64, &tok("18446744073709551615")), Ok(Value::U64(u64::MAX)));
    assert_eq!(encode(&TypeDescriptor::U64, &tok("18446744073709551616")), Err(ConversionErrorKind::ParseFailure));
    assert_eq!(encode(&TypeDescriptor::S8, &tok("-128")), Ok(Value::S8(-128)));
    assert_eq!(encode(&TypeDescriptor::S8, &tok("128")), Err(ConversionErrorKind::ParseFailure));
    assert_eq!(encode(&TypeDescriptor::S16, &tok("-32768")), Ok(Value::S16(i16::MIN)));
    assert_eq!(encode(&TypeDescriptor::S32, &tok("+17")), Ok(Value::S32(17)));
    assert_eq!(encode(&TypeDescriptor::S64, &tok("-9223372036854775808")), Ok(Value::S64(i64::MIN)));
    assert_eq!(encode(&TypeDescriptor::S64, &tok("9223372036854775808")), Err(ConversionErrorKind::ParseFailure));
}

#[test]
fn malformed_integers_are_refused() {
    for s in ["", "+", "-", "abc", " 1", "1 ", "1_000", "0x10", "-0"] {
        assert_eq!(encode(&TypeDescriptor::U32, &tok(s)), Err(ConversionErrorKind::ParseFailure), "{s}");
    }
    assert_eq!(encode(&TypeDescriptor::S32, &tok("-0")), Ok(Value::S32(0)));
    assert_eq!(encode(&TypeDescriptor::U32, &tok("007")), Ok(Value::U32(7)));
}

#[test]
fn decimal_reader_matches_std_on_samples() {
    for s in ["0", "42", "+42", "-42", "300", "-129", "x", "", "99999999999999999999"] {
        let ours = read_decimal(s, true, -128, 127).map(|v| v as i8);
        assert_eq!(ours, s.parse::<i8>().ok(), "{s}");
        let ours = read_decimal(s, false, 0, 255).map(|v| v as u8);
        assert_eq!(ours, s.parse::<u8>().ok(), "{s}");
    }
}

#[test]
fn bool_in_any_case() {
    assert_eq!(encode(&TypeDescriptor::Bool, &tok("true")), Ok(Value::Bool(true)));
    assert_eq!(encode(&TypeDescriptor::Bool, &tok("TRUE")), Ok(Value::Bool(true)));
    assert_eq!(encode(&TypeDescriptor::Bool, &tok("False")), Ok(Value::Bool(false)));
    assert_eq!(encode(&TypeDescriptor::Bool, &tok("yes")), Err(ConversionErrorKind::ParseFailure));
    assert_eq!(encode(&TypeDescriptor::Bool, &tok("1")), Err(ConversionErrorKind::ParseFailure));
    assert_eq!(read_bool("fAlSe"), Some(false));
    assert_eq!(read_bool("truee"), None);
}

#[test]
fn strings_and_enum_cases_pass_through() {
    assert_eq!(encode(&TypeDescriptor::String, &tok("a b \"c\"")), Ok(Value::String("a b \"c\"".to_string())));
    let e = TypeDescriptor::Enum(vec!["add".to_string(), "mult".to_string()]);
    assert_eq!(encode(&e, &tok("divide")), Ok(Value::Enum("divide".to_string())));
}

#[test]
fn floats_take_the_parsed_bits() {
    let t = Token { text: "1.5".to_string(), float32: "1.5".parse::<f32>().ok().map(f32::to_bits), float64: "1.5".parse::<f64>().ok().map(f64::to_bits) };
    assert_eq!(encode(&TypeDescriptor::Float32, &t), Ok(Value::Float32(1.5f32.to_bits())));
    assert_eq!(encode(&TypeDescriptor::Float64, &t), Ok(Value::Float64(1.5f64.to_bits())));
    assert_eq!(encode(&TypeDescriptor::Float64, &tok("nope")), Err(ConversionErrorKind::ParseFailure));
}

#[test]
fn unsupported_shapes_are_refused() {
    let l = TypeDescriptor::List(Box::new(TypeDescriptor::String));
    assert_eq!(encode(&l, &tok("x")), Err(ConversionErrorKind::UnsupportedType));
    let o = TypeDescriptor::Other("record".to_string());
    assert_eq!(encode(&o, &tok("x")), Err(ConversionErrorKind::UnsupportedType));
    assert_eq!(l.kind(), TypeKind::List);
}

#[test]
fn zero_values_match_their_kind() {
    let all = vec![
        (TypeDescriptor::Bool, Value::Bool(false)),
        (TypeDescriptor::U8, Value::U8(0)),
        (TypeDescriptor::U16, Value::U16(0)),
        (TypeDescriptor::U32, Value::U32(0)),
        (TypeDescriptor::U64, Value::U64(0)),
        (TypeDescriptor::S8, Value::S8(0)),
        (TypeDescriptor::S16, Value::S16(0)),
        (TypeDescriptor::S32, Value::S32(0)),
        (TypeDescriptor::S64, Value::S64(0)),
        (TypeDescriptor::Float32, Value::Float32(0.0f32.to_bits())),
        (TypeDescriptor::Float64, Value::Float64(0.0f64.to_bits())),
        (TypeDescriptor::String, Value::String(String::new())),
        (TypeDescriptor::Enum(vec!["a".to_string()]), Value::Enum(String::new())),
    ];
    for (t, z) in &all {
        let v = zero_value(t).unwrap();
        assert_eq!(&v, z);
        assert!(value_fits(t, &v));
        assert_eq!(zero_value(t), Some(v));
    }
    assert_eq!(zero_value(&TypeDescriptor::List(Box::new(TypeDescriptor::U8))), None);
    assert_eq!(zero_value(&TypeDescriptor::Other("tuple".to_string())), None);
    assert!(!value_fits(&TypeDescriptor::U8, &Value::U16(0)));
}
