use extremedb::sql::value::{parse_i64, format_i64, format_u64, Binary, Elem, Numeric, Type, Value};
use extremedb::sql::{SqlCode, SqlError};
use extremedb::util::BitMask;
use extremedb::Error;
use extremedb::sql::value::{epoch_from_ticks, ticks_from_epoch};

#[test]
fn round_trip_int() {
    for v in [0i64, 1, -1, 42, i64::MAX, i64::MIN] {
        let val = Value::new_int(v);
        assert_eq!(val.to_i64().unwrap(), v);
    }
}

#[test]
fn round_trip_bool() {
    assert!(Value::new_bool(true).is_true());
    assert!(!Value::new_bool(false).is_true());
    assert_eq!(Value::new_bool(true).to_i64().unwrap(), 1);
    assert_eq!(Value::new_bool(false).to_i64().unwrap(), 0);
}

#[test]
fn round_trip_string() {
    let v = Value::new_string("Hello");
    assert_eq!(v.as_str().unwrap(), "Hello");
    assert_eq!(v.to_string().unwrap(), "Hello");
    assert_eq!(v.value_type(), Type::String);
}

#[test]
fn round_trip_binary() {
    let v = Value::new_binary(&[1u8, 2, 3]);
    assert_eq!(v.as_bytes().unwrap(), &[1u8, 2, 3]);
    assert_eq!(v.to_binary().unwrap(), vec![1u8, 2, 3]);
    assert_eq!(v.size().unwrap(), 3);
}

#[test]
fn round_trip_real_bits() {
    let bits = 4614256656552045848u64;
    let v = Value::new_real_bits(bits);
    assert_eq!(v.to_real_bits().unwrap(), bits);
    assert_eq!(v.value_type(), Type::Real8);
}

#[test]
fn round_trip_time() {
    let v = Value::new_time(1234567);
    assert_eq!(v.to_date_time().unwrap(), 1234567);
    let from_int = Value::new_int(99);
    assert_eq!(from_int.to_date_time().unwrap(), 99);
    assert!(Value::new_int(-1).to_date_time().is_err());
}

#[test]
fn round_trip_numeric() {
    let n = Numeric::new(12345, 3).unwrap();
    assert_eq!(n.int_part(), 12);
    assert_eq!(n.fract_part(), 345);
    assert_eq!(n.value_scaled(), 12345);
    assert_eq!(n.precision(), 3);
    let v = Value::from_numeric(&n);
    let back = v.to_numeric().unwrap();
    assert_eq!(back.value_scaled(), 12345);
    assert_eq!(back.precision(), 3);
    let (scaled, prec) = back.destruct();
    assert_eq!(scaled, 12345);
    assert_eq!(prec, 3);
}

#[test]
fn numeric_scale_bounds() {
    assert!(Numeric::new(1, 19).is_some());
    assert!(Numeric::new(1, 20).is_none());
    let zero_scale = Numeric::new(-7, 0).unwrap();
    assert_eq!(zero_scale.int_part(), -7);
    assert_eq!(zero_scale.fract_part(), 0);
    let negative = Numeric::new(-12345, 3).unwrap();
    assert_eq!(negative.int_part(), -12);
    assert_eq!(negative.fract_part(), 345);
    let max_scale = Numeric::new(i64::MAX, 19).unwrap();
    assert_eq!(max_scale.int_part(), 0);
    assert_eq!(max_scale.fract_part(), i64::MAX as u64);
}

#[test]
fn int_text_formulas() {
    assert_eq!(format_i64(0), "0");
    assert_eq!(format_i64(-123), "-123");
    assert_eq!(format_i64(9007), "9007");
    assert_eq!(format_i64(i64::MIN), "-9223372036854775808");
    assert_eq!(format_u64(18446744073709551615), "18446744073709551615");
    assert_eq!(Value::new_int(1).to_string().unwrap(), "1");
    assert_eq!(Value::new_bool(true).to_string().unwrap(), "true");
    assert_eq!(Value::new_bool(false).to_string().unwrap(), "false");
    assert_eq!(Value::new_null().to_string().unwrap(), "null");
    assert_eq!(Value::new_time(77).to_string().unwrap(), "77");
}

#[test]
fn int_text_parsing() {
    assert_eq!(parse_i64("0").unwrap(), 0);
    assert_eq!(parse_i64("-1").unwrap(), -1);
    assert_eq!(parse_i64("9223372036854775807").unwrap(), i64::MAX);
    assert_eq!(parse_i64("-9223372036854775808").unwrap(), i64::MIN);
    assert!(parse_i64("").is_err());
    assert!(parse_i64("-").is_err());
    assert!(parse_i64("12a").is_err());
    assert!(parse_i64("9223372036854775808").is_err());
    assert!(parse_i64("  3").is_err());
    let parsed = Value::new_string("-42").to_i64().unwrap();
    assert_eq!(parsed, -42);
}

#[test]
fn string_int_round_trip_via_text() {
    for v in [0i64, 5, -17, i64::MAX, i64::MIN] {
        let text = Value::new_int(v).to_string().unwrap();
        assert_eq!(Value::new_string(&text).to_i64().unwrap(), v);
    }
}

#[test]
fn invalid_casts_report_type_cast_errors() {
    let cast = Err::<i64, Error>(Error::Sql(SqlError(SqlCode::InvalidTypeCast)));
    assert_eq!(Value::new_null().to_i64(), cast);
    assert!(Value::new_binary(&[1]).to_string().is_err());
    assert!(Value::new_int(1).as_str().is_err());
    assert!(Value::new_string("x").as_bytes().is_err());
    assert!(Value::new_int(1).to_numeric().is_err());
    assert!(Value::new_int(1).to_real_bits().is_err());
    assert!(Value::new_int(1).size().is_err());
}

#[test]
fn array_downcast_and_access() {
    let v = Value::new_array(vec![Elem::Int(1), Elem::Int(2), Elem::Int(3)]);
    assert_eq!(v.value_type(), Type::Array);
    let arr = v.as_array().unwrap();
    assert_eq!(arr.len(), 3);
    assert_eq!(arr.elem_type(), Type::Int8);
    assert_eq!(arr.get_at(0).unwrap().to_i64().unwrap(), 1);
    assert_eq!(arr.get_at(2).unwrap().to_i64().unwrap(), 3);
    assert!(arr.get_at(3).is_err());
    assert!(Value::new_int(1).as_array().is_err());
}

#[test]
fn binary_wrapper() {
    let b = Binary::new(&[9u8, 8, 7]);
    let v = b.to_value();
    assert_eq!(v.as_bytes().unwrap(), &[9u8, 8, 7]);
}

#[test]
fn type_codes_round_trip() {
    for code in 0u32..=18 {
        let t = Type::from_mco(code).unwrap();
        assert_eq!(t.to_code(), code);
    }
    assert!(Type::from_mco(19).is_none());
}

#[test]
fn bitmask_set_reset() {
    let mut m = BitMask::new();
    assert_eq!(m.bit_mask(), 0);
    m.set(0b100);
    assert!(m.get_bit_value(0b100));
    m.set_bit_value(0b010, true);
    assert_eq!(m.bit_mask(), 0b110);
    m.reset(0b100);
    assert!(!m.get_bit_value(0b100));
    assert!(m.get_bit_value(0b010));
    let m2 = BitMask::from(0xff);
    assert_eq!(m2.bit_mask(), 0xff);
}

#[test]
fn ticks_scale_by_resolution_band() {
    // One tick per second: the nanoseconds are below the resolution.
    assert_eq!(ticks_from_epoch(12, 999_999_999, 1), Ok(12));
    // Milliseconds.
    assert_eq!(ticks_from_epoch(12, 345_678_901, 1_000), Ok(12_345));
    // Microseconds.
    assert_eq!(ticks_from_epoch(12, 345_678_901, 1_000_000), Ok(12_345_678));
    // Nanoseconds.
    assert_eq!(
        ticks_from_epoch(12, 345_678_901, 1_000_000_000),
        Ok(12_345_678_901)
    );
    // A count that cannot fit 64 bits is a cast error.
    assert_eq!(
        ticks_from_epoch(u64::MAX, 0, 1_000_000_000),
        Err(Error::Sql(SqlError(SqlCode::InvalidTypeCast)))
    );

    // Back from ticks: seconds and the expressible sub-second part.
    assert_eq!(epoch_from_ticks(12_345, 1_000), (12, 345_000_000));
    assert_eq!(epoch_from_ticks(12, 1), (12, 0));
    assert_eq!(epoch_from_ticks(12_345_678_901, 1_000_000_000), (12, 345_678_901));
}

#[test]
fn sql_code_names_are_fixed() {
    assert_eq!(SqlError::new(SqlCode::NoMoreElements).code_str(), "NO_MORE_ELEMENTS");
    assert_eq!(SqlError::new(SqlCode::InvalidTypeCast).code_str(), "INVALID_TYPE_CAST");
    assert_eq!(SqlError::new(SqlCode::CompileError).code_str(), "COMPILE_ERROR");
    assert_eq!(SqlError::new(SqlCode::Conflict).code_str(), "SQL_CONFLICT");
    assert_eq!(SqlError::new(SqlCode::NullValue).code_str(), "SQL_NULL_VALUE");
}
