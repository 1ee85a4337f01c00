use venum::dates::DateVal;
use venum::decimal::Dec;
use venum::value::Value;
use venum::value_type::ValueType;

fn dec_i(v: i128) -> Dec {
    let negative = v < 0;
    let mantissa: u128 = if negative { (-(v as i128)) as u128 } else { v as u128 };
    Dec { negative, mantissa, scale: 0 }
}

#[test]
#[should_panic(expected = "Parsing(ValueFromStringFailed")]
fn parse_int8_from_str_err_val_too_big() {
    Value::parse_int8_from_str(&i16::MAX.to_string()).unwrap();
}

#[test]
#[should_panic(expected = "Parsing(ValueFromStringFailed")]
fn parse_int8_from_str_err_val_too_small() {
    Value::parse_int8_from_str(&i16::MIN.to_string()).unwrap();
}

#[test]
#[should_panic(expected = "Parsing(ValueFromStringFailed")]
fn parse_int8_from_str_err_not_an_int8() {
    Value::parse_int8_from_str("not-an-int8").unwrap();
}

#[test]
#[should_panic(expected = "Parsing(ValueFromStringFailed")]
fn parse_int16_from_str_err_val_too_big() {
    Value::parse_int16_from_str(&i32::MAX.to_string()).unwrap();
}

#[test]
#[should_panic(expected = "Parsing(ValueFromStringFailed")]
fn parse_int16_from_str_err_val_too_small() {
    Value::parse_int16_from_str(&i32::MIN.to_string()).unwrap();
}

#[test]
#[should_panic(expected = "Parsing(ValueFromStringFailed")]
fn parse_int16_from_str_err_not_an_int16() {
    Value::parse_int16_from_str("not-an-int16").unwrap();
}

#[test]
#[should_panic(expected = "Parsing(ValueFromStringFailed")]
fn parse_int32_from_str_err_val_too_big() {
    Value::parse_int32_from_str(&i64::MAX.to_string()).unwrap();
}

#[test]
#[should_panic(expected = "Parsing(ValueFromStringFailed")]
fn parse_int32_from_str_err_val_too_small() {
    Value::parse_int32_from_str(&i64::MIN.to_string()).unwrap();
}

#[test]
#[should_panic(expected = "Parsing(ValueFromStringFailed")]
fn parse_int32_from_str_err_not_an_int32() {
    Value::parse_int32_from_str("not-an-int32").unwrap();
}

#[test]
#[should_panic(expected = "Parsing(ValueFromStringFailed")]
fn parse_int64_from_str_err_val_too_big() {
    Value::parse_int64_from_str(&i128::MAX.to_string()).unwrap();
}

#[test]
#[should_panic(expected = "Parsing(ValueFromStringFailed")]
fn parse_int64_from_str_err_val_too_small() {
    Value::parse_int64_from_str(&i128::MIN.to_string()).unwrap();
}

#[test]
#[should_panic(expected = "Parsing(ValueFromStringFailed")]
fn parse_int64_from_str_err_not_an_int64() {
    Value::parse_int64_from_str("not-an-int64").unwrap();
}

#[test]
#[should_panic(expected = "Parsing(ValueFromStringFailed")]
fn parse_int128_from_str_err_val_too_big() {
    // max is: 170141183460469231731687303715884105727
    Value::parse_int128_from_str("170141183460469231731687303715884105728").unwrap();
}

#[test]
#[should_panic(expected = "Parsing(ValueFromStringFailed")]
fn parse_int128_from_str_err_val_too_small() {
    // min is: -170141183460469231731687303715884105728
    Value::parse_int128_from_str("-170141183460469231731687303715884105729").unwrap();
}

#[test]
#[should_panic(expected = "Parsing(ValueFromStringFailed")]
fn parse_int128_from_str_err_not_an_int128() {
    Value::parse_int128_from_str("not-an-int128").unwrap();
}

#[test]
#[should_panic(expected = "Parsing(ValueFromStringFailed")]
fn parse_uint8_from_str_err_val_too_big() {
    Value::parse_uint8_from_str(&u16::MAX.to_string()).unwrap();
}

#[test]
#[should_panic(expected = "Parsing(ValueFromStringFailed")]
fn parse_uint8_from_str_err_val_too_small() {
    Value::parse_uint8_from_str("-1").unwrap();
}

#[test]
#[should_panic(expected = "Parsing(ValueFromStringFailed")]
fn parse_uint8_from_str_err_not_an_uint8() {
    Value::parse_uint8_from_str("not-an-uint8").unwrap();
}

#[test]
#[should_panic(expected = "Parsing(ValueFromStringFailed")]
fn parse_uint16_from_str_err_val_too_big() {
    Value::parse_uint16_from_str(&u32::MAX.to_string()).unwrap();
}

#[test]
#[should_panic(expected = "Parsing(ValueFromStringFailed")]
fn parse_uint16_from_str_err_val_too_small() {
    Value::parse_uint16_from_str("-1").unwrap();
}

#[test]
#[should_panic(expected = "Parsing(ValueFromStringFailed")]
fn parse_uint16_from_str_err_not_an_uint16() {
    Value::parse_uint16_from_str("not-an-uint16").unwrap();
}

#[test]
#[should_panic(expected = "Parsing(ValueFromStringFailed")]
fn parse_uint32_from_str_err_val_too_big() {
    Value::parse_uint32_from_str(&u64::MAX.to_string()).unwrap();
}

#[test]
#[should_panic(expected = "Parsing(ValueFromStringFailed")]
fn parse_uint32_from_str_err_val_too_small() {
    Value::parse_uint32_from_str("-1").unwrap();
}

#[test]
#[should_panic(expected = "Parsing(ValueFromStringFailed")]
fn parse_uint32_from_str_err_not_an_uint32() {
    Value::parse_uint32_from_str("not-an-uint32").unwrap();
}

#[test]
#[should_panic(expected = "Parsing(ValueFromStringFailed")]
fn parse_uint64_from_str_err_val_too_big() {
    Value::parse_uint64_from_str(&u128::MAX.to_string()).unwrap();
}

#[test]
#[should_panic(expected = "Parsing(ValueFromStringFailed")]
fn parse_uint64_from_str_err_val_too_small() {
    Value::parse_uint64_from_str("-1").unwrap();
}

#[test]
#[should_panic(expected = "Parsing(ValueFromStringFailed")]
fn parse_uint64_from_str_err_not_an_uint64() {
    Value::parse_uint64_from_str("not-an-uint64").unwrap();
}

#[test]
#[should_panic(expected = "Parsing(ValueFromStringFailed")]
fn parse_uint128_from_str_err_val_too_big() {
    // max is: 340282366920938463463374607431768211455
    Value::parse_uint128_from_str("340282366920938463463374607431768211456").unwrap();
}

#[test]
#[should_panic(expected = "Parsing(ValueFromStringFailed")]
fn parse_uint128_from_str_err_val_too_small() {
    Value::parse_uint128_from_str("-1").unwrap();
}

#[test]
#[should_panic(expected = "Parsing(ValueFromStringFailed")]
fn parse_uint128_from_str_err_not_an_uint128() {
    Value::parse_uint128_from_str("not-an-uint128").unwrap();
}

#[test]
#[should_panic(expected = "Parsing(ValueFromStringFailed")]
fn parse_bool_from_str_err() {
    Value::parse_bool_from_str("not-a-bool").unwrap();
}

#[test]
#[should_panic(expected = "Err(Parsing(ValueFromStringFailed")]
fn parse_char_from_str_err() {
    assert_eq!(Ok(Value::Char('a')), Value::parse_char_from_str("abc"));
}

#[test]
#[should_panic(
    expected = "Parsing(ValueFromStringFailed { src_value: \"foobar\", target_type: \"Value::Decimal\", details: Some(\"Original error: Invalid decimal: unknown character\") })"
)]
fn parse_decimal_from_str_err() {
    Value::parse_decimal_from_str("foobar").unwrap();
}

#[test]
#[should_panic(
    expected = "Parsing(ValueFromStringFailed { src_value: \"2022-12-31 00:00\", target_type: \"Value::NaiveDate\", details: Some(\"Chrono pattern: %Y-%m-%d. Original error: trailing input\") })"
)]
fn parse_naive_date_from_str_w_pattern_err_trailing_inp() {
    Value::parse_naive_date_from_str("2022-12-31 00:00", "%Y-%m-%d").unwrap();
}

#[test]
#[should_panic(
    expected = "Parsing(ValueFromStringFailed { src_value: \"2022-12-31\", target_type: \"Value::NaiveDate\", details: Some(\"Chrono pattern: %Y %m %d. Original error: input contains invalid characters\") })"
)]
fn parse_naive_date_from_str_w_pattern_err_invalid_chars() {
    Value::parse_naive_date_from_str("2022-12-31", "%Y %m %d").unwrap();
}

#[test]
#[should_panic(
    expected = "Parsing(ValueFromStringFailed { src_value: \"2022-12-31 12:11:10 000\", target_type: \"Value::NaiveDateTime\", details: Some(\"Chrono pattern: %Y-%m-%d %H:%M:%S. Original error: trailing input\") }"
)]
fn parse_naive_date_time_from_str_w_pattern_err_trailing_inp() {
    Value::parse_naive_date_time_from_str("2022-12-31 12:11:10 000", "%Y-%m-%d %H:%M:%S")
        .unwrap();
}

#[test]
#[should_panic(
    expected = "Parsing(ValueFromStringFailed { src_value: \"2022-12-31 12:11:10\", target_type: \"Value::NaiveDateTime\", details: Some(\"Chrono pattern: %Y-%m-%dT%H:%M:%S. Original error: input contains invalid characters\") }"
)]
fn parse_naive_date_time_from_str_w_pattern_err_invalid_chars() {
    Value::parse_naive_date_time_from_str("2022-12-31 12:11:10", "%Y-%m-%dT%H:%M:%S")
        .unwrap();
}

#[test]
#[should_panic(
    expected = "Parsing(ValueFromStringFailed { src_value: \"2022-12-31T06:00:00\", target_type: \"Value::DateTime\", details: Some(\"Chrono pattern: %FT%T%:z. Original error: premature end of input\") }"
)]
fn parse_date_time_from_str_w_pattern_err_prem_end_of_input() {
    Value::parse_date_time_from_str("2022-12-31T06:00:00", "%FT%T%:z").unwrap();
}

#[test]
#[should_panic(
    expected = "Parsing(ValueFromStringFailed { src_value: \"2022-12-31T06:00:00\", target_type: \"Value::DateTime\", details: Some(\"Chrono pattern: %FT%T. Original error: input is not enough for unique date and time\") })"
)]
fn parse_date_time_from_str_w_pattern_err_invalid_chars() {
    Value::parse_date_time_from_str("2022-12-31T06:00:00", "%FT%T").unwrap();
}

#[test]
#[should_panic(
    expected = "Parsing(ValueFromStringFailed { src_value: \"2022-12-31T06:00:00+05:00\", target_type: \"Value::DateTime\", details: Some(\"Chrono pattern: %FT%T%. Original error: bad or unsupported format string\") }"
)]
fn parse_date_time_from_str_w_pattern_err_bad_format_string() {
    Value::parse_date_time_from_str("2022-12-31T06:00:00+05:00", "%FT%T%").unwrap();
}

#[test]
#[should_panic(expected = "Parsing(ValueFromStringFailed")]
fn from_str_and_type_int8_err() {
    Value::from_str_and_type("false", &ValueType::Int8).unwrap();
}

#[test]
#[should_panic(
    expected = "Parsing(ValueFromStringFailed { src_value: \"foobar\", target_type: \"Value::NaiveDate\", details: Some(\"Chrono pattern: %d.%m.%Y. Original error:"
)]
fn from_str_and_type_with_chrono_naive_date_err() {
    Value::from_str_and_type_with_chrono_pattern(
        "foobar",
        &ValueType::NaiveDate,
        "%d.%m.%Y",
    )
    .unwrap();
}

#[test]
#[should_panic(expected = "Conversion(NotRepresentableAs")]
fn from_char_err_no_num() {
    Value::Char('a').try_convert_to_uint8().unwrap();
}

#[test]
#[should_panic(expected = "Conversion(NotRepresentableAs")]
fn from_string_err_no_num() {
    Value::String(String::from("abc"))
        .try_convert_to_uint8()
        .unwrap();
}

#[test]
#[should_panic(expected = "Conversion(NotRepresentableAs")]
fn from_string_err_neg_num() {
    Value::String(String::from("-1"))
        .try_convert_to_uint8()
        .unwrap();
}

#[test]
#[should_panic(expected = "Conversion(NotRepresentableAs")]
fn from_uint16_err_val_too_big() {
    Value::UInt16(u16::MAX).try_convert_to_uint8().unwrap();
}

#[test]
#[should_panic(expected = "Conversion(NotRepresentableAs")]
fn from_uint32_err_val_too_big() {
    Value::UInt32(u32::MAX).try_convert_to_uint8().unwrap();
}

#[test]
#[should_panic(expected = "Conversion(NotRepresentableAs")]
fn from_uint64_err_val_too_big() {
    Value::UInt64(u64::MAX).try_convert_to_uint8().unwrap();
}

#[test]
#[should_panic(expected = "Conversion(NotRepresentableAs")]
fn from_uint128_err_val_too_big() {
    Value::UInt128(u128::MAX).try_convert_to_uint8().unwrap();
}

#[test]
#[should_panic(expected = "Conversion(NotRepresentableAs")]
fn from_int8_err_val_too_small() {
    Value::Int8(-1).try_convert_to_uint8().unwrap();
}

#[test]
#[should_panic(expected = "Conversion(NotRepresentableAs")]
fn from_int16_err_val_too_big() {
    Value::Int16(i16::MAX).try_convert_to_uint8().unwrap();
}

#[test]
#[should_panic(expected = "Conversion(NotRepresentableAs")]
fn from_int16_err_val_too_small() {
    Value::Int16(-1).try_convert_to_uint8().unwrap();
}

#[test]
#[should_panic(expected = "Conversion(NotRepresentableAs")]
fn from_int32_err_val_too_big() {
    Value::Int32(i32::MAX).try_convert_to_uint8().unwrap();
}

#[test]
#[should_panic(expected = "Conversion(NotRepresentableAs")]
fn from_int32_err_val_too_small() {
    Value::Int32(-1).try_convert_to_uint8().unwrap();
}

#[test]
#[should_panic(expected = "Conversion(NotRepresentableAs")]
fn from_int64_err_val_too_big() {
    Value::Int64(i64::MAX).try_convert_to_uint8().unwrap();
}

#[test]
#[should_panic(expected = "Conversion(NotRepresentableAs")]
fn from_int64_err_val_too_small() {
    Value::Int64(-1).try_convert_to_uint8().unwrap();
}

#[test]
#[should_panic(expected = "Conversion(NotRepresentableAs")]
fn from_int128_err_val_too_big() {
    Value::Int128(i128::MAX).try_convert_to_uint8().unwrap();
}

#[test]
#[should_panic(expected = "Conversion(NotRepresentableAs")]
fn from_int128_err_val_too_small() {
    Value::Int128(-1).try_convert_to_uint8().unwrap();
}

#[test]
#[should_panic(expected = "Conversion(NotRepresentableAs")]
fn from_float32_err_val_too_big() {
    Value::Float32(f32::to_bits(12345678.0)).try_convert_to_uint8().unwrap();
}

#[test]
#[should_panic(expected = "Conversion(NotRepresentableAs")]
fn from_float32_err_val_too_small() {
    Value::Float32(f32::to_bits(-1.0)).try_convert_to_uint8().unwrap();
}

#[test]
#[should_panic(expected = "Conversion(NotRepresentableAs")]
fn from_float32_err_val_uneven() {
    Value::Float32(f32::to_bits(1.5)).try_convert_to_uint8().unwrap();
}

#[test]
#[should_panic(expected = "Conversion(NotRepresentableAs")]
fn from_float64_err_val_too_big() {
    Value::Float64(f64::to_bits(f64::MAX as u128 as f64))
        .try_convert_to_uint8()
        .unwrap();
}

#[test]
#[should_panic(expected = "Conversion(NotRepresentableAs")]
fn from_float64_err_val_too_small() {
    Value::Float64(f64::to_bits(-1.0)).try_convert_to_uint8().unwrap();
}

#[test]
#[should_panic(expected = "Conversion(NotRepresentableAs")]
fn from_float64_err_val_uneven() {
    Value::Float64(f64::to_bits(1.5)).try_convert_to_uint8().unwrap();
}

#[test]
#[should_panic(expected = "Conversion(NotRepresentableAs")]
fn from_decimal_err_val_too_big() {
    Value::Decimal(Dec::new(123456, 0))
        .try_convert_to_uint8()
        .unwrap();
}

#[test]
#[should_panic(expected = "Conversion(NotRepresentableAs")]
fn from_decimal_err_val_too_small() {
    Value::Decimal(Dec::new(-1, 0))
        .try_convert_to_uint8()
        .unwrap();
}

#[test]
#[should_panic(expected = "Conversion(NotRepresentableAs")]
fn from_decimal_err_val_uneven() {
    Value::Decimal(Dec::new(15, 1))
        .try_convert_to_uint8()
        .unwrap();
}

#[test]
#[should_panic(expected = "Conversion(NotRepresentableAs")]
fn from_naive_date() {
    Value::NaiveDate(DateVal::from_ymd(2022, 12, 31))
        .try_convert_to_uint8()
        .unwrap();
}

#[test]
#[should_panic(expected = "Conversion(NotRepresentableAs")]
fn from_naive_date_time() {
    Value::NaiveDateTime(DateVal::from_ymd(2022, 12, 31).and_hms(10, 0, 0))
        .try_convert_to_uint8()
        .unwrap();
}

#[test]
#[should_panic(expected = "Conversion(NotRepresentableAs")]
fn from_date_time() {
    Value::DateTime(
        DateVal::from_ymd(2022, 12, 31).and_hms_milli(10, 0, 0, 100).with_offset(2 * 3600),
    )
    .try_convert_to_uint8()
    .unwrap();
}
