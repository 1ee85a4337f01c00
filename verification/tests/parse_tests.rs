use venum::dates::{DateTimeVal, DateVal, OffsetDateTimeVal};
use venum::decimal::Dec;
use venum::errors_result::{ConversionError, ParseError, VenumError};
use venum::value::Value;
use venum::value_type::ValueType;

fn dec_i(v: i128) -> Dec {
    let negative = v < 0;
    let mantissa: u128 = if negative { (-(v as i128)) as u128 } else { v as u128 };
    Dec { negative, mantissa, scale: 0 }
}

#[test]
fn parse_from_str_parse_int8_from_str() {
    assert_eq!(
        Ok(Value::Int8(i8::MAX)),
        Value::parse_int8_from_str(&i8::MAX.to_string())
    );
    assert_eq!(
        Ok(Value::Int8(i8::MIN)),
        Value::parse_int8_from_str(&i8::MIN.to_string())
    );
}



#[test]
fn parse_from_str_parse_int16_from_str() {
    assert_eq!(
        Ok(Value::Int16(i16::MAX)),
        Value::parse_int16_from_str(&i16::MAX.to_string())
    );
    assert_eq!(
        Ok(Value::Int16(i16::MIN)),
        Value::parse_int16_from_str(&i16::MIN.to_string())
    );
}



#[test]
fn parse_from_str_parse_int32_from_str() {
    assert_eq!(
        Ok(Value::Int32(i32::MAX)),
        Value::parse_int32_from_str(&i32::MAX.to_string())
    );
    assert_eq!(
        Ok(Value::Int32(i32::MIN)),
        Value::parse_int32_from_str(&i32::MIN.to_string())
    );
}



#[test]
fn parse_from_str_parse_int64_from_str() {
    assert_eq!(
        Ok(Value::Int64(i64::MAX)),
        Value::parse_int64_from_str(&i64::MAX.to_string())
    );
    assert_eq!(
        Ok(Value::Int64(i64::MIN)),
        Value::parse_int64_from_str(&i64::MIN.to_string())
    );
}



#[test]
fn parse_from_str_parse_int128_from_str() {
    assert_eq!(
        Ok(Value::Int128(i128::MAX)),
        Value::parse_int128_from_str(&i128::MAX.to_string())
    );
    assert_eq!(
        Ok(Value::Int128(i128::MIN)),
        Value::parse_int128_from_str(&i128::MIN.to_string())
    );
}



#[test]
fn parse_from_str_parse_uint8_from_str() {
    assert_eq!(
        Ok(Value::UInt8(u8::MAX)),
        Value::parse_uint8_from_str(&u8::MAX.to_string())
    );
    assert_eq!(
        Ok(Value::UInt8(u8::MIN)),
        Value::parse_uint8_from_str(&u8::MIN.to_string())
    );
}



#[test]
fn parse_from_str_parse_uint16_from_str() {
    assert_eq!(
        Ok(Value::UInt16(u16::MAX)),
        Value::parse_uint16_from_str(&u16::MAX.to_string())
    );
    assert_eq!(
        Ok(Value::UInt16(u16::MIN)),
        Value::parse_uint16_from_str(&u16::MIN.to_string())
    );
}



#[test]
fn parse_from_str_parse_uint32_from_str() {
    assert_eq!(
        Ok(Value::UInt32(u32::MAX)),
        Value::parse_uint32_from_str(&u32::MAX.to_string())
    );
    assert_eq!(
        Ok(Value::UInt32(u32::MIN)),
        Value::parse_uint32_from_str(&u32::MIN.to_string())
    );
}



#[test]
fn parse_from_str_parse_uint64_from_str() {
    assert_eq!(
        Ok(Value::UInt64(u64::MAX)),
        Value::parse_uint64_from_str(&u64::MAX.to_string())
    );
    assert_eq!(
        Ok(Value::UInt64(u64::MIN)),
        Value::parse_uint64_from_str(&u64::MIN.to_string())
    );
}



#[test]
fn parse_from_str_parse_uint128_from_str() {
    assert_eq!(
        Ok(Value::UInt128(u128::MAX)),
        Value::parse_uint128_from_str(&u128::MAX.to_string())
    );
    assert_eq!(
        Ok(Value::UInt128(u128::MIN)),
        Value::parse_uint128_from_str(&u128::MIN.to_string())
    );
}



#[test]
fn parse_from_str_parse_bool_from_str_true() {
    assert_eq!(Ok(Value::Bool(true)), Value::parse_bool_from_str("true"));
}



#[test]
fn parse_from_str_parse_bool_from_str_false() {
    assert_eq!(Ok(Value::Bool(false)), Value::parse_bool_from_str("false"));
}



#[test]
fn parse_from_str_parse_char_from_str() {
    assert_eq!(Ok(Value::Char('a')), Value::parse_char_from_str("a"));
    assert_eq!(Ok(Value::Char('1')), Value::parse_char_from_str("1"));
}



#[test]
fn parse_from_str_decimal_parse_decimal_from_str() {
    assert_eq!(
        Ok(Value::Decimal(Dec::new(1123, 3))),
        Value::parse_decimal_from_str("1.123")
    );
}



#[test]
fn parse_from_str_date_parse_naive_date_from_str_w_pattern() {
    let exp = DateVal::from_ymd(2022, 12, 31);

    assert_eq!(
        Ok(Value::NaiveDate(exp)),
        Value::parse_naive_date_from_str("2022-12-31", "%Y-%m-%d")
    );
    assert_eq!(
        Ok(Value::NaiveDate(exp)),
        Value::parse_naive_date_from_str("2022-12-31", "%F")
    );
}



#[test]
fn parse_from_str_date_parse_naive_date_from_str_iso8601_ymd() {
    let exp = DateVal::from_ymd(2022, 12, 31);

    assert_eq!(
        Ok(Value::NaiveDate(exp)),
        Value::parse_naive_date_from_str_iso8601_ymd("2022-12-31")
    );
}



#[test]
fn parse_from_str_date_parse_naive_date_time_from_str_w_pattern() {
    let exp = DateVal::from_ymd(2022, 12, 31).and_hms(12, 11, 10);

    assert_eq!(
        Ok(Value::NaiveDateTime(exp)),
        Value::parse_naive_date_time_from_str("2022-12-31 12:11:10", "%Y-%m-%d %H:%M:%S")
    );
    assert_eq!(
        Ok(Value::NaiveDateTime(exp)),
        Value::parse_naive_date_time_from_str("2022-12-31 12:11:10", "%F %T")
    );
}



#[test]
fn parse_from_str_date_parse_naive_date_time_from_str_iso8601_ymd_hms() {
    let exp = DateVal::from_ymd(2022, 12, 31).and_hms(12, 11, 10);
    assert_eq!(
        Ok(Value::NaiveDateTime(exp)),
        Value::parse_naive_date_time_from_str_iso8601_ymd_hms("2022-12-31T12:11:10")
    );
}



#[test]
fn parse_from_str_date_parse_naive_date_time_from_str_iso8601_ymd_hms_millies() {
    let exp = DateVal::from_ymd(2022, 12, 31).and_hms_milli(12, 11, 10, 100);
    assert_eq!(
        Ok(Value::NaiveDateTime(exp)),
        Value::parse_naive_date_time_from_str_iso8601_ymd_hms_millies(
            "2022-12-31T12:11:10.100"
        )
    );

    let exp = DateVal::from_ymd(2022, 12, 31).and_hms_milli(12, 11, 10, 0);
    assert_eq!(
        Ok(Value::NaiveDateTime(exp)),
        Value::parse_naive_date_time_from_str_iso8601_ymd_hms_millies(
            "2022-12-31T12:11:10.000"
        )
    );

    let exp = DateVal::from_ymd(2022, 12, 31).and_hms_milli(12, 11, 10, 0);
    assert_eq!(
        Ok(Value::NaiveDateTime(exp)),
        Value::parse_naive_date_time_from_str_iso8601_ymd_hms_millies(
            "2022-12-31T12:11:10"
        )
    );
}



#[test]
fn parse_from_str_date_parse_date_time_from_str_w_pattern() {
    let hour_secs = 3600;
    let exp = DateVal::from_ymd(2022, 12, 31).and_hms(6, 0, 0).with_offset(5 * hour_secs);

    let date_str = "2022-12-31T06:00:00+05:00";
    let res = Value::parse_date_time_from_str(date_str, "%FT%T%:z");
    assert_eq!(Ok(Value::DateTime(exp)), res);

}



#[test]
fn parse_from_str_date_parse_date_time_from_str_rfc3339_wo_millies() {
    let hour_secs = 3600;
    let exp = DateVal::from_ymd(2022, 12, 31).and_hms(6, 0, 0).with_offset(5 * hour_secs);

    let date_str = "2022-12-31T06:00:00+05:00";
    let res = Value::parse_date_time_from_str_rfc3339(date_str);
    assert_eq!(Ok(Value::DateTime(exp)), res);

}



#[test]
fn parse_from_str_date_parse_date_time_from_str_rfc3339_w_millies() {
    let hour_secs = 3600;
    let exp = DateVal::from_ymd(2022, 12, 31).and_hms_milli(6, 0, 0, 100).with_offset(5 * hour_secs);

    let date_str = "2022-12-31T06:00:00.100+05:00";
    let res = Value::parse_date_time_from_str_rfc3339(date_str);
    assert_eq!(Ok(Value::DateTime(exp)), res);

}



#[test]
fn parse_from_str_date_parse_date_time_from_str_rfc3339_w_millies_empty() {
    let hour_secs = 3600;
    let exp = DateVal::from_ymd(2022, 12, 31).and_hms_milli(6, 0, 0, 0).with_offset(5 * hour_secs);

    let date_str = "2022-12-31T06:00:00.000+05:00";
    let res = Value::parse_date_time_from_str_rfc3339(date_str);
    assert_eq!(Ok(Value::DateTime(exp)), res);

}



#[test]
fn parse_from_str_date_parse_date_time_from_str_rfc2822() {
    let hour_secs = 3600;
    let exp = DateVal::from_ymd(2003, 7, 1).and_hms(10, 52, 37).with_offset(2 * hour_secs);

    let date_str = "Tue, 01 Jul 2003 10:52:37 +0200";
    let res = Value::parse_date_time_from_str_rfc2822(date_str);
    assert_eq!(Ok(Value::DateTime(exp)), res);

}



#[test]
fn from_number_type_to_value_decimal_from_signed_ints_max_to_value_decimal() {
    assert_eq!(
        Value::Decimal(dec_i((i8::MAX) as i128)),
        Value::decimal_from_i8(i8::MAX)
    );
    assert_eq!(
        Value::Decimal(dec_i((i16::MAX) as i128)),
        Value::decimal_from_i16(i16::MAX)
    );
    assert_eq!(
        Value::Decimal(dec_i((i32::MAX) as i128)),
        Value::decimal_from_i32(i32::MAX)
    );
    assert_eq!(
        Value::Decimal(dec_i((i64::MAX) as i128)),
        Value::decimal_from_i64(i64::MAX)
    );
    assert_eq!(
        Value::Decimal(dec_i((128_i128) as i128)),
        Value::decimal_from_i128(128_i128).unwrap()
    );
    assert_eq!(
        Err(VenumError::Conversion(
            ConversionError::NotRepresentableAsDecimal {
                src_type: String::from("i128"),
                src_value: i128::MAX.to_string()
            }
        )),
        Value::decimal_from_i128(i128::MAX)
    );
}



#[test]
fn from_number_type_to_value_decimal_from_signed_ints_min_to_value_decimal() {
    assert_eq!(
        Value::Decimal(dec_i((i8::MIN) as i128)),
        Value::decimal_from_i8(i8::MIN)
    );
    assert_eq!(
        Value::Decimal(dec_i((i16::MIN) as i128)),
        Value::decimal_from_i16(i16::MIN)
    );
    assert_eq!(
        Value::Decimal(dec_i((i32::MIN) as i128)),
        Value::decimal_from_i32(i32::MIN)
    );
    assert_eq!(
        Value::Decimal(dec_i((i64::MIN) as i128)),
        Value::decimal_from_i64(i64::MIN)
    );
    assert_eq!(
        Value::Decimal(dec_i((-128_i128) as i128)),
        Value::decimal_from_i128(-128_i128).unwrap()
    );
    assert_eq!(
        Err(VenumError::Conversion(
            ConversionError::NotRepresentableAsDecimal {
                src_type: String::from("i128"),
                src_value: i128::MIN.to_string()
            }
        )),
        Value::decimal_from_i128(i128::MIN)
    );
}



#[test]
fn from_number_type_to_value_decimal_from_unsigned_ints_max_to_value_decimal() {
    assert_eq!(
        Value::Decimal(dec_i((u8::MAX) as i128)),
        Value::decimal_from_u8(u8::MAX)
    );
    assert_eq!(
        Value::Decimal(dec_i((u16::MAX) as i128)),
        Value::decimal_from_u16(u16::MAX)
    );
    assert_eq!(
        Value::Decimal(dec_i((u32::MAX) as i128)),
        Value::decimal_from_u32(u32::MAX)
    );
    assert_eq!(
        Value::Decimal(dec_i((u64::MAX) as i128)),
        Value::decimal_from_u64(u64::MAX)
    );
    assert_eq!(
        Value::Decimal(dec_i((128_u128) as i128)),
        Value::decimal_from_u128(128_u128).unwrap()
    );
    assert_eq!(
        Err(VenumError::Conversion(
            ConversionError::NotRepresentableAsDecimal {
                src_type: String::from("u128"),
                src_value: u128::MAX.to_string()
            }
        )),
        Value::decimal_from_u128(u128::MAX)
    );
}



#[test]
fn from_number_type_to_value_decimal_from_unsigned_ints_min_to_value_decimal() {
    assert_eq!(
        Value::Decimal(dec_i((u8::MIN) as i128)),
        Value::decimal_from_u8(u8::MIN)
    );
    assert_eq!(
        Value::Decimal(dec_i((u16::MIN) as i128)),
        Value::decimal_from_u16(u16::MIN)
    );
    assert_eq!(
        Value::Decimal(dec_i((u32::MIN) as i128)),
        Value::decimal_from_u32(u32::MIN)
    );
    assert_eq!(
        Value::Decimal(dec_i((u64::MIN) as i128)),
        Value::decimal_from_u64(u64::MIN)
    );
    assert_eq!(
        Value::Decimal(dec_i((u128::MIN) as i128)),
        Value::decimal_from_u128(u128::MIN).unwrap()
    );
}



#[test]
fn from_number_type_to_value_decimal_from_usize_isize_min_max() {
    assert_eq!(
        Value::Decimal(dec_i((usize::MIN) as i128)),
        Value::decimal_from_usize(usize::MIN)
    );
    assert_eq!(
        Value::Decimal(dec_i((usize::MAX) as i128)),
        Value::decimal_from_usize(usize::MAX)
    );
    assert_eq!(
        Value::Decimal(dec_i((isize::MIN) as i128)),
        Value::decimal_from_isize(isize::MIN)
    );
    assert_eq!(
        Value::Decimal(dec_i((isize::MAX) as i128)),
        Value::decimal_from_isize(isize::MAX)
    );
}



#[test]
fn conversions_from_str_and_type_int8_ok_none() {
    let test = Value::from_str_and_type("", &ValueType::Int8);
    assert_eq!(Ok(Value::Absent), test);
}



#[test]
fn conversions_from_str_and_type_int8_ok() {
    let test = Value::from_str_and_type("10", &ValueType::Int8);
    assert_eq!(Ok(Value::Int8(10)), test);
}



#[test]
fn conversions_from_str_and_type_with_chrono_naive_date_ok_none() {
    let test =
        Value::from_str_and_type_with_chrono_pattern("", &ValueType::NaiveDate, "%d.%m.%Y");
    assert_eq!(Ok(Value::Absent), test);
}



#[test]
fn conversions_from_str_and_type_with_chrono_naive_date_ok() {
    let test = Value::from_str_and_type_with_chrono_pattern(
        "31.12.2022",
        &ValueType::NaiveDate,
        "%d.%m.%Y",
    );
    assert_eq!(
        Ok(Value::NaiveDate(DateVal::from_ymd(2022, 12, 31))),
        test
    );
}



#[test]
fn venum_parse_from_str_parse_int8_from_str() {
    assert_eq!(Ok(Value::Int8(-1)), Value::parse_int8_from_str("-1"));
}



#[test]
fn venum_parse_from_str_parse_int16_from_str() {
    assert_eq!(Ok(Value::Int16(-1)), Value::parse_int16_from_str("-1"));
}



#[test]
fn venum_parse_from_str_parse_int32_from_str() {
    assert_eq!(Ok(Value::Int32(-1)), Value::parse_int32_from_str("-1"));
}



#[test]
fn venum_parse_from_str_parse_int64_from_str() {
    assert_eq!(Ok(Value::Int64(-1)), Value::parse_int64_from_str("-1"));
}



#[test]
fn venum_parse_from_str_parse_int128_from_str() {
    assert_eq!(Ok(Value::Int128(-1)), Value::parse_int128_from_str("-1"));
}



#[test]
fn venum_parse_from_str_parse_uint8_from_str() {
    assert_eq!(
        Ok(Value::UInt8(1)),
        Value::parse_uint8_from_str(&String::from("1"))
    );
}



#[test]
fn venum_parse_from_str_parse_uint16_from_str() {
    assert_eq!(Ok(Value::UInt16(1)), Value::parse_uint16_from_str("1"));
}



#[test]
fn venum_parse_from_str_parse_uint32_from_str() {
    assert_eq!(Ok(Value::UInt32(1)), Value::parse_uint32_from_str("1"));
}



#[test]
fn venum_parse_from_str_parse_uint64_from_str() {
    assert_eq!(Ok(Value::UInt64(1)), Value::parse_uint64_from_str("1"));
}



#[test]
fn venum_parse_from_str_parse_uint128_from_str() {
    assert_eq!(Ok(Value::UInt128(1)), Value::parse_uint128_from_str("1"));
}



#[test]
fn venum_parse_from_str_parse_bool_from_str() {
    assert_eq!(Ok(Value::Bool(true)), Value::parse_bool_from_str("true"));
}



#[test]
fn venum_parse_from_str_parse_char_from_str() {
    assert_eq!(Ok(Value::Char('a')), Value::parse_char_from_str("a"));
}



#[test]
fn venum_parse_from_str_decimal_parse_decimal_from_str() {
    assert_eq!(
        Ok(Value::Decimal(Dec::new(1123, 3))),
        Value::parse_decimal_from_str("1.123")
    );
}



#[test]
fn venum_parse_from_str_date_parse_naive_date_from_str_w_pattern() {
    let exp = DateVal::from_ymd(2022, 12, 31);

    assert_eq!(
        Ok(Value::NaiveDate(exp)),
        Value::parse_naive_date_from_str("2022-12-31", "%Y-%m-%d")
    );
    assert_eq!(
        Ok(Value::NaiveDate(exp)),
        Value::parse_naive_date_from_str("2022-12-31", "%F")
    );
}



#[test]
fn venum_parse_from_str_date_parse_naive_date_from_str_iso8601_ymd() {
    let exp = DateVal::from_ymd(2022, 12, 31);

    assert_eq!(
        Ok(Value::NaiveDate(exp)),
        Value::parse_naive_date_from_str_iso8601_ymd("2022-12-31")
    );
}



#[test]
fn venum_parse_from_str_date_parse_naive_date_time_from_str_w_pattern() {
    let exp = DateVal::from_ymd(2022, 12, 31).and_hms(12, 11, 10);

    assert_eq!(
        Ok(Value::NaiveDateTime(exp)),
        Value::parse_naive_date_time_from_str("2022-12-31 12:11:10", "%Y-%m-%d %H:%M:%S")
    );
    assert_eq!(
        Ok(Value::NaiveDateTime(exp)),
        Value::parse_naive_date_time_from_str("2022-12-31 12:11:10", "%F %T")
    );
}



#[test]
fn venum_parse_from_str_date_parse_date_time_from_str_w_pattern() {
    let hour_secs = 3600;
    let exp = DateVal::from_ymd(2022, 12, 31).and_hms(6, 0, 0).with_offset(5 * hour_secs);

    let date_str = "2022-12-31T06:00:00+05:00";
    let res = Value::parse_date_time_from_str(date_str, "%FT%T%:z");
    assert_eq!(Ok(Value::DateTime(exp)), res);

}



#[test]
fn venum_parse_from_str_date_parse_date_time_from_str_rfc3339() {
    let hour_secs = 3600;
    let exp = DateVal::from_ymd(2022, 12, 31).and_hms(6, 0, 0).with_offset(5 * hour_secs);

    let date_str = "2022-12-31T06:00:00+05:00";
    let res = Value::parse_date_time_from_str_rfc3339(date_str);
    assert_eq!(Ok(Value::DateTime(exp)), res);

}



#[test]
fn venum_parse_from_str_date_parse_date_time_from_str_rfc2822() {
    let hour_secs = 3600;
    let exp = DateVal::from_ymd(2003, 7, 1).and_hms(10, 52, 37).with_offset(2 * hour_secs);

    let date_str = "Tue, 01 Jul 2003 10:52:37 +0200";
    let res = Value::parse_date_time_from_str_rfc2822(date_str);
    assert_eq!(Ok(Value::DateTime(exp)), res);

}



#[test]
fn venum_from_number_type_to_value_decimal_from_signed_ints_max_to_value_decimal() {
    assert_eq!(
        Value::Decimal(dec_i((i8::MAX) as i128)),
        Value::decimal_from_i8(i8::MAX)
    );
    assert_eq!(
        Value::Decimal(dec_i((i16::MAX) as i128)),
        Value::decimal_from_i16(i16::MAX)
    );
    assert_eq!(
        Value::Decimal(dec_i((i32::MAX) as i128)),
        Value::decimal_from_i32(i32::MAX)
    );
    assert_eq!(
        Value::Decimal(dec_i((i64::MAX) as i128)),
        Value::decimal_from_i64(i64::MAX)
    );
    assert_eq!(
        Value::Decimal(dec_i((128_i128) as i128)),
        Value::decimal_from_i128(128_i128).unwrap()
    );
    assert_eq!(
        Err(VenumError::Conversion(
            ConversionError::NotRepresentableAsDecimal {
                src_type: String::from("i128"),
                src_value: i128::MAX.to_string()
            }
        )),
        Value::decimal_from_i128(i128::MAX)
    );
}



#[test]
fn venum_from_number_type_to_value_decimal_from_signed_ints_min_to_value_decimal() {
    assert_eq!(
        Value::Decimal(dec_i((i8::MIN) as i128)),
        Value::decimal_from_i8(i8::MIN)
    );
    assert_eq!(
        Value::Decimal(dec_i((i16::MIN) as i128)),
        Value::decimal_from_i16(i16::MIN)
    );
    assert_eq!(
        Value::Decimal(dec_i((i32::MIN) as i128)),
        Value::decimal_from_i32(i32::MIN)
    );
    assert_eq!(
        Value::Decimal(dec_i((i64::MIN) as i128)),
        Value::decimal_from_i64(i64::MIN)
    );
    assert_eq!(
        Value::Decimal(dec_i((-128_i128) as i128)),
        Value::decimal_from_i128(-128_i128).unwrap()
    );
    assert_eq!(
        Err(VenumError::Conversion(
            ConversionError::NotRepresentableAsDecimal {
                src_type: String::from("i128"),
                src_value: i128::MIN.to_string()
            }
        )),
        Value::decimal_from_i128(i128::MIN)
    );
}



#[test]
fn venum_from_number_type_to_value_decimal_from_unsigned_ints_max_to_value_decimal() {
    assert_eq!(
        Value::Decimal(dec_i((u8::MAX) as i128)),
        Value::decimal_from_u8(u8::MAX)
    );
    assert_eq!(
        Value::Decimal(dec_i((u16::MAX) as i128)),
        Value::decimal_from_u16(u16::MAX)
    );
    assert_eq!(
        Value::Decimal(dec_i((u32::MAX) as i128)),
        Value::decimal_from_u32(u32::MAX)
    );
    assert_eq!(
        Value::Decimal(dec_i((u64::MAX) as i128)),
        Value::decimal_from_u64(u64::MAX)
    );
    assert_eq!(
        Value::Decimal(dec_i((128_u128) as i128)),
        Value::decimal_from_u128(128_u128).unwrap()
    );
    assert_eq!(
        Err(VenumError::Conversion(
            ConversionError::NotRepresentableAsDecimal {
                src_type: String::from("u128"),
                src_value: u128::MAX.to_string()
            }
        )),
        Value::decimal_from_u128(u128::MAX)
    );
}



#[test]
fn venum_from_number_type_to_value_decimal_from_unsigned_ints_min_to_value_decimal() {
    assert_eq!(
        Value::Decimal(dec_i((u8::MIN) as i128)),
        Value::decimal_from_u8(u8::MIN)
    );
    assert_eq!(
        Value::Decimal(dec_i((u16::MIN) as i128)),
        Value::decimal_from_u16(u16::MIN)
    );
    assert_eq!(
        Value::Decimal(dec_i((u32::MIN) as i128)),
        Value::decimal_from_u32(u32::MIN)
    );
    assert_eq!(
        Value::Decimal(dec_i((u64::MIN) as i128)),
        Value::decimal_from_u64(u64::MIN)
    );
    assert_eq!(
        Value::Decimal(dec_i((u128::MIN) as i128)),
        Value::decimal_from_u128(u128::MIN).unwrap()
    );
}



#[test]
fn venum_from_number_type_to_value_decimal_from_usize_isize_min_max() {
    assert_eq!(
        Value::Decimal(dec_i((usize::MIN) as i128)),
        Value::decimal_from_usize(usize::MIN)
    );
    assert_eq!(
        Value::Decimal(dec_i((usize::MAX) as i128)),
        Value::decimal_from_usize(usize::MAX)
    );
    assert_eq!(
        Value::Decimal(dec_i((isize::MIN) as i128)),
        Value::decimal_from_isize(isize::MIN)
    );
    assert_eq!(
        Value::Decimal(dec_i((isize::MAX) as i128)),
        Value::decimal_from_isize(isize::MAX)
    );
}



#[test]
fn venum_conversions_from_str_and_type_int8_ok_none() {
    let test = Value::from_str_and_type("", &ValueType::Int8);
    assert_eq!(Ok(Value::Absent), test);
}



#[test]
fn venum_conversions_from_str_and_type_int8_ok() {
    let test = Value::from_str_and_type("10", &ValueType::Int8);
    assert_eq!(Ok(Value::Int8(10)), test);
}



#[test]
fn venum_conversions_from_str_and_type_with_chrono_naive_date_ok_none() {
    let test =
        Value::from_str_and_type_with_chrono_pattern("", &ValueType::NaiveDate, "%d.%m.%Y");
    assert_eq!(Ok(Value::Absent), test);
}



#[test]
fn venum_conversions_from_str_and_type_with_chrono_naive_date_ok() {
    let test = Value::from_str_and_type_with_chrono_pattern(
        "31.12.2022",
        &ValueType::NaiveDate,
        "%d.%m.%Y",
    );
    assert_eq!(
        Ok(Value::NaiveDate(DateVal::from_ymd(2022, 12, 31))),
        test
    );
}
