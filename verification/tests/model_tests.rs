use venum::dates::{DateTimeVal, DateVal, OffsetDateTimeVal};
use venum::decimal::Dec;
use venum::errors_result::{ConversionError, ParseError, VenumError};
use venum::value::Value;
use venum::value_type::ValueType;

fn dec_i(v: i128) -> Dec {
    let negative = v < 0;
    let mantissa: u128 = if negative { (-(v as i128)) as u128 } else { v as u128 };
    Dec { negative, mantissa, scale: 0 }
}

#[test]
fn default_values_char_default() {
    assert_eq!(Value::Char('\0'), Value::char_default());
}

#[test]
fn default_values_string_default() {
    assert_eq!(Value::String("".to_string()), Value::string_default());
}

#[test]
fn default_values_int8_default() {
    assert_eq!(Value::Int8(0), Value::int8_default());
}

#[test]
fn default_values_int16_default() {
    assert_eq!(Value::Int16(0), Value::int16_default());
}

#[test]
fn default_values_int32_default() {
    assert_eq!(Value::Int32(0), Value::int32_default());
}

#[test]
fn default_values_int64_default() {
    assert_eq!(Value::Int64(0), Value::int64_default());
}

#[test]
fn default_values_int128_default() {
    assert_eq!(Value::Int128(0), Value::int128_default());
}

#[test]
fn default_values_uint8_default() {
    assert_eq!(Value::UInt8(0), Value::uint8_default());
}

#[test]
fn default_values_uint16_default() {
    assert_eq!(Value::UInt16(0), Value::uint16_default());
}

#[test]
fn default_values_uint32_default() {
    assert_eq!(Value::UInt32(0), Value::uint32_default());
}

#[test]
fn default_values_uint64_default() {
    assert_eq!(Value::UInt64(0), Value::uint64_default());
}

#[test]
fn default_values_uint128_default() {
    assert_eq!(Value::UInt128(0), Value::uint128_default());
}

#[test]
fn default_values_float32_default() {
    assert_eq!(Value::Float32(f32::to_bits(0.0)), Value::float32_default());
}

#[test]
fn default_values_float64_default() {
    assert_eq!(Value::Float64(f64::to_bits(0.0)), Value::float64_default());
}

#[test]
fn default_values_bool_default() {
    assert_eq!(Value::Bool(false), Value::bool_default());
}

#[test]
fn default_values_decimal_default() {
    assert_eq!(
        Value::Decimal(Dec::new(00, 1)),
        Value::decimal_default()
    );
}

#[test]
fn default_values_naive_date_default() {
    assert_eq!(
        Value::NaiveDate(DateVal::from_ymd(1970, 01, 01)),
        Value::naive_date_default()
    );
}

#[test]
fn default_values_naive_date_time_default() {
    assert_eq!(
        Value::NaiveDateTime(DateVal::from_ymd(1970, 01, 01).and_hms(00, 00, 00)),
        Value::naive_date_time_default()
    );
}

#[test]
fn default_values_date_time_default() {
    let exp = DateVal::from_ymd(1970, 01, 01).and_hms(0, 0, 0).with_offset(0);
    assert_eq!(Value::DateTime(exp), Value::date_time_default());
}

#[test]
fn impl_from_type_for_value() {
assert_eq!(
    Value::String(String::from("foobar")),
    Value::from(String::from("foobar"))
);

assert_eq!(Value::Char('a'), Value::from('a'));

assert_eq!(Value::Int8(0), Value::from(0i8));
assert_eq!(Value::Int16(0), Value::from(0i16));
assert_eq!(Value::Int32(0), Value::from(0i32));
assert_eq!(Value::Int64(0), Value::from(0i64));
assert_eq!(Value::Int128(0), Value::from(0i128));

assert_eq!(Value::UInt8(0), Value::from(0u8));
assert_eq!(Value::UInt16(0), Value::from(0u16));
assert_eq!(Value::UInt32(0), Value::from(0u32));
assert_eq!(Value::UInt64(0), Value::from(0u64));
assert_eq!(Value::UInt128(0), Value::from(0u128));

assert_eq!(Value::Bool(true), Value::from(true));

assert_eq!(
    Value::Decimal(Dec::new(00, 1)),
    Value::from(Dec::new(00, 1))
);

assert_eq!(
    Value::NaiveDate(DateVal::from_ymd(2022, 12, 31)),
    Value::from(DateVal::from_ymd(2022, 12, 31))
);
assert_eq!(
    Value::NaiveDateTime(DateVal::from_ymd(2022, 12, 31).and_hms(12, 0, 0)),
    Value::from(DateVal::from_ymd(2022, 12, 31).and_hms(12, 0, 0))
);

let d = DateVal::from_ymd(2022, 12, 31).and_hms_milli(6, 0, 0, 0).with_offset(5 * 3600);

assert_eq!(Value::DateTime(d), Value::from(d));
}

#[test]
fn venum_value_variant_default_val_from_value_type_variant() {
assert_eq!(Value::char_default(), ValueType::Char.into());
assert_eq!(Value::string_default(), ValueType::String.into());
assert_eq!(Value::int8_default(), ValueType::Int8.into());
assert_eq!(Value::int16_default(), ValueType::Int16.into());
assert_eq!(Value::int32_default(), ValueType::Int32.into());
assert_eq!(Value::int64_default(), ValueType::Int64.into());
assert_eq!(Value::int128_default(), ValueType::Int128.into());
assert_eq!(Value::uint8_default(), ValueType::UInt8.into());
assert_eq!(Value::uint16_default(), ValueType::UInt16.into());
assert_eq!(Value::uint32_default(), ValueType::UInt32.into());
assert_eq!(Value::uint64_default(), ValueType::UInt64.into());
assert_eq!(Value::uint128_default(), ValueType::UInt128.into());
assert_eq!(Value::float32_default(), ValueType::Float32.into());
assert_eq!(Value::float64_default(), ValueType::Float64.into());
assert_eq!(Value::bool_default(), ValueType::Bool.into());
assert_eq!(Value::decimal_default(), ValueType::Decimal.into());
assert_eq!(Value::naive_date_default(), ValueType::NaiveDate.into());
assert_eq!(
    Value::naive_date_time_default(),
    ValueType::NaiveDateTime.into()
);
assert_eq!(Value::date_time_default(), ValueType::DateTime.into());
}

#[test]
fn venum_value_variant_default_val_from_value_type_variant_ref() {
assert_eq!(Value::char_default(), (&ValueType::Char).into());
assert_eq!(Value::string_default(), (&ValueType::String).into());
assert_eq!(Value::int8_default(), (&ValueType::Int8).into());
assert_eq!(Value::int16_default(), (&ValueType::Int16).into());
assert_eq!(Value::int32_default(), (&ValueType::Int32).into());
assert_eq!(Value::int64_default(), (&ValueType::Int64).into());
assert_eq!(Value::int128_default(), (&ValueType::Int128).into());
assert_eq!(Value::uint8_default(), (&ValueType::UInt8).into());
assert_eq!(Value::uint16_default(), (&ValueType::UInt16).into());
assert_eq!(Value::uint32_default(), (&ValueType::UInt32).into());
assert_eq!(Value::uint64_default(), (&ValueType::UInt64).into());
assert_eq!(Value::uint128_default(), (&ValueType::UInt128).into());
assert_eq!(Value::float32_default(), (&ValueType::Float32).into());
assert_eq!(Value::float64_default(), (&ValueType::Float64).into());
assert_eq!(Value::bool_default(), (&ValueType::Bool).into());
assert_eq!(Value::decimal_default(), (&ValueType::Decimal).into());
assert_eq!(Value::naive_date_default(), (&ValueType::NaiveDate).into());
assert_eq!(
    Value::naive_date_time_default(),
    (&ValueType::NaiveDateTime).into()
);
assert_eq!(Value::date_time_default(), (&ValueType::DateTime).into());
}

#[test]
fn venum_value_type_from_venum_value_variant_name_for_value() {
    assert_eq!(Value::char_default(), ValueType::Char.into());
    assert_eq!(Value::string_default(), ValueType::String.into());
    assert_eq!(Value::int8_default(), ValueType::Int8.into());
    assert_eq!(Value::int16_default(), ValueType::Int16.into());
    assert_eq!(Value::int32_default(), ValueType::Int32.into());
    assert_eq!(Value::int64_default(), ValueType::Int64.into());
    assert_eq!(Value::int128_default(), ValueType::Int128.into());
    assert_eq!(Value::uint8_default(), ValueType::UInt8.into());
    assert_eq!(Value::uint16_default(), ValueType::UInt16.into());
    assert_eq!(Value::uint32_default(), ValueType::UInt32.into());
    assert_eq!(Value::uint64_default(), ValueType::UInt64.into());
    assert_eq!(Value::uint128_default(), ValueType::UInt128.into());
    assert_eq!(Value::float32_default(), ValueType::Float32.into());
    assert_eq!(Value::float64_default(), ValueType::Float64.into());
    assert_eq!(Value::bool_default(), ValueType::Bool.into());
    assert_eq!(Value::decimal_default(), ValueType::Decimal.into());
    assert_eq!(Value::naive_date_default(), ValueType::NaiveDate.into());
    assert_eq!(
        Value::naive_date_time_default(),
        ValueType::NaiveDateTime.into()
    );
    assert_eq!(Value::date_time_default(), ValueType::DateTime.into());
}

#[test]
fn venum_value_type_from_venum_value_variant_name_ref_for_value() {
    assert_eq!(Value::char_default(), (&ValueType::Char).into());
    assert_eq!(Value::string_default(), (&ValueType::String).into());
    assert_eq!(Value::int8_default(), (&ValueType::Int8).into());
    assert_eq!(Value::int16_default(), (&ValueType::Int16).into());
    assert_eq!(Value::int32_default(), (&ValueType::Int32).into());
    assert_eq!(Value::int64_default(), (&ValueType::Int64).into());
    assert_eq!(Value::int128_default(), (&ValueType::Int128).into());
    assert_eq!(Value::uint8_default(), (&ValueType::UInt8).into());
    assert_eq!(Value::uint16_default(), (&ValueType::UInt16).into());
    assert_eq!(Value::uint32_default(), (&ValueType::UInt32).into());
    assert_eq!(Value::uint64_default(), (&ValueType::UInt64).into());
    assert_eq!(Value::uint128_default(), (&ValueType::UInt128).into());
    assert_eq!(Value::float32_default(), (&ValueType::Float32).into());
    assert_eq!(Value::float64_default(), (&ValueType::Float64).into());
    assert_eq!(Value::bool_default(), (&ValueType::Bool).into());
    assert_eq!(Value::decimal_default(), (&ValueType::Decimal).into());
    assert_eq!(Value::naive_date_default(), (&ValueType::NaiveDate).into());
    assert_eq!(
        Value::naive_date_time_default(),
        (&ValueType::NaiveDateTime).into()
    );
    assert_eq!(Value::date_time_default(), (&ValueType::DateTime).into());
}

#[test]
fn venum_default_values_char_default() {
    assert_eq!(Value::Char('\0'), Value::char_default());
}

#[test]
fn venum_default_values_string_default() {
    assert_eq!(Value::String("".to_string()), Value::string_default());
}

#[test]
fn venum_default_values_int8_default() {
    assert_eq!(Value::Int8(0), Value::int8_default());
}

#[test]
fn venum_default_values_int16_default() {
    assert_eq!(Value::Int16(0), Value::int16_default());
}

#[test]
fn venum_default_values_int32_default() {
    assert_eq!(Value::Int32(0), Value::int32_default());
}

#[test]
fn venum_default_values_int64_default() {
    assert_eq!(Value::Int64(0), Value::int64_default());
}

#[test]
fn venum_default_values_int128_default() {
    assert_eq!(Value::Int128(0), Value::int128_default());
}

#[test]
fn venum_default_values_uint8_default() {
    assert_eq!(Value::UInt8(0), Value::uint8_default());
}

#[test]
fn venum_default_values_uint16_default() {
    assert_eq!(Value::UInt16(0), Value::uint16_default());
}

#[test]
fn venum_default_values_uint32_default() {
    assert_eq!(Value::UInt32(0), Value::uint32_default());
}

#[test]
fn venum_default_values_uint64_default() {
    assert_eq!(Value::UInt64(0), Value::uint64_default());
}

#[test]
fn venum_default_values_uint128_default() {
    assert_eq!(Value::UInt128(0), Value::uint128_default());
}

#[test]
fn venum_default_values_float32_default() {
    assert_eq!(Value::Float32(f32::to_bits(0.0)), Value::float32_default());
}

#[test]
fn venum_default_values_float64_default() {
    assert_eq!(Value::Float64(f64::to_bits(0.0)), Value::float64_default());
}

#[test]
fn venum_default_values_bool_default() {
    assert_eq!(Value::Bool(false), Value::bool_default());
}

#[test]
fn venum_default_values_decimal_default() {
    assert_eq!(
        Value::Decimal(Dec::new(00, 1)),
        Value::decimal_default()
    );
}

#[test]
fn venum_default_values_naive_date_default() {
    assert_eq!(
        Value::NaiveDate(DateVal::from_ymd(1970, 01, 01)),
        Value::naive_date_default()
    );
}

#[test]
fn venum_default_values_naive_date_time_default() {
    assert_eq!(
        Value::NaiveDateTime(DateVal::from_ymd(1970, 01, 01).and_hms(00, 00, 00)),
        Value::naive_date_time_default()
    );
}

#[test]
fn venum_default_values_date_time_default() {
    let exp = DateVal::from_ymd(1970, 01, 01).and_hms(0, 0, 0).with_offset(0);
    assert_eq!(Value::DateTime(exp), Value::date_time_default());
}
