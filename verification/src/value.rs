use vstd::prelude::*;

use vstd::string::StringExecFns;

use crate::dates::{DateTimeVal, DateVal, OffsetDateTimeVal};
use crate::decimal::Dec;
use crate::errors_result::{not_rep_dec_v, res_v, ConversionError, VenumError, VenumErrorV};
use crate::text::{int_render_of, render_signed, render_u128};
use crate::value_type::ValueType;

verus! {

/// A runtime-typed scalar: exactly one payload of one of the nineteen
/// kinds, or the distinguished absent marker that carries no type.
/// The two floating-point payloads hold IEEE 754 bit patterns.
#[derive(Debug, Clone, PartialEq)]
pub enum Value {
    Absent,
    Char(char),
    String(String),
    Int8(i8),
    Int16(i16),
    Int32(i32),
    Int64(i64),
    Int128(i128),
    UInt8(u8),
    UInt16(u16),
    UInt32(u32),
    UInt64(u64),
    UInt128(u128),
    Float32(u32),
    Float64(u64),
    Bool(bool),
    Decimal(Dec),
    NaiveDate(DateVal),
    NaiveDateTime(DateTimeVal),
    DateTime(OffsetDateTimeVal),
}

/// The mathematical reading of a `Value`: the same payloads, with text as a
/// sequence of characters.
pub enum ValueV {
    Absent,
    Char(char),
    String(Seq<char>),
    Int8(i8),
    Int16(i16),
    Int32(i32),
    Int64(i64),
    Int128(i128),
    UInt8(u8),
    UInt16(u16),
    UInt32(u32),
    UInt64(u64),
    UInt128(u128),
    Float32(u32),
    Float64(u64),
    Bool(bool),
    Decimal(Dec),
    NaiveDate(DateVal),
    NaiveDateTime(DateTimeVal),
    DateTime(OffsetDateTimeVal),
}

impl View for Value {
    type V = ValueV;

    open spec fn view(&self) -> ValueV {
        match self {
            Value::Absent => ValueV::Absent,
            Value::Char(x) => ValueV::Char(*x),
            Value::String(x) => ValueV::String(x@),
            Value::Int8(x) => ValueV::Int8(*x),
            Value::Int16(x) => ValueV::Int16(*x),
            Value::Int32(x) => ValueV::Int32(*x),
            Value::Int64(x) => ValueV::Int64(*x),
            Value::Int128(x) => ValueV::Int128(*x),
            Value::UInt8(x) => ValueV::UInt8(*x),
            Value::UInt16(x) => ValueV::UInt16(*x),
            Value::UInt32(x) => ValueV::UInt32(*x),
            Value::UInt64(x) => ValueV::UInt64(*x),
            Value::UInt128(x) => ValueV::UInt128(*x),
            Value::Float32(x) => ValueV::Float32(*x),
            Value::Float64(x) => ValueV::Float64(*x),
            Value::Bool(x) => ValueV::Bool(*x),
            Value::Decimal(x) => ValueV::Decimal(*x),
            Value::NaiveDate(x) => ValueV::NaiveDate(*x),
            Value::NaiveDateTime(x) => ValueV::NaiveDateTime(*x),
            Value::DateTime(x) => ValueV::DateTime(*x),
        }
    }
}

/// The payload invariants every value the library hands out satisfies:
/// decimals carry at most 96 mantissa bits and a scale of at most 28, and
/// calendar payloads are real dates and times.
pub open spec fn wf_value(v: ValueV) -> bool {
    match v {
        ValueV::Decimal(d) => d.wf(),
        ValueV::NaiveDate(d) => d.wf(),
        ValueV::NaiveDateTime(d) => d.wf(),
        ValueV::DateTime(d) => d.wf(),
        _ => true,
    }
}

/// The type tag of a value; the absent marker has none.
pub open spec fn spec_value_type(v: ValueV) -> Option<ValueType> {
    match v {
        ValueV::Absent => None,
        ValueV::Char(_) => Some(ValueType::Char),
        ValueV::String(_) => Some(ValueType::String),
        ValueV::Int8(_) => Some(ValueType::Int8),
        ValueV::Int16(_) => Some(ValueType::Int16),
        ValueV::Int32(_) => Some(ValueType::Int32),
        ValueV::Int64(_) => Some(ValueType::Int64),
        ValueV::Int128(_) => Some(ValueType::Int128),
        ValueV::UInt8(_) => Some(ValueType::UInt8),
        ValueV::UInt16(_) => Some(ValueType::UInt16),
        ValueV::UInt32(_) => Some(ValueType::UInt32),
        ValueV::UInt64(_) => Some(ValueType::UInt64),
        ValueV::UInt128(_) => Some(ValueType::UInt128),
        ValueV::Float32(_) => Some(ValueType::Float32),
        ValueV::Float64(_) => Some(ValueType::Float64),
        ValueV::Bool(_) => Some(ValueType::Bool),
        ValueV::Decimal(_) => Some(ValueType::Decimal),
        ValueV::NaiveDate(_) => Some(ValueType::NaiveDate),
        ValueV::NaiveDateTime(_) => Some(ValueType::NaiveDateTime),
        ValueV::DateTime(_) => Some(ValueType::DateTime),
    }
}

impl Value {
    /// An identical value: the payload is copied or cloned unchanged.
    pub fn duplicate(&self) -> (r: Value)
        ensures
            r == *self,
    {
        match self {
            Value::Absent => Value::Absent,
            Value::Char(x) => Value::Char(*x),
            Value::String(x) => Value::String(x.clone()),
            Value::Int8(x) => Value::Int8(*x),
            Value::Int16(x) => Value::Int16(*x),
            Value::Int32(x) => Value::Int32(*x),
            Value::Int64(x) => Value::Int64(*x),
            Value::Int128(x) => Value::Int128(*x),
            Value::UInt8(x) => Value::UInt8(*x),
            Value::UInt16(x) => Value::UInt16(*x),
            Value::UInt32(x) => Value::UInt32(*x),
            Value::UInt64(x) => Value::UInt64(*x),
            Value::UInt128(x) => Value::UInt128(*x),
            Value::Float32(x) => Value::Float32(*x),
            Value::Float64(x) => Value::Float64(*x),
            Value::Bool(x) => Value::Bool(*x),
            Value::Decimal(x) => Value::Decimal(*x),
            Value::NaiveDate(x) => Value::NaiveDate(*x),
            Value::NaiveDateTime(x) => Value::NaiveDateTime(*x),
            Value::DateTime(x) => Value::DateTime(*x),
        }
    }

    /// True only for the absent marker.
    pub fn is_none(&self) -> (r: bool)
        ensures
            r == (self@ is Absent),
    {
        matches!(self, Value::Absent)
    }

    /// True for every payload-carrying value.
    pub fn is_some(&self) -> (r: bool)
        ensures
            r == !(self@ is Absent),
    {
        !self.is_none()
    }

    /// True when the value holds a `Char` payload.
    pub fn is_char(&self) -> (r: bool)
        ensures
            r == (self@ is Char),
    {
        matches!(self, Value::Char(_))
    }

    /// True when the value holds a `String` payload.
    pub fn is_string(&self) -> (r: bool)
        ensures
            r == (self@ is String),
    {
        matches!(self, Value::String(_))
    }

    /// True when the value holds a `Int8` payload.
    pub fn is_int8(&self) -> (r: bool)
        ensures
            r == (self@ is Int8),
    {
        matches!(self, Value::Int8(_))
    }

    /// True when the value holds a `Int16` payload.
    pub fn is_int16(&self) -> (r: bool)
        ensures
            r == (self@ is Int16),
    {
        matches!(self, Value::Int16(_))
    }

    /// True when the value holds a `Int32` payload.
    pub fn is_int32(&self) -> (r: bool)
        ensures
            r == (self@ is Int32),
    {
        matches!(self, Value::Int32(_))
    }

    /// True when the value holds a `Int64` payload.
    pub fn is_int64(&self) -> (r: bool)
        ensures
            r == (self@ is Int64),
    {
        matches!(self, Value::Int64(_))
    }

    /// True when the value holds a `Int128` payload.
    pub fn is_int128(&self) -> (r: bool)
        ensures
            r == (self@ is Int128),
    {
        matches!(self, Value::Int128(_))
    }

    /// True when the value holds a `UInt8` payload.
    pub fn is_uint8(&self) -> (r: bool)
        ensures
            r == (self@ is UInt8),
    {
        matches!(self, Value::UInt8(_))
    }

    /// True when the value holds a `UInt16` payload.
    pub fn is_uint16(&self) -> (r: bool)
        ensures
            r == (self@ is UInt16),
    {
        matches!(self, Value::UInt16(_))
    }

    /// True when the value holds a `UInt32` payload.
    pub fn is_uint32(&self) -> (r: bool)
        ensures
            r == (self@ is UInt32),
    {
        matches!(self, Value::UInt32(_))
    }

    /// True when the value holds a `UInt64` payload.
    pub fn is_uint64(&self) -> (r: bool)
        ensures
            r == (self@ is UInt64),
    {
        matches!(self, Value::UInt64(_))
    }

    /// True when the value holds a `UInt128` payload.
    pub fn is_uint128(&self) -> (r: bool)
        ensures
            r == (self@ is UInt128),
    {
        matches!(self, Value::UInt128(_))
    }

    /// True when the value holds a `Float32` payload.
    pub fn is_float32(&self) -> (r: bool)
        ensures
            r == (self@ is Float32),
    {
        matches!(self, Value::Float32(_))
    }

    /// True when the value holds a `Float64` payload.
    pub fn is_float64(&self) -> (r: bool)
        ensures
            r == (self@ is Float64),
    {
        matches!(self, Value::Float64(_))
    }

    /// True when the value holds a `Bool` payload.
    pub fn is_bool(&self) -> (r: bool)
        ensures
            r == (self@ is Bool),
    {
        matches!(self, Value::Bool(_))
    }

    /// True when the value holds a `Decimal` payload.
    pub fn is_decimal(&self) -> (r: bool)
        ensures
            r == (self@ is Decimal),
    {
        matches!(self, Value::Decimal(_))
    }

    /// True when the value holds a `NaiveDate` payload.
    pub fn is_naive_date(&self) -> (r: bool)
        ensures
            r == (self@ is NaiveDate),
    {
        matches!(self, Value::NaiveDate(_))
    }

    /// True when the value holds a `NaiveDateTime` payload.
    pub fn is_naive_date_time(&self) -> (r: bool)
        ensures
            r == (self@ is NaiveDateTime),
    {
        matches!(self, Value::NaiveDateTime(_))
    }

    /// True when the value holds a `DateTime` payload.
    pub fn is_date_time(&self) -> (r: bool)
        ensures
            r == (self@ is DateTime),
    {
        matches!(self, Value::DateTime(_))
    }

    /// True for the three calendar payloads.
    pub fn is_some_date_type(&self) -> (r: bool)
        ensures
            r == (self@ is NaiveDate || self@ is NaiveDateTime || self@ is DateTime),
    {
        self.is_naive_date() || self.is_naive_date_time() || self.is_date_time()
    }

    /// True for the five signed integer payloads.
    pub fn is_some_signed_int_type(&self) -> (r: bool)
        ensures
            r == (self@ is Int8 || self@ is Int16 || self@ is Int32 || self@ is Int64
                || self@ is Int128),
    {
        self.is_int8() || self.is_int16() || self.is_int32() || self.is_int64() || self.is_int128()
    }

    /// True for the five unsigned integer payloads.
    pub fn is_some_unsigned_int_type(&self) -> (r: bool)
        ensures
            r == (self@ is UInt8 || self@ is UInt16 || self@ is UInt32 || self@ is UInt64
                || self@ is UInt128),
    {
        self.is_uint8() || self.is_uint16() || self.is_uint32() || self.is_uint64()
            || self.is_uint128()
    }

    /// True for all ten integer payloads.
    pub fn is_some_int_type(&self) -> (r: bool)
        ensures
            r == (self@ is Int8 || self@ is Int16 || self@ is Int32 || self@ is Int64
                || self@ is Int128 || self@ is UInt8 || self@ is UInt16 || self@ is UInt32
                || self@ is UInt64 || self@ is UInt128),
    {
        self.is_some_signed_int_type() || self.is_some_unsigned_int_type()
    }

    /// True for the two floating-point payloads.
    pub fn is_some_float_type(&self) -> (r: bool)
        ensures
            r == (self@ is Float32 || self@ is Float64),
    {
        self.is_float32() || self.is_float64()
    }

    /// The canonical default `Char` value.
    pub fn char_default() -> (r: Value)
        ensures
            r@ == ValueV::Char('\0'),
            wf_value(r@),
    {
        Value::Char('\0')
    }

    /// The canonical default `String` value.
    pub fn string_default() -> (r: Value)
        ensures
            r@ == ValueV::String(Seq::<char>::empty()),
            wf_value(r@),
    {
        Value::String(String::new())
    }

    /// The canonical default `Int8` value.
    pub fn int8_default() -> (r: Value)
        ensures
            r@ == ValueV::Int8(0),
            wf_value(r@),
    {
        Value::Int8(0)
    }

    /// The canonical default `Int16` value.
    pub fn int16_default() -> (r: Value)
        ensures
            r@ == ValueV::Int16(0),
            wf_value(r@),
    {
        Value::Int16(0)
    }

    /// The canonical default `Int32` value.
    pub fn int32_default() -> (r: Value)
        ensures
            r@ == ValueV::Int32(0),
            wf_value(r@),
    {
        Value::Int32(0)
    }

    /// The canonical default `Int64` value.
    pub fn int64_default() -> (r: Value)
        ensures
            r@ == ValueV::Int64(0),
            wf_value(r@),
    {
        Value::Int64(0)
    }

    /// The canonical default `Int128` value.
    pub fn int128_default() -> (r: Value)
        ensures
            r@ == ValueV::Int128(0),
            wf_value(r@),
    {
        Value::Int128(0)
    }

    /// The canonical default `UInt8` value.
    pub fn uint8_default() -> (r: Value)
        ensures
            r@ == ValueV::UInt8(0),
            wf_value(r@),
    {
        Value::UInt8(0)
    }

    /// The canonical default `UInt16` value.
    pub fn uint16_default() -> (r: Value)
        ensures
            r@ == ValueV::UInt16(0),
            wf_value(r@),
    {
        Value::UInt16(0)
    }

    /// The canonical default `UInt32` value.
    pub fn uint32_default() -> (r: Value)
        ensures
            r@ == ValueV::UInt32(0),
            wf_value(r@),
    {
        Value::UInt32(0)
    }

    /// The canonical default `UInt64` value.
    pub fn uint64_default() -> (r: Value)
        ensures
            r@ == ValueV::UInt64(0),
            wf_value(r@),
    {
        Value::UInt64(0)
    }

    /// The canonical default `UInt128` value.
    pub fn uint128_default() -> (r: Value)
        ensures
            r@ == ValueV::UInt128(0),
            wf_value(r@),
    {
        Value::UInt128(0)
    }

    /// The canonical default `Float32` value.
    pub fn float32_default() -> (r: Value)
        ensures
            r@ == ValueV::Float32(0),
            wf_value(r@),
    {
        Value::Float32(0)
    }

    /// The canonical default `Float64` value.
    pub fn float64_default() -> (r: Value)
        ensures
            r@ == ValueV::Float64(0),
            wf_value(r@),
    {
        Value::Float64(0)
    }

    /// The canonical default `Bool` value.
    pub fn bool_default() -> (r: Value)
        ensures
            r@ == ValueV::Bool(false),
            wf_value(r@),
    {
        Value::Bool(false)
    }

    /// The canonical default `Decimal` value.
    pub fn decimal_default() -> (r: Value)
        ensures
            r@ == ValueV::Decimal(Dec { negative: false, mantissa: 0, scale: 0 }),
            wf_value(r@),
    {
        Value::Decimal(Dec { negative: false, mantissa: 0, scale: 0 })
    }

    /// The canonical default date: 1970-01-01.
    pub fn naive_date_default() -> (r: Value)
        ensures
            r@ == ValueV::NaiveDate(DateVal { year: 1970, month: 1, day: 1 }),
            wf_value(r@),
    {
        Value::NaiveDate(DateVal { year: 1970, month: 1, day: 1 })
    }

    /// The canonical default date and time: 1970-01-01 00:00:00.
    pub fn naive_date_time_default() -> (r: Value)
        ensures
            r@ == ValueV::NaiveDateTime(
                DateTimeVal {
                    date: DateVal { year: 1970, month: 1, day: 1 },
                    hour: 0,
                    minute: 0,
                    second: 0,
                    nano: 0,
                },
            ),
            wf_value(r@),
    {
        Value::NaiveDateTime(
            DateTimeVal {
                date: DateVal { year: 1970, month: 1, day: 1 },
                hour: 0,
                minute: 0,
                second: 0,
                nano: 0,
            },
        )
    }

    /// The canonical default zoned date and time: 1970-01-01T00:00:00+00:00.
    pub fn date_time_default() -> (r: Value)
        ensures
            r@ == ValueV::DateTime(
                OffsetDateTimeVal {
                    local: DateTimeVal {
                        date: DateVal { year: 1970, month: 1, day: 1 },
                        hour: 0,
                        minute: 0,
                        second: 0,
                        nano: 0,
                    },
                    offset_secs: 0,
                },
            ),
            wf_value(r@),
    {
        Value::DateTime(
            OffsetDateTimeVal {
                local: DateTimeVal {
                    date: DateVal { year: 1970, month: 1, day: 1 },
                    hour: 0,
                    minute: 0,
                    second: 0,
                    nano: 0,
                },
                offset_secs: 0,
            },
        )
    }
}

impl Default for Value {
    /// The default value when no tag is known: `Bool(false)`.
    fn default() -> (r: Self)
        ensures
            r@ == ValueV::Bool(false),
    {
        Value::Bool(false)
    }
}

impl From<char> for Value {
    fn from(item: char) -> (r: Self)
        ensures
            r == Value::Char(item),
    {
        Value::Char(item)
    }
}

impl vstd::std_specs::convert::FromSpecImpl<char> for Value {
    open spec fn obeys_from_spec() -> bool {
        true
    }

    open spec fn from_spec(item: char) -> Value {
        Value::Char(item)
    }
}

impl From<String> for Value {
    fn from(item: String) -> (r: Self)
        ensures
            r == Value::String(item),
    {
        Value::String(item)
    }
}

impl vstd::std_specs::convert::FromSpecImpl<String> for Value {
    open spec fn obeys_from_spec() -> bool {
        true
    }

    open spec fn from_spec(item: String) -> Value {
        Value::String(item)
    }
}

impl From<i8> for Value {
    fn from(item: i8) -> (r: Self)
        ensures
            r == Value::Int8(item),
    {
        Value::Int8(item)
    }
}

impl vstd::std_specs::convert::FromSpecImpl<i8> for Value {
    open spec fn obeys_from_spec() -> bool {
        true
    }

    open spec fn from_spec(item: i8) -> Value {
        Value::Int8(item)
    }
}

impl From<i16> for Value {
    fn from(item: i16) -> (r: Self)
        ensures
            r == Value::Int16(item),
    {
        Value::Int16(item)
    }
}

impl vstd::std_specs::convert::FromSpecImpl<i16> for Value {
    open spec fn obeys_from_spec() -> bool {
        true
    }

    open spec fn from_spec(item: i16) -> Value {
        Value::Int16(item)
    }
}

impl From<i32> for Value {
    fn from(item: i32) -> (r: Self)
        ensures
            r == Value::Int32(item),
    {
        Value::Int32(item)
    }
}

impl vstd::std_specs::convert::FromSpecImpl<i32> for Value {
    open spec fn obeys_from_spec() -> bool {
        true
    }

    open spec fn from_spec(item: i32) -> Value {
        Value::Int32(item)
    }
}

impl From<i64> for Value {
    fn from(item: i64) -> (r: Self)
        ensures
            r == Value::Int64(item),
    {
        Value::Int64(item)
    }
}

impl vstd::std_specs::convert::FromSpecImpl<i64> for Value {
    open spec fn obeys_from_spec() -> bool {
        true
    }

    open spec fn from_spec(item: i64) -> Value {
        Value::Int64(item)
    }
}

impl From<i128> for Value {
    fn from(item: i128) -> (r: Self)
        ensures
            r == Value::Int128(item),
    {
        Value::Int128(item)
    }
}

impl vstd::std_specs::convert::FromSpecImpl<i128> for Value {
    open spec fn obeys_from_spec() -> bool {
        true
    }

    open spec fn from_spec(item: i128) -> Value {
        Value::Int128(item)
    }
}

impl From<u8> for Value {
    fn from(item: u8) -> (r: Self)
        ensures
            r == Value::UInt8(item),
    {
        Value::UInt8(item)
    }
}

impl vstd::std_specs::convert::FromSpecImpl<u8> for Value {
    open spec fn obeys_from_spec() -> bool {
        true
    }

    open spec fn from_spec(item: u8) -> Value {
        Value::UInt8(item)
    }
}

impl From<u16> for Value {
    fn from(item: u16) -> (r: Self)
        ensures
            r == Value::UInt16(item),
    {
        Value::UInt16(item)
    }
}

impl vstd::std_specs::convert::FromSpecImpl<u16> for Value {
    open spec fn obeys_from_spec() -> bool {
        true
    }

    open spec fn from_spec(item: u16) -> Value {
        Value::UInt16(item)
    }
}

impl From<u32> for Value {
    fn from(item: u32) -> (r: Self)
        ensures
            r == Value::UInt32(item),
    {
        Value::UInt32(item)
    }
}

impl vstd::std_specs::convert::FromSpecImpl<u32> for Value {
    open spec fn obeys_from_spec() -> bool {
        true
    }

    open spec fn from_spec(item: u32) -> Value {
        Value::UInt32(item)
    }
}

impl From<u64> for Value {
    fn from(item: u64) -> (r: Self)
        ensures
            r == Value::UInt64(item),
    {
        Value::UInt64(item)
    }
}

impl vstd::std_specs::convert::FromSpecImpl<u64> for Value {
    open spec fn obeys_from_spec() -> bool {
        true
    }

    open spec fn from_spec(item: u64) -> Value {
        Value::UInt64(item)
    }
}

impl From<u128> for Value {
    fn from(item: u128) -> (r: Self)
        ensures
            r == Value::UInt128(item),
    {
        Value::UInt128(item)
    }
}

impl vstd::std_specs::convert::FromSpecImpl<u128> for Value {
    open spec fn obeys_from_spec() -> bool {
        true
    }

    open spec fn from_spec(item: u128) -> Value {
        Value::UInt128(item)
    }
}

impl From<bool> for Value {
    fn from(item: bool) -> (r: Self)
        ensures
            r == Value::Bool(item),
    {
        Value::Bool(item)
    }
}

impl vstd::std_specs::convert::FromSpecImpl<bool> for Value {
    open spec fn obeys_from_spec() -> bool {
        true
    }

    open spec fn from_spec(item: bool) -> Value {
        Value::Bool(item)
    }
}

impl From<Dec> for Value {
    fn from(item: Dec) -> (r: Self)
        ensures
            r == Value::Decimal(item),
    {
        Value::Decimal(item)
    }
}

impl vstd::std_specs::convert::FromSpecImpl<Dec> for Value {
    open spec fn obeys_from_spec() -> bool {
        true
    }

    open spec fn from_spec(item: Dec) -> Value {
        Value::Decimal(item)
    }
}

impl From<DateVal> for Value {
    fn from(item: DateVal) -> (r: Self)
        ensures
            r == Value::NaiveDate(item),
    {
        Value::NaiveDate(item)
    }
}

impl vstd::std_specs::convert::FromSpecImpl<DateVal> for Value {
    open spec fn obeys_from_spec() -> bool {
        true
    }

    open spec fn from_spec(item: DateVal) -> Value {
        Value::NaiveDate(item)
    }
}

impl From<DateTimeVal> for Value {
    fn from(item: DateTimeVal) -> (r: Self)
        ensures
            r == Value::NaiveDateTime(item),
    {
        Value::NaiveDateTime(item)
    }
}

impl vstd::std_specs::convert::FromSpecImpl<DateTimeVal> for Value {
    open spec fn obeys_from_spec() -> bool {
        true
    }

    open spec fn from_spec(item: DateTimeVal) -> Value {
        Value::NaiveDateTime(item)
    }
}

impl From<OffsetDateTimeVal> for Value {
    fn from(item: OffsetDateTimeVal) -> (r: Self)
        ensures
            r == Value::DateTime(item),
    {
        Value::DateTime(item)
    }
}

impl vstd::std_specs::convert::FromSpecImpl<OffsetDateTimeVal> for Value {
    open spec fn obeys_from_spec() -> bool {
        true
    }

    open spec fn from_spec(item: OffsetDateTimeVal) -> Value {
        Value::DateTime(item)
    }
}

/// The default value of a tag, used when a type must be materialized
/// without source data.
pub open spec fn default_of_type(t: ValueType) -> ValueV {
    match t {
        ValueType::Char => ValueV::Char('\0'),
        ValueType::String => ValueV::String(Seq::<char>::empty()),
        ValueType::Int8 => ValueV::Int8(0),
        ValueType::Int16 => ValueV::Int16(0),
        ValueType::Int32 => ValueV::Int32(0),
        ValueType::Int64 => ValueV::Int64(0),
        ValueType::Int128 => ValueV::Int128(0),
        ValueType::UInt8 => ValueV::UInt8(0),
        ValueType::UInt16 => ValueV::UInt16(0),
        ValueType::UInt32 => ValueV::UInt32(0),
        ValueType::UInt64 => ValueV::UInt64(0),
        ValueType::UInt128 => ValueV::UInt128(0),
        ValueType::Float32 => ValueV::Float32(0),
        ValueType::Float64 => ValueV::Float64(0),
        ValueType::Bool => ValueV::Bool(false),
        ValueType::Decimal => ValueV::Decimal(Dec { negative: false, mantissa: 0, scale: 0 }),
        ValueType::NaiveDate => ValueV::NaiveDate(DateVal { year: 1970, month: 1, day: 1 }),
        ValueType::NaiveDateTime => ValueV::NaiveDateTime(
            DateTimeVal {
                date: DateVal { year: 1970, month: 1, day: 1 },
                hour: 0,
                minute: 0,
                second: 0,
                nano: 0,
            },
        ),
        ValueType::DateTime => ValueV::DateTime(
            OffsetDateTimeVal {
                local: DateTimeVal {
                    date: DateVal { year: 1970, month: 1, day: 1 },
                    hour: 0,
                    minute: 0,
                    second: 0,
                    nano: 0,
                },
                offset_secs: 0,
            },
        ),
    }
}

impl From<&ValueType> for Value {
    /// The tag's default value.
    fn from(t: &ValueType) -> (r: Self)
        ensures
            r@ == default_of_type(*t),
    {
        match t {
            ValueType::Char => Value::char_default(),
            ValueType::String => Value::string_default(),
            ValueType::Int8 => Value::int8_default(),
            ValueType::Int16 => Value::int16_default(),
            ValueType::Int32 => Value::int32_default(),
            ValueType::Int64 => Value::int64_default(),
            ValueType::Int128 => Value::int128_default(),
            ValueType::UInt8 => Value::uint8_default(),
            ValueType::UInt16 => Value::uint16_default(),
            ValueType::UInt32 => Value::uint32_default(),
            ValueType::UInt64 => Value::uint64_default(),
            ValueType::UInt128 => Value::uint128_default(),
            ValueType::Float32 => Value::float32_default(),
            ValueType::Float64 => Value::float64_default(),
            ValueType::Bool => Value::bool_default(),
            ValueType::Decimal => Value::decimal_default(),
            ValueType::NaiveDate => Value::naive_date_default(),
            ValueType::NaiveDateTime => Value::naive_date_time_default(),
            ValueType::DateTime => Value::date_time_default(),
        }
    }
}

impl vstd::std_specs::convert::FromSpecImpl<&ValueType> for Value {
    open spec fn obeys_from_spec() -> bool {
        false
    }

    open spec fn from_spec(t: &ValueType) -> Value {
        Value::Absent
    }
}

impl From<ValueType> for Value {
    /// The tag's default value.
    fn from(t: ValueType) -> (r: Self)
        ensures
            r@ == default_of_type(t),
    {
        Value::from(&t)
    }
}

impl vstd::std_specs::convert::FromSpecImpl<ValueType> for Value {
    open spec fn obeys_from_spec() -> bool {
        false
    }

    open spec fn from_spec(t: ValueType) -> Value {
        Value::Absent
    }
}

/// An optional value, as callers that distinguish "no cell" from "absent
/// payload" carry it.
pub type OptValue = Option<Value>;

} // verus!

verus! {

impl Value {
    /// A decimal holding exactly the integer `v`.
    pub fn decimal_from_i8(v: i8) -> (r: Value)
        ensures
            r@ == ValueV::Decimal(
                Dec {
                    negative: v < 0,
                    mantissa: crate::value_conversions::abs_of(v as int) as u128,
                    scale: 0,
                },
            ),
            wf_value(r@),
    {
        Value::decimal_from_i64(v as i64)
    }

    /// A decimal holding exactly the integer `v`.
    pub fn decimal_from_i16(v: i16) -> (r: Value)
        ensures
            r@ == ValueV::Decimal(
                Dec {
                    negative: v < 0,
                    mantissa: crate::value_conversions::abs_of(v as int) as u128,
                    scale: 0,
                },
            ),
            wf_value(r@),
    {
        Value::decimal_from_i64(v as i64)
    }

    /// A decimal holding exactly the integer `v`.
    pub fn decimal_from_i32(v: i32) -> (r: Value)
        ensures
            r@ == ValueV::Decimal(
                Dec {
                    negative: v < 0,
                    mantissa: crate::value_conversions::abs_of(v as int) as u128,
                    scale: 0,
                },
            ),
            wf_value(r@),
    {
        Value::decimal_from_i64(v as i64)
    }

    /// A decimal holding exactly the integer `v`.
    pub fn decimal_from_i64(v: i64) -> (r: Value)
        ensures
            r@ == ValueV::Decimal(
                Dec {
                    negative: v < 0,
                    mantissa: crate::value_conversions::abs_of(v as int) as u128,
                    scale: 0,
                },
            ),
            wf_value(r@),
    {
        let mantissa: u128 = if v < 0 {
            if v == i64::MIN {
                9223372036854775808u128
            } else {
                (-v) as u128
            }
        } else {
            v as u128
        };
        Value::Decimal(Dec { negative: v < 0, mantissa, scale: 0 })
    }

    /// A decimal holding exactly the integer `v`.
    pub fn decimal_from_isize(v: isize) -> (r: Value)
        ensures
            r@ == ValueV::Decimal(
                Dec {
                    negative: v < 0,
                    mantissa: crate::value_conversions::abs_of(v as int) as u128,
                    scale: 0,
                },
            ),
            wf_value(r@),
    {
        Value::decimal_from_i64(v as i64)
    }

    /// A decimal holding exactly the integer `v`, or the rejection for a
    /// magnitude past the 96-bit mantissa.
    pub fn decimal_from_i128(v: i128) -> (r: Result<Value, VenumError>)
        ensures
            ({
                let mag = crate::value_conversions::abs_of(v as int);
                if mag < crate::decimal::mantissa_bound() {
                    res_v(r) == Ok::<ValueV, VenumErrorV>(
                        ValueV::Decimal(Dec { negative: v < 0, mantissa: mag as u128, scale: 0 }),
                    ) && wf_value(r->Ok_0@)
                } else {
                    res_v(r) == Err::<ValueV, VenumErrorV>(
                        not_rep_dec_v("i128"@, int_render_of(v as int)),
                    )
                }
            }),
    {
        let mantissa: u128 = if v < 0 {
            if v == i128::MIN {
                0x8000_0000_0000_0000_0000_0000_0000_0000u128
            } else {
                (-v) as u128
            }
        } else {
            v as u128
        };
        if mantissa < 0x1000000000000000000000000 {
            Ok(Value::Decimal(Dec { negative: v < 0, mantissa, scale: 0 }))
        } else {
            let negative = v < 0;
            Err(
                VenumError::Conversion(
                    ConversionError::NotRepresentableAsDecimal {
                        src_type: String::from_str("i128"),
                        src_value: render_signed(negative, mantissa),
                    },
                ),
            )
        }
    }

    /// A decimal holding exactly the integer `v`.
    pub fn decimal_from_u8(v: u8) -> (r: Value)
        ensures
            r@ == ValueV::Decimal(Dec { negative: false, mantissa: v as u128, scale: 0 }),
            wf_value(r@),
    {
        Value::Decimal(Dec { negative: false, mantissa: v as u128, scale: 0 })
    }

    /// A decimal holding exactly the integer `v`.
    pub fn decimal_from_u16(v: u16) -> (r: Value)
        ensures
            r@ == ValueV::Decimal(Dec { negative: false, mantissa: v as u128, scale: 0 }),
            wf_value(r@),
    {
        Value::Decimal(Dec { negative: false, mantissa: v as u128, scale: 0 })
    }

    /// A decimal holding exactly the integer `v`.
    pub fn decimal_from_u32(v: u32) -> (r: Value)
        ensures
            r@ == ValueV::Decimal(Dec { negative: false, mantissa: v as u128, scale: 0 }),
            wf_value(r@),
    {
        Value::Decimal(Dec { negative: false, mantissa: v as u128, scale: 0 })
    }

    /// A decimal holding exactly the integer `v`.
    pub fn decimal_from_u64(v: u64) -> (r: Value)
        ensures
            r@ == ValueV::Decimal(Dec { negative: false, mantissa: v as u128, scale: 0 }),
            wf_value(r@),
    {
        Value::Decimal(Dec { negative: false, mantissa: v as u128, scale: 0 })
    }

    /// A decimal holding exactly the integer `v`.
    pub fn decimal_from_usize(v: usize) -> (r: Value)
        ensures
            r@ == ValueV::Decimal(Dec { negative: false, mantissa: v as u128, scale: 0 }),
            wf_value(r@),
    {
        Value::Decimal(Dec { negative: false, mantissa: v as u128, scale: 0 })
    }

    /// A decimal holding exactly the integer `v`, or the rejection for a
    /// magnitude past the 96-bit mantissa.
    pub fn decimal_from_u128(v: u128) -> (r: Result<Value, VenumError>)
        ensures
            if v < crate::decimal::mantissa_bound() {
                res_v(r) == Ok::<ValueV, VenumErrorV>(
                    ValueV::Decimal(Dec { negative: false, mantissa: v, scale: 0 }),
                ) && wf_value(r->Ok_0@)
            } else {
                res_v(r) == Err::<ValueV, VenumErrorV>(
                    not_rep_dec_v("u128"@, int_render_of(v as int)),
                )
            },
    {
        if v < 0x1000000000000000000000000 {
            Ok(Value::Decimal(Dec { negative: false, mantissa: v, scale: 0 }))
        } else {
            Err(
                VenumError::Conversion(
                    ConversionError::NotRepresentableAsDecimal {
                        src_type: String::from_str("u128"),
                        src_value: render_u128(v),
                    },
                ),
            )
        }
    }
}

} // verus!

verus! {

impl Value {
    /// True when every payload satisfies the library's representation
    /// invariants; parsing and conversion only ever hand out such values.
    pub fn is_well_formed(&self) -> (r: bool)
        ensures
            r == wf_value(self@),
    {
        match self {
            Value::Decimal(d) => d.mantissa < 0x1000000000000000000000000
                && d.scale <= crate::decimal::MAX_DEC_SCALE,
            Value::NaiveDate(d) => Self::date_ok(d),
            Value::NaiveDateTime(d) => Self::date_time_ok(d),
            Value::DateTime(d) => {
                let t: i64 = d.local.hour as i64 * 3600 + d.local.minute as i64 * 60
                    + d.local.second as i64;
                let off: i64 = d.offset_secs as i64;
                let first_day = d.local.date.year == crate::dates::MIN_CAL_YEAR
                    && d.local.date.month == 1 && d.local.date.day == 1;
                let last_day = d.local.date.year == crate::dates::MAX_CAL_YEAR
                    && d.local.date.month == 12 && d.local.date.day == 31;
                let borrow_ok = off <= t || !first_day;
                let carry_ok = t - off < 86_400 || !last_day;
                Self::date_time_ok(&d.local) && -86_400 < d.offset_secs && d.offset_secs < 86_400
                    && borrow_ok && carry_ok
            },
            _ => true,
        }
    }

    /// The calendar invariant of a date payload.
    fn date_ok(d: &DateVal) -> (r: bool)
        ensures
            r == d.wf(),
    {
        let leap = d.year % 4 == 0 && (d.year % 100 != 0 || d.year % 400 == 0);
        let dim: u8 = if d.month == 2 {
            if leap {
                29
            } else {
                28
            }
        } else if d.month == 4 || d.month == 6 || d.month == 9 || d.month == 11 {
            30
        } else {
            31
        };
        crate::dates::MIN_CAL_YEAR <= d.year && d.year <= crate::dates::MAX_CAL_YEAR && 1
            <= d.month && d.month <= 12 && 1 <= d.day && d.day <= dim
    }

    /// The clock invariant of a date-time payload.
    fn date_time_ok(d: &DateTimeVal) -> (r: bool)
        ensures
            r == d.wf(),
    {
        Self::date_ok(&d.date) && d.hour < 24 && d.minute < 60 && d.second < 60 && d.nano
            < 2_000_000_000 && (d.nano < 1_000_000_000 || d.second == 59)
    }
}

} // verus!
