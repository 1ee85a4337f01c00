use vstd::prelude::*;
use vstd::string::StringExecFns;

use crate::dates::{DateTimeVal, DateVal, OffsetDateTimeVal};
use crate::decimal::Dec;
use crate::errors_result::{ConversionError, ConversionErrorV, VenumError, VenumErrorV};
use crate::value::{wf_value, Value, ValueV};
use crate::value_conversions::string_target_spec;

verus! {

// The extraction family: taking the payload back out of a value. A value
// asked for a payload it does not hold answers with `WrongType`, naming
// the value, its own kind and the kind that was asked.

/// The variant's name qualified with the enum's name, as the `WrongType`
/// diagnostics spell it; the absent marker reads `Value::None`.
pub open spec fn value_variant_name(v: ValueV) -> Seq<char> {
    match v {
        ValueV::Absent => "Value::None"@,
        ValueV::Char(_) => "Value::Char"@,
        ValueV::String(_) => "Value::String"@,
        ValueV::Int8(_) => "Value::Int8"@,
        ValueV::Int16(_) => "Value::Int16"@,
        ValueV::Int32(_) => "Value::Int32"@,
        ValueV::Int64(_) => "Value::Int64"@,
        ValueV::Int128(_) => "Value::Int128"@,
        ValueV::UInt8(_) => "Value::UInt8"@,
        ValueV::UInt16(_) => "Value::UInt16"@,
        ValueV::UInt32(_) => "Value::UInt32"@,
        ValueV::UInt64(_) => "Value::UInt64"@,
        ValueV::UInt128(_) => "Value::UInt128"@,
        ValueV::Float32(_) => "Value::Float32"@,
        ValueV::Float64(_) => "Value::Float64"@,
        ValueV::Bool(_) => "Value::Bool"@,
        ValueV::Decimal(_) => "Value::Decimal"@,
        ValueV::NaiveDate(_) => "Value::NaiveDate"@,
        ValueV::NaiveDateTime(_) => "Value::NaiveDateTime"@,
        ValueV::DateTime(_) => "Value::DateTime"@,
    }
}

/// The text standing for the source value inside a `WrongType` error: its
/// canonical rendering where the matrix has one, else its variant name.
pub open spec fn wrong_type_src_text(v: ValueV) -> Seq<char> {
    match string_target_spec(v) {
        Ok(ValueV::String(s)) => s,
        _ => value_variant_name(v),
    }
}

/// The `WrongType` error for extracting `target` out of `v`.
pub open spec fn wrong_type_v(v: ValueV, target: Seq<char>) -> VenumErrorV {
    VenumErrorV::Conversion(
        ConversionErrorV::WrongType {
            src_value: wrong_type_src_text(v),
            src_type: value_variant_name(v),
            target_type: target,
            details: None,
        },
    )
}

impl Value {
    /// The variant's qualified name.
    pub fn variant_name(&self) -> (r: &'static str)
        ensures
            r@ == value_variant_name(self@),
    {
        match self {
            Value::Absent => "Value::None",
            Value::Char(_) => "Value::Char",
            Value::String(_) => "Value::String",
            Value::Int8(_) => "Value::Int8",
            Value::Int16(_) => "Value::Int16",
            Value::Int32(_) => "Value::Int32",
            Value::Int64(_) => "Value::Int64",
            Value::Int128(_) => "Value::Int128",
            Value::UInt8(_) => "Value::UInt8",
            Value::UInt16(_) => "Value::UInt16",
            Value::UInt32(_) => "Value::UInt32",
            Value::UInt64(_) => "Value::UInt64",
            Value::UInt128(_) => "Value::UInt128",
            Value::Float32(_) => "Value::Float32",
            Value::Float64(_) => "Value::Float64",
            Value::Bool(_) => "Value::Bool",
            Value::Decimal(_) => "Value::Decimal",
            Value::NaiveDate(_) => "Value::NaiveDate",
            Value::NaiveDateTime(_) => "Value::NaiveDateTime",
            Value::DateTime(_) => "Value::DateTime",
        }
    }

    /// The `WrongType` error for extracting `target` out of this value.
    fn wrong_type_err(&self, target: &'static str) -> (r: VenumError)
        requires
            wf_value(self@),
        ensures
            r@ == wrong_type_v(self@, target@),
    {
        let src_value: String = match self.try_convert_to_string() {
            Ok(converted) => match converted {
                Value::String(s) => s,
                // a successful String-target conversion always carries a
                // String payload
                _ => {
                    proof {
                        assert(false);
                    }
                    String::new()
                },
            },
            Err(_) => String::from_str(self.variant_name()),
        };
        VenumError::Conversion(
            ConversionError::WrongType {
                src_value,
                src_type: String::from_str(self.variant_name()),
                target_type: String::from_str(target),
                details: None,
            },
        )
    }

    /// The `Char` payload, or `WrongType` for any other kind of value.
    pub fn try_to_char(&self) -> (r: Result<char, VenumError>)
        requires
            wf_value(self@),
        ensures
            match self@ {
                ValueV::Char(x) => r == Ok::<char, VenumError>(x),
                _ => r is Err && r->Err_0@ == wrong_type_v(self@, "char"@),
            },
    {
        match self {
            Value::Char(x) => Ok(*x),
            _ => Err(self.wrong_type_err("char")),
        }
    }

    /// The `String` payload, or `WrongType` for any other kind of value.
    pub fn try_to_string(&self) -> (r: Result<String, VenumError>)
        requires
            wf_value(self@),
        ensures
            match self@ {
                ValueV::String(x) => r is Ok && r->Ok_0@ == x,
                _ => r is Err && r->Err_0@ == wrong_type_v(self@, "String"@),
            },
    {
        match self {
            Value::String(x) => Ok(x.clone()),
            _ => Err(self.wrong_type_err("String")),
        }
    }

    /// The `Int8` payload, or `WrongType` for any other kind of value.
    pub fn try_to_i8(&self) -> (r: Result<i8, VenumError>)
        requires
            wf_value(self@),
        ensures
            match self@ {
                ValueV::Int8(x) => r == Ok::<i8, VenumError>(x),
                _ => r is Err && r->Err_0@ == wrong_type_v(self@, "i8"@),
            },
    {
        match self {
            Value::Int8(x) => Ok(*x),
            _ => Err(self.wrong_type_err("i8")),
        }
    }

    /// The `Int16` payload, or `WrongType` for any other kind of value.
    pub fn try_to_i16(&self) -> (r: Result<i16, VenumError>)
        requires
            wf_value(self@),
        ensures
            match self@ {
                ValueV::Int16(x) => r == Ok::<i16, VenumError>(x),
                _ => r is Err && r->Err_0@ == wrong_type_v(self@, "i16"@),
            },
    {
        match self {
            Value::Int16(x) => Ok(*x),
            _ => Err(self.wrong_type_err("i16")),
        }
    }

    /// The `Int32` payload, or `WrongType` for any other kind of value.
    pub fn try_to_i32(&self) -> (r: Result<i32, VenumError>)
        requires
            wf_value(self@),
        ensures
            match self@ {
                ValueV::Int32(x) => r == Ok::<i32, VenumError>(x),
                _ => r is Err && r->Err_0@ == wrong_type_v(self@, "i32"@),
            },
    {
        match self {
            Value::Int32(x) => Ok(*x),
            _ => Err(self.wrong_type_err("i32")),
        }
    }

    /// The `Int64` payload, or `WrongType` for any other kind of value.
    pub fn try_to_i64(&self) -> (r: Result<i64, VenumError>)
        requires
            wf_value(self@),
        ensures
            match self@ {
                ValueV::Int64(x) => r == Ok::<i64, VenumError>(x),
                _ => r is Err && r->Err_0@ == wrong_type_v(self@, "i64"@),
            },
    {
        match self {
            Value::Int64(x) => Ok(*x),
            _ => Err(self.wrong_type_err("i64")),
        }
    }

    /// The `Int128` payload, or `WrongType` for any other kind of value.
    pub fn try_to_i128(&self) -> (r: Result<i128, VenumError>)
        requires
            wf_value(self@),
        ensures
            match self@ {
                ValueV::Int128(x) => r == Ok::<i128, VenumError>(x),
                _ => r is Err && r->Err_0@ == wrong_type_v(self@, "i128"@),
            },
    {
        match self {
            Value::Int128(x) => Ok(*x),
            _ => Err(self.wrong_type_err("i128")),
        }
    }

    /// The `UInt8` payload, or `WrongType` for any other kind of value.
    pub fn try_to_u8(&self) -> (r: Result<u8, VenumError>)
        requires
            wf_value(self@),
        ensures
            match self@ {
                ValueV::UInt8(x) => r == Ok::<u8, VenumError>(x),
                _ => r is Err && r->Err_0@ == wrong_type_v(self@, "u8"@),
            },
    {
        match self {
            Value::UInt8(x) => Ok(*x),
            _ => Err(self.wrong_type_err("u8")),
        }
    }

    /// The `UInt16` payload, or `WrongType` for any other kind of value.
    pub fn try_to_u16(&self) -> (r: Result<u16, VenumError>)
        requires
            wf_value(self@),
        ensures
            match self@ {
                ValueV::UInt16(x) => r == Ok::<u16, VenumError>(x),
                _ => r is Err && r->Err_0@ == wrong_type_v(self@, "u16"@),
            },
    {
        match self {
            Value::UInt16(x) => Ok(*x),
            _ => Err(self.wrong_type_err("u16")),
        }
    }

    /// The `UInt32` payload, or `WrongType` for any other kind of value.
    pub fn try_to_u32(&self) -> (r: Result<u32, VenumError>)
        requires
            wf_value(self@),
        ensures
            match self@ {
                ValueV::UInt32(x) => r == Ok::<u32, VenumError>(x),
                _ => r is Err && r->Err_0@ == wrong_type_v(self@, "u32"@),
            },
    {
        match self {
            Value::UInt32(x) => Ok(*x),
            _ => Err(self.wrong_type_err("u32")),
        }
    }

    /// The `UInt64` payload, or `WrongType` for any other kind of value.
    pub fn try_to_u64(&self) -> (r: Result<u64, VenumError>)
        requires
            wf_value(self@),
        ensures
            match self@ {
                ValueV::UInt64(x) => r == Ok::<u64, VenumError>(x),
                _ => r is Err && r->Err_0@ == wrong_type_v(self@, "u64"@),
            },
    {
        match self {
            Value::UInt64(x) => Ok(*x),
            _ => Err(self.wrong_type_err("u64")),
        }
    }

    /// The `UInt128` payload, or `WrongType` for any other kind of value.
    pub fn try_to_u128(&self) -> (r: Result<u128, VenumError>)
        requires
            wf_value(self@),
        ensures
            match self@ {
                ValueV::UInt128(x) => r == Ok::<u128, VenumError>(x),
                _ => r is Err && r->Err_0@ == wrong_type_v(self@, "u128"@),
            },
    {
        match self {
            Value::UInt128(x) => Ok(*x),
            _ => Err(self.wrong_type_err("u128")),
        }
    }

    /// The `Float32` payload, or `WrongType` for any other kind of value.
    pub fn try_to_float32_bits(&self) -> (r: Result<u32, VenumError>)
        requires
            wf_value(self@),
        ensures
            match self@ {
                ValueV::Float32(x) => r == Ok::<u32, VenumError>(x),
                _ => r is Err && r->Err_0@ == wrong_type_v(self@, "Float32 bits"@),
            },
    {
        match self {
            Value::Float32(x) => Ok(*x),
            _ => Err(self.wrong_type_err("Float32 bits")),
        }
    }

    /// The `Float64` payload, or `WrongType` for any other kind of value.
    pub fn try_to_float64_bits(&self) -> (r: Result<u64, VenumError>)
        requires
            wf_value(self@),
        ensures
            match self@ {
                ValueV::Float64(x) => r == Ok::<u64, VenumError>(x),
                _ => r is Err && r->Err_0@ == wrong_type_v(self@, "Float64 bits"@),
            },
    {
        match self {
            Value::Float64(x) => Ok(*x),
            _ => Err(self.wrong_type_err("Float64 bits")),
        }
    }

    /// The `Bool` payload, or `WrongType` for any other kind of value.
    pub fn try_to_bool(&self) -> (r: Result<bool, VenumError>)
        requires
            wf_value(self@),
        ensures
            match self@ {
                ValueV::Bool(x) => r == Ok::<bool, VenumError>(x),
                _ => r is Err && r->Err_0@ == wrong_type_v(self@, "bool"@),
            },
    {
        match self {
            Value::Bool(x) => Ok(*x),
            _ => Err(self.wrong_type_err("bool")),
        }
    }

    /// The `Decimal` payload, or `WrongType` for any other kind of value.
    pub fn try_to_decimal(&self) -> (r: Result<Dec, VenumError>)
        requires
            wf_value(self@),
        ensures
            match self@ {
                ValueV::Decimal(x) => r == Ok::<Dec, VenumError>(x),
                _ => r is Err && r->Err_0@ == wrong_type_v(self@, "Decimal"@),
            },
    {
        match self {
            Value::Decimal(x) => Ok(*x),
            _ => Err(self.wrong_type_err("Decimal")),
        }
    }

    /// The `NaiveDate` payload, or `WrongType` for any other kind of value.
    pub fn try_to_naive_date(&self) -> (r: Result<DateVal, VenumError>)
        requires
            wf_value(self@),
        ensures
            match self@ {
                ValueV::NaiveDate(x) => r == Ok::<DateVal, VenumError>(x),
                _ => r is Err && r->Err_0@ == wrong_type_v(self@, "NaiveDate"@),
            },
    {
        match self {
            Value::NaiveDate(x) => Ok(*x),
            _ => Err(self.wrong_type_err("NaiveDate")),
        }
    }

    /// The `NaiveDateTime` payload, or `WrongType` for any other kind of value.
    pub fn try_to_naive_date_time(&self) -> (r: Result<DateTimeVal, VenumError>)
        requires
            wf_value(self@),
        ensures
            match self@ {
                ValueV::NaiveDateTime(x) => r == Ok::<DateTimeVal, VenumError>(x),
                _ => r is Err && r->Err_0@ == wrong_type_v(self@, "NaiveDateTime"@),
            },
    {
        match self {
            Value::NaiveDateTime(x) => Ok(*x),
            _ => Err(self.wrong_type_err("NaiveDateTime")),
        }
    }

    /// The `DateTime` payload, or `WrongType` for any other kind of value.
    pub fn try_to_date_time(&self) -> (r: Result<OffsetDateTimeVal, VenumError>)
        requires
            wf_value(self@),
        ensures
            match self@ {
                ValueV::DateTime(x) => r == Ok::<OffsetDateTimeVal, VenumError>(x),
                _ => r is Err && r->Err_0@ == wrong_type_v(self@, "DateTime"@),
            },
    {
        match self {
            Value::DateTime(x) => Ok(*x),
            _ => Err(self.wrong_type_err("DateTime")),
        }
    }

}

} // verus!
