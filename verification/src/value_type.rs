use vstd::prelude::*;

verus! {

/// The closed set of type tags that a `Value` payload can carry.
#[derive(Debug, Clone, Copy, PartialEq, Eq, Structural)]
pub enum ValueType {
    Char,
    String,
    Int8,
    Int16,
    Int32,
    Int64,
    Int128,
    UInt8,
    UInt16,
    UInt32,
    UInt64,
    UInt128,
    Float32,
    Float64,
    Bool,
    Decimal,
    NaiveDate,
    NaiveDateTime,
    DateTime,
}

/// The five signed integer tags.
pub open spec fn is_signed_int_type(t: ValueType) -> bool {
    t is Int8 || t is Int16 || t is Int32 || t is Int64 || t is Int128
}

/// The five unsigned integer tags.
pub open spec fn is_unsigned_int_type(t: ValueType) -> bool {
    t is UInt8 || t is UInt16 || t is UInt32 || t is UInt64 || t is UInt128
}

/// All ten integer tags.
pub open spec fn is_int_type(t: ValueType) -> bool {
    is_signed_int_type(t) || is_unsigned_int_type(t)
}

/// The two binary floating-point tags.
pub open spec fn is_float_type(t: ValueType) -> bool {
    t is Float32 || t is Float64
}

/// The three calendar tags.
pub open spec fn is_date_type(t: ValueType) -> bool {
    t is NaiveDate || t is NaiveDateTime || t is DateTime
}

/// Smallest mathematical value an integer tag can hold; zero for non-integer tags.
pub open spec fn int_type_min(t: ValueType) -> int {
    match t {
        ValueType::Int8 => i8::MIN as int,
        ValueType::Int16 => i16::MIN as int,
        ValueType::Int32 => i32::MIN as int,
        ValueType::Int64 => i64::MIN as int,
        ValueType::Int128 => i128::MIN as int,
        _ => 0,
    }
}

/// Largest mathematical value an integer tag can hold; zero for non-integer tags.
pub open spec fn int_type_max(t: ValueType) -> int {
    match t {
        ValueType::Int8 => i8::MAX as int,
        ValueType::Int16 => i16::MAX as int,
        ValueType::Int32 => i32::MAX as int,
        ValueType::Int64 => i64::MAX as int,
        ValueType::Int128 => i128::MAX as int,
        ValueType::UInt8 => u8::MAX as int,
        ValueType::UInt16 => u16::MAX as int,
        ValueType::UInt32 => u32::MAX as int,
        ValueType::UInt64 => u64::MAX as int,
        ValueType::UInt128 => u128::MAX as int,
        _ => 0,
    }
}

impl ValueType {
    /// True for the three calendar/date-time tags.
    pub fn is_some_date_type(&self) -> (r: bool)
        ensures
            r == is_date_type(*self),
    {
        matches!(self, ValueType::NaiveDate | ValueType::NaiveDateTime | ValueType::DateTime)
    }

    /// True for the five signed integer tags.
    pub fn is_some_signed_int_type(&self) -> (r: bool)
        ensures
            r == is_signed_int_type(*self),
    {
        matches!(
            self,
            ValueType::Int8 | ValueType::Int16 | ValueType::Int32 | ValueType::Int64
                | ValueType::Int128
        )
    }

    /// True for the five unsigned integer tags.
    pub fn is_some_unsigned_int_type(&self) -> (r: bool)
        ensures
            r == is_unsigned_int_type(*self),
    {
        matches!(
            self,
            ValueType::UInt8 | ValueType::UInt16 | ValueType::UInt32 | ValueType::UInt64
                | ValueType::UInt128
        )
    }

    /// True for all ten integer tags.
    pub fn is_some_int_type(&self) -> (r: bool)
        ensures
            r == is_int_type(*self),
    {
        self.is_some_signed_int_type() || self.is_some_unsigned_int_type()
    }

    /// True for the two floating-point tags.
    pub fn is_some_float_type(&self) -> (r: bool)
        ensures
            r == is_float_type(*self),
    {
        matches!(self, ValueType::Float32 | ValueType::Float64)
    }

    /// The tag's name, as the variant is spelled.
    pub fn name(&self) -> (r: &'static str)
        ensures
            r@ == tag_name(*self),
    {
        match self {
            ValueType::Char => "Char",
            ValueType::String => "String",
            ValueType::Int8 => "Int8",
            ValueType::Int16 => "Int16",
            ValueType::Int32 => "Int32",
            ValueType::Int64 => "Int64",
            ValueType::Int128 => "Int128",
            ValueType::UInt8 => "UInt8",
            ValueType::UInt16 => "UInt16",
            ValueType::UInt32 => "UInt32",
            ValueType::UInt64 => "UInt64",
            ValueType::UInt128 => "UInt128",
            ValueType::Float32 => "Float32",
            ValueType::Float64 => "Float64",
            ValueType::Bool => "Bool",
            ValueType::Decimal => "Decimal",
            ValueType::NaiveDate => "NaiveDate",
            ValueType::NaiveDateTime => "NaiveDateTime",
            ValueType::DateTime => "DateTime",
        }
    }

    /// The tag's name qualified with the value enum's name, as error
    /// messages spell it.
    pub fn qualified_name(&self) -> (r: &'static str)
        ensures
            r@ == qualified_tag_name(*self),
    {
        match self {
            ValueType::Char => "Value::Char",
            ValueType::String => "Value::String",
            ValueType::Int8 => "Value::Int8",
            ValueType::Int16 => "Value::Int16",
            ValueType::Int32 => "Value::Int32",
            ValueType::Int64 => "Value::Int64",
            ValueType::Int128 => "Value::Int128",
            ValueType::UInt8 => "Value::UInt8",
            ValueType::UInt16 => "Value::UInt16",
            ValueType::UInt32 => "Value::UInt32",
            ValueType::UInt64 => "Value::UInt64",
            ValueType::UInt128 => "Value::UInt128",
            ValueType::Float32 => "Value::Float32",
            ValueType::Float64 => "Value::Float64",
            ValueType::Bool => "Value::Bool",
            ValueType::Decimal => "Value::Decimal",
            ValueType::NaiveDate => "Value::NaiveDate",
            ValueType::NaiveDateTime => "Value::NaiveDateTime",
            ValueType::DateTime => "Value::DateTime",
        }
    }
}

/// View of `ValueType::name`.
pub open spec fn tag_name(t: ValueType) -> Seq<char> {
    match t {
        ValueType::Char => "Char"@,
        ValueType::String => "String"@,
        ValueType::Int8 => "Int8"@,
        ValueType::Int16 => "Int16"@,
        ValueType::Int32 => "Int32"@,
        ValueType::Int64 => "Int64"@,
        ValueType::Int128 => "Int128"@,
        ValueType::UInt8 => "UInt8"@,
        ValueType::UInt16 => "UInt16"@,
        ValueType::UInt32 => "UInt32"@,
        ValueType::UInt64 => "UInt64"@,
        ValueType::UInt128 => "UInt128"@,
        ValueType::Float32 => "Float32"@,
        ValueType::Float64 => "Float64"@,
        ValueType::Bool => "Bool"@,
        ValueType::Decimal => "Decimal"@,
        ValueType::NaiveDate => "NaiveDate"@,
        ValueType::NaiveDateTime => "NaiveDateTime"@,
        ValueType::DateTime => "DateTime"@,
    }
}

/// View of `ValueType::qualified_name`.
pub open spec fn qualified_tag_name(t: ValueType) -> Seq<char> {
    match t {
        ValueType::Char => "Value::Char"@,
        ValueType::String => "Value::String"@,
        ValueType::Int8 => "Value::Int8"@,
        ValueType::Int16 => "Value::Int16"@,
        ValueType::Int32 => "Value::Int32"@,
        ValueType::Int64 => "Value::Int64"@,
        ValueType::Int128 => "Value::Int128"@,
        ValueType::UInt8 => "Value::UInt8"@,
        ValueType::UInt16 => "Value::UInt16"@,
        ValueType::UInt32 => "Value::UInt32"@,
        ValueType::UInt64 => "Value::UInt64"@,
        ValueType::UInt128 => "Value::UInt128"@,
        ValueType::Float32 => "Value::Float32"@,
        ValueType::Float64 => "Value::Float64"@,
        ValueType::Bool => "Value::Bool"@,
        ValueType::Decimal => "Value::Decimal"@,
        ValueType::NaiveDate => "Value::NaiveDate"@,
        ValueType::NaiveDateTime => "Value::NaiveDateTime"@,
        ValueType::DateTime => "Value::DateTime"@,
    }
}

impl Default for ValueType {
    /// The tag used when a column's type is not yet known.
    fn default() -> (r: Self)
        ensures
            r == ValueType::Bool,
    {
        ValueType::Bool
    }
}

} // verus!
