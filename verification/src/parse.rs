use vstd::prelude::*;
use vstd::string::StringExecFns;

use crate::dates::{dt_parse_of, dt_rfc2822_parse_of, dt_rfc3339_parse_of, nd_parse_of,
    ndt_parse_of, DateTimeVal, DateVal, OffsetDateTimeVal, date_time_parse,
    date_time_parse_rfc2822, date_time_parse_rfc3339, naive_date_parse, naive_date_time_parse};
use crate::decimal::{dec_from_str, dec_parse_of, Dec};
use crate::errors_result::{absent_err, absent_err_v, parse_fail_details, parse_fail_v, res_v,
    VenumError, VenumErrorV};

use crate::text::{bool_parse_spec, int_err_msg, int_err_msg_str, int_parse_spec,
    parse_bool_token, parse_i128_in_range, parse_u128_in_range, str_eq};
use crate::value::{spec_value_type, wf_value, Value, ValueV};
use crate::value_type::{is_signed_int_type, int_type_max, int_type_min, qualified_tag_name,
    ValueType};

verus! {

/// The integer-tagged value holding `n`; meaningful when `t` is an integer
/// tag and `n` lies in its range.
pub open spec fn int_value_of(t: ValueType, n: int) -> ValueV {
    match t {
        ValueType::Int8 => ValueV::Int8(n as i8),
        ValueType::Int16 => ValueV::Int16(n as i16),
        ValueType::Int32 => ValueV::Int32(n as i32),
        ValueType::Int64 => ValueV::Int64(n as i64),
        ValueType::Int128 => ValueV::Int128(n as i128),
        ValueType::UInt8 => ValueV::UInt8(n as u8),
        ValueType::UInt16 => ValueV::UInt16(n as u16),
        ValueType::UInt32 => ValueV::UInt32(n as u32),
        ValueType::UInt64 => ValueV::UInt64(n as u64),
        ValueType::UInt128 => ValueV::UInt128(n as u128),
        _ => ValueV::Absent,
    }
}

/// What parsing a text as a one-character value yields: the standard
/// library's `char` parse, wrapped as a `Value`.
pub open spec fn parse_char_spec(s: Seq<char>) -> Result<ValueV, VenumErrorV> {
    if s.len() == 1 {
        Ok(ValueV::Char(s[0]))
    } else if s.len() == 0 {
        Err(
            parse_fail_v(
                s,
                qualified_tag_name(ValueType::Char),
                Some("cannot parse char from empty string"@),
            ),
        )
    } else {
        Err(
            parse_fail_v(
                s,
                qualified_tag_name(ValueType::Char),
                Some("too many characters in string"@),
            ),
        )
    }
}

/// What parsing a text as an integer value of tag `t` yields: the standard
/// library's range-checked parse, its error message as the diagnostics.
pub open spec fn parse_int_spec(s: Seq<char>, t: ValueType) -> Result<ValueV, VenumErrorV> {
    match int_parse_spec(s, is_signed_int_type(t), int_type_min(t), int_type_max(t)) {
        Ok(n) => Ok(int_value_of(t, n)),
        Err(k) => Err(parse_fail_v(s, qualified_tag_name(t), Some(int_err_msg(k)))),
    }
}

/// What parsing a text as a bool yields: exactly the two literal tokens.
pub open spec fn parse_bool_spec(s: Seq<char>) -> Result<ValueV, VenumErrorV> {
    match bool_parse_spec(s) {
        Some(b) => Ok(ValueV::Bool(b)),
        None => Err(
            parse_fail_v(
                s,
                qualified_tag_name(ValueType::Bool),
                Some("provided string was not `true` or `false`"@),
            ),
        ),
    }
}

/// What parsing a text as a decimal yields: the absent value on empty
/// input, else the decimal library's exact parse.
pub open spec fn parse_decimal_spec(s: Seq<char>) -> Result<ValueV, VenumErrorV> {
    if s.len() == 0 {
        Ok(ValueV::Absent)
    } else {
        match dec_parse_of(s) {
            Ok((negative, mantissa, scale)) => Ok(
                ValueV::Decimal(Dec { negative, mantissa, scale }),
            ),
            Err(e) => Err(parse_fail_v(s, qualified_tag_name(ValueType::Decimal), Some(e))),
        }
    }
}

/// What parsing a text as a date under a pattern yields.
pub open spec fn parse_nd_spec(s: Seq<char>, pattern: Seq<char>) -> Result<ValueV, VenumErrorV> {
    if s.len() == 0 {
        Ok(ValueV::Absent)
    } else {
        match nd_parse_of(s, pattern) {
            Ok((y, m, d)) => Ok(ValueV::NaiveDate(DateVal { year: y, month: m, day: d })),
            Err(e) => Err(parse_fail_v(s, qualified_tag_name(ValueType::NaiveDate), Some(e))),
        }
    }
}

/// What parsing a text as a date-time under a pattern yields.
pub open spec fn parse_ndt_spec(s: Seq<char>, pattern: Seq<char>) -> Result<ValueV, VenumErrorV> {
    if s.len() == 0 {
        Ok(ValueV::Absent)
    } else {
        match ndt_parse_of(s, pattern) {
            Ok((y, mo, d, h, mi, sec, na)) => Ok(
                ValueV::NaiveDateTime(
                    DateTimeVal {
                        date: DateVal { year: y, month: mo, day: d },
                        hour: h,
                        minute: mi,
                        second: sec,
                        nano: na,
                    },
                ),
            ),
            Err(e) => Err(
                parse_fail_v(s, qualified_tag_name(ValueType::NaiveDateTime), Some(e)),
            ),
        }
    }
}

/// The offset date-time value built from the fields the `dt_*` names carry.
pub open spec fn dt_value_of(f: (i32, u8, u8, u8, u8, u8, u32, i32)) -> ValueV {
    ValueV::DateTime(
        OffsetDateTimeVal {
            local: DateTimeVal {
                date: DateVal { year: f.0, month: f.1, day: f.2 },
                hour: f.3,
                minute: f.4,
                second: f.5,
                nano: f.6,
            },
            offset_secs: f.7,
        },
    )
}

/// What parsing a text as a zoned date-time under a pattern yields.
pub open spec fn parse_dt_spec(s: Seq<char>, pattern: Seq<char>) -> Result<ValueV, VenumErrorV> {
    if s.len() == 0 {
        Ok(ValueV::Absent)
    } else {
        match dt_parse_of(s, pattern) {
            Ok(f) => Ok(dt_value_of(f)),
            Err(e) => Err(parse_fail_v(s, qualified_tag_name(ValueType::DateTime), Some(e))),
        }
    }
}

/// What parsing a text as an RFC 2822 date-time yields.
pub open spec fn parse_dt_rfc2822_spec(s: Seq<char>) -> Result<ValueV, VenumErrorV> {
    if s.len() == 0 {
        Ok(ValueV::Absent)
    } else {
        match dt_rfc2822_parse_of(s) {
            Ok(f) => Ok(dt_value_of(f)),
            Err(e) => Err(parse_fail_v(s, qualified_tag_name(ValueType::DateTime), Some(e))),
        }
    }
}

/// What parsing a text as an RFC 3339 date-time yields.
pub open spec fn parse_dt_rfc3339_spec(s: Seq<char>) -> Result<ValueV, VenumErrorV> {
    if s.len() == 0 {
        Ok(ValueV::Absent)
    } else {
        match dt_rfc3339_parse_of(s) {
            Ok(f) => Ok(dt_value_of(f)),
            Err(e) => Err(parse_fail_v(s, qualified_tag_name(ValueType::DateTime), Some(e))),
        }
    }
}

/// The diagnostics when a format pattern is handed to a non-date target.
pub open spec fn pattern_msg(pattern: Seq<char>) -> Seq<char> {
    "Chrono pattern: "@ + pattern
}

/// The diagnostics when a floating-point target is asked of the parser,
/// whose text-to-float step lives with the embedding application.
pub open spec fn float_parse_msg() -> Seq<char> {
    "floating-point text is parsed by the embedding application"@
}

/// What the full parser yields for a text, a target tag, an optional date
/// pattern, and the tokens to read as absent. Policy, in order: empty text
/// is the absent value; so is a text listed among the absent tokens; a
/// pattern is honoured for the three date tags and refused elsewhere;
/// otherwise each tag parses by its native textual rule. The two
/// floating-point tags have no native rule here and are refused.
pub open spec fn from_str_spec(
    s: Seq<char>,
    t: ValueType,
    pattern: Option<Seq<char>>,
    absent_tokens: Seq<Seq<char>>,
) -> Result<ValueV, VenumErrorV> {
    if s.len() == 0 {
        Ok(ValueV::Absent)
    } else if exists|i: int| 0 <= i < absent_tokens.len() && absent_tokens[i] == s {
        Ok(ValueV::Absent)
    } else {
        match pattern {
            Some(p) => match t {
                ValueType::NaiveDate => parse_nd_spec(s, p),
                ValueType::NaiveDateTime => parse_ndt_spec(s, p),
                ValueType::DateTime => parse_dt_spec(s, p),
                _ => Err(parse_fail_v(s, qualified_tag_name(t), Some(pattern_msg(p)))),
            },
            None => match t {
                ValueType::Char => parse_char_spec(s),
                ValueType::String => Ok(ValueV::String(s)),
                ValueType::Int8 | ValueType::Int16 | ValueType::Int32 | ValueType::Int64
                    | ValueType::Int128 | ValueType::UInt8 | ValueType::UInt16
                    | ValueType::UInt32 | ValueType::UInt64 | ValueType::UInt128 => parse_int_spec(
                    s,
                    t,
                ),
                ValueType::Float32 | ValueType::Float64 => Err(
                    parse_fail_v(s, qualified_tag_name(t), Some(float_parse_msg())),
                ),
                ValueType::Bool => parse_bool_spec(s),
                ValueType::Decimal => parse_decimal_spec(s),
                ValueType::NaiveDate => parse_nd_spec(s, "%F"@),
                ValueType::NaiveDateTime => {
                    let first = parse_ndt_spec(s, "%Y-%m-%dT%H:%M:%S"@);
                    if first is Ok {
                        first
                    } else {
                        parse_ndt_spec(s, "%Y-%m-%dT%H:%M:%S%.3f"@)
                    }
                },
                ValueType::DateTime => parse_dt_rfc3339_spec(s),
            },
        }
    }
}

impl Value {
    /// The type tag of this value; deriving one from the absent value is
    /// an error, never a default.
    pub fn try_value_type(&self) -> (r: Result<ValueType, VenumError>)
        ensures
            match spec_value_type(self@) {
                Some(t) => r == Ok::<ValueType, VenumError>(t),
                None => r is Err && r->Err_0@ == absent_err_v(),
            },
    {
        match self {
            Value::Absent => Err(absent_err()),
            Value::Char(_) => Ok(ValueType::Char),
            Value::String(_) => Ok(ValueType::String),
            Value::Int8(_) => Ok(ValueType::Int8),
            Value::Int16(_) => Ok(ValueType::Int16),
            Value::Int32(_) => Ok(ValueType::Int32),
            Value::Int64(_) => Ok(ValueType::Int64),
            Value::Int128(_) => Ok(ValueType::Int128),
            Value::UInt8(_) => Ok(ValueType::UInt8),
            Value::UInt16(_) => Ok(ValueType::UInt16),
            Value::UInt32(_) => Ok(ValueType::UInt32),
            Value::UInt64(_) => Ok(ValueType::UInt64),
            Value::UInt128(_) => Ok(ValueType::UInt128),
            Value::Float32(_) => Ok(ValueType::Float32),
            Value::Float64(_) => Ok(ValueType::Float64),
            Value::Bool(_) => Ok(ValueType::Bool),
            Value::Decimal(_) => Ok(ValueType::Decimal),
            Value::NaiveDate(_) => Ok(ValueType::NaiveDate),
            Value::NaiveDateTime(_) => Ok(ValueType::NaiveDateTime),
            Value::DateTime(_) => Ok(ValueType::DateTime),
        }
    }

    /// Parses a one-character text.
    pub fn parse_char_from_str(v: &str) -> (r: Result<Value, VenumError>)
        ensures
            res_v(r) == parse_char_spec(v@),
    {
        let n = v.unicode_len();
        if n == 1 {
            Ok(Value::Char(v.get_char(0)))
        } else if n == 0 {
            Err(
                parse_fail_details(
                    v,
                    ValueType::Char,
                    String::from_str("cannot parse char from empty string"),
                ),
            )
        } else {
            Err(
                parse_fail_details(
                    v,
                    ValueType::Char,
                    String::from_str("too many characters in string"),
                ),
            )
        }
    }

    /// Parses a bool: exactly the literal tokens for true and false.
    pub fn parse_bool_from_str(v: &str) -> (r: Result<Value, VenumError>)
        ensures
            res_v(r) == parse_bool_spec(v@),
    {
        match parse_bool_token(v) {
            Some(b) => Ok(Value::Bool(b)),
            None => Err(
                parse_fail_details(
                    v,
                    ValueType::Bool,
                    String::from_str("provided string was not `true` or `false`"),
                ),
            ),
        }
    }

    /// Parses a decimal exactly; empty text is the absent value.
    pub fn parse_decimal_from_str(v: &str) -> (r: Result<Value, VenumError>)
        ensures
            res_v(r) == parse_decimal_spec(v@),
            r is Ok ==> wf_value(r->Ok_0@),
    {
        if v.is_empty() {
            return Ok(Value::Absent);
        }
        match dec_from_str(v) {
            Ok(d) => Ok(Value::Decimal(d)),
            Err(e) => Err(parse_fail_details(v, ValueType::Decimal, e)),
        }
    }

    /// Parses a date under a strftime-style pattern; empty text is the
    /// absent value.
    pub fn parse_naive_date_from_str(v: &str, chrono_pattern: &str) -> (r: Result<
        Value,
        VenumError,
    >)
        ensures
            res_v(r) == parse_nd_spec(v@, chrono_pattern@),
            r is Ok ==> wf_value(r->Ok_0@),
    {
        if v.is_empty() {
            return Ok(Value::Absent);
        }
        match naive_date_parse(v, chrono_pattern) {
            Ok(d) => Ok(Value::NaiveDate(d)),
            Err(e) => Err(parse_fail_details(v, ValueType::NaiveDate, e)),
        }
    }

    /// Parses a date in the ISO 8601 `%Y-%m-%d` form.
    pub fn parse_naive_date_from_str_iso8601_ymd(v: &str) -> (r: Result<Value, VenumError>)
        ensures
            res_v(r) == parse_nd_spec(v@, "%F"@),
            r is Ok ==> wf_value(r->Ok_0@),
    {
        Value::parse_naive_date_from_str(v, "%F")
    }

    /// Parses a date-time under a strftime-style pattern; empty text is
    /// the absent value.
    pub fn parse_naive_date_time_from_str(v: &str, chrono_pattern: &str) -> (r: Result<
        Value,
        VenumError,
    >)
        ensures
            res_v(r) == parse_ndt_spec(v@, chrono_pattern@),
            r is Ok ==> wf_value(r->Ok_0@),
    {
        if v.is_empty() {
            return Ok(Value::Absent);
        }
        match naive_date_time_parse(v, chrono_pattern) {
            Ok(d) => Ok(Value::NaiveDateTime(d)),
            Err(e) => Err(parse_fail_details(v, ValueType::NaiveDateTime, e)),
        }
    }

    /// Parses a date-time in the ISO 8601 whole-seconds form.
    pub fn parse_naive_date_time_from_str_iso8601_ymd_hms(v: &str) -> (r: Result<
        Value,
        VenumError,
    >)
        ensures
            res_v(r) == parse_ndt_spec(v@, "%Y-%m-%dT%H:%M:%S"@),
            r is Ok ==> wf_value(r->Ok_0@),
    {
        Value::parse_naive_date_time_from_str(v, "%Y-%m-%dT%H:%M:%S")
    }

    /// Parses a date-time in the ISO 8601 form with millisecond precision.
    pub fn parse_naive_date_time_from_str_iso8601_ymd_hms_millies(v: &str) -> (r: Result<
        Value,
        VenumError,
    >)
        ensures
            res_v(r) == parse_ndt_spec(v@, "%Y-%m-%dT%H:%M:%S%.3f"@),
            r is Ok ==> wf_value(r->Ok_0@),
    {
        Value::parse_naive_date_time_from_str(v, "%Y-%m-%dT%H:%M:%S%.3f")
    }

    /// Parses a zoned date-time under a strftime-style pattern; empty text
    /// is the absent value.
    pub fn parse_date_time_from_str(v: &str, chrono_pattern: &str) -> (r: Result<
        Value,
        VenumError,
    >)
        ensures
            res_v(r) == parse_dt_spec(v@, chrono_pattern@),
            r is Ok ==> wf_value(r->Ok_0@),
    {
        if v.is_empty() {
            return Ok(Value::Absent);
        }
        match date_time_parse(v, chrono_pattern) {
            Ok(d) => Ok(Value::DateTime(d)),
            Err(e) => Err(parse_fail_details(v, ValueType::DateTime, e)),
        }
    }

    /// Parses an RFC 2822 date-time.
    pub fn parse_date_time_from_str_rfc2822(v: &str) -> (r: Result<Value, VenumError>)
        ensures
            res_v(r) == parse_dt_rfc2822_spec(v@),
            r is Ok ==> wf_value(r->Ok_0@),
    {
        if v.is_empty() {
            return Ok(Value::Absent);
        }
        match date_time_parse_rfc2822(v) {
            Ok(d) => Ok(Value::DateTime(d)),
            Err(e) => Err(parse_fail_details(v, ValueType::DateTime, e)),
        }
    }

    /// Parses an RFC 3339 date-time.
    pub fn parse_date_time_from_str_rfc3339(v: &str) -> (r: Result<Value, VenumError>)
        ensures
            res_v(r) == parse_dt_rfc3339_spec(v@),
            r is Ok ==> wf_value(r->Ok_0@),
    {
        if v.is_empty() {
            return Ok(Value::Absent);
        }
        match date_time_parse_rfc3339(v) {
            Ok(d) => Ok(Value::DateTime(d)),
            Err(e) => Err(parse_fail_details(v, ValueType::DateTime, e)),
        }
    }
}

} // verus!

verus! {

impl Value {
    /// Parses an `i8` with the standard library's range-checked rule.
    pub fn parse_int8_from_str(v: &str) -> (r: Result<Value, VenumError>)
        ensures
            res_v(r) == parse_int_spec(v@, ValueType::Int8),
    {
        match parse_i128_in_range(v, i8::MIN as i128, i8::MAX as i128) {
            Ok(x) => Ok(Value::Int8(x as i8)),
            Err(k) => Err(
                parse_fail_details(v, ValueType::Int8, String::from_str(int_err_msg_str(k))),
            ),
        }
    }

    /// Parses an `i16` with the standard library's range-checked rule.
    pub fn parse_int16_from_str(v: &str) -> (r: Result<Value, VenumError>)
        ensures
            res_v(r) == parse_int_spec(v@, ValueType::Int16),
    {
        match parse_i128_in_range(v, i16::MIN as i128, i16::MAX as i128) {
            Ok(x) => Ok(Value::Int16(x as i16)),
            Err(k) => Err(
                parse_fail_details(v, ValueType::Int16, String::from_str(int_err_msg_str(k))),
            ),
        }
    }

    /// Parses an `i32` with the standard library's range-checked rule.
    pub fn parse_int32_from_str(v: &str) -> (r: Result<Value, VenumError>)
        ensures
            res_v(r) == parse_int_spec(v@, ValueType::Int32),
    {
        match parse_i128_in_range(v, i32::MIN as i128, i32::MAX as i128) {
            Ok(x) => Ok(Value::Int32(x as i32)),
            Err(k) => Err(
                parse_fail_details(v, ValueType::Int32, String::from_str(int_err_msg_str(k))),
            ),
        }
    }

    /// Parses an `i64` with the standard library's range-checked rule.
    pub fn parse_int64_from_str(v: &str) -> (r: Result<Value, VenumError>)
        ensures
            res_v(r) == parse_int_spec(v@, ValueType::Int64),
    {
        match parse_i128_in_range(v, i64::MIN as i128, i64::MAX as i128) {
            Ok(x) => Ok(Value::Int64(x as i64)),
            Err(k) => Err(
                parse_fail_details(v, ValueType::Int64, String::from_str(int_err_msg_str(k))),
            ),
        }
    }

    /// Parses an `i128` with the standard library's range-checked rule.
    pub fn parse_int128_from_str(v: &str) -> (r: Result<Value, VenumError>)
        ensures
            res_v(r) == parse_int_spec(v@, ValueType::Int128),
    {
        match parse_i128_in_range(v, i128::MIN as i128, i128::MAX as i128) {
            Ok(x) => Ok(Value::Int128(x)),
            Err(k) => Err(
                parse_fail_details(v, ValueType::Int128, String::from_str(int_err_msg_str(k))),
            ),
        }
    }

    /// Parses a `u8` with the standard library's range-checked rule.
    pub fn parse_uint8_from_str(v: &str) -> (r: Result<Value, VenumError>)
        ensures
            res_v(r) == parse_int_spec(v@, ValueType::UInt8),
    {
        match parse_u128_in_range(v, u8::MAX as u128) {
            Ok(x) => Ok(Value::UInt8(x as u8)),
            Err(k) => Err(
                parse_fail_details(v, ValueType::UInt8, String::from_str(int_err_msg_str(k))),
            ),
        }
    }

    /// Parses a `u16` with the standard library's range-checked rule.
    pub fn parse_uint16_from_str(v: &str) -> (r: Result<Value, VenumError>)
        ensures
            res_v(r) == parse_int_spec(v@, ValueType::UInt16),
    {
        match parse_u128_in_range(v, u16::MAX as u128) {
            Ok(x) => Ok(Value::UInt16(x as u16)),
            Err(k) => Err(
                parse_fail_details(v, ValueType::UInt16, String::from_str(int_err_msg_str(k))),
            ),
        }
    }

    /// Parses a `u32` with the standard library's range-checked rule.
    pub fn parse_uint32_from_str(v: &str) -> (r: Result<Value, VenumError>)
        ensures
            res_v(r) == parse_int_spec(v@, ValueType::UInt32),
    {
        match parse_u128_in_range(v, u32::MAX as u128) {
            Ok(x) => Ok(Value::UInt32(x as u32)),
            Err(k) => Err(
                parse_fail_details(v, ValueType::UInt32, String::from_str(int_err_msg_str(k))),
            ),
        }
    }

    /// Parses a `u64` with the standard library's range-checked rule.
    pub fn parse_uint64_from_str(v: &str) -> (r: Result<Value, VenumError>)
        ensures
            res_v(r) == parse_int_spec(v@, ValueType::UInt64),
    {
        match parse_u128_in_range(v, u64::MAX as u128) {
            Ok(x) => Ok(Value::UInt64(x as u64)),
            Err(k) => Err(
                parse_fail_details(v, ValueType::UInt64, String::from_str(int_err_msg_str(k))),
            ),
        }
    }

    /// Parses a `u128` with the standard library's range-checked rule.
    pub fn parse_uint128_from_str(v: &str) -> (r: Result<Value, VenumError>)
        ensures
            res_v(r) == parse_int_spec(v@, ValueType::UInt128),
    {
        match parse_u128_in_range(v, u128::MAX as u128) {
            Ok(x) => Ok(Value::UInt128(x)),
            Err(k) => Err(
                parse_fail_details(v, ValueType::UInt128, String::from_str(int_err_msg_str(k))),
            ),
        }
    }

}

/// The view of an optional pattern argument.
pub open spec fn opt_str_view(p: Option<&str>) -> Option<Seq<char>> {
    match p {
        Some(x) => Some(x@),
        None => None,
    }
}

/// The texts of an optional absent-token list.
pub open spec fn tokens_view(t: Option<Vec<&str>>) -> Seq<Seq<char>> {
    match t {
        Some(v) => v@.map_values(|x: &str| x@),
        None => Seq::empty(),
    }
}

impl Value {
    /// Turns a text into a value of the target tag, reading an empty text
    /// or a listed token as the absent value, and honouring a date pattern
    /// for the three date tags. The caller must remember the intended type
    /// of an absent result: the absent value carries no tag.
    pub fn from_str_and_type_with_chrono_pattern_with_none_map(
        value: &str,
        target_value_type: &ValueType,
        chrono_pattern: Option<&str>,
        as_none: Option<Vec<&str>>,
    ) -> (r: Result<Value, VenumError>)
        ensures
            res_v(r) == from_str_spec(
                value@,
                *target_value_type,
                opt_str_view(chrono_pattern),
                tokens_view(as_none),
            ),
            r is Ok ==> wf_value(r->Ok_0@),
    {
        let ghost toks = tokens_view(as_none);
        if value.is_empty() {
            return Ok(Value::Absent);
        }
        match &as_none {
            Some(none_check_vals) => {
                let n = none_check_vals.len();
                let mut i: usize = 0;
                while i < n
                    invariant
                        0 <= i <= n,
                        n == none_check_vals@.len(),
                        toks == none_check_vals@.map_values(|x: &str| x@),
                        toks == tokens_view(as_none),
                        value@.len() != 0,
                        forall|j: int| 0 <= j < i ==> toks[j] != value@,
                    decreases n - i,
                {
                    if str_eq(none_check_vals[i], value) {
                        proof {
                            assert((i as int) < toks.len() && toks[i as int] == value@);
                            assert(exists|j: int| 0 <= j < toks.len() && toks[j] == value@);
                        }
                        return Ok(Value::Absent);
                    }
                    i = i + 1;
                }
            },
            None => {},
        }
        proof {
            assert(!(exists|i: int| 0 <= i < toks.len() && toks[i] == value@));
        }
        match chrono_pattern {
            Some(p) => match target_value_type {
                ValueType::NaiveDate => Value::parse_naive_date_from_str(value, p),
                ValueType::NaiveDateTime => Value::parse_naive_date_time_from_str(value, p),
                ValueType::DateTime => Value::parse_date_time_from_str(value, p),
                _ => {
                    let mut details = String::from_str("Chrono pattern: ");
                    details.append(p);
                    Err(parse_fail_details(value, *target_value_type, details))
                },
            },
            None => match target_value_type {
                ValueType::Char => Value::parse_char_from_str(value),
                ValueType::String => Ok(Value::String(value.to_owned())),
                ValueType::Int8 => Value::parse_int8_from_str(value),
                ValueType::Int16 => Value::parse_int16_from_str(value),
                ValueType::Int32 => Value::parse_int32_from_str(value),
                ValueType::Int64 => Value::parse_int64_from_str(value),
                ValueType::Int128 => Value::parse_int128_from_str(value),
                ValueType::UInt8 => Value::parse_uint8_from_str(value),
                ValueType::UInt16 => Value::parse_uint16_from_str(value),
                ValueType::UInt32 => Value::parse_uint32_from_str(value),
                ValueType::UInt64 => Value::parse_uint64_from_str(value),
                ValueType::UInt128 => Value::parse_uint128_from_str(value),
                ValueType::Float32 | ValueType::Float64 => Err(
                    parse_fail_details(
                        value,
                        *target_value_type,
                        String::from_str("floating-point text is parsed by the embedding application"),
                    ),
                ),
                ValueType::Bool => Value::parse_bool_from_str(value),
                ValueType::Decimal => Value::parse_decimal_from_str(value),
                ValueType::NaiveDate => Value::parse_naive_date_from_str_iso8601_ymd(value),
                ValueType::NaiveDateTime => {
                    match Value::parse_naive_date_time_from_str_iso8601_ymd_hms(value) {
                        Ok(v) => Ok(v),
                        Err(_) => Value::parse_naive_date_time_from_str_iso8601_ymd_hms_millies(
                            value,
                        ),
                    }
                },
                ValueType::DateTime => Value::parse_date_time_from_str_rfc3339(value),
            },
        }
    }

    /// Turns a text into a value of the target tag with the default rules.
    pub fn from_str_and_type(value: &str, target_value_type: &ValueType) -> (r: Result<
        Value,
        VenumError,
    >)
        ensures
            res_v(r) == from_str_spec(value@, *target_value_type, None, Seq::empty()),
            r is Ok ==> wf_value(r->Ok_0@),
    {
        Self::from_str_and_type_with_chrono_pattern_with_none_map(
            value,
            target_value_type,
            None,
            None,
        )
    }

    /// Turns a text into a value of the target tag, honouring a date
    /// pattern for the three date tags.
    pub fn from_str_and_type_with_chrono_pattern(
        value: &str,
        target_value_type: &ValueType,
        chrono_pattern: &str,
    ) -> (r: Result<Value, VenumError>)
        ensures
            res_v(r) == from_str_spec(
                value@,
                *target_value_type,
                Some(chrono_pattern@),
                Seq::empty(),
            ),
            r is Ok ==> wf_value(r->Ok_0@),
    {
        Self::from_str_and_type_with_chrono_pattern_with_none_map(
            value,
            target_value_type,
            Some(chrono_pattern),
            None,
        )
    }

    /// Turns a text into a value of the target tag, reading the listed
    /// tokens as the absent value.
    pub fn from_str_and_type_with_none_map(
        value: &str,
        target_value_type: &ValueType,
        as_none: Vec<&str>,
    ) -> (r: Result<Value, VenumError>)
        ensures
            res_v(r) == from_str_spec(
                value@,
                *target_value_type,
                None,
                as_none@.map_values(|x: &str| x@),
            ),
            r is Ok ==> wf_value(r->Ok_0@),
    {
        Self::from_str_and_type_with_chrono_pattern_with_none_map(
            value,
            target_value_type,
            None,
            Some(as_none),
        )
    }
}

} // verus!
