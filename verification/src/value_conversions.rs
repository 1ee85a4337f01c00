use vstd::prelude::*;
use vstd::string::StringExecFns;

use crate::dates::{dt_render_of, nd_render_of, ndt_render_of, naive_date_to_string,
    naive_date_time_to_string, date_time_to_string};
use crate::decimal::{dec_from_str, dec_parse_of, dec_render_of, dec_to_string, mantissa_bound,
    Dec};
use crate::errors_result::{absent_err, absent_err_v, not_rep_err, not_rep_v, res_v, VenumError,
    VenumErrorV};
use crate::float_bits::{apply_sign, f32_encode, f32_encode_int, f32_int_val,
    f32_integer_parts, f32_representable_mag, f32_to_f64_bits, f32_widen, f64_encode,
    f64_encode_int, f64_int_val, f64_integer_parts, f64_representable_mag, f64_sign};
use crate::parse::{int_value_of, parse_nd_spec, parse_ndt_spec, parse_dt_rfc3339_spec};
use crate::text::{bool_parse_spec, bool_render_of, char_to_string, digit_char, digit_val,
    int_parse_spec, int_render_of, is_digit_char, parse_bool_token, parse_i128_in_range,
    parse_u128_in_range, render_bool, render_signed, render_u128};
use crate::value::{wf_value, Value, ValueV};
use crate::value_type::{is_int_type, is_signed_int_type, is_unsigned_int_type, int_type_max,
    int_type_min, ValueType};

verus! {

// The conversion engine: for every (source kind, target tag) pair, one
// rule, stated here as one spec function per target family and proved of
// the executable matrix below. Nothing in the matrix truncates or rounds:
// every lossy case is rejected with `NotRepresentableAs`.

/// The magnitude of `n`.
pub open spec fn abs_of(n: int) -> nat {
    if n < 0 {
        (-n) as nat
    } else {
        n as nat
    }
}

/// The integer payload of a value, where it has one directly: the ten
/// integer kinds carry their number, a bool carries 0 or 1.
pub open spec fn int_payload(v: ValueV) -> Option<int> {
    match v {
        ValueV::Int8(x) => Some(x as int),
        ValueV::Int16(x) => Some(x as int),
        ValueV::Int32(x) => Some(x as int),
        ValueV::Int64(x) => Some(x as int),
        ValueV::Int128(x) => Some(x as int),
        ValueV::UInt8(x) => Some(x as int),
        ValueV::UInt16(x) => Some(x as int),
        ValueV::UInt32(x) => Some(x as int),
        ValueV::UInt64(x) => Some(x as int),
        ValueV::UInt128(x) => Some(x as int),
        _ => None,
    }
}

/// `n` as a value of the integer tag `t` when `t`'s range holds it, else
/// the matrix rejection for `v`.
pub open spec fn int_from_num(v: ValueV, t: ValueType, n: int) -> Result<ValueV, VenumErrorV> {
    if int_type_min(t) <= n <= int_type_max(t) {
        Ok(int_value_of(t, n))
    } else {
        Err(not_rep_v(v, t))
    }
}

/// The rule for the ten integer targets. A string parses under the
/// target's native range-checked rule; a char contributes its decimal
/// digit; numbers convert exactly when the target range holds them; a
/// float or decimal must carry an integer value; a bool becomes 0 or 1;
/// dates never convert. A decimal with its sign bit set never converts to
/// an unsigned target, not even a negative zero.
pub open spec fn int_target_spec(v: ValueV, t: ValueType) -> Result<ValueV, VenumErrorV> {
    match v {
        ValueV::Absent => Err(absent_err_v()),
        ValueV::String(s) => match int_parse_spec(
            s,
            is_signed_int_type(t),
            int_type_min(t),
            int_type_max(t),
        ) {
            Ok(n) => Ok(int_value_of(t, n)),
            Err(_) => Err(not_rep_v(v, t)),
        },
        ValueV::Char(c) => if is_digit_char(c) {
            int_from_num(v, t, digit_val(c))
        } else {
            Err(not_rep_v(v, t))
        },
        ValueV::Float32(b) => match f32_int_val(b) {
            Some(n) => int_from_num(v, t, n),
            None => Err(not_rep_v(v, t)),
        },
        ValueV::Float64(b) => match f64_int_val(b) {
            Some(n) => int_from_num(v, t, n),
            None => Err(not_rep_v(v, t)),
        },
        ValueV::Bool(x) => int_from_num(
            v,
            t,
            if x {
                1
            } else {
                0
            },
        ),
        ValueV::Decimal(d) => if (is_unsigned_int_type(t) ==> !d.negative)
            && d.spec_is_integral() {
            int_from_num(v, t, d.spec_trunc())
        } else {
            Err(not_rep_v(v, t))
        },
        ValueV::NaiveDate(_) | ValueV::NaiveDateTime(_) | ValueV::DateTime(_) => Err(
            not_rep_v(v, t),
        ),
        _ => match int_payload(v) {
            Some(n) => int_from_num(v, t, n),
            None => Err(not_rep_v(v, t)),
        },
    }
}

/// The rule for the `Char` target: only a one-character string or a
/// number holding a single decimal digit converts.
pub open spec fn char_target_spec(v: ValueV) -> Result<ValueV, VenumErrorV> {
    match v {
        ValueV::Absent => Err(absent_err_v()),
        ValueV::Char(_) => Ok(v),
        ValueV::String(s) => if s.len() == 1 {
            Ok(ValueV::Char(s[0]))
        } else {
            Err(not_rep_v(v, ValueType::Char))
        },
        _ => match int_payload(v) {
            Some(n) => if 0 <= n <= 9 {
                Ok(ValueV::Char(digit_char(n)))
            } else {
                Err(not_rep_v(v, ValueType::Char))
            },
            None => Err(not_rep_v(v, ValueType::Char)),
        },
    }
}

/// The rule for the `String` target: every payload renders canonically,
/// except the two binary floats, whose textual rendering lives with the
/// embedding application.
pub open spec fn string_target_spec(v: ValueV) -> Result<ValueV, VenumErrorV> {
    match v {
        ValueV::Absent => Err(absent_err_v()),
        ValueV::Char(c) => Ok(ValueV::String(seq![c])),
        ValueV::String(s) => Ok(ValueV::String(s)),
        ValueV::Bool(b) => Ok(ValueV::String(bool_render_of(b))),
        ValueV::Decimal(d) => Ok(
            ValueV::String(dec_render_of(d.negative, d.mantissa, d.scale)),
        ),
        ValueV::NaiveDate(d) => Ok(ValueV::String(nd_render_of(d.year, d.month, d.day))),
        ValueV::NaiveDateTime(d) => Ok(
            ValueV::String(
                ndt_render_of(
                    d.date.year,
                    d.date.month,
                    d.date.day,
                    d.hour,
                    d.minute,
                    d.second,
                    d.nano,
                ),
            ),
        ),
        ValueV::DateTime(d) => Ok(
            ValueV::String(
                dt_render_of(
                    d.local.date.year,
                    d.local.date.month,
                    d.local.date.day,
                    d.local.hour,
                    d.local.minute,
                    d.local.second,
                    d.local.nano,
                    d.offset_secs,
                ),
            ),
        ),
        ValueV::Float32(_) | ValueV::Float64(_) => Err(not_rep_v(v, ValueType::String)),
        _ => match int_payload(v) {
            Some(n) => Ok(ValueV::String(int_render_of(n))),
            None => Err(not_rep_v(v, ValueType::String)),
        },
    }
}

/// The rule for the `Bool` target: the two literal tokens from a string,
/// exactly 0 or 1 from an integer, nothing else.
pub open spec fn bool_target_spec(v: ValueV) -> Result<ValueV, VenumErrorV> {
    match v {
        ValueV::Absent => Err(absent_err_v()),
        ValueV::Bool(_) => Ok(v),
        ValueV::String(s) => match bool_parse_spec(s) {
            Some(b) => Ok(ValueV::Bool(b)),
            None => Err(not_rep_v(v, ValueType::Bool)),
        },
        _ => match int_payload(v) {
            Some(n) => if n == 1 {
                Ok(ValueV::Bool(true))
            } else if n == 0 {
                Ok(ValueV::Bool(false))
            } else {
                Err(not_rep_v(v, ValueType::Bool))
            },
            None => Err(not_rep_v(v, ValueType::Bool)),
        },
    }
}

/// The integer of the given sign and magnitude as a `Float32` value when
/// binary32 holds it exactly, else the matrix rejection for `v`.
pub open spec fn f32_from_parts(v: ValueV, negative: bool, mag: nat) -> Result<
    ValueV,
    VenumErrorV,
> {
    if f32_representable_mag(mag) {
        Ok(ValueV::Float32(f32_encode_int(negative, mag)))
    } else {
        Err(not_rep_v(v, ValueType::Float32))
    }
}

/// The rule for the `Float32` target: an integer converts exactly or not
/// at all; a double converts when its value is an integer binary32 holds
/// exactly, keeping the sign of a zero; nothing else converts.
pub open spec fn float32_target_spec(v: ValueV) -> Result<ValueV, VenumErrorV> {
    match v {
        ValueV::Absent => Err(absent_err_v()),
        ValueV::Float32(_) => Ok(v),
        ValueV::Float64(b) => match f64_int_val(b) {
            Some(n) => f32_from_parts(v, f64_sign(b), abs_of(n)),
            None => Err(not_rep_v(v, ValueType::Float32)),
        },
        _ => match int_payload(v) {
            Some(n) => f32_from_parts(v, n < 0, abs_of(n)),
            None => Err(not_rep_v(v, ValueType::Float32)),
        },
    }
}

/// The integer of the given sign and magnitude as a `Float64` value when
/// binary64 holds it exactly, else the matrix rejection for `v`.
pub open spec fn f64_from_parts(v: ValueV, negative: bool, mag: nat) -> Result<
    ValueV,
    VenumErrorV,
> {
    if f64_representable_mag(mag) {
        Ok(ValueV::Float64(f64_encode_int(negative, mag)))
    } else {
        Err(not_rep_v(v, ValueType::Float64))
    }
}

/// The rule for the `Float64` target: an integer converts exactly or not
/// at all; a single widens exactly, infinities and NaNs included; nothing
/// else converts.
pub open spec fn float64_target_spec(v: ValueV) -> Result<ValueV, VenumErrorV> {
    match v {
        ValueV::Absent => Err(absent_err_v()),
        ValueV::Float64(_) => Ok(v),
        ValueV::Float32(b) => Ok(ValueV::Float64(f32_to_f64_bits(b))),
        _ => match int_payload(v) {
            Some(n) => f64_from_parts(v, n < 0, abs_of(n)),
            None => Err(not_rep_v(v, ValueType::Float64)),
        },
    }
}

/// The rule for the `Decimal` target: a non-empty string parses exactly;
/// an integer converts when the 96-bit mantissa holds its magnitude;
/// nothing else converts.
pub open spec fn decimal_target_spec(v: ValueV) -> Result<ValueV, VenumErrorV> {
    match v {
        ValueV::Absent => Err(absent_err_v()),
        ValueV::Decimal(_) => Ok(v),
        ValueV::String(s) => if s.len() == 0 {
            Err(not_rep_v(v, ValueType::Decimal))
        } else {
            match dec_parse_of(s) {
                Ok((negative, mantissa, scale)) => Ok(
                    ValueV::Decimal(Dec { negative, mantissa, scale }),
                ),
                Err(_) => Err(not_rep_v(v, ValueType::Decimal)),
            }
        },
        _ => match int_payload(v) {
            Some(n) => if abs_of(n) < mantissa_bound() {
                Ok(
                    ValueV::Decimal(
                        Dec { negative: n < 0, mantissa: abs_of(n) as u128, scale: 0 },
                    ),
                )
            } else {
                Err(not_rep_v(v, ValueType::Decimal))
            },
            None => Err(not_rep_v(v, ValueType::Decimal)),
        },
    }
}

/// The rule for the three date targets: the same tag passes unchanged, a
/// non-empty string parses under the tag's default textual rule, and
/// nothing else converts.
pub open spec fn date_target_spec(v: ValueV, t: ValueType) -> Result<ValueV, VenumErrorV> {
    match v {
        ValueV::Absent => Err(absent_err_v()),
        ValueV::String(s) => if s.len() == 0 {
            Err(not_rep_v(v, t))
        } else {
            let parsed = match t {
                ValueType::NaiveDate => parse_nd_spec(s, "%F"@),
                ValueType::NaiveDateTime => {
                    let first = parse_ndt_spec(s, "%Y-%m-%dT%H:%M:%S"@);
                    if first is Ok {
                        first
                    } else {
                        parse_ndt_spec(s, "%Y-%m-%dT%H:%M:%S%.3f"@)
                    }
                },
                _ => parse_dt_rfc3339_spec(s),
            };
            match parsed {
                Ok(d) => Ok(d),
                Err(_) => Err(not_rep_v(v, t)),
            }
        },
        ValueV::NaiveDate(_) => if t is NaiveDate {
            Ok(v)
        } else {
            Err(not_rep_v(v, t))
        },
        ValueV::NaiveDateTime(_) => if t is NaiveDateTime {
            Ok(v)
        } else {
            Err(not_rep_v(v, t))
        },
        ValueV::DateTime(_) => if t is DateTime {
            Ok(v)
        } else {
            Err(not_rep_v(v, t))
        },
        _ => Err(not_rep_v(v, t)),
    }
}

/// The whole 19-by-19 conversion matrix: what `try_convert_to` returns
/// for a value `v` and a target tag `t`.
pub open spec fn convert_to_spec(v: ValueV, t: ValueType) -> Result<ValueV, VenumErrorV> {
    match t {
        ValueType::Char => char_target_spec(v),
        ValueType::String => string_target_spec(v),
        ValueType::Float32 => float32_target_spec(v),
        ValueType::Float64 => float64_target_spec(v),
        ValueType::Bool => bool_target_spec(v),
        ValueType::Decimal => decimal_target_spec(v),
        ValueType::NaiveDate | ValueType::NaiveDateTime | ValueType::DateTime => date_target_spec(
            v,
            t,
        ),
        _ => int_target_spec(v, t),
    }
}

} // verus!

verus! {

/// Sign and magnitude of a signed payload.
fn i128_parts(w: i128) -> (r: (bool, u128))
    ensures
        r.0 == (w < 0),
        r.1 as nat == abs_of(w as int),
{
    if w < 0 {
        if w == i128::MIN {
            (true, 0x8000_0000_0000_0000_0000_0000_0000_0000u128)
        } else {
            (true, (-w) as u128)
        }
    } else {
        (false, w as u128)
    }
}

/// The largest value the integer tag holds.
fn umax_of(t: ValueType) -> (r: u128)
    requires
        is_int_type(t),
    ensures
        r as int == int_type_max(t),
{
    match t {
        ValueType::Int8 => i8::MAX as u128,
        ValueType::Int16 => i16::MAX as u128,
        ValueType::Int32 => i32::MAX as u128,
        ValueType::Int64 => i64::MAX as u128,
        ValueType::Int128 => i128::MAX as u128,
        ValueType::UInt8 => u8::MAX as u128,
        ValueType::UInt16 => u16::MAX as u128,
        ValueType::UInt32 => u32::MAX as u128,
        ValueType::UInt64 => u64::MAX as u128,
        _ => u128::MAX,
    }
}

/// The magnitude of the smallest value the integer tag holds: zero for the
/// unsigned tags.
fn negmag_of(t: ValueType) -> (r: u128)
    requires
        is_int_type(t),
    ensures
        r as int == -int_type_min(t),
        r > 0 ==> is_signed_int_type(t),
{
    match t {
        ValueType::Int8 => 128,
        ValueType::Int16 => 32768,
        ValueType::Int32 => 2147483648,
        ValueType::Int64 => 9223372036854775808,
        ValueType::Int128 => 0x8000_0000_0000_0000_0000_0000_0000_0000,
        _ => 0,
    }
}

/// The smallest value the signed integer tag holds.
fn smin_of(t: ValueType) -> (r: i128)
    requires
        is_signed_int_type(t),
    ensures
        r as int == int_type_min(t),
{
    match t {
        ValueType::Int8 => i8::MIN as i128,
        ValueType::Int16 => i16::MIN as i128,
        ValueType::Int32 => i32::MIN as i128,
        ValueType::Int64 => i64::MIN as i128,
        _ => i128::MIN,
    }
}

/// The largest value the signed integer tag holds.
fn smax_of(t: ValueType) -> (r: i128)
    requires
        is_signed_int_type(t),
    ensures
        r as int == int_type_max(t),
{
    match t {
        ValueType::Int8 => i8::MAX as i128,
        ValueType::Int16 => i16::MAX as i128,
        ValueType::Int32 => i32::MAX as i128,
        ValueType::Int64 => i64::MAX as i128,
        _ => i128::MAX,
    }
}

/// The value of the integer tag `t` holding the nonnegative number `x`.
fn value_from_u128(t: ValueType, x: u128) -> (r: Value)
    requires
        is_int_type(t),
        x as int <= int_type_max(t),
    ensures
        r@ == int_value_of(t, x as int),
        wf_value(r@),
{
    match t {
        ValueType::Int8 => Value::Int8(x as i8),
        ValueType::Int16 => Value::Int16(x as i16),
        ValueType::Int32 => Value::Int32(x as i32),
        ValueType::Int64 => Value::Int64(x as i64),
        ValueType::Int128 => Value::Int128(x as i128),
        ValueType::UInt8 => Value::UInt8(x as u8),
        ValueType::UInt16 => Value::UInt16(x as u16),
        ValueType::UInt32 => Value::UInt32(x as u32),
        ValueType::UInt64 => Value::UInt64(x as u64),
        _ => Value::UInt128(x),
    }
}

/// The value of the signed integer tag `t` holding `-mag`.
fn value_from_neg(t: ValueType, mag: u128) -> (r: Value)
    requires
        is_signed_int_type(t),
        mag as int <= -int_type_min(t),
    ensures
        r@ == int_value_of(t, -(mag as int)),
        wf_value(r@),
{
    match t {
        ValueType::Int8 => if mag == 128 {
            Value::Int8(i8::MIN)
        } else {
            Value::Int8(-(mag as i8))
        },
        ValueType::Int16 => if mag == 32768 {
            Value::Int16(i16::MIN)
        } else {
            Value::Int16(-(mag as i16))
        },
        ValueType::Int32 => if mag == 2147483648 {
            Value::Int32(i32::MIN)
        } else {
            Value::Int32(-(mag as i32))
        },
        ValueType::Int64 => if mag == 9223372036854775808 {
            Value::Int64(i64::MIN)
        } else {
            Value::Int64(-(mag as i64))
        },
        _ => if mag == 0x8000_0000_0000_0000_0000_0000_0000_0000 {
            Value::Int128(i128::MIN)
        } else {
            Value::Int128(-(mag as i128))
        },
    }
}

impl Value {
    /// Finishes an integer-target conversion from a sign and magnitude:
    /// exact when the target range holds the number, rejected otherwise.
    fn finish_int(&self, t: ValueType, neg: bool, mag: u128) -> (r: Result<Value, VenumError>)
        requires
            is_int_type(t),
        ensures
            res_v(r) == int_from_num(self@, t, apply_sign(neg, mag as int)),
            r is Ok ==> wf_value(r->Ok_0@),
    {
        if neg && mag > 0 {
            let negmag = negmag_of(t);
            if mag <= negmag {
                Ok(value_from_neg(t, mag))
            } else {
                Err(not_rep_err(self, t))
            }
        } else {
            let umax = umax_of(t);
            if mag <= umax {
                Ok(value_from_u128(t, mag))
            } else {
                Err(not_rep_err(self, t))
            }
        }
    }

    /// The conversion into the integer tag `t`.
    fn convert_int_tagged(&self, t: ValueType) -> (r: Result<Value, VenumError>)
        requires
            wf_value(self@),
            is_int_type(t),
        ensures
            res_v(r) == int_target_spec(self@, t),
            r is Ok ==> wf_value(r->Ok_0@),
    {
        match self {
            Value::Absent => Err(absent_err()),
            Value::String(s) => {
                if t.is_some_signed_int_type() {
                    match parse_i128_in_range(s.as_str(), smin_of(t), smax_of(t)) {
                        Ok(x) => {
                            let (neg, mag) = i128_parts(x);
                            if neg {
                                Ok(value_from_neg(t, mag))
                            } else {
                                Ok(value_from_u128(t, mag))
                            }
                        },
                        Err(_) => Err(not_rep_err(self, t)),
                    }
                } else {
                    match parse_u128_in_range(s.as_str(), umax_of(t)) {
                        Ok(x) => Ok(value_from_u128(t, x)),
                        Err(_) => Err(not_rep_err(self, t)),
                    }
                }
            },
            Value::Char(c) => {
                let u = *c as u32;
                if 48 <= u && u <= 57 {
                    self.finish_int(t, false, (u - 48) as u128)
                } else {
                    Err(not_rep_err(self, t))
                }
            },
            Value::Int8(x) => {
                let (neg, mag) = i128_parts(*x as i128);
                self.finish_int(t, neg, mag)
            },
            Value::Int16(x) => {
                let (neg, mag) = i128_parts(*x as i128);
                self.finish_int(t, neg, mag)
            },
            Value::Int32(x) => {
                let (neg, mag) = i128_parts(*x as i128);
                self.finish_int(t, neg, mag)
            },
            Value::Int64(x) => {
                let (neg, mag) = i128_parts(*x as i128);
                self.finish_int(t, neg, mag)
            },
            Value::Int128(x) => {
                let (neg, mag) = i128_parts(*x);
                self.finish_int(t, neg, mag)
            },
            Value::UInt8(x) => self.finish_int(t, false, *x as u128),
            Value::UInt16(x) => self.finish_int(t, false, *x as u128),
            Value::UInt32(x) => self.finish_int(t, false, *x as u128),
            Value::UInt64(x) => self.finish_int(t, false, *x as u128),
            Value::UInt128(x) => self.finish_int(t, false, *x),
            Value::Float32(b) => match f32_integer_parts(*b) {
                Some((neg, mag)) => self.finish_int(t, neg, mag),
                None => Err(not_rep_err(self, t)),
            },
            Value::Float64(b) => match f64_integer_parts(*b) {
                Some((neg, mag)) => self.finish_int(t, neg, mag),
                None => {
                    proof {
                        vstd::arithmetic::power2::lemma_pow2_adds(64, 64);
                        vstd::arithmetic::power2::lemma2_to64();
                        let n = f64_int_val(*b);
                        if n is Some {
                            assert(int_from_num(self@, t, n->0) == Err::<ValueV, _>(
                                not_rep_v(self@, t),
                            ));
                        }
                    }
                    Err(not_rep_err(self, t))
                },
            },
            Value::Bool(x) => {
                if *x {
                    self.finish_int(t, false, 1)
                } else {
                    self.finish_int(t, false, 0)
                }
            },
            Value::Decimal(d) => {
                if !d.is_integral() {
                    Err(not_rep_err(self, t))
                } else if t.is_some_unsigned_int_type() && d.negative {
                    Err(not_rep_err(self, t))
                } else {
                    let mag = d.trunc_abs();
                    self.finish_int(t, d.negative, mag)
                }
            },
            Value::NaiveDate(_) | Value::NaiveDateTime(_) | Value::DateTime(_) => Err(
                not_rep_err(self, t),
            ),
        }
    }
}

} // verus!

verus! {

impl Value {
    /// Finishes a `Char`-target conversion from an integer payload.
    fn char_from_int(&self, w: i128) -> (r: Result<Value, VenumError>)
        requires
            int_payload(self@) == Some(w as int),
        ensures
            res_v(r) == char_target_spec(self@),
            r is Ok ==> wf_value(r->Ok_0@),
    {
        if 0 <= w && w <= 9 {
            Ok(Value::Char((48 + w as u8) as char))
        } else {
            Err(not_rep_err(self, ValueType::Char))
        }
    }

    /// Converts into a one-character value: only a one-character string
    /// or a number holding a single decimal digit succeeds.
    pub fn try_convert_to_char(&self) -> (r: Result<Value, VenumError>)
        requires
            wf_value(self@),
        ensures
            res_v(r) == char_target_spec(self@),
            r is Ok ==> wf_value(r->Ok_0@),
    {
        match self {
            Value::Absent => Err(absent_err()),
            Value::Char(_) => Ok(self.duplicate()),
            Value::String(s) => {
                if s.as_str().unicode_len() == 1 {
                    Ok(Value::Char(s.as_str().get_char(0)))
                } else {
                    Err(not_rep_err(self, ValueType::Char))
                }
            },
            Value::Int8(x) => self.char_from_int(*x as i128),
            Value::Int16(x) => self.char_from_int(*x as i128),
            Value::Int32(x) => self.char_from_int(*x as i128),
            Value::Int64(x) => self.char_from_int(*x as i128),
            Value::Int128(x) => self.char_from_int(*x),
            Value::UInt8(x) => self.char_from_int(*x as i128),
            Value::UInt16(x) => self.char_from_int(*x as i128),
            Value::UInt32(x) => self.char_from_int(*x as i128),
            Value::UInt64(x) => self.char_from_int(*x as i128),
            Value::UInt128(x) => {
                if *x <= 9 {
                    Ok(Value::Char((48 + *x as u8) as char))
                } else {
                    Err(not_rep_err(self, ValueType::Char))
                }
            },
            _ => Err(not_rep_err(self, ValueType::Char)),
        }
    }

    /// Converts into a string: every payload renders canonically, except
    /// the two binary floats, whose rendering lives with the embedding
    /// application.
    pub fn try_convert_to_string(&self) -> (r: Result<Value, VenumError>)
        requires
            wf_value(self@),
        ensures
            res_v(r) == string_target_spec(self@),
            r is Ok ==> wf_value(r->Ok_0@),
    {
        match self {
            Value::Absent => Err(absent_err()),
            Value::Char(c) => Ok(Value::String(char_to_string(*c))),
            Value::String(_) => Ok(self.duplicate()),
            Value::Int8(x) => {
                let (neg, mag) = i128_parts(*x as i128);
                Ok(Value::String(render_signed(neg, mag)))
            },
            Value::Int16(x) => {
                let (neg, mag) = i128_parts(*x as i128);
                Ok(Value::String(render_signed(neg, mag)))
            },
            Value::Int32(x) => {
                let (neg, mag) = i128_parts(*x as i128);
                Ok(Value::String(render_signed(neg, mag)))
            },
            Value::Int64(x) => {
                let (neg, mag) = i128_parts(*x as i128);
                Ok(Value::String(render_signed(neg, mag)))
            },
            Value::Int128(x) => {
                let (neg, mag) = i128_parts(*x);
                Ok(Value::String(render_signed(neg, mag)))
            },
            Value::UInt8(x) => Ok(Value::String(render_u128(*x as u128))),
            Value::UInt16(x) => Ok(Value::String(render_u128(*x as u128))),
            Value::UInt32(x) => Ok(Value::String(render_u128(*x as u128))),
            Value::UInt64(x) => Ok(Value::String(render_u128(*x as u128))),
            Value::UInt128(x) => Ok(Value::String(render_u128(*x))),
            Value::Float32(_) | Value::Float64(_) => Err(not_rep_err(self, ValueType::String)),
            Value::Bool(b) => Ok(Value::String(String::from_str(render_bool(*b)))),
            Value::Decimal(d) => Ok(Value::String(dec_to_string(d))),
            Value::NaiveDate(d) => Ok(Value::String(naive_date_to_string(d))),
            Value::NaiveDateTime(d) => Ok(Value::String(naive_date_time_to_string(d))),
            Value::DateTime(d) => Ok(Value::String(date_time_to_string(d))),
        }
    }

    /// Finishes a `Bool`-target conversion from an integer payload.
    fn bool_from_int(&self, w: i128) -> (r: Result<Value, VenumError>)
        requires
            int_payload(self@) == Some(w as int),
        ensures
            res_v(r) == bool_target_spec(self@),
            r is Ok ==> wf_value(r->Ok_0@),
    {
        if w == 1 {
            Ok(Value::Bool(true))
        } else if w == 0 {
            Ok(Value::Bool(false))
        } else {
            Err(not_rep_err(self, ValueType::Bool))
        }
    }

    /// Converts into a bool: the two literal tokens from a string,
    /// exactly 0 or 1 from an integer, nothing else.
    pub fn try_convert_to_bool(&self) -> (r: Result<Value, VenumError>)
        requires
            wf_value(self@),
        ensures
            res_v(r) == bool_target_spec(self@),
            r is Ok ==> wf_value(r->Ok_0@),
    {
        match self {
            Value::Absent => Err(absent_err()),
            Value::Bool(_) => Ok(self.duplicate()),
            Value::String(s) => match parse_bool_token(s.as_str()) {
                Some(b) => Ok(Value::Bool(b)),
                None => Err(not_rep_err(self, ValueType::Bool)),
            },
            Value::Int8(x) => self.bool_from_int(*x as i128),
            Value::Int16(x) => self.bool_from_int(*x as i128),
            Value::Int32(x) => self.bool_from_int(*x as i128),
            Value::Int64(x) => self.bool_from_int(*x as i128),
            Value::Int128(x) => self.bool_from_int(*x),
            Value::UInt8(x) => self.bool_from_int(*x as i128),
            Value::UInt16(x) => self.bool_from_int(*x as i128),
            Value::UInt32(x) => self.bool_from_int(*x as i128),
            Value::UInt64(x) => self.bool_from_int(*x as i128),
            Value::UInt128(x) => {
                if *x == 1 {
                    Ok(Value::Bool(true))
                } else if *x == 0 {
                    Ok(Value::Bool(false))
                } else {
                    Err(not_rep_err(self, ValueType::Bool))
                }
            },
            _ => Err(not_rep_err(self, ValueType::Bool)),
        }
    }

    /// Finishes a `Float32`-target conversion from a sign and magnitude.
    fn f32_from_int_parts(&self, neg: bool, mag: u128) -> (r: Result<Value, VenumError>)
        ensures
            res_v(r) == f32_from_parts(self@, neg, mag as nat),
            r is Ok ==> wf_value(r->Ok_0@),
    {
        match f32_encode(neg, mag) {
            Some(bits) => Ok(Value::Float32(bits)),
            None => Err(not_rep_err(self, ValueType::Float32)),
        }
    }

    /// Converts into a binary32 value: an integer converts exactly or not
    /// at all, and a binary64 converts when its value is an integer
    /// binary32 holds exactly.
    pub fn try_convert_to_float32(&self) -> (r: Result<Value, VenumError>)
        requires
            wf_value(self@),
        ensures
            res_v(r) == float32_target_spec(self@),
            r is Ok ==> wf_value(r->Ok_0@),
    {
        match self {
            Value::Absent => Err(absent_err()),
            Value::Float32(_) => Ok(self.duplicate()),
            Value::Float64(b) => match f64_integer_parts(*b) {
                Some((neg, mag)) => self.f32_from_int_parts(neg, mag),
                None => {
                    proof {
                        vstd::arithmetic::power2::lemma_pow2_adds(64, 64);
                        vstd::arithmetic::power2::lemma2_to64();
                    }
                    Err(not_rep_err(self, ValueType::Float32))
                },
            },
            Value::Int8(x) => {
                let (neg, mag) = i128_parts(*x as i128);
                self.f32_from_int_parts(neg, mag)
            },
            Value::Int16(x) => {
                let (neg, mag) = i128_parts(*x as i128);
                self.f32_from_int_parts(neg, mag)
            },
            Value::Int32(x) => {
                let (neg, mag) = i128_parts(*x as i128);
                self.f32_from_int_parts(neg, mag)
            },
            Value::Int64(x) => {
                let (neg, mag) = i128_parts(*x as i128);
                self.f32_from_int_parts(neg, mag)
            },
            Value::Int128(x) => {
                let (neg, mag) = i128_parts(*x);
                self.f32_from_int_parts(neg, mag)
            },
            Value::UInt8(x) => self.f32_from_int_parts(false, *x as u128),
            Value::UInt16(x) => self.f32_from_int_parts(false, *x as u128),
            Value::UInt32(x) => self.f32_from_int_parts(false, *x as u128),
            Value::UInt64(x) => self.f32_from_int_parts(false, *x as u128),
            Value::UInt128(x) => self.f32_from_int_parts(false, *x),
            _ => Err(not_rep_err(self, ValueType::Float32)),
        }
    }

    /// Finishes a `Float64`-target conversion from a sign and magnitude.
    fn f64_from_int_parts(&self, neg: bool, mag: u128) -> (r: Result<Value, VenumError>)
        ensures
            res_v(r) == f64_from_parts(self@, neg, mag as nat),
            r is Ok ==> wf_value(r->Ok_0@),
    {
        match f64_encode(neg, mag) {
            Some(bits) => Ok(Value::Float64(bits)),
            None => Err(not_rep_err(self, ValueType::Float64)),
        }
    }

    /// Converts into a binary64 value: an integer converts exactly or not
    /// at all, and a binary32 widens exactly.
    pub fn try_convert_to_float64(&self) -> (r: Result<Value, VenumError>)
        requires
            wf_value(self@),
        ensures
            res_v(r) == float64_target_spec(self@),
            r is Ok ==> wf_value(r->Ok_0@),
    {
        match self {
            Value::Absent => Err(absent_err()),
            Value::Float64(_) => Ok(self.duplicate()),
            Value::Float32(b) => Ok(Value::Float64(f32_widen(*b))),
            Value::Int8(x) => {
                let (neg, mag) = i128_parts(*x as i128);
                self.f64_from_int_parts(neg, mag)
            },
            Value::Int16(x) => {
                let (neg, mag) = i128_parts(*x as i128);
                self.f64_from_int_parts(neg, mag)
            },
            Value::Int32(x) => {
                let (neg, mag) = i128_parts(*x as i128);
                self.f64_from_int_parts(neg, mag)
            },
            Value::Int64(x) => {
                let (neg, mag) = i128_parts(*x as i128);
                self.f64_from_int_parts(neg, mag)
            },
            Value::Int128(x) => {
                let (neg, mag) = i128_parts(*x);
                self.f64_from_int_parts(neg, mag)
            },
            Value::UInt8(x) => self.f64_from_int_parts(false, *x as u128),
            Value::UInt16(x) => self.f64_from_int_parts(false, *x as u128),
            Value::UInt32(x) => self.f64_from_int_parts(false, *x as u128),
            Value::UInt64(x) => self.f64_from_int_parts(false, *x as u128),
            Value::UInt128(x) => self.f64_from_int_parts(false, *x),
            _ => Err(not_rep_err(self, ValueType::Float64)),
        }
    }

    /// Finishes a `Decimal`-target conversion from an integer payload's
    /// sign and magnitude.
    fn decimal_from_int_parts(&self, neg: bool, mag: u128) -> (r: Result<Value, VenumError>)
        requires
            int_payload(self@) == Some(apply_sign(neg, mag as int)),
            neg ==> mag > 0,
        ensures
            res_v(r) == decimal_target_spec(self@),
            r is Ok ==> wf_value(r->Ok_0@),
    {
        if mag < 0x1000000000000000000000000 {
            Ok(Value::Decimal(Dec { negative: neg, mantissa: mag, scale: 0 }))
        } else {
            Err(not_rep_err(self, ValueType::Decimal))
        }
    }

    /// Converts into a decimal: a non-empty string parses exactly, and an
    /// integer converts when the 96-bit mantissa holds its magnitude.
    pub fn try_convert_to_decimal(&self) -> (r: Result<Value, VenumError>)
        requires
            wf_value(self@),
        ensures
            res_v(r) == decimal_target_spec(self@),
            r is Ok ==> wf_value(r->Ok_0@),
    {
        match self {
            Value::Absent => Err(absent_err()),
            Value::Decimal(_) => Ok(self.duplicate()),
            Value::String(s) => {
                if s.as_str().is_empty() {
                    Err(not_rep_err(self, ValueType::Decimal))
                } else {
                    match dec_from_str(s.as_str()) {
                        Ok(d) => Ok(Value::Decimal(d)),
                        Err(_) => Err(not_rep_err(self, ValueType::Decimal)),
                    }
                }
            },
            Value::Int8(x) => {
                let (neg, mag) = i128_parts(*x as i128);
                self.decimal_from_int_parts(neg, mag)
            },
            Value::Int16(x) => {
                let (neg, mag) = i128_parts(*x as i128);
                self.decimal_from_int_parts(neg, mag)
            },
            Value::Int32(x) => {
                let (neg, mag) = i128_parts(*x as i128);
                self.decimal_from_int_parts(neg, mag)
            },
            Value::Int64(x) => {
                let (neg, mag) = i128_parts(*x as i128);
                self.decimal_from_int_parts(neg, mag)
            },
            Value::Int128(x) => {
                let (neg, mag) = i128_parts(*x);
                self.decimal_from_int_parts(neg, mag)
            },
            Value::UInt8(x) => self.decimal_from_int_parts(false, *x as u128),
            Value::UInt16(x) => self.decimal_from_int_parts(false, *x as u128),
            Value::UInt32(x) => self.decimal_from_int_parts(false, *x as u128),
            Value::UInt64(x) => self.decimal_from_int_parts(false, *x as u128),
            Value::UInt128(x) => self.decimal_from_int_parts(false, *x),
            _ => Err(not_rep_err(self, ValueType::Decimal)),
        }
    }

    /// Converts into a date: the same tag passes unchanged and a
    /// non-empty string parses in the ISO 8601 `%Y-%m-%d` form.
    pub fn try_convert_to_naive_date(&self) -> (r: Result<Value, VenumError>)
        requires
            wf_value(self@),
        ensures
            res_v(r) == date_target_spec(self@, ValueType::NaiveDate),
            r is Ok ==> wf_value(r->Ok_0@),
    {
        match self {
            Value::Absent => Err(absent_err()),
            Value::NaiveDate(_) => Ok(self.duplicate()),
            Value::String(s) => {
                if s.as_str().is_empty() {
                    Err(not_rep_err(self, ValueType::NaiveDate))
                } else {
                    match Value::parse_naive_date_from_str_iso8601_ymd(s.as_str()) {
                        Ok(v) => Ok(v),
                        Err(_) => Err(not_rep_err(self, ValueType::NaiveDate)),
                    }
                }
            },
            _ => Err(not_rep_err(self, ValueType::NaiveDate)),
        }
    }

    /// Converts into a date-time: the same tag passes unchanged and a
    /// non-empty string parses in the ISO 8601 whole-seconds form, then
    /// with millisecond precision.
    pub fn try_convert_to_naive_date_time(&self) -> (r: Result<Value, VenumError>)
        requires
            wf_value(self@),
        ensures
            res_v(r) == date_target_spec(self@, ValueType::NaiveDateTime),
            r is Ok ==> wf_value(r->Ok_0@),
    {
        match self {
            Value::Absent => Err(absent_err()),
            Value::NaiveDateTime(_) => Ok(self.duplicate()),
            Value::String(s) => {
                if s.as_str().is_empty() {
                    Err(not_rep_err(self, ValueType::NaiveDateTime))
                } else {
                    match Value::parse_naive_date_time_from_str_iso8601_ymd_hms(s.as_str()) {
                        Ok(v) => Ok(v),
                        Err(_) => match Value::parse_naive_date_time_from_str_iso8601_ymd_hms_millies(
                            s.as_str(),
                        ) {
                            Ok(v) => Ok(v),
                            Err(_) => Err(not_rep_err(self, ValueType::NaiveDateTime)),
                        },
                    }
                }
            },
            _ => Err(not_rep_err(self, ValueType::NaiveDateTime)),
        }
    }

    /// Converts into a zoned date-time: the same tag passes unchanged and
    /// a non-empty string parses in the RFC 3339 form.
    pub fn try_convert_to_date_time(&self) -> (r: Result<Value, VenumError>)
        requires
            wf_value(self@),
        ensures
            res_v(r) == date_target_spec(self@, ValueType::DateTime),
            r is Ok ==> wf_value(r->Ok_0@),
    {
        match self {
            Value::Absent => Err(absent_err()),
            Value::DateTime(_) => Ok(self.duplicate()),
            Value::String(s) => {
                if s.as_str().is_empty() {
                    Err(not_rep_err(self, ValueType::DateTime))
                } else {
                    match Value::parse_date_time_from_str_rfc3339(s.as_str()) {
                        Ok(v) => Ok(v),
                        Err(_) => Err(not_rep_err(self, ValueType::DateTime)),
                    }
                }
            },
            _ => Err(not_rep_err(self, ValueType::DateTime)),
        }
    }

    /// Converts into the `Int8` tag under the matrix's integer rule.
    pub fn try_convert_to_int8(&self) -> (r: Result<Value, VenumError>)
        requires
            wf_value(self@),
        ensures
            res_v(r) == convert_to_spec(self@, ValueType::Int8),
            r is Ok ==> wf_value(r->Ok_0@),
    {
        self.convert_int_tagged(ValueType::Int8)
    }

    /// Converts into the `Int16` tag under the matrix's integer rule.
    pub fn try_convert_to_int16(&self) -> (r: Result<Value, VenumError>)
        requires
            wf_value(self@),
        ensures
            res_v(r) == convert_to_spec(self@, ValueType::Int16),
            r is Ok ==> wf_value(r->Ok_0@),
    {
        self.convert_int_tagged(ValueType::Int16)
    }

    /// Converts into the `Int32` tag under the matrix's integer rule.
    pub fn try_convert_to_int32(&self) -> (r: Result<Value, VenumError>)
        requires
            wf_value(self@),
        ensures
            res_v(r) == convert_to_spec(self@, ValueType::Int32),
            r is Ok ==> wf_value(r->Ok_0@),
    {
        self.convert_int_tagged(ValueType::Int32)
    }

    /// Converts into the `Int64` tag under the matrix's integer rule.
    pub fn try_convert_to_int64(&self) -> (r: Result<Value, VenumError>)
        requires
            wf_value(self@),
        ensures
            res_v(r) == convert_to_spec(self@, ValueType::Int64),
            r is Ok ==> wf_value(r->Ok_0@),
    {
        self.convert_int_tagged(ValueType::Int64)
    }

    /// Converts into the `Int128` tag under the matrix's integer rule.
    pub fn try_convert_to_int128(&self) -> (r: Result<Value, VenumError>)
        requires
            wf_value(self@),
        ensures
            res_v(r) == convert_to_spec(self@, ValueType::Int128),
            r is Ok ==> wf_value(r->Ok_0@),
    {
        self.convert_int_tagged(ValueType::Int128)
    }

    /// Converts into the `UInt8` tag under the matrix's integer rule.
    pub fn try_convert_to_uint8(&self) -> (r: Result<Value, VenumError>)
        requires
            wf_value(self@),
        ensures
            res_v(r) == convert_to_spec(self@, ValueType::UInt8),
            r is Ok ==> wf_value(r->Ok_0@),
    {
        self.convert_int_tagged(ValueType::UInt8)
    }

    /// Converts into the `UInt16` tag under the matrix's integer rule.
    pub fn try_convert_to_uint16(&self) -> (r: Result<Value, VenumError>)
        requires
            wf_value(self@),
        ensures
            res_v(r) == convert_to_spec(self@, ValueType::UInt16),
            r is Ok ==> wf_value(r->Ok_0@),
    {
        self.convert_int_tagged(ValueType::UInt16)
    }

    /// Converts into the `UInt32` tag under the matrix's integer rule.
    pub fn try_convert_to_uint32(&self) -> (r: Result<Value, VenumError>)
        requires
            wf_value(self@),
        ensures
            res_v(r) == convert_to_spec(self@, ValueType::UInt32),
            r is Ok ==> wf_value(r->Ok_0@),
    {
        self.convert_int_tagged(ValueType::UInt32)
    }

    /// Converts into the `UInt64` tag under the matrix's integer rule.
    pub fn try_convert_to_uint64(&self) -> (r: Result<Value, VenumError>)
        requires
            wf_value(self@),
        ensures
            res_v(r) == convert_to_spec(self@, ValueType::UInt64),
            r is Ok ==> wf_value(r->Ok_0@),
    {
        self.convert_int_tagged(ValueType::UInt64)
    }

    /// Converts into the `UInt128` tag under the matrix's integer rule.
    pub fn try_convert_to_uint128(&self) -> (r: Result<Value, VenumError>)
        requires
            wf_value(self@),
        ensures
            res_v(r) == convert_to_spec(self@, ValueType::UInt128),
            r is Ok ==> wf_value(r->Ok_0@),
    {
        self.convert_int_tagged(ValueType::UInt128)
    }

    /// Converts this value into the target tag, applying the matrix's
    /// per-pair rule; every lossy case is rejected, never approximated.
    pub fn try_convert_to(&self, target_type: ValueType) -> (r: Result<Value, VenumError>)
        requires
            wf_value(self@),
        ensures
            res_v(r) == convert_to_spec(self@, target_type),
            r is Ok ==> wf_value(r->Ok_0@),
    {
        match target_type {
            ValueType::Char => self.try_convert_to_char(),
            ValueType::String => self.try_convert_to_string(),
            ValueType::Int8 => self.try_convert_to_int8(),
            ValueType::Int16 => self.try_convert_to_int16(),
            ValueType::Int32 => self.try_convert_to_int32(),
            ValueType::Int64 => self.try_convert_to_int64(),
            ValueType::Int128 => self.try_convert_to_int128(),
            ValueType::UInt8 => self.try_convert_to_uint8(),
            ValueType::UInt16 => self.try_convert_to_uint16(),
            ValueType::UInt32 => self.try_convert_to_uint32(),
            ValueType::UInt64 => self.try_convert_to_uint64(),
            ValueType::UInt128 => self.try_convert_to_uint128(),
            ValueType::Float32 => self.try_convert_to_float32(),
            ValueType::Float64 => self.try_convert_to_float64(),
            ValueType::Bool => self.try_convert_to_bool(),
            ValueType::Decimal => self.try_convert_to_decimal(),
            ValueType::NaiveDate => self.try_convert_to_naive_date(),
            ValueType::NaiveDateTime => self.try_convert_to_naive_date_time(),
            ValueType::DateTime => self.try_convert_to_date_time(),
        }
    }
}

} // verus!
