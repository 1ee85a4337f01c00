use vstd::prelude::*;
use vstd::string::StringExecFns;

use crate::value::{Value, ValueV};
use crate::value_type::{qualified_tag_name, ValueType};

verus! {

/// A text could not be parsed into the requested kind of value.
#[derive(Debug, Clone, PartialEq)]
pub enum ParseError {
    ValueFromStringFailed { src_value: String, target_type: String, details: Option<String> },
}

/// A well-formed value could not be turned into the requested kind.
#[derive(Debug, Clone, PartialEq)]
pub enum ConversionError {
    WrongType {
        src_value: String,
        src_type: String,
        target_type: String,
        details: Option<String>,
    },
    Generic { msg: String },
    NotRepresentableAs { src: Value, target_type: ValueType },
    NotRepresentableAsDecimal { src_type: String, src_value: String },
}

/// The library's error: a parse failure, a conversion failure, or a bare
/// message for structural misuse.
#[derive(Debug, Clone, PartialEq)]
pub enum VenumError {
    Generic { msg: String },
    Parsing(ParseError),
    Conversion(ConversionError),
}

/// The mathematical reading of a `ParseError`.
pub enum ParseErrorV {
    ValueFromStringFailed {
        src_value: Seq<char>,
        target_type: Seq<char>,
        details: Option<Seq<char>>,
    },
}

/// The mathematical reading of a `ConversionError`.
pub enum ConversionErrorV {
    WrongType {
        src_value: Seq<char>,
        src_type: Seq<char>,
        target_type: Seq<char>,
        details: Option<Seq<char>>,
    },
    Generic { msg: Seq<char> },
    NotRepresentableAs { src: ValueV, target_type: ValueType },
    NotRepresentableAsDecimal { src_type: Seq<char>, src_value: Seq<char> },
}

/// The mathematical reading of a `VenumError`.
pub enum VenumErrorV {
    Generic { msg: Seq<char> },
    Parsing(ParseErrorV),
    Conversion(ConversionErrorV),
}

impl View for ParseError {
    type V = ParseErrorV;

    open spec fn view(&self) -> ParseErrorV {
        match self {
            ParseError::ValueFromStringFailed { src_value, target_type, details } =>
                ParseErrorV::ValueFromStringFailed {
                src_value: src_value@,
                target_type: target_type@,
                details: match details {
                    Some(d) => Some(d@),
                    None => None,
                },
            },
        }
    }
}

impl View for ConversionError {
    type V = ConversionErrorV;

    open spec fn view(&self) -> ConversionErrorV {
        match self {
            ConversionError::WrongType { src_value, src_type, target_type, details } =>
                ConversionErrorV::WrongType {
                src_value: src_value@,
                src_type: src_type@,
                target_type: target_type@,
                details: match details {
                    Some(d) => Some(d@),
                    None => None,
                },
            },
            ConversionError::Generic { msg } => ConversionErrorV::Generic { msg: msg@ },
            ConversionError::NotRepresentableAs { src, target_type } =>
                ConversionErrorV::NotRepresentableAs { src: src@, target_type: *target_type },
            ConversionError::NotRepresentableAsDecimal { src_type, src_value } =>
                ConversionErrorV::NotRepresentableAsDecimal {
                src_type: src_type@,
                src_value: src_value@,
            },
        }
    }
}

impl View for VenumError {
    type V = VenumErrorV;

    open spec fn view(&self) -> VenumErrorV {
        match self {
            VenumError::Generic { msg } => VenumErrorV::Generic { msg: msg@ },
            VenumError::Parsing(p) => VenumErrorV::Parsing(p@),
            VenumError::Conversion(c) => VenumErrorV::Conversion(c@),
        }
    }
}

/// The message of the error for deriving a type from the absent value.
pub open spec fn absent_value_msg() -> Seq<char> {
    "Cannot convert None as it has no correspondence in target"@
}

/// The error a conversion of the absent value reports.
pub open spec fn absent_err_v() -> VenumErrorV {
    VenumErrorV::Generic { msg: absent_value_msg() }
}

/// The conversion-matrix rejection for a value the target type cannot hold.
pub open spec fn not_rep_v(src: ValueV, target_type: ValueType) -> VenumErrorV {
    VenumErrorV::Conversion(ConversionErrorV::NotRepresentableAs { src, target_type })
}

/// The rejection for a number too large for the decimal's 96-bit mantissa.
pub open spec fn not_rep_dec_v(src_type: Seq<char>, src_value: Seq<char>) -> VenumErrorV {
    VenumErrorV::Conversion(
        ConversionErrorV::NotRepresentableAsDecimal { src_type, src_value },
    )
}

/// The parse failure carrying the offending text, the qualified target tag
/// name, and optional diagnostics.
pub open spec fn parse_fail_v(
    src_value: Seq<char>,
    target_type: Seq<char>,
    details: Option<Seq<char>>,
) -> VenumErrorV {
    VenumErrorV::Parsing(
        ParseErrorV::ValueFromStringFailed { src_value, target_type, details },
    )
}

/// The error a conversion of the absent value reports.
pub fn absent_err() -> (r: VenumError)
    ensures
        r@ == absent_err_v(),
{
    VenumError::Generic {
        msg: String::from_str("Cannot convert None as it has no correspondence in target"),
    }
}

/// The conversion-matrix rejection for `src` under target `target_type`.
pub fn not_rep_err(src: &Value, target_type: ValueType) -> (r: VenumError)
    ensures
        r@ == not_rep_v(src@, target_type),
{
    VenumError::Conversion(
        ConversionError::NotRepresentableAs { src: src.duplicate(), target_type },
    )
}

/// A parse failure for text `src` under the target tag, without diagnostics.
pub fn parse_fail(src: &str, target_type: ValueType) -> (r: VenumError)
    ensures
        r@ == parse_fail_v(src@, qualified_tag_name(target_type), None),
{
    VenumError::Parsing(
        ParseError::ValueFromStringFailed {
            src_value: String::from_str(src),
            target_type: String::from_str(target_type.qualified_name()),
            details: None,
        },
    )
}

/// A parse failure for text `src` under the target tag, with diagnostics.
pub fn parse_fail_details(src: &str, target_type: ValueType, details: String) -> (r: VenumError)
    ensures
        r@ == parse_fail_v(src@, qualified_tag_name(target_type), Some(details@)),
{
    VenumError::Parsing(
        ParseError::ValueFromStringFailed {
            src_value: String::from_str(src),
            target_type: String::from_str(target_type.qualified_name()),
            details: Some(details),
        },
    )
}

} // verus!

verus! {

/// The mathematical reading of a parse or conversion outcome.
pub open spec fn res_v(r: Result<Value, VenumError>) -> Result<ValueV, VenumErrorV> {
    match r {
        Ok(v) => Ok(v@),
        Err(e) => Err(e@),
    }
}

} // verus!
