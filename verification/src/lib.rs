//! A runtime-typed scalar value model for data ingestion: a tagged union of
//! primitive payloads, a text parser that targets a chosen tag, and a
//! pairwise conversion engine that rejects every lossy coercion.
//!
//! Every payload is held as plain data the contracts can speak about:
//! decimals as sign, 96-bit mantissa and scale; calendar values as their
//! fields; binary floats as IEEE 754 bit patterns whose integer readings
//! are defined and proved in `float_bits`. The decimal and calendar
//! libraries do the textual work behind narrow trusted wrappers; the
//! conversion matrix itself is specified whole in `value_conversions` and
//! its cross-cutting laws are proved in `laws`.

pub mod value_type;
pub mod decimal;
pub mod dates;
pub mod text;
pub mod float_bits;
pub mod value;
pub mod errors_result;
pub mod parse;
pub mod value_conversions;
pub mod value_accessors;
pub mod laws;
