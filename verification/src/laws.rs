use vstd::prelude::*;

use crate::parse::{from_str_spec, int_value_of};
use crate::value::{spec_value_type, wf_value, ValueV};
use crate::value_conversions::{convert_to_spec, int_payload};
use crate::value_type::{int_type_max, int_type_min, is_int_type, ValueType};
use crate::errors_result::not_rep_v;

verus! {

/// Empty-input invariant: for every target tag, pattern and absent-token
/// configuration, parsing the empty text yields the absent value — never a
/// type-specific default.
pub proof fn lemma_empty_input_is_absent(
    t: ValueType,
    pattern: Option<Seq<char>>,
    absent_tokens: Seq<Seq<char>>,
)
    ensures
        from_str_spec(Seq::empty(), t, pattern, absent_tokens) == Ok::<ValueV, crate::errors_result::VenumErrorV>(ValueV::Absent),
{
}

/// Absent-token invariant: a text listed among the configured absent
/// tokens parses to the absent value, whatever the target tag.
pub proof fn lemma_absent_token_is_absent(
    s: Seq<char>,
    t: ValueType,
    pattern: Option<Seq<char>>,
    absent_tokens: Seq<Seq<char>>,
)
    requires
        absent_tokens.contains(s),
    ensures
        from_str_spec(s, t, pattern, absent_tokens) == Ok::<ValueV, crate::errors_result::VenumErrorV>(ValueV::Absent),
{
}

/// Identity: converting any well-formed value to its own type returns the
/// value unchanged.
pub proof fn lemma_convert_identity(v: ValueV, t: ValueType)
    requires
        wf_value(v),
        spec_value_type(v) == Some(t),
    ensures
        convert_to_spec(v, t) == Ok::<_, crate::errors_result::VenumErrorV>(v),
{
}

/// Widening half of the narrowing/widening duality: when the target
/// integer range contains the source integer range, every value of the
/// source type converts, and converting the result back is lossless.
pub proof fn lemma_int_widening_roundtrip(v: ValueV, n: int, s: ValueType, t: ValueType)
    requires
        is_int_type(s),
        is_int_type(t),
        int_type_min(t) <= int_type_min(s),
        int_type_max(s) <= int_type_max(t),
        spec_value_type(v) == Some(s),
        int_payload(v) == Some(n),
    ensures
        convert_to_spec(v, t) == Ok::<_, crate::errors_result::VenumErrorV>(int_value_of(t, n)),
        convert_to_spec(int_value_of(t, n), s) == Ok::<_, crate::errors_result::VenumErrorV>(v),
{
}

/// Narrowing half of the duality: an integer value outside the target
/// integer range is rejected with `NotRepresentableAs`.
pub proof fn lemma_int_narrowing_rejects(w: ValueV, n: int, s: ValueType, t: ValueType)
    requires
        is_int_type(s),
        is_int_type(t),
        spec_value_type(w) == Some(t),
        int_payload(w) == Some(n),
        n < int_type_min(s) || n > int_type_max(s),
    ensures
        convert_to_spec(w, s) == Err::<ValueV, crate::errors_result::VenumErrorV>(not_rep_v(w, s)),
{
}

} // verus!
