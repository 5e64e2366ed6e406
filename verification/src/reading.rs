//! Reading validation: each raw sample from the remote service is the
//! bit pattern of a double and is either accepted for publication,
//! recognized as the "not available" sentinel and dropped silently, or
//! rejected as out of range / not finite.

use vstd::prelude::*;
use crate::double_bits::{
    bits_is_finite, bits_le, is_finite, numeric_key, HEADING_MAX_BITS, LAT_MAX_BITS, LAT_MIN_BITS,
    LON_MAX_BITS, LON_MIN_BITS, NEG_ONE_BITS, SENTINEL_FLOOR_BITS, ZERO_BITS,
};
use crate::text::str_eq;

verus! {

/// The six numeric fields of a location reading.
#[derive(Debug, Clone, Copy, PartialEq, Eq, Structural)]
pub enum FieldKind {
    Latitude,
    Longitude,
    Accuracy,
    Altitude,
    Speed,
    Heading,
}

/// Outcome of validating one sample.
#[derive(Debug, Clone, Copy, PartialEq, Eq, Structural)]
pub enum Verdict {
    /// In range: publish to the sink.
    Accepted,
    /// The documented "not available" sentinel: drop silently.
    Absent,
    /// Not finite or out of range: drop and note the rejection.
    Rejected,
}

/// The sample is the remote service's "not available" sentinel: exactly
/// minus one, or any value at or below the sentinel floor.
pub open spec fn is_sentinel(bits: u64) -> bool {
    bits == NEG_ONE_BITS || numeric_key(bits) <= numeric_key(SENTINEL_FLOOR_BITS)
}

/// Field-specific bounds: latitude within plus/minus 90, longitude
/// within plus/minus 180, accuracy and speed nonnegative, heading
/// between 0 and 360, altitude unbounded.
pub open spec fn in_bounds(field: FieldKind, bits: u64) -> bool {
    match field {
        FieldKind::Latitude => numeric_key(LAT_MIN_BITS) <= numeric_key(bits) <= numeric_key(
            LAT_MAX_BITS,
        ),
        FieldKind::Longitude => numeric_key(LON_MIN_BITS) <= numeric_key(bits) <= numeric_key(
            LON_MAX_BITS,
        ),
        FieldKind::Accuracy => numeric_key(bits) >= numeric_key(ZERO_BITS),
        FieldKind::Altitude => true,
        FieldKind::Speed => numeric_key(bits) >= numeric_key(ZERO_BITS),
        FieldKind::Heading => numeric_key(ZERO_BITS) <= numeric_key(bits) <= numeric_key(
            HEADING_MAX_BITS,
        ),
    }
}

/// The validation rules, in order: values that are not finite are
/// rejected; the disconnection sentinel is treated as absent; the rest
/// is judged by the field-specific bounds.
pub open spec fn spec_validate(field: FieldKind, bits: u64) -> Verdict {
    if !is_finite(bits) {
        Verdict::Rejected
    } else if is_sentinel(bits) {
        Verdict::Absent
    } else if in_bounds(field, bits) {
        Verdict::Accepted
    } else {
        Verdict::Rejected
    }
}

/// Validates one sample of the given field.
pub fn validate(field: FieldKind, bits: u64) -> (v: Verdict)
    ensures
        v == spec_validate(field, bits),
{
    if !bits_is_finite(bits) {
        return Verdict::Rejected;
    }
    if bits == NEG_ONE_BITS || bits_le(bits, SENTINEL_FLOOR_BITS) {
        return Verdict::Absent;
    }
    let ok = match field {
        FieldKind::Latitude => bits_le(LAT_MIN_BITS, bits) && bits_le(bits, LAT_MAX_BITS),
        FieldKind::Longitude => bits_le(LON_MIN_BITS, bits) && bits_le(bits, LON_MAX_BITS),
        FieldKind::Accuracy => bits_le(ZERO_BITS, bits),
        FieldKind::Altitude => true,
        FieldKind::Speed => bits_le(ZERO_BITS, bits),
        FieldKind::Heading => bits_le(ZERO_BITS, bits) && bits_le(bits, HEADING_MAX_BITS),
    };
    if ok {
        Verdict::Accepted
    } else {
        Verdict::Rejected
    }
}

/// The field a short metric name denotes, if any.
pub open spec fn spec_field_of_name(name: Seq<char>) -> Option<FieldKind> {
    if name == "latitude"@ {
        Some(FieldKind::Latitude)
    } else if name == "longitude"@ {
        Some(FieldKind::Longitude)
    } else if name == "accuracy"@ {
        Some(FieldKind::Accuracy)
    } else if name == "altitude"@ {
        Some(FieldKind::Altitude)
    } else if name == "speed"@ {
        Some(FieldKind::Speed)
    } else if name == "heading"@ {
        Some(FieldKind::Heading)
    } else {
        None
    }
}

/// Resolves a short metric name to its field.
pub fn field_of_name(name: &str) -> (r: Option<FieldKind>)
    ensures
        r == spec_field_of_name(name@),
{
    if str_eq(name, "latitude") {
        Some(FieldKind::Latitude)
    } else if str_eq(name, "longitude") {
        Some(FieldKind::Longitude)
    } else if str_eq(name, "accuracy") {
        Some(FieldKind::Accuracy)
    } else if str_eq(name, "altitude") {
        Some(FieldKind::Altitude)
    } else if str_eq(name, "speed") {
        Some(FieldKind::Speed)
    } else if str_eq(name, "heading") {
        Some(FieldKind::Heading)
    } else {
        None
    }
}

/// Decides whether a sample named by its short metric name is published:
/// true exactly when the name is a known field and the sample passes
/// validation. The sink write itself is the embedding process's job.
pub fn set_gauge_if_valid(metric_name: &str, bits: u64) -> (r: bool)
    ensures
        r == match spec_field_of_name(metric_name@) {
            Some(f) => spec_validate(f, bits) is Accepted,
            None => false,
        },
{
    match field_of_name(metric_name) {
        Some(f) => {
            let v = validate(f, bits);
            v == Verdict::Accepted
        },
        None => false,
    }
}

/// The exported metric name of a field.
pub open spec fn spec_metric_name(field: FieldKind) -> Seq<char> {
    match field {
        FieldKind::Latitude => "geoclue_latitude"@,
        FieldKind::Longitude => "geoclue_longitude"@,
        FieldKind::Accuracy => "geoclue_accuracy"@,
        FieldKind::Altitude => "geoclue_altitude"@,
        FieldKind::Speed => "geoclue_speed"@,
        FieldKind::Heading => "geoclue_heading"@,
    }
}

/// The exported metric name of a field.
pub fn metric_name(field: FieldKind) -> (r: &'static str)
    ensures
        r@ == spec_metric_name(field),
{
    match field {
        FieldKind::Latitude => "geoclue_latitude",
        FieldKind::Longitude => "geoclue_longitude",
        FieldKind::Accuracy => "geoclue_accuracy",
        FieldKind::Altitude => "geoclue_altitude",
        FieldKind::Speed => "geoclue_speed",
        FieldKind::Heading => "geoclue_heading",
    }
}

/// A character the exposition format allows at the start of a metric
/// name: an ASCII letter or an underscore.
pub open spec fn is_name_start_char(c: char) -> bool {
    ('a' <= c && c <= 'z') || ('A' <= c && c <= 'Z') || c == '_'
}

/// A character the exposition format allows after the first: a start
/// character, an ASCII digit, or a colon.
pub open spec fn is_name_char(c: char) -> bool {
    is_name_start_char(c) || ('0' <= c && c <= '9') || c == ':'
}

/// The name conforms to the exposition format's naming rule.
pub open spec fn spec_valid_metric_name(name: Seq<char>) -> bool {
    &&& name.len() > 0
    &&& is_name_start_char(name[0])
    &&& forall|i: int| 1 <= i < name.len() ==> is_name_char(#[trigger] name[i])
}

/// Checks a metric name against the exposition format's naming rule.
pub fn is_valid_prometheus_metric_name(name: &str) -> (r: bool)
    ensures
        r == spec_valid_metric_name(name@),
{
    let n = name.unicode_len();
    if n == 0 {
        return false;
    }
    let c0 = name.get_char(0);
    if !(('a' <= c0 && c0 <= 'z') || ('A' <= c0 && c0 <= 'Z') || c0 == '_') {
        return false;
    }
    let mut i: usize = 1;
    while i < n
        invariant
            n == name@.len(),
            1 <= i <= n,
            forall|k: int| 1 <= k < i ==> is_name_char(#[trigger] name@[k]),
        decreases n - i,
    {
        let c = name.get_char(i);
        let ok = ('a' <= c && c <= 'z') || ('A' <= c && c <= 'Z') || c == '_' || ('0' <= c && c
            <= '9') || c == ':';
        if !ok {
            return false;
        }
        i += 1;
    }
    true
}

/// For finite, non-sentinel samples, a latitude is accepted exactly
/// when it lies within plus/minus 90 degrees.
pub proof fn lemma_latitude_bounds(bits: u64)
    requires
        is_finite(bits),
        !is_sentinel(bits),
    ensures
        spec_validate(FieldKind::Latitude, bits) is Accepted <==> numeric_key(LAT_MIN_BITS)
            <= numeric_key(bits) <= numeric_key(LAT_MAX_BITS),
{
}

/// For finite, non-sentinel samples, a longitude is accepted exactly
/// when it lies within plus/minus 180 degrees.
pub proof fn lemma_longitude_bounds(bits: u64)
    requires
        is_finite(bits),
        !is_sentinel(bits),
    ensures
        spec_validate(FieldKind::Longitude, bits) is Accepted <==> numeric_key(LON_MIN_BITS)
            <= numeric_key(bits) <= numeric_key(LON_MAX_BITS),
{
}

/// A sample that is not finite (a NaN or an infinity) is rejected for
/// every field, before any other rule applies.
pub proof fn lemma_nonfinite_rejected(field: FieldKind, bits: u64)
    requires
        !is_finite(bits),
    ensures
        spec_validate(field, bits) is Rejected,
{
}

/// A finite sentinel sample is treated as absent for every field: never
/// published, and never counted as a range rejection.
pub proof fn lemma_sentinel_absent(field: FieldKind, bits: u64)
    requires
        is_finite(bits),
        is_sentinel(bits),
    ensures
        spec_validate(field, bits) is Absent,
{
}

/// A heading is accepted exactly when it is finite and within 0 to 360
/// degrees — with no sentinel condition, because every sentinel lies
/// below zero and so below the heading range.
pub proof fn lemma_heading_bounds(bits: u64)
    ensures
        spec_validate(FieldKind::Heading, bits) is Accepted <==> (is_finite(bits) && numeric_key(
            ZERO_BITS,
        ) <= numeric_key(bits) <= numeric_key(HEADING_MAX_BITS)),
{
}

/// For finite, non-sentinel samples, accuracy and speed are rejected
/// exactly when they are negative.
pub proof fn lemma_nonnegative_fields(field: FieldKind, bits: u64)
    requires
        is_finite(bits),
        !is_sentinel(bits),
        field is Accuracy || field is Speed,
    ensures
        spec_validate(field, bits) is Rejected <==> numeric_key(bits) < numeric_key(ZERO_BITS),
{
}

} // verus!
