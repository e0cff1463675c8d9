//! Encoder-independent rate-control policy.

use vstd::prelude::*;

use crate::float_bits::{self, FloatBits};

verus! {

/// The multiple of one frame's bit budget that the CBR VBV/HRD buffer is sized at: the requested
/// one where it is positive, else 3 with scheduled keyframes, else 1.5.
pub open spec fn vbv_multiple(multiplier: FloatBits, keyframe_interval_s: FloatBits) -> FloatBits {
    if multiplier.positive() {
        multiplier
    } else if keyframe_interval_s.positive() {
        FloatBits { bits: 0x4008_0000_0000_0000 }
    } else {
        FloatBits { bits: 0x3ff8_0000_0000_0000 }
    }
}

/// Selects the multiple of one frame's bit budget that the CBR VBV/HRD buffer is sized at.
#[must_use]
pub fn vbv_multiplier(multiplier: FloatBits, keyframe_interval_s: FloatBits) -> (selected: FloatBits)
    ensures
        selected == vbv_multiple(multiplier, keyframe_interval_s),
{
    if multiplier.is_positive() {
        multiplier
    } else if keyframe_interval_s.is_positive() {
        FloatBits { bits: 0x4008_0000_0000_0000 }
    } else {
        FloatBits { bits: 0x3ff8_0000_0000_0000 }
    }
}

/// A positive request is always the selected multiple, whatever the keyframe interval. Without one
/// the multiple is 3 with scheduled keyframes, and 1.5 without them.
pub proof fn law_positive_request_is_selected(
    multiplier: FloatBits,
    keyframe_interval_s: FloatBits,
    selected: FloatBits,
)
    requires
        call_ensures(vbv_multiplier, (multiplier, keyframe_interval_s), selected),
    ensures
        multiplier.exceeds_zero() ==> selected == multiplier,
        !multiplier.exceeds_zero() && keyframe_interval_s.exceeds_zero() ==> selected.bits
            == 0x4008_0000_0000_0000,
        !multiplier.exceeds_zero() && !keyframe_interval_s.exceeds_zero() ==> selected.bits
            == 0x3ff8_0000_0000_0000,
{
    float_bits::law_floats_compare_by_signed_magnitude(multiplier, keyframe_interval_s);
    float_bits::law_floats_compare_by_signed_magnitude(keyframe_interval_s, multiplier);
}

/// Two requests that are both not positive select the same multiple, and so do two intervals that
/// are both positive or both not.
pub proof fn law_only_signs_of_defaults_count(
    multiplier: FloatBits,
    other_multiplier: FloatBits,
    interval: FloatBits,
    other_interval: FloatBits,
    selected: FloatBits,
    other_selected: FloatBits,
)
    requires
        call_ensures(vbv_multiplier, (multiplier, interval), selected),
        call_ensures(vbv_multiplier, (other_multiplier, other_interval), other_selected),
        !multiplier.exceeds_zero(),
        !other_multiplier.exceeds_zero(),
    ensures
        selected == other_selected <==> interval.exceeds_zero() == other_interval.exceeds_zero(),
{
    law_positive_request_is_selected(multiplier, interval, selected);
    law_positive_request_is_selected(other_multiplier, other_interval, other_selected);
}

/// The selected multiple is positive, whatever was requested.
pub proof fn law_vbv_multiple_is_positive(multiplier: FloatBits, keyframe_interval_s: FloatBits)
    ensures
        vbv_multiple(multiplier, keyframe_interval_s).positive(),
{
}

} // verus!
