use vstd::prelude::*;

verus! {

/// Clamps an integer to the closed range `[lo, hi]`.
pub open spec fn clamp_spec(v: int, lo: int, hi: int) -> int {
    if v < lo {
        lo
    } else if v > hi {
        hi
    } else {
        v
    }
}

/// Turns one colour channel, already gamma corrected and scaled to the display
/// range and truncated to an integer, into a display byte: values below zero
/// become 0 and values above 255 become 255.
pub fn display_channel(scaled: i64) -> (byte: u8)
    ensures
        byte as int == clamp_spec(scaled as int, 0, 255),
{
    if scaled < 0 {
        0
    } else if scaled > 255 {
        255
    } else {
        scaled as u8
    }
}

} // verus!
