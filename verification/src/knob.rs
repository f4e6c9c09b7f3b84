//! The knob: an analog reading turned into a level.

use vstd::prelude::*;

use crate::LEVELS;

verus! {

/// One more than the largest reading of a conversion of 14 bits.
pub const FULL_SCALE: i32 = 16384;

/// The level of a raw reading: the readings from 0 up to `FULL_SCALE` are cut
/// into `LEVELS` bands of equal width, and a reading has the number of its
/// band. A reading below 0 counts as 0, one at or above `FULL_SCALE` as the
/// largest reading.
pub open spec fn quantize_spec(raw: int) -> int {
    if raw <= 0 {
        0
    } else if raw >= FULL_SCALE {
        LEVELS - 1
    } else {
        raw * LEVELS / (FULL_SCALE as int)
    }
}

/// Maps a raw reading to its level.
pub fn quantize(raw: i16) -> (level: u32)
    ensures
        level == quantize_spec(raw as int),
        level < LEVELS,
{
    if raw <= 0 {
        0
    } else if raw as i32 >= FULL_SCALE {
        LEVELS - 1
    } else {
        (raw as u32 * LEVELS) / (FULL_SCALE as u32)
    }
}

/// Every reading has a level, and it is one of `0 ..= LEVELS - 1`.
pub proof fn quantize_in_range(raw: int)
    ensures
        0 <= quantize_spec(raw) <= LEVELS - 1,
{
}

/// A larger reading never has a smaller level.
pub proof fn quantize_monotonic(lower: int, higher: int)
    requires
        lower <= higher,
    ensures
        quantize_spec(lower) <= quantize_spec(higher),
{
}

} // verus!
