//! What the header of a video file says about its length.

use vstd::prelude::*;

verus! {

/// A header gives the length of a video as a number of ticks and the number
/// of ticks in a second. The length in milliseconds is defined if a second
/// has ticks at all and a thousand times the length still fits in 64 bits.
pub open spec fn spec_duration_is_defined(duration: u64, timescale: u32) -> bool {
    timescale != 0 && duration * 1000 <= u64::MAX
}

/// Tells whether the length in milliseconds can be worked out from
/// `duration` ticks at `timescale` ticks a second.
pub fn duration_is_defined(duration: u64, timescale: u32) -> (defined: bool)
    ensures
        defined == spec_duration_is_defined(duration, timescale),
{
    timescale != 0 && duration <= u64::MAX / 1000
}

} // verus!
