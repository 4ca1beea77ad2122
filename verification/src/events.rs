//! Mapping of host-observed input into interpreter conventions: pointer
//! coordinates arrive in a wide integer range and are clamped, not rejected,
//! into the interpreter's signed 16-bit coordinate space.

use vstd::prelude::*;

verus! {

/// The interpreter coordinate an out-of-range host coordinate clamps to.
pub open spec fn clamp_coord(x: int) -> int {
    if x < -32768 {
        -32768
    } else if x > 32767 {
        32767
    } else {
        x
    }
}

/// Clamps a host coordinate into the signed 16-bit coordinate space.
pub fn clamp_to_i16(x: i64) -> (r: i16)
    ensures
        r as int == clamp_coord(x as int),
{
    if x < -32768 {
        -32768
    } else if x > 32767 {
        32767
    } else {
        x as i16
    }
}

} // verus!
