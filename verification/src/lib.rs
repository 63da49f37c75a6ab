//! Verified core of the Allium launcher's settings, navigation and indicator logic.
use vstd::prelude::*;

pub mod geom;
pub mod platform;
pub mod dot_indicator;
pub mod power;
pub mod recents;
pub mod clock;
pub mod settings;
pub mod usb_audio;

verus! {

/// Rust's `/` on signed integers: the quotient rounded toward zero.
pub open spec fn tdiv(a: int, b: int) -> int
    recommends
        b > 0,
{
    if a >= 0 {
        a / b
    } else {
        -((-a) / b)
    }
}

/// `a - b` on unsigned integers, stopping at zero.
pub open spec fn sat_sub(a: int, b: int) -> int {
    if a >= b {
        a - b
    } else {
        0
    }
}

/// The smaller of two integers.
pub open spec fn min_int(a: int, b: int) -> int {
    if a <= b {
        a
    } else {
        b
    }
}

/// Whether an integer fits in an `i32`.
pub open spec fn fits_i32(a: int) -> bool {
    i32::MIN <= a <= i32::MAX
}

} // verus!
