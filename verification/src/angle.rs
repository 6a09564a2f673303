//! Angles, counted in nanoradians.

use vstd::prelude::*;

verus! {

/// Half a turn, in nanoradians.
pub const PI: i64 = 3_141_592_654;

/// A quarter turn, in nanoradians.
pub const FRAC_PI_2: i64 = 1_570_796_327;

/// The angles that a direction may take: from minus half a turn to half a
/// turn.
pub open spec fn is_direction(angle: int) -> bool {
    -PI <= angle <= PI
}

} // verus!
