//! The double-jump payload.  The full double-jump machine lives with the
//! other travelling states; the payload is shared because several states
//! fork into a double jump.

use vstd::prelude::*;

use crate::player::moving::Moving;

verus! {

/// Payload of the double-jumping state.
#[derive(Clone, Copy, Debug, PartialEq, Eq, Structural)]
pub struct DoubleJumping {
    pub moving: Moving,
    /// Whether the jump was forced by an action rather than by travel.
    pub forced: bool,
    /// Whether the player must settle before the jump is performed.
    pub require_stationary: bool,
}

impl DoubleJumping {
    pub fn new(moving: Moving, forced: bool, require_stationary: bool) -> (r: DoubleJumping)
        ensures
            r == (DoubleJumping { moving, forced, require_stationary }),
    {
        DoubleJumping { moving, forced, require_stationary }
    }
}

} // verus!
