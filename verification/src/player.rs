//! The player's place on the ring around the centre hexagon.

use crate::angle::{wrap_deg, FULL_TURN};
use vstd::prelude::*;

verus! {

/// Degrees the player moves per input tick while an arrow key is held.
pub const MOVE_STEP: i32 = 5;

/// The player circles the centre hexagon; only the angle is the player's
/// own state. The point on screen is the angle taken out to the player
/// ring's radius, which the host engine computes when it draws.
pub struct Player {
    /// The player's angle on the ring, in degrees, reduced to `(-360, 360)`.
    pub theta: i32,
}

impl Player {
    /// The angle stays reduced: steering wraps it at a full turn either way.
    pub open spec fn wf(&self) -> bool {
        -360 < self.theta < 360
    }

    /// A new player starts at angle zero, on the positive x axis.
    pub fn new() -> (p: Player)
        ensures
            p.theta == 0,
            p.wf(),
    {
        Player { theta: 0 }
    }

    /// One input tick of steering: the right arrow moves the player one step
    /// clockwise around the ring and wins over the left arrow; the left
    /// arrow moves one step the other way; otherwise the player stays put.
    pub fn steer(&mut self, right: bool, left: bool)
        requires
            old(self).wf(),
        ensures
            final(self).theta == (if right {
                wrap_deg(old(self).theta + MOVE_STEP)
            } else if left {
                wrap_deg(old(self).theta - MOVE_STEP)
            } else {
                old(self).theta as int
            }),
            final(self).wf(),
    {
        if right {
            self.theta = (self.theta + MOVE_STEP) % FULL_TURN;
        } else if left {
            self.theta = (self.theta - MOVE_STEP) % FULL_TURN;
        }
    }
}

} // verus!
