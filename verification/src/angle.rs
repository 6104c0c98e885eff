//! Angular bookkeeping of the rotating arena.
//!
//! Every sprite of the arena sits on a ring at some whole number of degrees.
//! The arena heading advances by a fixed step each rotation tick and wraps at
//! a full turn; a wall in sector `side` sits at the heading plus `side`
//! sectors plus half a sector, so that walls straddle the sector boundaries
//! the way the centre hexagon's edges do.

use vstd::prelude::*;

verus! {

/// A full turn around the arena, in degrees.
pub const FULL_TURN: i32 = 360;

/// Degrees the arena rotates per rotation tick.
pub const SPIN_STEP: i32 = 1;

/// The arena is a hexagon: six sectors of sixty degrees each.
pub const SIDES: u32 = 6;

/// Width of one sector, in degrees.
pub const SECTOR_DEG: i32 = 60;

/// Half a sector: walls and hexagon edges sit on sector midlines.
pub const HALF_SECTOR_DEG: i32 = 30;

/// The arena heading always sits in `[0, FULL_TURN)`.
pub open spec fn heading_deg(theta: int) -> bool {
    0 <= theta < 360
}

/// The remainder operation of the executable code: it keeps the sign of the
/// dividend, so a reduced angle sits in `(-360, 360)`.
pub open spec fn wrap_deg(a: int) -> int {
    if a >= 0 {
        a % 360
    } else {
        -((-a) % 360)
    }
}

/// Where a wall or hexagon edge of sector `side` sits when the arena heading
/// is `theta`: `side` whole sectors past the heading, plus half a sector.
pub open spec fn wall_angle_deg(theta: int, side: int) -> int {
    ((theta + side * 60) % 360 + 30) % 360
}

/// Advance the arena heading by one spin step, wrapping at a full turn.
///
/// Mirrors the per-tick rotation of the whole arena: walls, background and
/// centre hexagon all read this heading.
pub fn advance_theta(theta: i32) -> (r: i32)
    requires
        heading_deg(theta as int),
    ensures
        r == (theta + SPIN_STEP) % (FULL_TURN as int),
        heading_deg(r as int),
{
    (theta + SPIN_STEP) % FULL_TURN
}

/// The angle at which a wall of sector `side` stands under heading `theta`.
pub fn wall_angle(theta: i32, side: u32) -> (r: i32)
    requires
        heading_deg(theta as int),
        side < SIDES,
    ensures
        r == wall_angle_deg(theta as int, side as int),
        heading_deg(r as int),
{
    ((theta + (side as i32) * SECTOR_DEG) % FULL_TURN + HALF_SECTOR_DEG) % FULL_TURN
}

/// The base angle of sector `side`: where its leading edge sits before the
/// arena has turned. Background slices span from one base angle to the next.
pub fn sector_base_angle(side: u32) -> (r: i32)
    requires
        side <= SIDES,
    ensures
        r == side * 60,
{
    (side as i32) * SECTOR_DEG
}

} // verus!
