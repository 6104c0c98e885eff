//! Wall waves: the pattern table and the random draw that picks from it.
//!
//! Each second a wave of three walls spawns on the outer ring. A wave is one
//! row of a fixed table: either three distinct sectors (alternating or
//! adjacent) or the same sector three times. Which row spawns is drawn at
//! random; everything after the draw is a function of the drawn row and the
//! arena heading.

use crate::angle::{heading_deg, wall_angle, wall_angle_deg};
use vstd::prelude::*;

verus! {

/// How many rows the pattern table has.
pub const PATTERN_COUNT: u32 = 10;

/// Row `i` of the pattern table: the three sectors the wave covers.
pub open spec fn pattern_row(i: int) -> Seq<u32> {
    if i == 0 {
        seq![0u32, 2u32, 4u32]
    } else if i == 1 {
        seq![1u32, 3u32, 5u32]
    } else if i == 2 {
        seq![0u32, 1u32, 2u32]
    } else if i == 3 {
        seq![3u32, 4u32, 5u32]
    } else if i == 4 {
        seq![0u32, 0u32, 0u32]
    } else if i == 5 {
        seq![1u32, 1u32, 1u32]
    } else if i == 6 {
        seq![2u32, 2u32, 2u32]
    } else if i == 7 {
        seq![3u32, 3u32, 3u32]
    } else if i == 8 {
        seq![4u32, 4u32, 4u32]
    } else {
        seq![5u32, 5u32, 5u32]
    }
}

/// Every entry of every row names one of the six sectors.
pub proof fn lemma_pattern_rows_are_sectors(i: int, k: int)
    requires
        0 <= i < 10,
        0 <= k < 3,
    ensures
        pattern_row(i).len() == 3,
        pattern_row(i)[k] < 6,
{
}

/// The three sectors of pattern row `idx`.
pub fn pattern_sides(idx: u32) -> (r: [u32; 3])
    requires
        idx < PATTERN_COUNT,
    ensures
        r@ == pattern_row(idx as int),
{
    let r: [u32; 3] = if idx == 0 {
        [0, 2, 4]
    } else if idx == 1 {
        [1, 3, 5]
    } else if idx == 2 {
        [0, 1, 2]
    } else if idx == 3 {
        [3, 4, 5]
    } else if idx == 4 {
        [0, 0, 0]
    } else if idx == 5 {
        [1, 1, 1]
    } else if idx == 6 {
        [2, 2, 2]
    } else if idx == 7 {
        [3, 3, 3]
    } else if idx == 8 {
        [4, 4, 4]
    } else {
        [5, 5, 5]
    };
    proof {
        assert(r@ =~= pattern_row(idx as int));
    }
    r
}

/// Relies on `rand::Rng::gen_range` on the thread-local generator: the
/// sample lies within the given range, and the call panics only when the
/// range is empty.
#[verifier::external_body]
fn sample_below(n: u32) -> (r: u32)
    requires
        n >= 1,
    ensures
        r < n,
{
    rand::Rng::gen_range(&mut rand::thread_rng(), 0..n)
}

/// Draw the row of the pattern table that the next wave spawns.
///
/// The draw is random: nothing relates two calls, only that the result
/// always names a row of the table.
pub fn pick_pattern() -> (idx: u32)
    ensures
        idx < PATTERN_COUNT,
{
    sample_below(PATTERN_COUNT)
}

/// `r` is the wave that row `i` of the pattern table spawns under arena
/// heading `theta`: the row's three wall angles, in row order.
pub open spec fn is_wave(r: Seq<i32>, theta: int, i: int) -> bool {
    r.len() == 3 && forall|k: int|
        0 <= k < 3 ==> r[k] == wall_angle_deg(theta, pattern_row(i)[k] as int)
}

/// The angles at which the three walls of pattern row `idx` spawn under
/// arena heading `theta`, in row order.
pub fn wave_angles(theta: i32, idx: u32) -> (r: Vec<i32>)
    requires
        heading_deg(theta as int),
        idx < PATTERN_COUNT,
    ensures
        is_wave(r@, theta as int, idx as int),
{
    let sides = pattern_sides(idx);
    let mut r: Vec<i32> = Vec::new();
    proof {
        lemma_pattern_rows_are_sectors(idx as int, 0);
        lemma_pattern_rows_are_sectors(idx as int, 1);
        lemma_pattern_rows_are_sectors(idx as int, 2);
    }
    r.push(wall_angle(theta, sides[0]));
    r.push(wall_angle(theta, sides[1]));
    r.push(wall_angle(theta, sides[2]));
    r
}

/// Spawn one wave: draw a row of the pattern table and place its three
/// walls under the current arena heading.
///
/// Which row was drawn is chance; whatever it was, the wave that comes back
/// is exactly that row's angles.
pub fn spawn_wave(theta: i32) -> (r: Vec<i32>)
    requires
        heading_deg(theta as int),
    ensures
        r@.len() == 3,
        exists|i: int| 0 <= i < PATTERN_COUNT && #[trigger] is_wave(r@, theta as int, i),
{
    let idx = pick_pattern();
    let r = wave_angles(theta, idx);
    proof {
        assert(is_wave(r@, theta as int, idx as int));
    }
    r
}

} // verus!
