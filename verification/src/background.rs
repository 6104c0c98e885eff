//! The striped background behind the arena.

use vstd::prelude::*;

verus! {

/// The two colours the six background slices alternate between.
#[derive(Clone, Copy, PartialEq, Eq, Structural, Debug)]
pub enum SliceColor {
    Olive,
    OrangeRed,
}

/// Which colour background slice `index` gets: the first colour on even
/// sectors and the second on odd ones, so neighbouring slices differ.
pub fn slice_color(index: u32) -> (c: SliceColor)
    ensures
        c == (if index % 2 == 0 {
            SliceColor::Olive
        } else {
            SliceColor::OrangeRed
        }),
{
    if index % 2 == 0 {
        SliceColor::Olive
    } else {
        SliceColor::OrangeRed
    }
}

} // verus!
