//! The title menu: two entries, a moving highlight, and what each entry
//! starts when chosen.

use crate::state::GameState;
use crate::text::{contains_seq, contains_sub, replace_all, replaced};
use vstd::prelude::*;
use vstd::string::StringExecFns;

verus! {

/// The menu has two entries, so moving the highlight either way toggles
/// which entry it sits on.
pub open spec fn toggled(h: u32) -> u32 {
    ((h + 1) % 2) as u32
}

/// Where the highlight sits after one input tick that saw the up arrow,
/// the down arrow, or both: up is handled first, then down.
pub open spec fn hover_after(h: u32, up: bool, down: bool) -> u32 {
    let h1 = if up {
        toggled(h)
    } else {
        h
    };
    if down {
        toggled(h1)
    } else {
        h1
    }
}

/// What choosing the entry under the highlight starts: the first entry
/// starts a run, the second leaves the game, anything else does nothing.
pub open spec fn selection(h: u32) -> Option<GameState> {
    if h == 0 {
        Some(GameState::Playing)
    } else if h == 1 {
        Some(GameState::Exit)
    } else {
        None
    }
}

/// The title menu's state: which entry the highlight sits on.
pub struct Menu {
    /// 0 is the entry that starts a run, 1 the entry that leaves the game.
    pub hover: u32,
}

impl Menu {
    /// The menu opens with the highlight on the entry that starts a run.
    pub fn new() -> (m: Menu)
        ensures
            m.hover == 0,
    {
        Menu { hover: 0 }
    }

    /// The up arrow: the highlight moves one entry up, wrapping past the
    /// top by a wrapping subtraction, which lands it on the other entry.
    pub fn hover_up(&mut self)
        ensures
            final(self).hover == toggled(old(self).hover),
            final(self).hover < 2,
    {
        self.hover = self.hover.wrapping_sub(1) % 2;
        proof {
            if old(self).hover == 0 {
                assert(vstd::wrapping::u32_specs::wrapping_sub(0u32, 1u32) == 0xffff_ffffu32);
            } else {
                let h = old(self).hover;
                assert((h - 1) % 2 == (h + 1) % 2);
            }
        }
    }

    /// The down arrow: the highlight moves one entry down, wrapping at the
    /// bottom, which lands it on the other entry.
    pub fn hover_down(&mut self)
        requires
            old(self).hover < u32::MAX,
        ensures
            final(self).hover == toggled(old(self).hover),
            final(self).hover < 2,
    {
        self.hover = (self.hover + 1) % 2;
    }

    /// Choose the entry under the highlight.
    pub fn select(&self) -> (r: Option<GameState>)
        ensures
            r == selection(self.hover),
    {
        if self.hover == 0 {
            Some(GameState::Playing)
        } else if self.hover == 1 {
            Some(GameState::Exit)
        } else {
            None
        }
    }

    /// One input tick on the menu: the up arrow is handled first, then the
    /// down arrow, then the choice. The result is the screen the menu hands
    /// the game over to, if a choice was made on an entry.
    pub fn input_step(&mut self, up: bool, down: bool, enter: bool) -> (r: Option<GameState>)
        requires
            old(self).hover < u32::MAX,
        ensures
            final(self).hover == hover_after(old(self).hover, up, down),
            r == (if enter {
                selection(final(self).hover)
            } else {
                None::<GameState>
            }),
    {
        if up {
            self.hover_up();
        }
        if down {
            self.hover_down();
        }
        if enter {
            self.select()
        } else {
            None
        }
    }
}

/// What a drawn menu line becomes when the highlight sits on entry `hover`.
///
/// A line naming the run-starting entry gains the highlight marker when the
/// highlight sits on it and loses every marker otherwise; likewise for the
/// leaving entry with the other highlight position; any other line is left
/// alone.
pub fn refresh_label(value: &str, hover: u32) -> (res: Option<String>)
    ensures
        contains_seq(value@, "Start"@) ==> (res matches Some(s) && s@ == (if hover == 0 {
            "> Start"@
        } else {
            replaced(value@, "> "@, ""@)
        })),
        !contains_seq(value@, "Start"@) && contains_seq(value@, "Exit"@) ==> (res matches Some(s)
            && s@ == (if hover == 1 {
            "> Exit"@
        } else {
            replaced(value@, "> "@, ""@)
        })),
        !contains_seq(value@, "Start"@) && !contains_seq(value@, "Exit"@) ==> res is None,
{
    proof {
        reveal_strlit("> ");
    }
    if contains_sub(value, "Start") {
        if hover == 0 {
            Some(String::from_str("> Start"))
        } else {
            Some(replace_all(value, "> ", ""))
        }
    } else if contains_sub(value, "Exit") {
        if hover == 1 {
            Some(String::from_str("> Exit"))
        } else {
            Some(replace_all(value, "> ", ""))
        }
    } else {
        None
    }
}

} // verus!
