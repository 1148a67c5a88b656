//! The logical input seen by the simulation in one tick.
use vstd::prelude::*;

verus! {

/// A key press starts on this tick: held now and not held on the tick before.
pub open spec fn edge(was_held: bool, held: bool) -> bool {
    held && !was_held
}

/// Which logical actions are held this tick, and whether jump was freshly
/// pressed on it.
#[derive(Clone, Copy, Debug, PartialEq, Eq, Structural)]
pub struct InputState {
    pub move_left: bool,
    pub move_right: bool,
    pub jump_held: bool,
    pub jump_just_pressed: bool,
}

impl InputState {
    pub open spec fn released_spec() -> InputState {
        InputState {
            move_left: false,
            move_right: false,
            jump_held: false,
            jump_just_pressed: false,
        }
    }

    /// The state before any tick: nothing held.
    pub fn released() -> (r: InputState)
        ensures
            r == Self::released_spec(),
    {
        InputState {
            move_left: false,
            move_right: false,
            jump_held: false,
            jump_just_pressed: false,
        }
    }

    pub open spec fn next_spec(self, move_left: bool, move_right: bool, jump_held: bool)
        -> InputState {
        InputState {
            move_left,
            move_right,
            jump_held,
            jump_just_pressed: edge(self.jump_held, jump_held),
        }
    }

    /// The state of the next tick, given what is held on it. Jump counts as
    /// just pressed only on the tick where it goes from released to held.
    pub fn next(&self, move_left: bool, move_right: bool, jump_held: bool) -> (r: InputState)
        ensures
            r == self.next_spec(move_left, move_right, jump_held),
            r.jump_just_pressed == edge(self.jump_held, jump_held),
    {
        InputState {
            move_left,
            move_right,
            jump_held,
            jump_just_pressed: jump_held && !self.jump_held,
        }
    }

    /// The horizontal direction asked for: -1, 0 or +1. Left and right held
    /// together cancel.
    pub open spec fn direction_spec(self) -> int {
        (if self.move_right { 1int } else { 0int }) - (if self.move_left { 1int } else { 0int })
    }

    pub fn direction(&self) -> (r: i64)
        ensures
            r == self.direction_spec(),
            -1 <= r <= 1,
    {
        let mut d: i64 = 0;
        if self.move_left {
            d = d - 1;
        }
        if self.move_right {
            d = d + 1;
        }
        d
    }
}

} // verus!
