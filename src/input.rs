//! The logical input of one tick.
use vstd::prelude::*;
use crate::grid::Direction;

verus! {

/// The held directional keys and the state of the grab key during one tick.
#[derive(Clone, Copy, Debug, PartialEq, Eq, Structural, Default)]
pub struct InputState {
    pub north: bool,
    pub west: bool,
    pub south: bool,
    pub east: bool,
    pub grab_held: bool,
    pub grab_just_pressed: bool,
    pub grab_just_released: bool,
}

impl InputState {
    /// The first held direction in the order north, west, south, east;
    /// `Unset` when none is held.
    pub open spec fn spec_committed_direction(self) -> Direction {
        if self.north {
            Direction::North
        } else if self.west {
            Direction::West
        } else if self.south {
            Direction::South
        } else if self.east {
            Direction::East
        } else {
            Direction::Unset
        }
    }

    #[verifier::when_used_as_spec(spec_committed_direction)]
    pub fn committed_direction(self) -> (r: Direction)
        ensures
            r == self.spec_committed_direction(),
    {
        if self.north {
            Direction::North
        } else if self.west {
            Direction::West
        } else if self.south {
            Direction::South
        } else if self.east {
            Direction::East
        } else {
            Direction::Unset
        }
    }
}

} // verus!
