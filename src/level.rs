//! Which level is being played.
use vstd::prelude::*;

verus! {

/// The selected level, by index within the world.
#[derive(Clone, Copy, Debug, PartialEq, Eq, Structural, Default)]
pub struct LevelIndices {
    pub world: Option<usize>,
    pub level: usize,
}

impl LevelIndices {
    pub fn new(world: Option<usize>, level: usize) -> (r: LevelIndices)
        ensures
            r.world == world,
            r.level == level,
    {
        LevelIndices { world, level }
    }
}

} // verus!
