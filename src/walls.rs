//! The set of impassable tiles of a level.
use vstd::prelude::*;
use crate::grid::GridCoords;

verus! {

/// The walls of the current level, fixed when the level is loaded.
#[derive(Debug)]
pub struct LevelWalls {
    pub wall_locations: Vec<GridCoords>,
}

impl View for LevelWalls {
    type V = Set<(int, int)>;

    open spec fn view(&self) -> Set<(int, int)> {
        Set::new(|c: (int, int)| exists|i: int| 0 <= i < self.wall_locations@.len() && self.wall_locations@[i]@ == c)
    }
}

impl LevelWalls {
    pub fn new(wall_locations: Vec<GridCoords>) -> (r: LevelWalls)
        ensures
            r.wall_locations@ == wall_locations@,
    {
        LevelWalls { wall_locations }
    }

    /// Whether `c` is a wall tile.
    pub fn in_wall(&self, c: &GridCoords) -> (r: bool)
        ensures
            r == self@.contains(c@),
    {
        let mut i: usize = 0;
        while i < self.wall_locations.len()
            invariant
                i <= self.wall_locations@.len(),
                forall|j: int| 0 <= j < i ==> self.wall_locations@[j]@ != c@,
            decreases self.wall_locations@.len() - i,
        {
            if self.wall_locations[i] == *c {
                assert(self.wall_locations@[i as int]@ == c@);
                return true;
            }
            i += 1;
        }
        false
    }
}

} // verus!
