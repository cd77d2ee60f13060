use vstd::prelude::*;

use crate::direction::Direction;

verus! {

/// One cell of the grid: four doors, each open or shut, and how many quarter
/// turns clockwise the tile has been given.
///
/// `doors` is indexed by the tile's own unturned directions (North 0, East 1,
/// South 2, West 3). Only `rotation` modulo 4 matters; `rotate_cw` keeps the
/// counter reduced modulo 4 so that it can never overflow.
#[derive(Clone, Copy, Debug)]
pub struct Tile {
    pub doors: [bool; 4],
    pub rotation: usize,
}

/// The door of `doors` that faces direction `d` on the grid once the tile
/// has been turned `rotation` quarter turns.
pub open spec fn door_facing(doors: Seq<bool>, rotation: nat, d: Direction) -> bool {
    doors[((d.index() + rotation) % 4) as int]
}

impl Tile {
    /// Whether the tile can be crossed through its side facing `d`.
    pub open spec fn opens_toward(self, d: Direction) -> bool {
        door_facing(self.doors@, self.rotation as nat, d)
    }

    /// An unturned tile with the given doors.
    pub fn new(doors: [bool; 4]) -> (r: Tile)
        ensures
            r.doors == doors,
            r.rotation == 0,
    {
        Tile { doors, rotation: 0 }
    }

    /// Whether the tile can be crossed through its side facing `d`.
    pub fn is_open(&self, d: Direction) -> (r: bool)
        ensures
            r == self.opens_toward(d),
    {
        let i: usize = (d.to_index() + self.rotation % 4) % 4;
        self.doors[i]
    }

    /// Turns the tile a quarter turn clockwise. What was open toward
    /// `d.rotate_cw()` before is open toward `d` after.
    pub fn rotate_cw(&mut self)
        ensures
            final(self).doors == old(self).doors,
            final(self).rotation == (old(self).rotation + 1) % 4,
            forall|d: Direction| #[trigger]
                final(self).opens_toward(d) == old(self).opens_toward(d.turned_cw()),
    {
        self.rotation = (self.rotation % 4 + 1) % 4;
        assert forall|d: Direction| #[trigger]
            self.opens_toward(d) == old(self).opens_toward(d.turned_cw()) by {
            assert((d.index() + self.rotation) % 4 == (d.turned_cw().index() + old(
                self,
            ).rotation) % 4);
        }
    }
}

} // verus!
