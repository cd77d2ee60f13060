use vstd::prelude::*;

use crate::direction::Direction;

verus! {

/// The walker: the cell it stands on, as a column and a row, and the
/// direction it faces, which is also the step it takes when it moves.
#[derive(Clone, Copy, Debug, PartialEq, Eq, Structural)]
pub struct Player {
    pub col: usize,
    pub row: usize,
    pub facing: Direction,
}

impl Player {
    /// The column the player would reach with one step.
    pub open spec fn next_col(self) -> int {
        self.col + self.facing.dx()
    }

    /// The row the player would reach with one step.
    pub open spec fn next_row(self) -> int {
        self.row + self.facing.dy()
    }

    pub fn new(col: usize, row: usize, facing: Direction) -> (r: Player)
        ensures
            r == (Player { col, row, facing }),
    {
        Player { col, row, facing }
    }

    /// The cell `(col, row)` one step ahead, or `None` where that step would
    /// leave the non-negative coordinates a `usize` can hold.
    pub fn next_cell(&self) -> (r: Option<(usize, usize)>)
        ensures
            r is Some <==> (0 <= self.next_col() <= usize::MAX && 0 <= self.next_row()
                <= usize::MAX),
            r matches Some(c) ==> c.0 == self.next_col() && c.1 == self.next_row(),
    {
        let col = match self.facing {
            Direction::East => self.col.checked_add(1),
            Direction::West => self.col.checked_sub(1),
            _ => Some(self.col),
        };
        let row = match self.facing {
            Direction::South => self.row.checked_add(1),
            Direction::North => self.row.checked_sub(1),
            _ => Some(self.row),
        };
        match (col, row) {
            (Some(c), Some(r)) => Some((c, r)),
            _ => None,
        }
    }

    /// Takes one step in the facing direction.
    pub fn forward(&mut self)
        requires
            0 <= old(self).next_col() <= usize::MAX,
            0 <= old(self).next_row() <= usize::MAX,
        ensures
            final(self).col == old(self).next_col(),
            final(self).row == old(self).next_row(),
            final(self).facing == old(self).facing,
    {
        match self.next_cell() {
            Some((c, r)) => {
                self.col = c;
                self.row = r;
            },
            None => {},
        }
    }

    /// Turns the player a quarter turn clockwise where it stands.
    pub fn rotate_cw(&mut self)
        ensures
            final(self).col == old(self).col,
            final(self).row == old(self).row,
            final(self).facing == old(self).facing.turned_cw(),
    {
        self.facing = self.facing.rotate_cw();
    }
}

} // verus!
