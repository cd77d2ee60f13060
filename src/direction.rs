use vstd::prelude::*;

use crate::fault::Fault;

verus! {

/// One of the four cardinal directions.
///
/// Coordinates grow to the east (x) and to the south (y), so each direction
/// is also the unit step `(dx, dy)` taken when moving that way.
#[derive(Clone, Copy, Debug, PartialEq, Eq, Structural)]
pub enum Direction {
    North,
    East,
    South,
    West,
}

impl Direction {
    /// The index of the direction: North 0, East 1, South 2, West 3.
    pub open spec fn index(self) -> nat {
        match self {
            Direction::North => 0,
            Direction::East => 1,
            Direction::South => 2,
            Direction::West => 3,
        }
    }

    /// The direction with the given index, taken modulo 4.
    pub open spec fn of_index(i: nat) -> Direction {
        if i % 4 == 0 {
            Direction::North
        } else if i % 4 == 1 {
            Direction::East
        } else if i % 4 == 2 {
            Direction::South
        } else {
            Direction::West
        }
    }

    /// A quarter turn clockwise: North, East, South, West, North.
    pub open spec fn turned_cw(self) -> Direction {
        Direction::of_index(self.index() + 1)
    }

    /// The opposite direction.
    pub open spec fn opposite(self) -> Direction {
        Direction::of_index(self.index() + 2)
    }

    /// The x component of the unit step.
    pub open spec fn dx(self) -> int {
        match self {
            Direction::East => 1,
            Direction::West => -1,
            _ => 0,
        }
    }

    /// The y component of the unit step.
    pub open spec fn dy(self) -> int {
        match self {
            Direction::North => -1,
            Direction::South => 1,
            _ => 0,
        }
    }

    /// The direction a quarter turn clockwise from this one.
    pub fn rotate_cw(self) -> (r: Direction)
        ensures
            r == self.turned_cw(),
    {
        match self {
            Direction::North => Direction::East,
            Direction::East => Direction::South,
            Direction::South => Direction::West,
            Direction::West => Direction::North,
        }
    }

    /// The opposite direction.
    pub fn invert(self) -> (r: Direction)
        ensures
            r == self.opposite(),
    {
        match self {
            Direction::North => Direction::South,
            Direction::East => Direction::West,
            Direction::South => Direction::North,
            Direction::West => Direction::East,
        }
    }

    /// The index of the direction: North 0, East 1, South 2, West 3.
    pub fn to_index(self) -> (r: usize)
        ensures
            r == self.index(),
    {
        match self {
            Direction::North => 0,
            Direction::East => 1,
            Direction::South => 2,
            Direction::West => 3,
        }
    }

    /// The direction with index `i`; only 0 to 3 name one.
    pub fn from_index(i: usize) -> (r: Result<Direction, Fault>)
        ensures
            i < 4 ==> r == Ok::<Direction, Fault>(Direction::of_index(i as nat)),
            i >= 4 ==> r == Err::<Direction, Fault>(Fault::InvalidDirection),
    {
        match i {
            0 => Ok(Direction::North),
            1 => Ok(Direction::East),
            2 => Ok(Direction::South),
            3 => Ok(Direction::West),
            _ => Err(Fault::InvalidDirection),
        }
    }

    /// The unit step `(dx, dy)` of the direction.
    pub fn vector(self) -> (r: (i32, i32))
        ensures
            r.0 == self.dx(),
            r.1 == self.dy(),
    {
        match self {
            Direction::North => (0, -1),
            Direction::East => (1, 0),
            Direction::South => (0, 1),
            Direction::West => (-1, 0),
        }
    }

    /// The direction whose unit step is `(dx, dy)`; any other vector is refused.
    pub fn from_vector(dx: i32, dy: i32) -> (r: Result<Direction, Fault>)
        ensures
            r matches Ok(d) ==> d.dx() == dx && d.dy() == dy,
            r is Err <==> !(exists|d: Direction| d.dx() == dx && d.dy() == dy),
            r is Err ==> r == Err::<Direction, Fault>(Fault::InvalidDirection),
    {
        proof {
            lemma_unit_steps(dx as int, dy as int);
        }
        match (dx, dy) {
            (0, -1) => Ok(Direction::North),
            (1, 0) => Ok(Direction::East),
            (0, 1) => Ok(Direction::South),
            (-1, 0) => Ok(Direction::West),
            _ => Err(Fault::InvalidDirection),
        }
    }
}

/// A vector is the unit step of some direction exactly when it is one of the
/// four unit vectors.
proof fn lemma_unit_steps(dx: int, dy: int)
    ensures
        (exists|d: Direction| d.dx() == dx && d.dy() == dy) <==> ((dx == 0 && dy == -1) || (
        dx == 1 && dy == 0) || (dx == 0 && dy == 1) || (dx == -1 && dy == 0)),
{
    if (dx == 0 && dy == -1) {
        assert(Direction::North.dx() == dx && Direction::North.dy() == dy);
    } else if (dx == 1 && dy == 0) {
        assert(Direction::East.dx() == dx && Direction::East.dy() == dy);
    } else if (dx == 0 && dy == 1) {
        assert(Direction::South.dx() == dx && Direction::South.dy() == dy);
    } else if (dx == -1 && dy == 0) {
        assert(Direction::West.dx() == dx && Direction::West.dy() == dy);
    }
}

/// Inverting a direction twice gives it back.
pub proof fn lemma_invert_involutive(d: Direction)
    ensures
        d.opposite().opposite() == d,
{
}

/// Four quarter turns clockwise give the direction back.
pub proof fn lemma_rotate_cw_period_four(d: Direction)
    ensures
        d.turned_cw().turned_cw().turned_cw().turned_cw() == d,
{
}

} // verus!
