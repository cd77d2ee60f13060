use vstd::prelude::*;

use crate::fault::Fault;
use crate::grid::Grid;
use crate::player::Player;

verus! {

/// Where the goal marker is drawn. It takes no part in movement or rotation.
#[derive(Clone, Copy, Debug, PartialEq, Eq, Structural)]
pub struct Goal {
    pub col: usize,
    pub row: usize,
}

/// Whether `p` may take one step on `g`: the cell ahead lies on the grid,
/// the tile under the player opens toward the facing direction, and the tile
/// ahead opens back toward the player.
pub open spec fn can_advance(g: Grid, p: Player) -> bool {
    &&& g.contains(p.next_row(), p.next_col())
    &&& g.tile(p.row as int, p.col as int).opens_toward(p.facing)
    &&& g.tile(p.next_row(), p.next_col()).opens_toward(p.facing.opposite())
}

/// Whether every tile of `g` has all four doors open.
pub open spec fn all_open(g: Grid) -> bool {
    forall|row: int, col: int, i: int|
        #![trigger g.tile(row, col).doors@[i]]
        g.contains(row, col) && 0 <= i < 4 ==> g.tile(row, col).doors@[i]
}

/// The whole game state: the grid, the player standing on it, and the goal.
pub struct World {
    grid: Grid,
    player: Player,
    goal: Goal,
}

impl World {
    pub closed spec fn spec_grid(self) -> Grid {
        self.grid
    }

    pub closed spec fn spec_player(self) -> Player {
        self.player
    }

    pub closed spec fn spec_goal(self) -> Goal {
        self.goal
    }

    /// The grid is well formed and the player stands on it.
    pub open spec fn wf(self) -> bool {
        &&& self.spec_grid().wf()
        &&& self.spec_grid().contains(self.spec_player().row as int, self.spec_player().col as int)
    }

    /// A world with the player placed on `grid`; `OutOfBounds` where the
    /// player's cell is not on the grid.
    pub fn new(grid: Grid, player: Player, goal: Goal) -> (r: Result<World, Fault>)
        requires
            grid.wf(),
        ensures
            r is Ok <==> grid.contains(player.row as int, player.col as int),
            r matches Ok(w) ==> {
                &&& w.wf()
                &&& w.spec_grid() == grid
                &&& w.spec_player() == player
                &&& w.spec_goal() == goal
            },
            r is Err ==> r == Err::<World, Fault>(Fault::OutOfBounds),
    {
        if !grid.in_bounds(player.row, player.col) {
            return Err(Fault::OutOfBounds);
        }
        Ok(World { grid, player, goal })
    }

    pub fn grid(&self) -> (r: &Grid)
        ensures
            *r == self.spec_grid(),
    {
        &self.grid
    }

    pub fn player(&self) -> (r: Player)
        ensures
            r == self.spec_player(),
    {
        self.player
    }

    pub fn goal(&self) -> (r: Goal)
        ensures
            r == self.spec_goal(),
    {
        self.goal
    }

    /// One attempted step of the player in the direction it faces. The step
    /// is taken only where `can_advance` holds; otherwise nothing changes.
    /// Either way the player stays on the grid.
    pub fn tick(&mut self)
        requires
            old(self).wf(),
        ensures
            final(self).wf(),
            final(self).spec_grid() == old(self).spec_grid(),
            final(self).spec_goal() == old(self).spec_goal(),
            can_advance(old(self).spec_grid(), old(self).spec_player()) ==> {
                &&& final(self).spec_player().col == old(self).spec_player().next_col()
                &&& final(self).spec_player().row == old(self).spec_player().next_row()
                &&& final(self).spec_player().facing == old(self).spec_player().facing
            },
            !can_advance(old(self).spec_grid(), old(self).spec_player())
                ==> final(self).spec_player() == old(self).spec_player(),
            final(self).spec_player().col < final(self).spec_grid().cols(),
            final(self).spec_player().row < final(self).spec_grid().rows(),
    {
        let p = self.player;
        proof {
            self.grid.lemma_dimensions_fit();
        }
        let (col, row) = match p.next_cell() {
            Some(c) => c,
            None => return ,
        };
        if !self.grid.in_bounds(row, col) {
            return ;
        }
        let here = match self.grid.tile_at(p.row, p.col) {
            Ok(t) => t,
            Err(_) => return ,
        };
        if !here.is_open(p.facing) {
            return ;
        }
        let there = match self.grid.tile_at(row, col) {
            Ok(t) => t,
            Err(_) => return ,
        };
        if !there.is_open(p.facing.invert()) {
            return ;
        }
        self.player.forward();
    }

    /// Turns the tile at `(row, col)` a quarter turn clockwise. A player
    /// standing on that tile turns with it; one standing elsewhere is left as
    /// it was. `OutOfBounds`, with nothing changed, for an address outside
    /// the grid.
    pub fn rotate_cell(&mut self, row: usize, col: usize) -> (r: Result<(), Fault>)
        requires
            old(self).wf(),
        ensures
            final(self).wf(),
            final(self).spec_goal() == old(self).spec_goal(),
            r is Ok <==> old(self).spec_grid().contains(row as int, col as int),
            r is Err ==> r == Err::<(), Fault>(Fault::OutOfBounds) && *final(self) == *old(self),
            r is Ok ==> final(self).spec_grid().turned_at(old(self).spec_grid(), row as int, col as int),
            r is Ok && old(self).spec_player().row == row && old(self).spec_player().col == col
                ==> final(self).spec_player() == (Player {
                facing: old(self).spec_player().facing.turned_cw(),
                ..old(self).spec_player()
            }),
            !(old(self).spec_player().row == row && old(self).spec_player().col == col)
                ==> final(self).spec_player() == old(self).spec_player(),
    {
        match self.grid.rotate_tile(row, col) {
            Ok(()) => {},
            Err(e) => return Err(e),
        }
        if self.player.row == row && self.player.col == col {
            self.player.rotate_cw();
        }
        Ok(())
    }
}

/// On a grid whose every tile has all four doors open, a step is refused
/// only where it would leave the grid, whatever the direction faced.
pub proof fn lemma_open_grid_blocks_only_at_edges(g: Grid, p: Player)
    requires
        g.contains(p.row as int, p.col as int),
        all_open(g),
    ensures
        can_advance(g, p) <==> g.contains(p.next_row(), p.next_col()),
{
    if g.contains(p.next_row(), p.next_col()) {
        let here = g.tile(p.row as int, p.col as int);
        let there = g.tile(p.next_row(), p.next_col());
        assert(here.doors@[((p.facing.index() + here.rotation) % 4) as int]);
        assert(there.doors@[((p.facing.opposite().index() + there.rotation) % 4) as int]);
    }
}

} // verus!
