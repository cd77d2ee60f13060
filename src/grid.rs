use vstd::prelude::*;

use crate::fault::Fault;
use crate::tile::Tile;

verus! {

/// A fixed-size rectangle of tiles, stored row by row: the tile at row `r`
/// and column `c` sits at `r * width + c`.
pub struct Grid {
    width: usize,
    height: usize,
    tiles: Vec<Tile>,
}

impl Grid {
    /// Number of columns.
    pub closed spec fn cols(self) -> nat {
        self.width as nat
    }

    /// Number of rows.
    pub closed spec fn rows(self) -> nat {
        self.height as nat
    }

    /// The tile at `(row, col)`, for an address inside the grid.
    pub closed spec fn tile(self, row: int, col: int) -> Tile {
        self.tiles@[row * self.width + col]
    }

    /// Every grid holds exactly one tile per cell.
    pub closed spec fn wf(self) -> bool {
        &&& self.tiles@.len() == self.width * self.height
        &&& self.width * self.height <= usize::MAX
    }

    /// Whether `(row, col)` addresses a cell of the grid.
    pub open spec fn contains(self, row: int, col: int) -> bool {
        0 <= row < self.rows() && 0 <= col < self.cols()
    }

    /// This grid is `before` with the tile at `(row, col)` turned a quarter
    /// turn clockwise and every other tile left as it was.
    pub open spec fn turned_at(self, before: Grid, row: int, col: int) -> bool {
        let was = before.tile(row, col);
        let now = self.tile(row, col);
        &&& self.cols() == before.cols()
        &&& self.rows() == before.rows()
        &&& now.doors == was.doors
        &&& now.rotation == (was.rotation + 1) % 4
        &&& forall|d| #[trigger] now.opens_toward(d) == was.opens_toward(d.turned_cw())
        &&& forall|i: int, j: int|
            #![trigger self.tile(i, j)]
            before.contains(i, j) && (i != row || j != col) ==> self.tile(i, j) == before.tile(i, j)
    }

    /// Both dimensions of a grid fit in a `usize`.
    pub proof fn lemma_dimensions_fit(self)
        ensures
            self.cols() <= usize::MAX,
            self.rows() <= usize::MAX,
    {
    }

    proof fn lemma_cell_index(self, row: int, col: int)
        requires
            self.wf(),
            self.contains(row, col),
        ensures
            0 <= row * self.width <= row * self.width + col < self.tiles@.len(),
    {
        let w = self.width as int;
        let h = self.height as int;
        assert(0 <= row * w <= row * w + col < w * h) by (nonlinear_arith)
            requires
                0 <= row < h,
                0 <= col < w,
        ;
    }

    /// A `width` by `height` grid from its tiles listed row by row; refused
    /// unless there is exactly one tile per cell.
    pub fn new(width: usize, height: usize, tiles: Vec<Tile>) -> (r: Option<Grid>)
        ensures
            r is Some <==> tiles@.len() == width * height,
            r matches Some(g) ==> {
                &&& g.wf()
                &&& g.cols() == width
                &&& g.rows() == height
                &&& forall|row: int, col: int|
                    #![trigger g.tile(row, col)]
                    g.contains(row, col) ==> g.tile(row, col) == tiles@[row * width + col]
            },
    {
        let n: usize = tiles.len();
        if height != 0 && width > usize::MAX / height {
            proof {
                assert(width * height > usize::MAX) by (nonlinear_arith)
                    requires
                        height > 0,
                        width > usize::MAX / height,
                ;
            }
            return None;
        }
        proof {
            assert(width * height <= usize::MAX) by (nonlinear_arith)
                requires
                    height == 0 || width <= usize::MAX / height,
            ;
        }
        if n != width * height {
            return None;
        }
        Some(Grid { width, height, tiles })
    }

    /// A `width` by `height` grid with `tile` in every cell.
    pub fn filled(width: usize, height: usize, tile: Tile) -> (r: Grid)
        requires
            width * height <= usize::MAX,
        ensures
            r.wf(),
            r.cols() == width,
            r.rows() == height,
            forall|row: int, col: int|
                #![trigger r.tile(row, col)]
                r.contains(row, col) ==> r.tile(row, col) == tile,
    {
        let n: usize = width * height;
        let mut tiles: Vec<Tile> = Vec::new();
        let mut i: usize = 0;
        while i < n
            invariant
                i <= n,
                tiles@.len() == i,
                forall|k: int| 0 <= k < i ==> tiles@[k] == tile,
            decreases n - i,
        {
            tiles.push(tile);
            i = i + 1;
        }
        let r = Grid { width, height, tiles };
        assert forall|row: int, col: int|
            #![trigger r.tile(row, col)]
            r.contains(row, col) implies r.tile(row, col) == tile by {
            r.lemma_cell_index(row, col);
        }
        r
    }

    pub fn width(&self) -> (r: usize)
        ensures
            r == self.cols(),
    {
        self.width
    }

    pub fn height(&self) -> (r: usize)
        ensures
            r == self.rows(),
    {
        self.height
    }

    pub fn in_bounds(&self, row: usize, col: usize) -> (r: bool)
        ensures
            r == self.contains(row as int, col as int),
    {
        row < self.height && col < self.width
    }

    /// The tile at `(row, col)`, or `OutOfBounds` for an address outside the grid.
    pub fn tile_at(&self, row: usize, col: usize) -> (r: Result<Tile, Fault>)
        requires
            self.wf(),
        ensures
            self.contains(row as int, col as int) ==> r == Ok::<Tile, Fault>(
                self.tile(row as int, col as int),
            ),
            !self.contains(row as int, col as int) ==> r == Err::<Tile, Fault>(Fault::OutOfBounds),
    {
        if row >= self.height || col >= self.width {
            return Err(Fault::OutOfBounds);
        }
        proof {
            self.lemma_cell_index(row as int, col as int);
        }
        Ok(self.tiles[row * self.width + col])
    }

    /// Turns the tile at `(row, col)` a quarter turn clockwise and leaves every
    /// other tile as it was; `OutOfBounds`, with nothing changed, for an
    /// address outside the grid.
    pub fn rotate_tile(&mut self, row: usize, col: usize) -> (r: Result<(), Fault>)
        requires
            old(self).wf(),
        ensures
            final(self).wf(),
            final(self).cols() == old(self).cols(),
            final(self).rows() == old(self).rows(),
            r is Ok <==> old(self).contains(row as int, col as int),
            r is Err ==> r == Err::<(), Fault>(Fault::OutOfBounds) && *final(self) == *old(self),
            r is Ok ==> final(self).turned_at(*old(self), row as int, col as int),
    {
        if row >= self.height || col >= self.width {
            return Err(Fault::OutOfBounds);
        }
        proof {
            self.lemma_cell_index(row as int, col as int);
        }
        let k: usize = row * self.width + col;
        let mut t = self.tiles[k];
        t.rotate_cw();
        self.tiles.set(k, t);
        proof {
            assert forall|i: int, j: int|
                #![trigger self.tile(i, j)]
                old(self).contains(i, j) && (i != row || j != col) implies self.tile(i, j)
                == old(self).tile(i, j) by {
                old(self).lemma_cell_index(i, j);
                lemma_distinct_cells(self.width as int, i, j, row as int, col as int);
            }
        }
        Ok(())
    }
}

/// Two different cells of a grid `width` wide are stored at different places.
proof fn lemma_distinct_cells(width: int, i: int, j: int, row: int, col: int)
    requires
        0 <= j < width,
        0 <= col < width,
        0 <= i,
        0 <= row,
        i != row || j != col,
    ensures
        i * width + j != row * width + col,
{
    if i == row {
    } else if i < row {
        assert(i * width + j < row * width + col) by (nonlinear_arith)
            requires
                i < row,
                0 <= j < width,
                0 <= col,
        ;
    } else {
        assert(i * width + j > row * width + col) by (nonlinear_arith)
            requires
                i > row,
                0 <= col < width,
                0 <= j,
        ;
    }
}

} // verus!
