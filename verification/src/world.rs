//! The toroidal grid of cells and the generation-advance rule.
//!
//! The grid is a fixed rectangle of `WIDTH x HEIGHT` boolean cells whose
//! edges wrap around: every neighbour lookup is taken modulo the grid
//! dimensions, so the grid has no edges.  The abstract model of a grid is a
//! `Seq<bool>` of length `AREA`, indexed row-major by `grid_index`.

use vstd::prelude::*;

verus! {

/// Horizontal pixel pitch of one cell.
pub const HORIZONTAL_DIVIDER: usize = 4;

/// Vertical pixel pitch used to derive the row count.
pub const VERTICAL_DIVIDER: usize = 8;

/// Number of cell columns: the 160-pixel display budget divided by the
/// horizontal pitch of 4, minus a one-cell border on each side.
pub const WIDTH: usize = 38;

/// Number of cell rows: the 160-pixel display budget divided by the
/// vertical pitch of 8, minus a one-cell border on each side.
pub const HEIGHT: usize = 18;

/// Total number of cells in a grid: `WIDTH` times `HEIGHT`.
pub const AREA: usize = 684;

/// Row-major index of the cell at column `x`, row `y`.
pub open spec fn grid_index(x: int, y: int) -> int {
    y * (WIDTH as int) + x
}

/// Whether `(x, y)` is a coordinate inside the grid rectangle.
pub open spec fn in_grid(x: int, y: int) -> bool {
    0 <= x < WIDTH && 0 <= y < HEIGHT
}

/// The cell of grid `s` at column `x`, row `y`.
pub open spec fn cell_of(s: Seq<bool>, x: int, y: int) -> bool {
    s[grid_index(x, y)]
}

/// A coordinate `v` moved by offset `d` and wrapped into `[0, dim)`;
/// defined for every integer input so an off-by-one at a border never
/// leaves the grid.
pub open spec fn wrap_offset(v: int, d: int, dim: int) -> int {
    (v + dim + d) % dim
}

/// The offset of the `k`-th of the eight neighbours, in the fixed
/// enumeration order: the row above left-to-right, then the two side
/// cells, then the row below left-to-right.
pub open spec fn neighbour_offset(k: int) -> (int, int) {
    if k == 0 {
        (-1, -1)
    } else if k == 1 {
        (0, -1)
    } else if k == 2 {
        (1, -1)
    } else if k == 3 {
        (-1, 0)
    } else if k == 4 {
        (1, 0)
    } else if k == 5 {
        (-1, 1)
    } else if k == 6 {
        (0, 1)
    } else {
        (1, 1)
    }
}

/// The toroidally wrapped coordinate of the `k`-th neighbour of `(x, y)`.
pub open spec fn neighbour_coord(x: int, y: int, k: int) -> (int, int) {
    (
        wrap_offset(x, neighbour_offset(k).0, WIDTH as int),
        wrap_offset(y, neighbour_offset(k).1, HEIGHT as int),
    )
}

/// How many of the first `k` neighbours of `(x, y)` are alive in `s`.
pub open spec fn live_neighbours_upto(s: Seq<bool>, x: int, y: int, k: int) -> nat
    decreases k,
{
    if k <= 0 {
        0
    } else {
        live_neighbours_upto(s, x, y, k - 1) + (if cell_of(
            s,
            neighbour_coord(x, y, k - 1).0,
            neighbour_coord(x, y, k - 1).1,
        ) {
            1nat
        } else {
            0nat
        })
    }
}

/// How many of the eight toroidally wrapped neighbours of `(x, y)` are
/// alive in `s`.
pub open spec fn live_neighbours_of(s: Seq<bool>, x: int, y: int) -> nat {
    live_neighbours_upto(s, x, y, 8)
}

/// The standard rule, evaluated on the previous generation `s`: a live
/// cell with 2 or 3 live neighbours survives, a dead cell with exactly 3
/// live neighbours becomes alive, every other cell ends dead.
pub open spec fn next_cell_of(s: Seq<bool>, x: int, y: int) -> bool {
    if cell_of(s, x, y) {
        2 <= live_neighbours_of(s, x, y) <= 3
    } else {
        live_neighbours_of(s, x, y) == 3
    }
}

/// The whole next generation of `s`: every cell evaluated independently
/// against the previous generation.
pub open spec fn next_gen(s: Seq<bool>) -> Seq<bool> {
    Seq::new(AREA as nat, |i: int| next_cell_of(s, i % (WIDTH as int), i / (WIDTH as int)))
}

/// The toroidal grid.  Its model (the view) is a `Seq<bool>` of length
/// `AREA`, row-major.
pub struct World {
    cells: Vec<bool>,
}

impl View for World {
    type V = Seq<bool>;

    closed spec fn view(&self) -> Seq<bool> {
        self.cells@
    }
}

/// Distinct in-grid coordinates have distinct row-major indices.
pub proof fn lemma_grid_index_injective(x1: int, y1: int, x2: int, y2: int)
    requires
        in_grid(x1, y1),
        in_grid(x2, y2),
        grid_index(x1, y1) == grid_index(x2, y2),
    ensures
        x1 == x2 && y1 == y2,
{
}

impl World {
    /// A grid is well formed when it holds exactly `AREA` cells.
    pub open spec fn wf(self) -> bool {
        self@.len() == AREA
    }

    /// The cell at column `x`, row `y`.
    pub open spec fn cell(self, x: int, y: int) -> bool {
        cell_of(self@, x, y)
    }

    /// How many of the eight wrapped neighbours of `(x, y)` are alive.
    pub open spec fn live_neighbours(self, x: int, y: int) -> nat {
        live_neighbours_of(self@, x, y)
    }

    /// The rule applied to this grid at `(x, y)`.
    pub open spec fn next_cell(self, x: int, y: int) -> bool {
        next_cell_of(self@, x, y)
    }

    /// A fresh grid with every cell dead.
    pub fn new() -> (r: World)
        ensures
            r.wf(),
            forall|i: int| 0 <= i < AREA ==> !r@[i],
            forall|x: int, y: int| in_grid(x, y) ==> !r.cell(x, y),
    {
        let mut cells: Vec<bool> = Vec::new();
        let mut i: usize = 0;
        while i < AREA
            invariant
                i <= AREA,
                cells@.len() == i,
                forall|j: int| 0 <= j < i ==> !cells@[j],
            decreases AREA - i,
        {
            cells.push(false);
            i = i + 1;
        }
        World { cells }
    }

    /// Bulk-overwrite this grid's contents with another grid's contents.
    pub fn replace(&mut self, other: &World)
        requires
            other.wf(),
        ensures
            final(self).wf(),
            final(self)@ == other@,
    {
        let mut cells: Vec<bool> = Vec::new();
        let mut i: usize = 0;
        while i < AREA
            invariant
                other.wf(),
                i <= AREA,
                cells@.len() == i,
                forall|j: int| 0 <= j < i ==> cells@[j] == other@[j],
            decreases AREA - i,
        {
            cells.push(other.cells[i]);
            i = i + 1;
        }
        self.cells = cells;
        proof {
            assert(self@ =~= other@);
        }
    }

    /// The cell at `(x, y)`; the caller guarantees the coordinate is in
    /// range.
    pub fn get_cell(&self, x: i16, y: i16) -> (r: bool)
        requires
            self.wf(),
            in_grid(x as int, y as int),
        ensures
            r == self.cell(x as int, y as int),
    {
        let xu = x as usize;
        let yu = y as usize;
        self.cells[yu * WIDTH + xu]
    }

    /// Overwrite the cell at `(x, y)`; the caller guarantees the
    /// coordinate is in range.  Every other cell is unchanged.
    pub fn set_cell(&mut self, x: i16, y: i16, value: bool)
        requires
            old(self).wf(),
            in_grid(x as int, y as int),
        ensures
            final(self).wf(),
            final(self)@ == old(self)@.update(grid_index(x as int, y as int), value),
            final(self).cell(x as int, y as int) == value,
            forall|i: int, j: int|
                in_grid(i, j) && !(i == x && j == y) ==> final(self).cell(i, j) == old(self).cell(
                    i,
                    j,
                ),
    {
        let xu = x as usize;
        let yu = y as usize;
        self.cells.set(yu * WIDTH + xu, value);
        proof {
            assert forall|i: int, j: int| in_grid(i, j) && !(i == x && j == y) implies self.cell(
                i,
                j,
            ) == old(self).cell(i, j) by {
                if grid_index(i, j) == grid_index(x as int, y as int) {
                    lemma_grid_index_injective(i, j, x as int, y as int);
                }
            }
        }
    }

    /// Invert the cell at `(x, y)`; the caller guarantees the coordinate
    /// is in range.  Every other cell is unchanged.
    pub fn flip_cell(&mut self, x: i16, y: i16)
        requires
            old(self).wf(),
            in_grid(x as int, y as int),
        ensures
            final(self).wf(),
            final(self).cell(x as int, y as int) == !old(self).cell(x as int, y as int),
            forall|i: int, j: int|
                in_grid(i, j) && !(i == x && j == y) ==> final(self).cell(i, j) == old(self).cell(
                    i,
                    j,
                ),
    {
        let current = self.get_cell(x, y);
        self.set_cell(x, y, !current);
    }

    /// The eight toroidally wrapped neighbour coordinates of `(x, y)`, in
    /// the fixed enumeration order.
    pub fn neighbours(&self, x: i16, y: i16) -> (r: [(i16, i16); 8])
        requires
            in_grid(x as int, y as int),
        ensures
            forall|k: int|
                0 <= k < 8 ==> (#[trigger] r@[k]).0 == neighbour_coord(x as int, y as int, k).0
                    && r@[k].1 == neighbour_coord(x as int, y as int, k).1,
            forall|k: int| 0 <= k < 8 ==> in_grid((#[trigger] r@[k]).0 as int, r@[k].1 as int),
    {
        let xu = x as usize;
        let yu = y as usize;
        let xm = ((xu + WIDTH - 1) % WIDTH) as i16;
        let x0 = ((xu + WIDTH) % WIDTH) as i16;
        let xp = ((xu + WIDTH + 1) % WIDTH) as i16;
        let ym = ((yu + HEIGHT - 1) % HEIGHT) as i16;
        let y0 = ((yu + HEIGHT) % HEIGHT) as i16;
        let yp = ((yu + HEIGHT + 1) % HEIGHT) as i16;
        [
            (xm, ym),
            (x0, ym),
            (xp, ym),
            (xm, y0),
            (xp, y0),
            (xm, yp),
            (x0, yp),
            (xp, yp),
        ]
    }

    /// How many of the eight wrapped neighbours of `(x, y)` are alive; the
    /// caller guarantees the coordinate is in range.
    pub fn count_live_neighbours(&self, x: i16, y: i16) -> (r: usize)
        requires
            self.wf(),
            in_grid(x as int, y as int),
        ensures
            r == self.live_neighbours(x as int, y as int),
            r <= 8,
    {
        let neighbours = self.neighbours(x, y);
        let mut count: usize = 0;
        let mut k: usize = 0;
        while k < 8
            invariant
                self.wf(),
                in_grid(x as int, y as int),
                k <= 8,
                count == live_neighbours_upto(self@, x as int, y as int, k as int),
                count <= k,
                forall|m: int|
                    0 <= m < 8 ==> (#[trigger] neighbours@[m]).0 == neighbour_coord(
                        x as int,
                        y as int,
                        m,
                    ).0 && neighbours@[m].1 == neighbour_coord(x as int, y as int, m).1,
                forall|m: int|
                    0 <= m < 8 ==> in_grid(
                        (#[trigger] neighbours@[m]).0 as int,
                        neighbours@[m].1 as int,
                    ),
            decreases 8 - k,
        {
            let (nx, ny) = neighbours[k];
            if self.get_cell(nx, ny) {
                count = count + 1;
            }
            k = k + 1;
        }
        count
    }
}

/// Toroidal wrap law: every cell in column 0 has its three left-hand
/// neighbours in column `WIDTH - 1`, at the row above, the same row and
/// the row below; and symmetrically at the other three borders.
pub proof fn lemma_toroidal_wrap(x: int, y: int)
    requires
        in_grid(x, y),
    ensures
        x == 0 ==> neighbour_coord(x, y, 0).0 == WIDTH - 1 && neighbour_coord(x, y, 3).0 == WIDTH
            - 1 && neighbour_coord(x, y, 5).0 == WIDTH - 1,
        x == WIDTH - 1 ==> neighbour_coord(x, y, 2).0 == 0 && neighbour_coord(x, y, 4).0 == 0
            && neighbour_coord(x, y, 7).0 == 0,
        y == 0 ==> neighbour_coord(x, y, 0).1 == HEIGHT - 1 && neighbour_coord(x, y, 1).1 == HEIGHT
            - 1 && neighbour_coord(x, y, 2).1 == HEIGHT - 1,
        y == HEIGHT - 1 ==> neighbour_coord(x, y, 5).1 == 0 && neighbour_coord(x, y, 6).1 == 0
            && neighbour_coord(x, y, 7).1 == 0,
        neighbour_coord(x, y, 0).1 == wrap_offset(y, -1, HEIGHT as int),
        neighbour_coord(x, y, 3).1 == y,
        neighbour_coord(x, y, 5).1 == wrap_offset(y, 1, HEIGHT as int),
{
}

/// Rule correctness law: a dead cell with exactly 3 live neighbours is
/// born; a live cell with 2 or 3 live neighbours survives; every other
/// combination yields a dead cell.
pub proof fn lemma_rule_correctness(s: Seq<bool>, x: int, y: int)
    ensures
        !cell_of(s, x, y) && live_neighbours_of(s, x, y) == 3 ==> next_cell_of(s, x, y),
        cell_of(s, x, y) && (live_neighbours_of(s, x, y) == 2 || live_neighbours_of(s, x, y) == 3)
            ==> next_cell_of(s, x, y),
        !(live_neighbours_of(s, x, y) == 3 || (cell_of(s, x, y) && live_neighbours_of(s, x, y)
            == 2)) ==> !next_cell_of(s, x, y),
{
}

} // verus!
