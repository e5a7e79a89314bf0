//! The cell grid: its dimensions, toroidal neighbour lookup, and the step
//! that computes one generation from the previous one.

use vstd::prelude::*;
use vstd::arithmetic::div_mod::{
    lemma_fundamental_div_mod,
    lemma_mod_bound,
    lemma_mod_add_multiples_vanish,
    lemma_small_mod,
};
use crate::rule::{cell_value, lives_on, next_value, ALIVE, DEAD};

verus! {

/// Width and height of the grid, in cells.
#[derive(Clone, Copy, Debug, PartialEq, Eq, Structural)]
pub struct Dimensions {
    pub width: u32,
    pub height: u32,
}

/// Reduces a coordinate to the range of an axis of `n` cells, so that the
/// cell before the first is the last and the cell after the last is the
/// first.
pub open spec fn wrap(i: int, n: int) -> int {
    i % n
}

/// 1 for a live cell, 0 for a dead one.
pub open spec fn as_count(alive: bool) -> int {
    if alive {
        1
    } else {
        0
    }
}

/// Whether the cell at column `x`, row `y` is alive, the coordinates taken
/// around the torus. Rows are stored one after the other.
pub open spec fn alive_at(cells: Seq<u32>, dims: Dimensions, x: int, y: int) -> bool {
    cells[wrap(y, dims.height as int) * dims.width + wrap(x, dims.width as int)] == ALIVE
}

/// The number of live cells among the eight cells around (`x`, `y`).
pub open spec fn live_neighbours(cells: Seq<u32>, dims: Dimensions, x: int, y: int) -> int {
    as_count(alive_at(cells, dims, x - 1, y - 1))
        + as_count(alive_at(cells, dims, x, y - 1))
        + as_count(alive_at(cells, dims, x + 1, y - 1))
        + as_count(alive_at(cells, dims, x - 1, y))
        + as_count(alive_at(cells, dims, x + 1, y))
        + as_count(alive_at(cells, dims, x - 1, y + 1))
        + as_count(alive_at(cells, dims, x, y + 1))
        + as_count(alive_at(cells, dims, x + 1, y + 1))
}

/// The value of the cell at (`x`, `y`) one generation after `cells`.
pub open spec fn evolved_cell(cells: Seq<u32>, dims: Dimensions, x: int, y: int) -> u32 {
    cell_value(lives_on(alive_at(cells, dims, x, y), live_neighbours(cells, dims, x, y)))
}

/// The generation that follows `cells`: every cell is computed from the
/// previous generation alone.
pub open spec fn evolved(cells: Seq<u32>, dims: Dimensions) -> Seq<u32> {
    Seq::new(
        dims.cell_count(),
        |i: int| evolved_cell(cells, dims, i % (dims.width as int), i / (dims.width as int)),
    )
}

/// `cells` holds one value per cell of the grid, each of them 0 or 1.
pub open spec fn is_generation(cells: Seq<u32>, dims: Dimensions) -> bool {
    &&& cells.len() == dims.cell_count()
    &&& forall|i: int| 0 <= i < cells.len() ==> #[trigger] cells[i] <= 1
}

impl Dimensions {
    /// Both sides are positive, and the number of cells fits the 32-bit
    /// instance count of a draw call.
    pub open spec fn well_formed(&self) -> bool {
        &&& 0 < self.width
        &&& 0 < self.height
        &&& self.width * self.height <= u32::MAX
    }

    /// The number of cells of the grid.
    pub open spec fn cell_count(&self) -> nat {
        (self.width * self.height) as nat
    }

    /// The place of the cell at column `x`, row `y` in a buffer.
    pub open spec fn spec_index(&self, x: int, y: int) -> int {
        y * self.width + x
    }

    /// Dimensions of `width` by `height` cells, unless a side is zero or the
    /// cells are too many to count in 32 bits.
    pub fn new(width: u32, height: u32) -> (dims: Option<Dimensions>)
        ensures
            dims.is_some() <==> (0 < width && 0 < height && width * height <= u32::MAX),
            dims.is_some() ==> dims.unwrap().width == width && dims.unwrap().height == height,
            dims.is_some() ==> dims.unwrap().well_formed(),
    {
        if width == 0 || height == 0 {
            return None;
        }
        match width.checked_mul(height) {
            Some(_) => Some(Dimensions { width, height }),
            None => None,
        }
    }

    /// The number of cells.
    pub fn cells(&self) -> (count: usize)
        requires
            self.well_formed(),
        ensures
            count == self.cell_count(),
    {
        (self.width * self.height) as usize
    }

    /// The place in a buffer of the cell at column `x`, row `y`.
    pub fn index(&self, x: u32, y: u32) -> (i: usize)
        requires
            self.well_formed(),
            x < self.width,
            y < self.height,
        ensures
            i == self.spec_index(x as int, y as int),
            i < self.cell_count(),
    {
        proof {
            lemma_index_in_range(*self, x as int, y as int);
        }
        (y * self.width + x) as usize
    }
}

/// The index of a cell inside the grid is below the number of cells.
pub proof fn lemma_index_in_range(dims: Dimensions, x: int, y: int)
    requires
        dims.well_formed(),
        0 <= x < dims.width,
        0 <= y < dims.height,
    ensures
        0 <= y * dims.width + x < dims.width * dims.height,
        0 <= y * dims.width <= dims.width * dims.height - dims.width,
{
    let w = dims.width as int;
    let h = dims.height as int;
    assert(0 <= y * w && y * w <= (h - 1) * w && (h - 1) * w == w * h - w) by (nonlinear_arith)
        requires
            0 <= y <= h - 1,
            0 < w,
    ;
}

/// Wrapping leaves a coordinate inside the axis alone, takes the one before
/// the first to the last, and the one after the last to the first.
pub proof fn lemma_wrap(i: int, n: int)
    requires
        0 <= i < n,
    ensures
        wrap(i, n) == i,
        wrap(i - 1, n) == (if i == 0 { n - 1 } else { i - 1 }),
        wrap(i + 1, n) == (if i + 1 == n { 0 } else { i + 1 }),
{
    lemma_small_mod(i as nat, n as nat);
    if i == 0 {
        lemma_mod_add_multiples_vanish(-1, n);
        lemma_small_mod((n - 1) as nat, n as nat);
    } else {
        lemma_small_mod((i - 1) as nat, n as nat);
    }
    if i + 1 == n {
        lemma_mod_add_multiples_vanish(0, n);
        lemma_small_mod(0, n as nat);
    } else {
        lemma_small_mod((i + 1) as nat, n as nat);
    }
}

/// Whether the stored cell at column `x`, row `y` is alive.
fn is_alive(dims: &Dimensions, cells: &Vec<u32>, x: u32, y: u32) -> (alive: bool)
    requires
        dims.well_formed(),
        cells.len() == dims.cell_count(),
        x < dims.width,
        y < dims.height,
    ensures
        alive == alive_at(cells@, *dims, x as int, y as int),
{
    proof {
        lemma_wrap(x as int, dims.width as int);
        lemma_wrap(y as int, dims.height as int);
    }
    cells[dims.index(x, y)] == ALIVE
}

/// Counts the live cells among the eight neighbours of the cell at column
/// `x`, row `y`, going around the edges of the grid.
pub fn count_live_neighbours(dims: &Dimensions, cells: &Vec<u32>, x: u32, y: u32) -> (count: u32)
    requires
        dims.well_formed(),
        cells.len() == dims.cell_count(),
        x < dims.width,
        y < dims.height,
    ensures
        count == live_neighbours(cells@, *dims, x as int, y as int),
        count <= 8,
{
    proof {
        lemma_wrap(x as int, dims.width as int);
        lemma_wrap(y as int, dims.height as int);
    }
    let left: u32 = if x == 0 { dims.width - 1 } else { x - 1 };
    let right: u32 = if x + 1 == dims.width { 0 } else { x + 1 };
    let up: u32 = if y == 0 { dims.height - 1 } else { y - 1 };
    let down: u32 = if y + 1 == dims.height { 0 } else { y + 1 };
    proof {
        lemma_wrap(left as int, dims.width as int);
        lemma_wrap(right as int, dims.width as int);
        lemma_wrap(up as int, dims.height as int);
        lemma_wrap(down as int, dims.height as int);
    }
    let mut count: u32 = 0;
    if is_alive(dims, cells, left, up) {
        count += 1;
    }
    if is_alive(dims, cells, x, up) {
        count += 1;
    }
    if is_alive(dims, cells, right, up) {
        count += 1;
    }
    if is_alive(dims, cells, left, y) {
        count += 1;
    }
    if is_alive(dims, cells, right, y) {
        count += 1;
    }
    if is_alive(dims, cells, left, down) {
        count += 1;
    }
    if is_alive(dims, cells, x, down) {
        count += 1;
    }
    if is_alive(dims, cells, right, down) {
        count += 1;
    }
    count
}

/// The unit of work of one cell: its next value, computed from the previous
/// generation alone. The units of different cells share nothing but the
/// source they read, so they may run in any order, or all at once.
pub fn next_cell(dims: &Dimensions, source: &Vec<u32>, x: u32, y: u32) -> (next: u32)
    requires
        dims.well_formed(),
        source.len() == dims.cell_count(),
        x < dims.width,
        y < dims.height,
    ensures
        next == evolved_cell(source@, *dims, x as int, y as int),
        next <= 1,
{
    let neighbours: u32 = count_live_neighbours(dims, source, x, y);
    let alive: bool = is_alive(dims, source, x, y);
    next_value(if alive { ALIVE } else { DEAD }, neighbours)
}

/// Computes the next generation of `source` into `destination`. Every cell
/// of `destination` is overwritten; `source` is only read.
pub fn evolve(dims: &Dimensions, source: &Vec<u32>, destination: &mut Vec<u32>)
    requires
        dims.well_formed(),
        source.len() == dims.cell_count(),
        old(destination).len() == dims.cell_count(),
    ensures
        final(destination)@ == evolved(source@, *dims),
{
    let count: usize = dims.cells();
    let width: usize = dims.width as usize;
    let mut i: usize = 0;
    while i < count
        invariant
            dims.well_formed(),
            source.len() == dims.cell_count(),
            destination.len() == dims.cell_count(),
            count == dims.cell_count(),
            width == dims.width,
            i <= count,
            forall|j: int| 0 <= j < i ==> destination@[j] == #[trigger] evolved(source@, *dims)[j],
        decreases count - i,
    {
        let x: u32 = (i % width) as u32;
        let y: u32 = (i / width) as u32;
        proof {
            lemma_cell_of_index(*dims, i as int);
        }
        let next: u32 = next_cell(dims, source, x, y);
        destination.set(i, next);
        i += 1;
    }
    assert(destination@ =~= evolved(source@, *dims));
}

/// The column and row of the cell stored at place `i` lie inside the grid,
/// and give `i` back as their index.
pub proof fn lemma_cell_of_index(dims: Dimensions, i: int)
    requires
        dims.well_formed(),
        0 <= i < dims.cell_count(),
    ensures
        0 <= i % (dims.width as int) < dims.width,
        0 <= i / (dims.width as int) < dims.height,
        dims.spec_index(i % (dims.width as int), i / (dims.width as int)) == i,
{
    let w = dims.width as int;
    let h = dims.height as int;
    lemma_fundamental_div_mod(i, w);
    lemma_mod_bound(i, w);
    assert(0 <= i / w < h) by (nonlinear_arith)
        requires
            0 <= i < w * h,
            0 < w,
            i == w * (i / w) + i % w,
            0 <= i % w < w,
    ;
    assert(w * (i / w) == (i / w) * w) by (nonlinear_arith);
}

/// Whatever the coordinates, the cell they name on the torus is a cell of
/// the grid.
pub proof fn lemma_wrapped_in_range(dims: Dimensions, x: int, y: int)
    requires
        dims.well_formed(),
    ensures
        0 <= wrap(x, dims.width as int) < dims.width,
        0 <= wrap(y, dims.height as int) < dims.height,
        0 <= wrap(y, dims.height as int) * dims.width + wrap(x, dims.width as int)
            < dims.cell_count(),
{
    lemma_mod_bound(x, dims.width as int);
    lemma_mod_bound(y, dims.height as int);
    lemma_index_in_range(dims, wrap(x, dims.width as int), wrap(y, dims.height as int));
}

/// The grid is a torus: going once around either axis comes back to the
/// same cell.
pub proof fn lemma_torus_periodic(cells: Seq<u32>, dims: Dimensions, x: int, y: int)
    requires
        dims.well_formed(),
    ensures
        alive_at(cells, dims, x + dims.width, y) == alive_at(cells, dims, x, y),
        alive_at(cells, dims, x, y + dims.height) == alive_at(cells, dims, x, y),
{
    lemma_mod_add_multiples_vanish(x, dims.width as int);
    lemma_mod_add_multiples_vanish(y, dims.height as int);
}

/// The cell in the first column of the first row has the cell in the last
/// column of the last row as its diagonal neighbour: if that cell is alive,
/// it is counted.
pub proof fn lemma_corner_neighbour(cells: Seq<u32>, dims: Dimensions)
    requires
        dims.well_formed(),
        cells.len() == dims.cell_count(),
    ensures
        alive_at(cells, dims, -1, -1) == (cells[dims.spec_index(
            dims.width - 1,
            dims.height - 1,
        )] == ALIVE),
        live_neighbours(cells, dims, 0, 0) >= as_count(
            cells[dims.spec_index(dims.width - 1, dims.height - 1)] == ALIVE,
        ),
{
    lemma_wrap(0, dims.width as int);
    lemma_wrap(0, dims.height as int);
}

/// The next generation is again a generation: one value per cell, each of
/// them 0 or 1.
pub proof fn lemma_evolved_is_generation(cells: Seq<u32>, dims: Dimensions)
    ensures
        is_generation(evolved(cells, dims), dims),
{
}

/// Nothing is born on an empty grid: the generation after an all-dead one
/// is all dead.
pub proof fn lemma_dead_stays_dead(cells: Seq<u32>, dims: Dimensions)
    requires
        dims.well_formed(),
        cells.len() == dims.cell_count(),
        forall|i: int| 0 <= i < cells.len() ==> cells[i] == DEAD,
    ensures
        evolved(cells, dims) == cells,
{
    assert forall|x: int, y: int| !alive_at(cells, dims, x, y) by {
        lemma_wrapped_in_range(dims, x, y);
    }
    assert forall|i: int| 0 <= i < cells.len() implies evolved(cells, dims)[i] == cells[i] by {
        let x = i % (dims.width as int);
        let y = i / (dims.width as int);
        assert(!alive_at(cells, dims, x, y));
        assert(!alive_at(cells, dims, x - 1, y - 1));
        assert(!alive_at(cells, dims, x, y - 1));
        assert(!alive_at(cells, dims, x + 1, y - 1));
        assert(!alive_at(cells, dims, x - 1, y));
        assert(!alive_at(cells, dims, x + 1, y));
        assert(!alive_at(cells, dims, x - 1, y + 1));
        assert(!alive_at(cells, dims, x, y + 1));
        assert(!alive_at(cells, dims, x + 1, y + 1));
    }
    assert(evolved(cells, dims) =~= cells);
}

/// A cell's next value depends on nothing but the cell and its eight
/// neighbours: two generations that agree on those nine cells give the
/// cell the same next value.
pub proof fn lemma_evolution_is_local(
    one: Seq<u32>,
    other: Seq<u32>,
    dims: Dimensions,
    x: int,
    y: int,
)
    requires
        forall|dx: int, dy: int|
            -1 <= dx <= 1 && -1 <= dy <= 1 ==> #[trigger] alive_at(one, dims, x + dx, y + dy)
                == alive_at(other, dims, x + dx, y + dy),
    ensures
        live_neighbours(one, dims, x, y) == live_neighbours(other, dims, x, y),
        evolved_cell(one, dims, x, y) == evolved_cell(other, dims, x, y),
{
    assert(alive_at(one, dims, x + (-1), y + (-1)) == alive_at(other, dims, x + (-1), y + (-1)));
    assert(alive_at(one, dims, x + 0, y + (-1)) == alive_at(other, dims, x + 0, y + (-1)));
    assert(alive_at(one, dims, x + 1, y + (-1)) == alive_at(other, dims, x + 1, y + (-1)));
    assert(alive_at(one, dims, x + (-1), y + 0) == alive_at(other, dims, x + (-1), y + 0));
    assert(alive_at(one, dims, x + 0, y + 0) == alive_at(other, dims, x + 0, y + 0));
    assert(alive_at(one, dims, x + 1, y + 0) == alive_at(other, dims, x + 1, y + 0));
    assert(alive_at(one, dims, x + (-1), y + 1) == alive_at(other, dims, x + (-1), y + 1));
    assert(alive_at(one, dims, x + 0, y + 1) == alive_at(other, dims, x + 0, y + 1));
    assert(alive_at(one, dims, x + 1, y + 1) == alive_at(other, dims, x + 1, y + 1));
}

} // verus!
