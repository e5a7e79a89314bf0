//! What the draw of one frame shows: one instance of the quad per cell,
//! placed by the cell's column and row, and shown only where the cell is
//! alive.
//!
//! Positions in the viewport run from -1 to 1 on both axes. They are given
//! as numerators over `10 * extent`, the extent being the number of cells
//! along the axis, which keeps them exact.

use vstd::prelude::*;
use crate::grid::{alive_at, lemma_cell_of_index, lemma_wrap, Dimensions};
use crate::rule::ALIVE;

verus! {

/// The number of vertices drawn for each instance.
pub const QUAD_VERTICES: u32 = 6;

/// One draw: which of the two buffers it reads, and over how many vertices
/// and instances it runs.
#[derive(Clone, Copy, Debug, PartialEq, Eq, Structural)]
pub struct Frame {
    pub buffer: usize,
    pub vertices: u32,
    pub instances: u32,
}

/// The position along one axis, as a numerator over `10 * extent`, of the
/// point of cell `cell` that lies `offset` tenths of half a cell from the
/// cell's centre: -10 and 10 are the cell's edges.
pub open spec fn axis_position(cell: int, extent: int, offset: int) -> int {
    10 * (2 * cell + 1 - extent) + offset
}

/// The column and row of the cell that instance `instance` draws.
pub fn instance_cell(dims: &Dimensions, instance: u32) -> (cell: (u32, u32))
    requires
        dims.well_formed(),
        instance < dims.cell_count(),
    ensures
        cell.0 == instance % dims.width,
        cell.1 == instance / dims.width,
        cell.0 < dims.width,
        cell.1 < dims.height,
        dims.spec_index(cell.0 as int, cell.1 as int) == instance,
{
    proof {
        lemma_cell_of_index(*dims, instance as int);
    }
    (instance % dims.width, instance / dims.width)
}

/// Whether instance `instance` is shown: whether its cell is alive in
/// `cells`.
pub fn instance_alive(dims: &Dimensions, cells: &Vec<u32>, instance: u32) -> (shown: bool)
    requires
        dims.well_formed(),
        cells.len() == dims.cell_count(),
        instance < dims.cell_count(),
    ensures
        shown == (cells@[instance as int] == ALIVE),
        shown == alive_at(
            cells@,
            *dims,
            instance as int % (dims.width as int),
            instance as int / (dims.width as int),
        ),
{
    proof {
        lemma_cell_of_index(*dims, instance as int);
        lemma_wrap(instance as int % (dims.width as int), dims.width as int);
        lemma_wrap(instance as int / (dims.width as int), dims.height as int);
    }
    cells[instance as usize] == ALIVE
}

/// The position along one axis of a quad corner of cell `cell`, as a
/// numerator over `10 * extent`. `offset` is the corner's coordinate in
/// the vertex table, in tenths.
pub fn corner_position(cell: u32, extent: u32, offset: i32) -> (numerator: i64)
    ensures
        numerator == axis_position(cell as int, extent as int, offset as int),
        cell < extent && -10 <= offset <= 10 ==> -10 * extent <= numerator <= 10 * extent,
{
    let centre: i64 = 2 * (cell as i64) + 1 - (extent as i64);
    10 * centre + (offset as i64)
}

/// The cells are laid out symmetrically about the middle of the viewport:
/// a point of a cell and the mirrored point of the mirrored cell lie
/// opposite each other.
pub proof fn lemma_axis_centred(cell: int, extent: int, offset: int)
    requires
        0 <= cell < extent,
    ensures
        axis_position(cell, extent, offset) + axis_position(extent - 1 - cell, extent, -offset)
            == 0,
{
}

/// The cells tile the viewport: each spans a fraction `1 / extent` of it,
/// the first begins at -1, the last ends at 1, and each begins where the
/// one before it ends.
pub proof fn lemma_axis_tiles(cell: int, extent: int)
    requires
        0 <= cell < extent,
    ensures
        axis_position(0, extent, -10) == -10 * extent,
        axis_position(extent - 1, extent, 10) == 10 * extent,
        axis_position(cell, extent, 10) - axis_position(cell, extent, -10) == 20,
        cell + 1 < extent ==> axis_position(cell, extent, 10) == axis_position(
            cell + 1,
            extent,
            -10,
        ),
{
}

} // verus!
