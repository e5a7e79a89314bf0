//! The survival and birth rule of a single cell.

use vstd::prelude::*;

verus! {

/// Stored value of a dead cell.
pub const DEAD: u32 = 0;

/// Stored value of a live cell.
pub const ALIVE: u32 = 1;

/// Whether a cell lives in the next generation: a live cell survives with
/// two or three live neighbours, a dead cell is born with exactly three.
pub open spec fn lives_on(alive: bool, neighbours: int) -> bool {
    if alive {
        neighbours == 2 || neighbours == 3
    } else {
        neighbours == 3
    }
}

/// The value stored for a cell that is alive or not.
pub open spec fn cell_value(alive: bool) -> u32 {
    if alive {
        1
    } else {
        0
    }
}

/// Applies the rule to one cell, given whether it is alive and how many of
/// its eight neighbours are.
pub fn next_state(alive: bool, neighbours: u32) -> (next: bool)
    ensures
        next == lives_on(alive, neighbours as int),
{
    if alive {
        neighbours == 2 || neighbours == 3
    } else {
        neighbours == 3
    }
}

/// The rule on stored values: the next stored value of a cell whose current
/// value is `cell`, with `neighbours` live neighbours.
pub fn next_value(cell: u32, neighbours: u32) -> (next: u32)
    ensures
        next == cell_value(lives_on(cell == ALIVE, neighbours as int)),
{
    if next_state(cell == ALIVE, neighbours) {
        ALIVE
    } else {
        DEAD
    }
}

/// A dead cell without live neighbours stays dead, and no cell with fewer
/// than two or more than three live neighbours lives on.
pub proof fn lemma_rule_bounds(alive: bool, neighbours: int)
    ensures
        lives_on(alive, neighbours) ==> 2 <= neighbours <= 3,
        !lives_on(false, 0),
{
}

} // verus!
