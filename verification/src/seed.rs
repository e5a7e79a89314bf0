//! The random first generation.
//!
//! A cell is seeded from one 32-bit word of the generator. The upper 24
//! bits of the word are a uniform draw from 0 to 2^24 - 1; the cell is
//! alive when the draw exceeds a threshold. With threshold `t` a cell is
//! alive with probability (2^24 - 1 - t) / 2^24.

use vstd::prelude::*;
use rand::Rng;
use crate::rule::cell_value;

verus! {

/// The number of values a draw can take: 2^24.
pub const DRAW_RANGE: u32 = 16777216;

/// The threshold that leaves about two cells in five alive: a draw is above
/// it exactly when the draw, divided by 2^24, is above 0.6 in single
/// precision.
pub const DEFAULT_THRESHOLD: u32 = 10066330;

/// The uniform draw that a word of the generator stands for: its upper 24
/// bits.
pub open spec fn draw_of(word: u32) -> int {
    word as int / 256
}

/// The value a cell is seeded with from `word`: alive when the draw exceeds
/// the threshold.
pub open spec fn seeded_value(word: u32, threshold: u32) -> u32 {
    cell_value(draw_of(word) > threshold)
}

/// Seeds one cell from one word of the generator.
pub fn seed_cell(word: u32, threshold: u32) -> (cell: u32)
    ensures
        cell == seeded_value(word, threshold),
        cell <= 1,
{
    if word / 256 > threshold {
        1
    } else {
        0
    }
}

/// Seeds one cell from each word, in order.
pub fn seed_cells(words: &Vec<u32>, threshold: u32) -> (cells: Vec<u32>)
    ensures
        cells@ == words@.map_values(|word: u32| seeded_value(word, threshold)),
{
    let mut cells: Vec<u32> = Vec::with_capacity(words.len());
    let mut i: usize = 0;
    while i < words.len()
        invariant
            i <= words.len(),
            cells.len() == i,
            forall|j: int| 0 <= j < i ==> cells@[j] == seeded_value(#[trigger] words@[j], threshold),
        decreases words.len() - i,
    {
        cells.push(seed_cell(words[i], threshold));
        i += 1;
    }
    assert(cells@ =~= words@.map_values(|word: u32| seeded_value(word, threshold)));
    cells
}

/// One word from `rand`'s thread-local generator, `thread_rng().gen::<u32>()`.
/// The word is random: nothing is claimed of it. The generator is seeded by
/// the operating system on first use; where the system gives no seed,
/// `rand` panics, whatever is asked of it.
#[verifier::external_body]
fn draw_word() -> (word: u32) {
    rand::thread_rng().gen::<u32>()
}

/// Draws `count` words from the generator.
pub fn draw_words(count: usize) -> (words: Vec<u32>)
    ensures
        words.len() == count,
{
    let mut words: Vec<u32> = Vec::with_capacity(count);
    let mut i: usize = 0;
    while i < count
        invariant
            i <= count,
            words.len() == i,
        decreases count - i,
    {
        words.push(draw_word());
        i += 1;
    }
    words
}

/// A random generation of `count` cells, each seeded independently from a
/// fresh word of the generator. Which cells are alive is left to chance,
/// except where the threshold decides for every draw: no draw exceeds
/// 2^24 - 1, so from that threshold on every cell is dead.
pub fn random_cells(count: usize, threshold: u32) -> (cells: Vec<u32>)
    ensures
        cells.len() == count,
        forall|i: int| 0 <= i < cells.len() ==> #[trigger] cells@[i] <= 1,
        threshold >= DRAW_RANGE - 1 ==> forall|i: int|
            0 <= i < cells.len() ==> #[trigger] cells@[i] == 0,
{
    let words = draw_words(count);
    seed_cells(&words, threshold)
}

} // verus!
