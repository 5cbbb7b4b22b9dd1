//! The tile drawn at each position of a level.

use vstd::prelude::*;
use crate::consts::{LEVEL_HEIGHT, LEVEL_WIDTH};
use super::solids::{cell_index, in_level, level_cells, lemma_cell_index_in_range};

verus! {

/// The tile that is drawn for each position of a level.
#[derive(Debug)]
pub struct LevelTiles {
    tiles: [u16; 11520],
}

impl View for LevelTiles {
    type V = Seq<u16>;

    /// The tile values of all positions, row after row.
    closed spec fn view(&self) -> Seq<u16> {
        self.tiles@
    }
}

/// The grid of a level has one entry per tile.
pub broadcast proof fn lemma_tiles_len(t: &LevelTiles)
    ensures
        #[trigger] t@.len() == level_cells(),
{
}

impl LevelTiles {
    /// The value stored for the tile at column `x` and row `y`.
    pub open spec fn value_at(self, x: int, y: int) -> u16 {
        self@[cell_index(x, y)]
    }

    pub fn new() -> (s: Self)
        ensures
            forall|x: int, y: int| in_level(x, y) ==> s.value_at(x, y) == 0,
    {
        let s = LevelTiles { tiles: [0u16; 11520] };
        proof {
            assert forall|x: int, y: int| in_level(x, y) implies s.value_at(x, y) == 0 by {
                lemma_cell_index_in_range(x, y);
            }
        }
        s
    }

    /// Stores `value` for the tile at column `x` and row `y`.
    pub fn set(&mut self, x: usize, y: usize, value: u16)
        requires
            x < LEVEL_WIDTH,
            y < LEVEL_HEIGHT,
        ensures
            final(self)@ == old(self)@.update(cell_index(x as int, y as int), value),
            final(self).value_at(x as int, y as int) == value,
            forall|i: int, j: int|
                in_level(i, j) && (i != x || j != y) ==> final(self).value_at(i, j) == old(self).value_at(i, j),
    {
        proof {
            lemma_cell_index_in_range(x as int, y as int);
        }
        let idx = y * LEVEL_WIDTH + x;
        self.tiles[idx] = value;
        proof {
            assert forall|i: int, j: int| in_level(i, j) && (i != x || j != y) implies cell_index(i, j) != idx by {
                if cell_index(i, j) == idx {
                    assert(i == x && j == y) by (nonlinear_arith)
                        requires
                            j * 128 + i == y * 128 + x,
                            0 <= i < 128,
                            0 <= x < 128,
                    ;
                }
            }
        }
    }

    /// The value stored for the tile at column `x` and row `y`.
    pub fn get(&self, x: usize, y: usize) -> (r: u16)
        requires
            x < LEVEL_WIDTH,
            y < LEVEL_HEIGHT,
        ensures
            r == self.value_at(x as int, y as int),
    {
        proof {
            lemma_cell_index_in_range(x as int, y as int);
        }
        self.tiles[y * LEVEL_WIDTH + x]
    }

    /// Copies the tile at (`x_from`, `y_from`) onto (`x_to`, `y_to`).
    pub fn copy_from_to(&mut self, x_from: usize, y_from: usize, x_to: usize, y_to: usize)
        requires
            x_from < LEVEL_WIDTH,
            y_from < LEVEL_HEIGHT,
            x_to < LEVEL_WIDTH,
            y_to < LEVEL_HEIGHT,
        ensures
            final(self)@ == old(self)@.update(cell_index(x_to as int, y_to as int), old(self)@[cell_index(x_from as int, y_from as int)]),
            final(self).value_at(x_to as int, y_to as int) == old(self).value_at(x_from as int, y_from as int),
            forall|i: int, j: int|
                in_level(i, j) && (i != x_to || j != y_to) ==> final(self).value_at(i, j) == old(self).value_at(i, j),
    {
        let v = self.get(x_from, y_from);
        self.set(x_to, y_to, v);
    }
}

} // verus!
