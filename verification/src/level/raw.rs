//! The raw tile words of a level as read from its file.

use vstd::prelude::*;
use crate::consts::{LEVEL_HEIGHT, LEVEL_WIDTH};
use super::solids::{cell_index, in_level, lemma_cell_index_in_range};

verus! {

/// The tile numbers of a level as they are stored in the level file.
pub struct LevelRaw {
    raw: [u16; 11520],
}

impl LevelRaw {
    /// The value stored for the tile at column `x` and row `y`.
    pub closed spec fn value_at(self, x: int, y: int) -> u16 {
        self.raw@[cell_index(x, y)]
    }

    pub fn new() -> (s: Self)
        ensures
            forall|x: int, y: int| in_level(x, y) ==> s.value_at(x, y) == 0,
    {
        let s = LevelRaw { raw: [0u16; 11520] };
        proof {
            assert forall|x: int, y: int| in_level(x, y) implies s.value_at(x, y) == 0 by {
                lemma_cell_index_in_range(x, y);
            }
        }
        s
    }

    /// Stores `tile` for the tile at column `x` and row `y`.
    pub fn set(&mut self, x: usize, y: usize, tile: u16)
        requires
            x < LEVEL_WIDTH,
            y < LEVEL_HEIGHT,
        ensures
            final(self).value_at(x as int, y as int) == tile,
            forall|i: int, j: int|
                in_level(i, j) && (i != x || j != y) ==> final(self).value_at(i, j) == old(self).value_at(i, j),
    {
        proof {
            lemma_cell_index_in_range(x as int, y as int);
        }
        let idx = y * LEVEL_WIDTH + x;
        self.raw[idx] = tile;
        proof {
            assert forall|i: int, j: int| in_level(i, j) && (i != x || j != y) implies cell_index(i, j) != idx by {
                if cell_index(i, j) == idx {
                    assert(i == x && j == y) by (nonlinear_arith)
                        requires
                            j * 128 + i == y * 128 + x,
                            0 <= i < 128,
                            0 <= x < 128,
                    ;
                }
            }
        }
    }

    /// The value stored for the tile at column `x` and row `y`.
    pub fn get(&self, x: usize, y: usize) -> (r: u16)
        requires
            x < LEVEL_WIDTH,
            y < LEVEL_HEIGHT,
        ensures
            r == self.value_at(x as int, y as int),
    {
        proof {
            lemma_cell_index_in_range(x as int, y as int);
        }
        self.raw[y * LEVEL_WIDTH + x]
    }
}

} // verus!
