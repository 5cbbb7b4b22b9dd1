//! Which tiles of a level are solid walls, and what collides with them.

use vstd::prelude::*;
use crate::consts::{LEVEL_HEIGHT, LEVEL_WIDTH, TILE_HEIGHT, TILE_WIDTH};
use crate::geometry::Geometry;

verus! {

/// Number of tiles in a level.
pub open spec fn level_cells() -> int {
    LEVEL_WIDTH as int * LEVEL_HEIGHT as int
}

/// Index of the tile at column `x` and row `y` in a row-major grid.
pub open spec fn cell_index(x: int, y: int) -> int {
    y * LEVEL_WIDTH as int + x
}

/// The tile at column `x` and row `y` lies inside the level.
pub open spec fn in_level(x: int, y: int) -> bool {
    0 <= x < LEVEL_WIDTH as int && 0 <= y < LEVEL_HEIGHT as int
}

/// The rectangle covered by the tile at column `i` and row `j`.
pub open spec fn tile_rect(i: int, j: int) -> Geometry {
    Geometry {
        x: (i * TILE_WIDTH as int) as i16,
        y: (j * TILE_HEIGHT as int) as i16,
        w: TILE_WIDTH,
        h: TILE_HEIGHT,
    }
}

/// A rectangle whose tiles, including the one just past its right and
/// bottom edge, all lie inside the level: the ones a collision test scans.
pub open spec fn scannable(rect: Geometry) -> bool {
    &&& rect.x >= 0
    &&& rect.y >= 0
    &&& (rect.x + rect.w) / (TILE_WIDTH as int) < LEVEL_WIDTH as int
    &&& (rect.y + rect.h) / (TILE_HEIGHT as int) < LEVEL_HEIGHT as int
}

pub proof fn lemma_cell_index_in_range(x: int, y: int)
    requires
        in_level(x, y),
    ensures
        0 <= cell_index(x, y) < level_cells(),
{
    assert(y * 128 + x < 90 * 128) by (nonlinear_arith)
        requires
            0 <= y < 90,
            0 <= x < 128,
    ;
}

/// The grid `grid` after the writes `writes` in their order, each write
/// giving the column, the row and the new value of one tile.
pub open spec fn written(grid: Seq<bool>, writes: Seq<(int, int, bool)>) -> Seq<bool>
    decreases writes.len(),
{
    if writes.len() == 0 {
        grid
    } else {
        let w = writes.last();
        written(grid, writes.drop_last()).update(cell_index(w.0, w.1), w.2)
    }
}

/// The value the last of `writes` to the tile at column `x` and row `y`
/// wrote there, or `false` where none wrote there.
pub open spec fn last_written(writes: Seq<(int, int, bool)>, x: int, y: int) -> bool
    decreases writes.len(),
{
    if writes.len() == 0 {
        false
    } else {
        let w = writes.last();
        if w.0 == x && w.1 == y { w.2 } else { last_written(writes.drop_last(), x, y) }
    }
}

/// A tile of a new grid (one without solid tiles, as [`LevelSolids::new`]
/// makes it) reads as the value the last write to it wrote, or as `false`
/// where none wrote there.
pub proof fn lemma_reads_last_write(grid: Seq<bool>, writes: Seq<(int, int, bool)>, x: int, y: int)
    requires
        grid.len() == level_cells(),
        forall|i: int, j: int| in_level(i, j) ==> !solid_at(grid, i, j),
        forall|k: int| 0 <= k < writes.len() ==> in_level(#[trigger] writes[k].0, writes[k].1),
        in_level(x, y),
    ensures
        written(grid, writes).len() == level_cells(),
        solid_at(written(grid, writes), x, y) == last_written(writes, x, y),
    decreases writes.len(),
{
    lemma_cell_index_in_range(x, y);
    if writes.len() > 0 {
        let rest = writes.drop_last();
        assert forall|k: int| 0 <= k < rest.len() implies in_level(#[trigger] rest[k].0, rest[k].1) by {
            assert(rest[k] == writes[k]);
        }
        lemma_reads_last_write(grid, rest, x, y);
        let w = writes.last();
        assert(in_level(writes[writes.len() - 1].0, writes[writes.len() - 1].1));
        lemma_cell_index_in_range(w.0, w.1);
        if w.0 != x || w.1 != y {
            assert(cell_index(w.0, w.1) != cell_index(x, y));
        }
    }
}

/// Which tiles of a level are solid walls.
#[derive(Debug)]
pub struct LevelSolids {
    solids: [bool; 11520],
}

/// Whether the tile at column `x` and row `y` of the grid `grid` is solid.
pub open spec fn solid_at(grid: Seq<bool>, x: int, y: int) -> bool {
    grid[cell_index(x, y)]
}

/// Some solid tile of `grid` shares a pixel with `rect`.
pub open spec fn grid_collides(grid: Seq<bool>, rect: Geometry) -> bool {
    exists|i: int, j: int|
        #![trigger solid_at(grid, i, j)]
        in_level(i, j) && solid_at(grid, i, j) && rect.spec_overlaps(tile_rect(i, j))
}

impl View for LevelSolids {
    type V = Seq<bool>;

    /// The solid flags of all tiles, row after row.
    closed spec fn view(&self) -> Seq<bool> {
        self.solids@
    }
}

/// The grid of a level has one entry per tile.
pub broadcast proof fn lemma_solids_len(s: &LevelSolids)
    ensures
        #[trigger] s@.len() == level_cells(),
{
}

impl LevelSolids {
    /// Whether the tile at column `x` and row `y` is solid.
    pub open spec fn is_solid(self, x: int, y: int) -> bool {
        solid_at(self@, x, y)
    }

    /// Some solid tile shares a pixel with `rect`.
    pub open spec fn spec_collides(self, rect: Geometry) -> bool {
        grid_collides(self@, rect)
    }

    pub fn new() -> (s: Self)
        ensures
            forall|x: int, y: int| in_level(x, y) ==> !s.is_solid(x, y),
    {
        let s = LevelSolids { solids: [false; 11520] };
        proof {
            assert forall|x: int, y: int| in_level(x, y) implies !s.is_solid(x, y) by {
                lemma_cell_index_in_range(x, y);
            }
        }
        s
    }

    /// Marks the tile at column `x` and row `y` as solid or free.
    pub fn set(&mut self, x: usize, y: usize, value: bool)
        requires
            x < LEVEL_WIDTH,
            y < LEVEL_HEIGHT,
        ensures
            final(self)@ == old(self)@.update(cell_index(x as int, y as int), value),
            final(self).is_solid(x as int, y as int) == value,
            forall|i: int, j: int|
                in_level(i, j) && (i != x || j != y) ==> final(self).is_solid(i, j) == old(self).is_solid(i, j),
    {
        proof {
            lemma_cell_index_in_range(x as int, y as int);
        }
        let idx = y * LEVEL_WIDTH + x;
        self.solids[idx] = value;
        proof {
            assert forall|i: int, j: int| in_level(i, j) && (i != x || j != y) implies cell_index(i, j) != idx by {
                if cell_index(i, j) == idx {
                    assert(i == x && j == y) by (nonlinear_arith)
                        requires
                            j * 128 + i == y * 128 + x,
                            0 <= i < 128,
                            0 <= x < 128,
                    ;
                }
            }
        }
    }

    /// Whether the tile at column `x` and row `y` is solid.
    pub fn get(&self, x: usize, y: usize) -> (r: bool)
        requires
            x < LEVEL_WIDTH,
            y < LEVEL_HEIGHT,
        ensures
            r == self.is_solid(x as int, y as int),
    {
        proof {
            lemma_cell_index_in_range(x as int, y as int);
        }
        self.solids[y * LEVEL_WIDTH + x]
    }

    /// Pushes `rect` `offset` pixels sideways if it can stand there on the
    /// ground (see [`ground_push`]); says whether it moved.
    pub fn push_rect_standing_on_ground(&self, rect: &mut Geometry, offset: i16, max_height: u8) -> (r: bool)
        requires
            i16::MIN <= old(rect).x + offset <= i16::MAX,
            i16::MIN <= old(rect).y + old(rect).h <= i16::MAX,
            scannable(Geometry { x: (old(rect).x + offset) as i16, ..*old(rect) }),
            scannable(Geometry { x: (old(rect).x + offset) as i16, y: (old(rect).y + old(rect).h) as i16, h: max_height as u16, ..*old(rect) }),
        ensures
            (*final(rect), r) == ground_push(self@, *old(rect), offset as int, max_height as int),
    {
        let moved = Geometry { x: rect.x + offset, ..*rect };
        let below = Geometry { y: rect.y + rect.h as i16, h: max_height as u16, ..moved };
        if !self.collides(moved) && self.collides(below) {
            *rect = moved;
            true
        } else {
            false
        }
    }

    /// Whether `rect` shares a pixel with some solid tile of the level.
    pub fn collides(&self, rect: Geometry) -> (r: bool)
        requires
            scannable(rect),
        ensures
            r == self.spec_collides(rect),
    {
        let tw = TILE_WIDTH as usize;
        let th = TILE_HEIGHT as usize;
        let left_edge = rect.x as usize / tw;
        let right_edge = (rect.x as usize + rect.w as usize) / tw + 1;
        let top_edge = rect.y as usize / th;
        let bottom_edge = (rect.y as usize + rect.h as usize) / th + 1;

        let mut i = left_edge;
        while i < right_edge
            invariant
                scannable(rect),
                tw == 16, th == 16,
                left_edge == rect.x as int / 16,
                right_edge == (rect.x + rect.w) / 16 + 1,
                top_edge == rect.y as int / 16,
                bottom_edge == (rect.y + rect.h) / 16 + 1,
                left_edge <= i <= right_edge,
                forall|a: int, b: int|
                    left_edge <= a < i && top_edge <= b < bottom_edge ==>
                        !(#[trigger] solid_at(self@, a, b) && rect.spec_overlaps(tile_rect(a, b))),
            decreases right_edge - i,
        {
            let mut j = top_edge;
            while j < bottom_edge
                invariant
                    scannable(rect),
                    tw == 16, th == 16,
                    left_edge == rect.x as int / 16,
                    right_edge == (rect.x + rect.w) / 16 + 1,
                    top_edge == rect.y as int / 16,
                    bottom_edge == (rect.y + rect.h) / 16 + 1,
                    left_edge <= i < right_edge,
                    top_edge <= j <= bottom_edge,
                    forall|a: int, b: int|
                        left_edge <= a < i && top_edge <= b < bottom_edge ==>
                            !(#[trigger] solid_at(self@, a, b) && rect.spec_overlaps(tile_rect(a, b))),
                    forall|b: int|
                        top_edge <= b < j ==> !(#[trigger] solid_at(self@, i as int, b) && rect.spec_overlaps(tile_rect(i as int, b))),
                decreases bottom_edge - j,
            {
                if self.get(i, j) {
                    let solidrect = Geometry {
                        x: (i * tw) as i16,
                        y: (j * th) as i16,
                        w: TILE_WIDTH,
                        h: TILE_HEIGHT,
                    };
                    assert(solidrect == tile_rect(i as int, j as int));
                    if rect.overlaps(solidrect) {
                        assert(in_level(i as int, j as int));
                        return true;
                    }
                }
                j = j + 1;
            }
            i = i + 1;
        }
        proof {
            assert forall|a: int, b: int| in_level(a, b) && #[trigger] solid_at(self@, a, b)
                implies !rect.spec_overlaps(tile_rect(a, b)) by {
                if rect.spec_overlaps(tile_rect(a, b)) {
                    lemma_overlap_in_scan(rect, a, b);
                }
            }
        }
        false
    }
}

/// `rect` moved `offset` pixels sideways, and whether that is where it
/// goes when pushed along the ground: the moved rectangle is free of solid
/// tiles, and a solid tile lies in the strip of `max_height` pixels right
/// below it.
pub open spec fn ground_push(grid: Seq<bool>, rect: Geometry, offset: int, max_height: int) -> (Geometry, bool) {
    let moved = Geometry { x: (rect.x + offset) as i16, ..rect };
    let below = Geometry { y: (rect.y + rect.h) as i16, h: max_height as u16, ..moved };
    if !grid_collides(grid, moved) && grid_collides(grid, below) {
        (moved, true)
    } else {
        (rect, false)
    }
}

/// A tile that shares a pixel with a scannable rectangle lies in the range
/// of columns and rows that the collision test scans.
proof fn lemma_overlap_in_scan(rect: Geometry, a: int, b: int)
    requires
        scannable(rect),
        in_level(a, b),
        rect.spec_overlaps(tile_rect(a, b)),
    ensures
        rect.x as int / 16 <= a < (rect.x + rect.w) / 16 + 1,
        rect.y as int / 16 <= b < (rect.y + rect.h) / 16 + 1,
{
    let t = tile_rect(a, b);
    assert(t.x == a * 16);
    assert(t.y == b * 16);
}

} // verus!
