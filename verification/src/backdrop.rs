//! Backdrops: pictures of 13 by 10 tiles drawn behind a level.

use vstd::prelude::*;
use crate::consts::{BACKDROP_HEIGHT, BACKDROP_WIDTH};
use crate::geometry::Geometry;

verus! {

/// Where the `i`-th tile read from a backdrop file goes: the tiles fill the
/// picture row by row.
pub open spec fn backdrop_place(i: int) -> Geometry {
    Geometry { x: ((i % 13) * 16) as i16, y: ((i / 13) * 16) as i16, w: 16, h: 16 }
}

/// The places of all tiles of a backdrop, in the order they are read.
pub fn tile_places() -> (r: Vec<Geometry>)
    ensures
        r@.len() == BACKDROP_WIDTH * BACKDROP_HEIGHT,
        forall|i: int| 0 <= i < r@.len() ==> #[trigger] r@[i] == backdrop_place(i),
{
    let mut r: Vec<Geometry> = Vec::new();
    let mut g = Geometry { x: 0, y: 0, w: 16, h: 16 };
    let mut i: usize = 0;
    while i < BACKDROP_WIDTH * BACKDROP_HEIGHT
        invariant
            i <= 130,
            r@.len() == i,
            g == backdrop_place(i as int),
            forall|k: int| 0 <= k < i ==> #[trigger] r@[k] == backdrop_place(k),
        decreases 130 - i,
    {
        r.push(g);
        g.x = g.x + 16;
        if g.x == 16 * BACKDROP_WIDTH as i16 {
            g.x = 0;
            g.y = g.y + 16;
        }
        i = i + 1;
    }
    r
}

} // verus!
