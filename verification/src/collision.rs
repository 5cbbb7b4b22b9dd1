//! Overlap of areas, and outlines of rectangles.

use vstd::prelude::*;
use crate::geometry::Geometry;

verus! {

/// Two areas, each given by its top left corner and its size, share at
/// least one pixel.
pub open spec fn spec_overlap(
    x1: int, y1: int, w1: int, h1: int,
    x2: int, y2: int, w2: int, h2: int,
) -> bool {
    &&& x1 + w1 > x2
    &&& x2 + w2 > x1
    &&& y1 + h1 > y2
    &&& y2 + h2 > y1
}

/// Whether two areas overlap. The sums of position and size must fit in an
/// `i64`, as they do for every rectangle of the game.
pub fn overlap_area_area(
    x1: i64, y1: i64, w1: i64, h1: i64,
    x2: i64, y2: i64, w2: i64, h2: i64,
) -> (r: bool)
    requires
        i64::MIN <= x1 + w1 <= i64::MAX,
        i64::MIN <= x2 + w2 <= i64::MAX,
        i64::MIN <= y1 + h1 <= i64::MAX,
        i64::MIN <= y2 + h2 <= i64::MAX,
    ensures
        r == spec_overlap(x1 as int, y1 as int, w1 as int, h1 as int, x2 as int, y2 as int, w2 as int, h2 as int),
{
    if x1 + w1 <= x2 {
        return false;
    }
    if x2 + w2 <= x1 {
        return false;
    }
    if y1 + h1 <= y2 {
        return false;
    }
    if y2 + h2 <= y1 {
        return false;
    }
    true
}

/// The four one-pixel borders of `rect`, to draw its outline with: left,
/// right, top and bottom.
pub open spec fn outline(rect: Geometry) -> Seq<Geometry> {
    seq![
        Geometry { w: 1, ..rect },
        Geometry { x: (rect.x + rect.w - 1) as i16, w: 1, ..rect },
        Geometry { h: 1, ..rect },
        Geometry { y: (rect.y + rect.h - 1) as i16, h: 1, ..rect },
    ]
}

/// The rectangles that make up the outline of `rect`; see [`outline`].
pub fn rect_draw(rect: Geometry) -> (r: Vec<Geometry>)
    requires
        rect.w <= i16::MAX,
        rect.h <= i16::MAX,
        i16::MIN <= rect.x + rect.w - 1,
        rect.x + rect.w <= i16::MAX,
        i16::MIN <= rect.y + rect.h - 1,
        rect.y + rect.h <= i16::MAX,
    ensures
        r@ == outline(rect),
{
    let r = vec![
        Geometry { w: 1, ..rect },
        Geometry { x: rect.x + rect.w as i16 - 1, w: 1, ..rect },
        Geometry { h: 1, ..rect },
        Geometry { y: rect.y + rect.h as i16 - 1, h: 1, ..rect },
    ];
    assert(r@ =~= outline(rect));
    r
}

} // verus!
