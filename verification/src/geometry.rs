//! Rectangles in pixel coordinates.

use vstd::prelude::*;
use crate::collision::{overlap_area_area, spec_overlap};

verus! {

/// An axis aligned rectangle in pixel coordinates.
#[derive(Clone, Copy, Debug, PartialEq, Eq, Structural)]
pub struct Geometry {
    pub x: i16,
    pub y: i16,
    pub w: u16,
    pub h: u16,
}

impl Geometry {
    /// The two rectangles share at least one pixel.
    pub open spec fn spec_overlaps(self, other: Geometry) -> bool {
        spec_overlap(
            self.x as int, self.y as int, self.w as int, self.h as int,
            other.x as int, other.y as int, other.w as int, other.h as int,
        )
    }

    /// The two rectangles share a pixel or lie edge to edge.
    pub open spec fn spec_touches(self, other: Geometry) -> bool {
        &&& self.x + self.w >= other.x
        &&& other.x + other.w >= self.x
        &&& self.y + self.h >= other.y
        &&& other.y + other.h >= self.y
    }

    /// The two rectangles share a row of pixels.
    pub open spec fn spec_overlaps_vertically(self, other: Geometry) -> bool {
        self.y < other.y + other.h && other.y < self.y + self.h
    }

    /// How far `other` lies to the right of `self`: the gap between the
    /// right edge of `self` and the left edge of `other`; the gap taken
    /// negative where `other` lies to the left; zero where they share a
    /// column.
    pub open spec fn spec_horizontal_distance(self, other: Geometry) -> int {
        if other.x >= self.x + self.w {
            other.x - (self.x + self.w)
        } else if self.x >= other.x + other.w {
            -(self.x - (other.x + other.w))
        } else {
            0
        }
    }

    pub fn overlaps_vertically(&self, other: Geometry) -> (r: bool)
        ensures
            r == self.spec_overlaps_vertically(other),
    {
        (self.y as i32) < other.y as i32 + other.h as i32 && (other.y as i32) < self.y as i32 + self.h as i32
    }

    pub fn horizontal_distance(&self, other: Geometry) -> (r: i32)
        ensures
            r == self.spec_horizontal_distance(other),
    {
        let self_right = self.x as i32 + self.w as i32;
        let other_right = other.x as i32 + other.w as i32;
        if other.x as i32 >= self_right {
            other.x as i32 - self_right
        } else if self.x as i32 >= other_right {
            -(self.x as i32 - other_right)
        } else {
            0
        }
    }

    pub fn new(x: i16, y: i16, w: u16, h: u16) -> (g: Geometry)
        ensures
            g == (Geometry { x, y, w, h }),
    {
        Geometry { x, y, w, h }
    }

    pub fn set_x(&mut self, x: i16)
        ensures
            *final(self) == (Geometry { x, ..*old(self) }),
    {
        self.x = x;
    }

    pub fn set_y(&mut self, y: i16)
        ensures
            *final(self) == (Geometry { y, ..*old(self) }),
    {
        self.y = y;
    }

    pub fn set_w(&mut self, w: u16)
        ensures
            *final(self) == (Geometry { w, ..*old(self) }),
    {
        self.w = w;
    }

    pub fn set_h(&mut self, h: u16)
        ensures
            *final(self) == (Geometry { h, ..*old(self) }),
    {
        self.h = h;
    }

    pub fn set_data(&mut self, x: i16, y: i16, w: u16, h: u16)
        ensures
            *final(self) == (Geometry { x, y, w, h }),
    {
        self.x = x;
        self.y = y;
        self.w = w;
        self.h = h;
    }

    pub fn x(&self) -> (r: i16)
        ensures
            r == self.x,
    {
        self.x
    }

    pub fn y(&self) -> (r: i16)
        ensures
            r == self.y,
    {
        self.y
    }

    pub fn w(&self) -> (r: u16)
        ensures
            r == self.w,
    {
        self.w
    }

    pub fn h(&self) -> (r: u16)
        ensures
            r == self.h,
    {
        self.h
    }

    /// Moves the rectangle horizontally; the new position must fit in an `i16`.
    pub fn add_x(&mut self, x: i16)
        requires
            i16::MIN <= old(self).x + x <= i16::MAX,
        ensures
            *final(self) == (Geometry { x: (old(self).x + x) as i16, ..*old(self) }),
    {
        self.x = self.x + x;
    }

    /// Moves the rectangle vertically; the new position must fit in an `i16`.
    pub fn add_y(&mut self, y: i16)
        requires
            i16::MIN <= old(self).y + y <= i16::MAX,
        ensures
            *final(self) == (Geometry { y: (old(self).y + y) as i16, ..*old(self) }),
    {
        self.y = self.y + y;
    }

    /// Whether the two rectangles share at least one pixel.
    pub fn overlaps(&self, other: Geometry) -> (r: bool)
        ensures
            r == self.spec_overlaps(other),
    {
        overlap_area_area(
            self.x as i64, self.y as i64, self.w as i64, self.h as i64,
            other.x as i64, other.y as i64, other.w as i64, other.h as i64,
        )
    }

    /// Whether the two rectangles share a pixel or lie edge to edge.
    pub fn touches(&self, other: Geometry) -> (r: bool)
        ensures
            r == self.spec_touches(other),
    {
        (self.x as i32) + (self.w as i32) >= other.x as i32
            && (other.x as i32) + (other.w as i32) >= self.x as i32
            && (self.y as i32) + (self.h as i32) >= other.y as i32
            && (other.y as i32) + (other.h as i32) >= self.y as i32
    }
}

impl Default for Geometry {
    fn default() -> (g: Geometry)
        ensures
            g == (Geometry { x: 0, y: 0, w: 0, h: 0 }),
    {
        Geometry { x: 0, y: 0, w: 0, h: 0 }
    }
}

/// Overlapping is symmetric.
pub proof fn lemma_overlaps_symmetric(a: Geometry, b: Geometry)
    ensures
        a.spec_overlaps(b) == b.spec_overlaps(a),
{
}

/// Rectangles that share a pixel also touch.
pub proof fn lemma_overlap_implies_touch(a: Geometry, b: Geometry)
    ensures
        a.spec_overlaps(b) ==> a.spec_touches(b),
{
}

} // verus!
