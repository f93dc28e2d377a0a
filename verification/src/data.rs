//! Axis-aligned rectangles: containment, overlap, and clamped repositioning
//! inside a bounding parent.

use vstd::prelude::*;

verus! {

/// Largest coordinate magnitude the rectangle operations accept; sums of a
/// few such values still fit comfortably in an `i64`.
pub const OP_LIMIT: i64 = 0x10_0000_0000_0000;

#[derive(Clone, Copy, Debug, PartialEq, Eq, Structural)]
#[verifier::ext_equal]
pub struct Rectangle {
    pub x: i64,
    pub y: i64,
    pub w: i64,
    pub h: i64,
}

/// Clamp `v` into the closed interval `[lo, hi]` (meaningful when `lo <= hi`).
pub open spec fn clamp_i64(v: i64, lo: i64, hi: i64) -> i64 {
    if v < lo {
        lo
    } else if v > hi {
        hi
    } else {
        v
    }
}

impl Rectangle {
    /// All four fields are small enough that the operations below can add and
    /// subtract them without overflowing an `i64`.
    pub open spec fn ops_safe(self) -> bool {
        &&& -OP_LIMIT <= self.x <= OP_LIMIT
        &&& -OP_LIMIT <= self.y <= OP_LIMIT
        &&& -OP_LIMIT <= self.w <= OP_LIMIT
        &&& -OP_LIMIT <= self.h <= OP_LIMIT
    }

    /// A rectangle with non-negative extent.
    pub open spec fn well_formed(self) -> bool {
        self.w >= 0 && self.h >= 0 && self.ops_safe()
    }

    /// `other` lies fully inside `self`, boundary contact included.
    pub open spec fn contains_spec(self, other: Rectangle) -> bool {
        &&& self.x <= other.x
        &&& other.x + other.w <= self.x + self.w
        &&& self.y <= other.y
        &&& other.y + other.h <= self.y + self.h
    }

    /// `self` and `other` share at least one point, boundary contact included.
    pub open spec fn overlaps_spec(self, other: Rectangle) -> bool {
        &&& self.x <= other.x + other.w
        &&& other.x <= self.x + self.w
        &&& self.y <= other.y + other.h
        &&& other.y <= self.y + self.h
    }

    /// The repositioning of `self` inside `parent`: `None` when `self` is too
    /// large in either axis, otherwise the same extent with each origin
    /// coordinate clamped so the rectangle lies fully inside `parent`.
    pub open spec fn move_inside_spec(self, parent: Rectangle) -> Option<Rectangle> {
        if self.w > parent.w || self.h > parent.h {
            None
        } else {
            Some(
                Rectangle {
                    x: clamp_i64(self.x, parent.x, (parent.x + parent.w - self.w) as i64),
                    y: clamp_i64(self.y, parent.y, (parent.y + parent.h - self.h) as i64),
                    w: self.w,
                    h: self.h,
                },
            )
        }
    }

    /// Is `other` fully inside `self`?
    pub fn contains(&self, other: Rectangle) -> (r: bool)
        requires
            self.ops_safe(),
            other.ops_safe(),
            other.w >= 0,
            other.h >= 0,
        ensures
            r == self.contains_spec(other),
    {
        let xmin = other.x;
        let xmax = xmin + other.w;
        let ymin = other.y;
        let ymax = ymin + other.h;

        xmin >= self.x && xmin <= self.x + self.w && xmax >= self.x && xmax <= self.x + self.w
            && ymin >= self.y && ymin <= self.y + self.h && ymax >= self.y && ymax <= self.y
            + self.h
    }

    /// Do `self` and `other` intersect?
    pub fn overlaps(&self, other: Rectangle) -> (r: bool)
        requires
            self.ops_safe(),
            other.ops_safe(),
        ensures
            r == self.overlaps_spec(other),
    {
        self.x <= other.x + other.w && other.x <= self.x + self.w && self.y <= other.y + other.h
            && other.y <= self.y + self.h
    }

    /// Reposition `self` so it lies fully inside `parent`, keeping its
    /// extent; `None` exactly when it cannot fit.
    pub fn move_inside(self, parent: Rectangle) -> (r: Option<Rectangle>)
        requires
            self.ops_safe(),
            parent.ops_safe(),
            self.w >= 0,
            self.h >= 0,
            parent.w >= 0,
            parent.h >= 0,
        ensures
            r == self.move_inside_spec(parent),
            r is None <==> (self.w > parent.w || self.h > parent.h),
            r matches Some(q) ==> q.well_formed() && parent.contains_spec(q) && q.w == self.w
                && q.h == self.h,
    {
        if self.w > parent.w || self.h > parent.h {
            return None;
        }
        Some(
            Rectangle {
                w: self.w,
                h: self.h,
                x: if self.x < parent.x {
                    parent.x
                } else if self.x + self.w >= parent.x + parent.w {
                    parent.x + parent.w - self.w
                } else {
                    self.x
                },
                y: if self.y < parent.y {
                    parent.y
                } else if self.y + self.h >= parent.y + parent.h {
                    parent.y + parent.h - self.h
                } else {
                    self.y
                },
            },
        )
    }
}

/// Containment is transitive.
pub proof fn lemma_contains_transitive(a: Rectangle, b: Rectangle, c: Rectangle)
    requires
        a.contains_spec(b),
        b.contains_spec(c),
    ensures
        a.contains_spec(c),
{
}

/// Repositioning inside a parent is idempotent: once a rectangle that fits
/// has been moved inside, moving the result inside again changes nothing.
pub proof fn lemma_move_inside_idempotent(r: Rectangle, parent: Rectangle)
    requires
        r.ops_safe(),
        parent.ops_safe(),
        r.w <= parent.w,
        r.h <= parent.h,
        r.w >= 0,
        r.h >= 0,
    ensures
        r.move_inside_spec(parent) matches Some(r1) && r1.move_inside_spec(parent) == Some(r1),
{
}

} // verus!
