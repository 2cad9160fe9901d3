//! Axis-aligned rectangle geometry: containment, overlap, clamped
//! repositioning and the signed penetration-depth computation that the
//! physics step uses to resolve tile collisions.

use vstd::prelude::*;

verus! {

/// Bound on rectangle coordinates and extents. Keeping every rectangle
/// within this limit keeps all intermediate geometry arithmetic (doubled
/// centers, edge sums) comfortably inside `i64`.
pub const WORLD_LIMIT: i64 = 1_000_000_000_000_000;

/// Mathematical model of an axis-aligned rectangle: top-left corner and
/// nonnegative extents, over unbounded integers.
pub struct RectModel {
    pub x: int,
    pub y: int,
    pub w: int,
    pub h: int,
}

impl RectModel {
    /// Both extents are nonnegative.
    pub open spec fn well_formed(self) -> bool {
        0 <= self.w && 0 <= self.h
    }

    /// Coordinates and extents lie within the world limit.
    pub open spec fn bounded(self) -> bool {
        &&& -WORLD_LIMIT <= self.x <= WORLD_LIMIT
        &&& -WORLD_LIMIT <= self.y <= WORLD_LIMIT
        &&& self.w <= WORLD_LIMIT
        &&& self.h <= WORLD_LIMIT
    }

    pub open spec fn valid(self) -> bool {
        self.well_formed() && self.bounded()
    }

    pub open spec fn right(self) -> int {
        self.x + self.w
    }

    pub open spec fn bottom(self) -> int {
        self.y + self.h
    }

    /// Twice the center's x coordinate, kept doubled so it stays an integer.
    pub open spec fn center2_x(self) -> int {
        2 * self.x + self.w
    }

    /// Twice the center's y coordinate.
    pub open spec fn center2_y(self) -> int {
        2 * self.y + self.h
    }

    /// All four edges of `inner` lie within `self`, inclusively.
    pub open spec fn contains_rect(self, inner: RectModel) -> bool {
        &&& self.x <= inner.x
        &&& inner.right() <= self.right()
        &&& self.y <= inner.y
        &&& inner.bottom() <= self.bottom()
    }

    /// Strict overlap: rectangles that merely touch along an edge, and
    /// zero-extent rectangles, do not overlap.
    pub open spec fn overlaps(self, other: RectModel) -> bool {
        &&& self.x < other.right()
        &&& other.x < self.right()
        &&& self.y < other.bottom()
        &&& other.y < self.bottom()
    }

    /// Signed push-out distance along x: how far `self` must move along x
    /// to just clear `other`. Defined by the center-distance method: with
    /// `dis = center(self) - center(other)` and `min = (self.w + other.w) / 2`
    /// this is `min - dis` when `dis > 0` and `-min - dis` otherwise, which
    /// simplifies to the exact edge differences below (the doubled centers
    /// compare exactly as the centers do).
    pub open spec fn depth_x(self, other: RectModel) -> int {
        if self.center2_x() > other.center2_x() {
            other.right() - self.x
        } else {
            other.x - self.right()
        }
    }

    /// Signed push-out distance along y; see `depth_x`.
    pub open spec fn depth_y(self, other: RectModel) -> int {
        if self.center2_y() > other.center2_y() {
            other.bottom() - self.y
        } else {
            other.y - self.bottom()
        }
    }
}

/// Overlap is symmetric, and wherever the centers differ along an axis the
/// two penetration depths along that axis are opposite in sign and equal in
/// magnitude. (When the centers coincide along an axis both depths point the
/// same way, so that axis is excluded here.)
pub proof fn lemma_depth_antisymmetric(a: RectModel, b: RectModel)
    requires
        a.well_formed(),
        b.well_formed(),
    ensures
        a.overlaps(b) == b.overlaps(a),
        a.center2_x() != b.center2_x() ==> a.depth_x(b) == -b.depth_x(a),
        a.center2_y() != b.center2_y() ==> a.depth_y(b) == -b.depth_y(a),
{
}

/// The push-out depths, applied to `self`, produce a rectangle that just
/// clears `other` along the chosen axis: moving `self` by `depth_x` makes
/// the boxes touch edge to edge along x, and likewise along y.
pub proof fn lemma_depth_separates(a: RectModel, b: RectModel)
    requires
        a.well_formed(),
        b.well_formed(),
        a.overlaps(b),
    ensures
        a.center2_x() > b.center2_x() ==> a.x + a.depth_x(b) == b.right(),
        a.center2_x() <= b.center2_x() ==> a.x + a.depth_x(b) + a.w == b.x,
        a.center2_y() > b.center2_y() ==> a.y + a.depth_y(b) == b.bottom(),
        a.center2_y() <= b.center2_y() ==> a.y + a.depth_y(b) + a.h == b.y,
{
}

/// An axis-aligned bounding box in world-space units. Extents are kept
/// nonnegative; every transformation returns a new value.
#[derive(Clone, Copy, Debug, PartialEq, Eq, Structural)]
pub struct Rectangle {
    pub x: i64,
    pub y: i64,
    pub w: i64,
    pub h: i64,
}

impl View for Rectangle {
    type V = RectModel;

    open spec fn view(&self) -> RectModel {
        RectModel { x: self.x as int, y: self.y as int, w: self.w as int, h: self.h as int }
    }
}

impl Rectangle {
    /// A rectangle of the given size with its top-left corner at the origin.
    pub fn with_size(w: i64, h: i64) -> (r: Rectangle)
        requires
            0 <= w <= WORLD_LIMIT,
            0 <= h <= WORLD_LIMIT,
        ensures
            r@ == (RectModel { x: 0, y: 0, w: w as int, h: h as int }),
            r@.valid(),
    {
        Rectangle { w, h, x: 0, y: 0 }
    }

    /// The same rectangle repositioned so that its center lies at the given
    /// point (extents truncate odd halves downward).
    pub fn center_at(self, cx: i64, cy: i64) -> (r: Rectangle)
        requires
            self@.valid(),
            -WORLD_LIMIT <= cx <= WORLD_LIMIT,
            -WORLD_LIMIT <= cy <= WORLD_LIMIT,
        ensures
            r@ == (RectModel {
                x: cx - self@.w / 2,
                y: cy - self@.h / 2,
                w: self@.w,
                h: self@.h,
            }),
    {
        Rectangle { x: cx - self.w / 2, y: cy - self.h / 2, ..self }
    }

    /// The rectangle's center point (odd extents truncate downward).
    pub fn center(self) -> (c: (i64, i64))
        requires
            self@.valid(),
        ensures
            c.0 == self@.x + self@.w / 2,
            c.1 == self@.y + self@.h / 2,
    {
        (self.x + self.w / 2, self.y + self.h / 2)
    }

    /// True iff all four edges of `rect` lie within `self`, inclusively.
    pub fn contains(&self, rect: Rectangle) -> (r: bool)
        requires
            self@.valid(),
            rect@.valid(),
        ensures
            r == self@.contains_rect(rect@),
    {
        let xmin = rect.x;
        let xmax = xmin + rect.w;
        let ymin = rect.y;
        let ymax = ymin + rect.h;

        xmin >= self.x && xmin <= self.x + self.w && xmax >= self.x && xmax <= self.x + self.w
            && ymin >= self.y && ymin <= self.y + self.h && ymax >= self.y
            && ymax <= self.y + self.h
    }

    /// Standard AABB overlap test; strict, so a zero-width contact does not
    /// count as overlapping.
    pub fn overlaps(&self, other: Rectangle) -> (r: bool)
        requires
            self@.valid(),
            other@.valid(),
        ensures
            r == self@.overlaps(other@),
    {
        self.x < other.x + other.w && self.x + self.w > other.x && self.y < other.y + other.h
            && self.y + self.h > other.y
    }

    /// Clamps `self`'s position so it lies fully inside `parent`, preserving
    /// its size; fails iff `self` is larger than `parent` along either axis.
    /// A position is adjusted only on the axis that violates the bounds.
    pub fn move_inside(self, parent: Rectangle) -> (r: Option<Rectangle>)
        requires
            self@.valid(),
            parent@.valid(),
        ensures
            r.is_some() <==> self@.w <= parent@.w && self@.h <= parent@.h,
            r matches Some(inside) ==> inside@ == (RectModel {
                w: self@.w,
                h: self@.h,
                x: if self@.x < parent@.x {
                    parent@.x
                } else if self@.x + self@.w >= parent@.x + parent@.w {
                    parent@.x + parent@.w - self@.w
                } else {
                    self@.x
                },
                y: if self@.y < parent@.y {
                    parent@.y
                } else if self@.y + self@.h >= parent@.y + parent@.h {
                    parent@.y + parent@.h - self@.h
                } else {
                    self@.y
                },
            }),
            r matches Some(inside) ==> parent@.contains_rect(inside@) && inside@.valid(),
    {
        if self.w > parent.w || self.h > parent.h {
            return None;
        }

        Some(
            Rectangle {
                w: self.w,
                h: self.h,
                x: if self.x < parent.x {
                    parent.x
                } else if self.x + self.w >= parent.x + parent.w {
                    parent.x + parent.w - self.w
                } else {
                    self.x
                },
                y: if self.y < parent.y {
                    parent.y
                } else if self.y + self.h >= parent.y + parent.h {
                    parent.y + parent.h - self.h
                } else {
                    self.y
                },
            },
        )
    }

    /// Signed depth of intersection between two rectangles: the signed
    /// amount by which `self` overlaps `other` along each axis, i.e. how far
    /// and in which direction `self` must move to just clear `other`. Yields
    /// nothing iff the rectangles do not strictly overlap.
    pub fn intersection_depth(&self, other: &Rectangle) -> (r: Option<(i64, i64)>)
        requires
            self@.valid(),
            other@.valid(),
        ensures
            r.is_some() == self@.overlaps(other@),
            r matches Some(depth) ==> depth.0 == self@.depth_x(other@) && depth.1
                == self@.depth_y(other@),
    {
        // distance between the doubled centers
        let dis_x: i64 = (2 * self.x + self.w) - (2 * other.x + other.w);
        let dis_y: i64 = (2 * self.y + self.h) - (2 * other.y + other.h);

        // doubled minimum non-intersecting distance
        let min_x: i64 = self.w + other.w;
        let min_y: i64 = self.h + other.h;

        let abs_dis_x: i64 = if dis_x >= 0 { dis_x } else { -dis_x };
        let abs_dis_y: i64 = if dis_y >= 0 { dis_y } else { -dis_y };

        if abs_dis_x >= min_x || abs_dis_y >= min_y {
            None
        } else {
            Some(
                (
                    if dis_x > 0 { other.x + other.w - self.x } else { other.x - (self.x + self.w) },
                    if dis_y > 0 { other.y + other.h - self.y } else { other.y - (self.y + self.h) },
                ),
            )
        }
    }
}

/// A value paired with a liveness flag.
pub struct MaybeAlive<T> {
    pub alive: bool,
    pub value: T,
}

impl<T> MaybeAlive<T> {
    /// The value if it is still alive, and nothing otherwise.
    pub fn as_option(self) -> (r: Option<T>)
        ensures
            self.alive ==> r == Some(self.value),
            !self.alive ==> r is None,
    {
        if self.alive {
            Some(self.value)
        } else {
            None
        }
    }
}

} // verus!
