//! Integer points, sizes and rectangles.
//!
//! A rectangle stands for the set of pixels `(x, y)` with `loc.x <= x < loc.x + size.w`
//! and `loc.y <= y < loc.y + size.h`; the contracts speak of that set.

use vstd::prelude::*;

verus! {

/// A position in a plane of pixels.
#[derive(Clone, Copy, Debug, PartialEq, Eq, Structural)]
pub struct Point {
    pub x: i32,
    pub y: i32,
}

/// An extent in a plane of pixels.
#[derive(Clone, Copy, Debug, PartialEq, Eq, Structural)]
pub struct Size {
    pub w: i32,
    pub h: i32,
}

/// A rectangle given by its top left corner and its extent.
#[derive(Clone, Copy, Debug, PartialEq, Eq, Structural)]
pub struct Rectangle {
    pub loc: Point,
    pub size: Size,
}

/// The smaller of two integers.
pub open spec fn min_int(a: int, b: int) -> int {
    if a <= b {
        a
    } else {
        b
    }
}

/// The larger of two integers.
pub open spec fn max_int(a: int, b: int) -> int {
    if a >= b {
        a
    } else {
        b
    }
}

/// `v` moved into `lo..=hi`.
pub open spec fn clamp_int(v: int, lo: int, hi: int) -> int {
    if v < lo {
        lo
    } else if v > hi {
        hi
    } else {
        v
    }
}

/// Whether `v` is an `i32`.
pub open spec fn fits_i32(v: int) -> bool {
    i32::MIN <= v <= i32::MAX
}

/// The rectangle with the given corner and extent.
pub open spec fn rect(x: int, y: int, w: int, h: int) -> Rectangle {
    Rectangle { loc: Point { x: x as i32, y: y as i32 }, size: Size { w: w as i32, h: h as i32 } }
}

pub fn min_i32(a: i32, b: i32) -> (r: i32)
    ensures
        r == min_int(a as int, b as int),
{
    if a <= b {
        a
    } else {
        b
    }
}

pub fn max_i32(a: i32, b: i32) -> (r: i32)
    ensures
        r == max_int(a as int, b as int),
{
    if a >= b {
        a
    } else {
        b
    }
}

/// `v` limited to `lo..=hi`.
pub fn clamp_i32(v: i32, lo: i32, hi: i32) -> (r: i32)
    requires
        lo <= hi,
    ensures
        r == clamp_int(v as int, lo as int, hi as int),
{
    if v < lo {
        lo
    } else if v > hi {
        hi
    } else {
        v
    }
}

impl Point {
    pub fn new(x: i32, y: i32) -> (r: Point)
        ensures
            r.x == x,
            r.y == y,
    {
        Point { x, y }
    }

    /// Whether both coordinates of the sum are `i32`s.
    pub open spec fn sum_fits(self, other: Point) -> bool {
        fits_i32(self.x + other.x) && fits_i32(self.y + other.y)
    }

    pub open spec fn spec_constrain(self, area: Rectangle) -> Point {
        Point {
            x: clamp_int(self.x as int, area.loc.x as int, area.right()) as i32,
            y: clamp_int(self.y as int, area.loc.y as int, area.bottom()) as i32,
        }
    }

    /// The closest point of `area`, its right and lower edge counted in.
    pub fn constrain(self, area: Rectangle) -> (r: Point)
        requires
            area.valid(),
        ensures
            r == self.spec_constrain(area),
            area.loc.x <= r.x <= area.right(),
            area.loc.y <= r.y <= area.bottom(),
    {
        Point {
            x: clamp_i32(self.x, area.loc.x, area.loc.x + area.size.w),
            y: clamp_i32(self.y, area.loc.y, area.loc.y + area.size.h),
        }
    }
}

impl Size {
    pub fn new(w: i32, h: i32) -> (r: Size)
        ensures
            r.w == w,
            r.h == h,
    {
        Size { w, h }
    }

    pub open spec fn spec_is_empty(self) -> bool {
        self.w == 0 || self.h == 0
    }

    pub open spec fn valid(self) -> bool {
        self.w >= 0 && self.h >= 0
    }

    /// Whether the extent holds no pixel.
    pub fn is_empty(self) -> (r: bool)
        ensures
            r == self.spec_is_empty(),
    {
        self.w == 0 || self.h == 0
    }

    pub open spec fn spec_clamp(self, min: Size, max: Size) -> Size {
        Size {
            w: clamp_int(self.w as int, min.w as int, max.w as int) as i32,
            h: clamp_int(self.h as int, min.h as int, max.h as int) as i32,
        }
    }

    /// Each side limited to the range between the two given extents.
    pub fn clamp(self, min: Size, max: Size) -> (r: Size)
        requires
            min.w <= max.w,
            min.h <= max.h,
        ensures
            r == self.spec_clamp(min, max),
    {
        Size { w: clamp_i32(self.w, min.w, max.w), h: clamp_i32(self.h, min.h, max.h) }
    }
}

impl Rectangle {
    /// The first column to the right of the rectangle.
    pub open spec fn right(self) -> int {
        self.loc.x + self.size.w
    }

    /// The first row below the rectangle.
    pub open spec fn bottom(self) -> int {
        self.loc.y + self.size.h
    }

    /// The extent is not negative, and the far corner is a point.
    pub open spec fn valid(self) -> bool {
        &&& self.size.w >= 0
        &&& self.size.h >= 0
        &&& self.right() <= i32::MAX
        &&& self.bottom() <= i32::MAX
    }

    /// Whether the pixel `(x, y)` belongs to the rectangle.
    pub open spec fn has(self, x: int, y: int) -> bool {
        &&& self.loc.x <= x < self.right()
        &&& self.loc.y <= y < self.bottom()
    }

    pub open spec fn spec_is_empty(self) -> bool {
        self.size.spec_is_empty()
    }

    pub open spec fn spec_overlaps(self, other: Rectangle) -> bool {
        &&& self.loc.x < other.right()
        &&& other.loc.x < self.right()
        &&& self.loc.y < other.bottom()
        &&& other.loc.y < self.bottom()
    }

    pub open spec fn spec_overlaps_or_touches(self, other: Rectangle) -> bool {
        &&& self.loc.x <= other.right()
        &&& other.loc.x <= self.right()
        &&& self.loc.y <= other.bottom()
        &&& other.loc.y <= self.bottom()
    }

    pub open spec fn spec_contains_rect(self, other: Rectangle) -> bool {
        &&& self.loc.x <= other.loc.x
        &&& self.loc.y <= other.loc.y
        &&& other.right() <= self.right()
        &&& other.bottom() <= self.bottom()
    }

    /// The common part of two overlapping rectangles.
    pub open spec fn common(self, other: Rectangle) -> Rectangle {
        let x = max_int(self.loc.x as int, other.loc.x as int);
        let y = max_int(self.loc.y as int, other.loc.y as int);
        rect(
            x,
            y,
            min_int(self.right(), other.right()) - x,
            min_int(self.bottom(), other.bottom()) - y,
        )
    }

    pub open spec fn spec_intersection(self, other: Rectangle) -> Option<Rectangle> {
        if self.spec_overlaps(other) {
            Some(self.common(other))
        } else {
            None
        }
    }

    pub open spec fn spec_merge(self, other: Rectangle) -> Rectangle {
        let x = min_int(self.loc.x as int, other.loc.x as int);
        let y = min_int(self.loc.y as int, other.loc.y as int);
        rect(
            x,
            y,
            max_int(self.right(), other.right()) - x,
            max_int(self.bottom(), other.bottom()) - y,
        )
    }

    /// Whether the extent of the bounding box of both rectangles can be written down.
    pub open spec fn mergeable(self, other: Rectangle) -> bool {
        &&& max_int(self.right(), other.right()) - min_int(self.loc.x as int, other.loc.x as int)
            <= i32::MAX
        &&& max_int(self.bottom(), other.bottom()) - min_int(self.loc.y as int, other.loc.y as int)
            <= i32::MAX
    }

    pub open spec fn spec_moved(self, by: Point) -> Rectangle {
        Rectangle {
            loc: Point { x: (self.loc.x + by.x) as i32, y: (self.loc.y + by.y) as i32 },
            size: self.size,
        }
    }

    pub open spec fn spec_relative_to(self, origin: Point) -> Rectangle {
        Rectangle {
            loc: Point { x: (self.loc.x - origin.x) as i32, y: (self.loc.y - origin.y) as i32 },
            size: self.size,
        }
    }

    /// Whether the rectangle can be moved by `by` and stays valid.
    pub open spec fn movable(self, by: Point) -> bool {
        &&& self.size.w >= 0
        &&& self.size.h >= 0
        &&& i32::MIN <= self.loc.x + by.x
        &&& self.right() + by.x <= i32::MAX
        &&& i32::MIN <= self.loc.y + by.y
        &&& self.bottom() + by.y <= i32::MAX
    }

    pub fn new(loc: Point, size: Size) -> (r: Rectangle)
        ensures
            r.loc == loc,
            r.size == size,
    {
        Rectangle { loc, size }
    }

    /// The rectangle of the given extent at the origin.
    pub fn from_size(size: Size) -> (r: Rectangle)
        ensures
            r == rect(0, 0, size.w as int, size.h as int),
            size.valid() ==> r.valid(),
    {
        Rectangle { loc: Point { x: 0, y: 0 }, size }
    }

    /// The rectangle between two corners.
    pub fn from_extremities(topleft: Point, bottomright: Point) -> (r: Rectangle)
        requires
            topleft.x <= bottomright.x,
            topleft.y <= bottomright.y,
            bottomright.x - topleft.x <= i32::MAX,
            bottomright.y - topleft.y <= i32::MAX,
        ensures
            r.loc == topleft,
            r.right() == bottomright.x,
            r.bottom() == bottomright.y,
            r.valid(),
    {
        Rectangle {
            loc: topleft,
            size: Size { w: bottomright.x - topleft.x, h: bottomright.y - topleft.y },
        }
    }

    /// Whether the rectangle holds no pixel.
    pub fn is_empty(self) -> (r: bool)
        ensures
            r == self.spec_is_empty(),
    {
        self.size.is_empty()
    }

    /// Whether every edge of `other` lies within this rectangle.
    pub fn contains_rect(self, other: Rectangle) -> (r: bool)
        requires
            self.valid(),
            other.valid(),
        ensures
            r == self.spec_contains_rect(other),
    {
        self.loc.x <= other.loc.x && self.loc.y <= other.loc.y && other.loc.x + other.size.w
            <= self.loc.x + self.size.w && other.loc.y + other.size.h <= self.loc.y + self.size.h
    }

    /// Whether two rectangles share more than an edge.
    pub fn overlaps(self, other: Rectangle) -> (r: bool)
        requires
            self.valid(),
            other.valid(),
        ensures
            r == self.spec_overlaps(other),
    {
        self.loc.x < other.loc.x + other.size.w && other.loc.x < self.loc.x + self.size.w
            && self.loc.y < other.loc.y + other.size.h && other.loc.y < self.loc.y + self.size.h
    }

    /// Whether two rectangles overlap or share an edge.
    pub fn overlaps_or_touches(self, other: Rectangle) -> (r: bool)
        requires
            self.valid(),
            other.valid(),
        ensures
            r == self.spec_overlaps_or_touches(other),
    {
        self.loc.x <= other.loc.x + other.size.w && other.loc.x <= self.loc.x + self.size.w
            && self.loc.y <= other.loc.y + other.size.h && other.loc.y <= self.loc.y + self.size.h
    }

    /// The common part of two rectangles, if they overlap.
    pub fn intersection(self, other: Rectangle) -> (r: Option<Rectangle>)
        requires
            self.valid(),
            other.valid(),
        ensures
            r == self.spec_intersection(other),
            r matches Some(c) ==> c.valid(),
    {
        if !self.overlaps(other) {
            return None;
        }
        let x: i32 = max_i32(self.loc.x, other.loc.x);
        let y: i32 = max_i32(self.loc.y, other.loc.y);
        let right: i32 = min_i32(self.loc.x + self.size.w, other.loc.x + other.size.w);
        let bottom: i32 = min_i32(self.loc.y + self.size.h, other.loc.y + other.size.h);
        Some(Rectangle::from_extremities(Point { x, y }, Point { x: right, y: bottom }))
    }

    /// The bounding box of two rectangles.
    pub fn merge(self, other: Rectangle) -> (r: Rectangle)
        requires
            self.valid(),
            other.valid(),
            self.mergeable(other),
        ensures
            r == self.spec_merge(other),
            r.valid(),
    {
        let x: i32 = min_i32(self.loc.x, other.loc.x);
        let y: i32 = min_i32(self.loc.y, other.loc.y);
        let right: i32 = max_i32(self.loc.x + self.size.w, other.loc.x + other.size.w);
        let bottom: i32 = max_i32(self.loc.y + self.size.h, other.loc.y + other.size.h);
        Rectangle::from_extremities(Point { x, y }, Point { x: right, y: bottom })
    }

    /// The rectangle with its corner moved by `by`.
    pub fn moved(self, by: Point) -> (r: Rectangle)
        requires
            self.movable(by),
        ensures
            r == self.spec_moved(by),
            r.valid(),
    {
        Rectangle { loc: Point { x: self.loc.x + by.x, y: self.loc.y + by.y }, size: self.size }
    }

    /// The rectangle as seen from `origin`.
    pub fn relative_to(self, origin: Point) -> (r: Rectangle)
        requires
            fits_i32(self.loc.x - origin.x),
            fits_i32(self.loc.y - origin.y),
        ensures
            r == self.spec_relative_to(origin),
    {
        Rectangle {
            loc: Point { x: self.loc.x - origin.x, y: self.loc.y - origin.y },
            size: self.size,
        }
    }
}

/// Two rectangles share a pixel exactly when both hold pixels and they overlap.
pub proof fn overlap_is_shared_pixel(a: Rectangle, b: Rectangle)
    requires
        a.valid(),
        b.valid(),
    ensures
        (a.spec_overlaps(b) && !a.spec_is_empty() && !b.spec_is_empty()) <==> (exists|x: int, y: int|
            a.has(x, y) && b.has(x, y)),
{
    if a.spec_overlaps(b) && !a.spec_is_empty() && !b.spec_is_empty() {
        let x = max_int(a.loc.x as int, b.loc.x as int);
        let y = max_int(a.loc.y as int, b.loc.y as int);
        assert(a.has(x, y) && b.has(x, y));
    }
}

/// The intersection holds exactly the pixels that both rectangles hold.
pub proof fn intersection_is_shared_pixels(a: Rectangle, b: Rectangle, x: int, y: int)
    requires
        a.valid(),
        b.valid(),
    ensures
        (a.has(x, y) && b.has(x, y)) <==> (a.spec_intersection(b) matches Some(c) && c.has(x, y)),
{
}

/// Intersecting in either order gives the same rectangle.
pub proof fn intersection_commutes(a: Rectangle, b: Rectangle)
    requires
        a.valid(),
        b.valid(),
    ensures
        a.spec_intersection(b) == b.spec_intersection(a),
{
}

/// The bounding box contains both rectangles and lies within every rectangle that does.
pub proof fn merge_is_least_upper_bound(a: Rectangle, b: Rectangle, c: Rectangle)
    requires
        a.valid(),
        b.valid(),
        a.mergeable(b),
    ensures
        a.spec_merge(b).spec_contains_rect(a),
        a.spec_merge(b).spec_contains_rect(b),
        c.spec_contains_rect(a) && c.spec_contains_rect(b) ==> c.spec_contains_rect(
            a.spec_merge(b),
        ),
{
}

/// A rectangle moved by a point and seen from that point is the rectangle again.
pub proof fn moved_and_back(r: Rectangle, by: Point)
    requires
        r.movable(by),
    ensures
        r.spec_moved(by).spec_relative_to(by) == r,
{
}

/// A point that is constrained to an area is the closest one of the area, its far edges counted in:
/// no point of the area is nearer in either direction.
pub proof fn constrained_point_is_closest(p: Point, area: Rectangle, x: int, y: int)
    requires
        area.valid(),
        area.loc.x <= x <= area.right(),
        area.loc.y <= y <= area.bottom(),
    ensures
        ({
            let q = p.spec_constrain(area);
            let far = |a: int, b: int| if a <= b {
                b - a
            } else {
                a - b
            };
            &&& area.loc.x <= q.x <= area.right() && area.loc.y <= q.y <= area.bottom()
            &&& far(p.x as int, q.x as int) <= far(p.x as int, x)
            &&& far(p.y as int, q.y as int) <= far(p.y as int, y)
        }),
{
}

/// A clamped extent lies between the two limits, and one that lies between them is kept.
pub proof fn clamped_extent_is_within(size: Size, min: Size, max: Size)
    requires
        min.w <= max.w,
        min.h <= max.h,
    ensures
        ({
            let r = size.spec_clamp(min, max);
            &&& min.w <= r.w <= max.w && min.h <= r.h <= max.h
            &&& min.w <= size.w <= max.w ==> r.w == size.w
            &&& min.h <= size.h <= max.h ==> r.h == size.h
            &&& size.w < min.w ==> r.w == min.w
            &&& size.w > max.w ==> r.w == max.w
            &&& size.h < min.h ==> r.h == min.h
            &&& size.h > max.h ==> r.h == max.h
        }),
{
}

/// Moving a rectangle moves its pixels, and seeing it from an origin moves them back by it.
pub proof fn moved_rectangle_moves_its_pixels(r: Rectangle, by: Point, x: int, y: int)
    requires
        r.movable(by),
    ensures
        r.spec_moved(by).has(x + by.x, y + by.y) <==> r.has(x, y),
        r.spec_moved(by).spec_relative_to(by) == r,
{
}

/// A rectangle lies in another exactly if all of its pixels do, as long as it has any.
pub proof fn contained_rectangle_shares_all_pixels(a: Rectangle, b: Rectangle)
    requires
        a.valid(),
        b.valid(),
        !b.spec_is_empty(),
    ensures
        a.spec_contains_rect(b) <==> forall|x: int, y: int| #[trigger] b.has(x, y) ==> a.has(x, y),
{
    if forall|x: int, y: int| #[trigger] b.has(x, y) ==> a.has(x, y) {
        assert(b.has(b.loc.x as int, b.loc.y as int));
        assert(b.has(b.right() - 1, b.bottom() - 1));
    }
}

} // verus!
