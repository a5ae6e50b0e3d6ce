//! The eight ways in which contents are turned and mirrored.

use vstd::prelude::*;

use crate::utils::geometry::{Point, Rectangle, Size};
use crate::utils::geometry::{fits_i32, rect};

verus! {

/// A rotation by a multiple of 90 degrees, with or without mirroring.
#[derive(Clone, Copy, Debug, PartialEq, Eq, Structural)]
pub enum Transform {
    Normal,
    _90,
    _180,
    _270,
    Flipped,
    Flipped90,
    Flipped180,
    Flipped270,
}

impl Transform {
    pub open spec fn spec_flipped(self) -> bool {
        match self {
            Transform::Flipped
            | Transform::Flipped90
            | Transform::Flipped180
            | Transform::Flipped270 => true,
            _ => false,
        }
    }

    /// The rotation in quarter turns.
    pub open spec fn spec_quarters(self) -> int {
        match self {
            Transform::Normal | Transform::Flipped => 0,
            Transform::_90 | Transform::Flipped90 => 1,
            Transform::_180 | Transform::Flipped180 => 2,
            Transform::_270 | Transform::Flipped270 => 3,
        }
    }

    /// The transform with the given mirroring and rotation.
    pub open spec fn of_parts(flipped: bool, quarters: int) -> Transform {
        if flipped {
            if quarters == 0 {
                Transform::Flipped
            } else if quarters == 1 {
                Transform::Flipped90
            } else if quarters == 2 {
                Transform::Flipped180
            } else {
                Transform::Flipped270
            }
        } else if quarters == 0 {
            Transform::Normal
        } else if quarters == 1 {
            Transform::_90
        } else if quarters == 2 {
            Transform::_180
        } else {
            Transform::_270
        }
    }

    /// Whether the transform swaps width and height.
    pub open spec fn spec_swaps(self) -> bool {
        self.spec_quarters() % 2 == 1
    }

    pub open spec fn spec_invert(self) -> Transform {
        match self {
            Transform::_90 => Transform::_270,
            Transform::_270 => Transform::_90,
            Transform::Flipped90 => Transform::Flipped270,
            Transform::Flipped270 => Transform::Flipped90,
            other => other,
        }
    }

    pub open spec fn spec_transform_size(self, size: Size) -> Size {
        if self.spec_swaps() {
            Size { w: size.h, h: size.w }
        } else {
            size
        }
    }

    /// Where the pixel `(x, y)` of an area of the given size comes to stand.
    pub open spec fn pixel(self, x: int, y: int, area: Size) -> (int, int) {
        match self {
            Transform::Normal => (x, y),
            Transform::_90 => (area.h - 1 - y, x),
            Transform::_180 => (area.w - 1 - x, area.h - 1 - y),
            Transform::_270 => (y, area.w - 1 - x),
            Transform::Flipped => (area.w - 1 - x, y),
            Transform::Flipped90 => (y, x),
            Transform::Flipped180 => (x, area.h - 1 - y),
            Transform::Flipped270 => (area.h - 1 - y, area.w - 1 - x),
        }
    }

    /// The new corner of a rectangle in an area of the given size.
    pub open spec fn corner(self, r: Rectangle, area: Size) -> (int, int) {
        match self {
            Transform::Normal => (r.loc.x as int, r.loc.y as int),
            Transform::_90 => (area.h - r.bottom(), r.loc.x as int),
            Transform::_180 => (area.w - r.right(), area.h - r.bottom()),
            Transform::_270 => (r.loc.y as int, area.w - r.right()),
            Transform::Flipped => (area.w - r.right(), r.loc.y as int),
            Transform::Flipped90 => (r.loc.y as int, r.loc.x as int),
            Transform::Flipped180 => (r.loc.x as int, area.h - r.bottom()),
            Transform::Flipped270 => (area.h - r.bottom(), area.w - r.right()),
        }
    }

    pub open spec fn spec_transform_rect_in(self, r: Rectangle, area: Size) -> Rectangle {
        let size = self.spec_transform_size(r.size);
        rect(self.corner(r, area).0, self.corner(r, area).1, size.w as int, size.h as int)
    }

    /// Whether both corners of the transformed rectangle are points.
    pub open spec fn can_transform(self, r: Rectangle, area: Size) -> bool {
        let size = self.spec_transform_size(r.size);
        &&& r.valid()
        &&& area.valid()
        &&& fits_i32(self.corner(r, area).0)
        &&& fits_i32(self.corner(r, area).1)
        &&& fits_i32(self.corner(r, area).0 + size.w)
        &&& fits_i32(self.corner(r, area).1 + size.h)
    }

    /// Whether the transform mirrors.
    pub fn flipped(self) -> (r: bool)
        ensures
            r == self.spec_flipped(),
    {
        match self {
            Transform::Flipped
            | Transform::Flipped90
            | Transform::Flipped180
            | Transform::Flipped270 => true,
            _ => false,
        }
    }

    /// The rotation in quarter turns.
    pub fn quarters(self) -> (r: u8)
        ensures
            r == self.spec_quarters(),
    {
        match self {
            Transform::Normal | Transform::Flipped => 0,
            Transform::_90 | Transform::Flipped90 => 1,
            Transform::_180 | Transform::Flipped180 => 2,
            Transform::_270 | Transform::Flipped270 => 3,
        }
    }

    /// The transform with the given mirroring and rotation.
    pub fn from_parts(flipped: bool, quarters: u8) -> (r: Transform)
        requires
            quarters < 4,
        ensures
            r == Transform::of_parts(flipped, quarters as int),
            r.spec_flipped() == flipped,
            r.spec_quarters() == quarters,
    {
        if flipped {
            if quarters == 0 {
                Transform::Flipped
            } else if quarters == 1 {
                Transform::Flipped90
            } else if quarters == 2 {
                Transform::Flipped180
            } else {
                Transform::Flipped270
            }
        } else if quarters == 0 {
            Transform::Normal
        } else if quarters == 1 {
            Transform::_90
        } else if quarters == 2 {
            Transform::_180
        } else {
            Transform::_270
        }
    }

    /// The transform with its rotation in the other direction.
    pub fn invert(self) -> (r: Transform)
        ensures
            r == self.spec_invert(),
    {
        match self {
            Transform::Normal => Transform::Normal,
            Transform::_90 => Transform::_270,
            Transform::_180 => Transform::_180,
            Transform::_270 => Transform::_90,
            Transform::Flipped => Transform::Flipped,
            Transform::Flipped90 => Transform::Flipped270,
            Transform::Flipped180 => Transform::Flipped180,
            Transform::Flipped270 => Transform::Flipped90,
        }
    }

    /// The extent after the transform.
    pub fn transform_size(self, size: Size) -> (r: Size)
        ensures
            r == self.spec_transform_size(size),
    {
        match self {
            Transform::_90
            | Transform::_270
            | Transform::Flipped90
            | Transform::Flipped270 => Size { w: size.h, h: size.w },
            _ => size,
        }
    }

    /// A rectangle of an area of the given size after the transform.
    pub fn transform_rect_in(self, r: Rectangle, area: Size) -> (out: Rectangle)
        requires
            self.can_transform(r, area),
        ensures
            out == self.spec_transform_rect_in(r, area),
            out.valid(),
    {
        let size = self.transform_size(r.size);
        let right: i32 = r.loc.x + r.size.w;
        let bottom: i32 = r.loc.y + r.size.h;
        let loc = match self {
            Transform::Normal => r.loc,
            Transform::_90 => Point { x: area.h - bottom, y: r.loc.x },
            Transform::_180 => Point { x: area.w - right, y: area.h - bottom },
            Transform::_270 => Point { x: r.loc.y, y: area.w - right },
            Transform::Flipped => Point { x: area.w - right, y: r.loc.y },
            Transform::Flipped90 => Point { x: r.loc.y, y: r.loc.x },
            Transform::Flipped180 => Point { x: r.loc.x, y: area.h - bottom },
            Transform::Flipped270 => Point { x: area.h - bottom, y: area.w - right },
        };
        Rectangle { loc, size }
    }
}

/// Mirroring and rotation determine the transform.
pub proof fn parts_determine_transform(a: Transform, b: Transform)
    ensures
        a.spec_flipped() == b.spec_flipped() && a.spec_quarters() == b.spec_quarters() <==> a == b,
{
}

/// A rectangle is transformed by moving each of its pixels.
pub proof fn rect_transform_moves_pixels(
    t: Transform,
    r: Rectangle,
    area: Size,
    x: int,
    y: int,
)
    requires
        t.can_transform(r, area),
    ensures
        r.has(x, y) <==> t.spec_transform_rect_in(r, area).has(
            t.pixel(x, y, area).0,
            t.pixel(x, y, area).1,
        ),
{
}

/// What lies in an area lies in the transformed area afterwards, and can be transformed.
pub proof fn transform_stays_inside(t: Transform, r: Rectangle, area: Size)
    requires
        r.valid(),
        area.valid(),
        rect(0, 0, area.w as int, area.h as int).spec_contains_rect(r),
    ensures
        t.can_transform(r, area),
        ({
            let turned = t.spec_transform_size(area);
            rect(0, 0, turned.w as int, turned.h as int).spec_contains_rect(
                t.spec_transform_rect_in(r, area),
            )
        }),
{
}

/// A part of a rectangle can be transformed along with it, and is a part of it afterwards.
pub proof fn transform_keeps_parts(t: Transform, whole: Rectangle, part: Rectangle, area: Size)
    requires
        t.can_transform(whole, area),
        part.valid(),
        whole.spec_contains_rect(part),
    ensures
        t.can_transform(part, area),
        t.spec_transform_rect_in(whole, area).spec_contains_rect(
            t.spec_transform_rect_in(part, area),
        ),
{
}

/// The inverted transform undoes the transform, except for the two that mirror along a
/// diagonal: those undo themselves.
pub proof fn invert_undoes(t: Transform, r: Rectangle, area: Size)
    requires
        t.can_transform(r, area),
    ensures
        ({
            let undo = if t == Transform::Flipped90 || t == Transform::Flipped270 {
                t
            } else {
                t.spec_invert()
            };
            undo.spec_transform_rect_in(
                t.spec_transform_rect_in(r, area),
                t.spec_transform_size(area),
            ) == r
        }),
        t.spec_invert().spec_transform_size(t.spec_transform_size(area)) == area,
        t.spec_invert().spec_invert() == t,
{
}

impl Transform {
    /// The pixel of an area of the given size that comes to stand at `(x, y)`.
    pub open spec fn pixel_before(self, x: int, y: int, area: Size) -> (int, int) {
        match self {
            Transform::Normal => (x, y),
            Transform::_90 => (y, area.h - 1 - x),
            Transform::_180 => (area.w - 1 - x, area.h - 1 - y),
            Transform::_270 => (area.w - 1 - y, x),
            Transform::Flipped => (area.w - 1 - x, y),
            Transform::Flipped90 => (y, x),
            Transform::Flipped180 => (x, area.h - 1 - y),
            Transform::Flipped270 => (area.w - 1 - y, area.h - 1 - x),
        }
    }
}

/// A transform moves the pixels of an area onto those of the turned area, one to one.
pub proof fn pixels_are_exchanged(t: Transform, x: int, y: int, area: Size)
    ensures
        ({
            let to = t.pixel(x, y, area);
            let turned = t.spec_transform_size(area);
            &&& t.pixel_before(to.0, to.1, area) == (x, y)
            &&& t.pixel(t.pixel_before(x, y, area).0, t.pixel_before(x, y, area).1, area) == (x, y)
            &&& 0 <= x < area.w && 0 <= y < area.h <==> 0 <= to.0 < turned.w && 0 <= to.1
                < turned.h
        }),
{
}

/// What the transforms do: a quarter turn leads the upper left corner to the upper right and the
/// upper right to the lower right, the other turns are repeated quarter turns, and a mirrored
/// transform is the turn of the same angle followed by an exchange of left and right.
pub proof fn turns_are_repeated_quarters(t: Transform, x: int, y: int, area: Size)
    ensures
        Transform::Normal.pixel(x, y, area) == (x, y),
        Transform::_90.pixel(0, 0, area) == (area.h - 1, 0int),
        Transform::_90.pixel(area.w - 1, 0, area) == (area.h - 1, area.w - 1),
        Transform::Flipped.pixel(x, y, area) == (area.w - 1 - x, y),
        Transform::Normal.spec_transform_size(area) == area,
        Transform::_90.spec_transform_size(area).w == area.h,
        Transform::_90.spec_transform_size(area).h == area.w,
        ({
            let turned = Transform::_90.spec_transform_size(area);
            let once = Transform::_90.pixel(x, y, area);
            let twice = Transform::_90.pixel(once.0, once.1, turned);
            let thrice = Transform::_90.pixel(twice.0, twice.1, area);
            &&& Transform::_180.pixel(x, y, area) == twice
            &&& Transform::_270.pixel(x, y, area) == thrice
            &&& Transform::_90.pixel(thrice.0, thrice.1, turned) == (x, y)
        }),
        ({
            let plain = match t {
                Transform::Flipped => Transform::Normal,
                Transform::Flipped90 => Transform::_90,
                Transform::Flipped180 => Transform::_180,
                Transform::Flipped270 => Transform::_270,
                other => other,
            };
            let at = plain.pixel(x, y, area);
            let mirrored = Transform::Flipped.pixel(at.0, at.1, plain.spec_transform_size(area));
            t.pixel(x, y, area) == if t == plain {
                at
            } else {
                mirrored
            }
        }),
{
}

} // verus!
