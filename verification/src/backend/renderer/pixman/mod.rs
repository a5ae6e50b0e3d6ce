//! Software rendering with pixman: which boxes are painted and how a texture is brought onto
//! its target.

use vstd::prelude::*;

use crate::backend::renderer::{DebugFlags, TextureFilter, DEBUG_TINT};
use crate::utils::geometry::{Point, Rectangle, Size};
use crate::utils::geometry::rect;
use crate::utils::rects::covers;
use crate::utils::transform::{
    rect_transform_moves_pixels, transform_keeps_parts, transform_stays_inside, Transform,
};

use self::import::PixmanTexture;

pub mod import;
pub mod laws;

verus! {

/// A box between two corners.
#[derive(Clone, Copy, Debug, PartialEq, Eq, Structural)]
pub struct Box32 {
    pub x1: i32,
    pub y1: i32,
    pub x2: i32,
    pub y2: i32,
}

/// How pixels are combined with those of the target.
#[derive(Clone, Copy, Debug, PartialEq, Eq, Structural)]
pub enum Operation {
    /// The source replaces the target.
    Src,
    /// The source is blended over the target.
    Over,
}

/// A step of the map from the target to the source. The steps are applied in order.
#[derive(Clone, Copy, Debug, PartialEq, Eq, Structural)]
pub enum TransformStep {
    Translate { x: i32, y: i32 },
    /// Each coordinate is multiplied with the ratio of the two extents.
    Scale { to: Size, from: Size },
    Rotate { cos: i32, sin: i32 },
    /// The x axis is turned around.
    Mirror,
    /// The y axis is turned around.
    Flip,
}

/// The part of source and target that are composed: the positions in each, and the extent.
#[derive(Clone, Copy, Debug, PartialEq, Eq, Structural)]
pub struct Placement {
    pub src: Point,
    pub dest: Point,
    pub size: Size,
}

/// How a texture is rendered.
#[derive(Debug)]
pub struct TexturePlan {
    /// The map from target to source, empty if none is set.
    pub steps: Vec<TransformStep>,
    pub placement: Placement,
    /// The texture is clipped to these two and to the boxes.
    pub output: Rectangle,
    pub dst: Rectangle,
    pub boxes: Vec<Box32>,
    pub op: Operation,
    pub filter: TextureFilter,
    pub tint: bool,
}

/// How a solid color is painted.
#[derive(Debug)]
pub struct SolidPlan {
    /// The color is clipped to the output and to the boxes, which lie in the place of the color.
    pub output: Rectangle,
    pub boxes: Vec<Box32>,
    pub op: Operation,
    pub tint: bool,
}

/// The box of a rectangle.
pub open spec fn box_of(r: Rectangle) -> Box32 {
    Box32 {
        x1: r.loc.x,
        y1: r.loc.y,
        x2: r.right() as i32,
        y2: r.bottom() as i32,
    }
}

/// The boxes on the target of damage relative to `loc`.
pub open spec fn boxes_of(
    damage: Seq<Rectangle>,
    loc: Point,
    transform: Transform,
    size: Size,
) -> Seq<Box32> {
    Seq::new(
        damage.len(),
        |i: int| box_of(transform.spec_transform_rect_in(damage[i].spec_moved(loc), size)),
    )
}

/// The parts of the damage, which is relative to `dst`, that lie in `dst`.
pub open spec fn clipped(damage: Seq<Rectangle>, dst: Rectangle) -> Seq<Rectangle>
    decreases damage.len(),
{
    if damage.len() == 0 {
        Seq::empty()
    } else {
        let before = clipped(damage.drop_last(), dst);
        match damage.last().spec_moved(dst.loc).spec_intersection(dst) {
            Some(part) => before.push(part),
            None => before,
        }
    }
}

/// The boxes on the target of the damage that lies in `dst`.
pub open spec fn solid_boxes(
    damage: Seq<Rectangle>,
    dst: Rectangle,
    transform: Transform,
    size: Size,
) -> Seq<Box32> {
    boxes_of(clipped(damage, dst), Point { x: 0, y: 0 }, transform, size)
}

/// Whether a color can be placed on the target.
pub open spec fn can_fill(
    damage: Seq<Rectangle>,
    dst: Rectangle,
    transform: Transform,
    size: Size,
) -> bool {
    &&& transform.can_transform(dst, size)
    &&& forall|i: int| 0 <= i < damage.len() ==> (#[trigger] damage[i]).movable(dst.loc)
}

/// Whether a box lies in a rectangle.
pub open spec fn box_within(b: Box32, r: Rectangle) -> bool {
    &&& r.loc.x <= b.x1 <= b.x2 <= r.right()
    &&& r.loc.y <= b.y1 <= b.y2 <= r.bottom()
}

/// Every rectangle of the damage can be placed on the target.
pub open spec fn placeable(
    damage: Seq<Rectangle>,
    loc: Point,
    transform: Transform,
    size: Size,
) -> bool {
    forall|i: int|
        0 <= i < damage.len() ==> (#[trigger] damage[i]).movable(loc) && transform.can_transform(
            damage[i].spec_moved(loc),
            size,
        )
}

/// The transform of the image as a whole: it mirrors if exactly one of the two does, and turns
/// by the sum of their angles if it mirrors, else by their difference.
pub open spec fn image_of(src: Transform, output: Transform) -> Transform {
    let flipped = src.spec_flipped() != output.spec_flipped();
    let turn = if flipped {
        output.spec_quarters() + src.spec_quarters()
    } else {
        output.spec_quarters() - src.spec_quarters()
    };
    Transform::of_parts(flipped, turn % 4)
}

/// Whether the image fits its place on the target pixel by pixel.
pub open spec fn is_plain(image: Transform, src: Size, dst: Size) -> bool {
    &&& image == Transform::Normal
    &&& image.spec_transform_size(src) == dst
    &&& dst.w != 0
    &&& dst.h != 0
}

/// The cosine and sine of a rotation back by the given quarter turns.
pub open spec fn back_rotation(quarters: int) -> (int, int) {
    if quarters == 0 {
        (1, 0)
    } else if quarters == 1 {
        (0, -1)
    } else if quarters == 2 {
        (-1, 0)
    } else {
        (0, 1)
    }
}

/// The translation that brings the rotated and mirrored image back to the origin.
pub open spec fn back_offset(image: Transform, src: Size) -> (int, int) {
    match image {
        Transform::Normal => (0, 0),
        Transform::_90 => (0, src.h as int),
        Transform::_180 => (src.w as int, src.h as int),
        Transform::_270 => (src.w as int, 0),
        Transform::Flipped => (src.w as int, 0),
        Transform::Flipped90 => (src.w as int, src.h as int),
        Transform::Flipped180 => (0, src.h as int),
        Transform::Flipped270 => (0, 0),
    }
}

/// The map from the target to the source.
pub open spec fn steps_of(image: Transform, src: Rectangle, dst: Rectangle) -> Seq<TransformStep> {
    let (cos, sin) = back_rotation(image.spec_quarters());
    let (x, y) = back_offset(image, src.size);
    let turned = seq![
        TransformStep::Translate { x: (-dst.loc.x) as i32, y: (-dst.loc.y) as i32 },
        TransformStep::Scale { to: image.spec_transform_size(src.size), from: dst.size },
        TransformStep::Rotate { cos: cos as i32, sin: sin as i32 },
    ];
    let mirrored = if image.spec_flipped() {
        turned.push(TransformStep::Mirror)
    } else {
        turned
    };
    mirrored.push(TransformStep::Translate { x: x as i32, y: y as i32 }).push(
        TransformStep::Translate { x: src.loc.x, y: src.loc.y },
    )
}

/// The map from the target to the memory of the texture. `flipped` is the height of a texture
/// whose memory holds the rows from the bottom up.
pub open spec fn steps_to_memory(
    image: Transform,
    src: Rectangle,
    dst: Rectangle,
    flipped: Option<i32>,
) -> Seq<TransformStep> {
    match flipped {
        Some(height) => steps_of(image, src, dst).push(TransformStep::Flip).push(
            TransformStep::Translate { x: 0, y: height },
        ),
        None => steps_of(image, src, dst),
    }
}

/// A point of a flipped texture is as far from the bottom of its memory as it would be from the
/// top, if the texture was not flipped.
pub proof fn flipped_texture_is_upside_down(
    image: Transform,
    src: Rectangle,
    dst: Rectangle,
    height: i32,
    p: (int, int),
)
    ensures
        ({
            let upright = run(steps_to_memory(image, src, dst, None), p);
            run(steps_to_memory(image, src, dst, Some(height)), p) == (
                upright.0,
                height - upright.1,
            )
        }),
{
    let upright = steps_of(image, src, dst);
    let turned = upright.push(TransformStep::Flip);
    let steps = steps_to_memory(image, src, dst, Some(height));
    assert(turned.drop_last() =~= upright);
    assert(steps.drop_last() =~= turned);
    assert(run(turned, p) == apply(turned.last(), run(upright, p)));
}

/// Where a step brings a point.
pub open spec fn apply(step: TransformStep, p: (int, int)) -> (int, int) {
    match step {
        TransformStep::Translate { x, y } => (p.0 + x, p.1 + y),
        TransformStep::Scale { to, from } => (p.0 * to.w / from.w as int, p.1 * to.h
            / from.h as int),
        TransformStep::Rotate { cos, sin } => (cos * p.0 - sin * p.1, sin * p.0 + cos * p.1),
        TransformStep::Mirror => (-p.0, p.1),
        TransformStep::Flip => (p.0, -p.1),
    }
}

/// Where the steps bring a point, one after the other.
pub open spec fn run(steps: Seq<TransformStep>, p: (int, int)) -> (int, int)
    decreases steps.len(),
{
    if steps.len() == 0 {
        p
    } else {
        apply(steps.last(), run(steps.drop_last(), p))
    }
}

/// The point of the source that shows at `(u, v)` of the turned image.
pub open spec fn source_point(image: Transform, u: int, v: int, src: Size) -> (int, int) {
    match image {
        Transform::Normal => (u, v),
        Transform::_90 => (v, src.h - u),
        Transform::_180 => (src.w - u, src.h - v),
        Transform::_270 => (src.w - v, u),
        Transform::Flipped => (src.w - u, v),
        Transform::Flipped90 => (src.w - v, src.h - u),
        Transform::Flipped180 => (u, src.h - v),
        Transform::Flipped270 => (v, u),
    }
}

/// The corners of the place on the target are brought onto the corners of the source.
pub proof fn corners_meet(
    image: Transform,
    src: Rectangle,
    dst: Rectangle,
    right: bool,
    bottom: bool,
)
    requires
        src.valid(),
        dst.valid(),
        dst.size.w > 0,
        dst.size.h > 0,
        dst.loc.x > i32::MIN,
        dst.loc.y > i32::MIN,
    ensures
        ({
            let turned = image.spec_transform_size(src.size);
            let corner = (
                if right {
                    dst.right()
                } else {
                    dst.loc.x as int
                },
                if bottom {
                    dst.bottom()
                } else {
                    dst.loc.y as int
                },
            );
            let at = source_point(
                image,
                if right {
                    turned.w as int
                } else {
                    0
                },
                if bottom {
                    turned.h as int
                } else {
                    0
                },
                src.size,
            );
            run(steps_of(image, src, dst), corner) == (src.loc.x + at.0, src.loc.y + at.1)
        }),
{
    let steps = steps_of(image, src, dst);
    let turned = image.spec_transform_size(src.size);
    let corner = (
        if right {
            dst.right()
        } else {
            dst.loc.x as int
        },
        if bottom {
            dst.bottom()
        } else {
            dst.loc.y as int
        },
    );
    let (w, h) = (dst.size.w as int, dst.size.h as int);
    assert(w * turned.w / w == turned.w) by (nonlinear_arith)
        requires
            w > 0,
    ;
    assert(h * turned.h / h == turned.h) by (nonlinear_arith)
        requires
            h > 0,
    ;
    assert(0 * turned.w / w == 0) by (nonlinear_arith)
        requires
            w > 0,
    ;
    assert(0 * turned.h / h == 0) by (nonlinear_arith)
        requires
            h > 0,
    ;
    let shifted = apply(steps[0], corner);
    assert(shifted == (
        if right {
            w
        } else {
            0
        },
        if bottom {
            h
        } else {
            0
        },
    ));
    lemma_scaled(image, src, dst, corner);
}

/// Unscaled, the map brings each point of the place on the target to the point of the source
/// that is shown there.
pub proof fn points_meet(image: Transform, src: Rectangle, dst: Rectangle, u: int, v: int)
    requires
        src.valid(),
        dst.valid(),
        dst.size.w > 0,
        dst.size.h > 0,
        dst.size == image.spec_transform_size(src.size),
        dst.loc.x > i32::MIN,
        dst.loc.y > i32::MIN,
    ensures
        ({
            let at = source_point(image, u, v, src.size);
            run(steps_of(image, src, dst), (dst.loc.x + u, dst.loc.y + v)) == (
                src.loc.x + at.0,
                src.loc.y + at.1,
            )
        }),
{
    let (w, h) = (dst.size.w as int, dst.size.h as int);
    assert(u * w / w == u) by (nonlinear_arith)
        requires
            w > 0,
    ;
    assert(v * h / h == v) by (nonlinear_arith)
        requires
            h > 0,
    ;
    let steps = steps_of(image, src, dst);
    assert(apply(steps[0], (dst.loc.x + u, dst.loc.y + v)) == (u, v));
    lemma_scaled(image, src, dst, (dst.loc.x + u, dst.loc.y + v));
}

proof fn lemma_rotate(quarters: int, p: (int, int))
    requires
        0 <= quarters < 4,
    ensures
        ({
            let (cos, sin) = back_rotation(quarters);
            let step = TransformStep::Rotate { cos: cos as i32, sin: sin as i32 };
            apply(step, p) == (if quarters == 0 {
                p
            } else if quarters == 1 {
                (p.1, -p.0)
            } else if quarters == 2 {
                (-p.0, -p.1)
            } else {
                (-p.1, p.0)
            })
        }),
{
    let (cos, sin) = back_rotation(quarters);
    let (c, s) = (cos as i32, sin as i32);
    assert(c == cos && s == sin);
    lemma_unit(c as int, p.0);
    lemma_unit(c as int, p.1);
    lemma_unit(s as int, p.0);
    lemma_unit(s as int, p.1);
}

proof fn lemma_unit(k: int, x: int)
    by (nonlinear_arith)
    ensures
        k == 0 ==> k * x == 0,
        k == 1 ==> k * x == x,
        k == -1 ==> k * x == -x,
{
}

proof fn lemma_scaled(image: Transform, src: Rectangle, dst: Rectangle, p: (int, int))
    requires
        src.valid(),
    ensures
        ({
            let steps = steps_of(image, src, dst);
            let q = apply(steps[1], apply(steps[0], p));
            let at = source_point(image, q.0, q.1, src.size);
            run(steps, p) == (src.loc.x + at.0, src.loc.y + at.1)
        }),
{
    let steps = steps_of(image, src, dst);
    let q = apply(steps[1], apply(steps[0], p));
    lemma_rotate(image.spec_quarters(), q);
    lemma_run(steps, p);
}

proof fn lemma_run(steps: Seq<TransformStep>, p: (int, int))
    requires
        5 <= steps.len() <= 6,
    ensures
        steps.len() == 5 ==> run(steps, p) == apply(
            steps[4],
            apply(steps[3], apply(steps[2], apply(steps[1], apply(steps[0], p)))),
        ),
        steps.len() == 6 ==> run(steps, p) == apply(
            steps[5],
            apply(steps[4], apply(steps[3], apply(steps[2], apply(steps[1], apply(steps[0], p))))),
        ),
{
    reveal_with_fuel(run, 7);
}

/// Whether one of the boxes holds the pixel.
pub open spec fn in_boxes(boxes: Seq<Box32>, x: int, y: int) -> bool {
    exists|i: int|
        0 <= i < boxes.len() && (#[trigger] boxes[i]).x1 <= x < boxes[i].x2 && boxes[i].y1 <= y
            < boxes[i].y2
}

/// The boxes hold exactly the damaged pixels, each at the place to which the transform brings
/// it.
pub proof fn boxes_are_damage(
    damage: Seq<Rectangle>,
    loc: Point,
    transform: Transform,
    size: Size,
    x: int,
    y: int,
)
    requires
        placeable(damage, loc, transform, size),
    ensures
        ({
            let at = transform.pixel(x + loc.x, y + loc.y, size);
            in_boxes(boxes_of(damage, loc, transform, size), at.0, at.1) <==> covers(damage, x, y)
        }),
{
    let boxes = boxes_of(damage, loc, transform, size);
    let at = transform.pixel(x + loc.x, y + loc.y, size);
    assert forall|i: int| 0 <= i < damage.len() implies (#[trigger] damage[i].has(x, y)) == (
    boxes[i].x1 <= at.0 < boxes[i].x2 && boxes[i].y1 <= at.1 < boxes[i].y2) by {
        let moved = damage[i].spec_moved(loc);
        assert(damage[i].movable(loc));
        rect_transform_moves_pixels(transform, moved, size, x + loc.x, y + loc.y);
    }
    if covers(damage, x, y) {
        let i = choose|i: int| 0 <= i < damage.len() && (#[trigger] damage[i]).has(x, y);
        assert(boxes[i].x1 <= at.0 < boxes[i].x2);
    }
    if in_boxes(boxes, at.0, at.1) {
        let i = choose|i: int|
            0 <= i < boxes.len() && (#[trigger] boxes[i]).x1 <= at.0 < boxes[i].x2 && boxes[i].y1
                <= at.1 < boxes[i].y2;
        assert(damage[i].has(x, y));
    }
}

proof fn lemma_clipped(
    damage: Seq<Rectangle>,
    dst: Rectangle,
    transform: Transform,
    size: Size,
    x: int,
    y: int,
)
    requires
        can_fill(damage, dst, transform, size),
    ensures
        placeable(clipped(damage, dst), Point { x: 0, y: 0 }, transform, size),
        forall|i: int|
            0 <= i < clipped(damage, dst).len() ==> {
                &&& (#[trigger] clipped(damage, dst)[i]).valid()
                &&& dst.spec_contains_rect(clipped(damage, dst)[i])
            },
        covers(clipped(damage, dst), x, y) <==> dst.has(x, y) && covers(
            damage,
            x - dst.loc.x,
            y - dst.loc.y,
        ),
    decreases damage.len(),
{
    let all = clipped(damage, dst);
    let (u, v) = (x - dst.loc.x, y - dst.loc.y);
    if damage.len() > 0 {
        let head = damage.drop_last();
        assert forall|i: int| 0 <= i < head.len() implies (#[trigger] head[i]).movable(dst.loc) by {
            assert(damage[i].movable(dst.loc));
        }
        lemma_clipped(head, dst, transform, size, x, y);
        let before = clipped(head, dst);
        let last = damage.last();
        assert(damage[damage.len() - 1].movable(dst.loc));
        assert forall|i: int| 0 <= i < all.len() implies {
            &&& (#[trigger] all[i]).valid()
            &&& dst.spec_contains_rect(all[i])
            &&& transform.can_transform(all[i], size)
        } by {
            if i < before.len() {
                assert(all[i] == before[i]);
            } else {
                assert(all[i] == last.spec_moved(dst.loc).common(dst));
            }
            transform_keeps_parts(transform, dst, all[i], size);
        }
        assert forall|i: int| 0 <= i < all.len() implies (#[trigger] all[i]).spec_moved(
            Point { x: 0, y: 0 },
        ) == all[i] by {}
        if covers(all, x, y) {
            let i = choose|i: int| 0 <= i < all.len() && (#[trigger] all[i]).has(x, y);
            if i < before.len() {
                assert(before[i].has(x, y));
                let j = choose|j: int| 0 <= j < head.len() && (#[trigger] head[j]).has(u, v);
                assert(damage[j].has(u, v));
            } else {
                assert(damage[damage.len() - 1].has(u, v));
            }
        }
        if dst.has(x, y) && covers(damage, u, v) {
            let j = choose|j: int| 0 <= j < damage.len() && (#[trigger] damage[j]).has(u, v);
            if j < head.len() {
                assert(head[j].has(u, v));
                let i = choose|i: int| 0 <= i < before.len() && (#[trigger] before[i]).has(x, y);
                assert(all[i].has(x, y));
            } else {
                assert(last.spec_moved(dst.loc).has(x, y));
                assert(all[all.len() - 1].has(x, y));
            }
        }
    }
}

/// A color is painted on exactly the damaged pixels of its place, each at the place to which
/// the transform brings it, and on none outside.
pub proof fn color_stays_in_place(
    damage: Seq<Rectangle>,
    dst: Rectangle,
    transform: Transform,
    size: Size,
    x: int,
    y: int,
)
    requires
        can_fill(damage, dst, transform, size),
    ensures
        ({
            let at = transform.pixel(x, y, size);
            in_boxes(solid_boxes(damage, dst, transform, size), at.0, at.1) <==> dst.has(x, y)
                && covers(damage, x - dst.loc.x, y - dst.loc.y)
        }),
        forall|i: int|
            0 <= i < solid_boxes(damage, dst, transform, size).len() ==> box_within(
                #[trigger] solid_boxes(damage, dst, transform, size)[i],
                transform.spec_transform_rect_in(dst, size),
            ),
{
    let parts = clipped(damage, dst);
    lemma_clipped(damage, dst, transform, size, x, y);
    boxes_are_damage(parts, Point { x: 0, y: 0 }, transform, size, x, y);
    assert forall|i: int| 0 <= i < parts.len() implies box_within(
        #[trigger] solid_boxes(damage, dst, transform, size)[i],
        transform.spec_transform_rect_in(dst, size),
    ) by {
        assert(parts[i].valid());
        assert(parts[i].spec_moved(Point { x: 0, y: 0 }) == parts[i]);
        transform_keeps_parts(transform, dst, parts[i], size);
    }
}

/// The transform of an image of the given orientation on an output.
pub fn image_transform(src: Transform, output: Transform) -> (image: Transform)
    ensures
        image == image_of(src, output),
{
    let a: u8 = src.quarters();
    let r: u8 = output.quarters();
    let flipped: bool = src.flipped() != output.flipped();
    let quarters: u8 = if flipped {
        (r + a) % 4
    } else {
        (r + 4 - a) % 4
    };
    Transform::from_parts(flipped, quarters)
}

/// An image in plain orientation is turned like the output, and one turned like the output is
/// not turned.
pub proof fn image_transform_on_matching_output(output: Transform)
    ensures
        image_of(Transform::Normal, output) == output,
        image_of(output, output) == Transform::Normal,
{
}

/// The steps of the map from the target to the source.
fn texture_steps(
    image: Transform,
    src: Rectangle,
    dst: Rectangle,
    flipped: Option<i32>,
) -> (steps: Vec<TransformStep>)
    requires
        dst.loc.x > i32::MIN,
        dst.loc.y > i32::MIN,
    ensures
        steps@ == steps_to_memory(image, src, dst, flipped),
{
    let (cos, sin, x, y): (i32, i32, i32, i32) = match image {
        Transform::Normal => (1, 0, 0, 0),
        Transform::_90 => (0, -1, 0, src.size.h),
        Transform::_180 => (-1, 0, src.size.w, src.size.h),
        Transform::_270 => (0, 1, src.size.w, 0),
        Transform::Flipped => (1, 0, src.size.w, 0),
        Transform::Flipped90 => (0, -1, src.size.w, src.size.h),
        Transform::Flipped180 => (-1, 0, 0, src.size.h),
        Transform::Flipped270 => (0, 1, 0, 0),
    };
    let mut steps: Vec<TransformStep> = Vec::new();
    steps.push(TransformStep::Translate { x: -dst.loc.x, y: -dst.loc.y });
    steps.push(TransformStep::Scale { to: image.transform_size(src.size), from: dst.size });
    steps.push(TransformStep::Rotate { cos, sin });
    if image.flipped() {
        steps.push(TransformStep::Mirror);
    }
    steps.push(TransformStep::Translate { x, y });
    steps.push(TransformStep::Translate { x: src.loc.x, y: src.loc.y });
    assert(steps@ =~= steps_of(image, src, dst));
    if let Some(height) = flipped {
        steps.push(TransformStep::Flip);
        steps.push(TransformStep::Translate { x: 0, y: height });
    }
    steps
}

proof fn lemma_area(size: Size)
    ensures
        i64::MIN <= size.w * size.h <= i64::MAX,
{
    let (w, h) = (size.w as int, size.h as int);
    assert(-0x4000_0000_0000_0000 <= w * h <= 0x4000_0000_0000_0000) by (nonlinear_arith)
        requires
            -0x8000_0000 <= w <= 0x8000_0000,
            -0x8000_0000 <= h <= 0x8000_0000,
    ;
}

/// A texture that is rendered into a place smaller than it in both directions is sampled with the
/// filter for smaller areas, and into a larger one with that for larger areas, whatever the
/// orientations of the texture and the output.
pub proof fn filter_follows_sizes(
    frame: PixmanFrame,
    src: Rectangle,
    dst: Rectangle,
    src_transform: Transform,
)
    requires
        src.size.valid(),
        dst.size.valid(),
    ensures
        ({
            let image = image_of(src_transform.spec_invert(), frame.transform);
            let filter = frame.spec_filter(
                image.spec_transform_size(src.size),
                frame.transform.spec_transform_rect_in(dst, frame.size).size,
            );
            &&& dst.size.w < src.size.w && dst.size.h < src.size.h ==> filter
                == frame.downscale_filter
            &&& dst.size.w > src.size.w && dst.size.h > src.size.h ==> filter
                == frame.upscale_filter
        }),
{
    let (a, b) = (src.size.w as int, src.size.h as int);
    let (c, d) = (dst.size.w as int, dst.size.h as int);
    assert(a * b == b * a && c * d == d * c) by (nonlinear_arith);
    if c < a && d < b {
        assert(c * d <= a * b) by (nonlinear_arith)
            requires
                0 <= c < a,
                0 <= d < b,
        ;
    }
    if c > a && d > b {
        assert(c * d > a * b) by (nonlinear_arith)
            requires
                0 <= a < c,
                0 <= b < d,
        ;
    }
}

/// A frame that is being rendered.
#[derive(Debug)]
pub struct PixmanFrame {
    pub transform: Transform,
    pub output_size: Size,
    /// The size of the output as the contents see it.
    pub size: Size,
    /// The filter of textures that are rendered into an area that is not larger than theirs.
    pub downscale_filter: TextureFilter,
    /// The filter of textures that are rendered into a larger area.
    pub upscale_filter: TextureFilter,
    pub debug_flags: DebugFlags,
    pub finished: bool,
}

impl PixmanFrame {
    pub open spec fn valid(self) -> bool {
        &&& self.output_size.valid()
        &&& self.size == self.transform.spec_transform_size(self.output_size)
    }

    pub open spec fn spec_output(self) -> Rectangle {
        rect(0, 0, self.output_size.w as int, self.output_size.h as int)
    }

    /// Whether a texture can be placed on the target.
    pub open spec fn can_render(self, dst: Rectangle, damage: Seq<Rectangle>) -> bool {
        &&& placeable(damage, dst.loc, self.transform, self.size)
        &&& self.transform.can_transform(dst, self.size)
        &&& self.transform.spec_transform_rect_in(dst, self.size).loc.x > i32::MIN
        &&& self.transform.spec_transform_rect_in(dst, self.size).loc.y > i32::MIN
    }

    /// The boxes on the target of damage relative to `loc`.
    fn damage_boxes(&self, damage: &Vec<Rectangle>, loc: Point) -> (boxes: Vec<Box32>)
        requires
            placeable(damage@, loc, self.transform, self.size),
        ensures
            boxes@ == boxes_of(damage@, loc, self.transform, self.size),
    {
        let mut boxes: Vec<Box32> = Vec::new();
        for i in 0..damage.len()
            invariant
                placeable(damage@, loc, self.transform, self.size),
                boxes@ == boxes_of(damage@, loc, self.transform, self.size).take(i as int),
        {
            assert(damage@[i as int].movable(loc));
            let r = self.transform.transform_rect_in(damage[i].moved(loc), self.size);
            boxes.push(
                Box32 {
                    x1: r.loc.x,
                    y1: r.loc.y,
                    x2: r.loc.x + r.size.w,
                    y2: r.loc.y + r.size.h,
                },
            );
            assert(boxes@ =~= boxes_of(damage@, loc, self.transform, self.size).take(i as int + 1));
        }
        assert(boxes@ =~= boxes_of(damage@, loc, self.transform, self.size));
        boxes
    }

    /// The parts of the damage that lie in `dst`.
    fn clip(&self, damage: &Vec<Rectangle>, dst: Rectangle) -> (parts: Vec<Rectangle>)
        requires
            can_fill(damage@, dst, self.transform, self.size),
        ensures
            parts@ == clipped(damage@, dst),
    {
        let mut parts: Vec<Rectangle> = Vec::new();
        assert(damage@.take(0) =~= Seq::<Rectangle>::empty());
        for i in 0..damage.len()
            invariant
                can_fill(damage@, dst, self.transform, self.size),
                parts@ == clipped(damage@.take(i as int), dst),
        {
            assert(damage@.take(i as int + 1).drop_last() =~= damage@.take(i as int));
            assert(damage@[i as int].movable(dst.loc));
            if let Some(part) = damage[i].moved(dst.loc).intersection(dst) {
                parts.push(part);
            }
        }
        assert(damage@.take(damage.len() as int) =~= damage@);
        parts
    }

    /// Decides how a color is painted into the damage, which is relative to `dst`.
    fn draw_solid_color(
        &self,
        dst: Rectangle,
        damage: &Vec<Rectangle>,
        op: Operation,
        debug: DebugFlags,
    ) -> (plan: SolidPlan)
        requires
            can_fill(damage@, dst, self.transform, self.size),
        ensures
            plan.output == self.spec_output(),
            plan.boxes@ == solid_boxes(damage@, dst, self.transform, self.size),
            forall|i: int|
                0 <= i < plan.boxes@.len() ==> box_within(
                    #[trigger] plan.boxes@[i],
                    self.transform.spec_transform_rect_in(dst, self.size),
                ),
            plan.op == op,
            plan.tint == (debug.bits & DEBUG_TINT == DEBUG_TINT),
    {
        proof {
            lemma_clipped(damage@, dst, self.transform, self.size, 0, 0);
            color_stays_in_place(damage@, dst, self.transform, self.size, 0, 0);
        }
        let parts = self.clip(damage, dst);
        SolidPlan {
            output: Rectangle::from_size(self.output_size),
            boxes: self.damage_boxes(&parts, Point { x: 0, y: 0 }),
            op,
            tint: debug.contains(DEBUG_TINT),
        }
    }

    /// Decides how the given rectangles are cleared; the color replaces what was there.
    pub fn clear(&self, at: &Vec<Rectangle>) -> (plan: SolidPlan)
        requires
            self.valid(),
            forall|i: int| 0 <= i < at@.len() ==> (#[trigger] at@[i]).valid(),
        ensures
            plan.output == self.spec_output(),
            plan.boxes@ == solid_boxes(
                at@,
                rect(0, 0, self.size.w as int, self.size.h as int),
                self.transform,
                self.size,
            ),
            plan.op == Operation::Src,
            !plan.tint,
    {
        let dst = Rectangle::from_size(self.size);
        proof {
            transform_stays_inside(self.transform, dst, self.size);
        }
        let plan = self.draw_solid_color(dst, at, Operation::Src, DebugFlags::empty());
        assert(0u32 & 1u32 != 1u32) by (bit_vector);
        plan
    }

    /// Decides how a color is painted into `dst`, as far as it is damaged; an opaque color need
    /// not be blended.
    pub fn draw_solid(&self, dst: Rectangle, damage: &Vec<Rectangle>, opaque: bool) -> (plan:
        SolidPlan)
        requires
            can_fill(damage@, dst, self.transform, self.size),
        ensures
            plan.output == self.spec_output(),
            plan.boxes@ == solid_boxes(damage@, dst, self.transform, self.size),
            forall|i: int|
                0 <= i < plan.boxes@.len() ==> box_within(
                    #[trigger] plan.boxes@[i],
                    self.transform.spec_transform_rect_in(dst, self.size),
                ),
            plan.op == (if opaque {
                Operation::Src
            } else {
                Operation::Over
            }),
            plan.tint == (self.debug_flags.bits & DEBUG_TINT == DEBUG_TINT),
    {
        let op = if opaque {
            Operation::Src
        } else {
            Operation::Over
        };
        self.draw_solid_color(dst, damage, op, self.debug_flags)
    }

    pub open spec fn spec_filter(self, from: Size, to: Size) -> TextureFilter {
        if to.w * to.h > from.w * from.h {
            self.upscale_filter
        } else {
            self.downscale_filter
        }
    }

    /// The filter for a texture of one size that is rendered into an area of another.
    fn filter(&self, from: Size, to: Size) -> (filter: TextureFilter)
        ensures
            filter == self.spec_filter(from, to),
    {
        proof {
            lemma_area(from);
            lemma_area(to);
        }
        if to.w as i64 * to.h as i64 > from.w as i64 * from.h as i64 {
            self.upscale_filter
        } else {
            self.downscale_filter
        }
    }

    /// Decides how the part `src` of a texture is rendered into `dst`, as far as it is damaged.
    ///
    /// `src` is in whole pixels, and `target` is the size of the target. A texture that fits its
    /// place pixel by pixel needs no map; otherwise the whole target is mapped back to the source
    /// and clipped.
    pub fn render_texture_from_to(
        &self,
        texture: &PixmanTexture,
        src: Rectangle,
        dst: Rectangle,
        damage: &Vec<Rectangle>,
        src_transform: Transform,
        target: Size,
    ) -> (plan: TexturePlan)
        requires
            self.valid(),
            self.can_render(dst, damage@),
        ensures
            ({
                let placed = self.transform.spec_transform_rect_in(dst, self.size);
                let image = image_of(src_transform.spec_invert(), self.transform);
                let plain = is_plain(image, src.size, placed.size) && !texture.flipped;
                &&& plan.steps@ == (if plain {
                    Seq::empty()
                } else {
                    steps_to_memory(image, src, placed, texture.spec_flip_height())
                })
                &&& plan.placement == (if plain {
                    Placement { src: src.loc, dest: placed.loc, size: src.size }
                } else {
                    Placement {
                        src: Point { x: 0, y: 0 },
                        dest: Point { x: 0, y: 0 },
                        size: target,
                    }
                })
            }),
            plan.output == self.spec_output(),
            plan.dst == self.transform.spec_transform_rect_in(dst, self.size),
            plan.boxes@ == boxes_of(damage@, dst.loc, self.transform, self.size),
            plan.op == (match texture.format {
                Some(f) => if f.spec_get_opaque().is_some() {
                    Operation::Over
                } else {
                    Operation::Src
                },
                None => Operation::Over,
            }),
            ({
                let image = image_of(src_transform.spec_invert(), self.transform);
                plan.filter == self.spec_filter(
                    image.spec_transform_size(src.size),
                    self.transform.spec_transform_rect_in(dst, self.size).size,
                )
            }),
            plan.tint == (self.debug_flags.bits & DEBUG_TINT == DEBUG_TINT),
    {
        let placed = self.transform.transform_rect_in(dst, self.size);
        let image = image_transform(src_transform.invert(), self.transform);
        let fit = image.transform_size(src.size);
        let unscaled: bool = fit == placed.size && placed.size.w != 0 && placed.size.h != 0;
        let plain: bool = image == Transform::Normal && unscaled && !texture.flipped;
        let (steps, placement) = if plain {
            (Vec::new(), Placement { src: src.loc, dest: placed.loc, size: src.size })
        } else {
            (
                texture_steps(image, src, placed, texture.flip_height()),
                Placement { src: Point { x: 0, y: 0 }, dest: Point { x: 0, y: 0 }, size: target },
            )
        };
        let blend: bool = match texture.format {
            Some(f) => crate::backend::allocator::format::has_alpha(f),
            None => true,
        };
        let op = if blend {
            Operation::Over
        } else {
            Operation::Src
        };
        let plan = TexturePlan {
            steps,
            placement,
            output: Rectangle::from_size(self.output_size),
            dst: placed,
            boxes: self.damage_boxes(damage, dst.loc),
            op,
            filter: self.filter(fit, placed.size),
            tint: self.debug_flags.contains(DEBUG_TINT),
        };
        assert(plain ==> plan.steps@ =~= Seq::<TransformStep>::empty());
        plan
    }

    /// Finishes the frame; tells whether access to a dmabuf target has to be ended. Only the
    /// first call does anything.
    pub fn finish(&mut self, dmabuf: bool) -> (end_sync: bool)
        ensures
            end_sync == (!old(self).finished && dmabuf),
            *final(self) == (PixmanFrame { finished: true, ..*old(self) }),
    {
        if self.finished {
            return false;
        }
        self.finished = true;
        dmabuf
    }

    /// The transform that is applied to this frame.
    pub fn transformation(&self) -> (transform: Transform)
        ensures
            transform == self.transform,
    {
        self.transform
    }
}

} // verus!
