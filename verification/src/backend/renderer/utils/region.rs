//! Regions that clients declare as opaque.

use vstd::prelude::*;

use crate::utils::geometry::{Point, Rectangle, Size};
use crate::utils::geometry::rect;
use crate::utils::rects::{
    all_valid, all_within, covers, covers_concat, cut, cut_covers_difference, cut_stays_within,
    fragments, subtract_covers_difference, subtract_many, untouched,
};

verus! {

/// What a rectangle does to a region.
#[derive(Clone, Copy, Debug, PartialEq, Eq, Structural)]
pub enum RectangleKind {
    Add,
    Subtract,
}

/// `r` moved and cut so that it lies within a surface of the given size.
pub open spec fn placed(r: Rectangle, dst: Size) -> Rectangle {
    let loc = r.loc.spec_constrain(rect(0, 0, dst.w as int, dst.h as int));
    Rectangle {
        loc,
        size: r.size.spec_clamp(
            Size { w: 0, h: 0 },
            Size { w: (dst.w - loc.x) as i32, h: (dst.h - loc.y) as i32 },
        ),
    }
}

/// The regions that overlap or touch `r`, in order.
pub open spec fn close_to(regions: Seq<Rectangle>, r: Rectangle) -> Seq<Rectangle>
    decreases regions.len(),
{
    if regions.len() == 0 {
        Seq::empty()
    } else if regions.last().spec_overlaps_or_touches(r) {
        close_to(regions.drop_last(), r).push(regions.last())
    } else {
        close_to(regions.drop_last(), r)
    }
}

/// The regions after one more rectangle was added or subtracted.
pub open spec fn applied(
    regions: Seq<Rectangle>,
    kind: RectangleKind,
    r: Rectangle,
) -> Seq<Rectangle> {
    match kind {
        RectangleKind::Add => regions + subtract_many(seq![r], close_to(regions, r)),
        RectangleKind::Subtract => subtract_many(regions, seq![r]),
    }
}

/// The regions that a list of rectangles describes on a surface of the given size.
pub open spec fn regions_of(parts: Seq<(RectangleKind, Rectangle)>, dst: Size) -> Seq<Rectangle>
    decreases parts.len(),
{
    if parts.len() == 0 {
        Seq::empty()
    } else {
        applied(
            regions_of(parts.drop_last(), dst),
            parts.last().0,
            placed(parts.last().1, dst),
        )
    }
}

/// Whether the pixel belongs to the region: whether the last rectangle that holds it is added.
pub open spec fn in_region(
    parts: Seq<(RectangleKind, Rectangle)>,
    dst: Size,
    x: int,
    y: int,
) -> bool
    decreases parts.len(),
{
    if parts.len() == 0 {
        false
    } else if placed(parts.last().1, dst).has(x, y) {
        parts.last().0 == RectangleKind::Add
    } else {
        in_region(parts.drop_last(), dst, x, y)
    }
}

/// No pixel is held by two of the rectangles.
pub open spec fn disjoint(rects: Seq<Rectangle>) -> bool {
    forall|i: int, j: int, x: int, y: int|
        0 <= i < j < rects.len() && #[trigger] rects[i].has(x, y) ==> !#[trigger] rects[j].has(
            x,
            y,
        )
}

proof fn lemma_placed(r: Rectangle, dst: Size)
    requires
        dst.valid(),
    ensures
        placed(r, dst).valid(),
        rect(0, 0, dst.w as int, dst.h as int).spec_contains_rect(placed(r, dst)),
{
}

proof fn lemma_one(r: Rectangle, x: int, y: int)
    ensures
        covers(seq![r], x, y) <==> r.has(x, y),
{
    let one = seq![r];
    assert(one[0] == r);
    if covers(one, x, y) {
        let i = choose|i: int| 0 <= i < one.len() && (#[trigger] one[i]).has(x, y);
        assert(one[i] == r);
    }
}

proof fn lemma_close_to(regions: Seq<Rectangle>, r: Rectangle, x: int, y: int)
    requires
        all_valid(regions),
        r.valid(),
    ensures
        all_valid(close_to(regions, r)),
        r.has(x, y) ==> (covers(close_to(regions, r), x, y) <==> covers(regions, x, y)),
    decreases regions.len(),
{
    if regions.len() > 0 {
        let head = regions.drop_last();
        let last = regions.last();
        lemma_close_to(head, r, x, y);
        assert(regions =~= head + seq![last]);
        covers_concat(head, seq![last], x, y);
        lemma_one(last, x, y);
        assert(close_to(head, r).push(last) =~= close_to(head, r) + seq![last]);
        covers_concat(close_to(head, r), seq![last], x, y);
    }
}

proof fn lemma_within_concat(a: Seq<Rectangle>, b: Seq<Rectangle>, bounds: Rectangle)
    requires
        all_within(a, bounds),
        all_within(b, bounds),
    ensures
        all_within(a + b, bounds),
{
}

proof fn lemma_pieces_within(rects: Seq<Rectangle>, other: Rectangle, bounds: Rectangle)
    requires
        all_valid(rects),
        other.valid(),
        all_within(rects, bounds),
    ensures
        all_within(untouched(rects, other), bounds),
        all_within(fragments(rects, other), bounds),
    decreases rects.len(),
{
    if rects.len() > 0 {
        let last = rects.last();
        lemma_pieces_within(rects.drop_last(), other, bounds);
        cut_stays_within(last, other);
        assert(bounds.spec_contains_rect(rects[rects.len() - 1]));
        assert(all_within(cut(last, other), bounds)) by {
            assert forall|i: int| 0 <= i < cut(last, other).len() implies bounds.spec_contains_rect(
                #[trigger] cut(last, other)[i],
            ) by {
                assert(last.spec_contains_rect(cut(last, other)[i]));
            }
        }
        lemma_within_concat(fragments(rects.drop_last(), other), cut(last, other), bounds);
    }
}

/// What stays of rectangles within some bounds is within them too.
pub proof fn subtract_stays_within(rects: Seq<Rectangle>, others: Seq<Rectangle>, bounds: Rectangle)
    requires
        all_valid(rects),
        all_valid(others),
        all_within(rects, bounds),
    ensures
        all_valid(subtract_many(rects, others)),
        all_within(subtract_many(rects, others), bounds),
    decreases others.len(),
{
    subtract_covers_difference(rects, others, 0, 0);
    if others.len() > 0 {
        let head = others.drop_last();
        assert(all_valid(head));
        subtract_stays_within(rects, head, bounds);
        assert(others[others.len() - 1].valid());
        let before = subtract_many(rects, head);
        lemma_pieces_within(before, others.last(), bounds);
        lemma_within_concat(
            untouched(before, others.last()),
            fragments(before, others.last()),
            bounds,
        );
    }
}

/// Adding a rectangle adds exactly its pixels, subtracting one removes exactly its pixels, and
/// the regions stay within the surface.
pub proof fn applied_is_exact(
    regions: Seq<Rectangle>,
    kind: RectangleKind,
    r: Rectangle,
    bounds: Rectangle,
    x: int,
    y: int,
)
    requires
        all_valid(regions),
        r.valid(),
        all_within(regions, bounds),
        bounds.spec_contains_rect(r),
    ensures
        all_valid(applied(regions, kind, r)),
        all_within(applied(regions, kind, r), bounds),
        covers(applied(regions, kind, r), x, y) <==> if r.has(x, y) {
            kind == RectangleKind::Add
        } else {
            covers(regions, x, y)
        },
{
    lemma_one(r, x, y);
    lemma_close_to(regions, r, x, y);
    match kind {
        RectangleKind::Add => {
            let new = subtract_many(seq![r], close_to(regions, r));
            subtract_covers_difference(seq![r], close_to(regions, r), x, y);
            covers_concat(regions, new, x, y);
            subtract_stays_within(seq![r], close_to(regions, r), bounds);
            lemma_within_concat(regions, new, bounds);
        },
        RectangleKind::Subtract => {
            subtract_covers_difference(regions, seq![r], x, y);
            subtract_stays_within(regions, seq![r], bounds);
        },
    }
}

/// The regions hold exactly the pixels of the surface that the list describes.
pub proof fn regions_are_exact(
    parts: Seq<(RectangleKind, Rectangle)>,
    dst: Size,
    x: int,
    y: int,
)
    requires
        dst.valid(),
    ensures
        all_valid(regions_of(parts, dst)),
        all_within(regions_of(parts, dst), rect(0, 0, dst.w as int, dst.h as int)),
        covers(regions_of(parts, dst), x, y) <==> in_region(parts, dst, x, y),
    decreases parts.len(),
{
    if parts.len() > 0 {
        let head = parts.drop_last();
        regions_are_exact(head, dst, x, y);
        lemma_placed(parts.last().1, dst);
        applied_is_exact(
            regions_of(head, dst),
            parts.last().0,
            placed(parts.last().1, dst),
            rect(0, 0, dst.w as int, dst.h as int),
            x,
            y,
        );
    }
}

/// No pixel is covered by both sequences.
pub open spec fn separate(a: Seq<Rectangle>, b: Seq<Rectangle>) -> bool {
    forall|x: int, y: int| #[trigger] covers(a, x, y) ==> !covers(b, x, y)
}

proof fn lemma_disjoint_concat(a: Seq<Rectangle>, b: Seq<Rectangle>)
    requires
        disjoint(a),
        disjoint(b),
        separate(a, b),
    ensures
        disjoint(a + b),
{
    let all = a + b;
    assert forall|i: int, j: int, x: int, y: int|
        0 <= i < j < all.len() && #[trigger] all[i].has(x, y) implies !#[trigger] all[j].has(
        x,
        y,
    ) by {
        if j < a.len() {
            assert(a[i].has(x, y));
            assert(!a[j].has(x, y));
        } else if i >= a.len() {
            assert(b[i - a.len()].has(x, y));
            assert(!b[j - a.len()].has(x, y));
        } else {
            assert(a[i].has(x, y));
            assert(covers(a, x, y));
            if all[j].has(x, y) {
                assert(b[j - a.len()].has(x, y));
                assert(covers(b, x, y));
            }
        }
    }
}

proof fn lemma_disjoint_parts(rects: Seq<Rectangle>)
    requires
        rects.len() > 0,
        disjoint(rects),
    ensures
        disjoint(rects.drop_last()),
        separate(rects.drop_last(), seq![rects.last()]),
{
    let head = rects.drop_last();
    assert forall|i: int, j: int, x: int, y: int|
        0 <= i < j < head.len() && #[trigger] head[i].has(x, y) implies !#[trigger] head[j].has(
        x,
        y,
    ) by {
        assert(rects[i].has(x, y));
        assert(!rects[j].has(x, y));
    }
    assert forall|x: int, y: int| #[trigger] covers(head, x, y) implies !covers(
        seq![rects.last()],
        x,
        y,
    ) by {
        let i = choose|i: int| 0 <= i < head.len() && (#[trigger] head[i]).has(x, y);
        assert(rects[i].has(x, y));
        assert(!rects[rects.len() - 1].has(x, y));
        lemma_one(rects.last(), x, y);
    }
}

proof fn lemma_cut_disjoint(item: Rectangle, other: Rectangle)
    requires
        item.valid(),
        other.valid(),
    ensures
        disjoint(cut(item, other)),
{
}

proof fn lemma_pieces_disjoint(rects: Seq<Rectangle>, other: Rectangle)
    requires
        all_valid(rects),
        other.valid(),
        disjoint(rects),
    ensures
        disjoint(untouched(rects, other)),
        disjoint(fragments(rects, other)),
        separate(untouched(rects, other), fragments(rects, other)),
        forall|x: int, y: int|
            #[trigger] covers(untouched(rects, other), x, y) ==> covers(rects, x, y),
        forall|x: int, y: int|
            #[trigger] covers(fragments(rects, other), x, y) ==> covers(rects, x, y),
    decreases rects.len(),
{
    if rects.len() > 0 {
        let head = rects.drop_last();
        let last = rects.last();
        let one = seq![last];
        lemma_disjoint_parts(rects);
        lemma_pieces_disjoint(head, other);
        assert(rects[rects.len() - 1].valid());
        lemma_cut_disjoint(last, other);
        assert(rects =~= head + one);
        assert forall|x: int, y: int| covers(rects, x, y) == (covers(head, x, y) || covers(
            one,
            x,
            y,
        )) by {
            covers_concat(head, one, x, y);
        }
        assert forall|x: int, y: int| #[trigger] covers(cut(last, other), x, y) implies covers(
            one,
            x,
            y,
        ) by {
            cut_covers_difference(last, other, x, y);
            lemma_one(last, x, y);
        }
        if last.spec_overlaps(other) {
            lemma_disjoint_concat(fragments(head, other), cut(last, other));
            assert forall|x: int, y: int|
                #[trigger] covers(fragments(rects, other), x, y) implies covers(rects, x, y)
                && !covers(untouched(rects, other), x, y) by {
                covers_concat(fragments(head, other), cut(last, other), x, y);
            }
        } else {
            assert(untouched(rects, other) =~= untouched(head, other) + one);
            assert(disjoint(one));
            lemma_disjoint_concat(untouched(head, other), one);
            assert forall|x: int, y: int|
                #[trigger] covers(untouched(rects, other), x, y) implies covers(rects, x, y)
                && !covers(fragments(rects, other), x, y) by {
                covers_concat(untouched(head, other), one, x, y);
            }
        }
    }
}

proof fn lemma_subtract_disjoint(rects: Seq<Rectangle>, others: Seq<Rectangle>)
    requires
        all_valid(rects),
        all_valid(others),
        disjoint(rects),
    ensures
        disjoint(subtract_many(rects, others)),
    decreases others.len(),
{
    if others.len() > 0 {
        let head = others.drop_last();
        assert(all_valid(head));
        lemma_subtract_disjoint(rects, head);
        subtract_covers_difference(rects, head, 0, 0);
        assert(others[others.len() - 1].valid());
        let before = subtract_many(rects, head);
        lemma_pieces_disjoint(before, others.last());
        lemma_disjoint_concat(untouched(before, others.last()), fragments(before, others.last()));
    }
}

/// No two regions share a pixel.
pub proof fn regions_are_disjoint(parts: Seq<(RectangleKind, Rectangle)>, dst: Size)
    requires
        dst.valid(),
    ensures
        disjoint(regions_of(parts, dst)),
    decreases parts.len(),
{
    if parts.len() > 0 {
        let head = regions_of(parts.drop_last(), dst);
        let r = placed(parts.last().1, dst);
        regions_are_disjoint(parts.drop_last(), dst);
        regions_are_exact(parts.drop_last(), dst, 0, 0);
        lemma_placed(parts.last().1, dst);
        let one = seq![r];
        match parts.last().0 {
            RectangleKind::Add => {
                let close = close_to(head, r);
                lemma_close_to(head, r, 0, 0);
                assert(disjoint(one));
                lemma_subtract_disjoint(one, close);
                let new = subtract_many(one, close);
                assert forall|x: int, y: int| #[trigger] covers(head, x, y) implies !covers(
                    new,
                    x,
                    y,
                ) by {
                    lemma_close_to(head, r, x, y);
                    lemma_one(r, x, y);
                    subtract_covers_difference(one, close, x, y);
                }
                lemma_disjoint_concat(head, new);
            },
            RectangleKind::Subtract => {
                lemma_subtract_disjoint(head, one);
            },
        }
    }
}

fn place(r: Rectangle, dst: Size) -> (out: Rectangle)
    requires
        dst.valid(),
    ensures
        out == placed(r, dst),
        out.valid(),
{
    let loc = r.loc.constrain(Rectangle { loc: Point { x: 0, y: 0 }, size: dst });
    let size = r.size.clamp(Size { w: 0, h: 0 }, Size { w: dst.w - loc.x, h: dst.h - loc.y });
    Rectangle { loc, size }
}

fn find_close(regions: &Vec<Rectangle>, r: Rectangle) -> (close: Vec<Rectangle>)
    requires
        all_valid(regions@),
        r.valid(),
    ensures
        close@ == close_to(regions@, r),
        all_valid(close@),
{
    let mut close: Vec<Rectangle> = Vec::new();
    assert(regions@.take(0) =~= Seq::<Rectangle>::empty());
    for i in 0..regions.len()
        invariant
            all_valid(regions@),
            r.valid(),
            all_valid(close@),
            close@ == close_to(regions@.take(i as int), r),
    {
        assert(regions@.take(i as int + 1).drop_last() =~= regions@.take(i as int));
        if regions[i].overlaps_or_touches(r) {
            close.push(regions[i]);
        }
    }
    assert(regions@.take(regions.len() as int) =~= regions@);
    close
}

/// The regions that a list of rectangles describes on a surface of the given size: each
/// rectangle is brought within the surface, then added to the regions before it or subtracted
/// from them.
pub fn collect_regions(parts: &Vec<(RectangleKind, Rectangle)>, dst: Size) -> (regions: Vec<
    Rectangle,
>)
    requires
        dst.valid(),
    ensures
        regions@ == regions_of(parts@, dst),
        all_valid(regions@),
{
    let mut regions: Vec<Rectangle> = Vec::new();
    assert(parts@.take(0) =~= Seq::<(RectangleKind, Rectangle)>::empty());
    for i in 0..parts.len()
        invariant
            dst.valid(),
            regions@ == regions_of(parts@.take(i as int), dst),
            all_valid(regions@),
    {
        assert(parts@.take(i as int + 1).drop_last() =~= parts@.take(i as int));
        let r = place(parts[i].1, dst);
        match parts[i].0 {
            RectangleKind::Add => {
                let close = find_close(&regions, r);
                let mut added = r.subtract_rects(&close);
                regions.append(&mut added);
            },
            RectangleKind::Subtract => {
                let mut hole: Vec<Rectangle> = Vec::new();
                hole.push(r);
                assert(hole@ =~= seq![r]);
                let left = Rectangle::subtract_rects_many_in_place(regions, &hole);
                regions = left;
            },
        }
    }
    assert(parts@.take(parts.len() as int) =~= parts@);
    regions
}

/// What a surface takes of a rectangle that begins on it are the common pixels; a rectangle that
/// lies on it is taken as it is, and whatever is taken lies on it.
pub proof fn rectangles_are_cut_to_the_surface(r: Rectangle, dst: Size, x: int, y: int)
    requires
        r.valid(),
        dst.valid(),
    ensures
        placed(r, dst).has(x, y) ==> 0 <= x < dst.w && 0 <= y < dst.h,
        0 <= r.loc.x <= dst.w && 0 <= r.loc.y <= dst.h ==> (placed(r, dst).has(x, y) <==> r.has(
            x,
            y,
        ) && 0 <= x < dst.w && 0 <= y < dst.h),
        rect(0, 0, dst.w as int, dst.h as int).spec_contains_rect(r) ==> placed(r, dst) == r,
        placed(r, dst).size.w <= r.size.w && placed(r, dst).size.h <= r.size.h,
{
}

} // verus!
