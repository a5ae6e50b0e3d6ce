//! Sets of pixels given as sequences of rectangles, and their difference.

use vstd::prelude::*;

use crate::utils::geometry::{Point, Rectangle, Size};
use crate::utils::geometry::rect;

verus! {

/// Every rectangle of the sequence is valid.
pub open spec fn all_valid(rects: Seq<Rectangle>) -> bool {
    forall|i: int| 0 <= i < rects.len() ==> (#[trigger] rects[i]).valid()
}

/// Whether some rectangle of the sequence holds the pixel `(x, y)`.
pub open spec fn covers(rects: Seq<Rectangle>, x: int, y: int) -> bool {
    exists|i: int| 0 <= i < rects.len() && (#[trigger] rects[i]).has(x, y)
}

/// Every pixel of every rectangle lies in `bounds`.
pub open spec fn all_within(rects: Seq<Rectangle>, bounds: Rectangle) -> bool {
    forall|i: int| 0 <= i < rects.len() ==> bounds.spec_contains_rect(#[trigger] rects[i])
}

/// `rects` with `r` behind it, unless `r` is empty.
pub open spec fn push_filled(rects: Seq<Rectangle>, r: Rectangle) -> Seq<Rectangle> {
    if r.spec_is_empty() {
        rects
    } else {
        rects.push(r)
    }
}

/// What stays of `item` around its overlap with `other`: the strip above the overlap, the
/// parts to its left and right, and the strip below, those of them that hold pixels.
pub open spec fn around(item: Rectangle, other: Rectangle) -> Seq<Rectangle> {
    let hole = item.common(other);
    let top = rect(
        item.loc.x as int,
        item.loc.y as int,
        item.size.w as int,
        hole.loc.y - item.loc.y,
    );
    let left = rect(
        item.loc.x as int,
        hole.loc.y as int,
        hole.loc.x - item.loc.x,
        hole.size.h as int,
    );
    let right = rect(
        hole.right(),
        hole.loc.y as int,
        item.right() - hole.right(),
        hole.size.h as int,
    );
    let bottom = rect(
        item.loc.x as int,
        hole.bottom(),
        item.size.w as int,
        item.bottom() - hole.bottom(),
    );
    push_filled(push_filled(push_filled(push_filled(Seq::empty(), top), left), right), bottom)
}

/// `item` without `other`.
pub open spec fn cut(item: Rectangle, other: Rectangle) -> Seq<Rectangle> {
    if !item.spec_overlaps(other) {
        seq![item]
    } else if other.spec_contains_rect(item) {
        Seq::empty()
    } else {
        around(item, other)
    }
}

/// Each rectangle of `rects` replaced by what stays of it without `other`.
pub open spec fn cut_each(rects: Seq<Rectangle>, other: Rectangle) -> Seq<Rectangle>
    decreases rects.len(),
{
    if rects.len() == 0 {
        Seq::empty()
    } else {
        cut_each(rects.drop_last(), other) + cut(rects.last(), other)
    }
}

/// Each rectangle of `rects` replaced by what stays of it without any of `others`.
pub open spec fn cut_all(rects: Seq<Rectangle>, others: Seq<Rectangle>) -> Seq<Rectangle>
    decreases others.len(),
{
    if others.len() == 0 {
        rects
    } else {
        cut_each(cut_all(rects, others.drop_last()), others.last())
    }
}

/// The rectangles of `rects` that do not overlap `other`, in order.
pub open spec fn untouched(rects: Seq<Rectangle>, other: Rectangle) -> Seq<Rectangle>
    decreases rects.len(),
{
    if rects.len() == 0 {
        Seq::empty()
    } else if rects.last().spec_overlaps(other) {
        untouched(rects.drop_last(), other)
    } else {
        untouched(rects.drop_last(), other).push(rects.last())
    }
}

/// What stays of the rectangles of `rects` that overlap `other`, in order.
pub open spec fn fragments(rects: Seq<Rectangle>, other: Rectangle) -> Seq<Rectangle>
    decreases rects.len(),
{
    if rects.len() == 0 {
        Seq::empty()
    } else if rects.last().spec_overlaps(other) {
        fragments(rects.drop_last(), other) + cut(rects.last(), other)
    } else {
        fragments(rects.drop_last(), other)
    }
}

/// `rects` without `others`: for each of `others` in turn, the rectangles that it does not
/// overlap come first, then the fragments of the rest.
pub open spec fn subtract_many(rects: Seq<Rectangle>, others: Seq<Rectangle>) -> Seq<Rectangle>
    decreases others.len(),
{
    if others.len() == 0 {
        rects
    } else {
        let before = subtract_many(rects, others.drop_last());
        untouched(before, others.last()) + fragments(before, others.last())
    }
}

proof fn lemma_covers_push(rects: Seq<Rectangle>, r: Rectangle, x: int, y: int)
    ensures
        covers(rects.push(r), x, y) <==> covers(rects, x, y) || r.has(x, y),
{
    if covers(rects, x, y) {
        let i = choose|i: int| 0 <= i < rects.len() && (#[trigger] rects[i]).has(x, y);
        assert(rects.push(r)[i].has(x, y));
    }
    if r.has(x, y) {
        assert(rects.push(r)[rects.len() as int].has(x, y));
    }
    if covers(rects.push(r), x, y) {
        let i = choose|i: int| 0 <= i < rects.push(r).len() && (#[trigger] rects.push(r)[i]).has(x, y);
        if i < rects.len() {
            assert(rects[i].has(x, y));
        }
    }
}

proof fn lemma_covers_push_filled(rects: Seq<Rectangle>, r: Rectangle, x: int, y: int)
    requires
        r.size.w >= 0,
        r.size.h >= 0,
    ensures
        covers(push_filled(rects, r), x, y) <==> covers(rects, x, y) || r.has(x, y),
{
    lemma_covers_push(rects, r, x, y);
}

/// A concatenation covers what either part covers.
pub proof fn covers_concat(a: Seq<Rectangle>, b: Seq<Rectangle>, x: int, y: int)
    ensures
        covers(a + b, x, y) <==> covers(a, x, y) || covers(b, x, y),
{
    if covers(a, x, y) {
        let i = choose|i: int| 0 <= i < a.len() && (#[trigger] a[i]).has(x, y);
        assert((a + b)[i].has(x, y));
    }
    if covers(b, x, y) {
        let i = choose|i: int| 0 <= i < b.len() && (#[trigger] b[i]).has(x, y);
        assert((a + b)[a.len() + i].has(x, y));
    }
    if covers(a + b, x, y) {
        let i = choose|i: int| 0 <= i < (a + b).len() && (#[trigger] (a + b)[i]).has(x, y);
        if i < a.len() {
            assert(a[i].has(x, y));
        } else {
            assert(b[i - a.len()].has(x, y));
        }
    }
}

/// Cutting `other` out of `item` leaves exactly the pixels of `item` that are not in `other`.
pub proof fn cut_covers_difference(item: Rectangle, other: Rectangle, x: int, y: int)
    requires
        item.valid(),
        other.valid(),
    ensures
        covers(cut(item, other), x, y) <==> item.has(x, y) && !other.has(x, y),
{
    if !item.spec_overlaps(other) {
        assert(seq![item] =~= Seq::<Rectangle>::empty().push(item));
        lemma_covers_push(Seq::empty(), item, x, y);
    } else if other.spec_contains_rect(item) {
    } else {
        let hole = item.common(other);
        let top = rect(
            item.loc.x as int,
            item.loc.y as int,
            item.size.w as int,
            hole.loc.y - item.loc.y,
        );
        let left = rect(
            item.loc.x as int,
            hole.loc.y as int,
            hole.loc.x - item.loc.x,
            hole.size.h as int,
        );
        let right = rect(
            hole.right(),
            hole.loc.y as int,
            item.right() - hole.right(),
            hole.size.h as int,
        );
        let bottom = rect(
            item.loc.x as int,
            hole.bottom(),
            item.size.w as int,
            item.bottom() - hole.bottom(),
        );
        let s0 = Seq::<Rectangle>::empty();
        let s1 = push_filled(s0, top);
        let s2 = push_filled(s1, left);
        let s3 = push_filled(s2, right);
        lemma_covers_push_filled(s0, top, x, y);
        lemma_covers_push_filled(s1, left, x, y);
        lemma_covers_push_filled(s2, right, x, y);
        lemma_covers_push_filled(s3, bottom, x, y);
    }
}

/// The pieces that stay of a valid rectangle are valid and lie within it.
pub proof fn cut_stays_within(item: Rectangle, other: Rectangle)
    requires
        item.valid(),
        other.valid(),
    ensures
        all_valid(cut(item, other)),
        all_within(cut(item, other), item),
{
}

/// Cutting one rectangle out of each of a sequence leaves exactly the pixels outside it.
pub proof fn cut_each_covers_difference(
    rects: Seq<Rectangle>,
    other: Rectangle,
    x: int,
    y: int,
)
    requires
        all_valid(rects),
        other.valid(),
    ensures
        all_valid(cut_each(rects, other)),
        covers(cut_each(rects, other), x, y) <==> covers(rects, x, y) && !other.has(x, y),
    decreases rects.len(),
{
    if rects.len() > 0 {
        let head = rects.drop_last();
        assert(rects =~= head.push(rects.last()));
        cut_each_covers_difference(head, other, x, y);
        cut_stays_within(rects.last(), other);
        cut_covers_difference(rects.last(), other, x, y);
        covers_concat(cut_each(head, other), cut(rects.last(), other), x, y);
        lemma_covers_push(head, rects.last(), x, y);
    }
}

/// Cutting a sequence of rectangles out of another leaves exactly the pixels that none of the
/// former holds.
pub proof fn cut_all_covers_difference(
    rects: Seq<Rectangle>,
    others: Seq<Rectangle>,
    x: int,
    y: int,
)
    requires
        all_valid(rects),
        all_valid(others),
    ensures
        all_valid(cut_all(rects, others)),
        covers(cut_all(rects, others), x, y) <==> covers(rects, x, y) && !covers(others, x, y),
    decreases others.len(),
{
    if others.len() > 0 {
        let head = others.drop_last();
        assert(others =~= head.push(others.last()));
        cut_all_covers_difference(rects, head, x, y);
        cut_each_covers_difference(cut_all(rects, head), others.last(), x, y);
        lemma_covers_push(head, others.last(), x, y);
    }
}

proof fn lemma_untouched_and_fragments(
    rects: Seq<Rectangle>,
    other: Rectangle,
    x: int,
    y: int,
)
    requires
        all_valid(rects),
        other.valid(),
    ensures
        all_valid(untouched(rects, other)),
        all_valid(fragments(rects, other)),
        covers(untouched(rects, other) + fragments(rects, other), x, y) <==> covers(rects, x, y)
            && !other.has(x, y),
    decreases rects.len(),
{
    covers_concat(untouched(rects, other), fragments(rects, other), x, y);
    if rects.len() > 0 {
        let head = rects.drop_last();
        let last = rects.last();
        assert(rects =~= head.push(last));
        lemma_untouched_and_fragments(head, other, x, y);
        covers_concat(untouched(head, other), fragments(head, other), x, y);
        cut_stays_within(last, other);
        cut_covers_difference(last, other, x, y);
        covers_concat(fragments(head, other), cut(last, other), x, y);
        lemma_covers_push(untouched(head, other), last, x, y);
        lemma_covers_push(head, last, x, y);
        if !last.spec_overlaps(other) {
            assert(cut(last, other) =~= Seq::<Rectangle>::empty().push(last));
            lemma_covers_push(Seq::empty(), last, x, y);
        }
    }
}

/// Subtracting one sequence of rectangles from another leaves exactly the pixels of the first
/// that the second does not hold.
pub proof fn subtract_covers_difference(
    rects: Seq<Rectangle>,
    others: Seq<Rectangle>,
    x: int,
    y: int,
)
    requires
        all_valid(rects),
        all_valid(others),
    ensures
        all_valid(subtract_many(rects, others)),
        covers(subtract_many(rects, others), x, y) <==> covers(rects, x, y) && !covers(
            others,
            x,
            y,
        ),
    decreases others.len(),
{
    if others.len() > 0 {
        let head = others.drop_last();
        assert(others =~= head.push(others.last()));
        subtract_covers_difference(rects, head, x, y);
        lemma_untouched_and_fragments(subtract_many(rects, head), others.last(), x, y);
        lemma_covers_push(head, others.last(), x, y);
    }
}

fn push_unless_empty(out: &mut Vec<Rectangle>, r: Rectangle)
    ensures
        final(out)@ == push_filled(old(out)@, r),
{
    if !r.is_empty() {
        out.push(r);
    }
}

impl Rectangle {
    /// What stays of this rectangle without `other`.
    pub fn subtract_rect(self, other: Rectangle) -> (out: Vec<Rectangle>)
        requires
            self.valid(),
            other.valid(),
        ensures
            out@ == cut(self, other),
            all_valid(out@),
    {
        proof {
            cut_stays_within(self, other);
        }
        let mut out: Vec<Rectangle> = Vec::new();
        if !self.overlaps(other) {
            out.push(self);
            assert(out@ =~= seq![self]);
            return out;
        }
        if other.contains_rect(self) {
            return out;
        }
        let x: i32 = crate::utils::geometry::max_i32(self.loc.x, other.loc.x);
        let y: i32 = crate::utils::geometry::max_i32(self.loc.y, other.loc.y);
        let right: i32 = crate::utils::geometry::min_i32(
            self.loc.x + self.size.w,
            other.loc.x + other.size.w,
        );
        let bottom: i32 = crate::utils::geometry::min_i32(
            self.loc.y + self.size.h,
            other.loc.y + other.size.h,
        );
        push_unless_empty(
            &mut out,
            Rectangle { loc: self.loc, size: Size { w: self.size.w, h: y - self.loc.y } },
        );
        push_unless_empty(
            &mut out,
            Rectangle {
                loc: Point { x: self.loc.x, y },
                size: Size { w: x - self.loc.x, h: bottom - y },
            },
        );
        push_unless_empty(
            &mut out,
            Rectangle {
                loc: Point { x: right, y },
                size: Size { w: self.loc.x + self.size.w - right, h: bottom - y },
            },
        );
        push_unless_empty(
            &mut out,
            Rectangle {
                loc: Point { x: self.loc.x, y: bottom },
                size: Size { w: self.size.w, h: self.loc.y + self.size.h - bottom },
            },
        );
        out
    }

    /// What stays of `rects` without `others`.
    pub fn subtract_rects_many_in_place(
        rects: Vec<Rectangle>,
        others: &Vec<Rectangle>,
    ) -> (out: Vec<Rectangle>)
        requires
            all_valid(rects@),
            all_valid(others@),
        ensures
            out@ == subtract_many(rects@, others@),
            all_valid(out@),
    {
        let ghost first = rects@;
        let mut out: Vec<Rectangle> = rects;
        proof {
            assert(others@.take(0) =~= Seq::<Rectangle>::empty());
        }
        for i in 0..others.len()
            invariant
                all_valid(others@),
                all_valid(first),
                all_valid(out@),
                out@ == subtract_many(first, others@.take(i as int)),
        {
            let other = others[i];
            let mut kept: Vec<Rectangle> = Vec::new();
            let mut broken: Vec<Rectangle> = Vec::new();
            assert(out@.take(0) =~= Seq::<Rectangle>::empty());
            for j in 0..out.len()
                invariant
                    other.valid(),
                    all_valid(out@),
                    kept@ == untouched(out@.take(j as int), other),
                    broken@ == fragments(out@.take(j as int), other),
            {
                assert(out@.take(j as int + 1).drop_last() =~= out@.take(j as int));
                let item = out[j];
                if item.overlaps(other) {
                    let mut pieces = item.subtract_rect(other);
                    broken.append(&mut pieces);
                } else {
                    kept.push(item);
                }
            }
            proof {
                assert(out@.take(out.len() as int) =~= out@);
                assert(others@.take(i as int + 1).drop_last() =~= others@.take(i as int));
                assert(others@.take(i as int + 1).last() == other);
                lemma_untouched_and_fragments(out@, other, 0, 0);
            }
            kept.append(&mut broken);
            out = kept;
        }
        assert(others@.take(others.len() as int) =~= others@);
        out
    }

    /// What stays of this rectangle without `others`.
    pub fn subtract_rects(self, others: &Vec<Rectangle>) -> (out: Vec<Rectangle>)
        requires
            self.valid(),
            all_valid(others@),
        ensures
            out@ == subtract_many(seq![self], others@),
            all_valid(out@),
    {
        let mut rects: Vec<Rectangle> = Vec::new();
        rects.push(self);
        assert(rects@ =~= seq![self]);
        Rectangle::subtract_rects_many_in_place(rects, others)
    }
}

/// What stays of `rects` without `others`, each rectangle replaced where it stands.
pub fn cut_out(rects: Vec<Rectangle>, others: &Vec<Rectangle>) -> (out: Vec<Rectangle>)
    requires
        all_valid(rects@),
        all_valid(others@),
    ensures
        out@ == cut_all(rects@, others@),
        all_valid(out@),
{
    let ghost first = rects@;
    let mut out: Vec<Rectangle> = rects;
    proof {
        assert(others@.take(0) =~= Seq::<Rectangle>::empty());
    }
    for i in 0..others.len()
        invariant
            all_valid(others@),
            all_valid(first),
            all_valid(out@),
            out@ == cut_all(first, others@.take(i as int)),
    {
        let other = others[i];
        let mut next: Vec<Rectangle> = Vec::new();
        assert(out@.take(0) =~= Seq::<Rectangle>::empty());
        for j in 0..out.len()
            invariant
                other.valid(),
                all_valid(out@),
                next@ == cut_each(out@.take(j as int), other),
        {
            assert(out@.take(j as int + 1).drop_last() =~= out@.take(j as int));
            let mut pieces = out[j].subtract_rect(other);
            next.append(&mut pieces);
        }
        proof {
            assert(out@.take(out.len() as int) =~= out@);
            assert(others@.take(i as int + 1).drop_last() =~= others@.take(i as int));
            assert(others@.take(i as int + 1).last() == other);
            cut_each_covers_difference(out@, other, 0, 0);
        }
        out = next;
    }
    assert(others@.take(others.len() as int) =~= others@);
    out
}

} // verus!
