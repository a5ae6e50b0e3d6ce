//! Turning the raw damage of a frame into the rectangles that are redrawn.

use vstd::prelude::*;

use crate::utils::geometry::{merge_is_least_upper_bound, Rectangle};
use crate::utils::rects::{all_valid, all_within, covers, covers_concat};

verus! {

/// `rects` without each rectangle that equals the one before it.
pub open spec fn dedup(rects: Seq<Rectangle>) -> Seq<Rectangle>
    decreases rects.len(),
{
    if rects.len() == 0 {
        Seq::empty()
    } else if rects.len() > 1 && rects[rects.len() - 2] == rects.last() {
        dedup(rects.drop_last())
    } else {
        dedup(rects.drop_last()).push(rects.last())
    }
}

/// The common parts of `bounds` and of those of `rects` that overlap it and are not empty.
pub open spec fn clip(rects: Seq<Rectangle>, bounds: Rectangle) -> Seq<Rectangle>
    decreases rects.len(),
{
    if rects.len() == 0 {
        Seq::empty()
    } else if rects.last().spec_overlaps(bounds) && !rects.last().spec_is_empty() {
        clip(rects.drop_last(), bounds).push(rects.last().common(bounds))
    } else {
        clip(rects.drop_last(), bounds)
    }
}

/// Whether two rectangles are to be merged: where they overlap, or already where they touch.
pub open spec fn meets(a: Rectangle, b: Rectangle, touching: bool) -> bool {
    if touching {
        a.spec_overlaps_or_touches(b)
    } else {
        a.spec_overlaps(b)
    }
}

/// The rectangles of `rects` that do not meet `r`, in order.
pub open spec fn apart(rects: Seq<Rectangle>, r: Rectangle, touching: bool) -> Seq<Rectangle>
    decreases rects.len(),
{
    if rects.len() == 0 {
        Seq::empty()
    } else if meets(rects.last(), r, touching) {
        apart(rects.drop_last(), r, touching)
    } else {
        apart(rects.drop_last(), r, touching).push(rects.last())
    }
}

/// The bounding box of `r` and of the rectangles of `rects` that meet it.
pub open spec fn grown(rects: Seq<Rectangle>, r: Rectangle, touching: bool) -> Rectangle
    decreases rects.len(),
{
    if rects.len() == 0 {
        r
    } else if meets(rects.last(), r, touching) {
        grown(rects.drop_last(), r, touching).spec_merge(rects.last())
    } else {
        grown(rects.drop_last(), r, touching)
    }
}

/// `rects` after `r` came in: the rectangles that meet `r` are replaced by one bounding box at
/// the end.
pub open spec fn absorb(rects: Seq<Rectangle>, r: Rectangle, touching: bool) -> Seq<Rectangle> {
    apart(rects, r, touching).push(grown(rects, r, touching))
}

/// `rects` absorbed one after the other.
pub open spec fn merged(rects: Seq<Rectangle>, touching: bool) -> Seq<Rectangle>
    decreases rects.len(),
{
    if rects.len() == 0 {
        Seq::empty()
    } else {
        absorb(merged(rects.drop_last(), touching), rects.last(), touching)
    }
}

/// The rectangles that are redrawn for some raw damage of an output.
pub open spec fn optimized(rects: Seq<Rectangle>, bounds: Rectangle) -> Seq<Rectangle> {
    merged(clip(dedup(rects), bounds), false)
}

proof fn lemma_covers_drop_last(rects: Seq<Rectangle>, x: int, y: int)
    requires
        rects.len() > 0,
    ensures
        covers(rects, x, y) <==> covers(rects.drop_last(), x, y) || rects.last().has(x, y),
{
    assert(rects =~= rects.drop_last() + seq![rects.last()]);
    covers_concat(rects.drop_last(), seq![rects.last()], x, y);
    let one = seq![rects.last()];
    if rects.last().has(x, y) {
        assert(one[0].has(x, y));
    }
    if covers(one, x, y) {
        let i = choose|i: int| 0 <= i < one.len() && (#[trigger] one[i]).has(x, y);
        assert(one[i] == rects.last());
    }
}

proof fn lemma_covers_push_last(rects: Seq<Rectangle>, r: Rectangle, x: int, y: int)
    ensures
        covers(rects.push(r), x, y) <==> covers(rects, x, y) || r.has(x, y),
{
    lemma_covers_drop_last(rects.push(r), x, y);
    assert(rects.push(r).drop_last() =~= rects);
}

/// Leaving out repeated rectangles changes no pixel, and what stays is valid.
pub proof fn dedup_keeps_pixels(rects: Seq<Rectangle>, x: int, y: int)
    requires
        all_valid(rects),
    ensures
        all_valid(dedup(rects)),
        covers(dedup(rects), x, y) <==> covers(rects, x, y),
    decreases rects.len(),
{
    if rects.len() > 0 {
        let head = rects.drop_last();
        dedup_keeps_pixels(head, x, y);
        lemma_covers_drop_last(rects, x, y);
        lemma_covers_push_last(dedup(head), rects.last(), x, y);
        if rects.len() > 1 && rects[rects.len() - 2] == rects.last() {
            assert(head[rects.len() - 2] == rects.last());
            if rects.last().has(x, y) {
                assert(head[rects.len() - 2].has(x, y));
            }
        }
    }
}

/// Clipping keeps exactly the pixels within the bounds.
pub proof fn clip_keeps_inner_pixels(rects: Seq<Rectangle>, bounds: Rectangle, x: int, y: int)
    requires
        all_valid(rects),
        bounds.valid(),
    ensures
        all_valid(clip(rects, bounds)),
        all_within(clip(rects, bounds), bounds),
        covers(clip(rects, bounds), x, y) <==> covers(rects, x, y) && bounds.has(x, y),
    decreases rects.len(),
{
    if rects.len() > 0 {
        let head = rects.drop_last();
        clip_keeps_inner_pixels(head, bounds, x, y);
        lemma_covers_drop_last(rects, x, y);
        lemma_covers_push_last(clip(head, bounds), rects.last().common(bounds), x, y);
    }
}

proof fn lemma_absorb(
    rects: Seq<Rectangle>,
    r: Rectangle,
    touching: bool,
    bounds: Rectangle,
    x: int,
    y: int,
)
    requires
        all_valid(rects),
        r.valid(),
        bounds.valid(),
        all_within(rects, bounds),
        bounds.spec_contains_rect(r),
    ensures
        grown(rects, r, touching).valid(),
        bounds.spec_contains_rect(grown(rects, r, touching)),
        grown(rects, r, touching).spec_contains_rect(r),
        r.size.w > 0 && r.size.h > 0 ==> grown(rects, r, touching).size.w > 0 && grown(rects, r, touching).size.h > 0,
        all_valid(apart(rects, r, touching)),
        all_within(apart(rects, r, touching), bounds),
        covers(rects, x, y) ==> covers(apart(rects, r, touching), x, y) || grown(rects, r, touching).has(x, y),
        forall|i: int|
            0 <= i < apart(rects, r, touching).len() ==> exists|j: int|
                0 <= j < rects.len() && rects[j] == #[trigger] apart(rects, r, touching)[i],
    decreases rects.len(),
{
    if rects.len() > 0 {
        let head = rects.drop_last();
        let last = rects.last();
        lemma_absorb(head, r, touching, bounds, x, y);
        lemma_covers_drop_last(rects, x, y);
        lemma_covers_push_last(apart(head, r, touching), last, x, y);
        assert forall|i: int| 0 <= i < apart(rects, r, touching).len() implies exists|j: int|
            0 <= j < rects.len() && rects[j] == #[trigger] apart(rects, r, touching)[i] by {
            if i < apart(head, r, touching).len() {
                assert(apart(rects, r, touching)[i] == apart(head, r, touching)[i]);
                let j = choose|j: int| 0 <= j < head.len() && head[j] == apart(head, r, touching)[i];
                assert(rects[j] == apart(rects, r, touching)[i]);
            } else {
                assert(rects[rects.len() - 1] == apart(rects, r, touching)[i]);
            }
        }
        if meets(last, r, touching) {
            merge_is_least_upper_bound(grown(head, r, touching), last, bounds);
        }
    }
}

/// No rectangle of the sequence is empty.
pub open spec fn all_filled(rects: Seq<Rectangle>) -> bool {
    forall|i: int| 0 <= i < rects.len() ==> !(#[trigger] rects[i]).spec_is_empty()
}

/// Merging keeps every pixel and stays within the bounds.
pub proof fn merged_keeps_pixels(
    rects: Seq<Rectangle>,
    touching: bool,
    bounds: Rectangle,
    x: int,
    y: int,
)
    requires
        all_valid(rects),
        bounds.valid(),
        all_within(rects, bounds),
    ensures
        all_valid(merged(rects, touching)),
        all_within(merged(rects, touching), bounds),
        all_filled(rects) ==> all_filled(merged(rects, touching)),
        covers(rects, x, y) ==> covers(merged(rects, touching), x, y),
        rects.len() > 0 ==> merged(rects, touching).len() > 0,
    decreases rects.len(),
{
    if rects.len() > 0 {
        let head = rects.drop_last();
        let last = rects.last();
        merged_keeps_pixels(head, touching, bounds, x, y);
        lemma_absorb(merged(head, touching), last, touching, bounds, x, y);
        lemma_covers_drop_last(rects, x, y);
        lemma_covers_push_last(apart(merged(head, touching), last, touching), grown(merged(head, touching), last, touching), x, y);
        if all_filled(rects) {
            assert(all_filled(head)) by {
                assert forall|i: int| 0 <= i < head.len() implies !(
                #[trigger] head[i]).spec_is_empty() by {
                    assert(head[i] == rects[i]);
                }
            }
            assert(!rects[rects.len() - 1].spec_is_empty());
            assert forall|i: int| 0 <= i < merged(rects, touching).len() implies !(
            #[trigger] merged(rects, touching)[i]).spec_is_empty() by {
                if i < apart(merged(head, touching), last, touching).len() {
                    let j = choose|j: int|
                        0 <= j < merged(head, touching).len() && merged(head, touching)[j] == apart(
                            merged(head, touching),
                            last,
                            touching,
                        )[i];
                    assert(merged(rects, touching)[i] == merged(head, touching)[j]);
                }
            }
        }
    }
}

/// What is redrawn are rectangles within the output, and every damaged pixel of the output is
/// among them.
pub proof fn optimized_keeps_damage(rects: Seq<Rectangle>, bounds: Rectangle, x: int, y: int)
    requires
        all_valid(rects),
        bounds.valid(),
    ensures
        all_valid(optimized(rects, bounds)),
        all_within(optimized(rects, bounds), bounds),
        covers(rects, x, y) && bounds.has(x, y) ==> covers(optimized(rects, bounds), x, y),
{
    dedup_keeps_pixels(rects, x, y);
    clip_keeps_inner_pixels(dedup(rects), bounds, x, y);
    merged_keeps_pixels(clip(dedup(rects), bounds), false, bounds, x, y);
}

pub(crate) proof fn lemma_clip_filled(rects: Seq<Rectangle>, bounds: Rectangle)
    requires
        all_valid(rects),
        bounds.valid(),
        !bounds.spec_is_empty(),
    ensures
        all_filled(clip(rects, bounds)),
    decreases rects.len(),
{
    if rects.len() > 0 {
        lemma_clip_filled(rects.drop_last(), bounds);
    }
}

/// No rectangle that is redrawn is empty, unless the output itself is.
pub proof fn optimized_is_filled(rects: Seq<Rectangle>, bounds: Rectangle)
    requires
        all_valid(rects),
        bounds.valid(),
        !bounds.spec_is_empty(),
    ensures
        all_filled(optimized(rects, bounds)),
{
    dedup_keeps_pixels(rects, 0, 0);
    clip_keeps_inner_pixels(dedup(rects), bounds, 0, 0);
    lemma_clip_filled(dedup(rects), bounds);
    merged_keeps_pixels(clip(dedup(rects), bounds), false, bounds, 0, 0);
}

proof fn lemma_dedup_last(rects: Seq<Rectangle>)
    requires
        rects.len() > 0,
    ensures
        dedup(rects).len() > 0,
        dedup(rects).last() == rects.last(),
    decreases rects.len(),
{
    if rects.len() > 1 && rects[rects.len() - 2] == rects.last() {
        lemma_dedup_last(rects.drop_last());
    }
}

proof fn lemma_dedup_keeps(rects: Seq<Rectangle>, r: Rectangle)
    requires
        rects.contains(r),
    ensures
        dedup(rects).contains(r),
    decreases rects.len(),
{
    let head = rects.drop_last();
    let k = choose|k: int| 0 <= k < rects.len() && rects[k] == r;
    if rects.len() > 1 && rects[rects.len() - 2] == rects.last() {
        assert(head[if k < head.len() { k } else { rects.len() - 2 }] == r);
        lemma_dedup_keeps(head, r);
    } else if k < head.len() {
        assert(head[k] == r);
        lemma_dedup_keeps(head, r);
        let i = choose|i: int| 0 <= i < dedup(head).len() && dedup(head)[i] == r;
        assert(dedup(rects)[i] == r);
    } else {
        assert(dedup(rects)[dedup(rects).len() - 1] == r);
    }
}

proof fn lemma_clip_keeps(rects: Seq<Rectangle>, bounds: Rectangle)
    requires
        bounds.valid(),
        !bounds.spec_is_empty(),
        rects.contains(bounds),
    ensures
        clip(rects, bounds).contains(bounds),
    decreases rects.len(),
{
    let head = rects.drop_last();
    let k = choose|k: int| 0 <= k < rects.len() && rects[k] == bounds;
    if rects.last() == bounds {
        assert(bounds.common(bounds) == bounds);
        assert(clip(rects, bounds)[clip(rects, bounds).len() - 1] == bounds);
    } else {
        assert(head[k] == bounds);
        lemma_clip_keeps(head, bounds);
        let i = choose|i: int| 0 <= i < clip(head, bounds).len() && clip(head, bounds)[i] == bounds;
        assert(clip(rects, bounds)[i] == bounds);
    }
}

proof fn lemma_all_meet(rects: Seq<Rectangle>, r: Rectangle, touching: bool)
    requires
        forall|i: int| 0 <= i < rects.len() ==> meets(#[trigger] rects[i], r, touching),
    ensures
        apart(rects, r, touching).len() == 0,
    decreases rects.len(),
{
    if rects.len() > 0 {
        assert(meets(rects[rects.len() - 1], r, touching));
        lemma_all_meet(rects.drop_last(), r, touching);
    }
}

proof fn lemma_merged_whole(rects: Seq<Rectangle>, bounds: Rectangle)
    requires
        all_valid(rects),
        all_filled(rects),
        bounds.valid(),
        all_within(rects, bounds),
        rects.contains(bounds),
    ensures
        merged(rects, false) == seq![bounds],
    decreases rects.len(),
{
    let head = rects.drop_last();
    let last = rects.last();
    let k = choose|k: int| 0 <= k < rects.len() && rects[k] == bounds;
    assert(!rects[k].spec_is_empty());
    assert(!rects[rects.len() - 1].spec_is_empty());
    assert(all_filled(head)) by {
        assert forall|i: int| 0 <= i < head.len() implies !(#[trigger] head[i]).spec_is_empty() by {
            assert(head[i] == rects[i]);
        }
    }
    merged_keeps_pixels(head, false, bounds, 0, 0);
    let before = merged(head, false);
    if last == bounds {
        lemma_all_meet(before, bounds, false);
        lemma_absorb(before, bounds, false, bounds, 0, 0);
    } else {
        assert(head[k] == bounds);
        lemma_merged_whole(head, bounds);
        assert(bounds.spec_contains_rect(rects[rects.len() - 1]));
        assert(before =~= seq![bounds]);
        lemma_all_meet(before, last, false);
        lemma_absorb(before, last, false, bounds, 0, 0);
        reveal_with_fuel(grown, 2);
        merge_is_least_upper_bound(last, bounds, bounds);
    }
    assert(merged(rects, false) =~= seq![bounds]);
}

/// Where the whole of a filled output is damaged, exactly one rectangle is redrawn: all of it.
pub proof fn whole_output_is_one_rectangle(rects: Seq<Rectangle>, bounds: Rectangle)
    requires
        all_valid(rects),
        bounds.valid(),
        !bounds.spec_is_empty(),
        rects.contains(bounds),
    ensures
        optimized(rects, bounds) == seq![bounds],
{
    dedup_keeps_pixels(rects, 0, 0);
    lemma_dedup_keeps(rects, bounds);
    clip_keeps_inner_pixels(dedup(rects), bounds, 0, 0);
    lemma_clip_filled(dedup(rects), bounds);
    lemma_clip_keeps(dedup(rects), bounds);
    lemma_merged_whole(clip(dedup(rects), bounds), bounds);
}

pub(crate) fn dedup_rects(rects: &Vec<Rectangle>) -> (out: Vec<Rectangle>)
    ensures
        out@ == dedup(rects@),
{
    let mut out: Vec<Rectangle> = Vec::new();
    assert(rects@.take(0) =~= Seq::<Rectangle>::empty());
    for i in 0..rects.len()
        invariant
            out@ == dedup(rects@.take(i as int)),
    {
        let ghost next = rects@.take(i as int + 1);
        assert(next.drop_last() =~= rects@.take(i as int));
        if i > 0 {
            proof {
                lemma_dedup_last(rects@.take(i as int));
                assert(next[next.len() - 2] == rects@[i as int - 1]);
            }
            if rects[i - 1] != rects[i] {
                out.push(rects[i]);
            }
        } else {
            out.push(rects[i]);
        }
    }
    assert(rects@.take(rects.len() as int) =~= rects@);
    out
}

fn clip_rects(rects: &Vec<Rectangle>, bounds: Rectangle) -> (out: Vec<Rectangle>)
    requires
        all_valid(rects@),
        bounds.valid(),
    ensures
        out@ == clip(rects@, bounds),
{
    let mut out: Vec<Rectangle> = Vec::new();
    assert(rects@.take(0) =~= Seq::<Rectangle>::empty());
    for i in 0..rects.len()
        invariant
            all_valid(rects@),
            bounds.valid(),
            out@ == clip(rects@.take(i as int), bounds),
    {
        assert(rects@.take(i as int + 1).drop_last() =~= rects@.take(i as int));
        if !rects[i].is_empty() {
            if let Some(part) = rects[i].intersection(bounds) {
                out.push(part);
            }
        }
    }
    assert(rects@.take(rects.len() as int) =~= rects@);
    out
}

fn absorb_rect(
    rects: &Vec<Rectangle>,
    r: Rectangle,
    touching: bool,
    Ghost(bounds): Ghost<Rectangle>,
) -> (out: Vec<Rectangle>)
    requires
        all_valid(rects@),
        r.valid(),
        bounds.valid(),
        all_within(rects@, bounds),
        bounds.spec_contains_rect(r),
    ensures
        out@ == absorb(rects@, r, touching),
{
    let mut out: Vec<Rectangle> = Vec::new();
    let mut all: Rectangle = r;
    assert(rects@.take(0) =~= Seq::<Rectangle>::empty());
    for i in 0..rects.len()
        invariant
            all_valid(rects@),
            r.valid(),
            bounds.valid(),
            all_within(rects@, bounds),
            bounds.spec_contains_rect(r),
            all.valid(),
            bounds.spec_contains_rect(all),
            out@ == apart(rects@.take(i as int), r, touching),
            all == grown(rects@.take(i as int), r, touching),
    {
        assert(rects@.take(i as int + 1).drop_last() =~= rects@.take(i as int));
        let close: bool = if touching {
            rects[i].overlaps_or_touches(r)
        } else {
            rects[i].overlaps(r)
        };
        if close {
            all = all.merge(rects[i]);
        } else {
            out.push(rects[i]);
        }
    }
    assert(rects@.take(rects.len() as int) =~= rects@);
    out.push(all);
    out
}

/// `rects` with those that overlap, or already those that touch, merged into bounding boxes.
/// The ghost rectangle bounds them all.
pub(crate) fn merge_rects(
    rects: &Vec<Rectangle>,
    touching: bool,
    Ghost(bounds): Ghost<Rectangle>,
) -> (out: Vec<Rectangle>)
    requires
        all_valid(rects@),
        bounds.valid(),
        all_within(rects@, bounds),
    ensures
        out@ == merged(rects@, touching),
        all_valid(out@),
        all_within(out@, bounds),
{
    let mut out: Vec<Rectangle> = Vec::new();
    assert(rects@.take(0) =~= Seq::<Rectangle>::empty());
    for i in 0..rects.len()
        invariant
            all_valid(rects@),
            bounds.valid(),
            all_within(rects@, bounds),
            out@ == merged(rects@.take(i as int), touching),
    {
        assert(rects@.take(i as int + 1).drop_last() =~= rects@.take(i as int));
        proof {
            merged_keeps_pixels(rects@.take(i as int), touching, bounds, 0, 0);
        }
        let next = absorb_rect(&out, rects[i], touching, Ghost(bounds));
        out = next;
    }
    assert(rects@.take(rects.len() as int) =~= rects@);
    proof {
        merged_keeps_pixels(rects@, touching, bounds, 0, 0);
    }
    out
}

/// The rectangles of an output that are redrawn for the given raw damage: repeated and
/// outlying rectangles are left out, and overlapping ones are merged.
pub fn optimize(rects: &Vec<Rectangle>, bounds: Rectangle) -> (out: Vec<Rectangle>)
    requires
        all_valid(rects@),
        bounds.valid(),
    ensures
        out@ == optimized(rects@, bounds),
        all_valid(out@),
        all_within(out@, bounds),
{
    let unique = dedup_rects(rects);
    proof {
        dedup_keeps_pixels(rects@, 0, 0);
        clip_keeps_inner_pixels(dedup(rects@), bounds, 0, 0);
        optimized_keeps_damage(rects@, bounds, 0, 0);
    }
    let clipped = clip_rects(&unique, bounds);
    merge_rects(&clipped, false, Ghost(bounds))
}

} // verus!
