//! Drawing of surface trees and lists of elements without damage tracking.

use vstd::prelude::*;

use crate::backend::renderer::output::damage::{
    all_filled, dedup, dedup_keeps_pixels, dedup_rects, merge_rects, merged, merged_keeps_pixels,
};
use crate::backend::renderer::output::drawing::{
    below, descends, hidden_at, lemma_cut_all_filled, lemma_cut_filled, lemma_touched,
    moved_pixels_are_covered,
};
use crate::backend::renderer::output::element::{
    all_moved, all_movable, move_all, renderable, RenderElement,
};
use crate::backend::renderer::output::laws::{all_renderable, local_damage_is_exact};
use crate::backend::renderer::output::{
    copy_rects, draws_view, local_damage, positions, steps, DamageTrackedRenderer, DrawStep,
};
use crate::utils::geometry::Rectangle;
use crate::utils::rects::{
    all_valid, all_within, covers, covers_concat, cut_all, cut_all_covers_difference, cut_out,
    fragments, subtract_covers_difference, subtract_many, untouched,
};

use super::filled;

verus! {

/// A surface of a tree as it stands on the output.
#[derive(Debug)]
pub struct TreeSurface {
    pub dst: Rectangle,
    pub opaque_regions: Vec<Rectangle>,
}

/// A surface to draw and the part of it that is redrawn, relative to the surface.
#[derive(Debug)]
pub struct RenderOp {
    /// The position of the surface among those that were given.
    pub surface: usize,
    pub dst: Rectangle,
    pub damage: Vec<Rectangle>,
}

/// The surfaces and their opaque regions are valid.
pub open spec fn surfaces_valid(surfaces: Seq<TreeSurface>) -> bool {
    forall|i: int|
        0 <= i < surfaces.len() ==> (#[trigger] surfaces[i]).dst.valid() && all_valid(
            surfaces[i].opaque_regions@,
        )
}

/// What of the damage is not hidden by the first `n` surfaces.
pub open spec fn remaining(
    surfaces: Seq<TreeSurface>,
    damage: Seq<Rectangle>,
    n: nat,
) -> Seq<Rectangle>
    decreases n,
{
    if n == 0 {
        damage
    } else {
        cut_all(remaining(surfaces, damage, (n - 1) as nat), surfaces[n - 1].opaque_regions@)
    }
}

/// What is drawn of the first `n` surfaces, the farthest first.
pub open spec fn tree_ops(
    surfaces: Seq<TreeSurface>,
    damage: Seq<Rectangle>,
    n: nat,
) -> Seq<(int, Rectangle, Seq<Rectangle>)>
    decreases n,
{
    if n == 0 {
        Seq::empty()
    } else {
        let nearer = tree_ops(surfaces, damage, (n - 1) as nat);
        let dst = surfaces[n - 1].dst;
        let local = local_damage(remaining(surfaces, damage, (n - 1) as nat), dst);
        if local.len() == 0 {
            nearer
        } else {
            seq![(n - 1, dst, local)] + nearer
        }
    }
}

/// The operations as mathematical values.
pub open spec fn ops_view(ops: Seq<RenderOp>) -> Seq<(int, Rectangle, Seq<Rectangle>)> {
    Seq::new(ops.len(), |i: int| (ops[i].surface as int, ops[i].dst, ops[i].damage@))
}

/// Decides how a tree of surfaces is drawn. `surfaces` are the displayed surfaces of the tree,
/// the nearest first; each hides the damage behind its opaque regions from those that follow.
/// The operations come the farthest first; surfaces without damage have none.
pub fn draw_surface_tree(surfaces: &Vec<TreeSurface>, damage: &Vec<Rectangle>) -> (ops: Vec<
    RenderOp,
>)
    requires
        surfaces_valid(surfaces@),
        all_valid(damage@),
    ensures
        ops_view(ops@) == tree_ops(surfaces@, damage@, surfaces@.len()),
{
    let mut left = copy_rects(damage);
    let mut ops: Vec<RenderOp> = Vec::new();
    assert(ops_view(ops@) =~= tree_ops(surfaces@, damage@, 0));
    for i in 0..surfaces.len()
        invariant
            surfaces_valid(surfaces@),
            all_valid(left@),
            left@ == remaining(surfaces@, damage@, i as nat),
            ops_view(ops@) == tree_ops(surfaces@, damage@, i as nat),
    {
        let dst = surfaces[i].dst;
        assert(surfaces@[i as int].dst.valid());
        let local = DamageTrackedRenderer::damage_on(&left, dst);
        let ghost before = ops@;
        if local.len() > 0 {
            ops.insert(0, RenderOp { surface: i, dst, damage: local });
            assert(ops_view(ops@) =~= seq![(i as int, dst, local@)] + ops_view(before));
        }
        assert(ops_view(ops@) =~= tree_ops(surfaces@, damage@, (i + 1) as nat));
        left = cut_out(left, &surfaces[i].opaque_regions);
    }
    ops
}

/// The outcome of drawing a tree: the last error, if there was one.
pub fn last_error<E>(outcomes: Vec<Result<(), E>>) -> (r: Result<(), E>)
    ensures
        match r {
            Ok(_) => forall|i: int| 0 <= i < outcomes@.len() ==> (#[trigger] outcomes@[i]) is Ok,
            Err(e) => exists|i: int|
                0 <= i < outcomes@.len() && #[trigger] outcomes@[i] == Err::<(), E>(e) && (forall|
                    j: int,
                |
                    i < j < outcomes@.len() ==> (#[trigger] outcomes@[j]) is Ok),
        },
{
    let ghost all = outcomes@;
    let mut rest: Vec<Result<(), E>> = outcomes;
    while rest.len() > 0
        invariant
            all == outcomes@,
            rest@ == all.take(rest@.len() as int),
            rest@.len() <= all.len(),
            forall|j: int| rest@.len() <= j < all.len() ==> (#[trigger] all[j]) is Ok,
        decreases rest@.len(),
    {
        let ghost before = rest@;
        let last = rest.pop();
        assert(rest@ =~= all.take(rest@.len() as int));
        match last {
            Some(Err(e)) => {
                assert(all[before.len() - 1] == Err::<(), E>(e));
                return Err(e);
            },
            _ => {
                assert(all[before.len() - 1] is Ok);
            },
        }
    }
    Ok(())
}

proof fn lemma_remaining(
    surfaces: Seq<TreeSurface>,
    damage: Seq<Rectangle>,
    n: nat,
    x: int,
    y: int,
)
    requires
        surfaces_valid(surfaces),
        all_valid(damage),
        n <= surfaces.len(),
    ensures
        all_valid(remaining(surfaces, damage, n)),
        covers(remaining(surfaces, damage, n), x, y) <==> covers(damage, x, y) && (forall|j: int|
            0 <= j < n ==> !covers((#[trigger] surfaces[j]).opaque_regions@, x, y)),
    decreases n,
{
    if n > 0 {
        lemma_remaining(surfaces, damage, (n - 1) as nat, x, y);
        assert(surfaces[n - 1].dst.valid());
        cut_all_covers_difference(
            remaining(surfaces, damage, (n - 1) as nat),
            surfaces[n - 1].opaque_regions@,
            x,
            y,
        );
    }
}

/// A surface of a tree is redrawn exactly where it is damaged and no surface in front of it is
/// opaque.
pub proof fn tree_draws_what_shows(
    surfaces: Seq<TreeSurface>,
    damage: Seq<Rectangle>,
    i: int,
    x: int,
    y: int,
)
    requires
        surfaces_valid(surfaces),
        all_valid(damage),
        0 <= i < surfaces.len(),
    ensures
        covers(
            local_damage(remaining(surfaces, damage, i as nat), surfaces[i].dst),
            x - surfaces[i].dst.loc.x,
            y - surfaces[i].dst.loc.y,
        ) <==> {
            &&& covers(damage, x, y)
            &&& surfaces[i].dst.has(x, y)
            &&& forall|j: int|
                0 <= j < i ==> !covers((#[trigger] surfaces[j]).opaque_regions@, x, y)
        },
{
    lemma_remaining(surfaces, damage, i as nat, x, y);
    assert(surfaces[i].dst.valid());
    local_damage_is_exact(remaining(surfaces, damage, i as nat), surfaces[i].dst, x, y);
}

/// Whether a surface of a tree has a damaged pixel at `(x, y)` that shows: no surface nearer than it
/// is opaque there.
pub open spec fn shows_damage(
    surfaces: Seq<TreeSurface>,
    damage: Seq<Rectangle>,
    i: int,
    x: int,
    y: int,
) -> bool {
    &&& surfaces[i].dst.has(x, y)
    &&& covers(damage, x, y)
    &&& forall|j: int| 0 <= j < i ==> !covers((#[trigger] surfaces[j]).opaque_regions@, x, y)
}

/// Whether some operation is for the surface at `i`.
pub open spec fn has_op(ops: Seq<(int, Rectangle, Seq<Rectangle>)>, i: int) -> bool {
    exists|s: int| 0 <= s < ops.len() && (#[trigger] ops[s]).0 == i
}

proof fn lemma_remaining_filled(surfaces: Seq<TreeSurface>, damage: Seq<Rectangle>, n: nat)
    requires
        surfaces_valid(surfaces),
        all_valid(damage),
        all_filled(damage),
        n <= surfaces.len(),
    ensures
        all_filled(remaining(surfaces, damage, n)),
    decreases n,
{
    if n > 0 {
        lemma_remaining_filled(surfaces, damage, (n - 1) as nat);
        lemma_remaining(surfaces, damage, (n - 1) as nat, 0, 0);
        assert(surfaces[n - 1].dst.valid());
        lemma_cut_all_filled(
            remaining(surfaces, damage, (n - 1) as nat),
            surfaces[n - 1].opaque_regions@,
        );
    }
}

proof fn lemma_tree_ops(surfaces: Seq<TreeSurface>, damage: Seq<Rectangle>, n: nat)
    requires
        n <= surfaces.len(),
    ensures
        ({
            let ops = tree_ops(surfaces, damage, n);
            &&& forall|s: int|
                0 <= s < ops.len() ==> {
                    let i = (#[trigger] ops[s]).0;
                    &&& 0 <= i < n
                    &&& ops[s].1 == surfaces[i].dst
                    &&& ops[s].2 == local_damage(
                        remaining(surfaces, damage, i as nat),
                        surfaces[i].dst,
                    )
                    &&& ops[s].2.len() > 0
                }
            &&& forall|s: int, t: int|
                0 <= s < t < ops.len() ==> (#[trigger] ops[s]).0 > (#[trigger] ops[t]).0
            &&& forall|i: int|
                0 <= i < n && local_damage(
                    remaining(surfaces, damage, i as nat),
                    (#[trigger] surfaces[i]).dst,
                ).len() > 0 ==> has_op(ops, i)
        }),
    decreases n,
{
    if n > 0 {
        lemma_tree_ops(surfaces, damage, (n - 1) as nat);
        let nearer = tree_ops(surfaces, damage, (n - 1) as nat);
        let ops = tree_ops(surfaces, damage, n);
        if ops != nearer {
            assert(ops[0].0 == n - 1);
            assert forall|s: int| 0 < s < ops.len() implies (#[trigger] ops[s]) == nearer[s - 1] by {
            }
        }
        assert forall|i: int|
            0 <= i < n && local_damage(
                remaining(surfaces, damage, i as nat),
                (#[trigger] surfaces[i]).dst,
            ).len() > 0 implies has_op(ops, i) by {
            if i < n - 1 {
                let s = choose|s: int| 0 <= s < nearer.len() && (#[trigger] nearer[s]).0 == i;
                if ops != nearer {
                    assert(ops[s + 1] == nearer[s]);
                }
            }
        }
    }
}

/// A tree is drawn from the farthest surface to the nearest, each surface at most once and at its
/// place. A surface is drawn if one of its damaged pixels shows, and where neither it nor the
/// damage is empty only then; what is redrawn of it are exactly those of its pixels.
pub proof fn tree_is_drawn_farthest_first(surfaces: Seq<TreeSurface>, damage: Seq<Rectangle>)
    requires
        surfaces_valid(surfaces),
        all_valid(damage),
    ensures
        ({
            let ops = tree_ops(surfaces, damage, surfaces.len());
            &&& forall|s: int, t: int|
                0 <= s < t < ops.len() ==> (#[trigger] ops[s]).0 > (#[trigger] ops[t]).0
            &&& forall|s: int|
                0 <= s < ops.len() ==> 0 <= (#[trigger] ops[s]).0 < surfaces.len() && ops[s].1
                    == surfaces[ops[s].0].dst
            &&& forall|i: int, x: int, y: int|
                0 <= i < surfaces.len() && #[trigger] shows_damage(surfaces, damage, i, x, y)
                    ==> has_op(ops, i)
            &&& forall|i: int| #[trigger]
                has_op(ops, i) && all_filled(damage) && !surfaces[i].dst.spec_is_empty()
                    ==> exists|x: int, y: int| #[trigger] shows_damage(surfaces, damage, i, x, y)
            &&& forall|s: int, x: int, y: int|
                0 <= s < ops.len() ==> (#[trigger] covers(ops[s].2, x, y) <==> shows_damage(
                    surfaces,
                    damage,
                    ops[s].0,
                    x + ops[s].1.loc.x,
                    y + ops[s].1.loc.y,
                ))
        }),
{
    let ops = tree_ops(surfaces, damage, surfaces.len());
    lemma_tree_ops(surfaces, damage, surfaces.len());
    assert forall|i: int, x: int, y: int|
        0 <= i < surfaces.len() && #[trigger] shows_damage(surfaces, damage, i, x, y) implies has_op(
        ops,
        i,
    ) by {
        tree_draws_what_shows(surfaces, damage, i, x, y);
        assert(surfaces[i].dst.valid());
    }
    assert forall|i: int| #[trigger]
        has_op(ops, i) && all_filled(damage) && !surfaces[i].dst.spec_is_empty() implies exists|
        x: int,
        y: int,
    | #[trigger] shows_damage(surfaces, damage, i, x, y) by {
        let s = choose|s: int| 0 <= s < ops.len() && (#[trigger] ops[s]).0 == i;
        let left = remaining(surfaces, damage, i as nat);
        assert(surfaces[i].dst.valid());
        lemma_remaining(surfaces, damage, i as nat, 0, 0);
        lemma_remaining_filled(surfaces, damage, i as nat);
        lemma_touched(left, surfaces[i].dst);
        let (x, y) = choose|x: int, y: int| #[trigger]
            surfaces[i].dst.has(x, y) && covers(left, x, y);
        lemma_remaining(surfaces, damage, i as nat, x, y);
        assert(shows_damage(surfaces, damage, i, x, y));
    }
    assert forall|s: int, x: int, y: int| 0 <= s < ops.len() implies (#[trigger] covers(
        ops[s].2,
        x,
        y,
    ) <==> shows_damage(
        surfaces,
        damage,
        ops[s].0,
        x + ops[s].1.loc.x,
        y + ops[s].1.loc.y,
    )) by {
        let dst = ops[s].1;
        tree_draws_what_shows(surfaces, damage, ops[s].0, x + dst.loc.x, y + dst.loc.y);
    }
}

/// What the front to back pass over elements has found.
#[verifier::ext_equal]
pub struct Survey {
    pub damage: Seq<Rectangle>,
    pub opaque: Seq<Rectangle>,
    /// The positions of the visible elements, the rearmost first.
    pub drawn: Seq<int>,
}

/// The pass over the first `n` elements, front to back.
pub open spec fn survey<E: RenderElement>(
    elements: Seq<E>,
    damage: Seq<Rectangle>,
    n: nat,
) -> Survey
    decreases n,
{
    if n == 0 {
        Survey { damage: Seq::empty(), opaque: Seq::empty(), drawn: Seq::empty() }
    } else {
        let before = survey(elements, damage, (n - 1) as nat);
        let element = elements[n - 1];
        if subtract_many(seq![element.spec_geometry()], before.opaque).len() == 0 {
            before
        } else {
            Survey {
                damage: before.damage + subtract_many(damage, before.opaque),
                opaque: before.opaque + all_moved(
                    element.spec_opaque_regions(),
                    element.spec_geometry().loc,
                ),
                drawn: seq![n - 1] + before.drawn,
            }
        }
    }
}

/// The damage that is reported for drawing the elements.
pub open spec fn reported<E: RenderElement>(elements: Seq<E>, damage: Seq<Rectangle>) -> Seq<
    Rectangle,
> {
    merged(filled(dedup(survey(elements, damage, elements.len()).damage)), true)
}

proof fn lemma_filled_keeps(rects: Seq<Rectangle>, bounds: Rectangle)
    requires
        all_valid(rects),
        all_within(rects, bounds),
    ensures
        all_valid(filled(rects)),
        all_within(filled(rects), bounds),
    decreases rects.len(),
{
    if rects.len() > 0 {
        assert(rects[rects.len() - 1].valid());
        assert(bounds.spec_contains_rect(rects[rects.len() - 1]));
        lemma_filled_keeps(rects.drop_last(), bounds);
    }
}

proof fn lemma_dedup_keeps(rects: Seq<Rectangle>, bounds: Rectangle)
    requires
        all_valid(rects),
        all_within(rects, bounds),
    ensures
        all_valid(dedup(rects)),
        all_within(dedup(rects), bounds),
    decreases rects.len(),
{
    if rects.len() > 0 {
        assert(rects[rects.len() - 1].valid());
        assert(bounds.spec_contains_rect(rects[rects.len() - 1]));
        lemma_dedup_keeps(rects.drop_last(), bounds);
    }
}

fn drop_empty(rects: &Vec<Rectangle>) -> (out: Vec<Rectangle>)
    ensures
        out@ == filled(rects@),
{
    let mut out: Vec<Rectangle> = Vec::new();
    assert(rects@.take(0) =~= Seq::<Rectangle>::empty());
    for i in 0..rects.len()
        invariant
            out@ == filled(rects@.take(i as int)),
    {
        assert(rects@.take(i as int + 1).drop_last() =~= rects@.take(i as int));
        if !rects[i].is_empty() {
            out.push(rects[i]);
        }
    }
    assert(rects@.take(rects.len() as int) =~= rects@);
    out
}

/// Decides how a list of elements, given front to back, is drawn into the given damage.
///
/// Elements that are completely hidden are left out. Nothing is drawn if none of the damage
/// can be seen; otherwise the visible damage and the drawing steps, back to front, are
/// returned.
pub fn draw_render_elements<E: RenderElement>(elements: &Vec<E>, damage: &Vec<Rectangle>) -> (r:
    Option<(Vec<Rectangle>, Vec<DrawStep>)>)
    requires
        forall|j: int| 0 <= j < elements.len() ==> renderable(#[trigger] elements@[j]),
        all_valid(damage@),
        exists|bounds: Rectangle| bounds.valid() && #[trigger] all_within(damage@, bounds),
    ensures
        r is None <==> reported(elements@, damage@).len() == 0,
        r matches Some((render_damage, draws)) ==> {
            let drawn = survey(elements@, damage@, elements@.len()).drawn;
            &&& render_damage@ == reported(elements@, damage@)
            &&& draws_view(draws@) == steps(elements@, drawn, damage@, drawn.len())
        },
{
    let ghost bounds = choose|bounds: Rectangle|
        bounds.valid() && #[trigger] all_within(damage@, bounds);
    let mut opaque: Vec<Rectangle> = Vec::new();
    let mut drawn: Vec<usize> = Vec::new();
    let mut visible: Vec<Rectangle> = Vec::new();
    assert(positions(drawn@) =~= Seq::<int>::empty());
    assert(opaque@ =~= Seq::<Rectangle>::empty());
    assert(visible@ =~= Seq::<Rectangle>::empty());
    for i in 0..elements.len()
        invariant
            forall|j: int| 0 <= j < elements.len() ==> renderable(#[trigger] elements@[j]),
            forall|j: int| 0 <= j < drawn.len() ==> (#[trigger] drawn@[j]) < elements.len(),
            all_valid(damage@),
            bounds.valid(),
            all_within(damage@, bounds),
            all_valid(opaque@),
            all_valid(visible@),
            all_within(visible@, bounds),
            ({
                let found = survey(elements@, damage@, i as nat);
                &&& visible@ == found.damage
                &&& opaque@ == found.opaque
                &&& positions(drawn@) == found.drawn
            }),
    {
        let element: &E = &elements[i];
        assert(renderable(elements@[i as int]));
        let geometry = element.geometry();
        let left = geometry.subtract_rects(&opaque);
        if left.len() > 0 {
            let mut shown = Rectangle::subtract_rects_many_in_place(copy_rects(damage), &opaque);
            proof {
                super::region::subtract_stays_within(damage@, opaque@, bounds);
            }
            visible.append(&mut shown);
            let regions = element.opaque_regions();
            let mut placed = move_all(&regions, geometry.loc);
            opaque.append(&mut placed);
            let ghost before = drawn@;
            drawn.insert(0, i);
            proof {
                assert(drawn@ =~= seq![i] + before);
                assert(positions(drawn@) =~= seq![i as int] + positions(before));
            }
        }
    }
    let unique = dedup_rects(&visible);
    let kept = drop_empty(&unique);
    proof {
        lemma_dedup_keeps(visible@, bounds);
        lemma_filled_keeps(dedup(visible@), bounds);
    }
    let render_damage = merge_rects(&kept, true, Ghost(bounds));
    if render_damage.len() == 0 {
        return None;
    }
    let draws = DamageTrackedRenderer::draw_steps(damage, elements, &drawn);
    Some((render_damage, draws))
}

proof fn lemma_survey_grows<E: RenderElement>(
    elements: Seq<E>,
    damage: Seq<Rectangle>,
    m: nat,
    n: nat,
    x: int,
    y: int,
)
    requires
        m <= n <= elements.len(),
    ensures
        covers(survey(elements, damage, m).damage, x, y) ==> covers(
            survey(elements, damage, n).damage,
            x,
            y,
        ),
    decreases n,
{
    if m < n {
        lemma_survey_grows(elements, damage, m, (n - 1) as nat, x, y);
        let before = survey(elements, damage, (n - 1) as nat);
        covers_concat(before.damage, subtract_many(damage, before.opaque), x, y);
    }
}

proof fn lemma_survey_valid<E: RenderElement>(
    elements: Seq<E>,
    damage: Seq<Rectangle>,
    n: nat,
    bounds: Rectangle,
)
    requires
        all_renderable(elements),
        all_valid(damage),
        all_within(damage, bounds),
        n <= elements.len(),
    ensures
        all_valid(survey(elements, damage, n).opaque),
        all_valid(survey(elements, damage, n).damage),
        all_within(survey(elements, damage, n).damage, bounds),
    decreases n,
{
    if n > 0 {
        lemma_survey_valid(elements, damage, (n - 1) as nat, bounds);
        let before = survey(elements, damage, (n - 1) as nat);
        let element = elements[n - 1];
        assert(renderable(element));
        assert(all_movable(element.spec_opaque_regions(), element.spec_geometry().loc));
        super::region::subtract_stays_within(damage, before.opaque, bounds);
    }
}

proof fn lemma_filled_covers(rects: Seq<Rectangle>, x: int, y: int)
    requires
        all_valid(rects),
    ensures
        covers(filled(rects), x, y) <==> covers(rects, x, y),
    decreases rects.len(),
{
    if rects.len() > 0 {
        let head = rects.drop_last();
        let one = seq![rects.last()];
        assert(rects[rects.len() - 1].valid());
        lemma_filled_covers(head, x, y);
        assert(rects =~= head + one);
        covers_concat(head, one, x, y);
        assert(filled(head).push(rects.last()) =~= filled(head) + one);
        covers_concat(filled(head), one, x, y);
        if covers(one, x, y) {
            let i = choose|i: int| 0 <= i < one.len() && (#[trigger] one[i]).has(x, y);
            assert(one[i] == rects.last());
        }
    }
}

/// Damage that some element shows, since neither that element nor the damage is hidden by the
/// elements in front, is among the damage that is reported.
pub proof fn shown_damage_is_reported<E: RenderElement>(
    elements: Seq<E>,
    damage: Seq<Rectangle>,
    bounds: Rectangle,
    i: int,
    x: int,
    y: int,
)
    requires
        all_renderable(elements),
        all_valid(damage),
        bounds.valid(),
        all_within(damage, bounds),
        0 <= i < elements.len(),
        subtract_many(
            seq![elements[i].spec_geometry()],
            survey(elements, damage, i as nat).opaque,
        ).len() > 0,
        covers(damage, x, y),
        !covers(survey(elements, damage, i as nat).opaque, x, y),
    ensures
        covers(reported(elements, damage), x, y),
{
    let before = survey(elements, damage, i as nat);
    lemma_survey_valid(elements, damage, i as nat, bounds);
    subtract_covers_difference(damage, before.opaque, x, y);
    covers_concat(before.damage, subtract_many(damage, before.opaque), x, y);
    lemma_survey_grows(elements, damage, (i + 1) as nat, elements.len(), x, y);
    lemma_survey_valid(elements, damage, elements.len(), bounds);
    let all = survey(elements, damage, elements.len()).damage;
    dedup_keeps_pixels(all, x, y);
    lemma_dedup_keeps(all, bounds);
    lemma_filled_covers(dedup(all), x, y);
    lemma_filled_keeps(dedup(all), bounds);
    merged_keeps_pixels(filled(dedup(all)), true, bounds, x, y);
}

proof fn lemma_survey_drawn<E: RenderElement>(
    elements: Seq<E>,
    damage: Seq<Rectangle>,
    n: nat,
    i: int,
)
    requires
        0 <= i,
        n <= elements.len(),
    ensures
        below(survey(elements, damage, n).drawn, n as int),
        descends(survey(elements, damage, n).drawn),
        survey(elements, damage, n).drawn.contains(i) <==> i < n && subtract_many(
            seq![elements[i].spec_geometry()],
            survey(elements, damage, i as nat).opaque,
        ).len() > 0,
    decreases n,
{
    if n > 0 {
        lemma_survey_drawn(elements, damage, (n - 1) as nat, i);
        let before = survey(elements, damage, (n - 1) as nat);
        let after = survey(elements, damage, n);
        if subtract_many(seq![elements[n - 1].spec_geometry()], before.opaque).len() > 0 {
            assert(after.drawn[0] == n - 1);
            assert forall|z: int| 0 < z < after.drawn.len() implies (#[trigger] after.drawn[z])
                == before.drawn[z - 1] by {}
            if before.drawn.contains(i) {
                let z = choose|z: int| 0 <= z < before.drawn.len() && before.drawn[z] == i;
                assert(after.drawn[z + 1] == i);
            }
            if after.drawn.contains(i) && i != n - 1 {
                let z = choose|z: int| 0 <= z < after.drawn.len() && after.drawn[z] == i;
                assert(before.drawn[z - 1] == i);
            }
        }
    }
}

proof fn lemma_survey_opaque<E: RenderElement>(
    elements: Seq<E>,
    damage: Seq<Rectangle>,
    i: nat,
    n: nat,
    x: int,
    y: int,
)
    requires
        all_renderable(elements),
        i <= n <= elements.len(),
    ensures
        all_valid(survey(elements, damage, i).opaque),
        covers(survey(elements, damage, i).opaque, x, y) <==> hidden_at(
            elements,
            survey(elements, damage, n).drawn,
            i as int,
            x,
            y,
        ),
    decreases i,
{
    let drawn = survey(elements, damage, n).drawn;
    if i > 0 {
        lemma_survey_opaque(elements, damage, (i - 1) as nat, n, x, y);
        lemma_survey_drawn(elements, damage, n, i - 1);
        let before = survey(elements, damage, (i - 1) as nat);
        let element = elements[i - 1];
        let loc = element.spec_geometry().loc;
        assert(renderable(element));
        assert(all_movable(element.spec_opaque_regions(), loc));
        covers_concat(before.opaque, all_moved(element.spec_opaque_regions(), loc), x, y);
        moved_pixels_are_covered(element.spec_opaque_regions(), loc, x, y);
        if hidden_at(elements, drawn, i as int, x, y) {
            let j = choose|j: int|
                0 <= j < i && #[trigger] drawn.contains(j) && covers(
                    elements[j].spec_opaque_regions(),
                    x - elements[j].spec_geometry().loc.x,
                    y - elements[j].spec_geometry().loc.y,
                );
            if j < i - 1 {
                assert(hidden_at(elements, drawn, i - 1, x, y));
            }
        }
        if hidden_at(elements, drawn, i - 1, x, y) {
            let j = choose|j: int|
                0 <= j < i - 1 && #[trigger] drawn.contains(j) && covers(
                    elements[j].spec_opaque_regions(),
                    x - elements[j].spec_geometry().loc.x,
                    y - elements[j].spec_geometry().loc.y,
                );
            assert(drawn.contains(j));
            assert(hidden_at(elements, drawn, i as int, x, y));
        }
        if drawn.contains(i - 1) && covers(
            element.spec_opaque_regions(),
            x - loc.x,
            y - loc.y,
        ) {
            assert(hidden_at(elements, drawn, i as int, x, y));
        }
    }
}

proof fn lemma_parts_filled(rects: Seq<Rectangle>, other: Rectangle)
    requires
        all_valid(rects),
        all_filled(rects),
    ensures
        all_filled(untouched(rects, other)),
        all_filled(fragments(rects, other)),
    decreases rects.len(),
{
    if rects.len() > 0 {
        assert(rects[rects.len() - 1].valid());
        assert(!rects[rects.len() - 1].spec_is_empty());
        lemma_parts_filled(rects.drop_last(), other);
        lemma_cut_filled(rects.last(), other);
    }
}

proof fn lemma_subtract_filled(rects: Seq<Rectangle>, others: Seq<Rectangle>)
    requires
        all_valid(rects),
        all_filled(rects),
        all_valid(others),
    ensures
        all_filled(subtract_many(rects, others)),
    decreases others.len(),
{
    if others.len() > 0 {
        let head = others.drop_last();
        lemma_subtract_filled(rects, head);
        subtract_covers_difference(rects, head, 0, 0);
        lemma_parts_filled(subtract_many(rects, head), others.last());
    }
}

/// Of a list of elements an element with pixels is drawn exactly if one of them is not behind an
/// opaque region of an element that is drawn in front of it; the elements are drawn from back to
/// front, each at most once.
pub proof fn listed_elements_that_show_are_drawn<E: RenderElement>(
    elements: Seq<E>,
    damage: Seq<Rectangle>,
    i: int,
)
    requires
        all_renderable(elements),
        0 <= i < elements.len(),
        !elements[i].spec_geometry().spec_is_empty(),
    ensures
        ({
            let drawn = survey(elements, damage, elements.len()).drawn;
            let geometry = elements[i].spec_geometry();
            &&& below(drawn, elements.len() as int)
            &&& descends(drawn)
            &&& drawn.contains(i) <==> exists|x: int, y: int| #[trigger]
                geometry.has(x, y) && !hidden_at(elements, drawn, i, x, y)
        }),
{
    let drawn = survey(elements, damage, elements.len()).drawn;
    let geometry = elements[i].spec_geometry();
    let opaque = survey(elements, damage, i as nat).opaque;
    let alone = seq![geometry];
    let left = subtract_many(alone, opaque);
    assert(renderable(elements[i]));
    lemma_survey_drawn(elements, damage, elements.len(), i);
    lemma_survey_opaque(elements, damage, i as nat, elements.len(), 0, 0);
    assert(alone[0] == geometry);
    lemma_subtract_filled(alone, opaque);
    subtract_covers_difference(alone, opaque, 0, 0);
    if left.len() > 0 {
        let x = left[0].loc.x as int;
        let y = left[0].loc.y as int;
        assert(left[0].valid());
        assert(left[0].has(x, y));
        subtract_covers_difference(alone, opaque, x, y);
        lemma_survey_opaque(elements, damage, i as nat, elements.len(), x, y);
        assert(geometry.has(x, y));
    }
    if exists|x: int, y: int| #[trigger]
        geometry.has(x, y) && !hidden_at(elements, drawn, i, x, y) {
        let (x, y) = choose|x: int, y: int| #[trigger]
            geometry.has(x, y) && !hidden_at(elements, drawn, i, x, y);
        assert(alone[0].has(x, y));
        subtract_covers_difference(alone, opaque, x, y);
        lemma_survey_opaque(elements, damage, i as nat, elements.len(), x, y);
    }
}

/// Whether a drawn element shows the pixel: no drawn element in front of it is opaque there.
pub open spec fn shows_through<E: RenderElement>(
    elements: Seq<E>,
    drawn: Seq<int>,
    n: int,
    x: int,
    y: int,
) -> bool {
    exists|i: int|
        0 <= i < n && #[trigger] drawn.contains(i) && !hidden_at(elements, drawn, i, x, y)
}

proof fn lemma_survey_damage<E: RenderElement>(
    elements: Seq<E>,
    damage: Seq<Rectangle>,
    n: nat,
    x: int,
    y: int,
)
    requires
        all_renderable(elements),
        all_valid(damage),
        n <= elements.len(),
    ensures
        covers(survey(elements, damage, n).damage, x, y) <==> covers(damage, x, y)
            && shows_through(
            elements,
            survey(elements, damage, elements.len()).drawn,
            n as int,
            x,
            y,
        ),
    decreases n,
{
    let drawn = survey(elements, damage, elements.len()).drawn;
    if n > 0 {
        let i = (n - 1) as nat;
        let before = survey(elements, damage, i);
        lemma_survey_damage(elements, damage, i, x, y);
        lemma_survey_drawn(elements, damage, elements.len(), i as int);
        lemma_survey_opaque(elements, damage, i, elements.len(), x, y);
        covers_concat(before.damage, subtract_many(damage, before.opaque), x, y);
        subtract_covers_difference(damage, before.opaque, x, y);
        if shows_through(elements, drawn, n as int, x, y) {
            let k = choose|k: int|
                0 <= k < n && #[trigger] drawn.contains(k) && !hidden_at(elements, drawn, k, x, y);
            if k < i {
                assert(shows_through(elements, drawn, i as int, x, y));
            }
        }
        if shows_through(elements, drawn, i as int, x, y) {
            let k = choose|k: int|
                0 <= k < i && #[trigger] drawn.contains(k) && !hidden_at(elements, drawn, k, x, y);
            assert(drawn.contains(k));
            assert(shows_through(elements, drawn, n as int, x, y));
        }
        if drawn.contains(i as int) && !hidden_at(elements, drawn, i as int, x, y) {
            assert(shows_through(elements, drawn, n as int, x, y));
        }
    }
}

/// A pixel of the damage counts for a list of elements exactly if one of the drawn elements shows
/// it.
pub proof fn damage_counts_where_it_shows<E: RenderElement>(
    elements: Seq<E>,
    damage: Seq<Rectangle>,
    x: int,
    y: int,
)
    requires
        all_renderable(elements),
        all_valid(damage),
    ensures
        covers(survey(elements, damage, elements.len()).damage, x, y) <==> covers(damage, x, y)
            && shows_through(
            elements,
            survey(elements, damage, elements.len()).drawn,
            elements.len() as int,
            x,
            y,
        ),
{
    lemma_survey_damage(elements, damage, elements.len(), x, y);
}

proof fn lemma_filled_has_pixel(rects: Seq<Rectangle>, bounds: Rectangle)
    requires
        all_valid(rects),
        all_within(rects, bounds),
        filled(dedup(rects)).len() > 0,
    ensures
        exists|x: int, y: int| #[trigger] covers(rects, x, y),
{
    let kept = filled(dedup(rects));
    lemma_dedup_keeps(rects, bounds);
    lemma_filled_keeps(dedup(rects), bounds);
    lemma_is_filled(dedup(rects));
    let x = kept[0].loc.x as int;
    let y = kept[0].loc.y as int;
    assert(kept[0].valid());
    assert(!kept[0].spec_is_empty());
    assert(kept[0].has(x, y));
    lemma_filled_covers(dedup(rects), x, y);
    dedup_keeps_pixels(rects, x, y);
    assert(covers(rects, x, y));
}

proof fn lemma_is_filled(rects: Seq<Rectangle>)
    ensures
        all_filled(filled(rects)),
    decreases rects.len(),
{
    if rects.len() > 0 {
        lemma_is_filled(rects.drop_last());
    }
}

/// Damage is reported for a list of elements exactly if some pixel of it is shown by a drawn
/// element.
pub proof fn damage_is_reported_if_any_shows<E: RenderElement>(
    elements: Seq<E>,
    damage: Seq<Rectangle>,
    bounds: Rectangle,
)
    requires
        all_renderable(elements),
        all_valid(damage),
        bounds.valid(),
        all_within(damage, bounds),
    ensures
        reported(elements, damage).len() > 0 <==> exists|x: int, y: int| #[trigger]
            covers(damage, x, y) && shows_through(
                elements,
                survey(elements, damage, elements.len()).drawn,
                elements.len() as int,
                x,
                y,
            ),
{
    let all = survey(elements, damage, elements.len()).damage;
    let drawn = survey(elements, damage, elements.len()).drawn;
    lemma_survey_valid(elements, damage, elements.len(), bounds);
    let kept = filled(dedup(all));
    lemma_dedup_keeps(all, bounds);
    lemma_filled_keeps(dedup(all), bounds);
    if reported(elements, damage).len() > 0 {
        if kept.len() == 0 {
            assert(merged(kept, true).len() == 0);
        }
        lemma_filled_has_pixel(all, bounds);
        let (x, y) = choose|x: int, y: int| #[trigger] covers(all, x, y);
        damage_counts_where_it_shows(elements, damage, x, y);
        assert(covers(damage, x, y));
    }
    if exists|x: int, y: int| #[trigger]
        covers(damage, x, y) && shows_through(elements, drawn, elements.len() as int, x, y) {
        let (x, y) = choose|x: int, y: int| #[trigger]
            covers(damage, x, y) && shows_through(elements, drawn, elements.len() as int, x, y);
        damage_counts_where_it_shows(elements, damage, x, y);
        dedup_keeps_pixels(all, x, y);
        lemma_filled_covers(dedup(all), x, y);
        merged_keeps_pixels(kept, true, bounds, x, y);
        let found = reported(elements, damage);
        let i = choose|i: int| 0 <= i < found.len() && (#[trigger] found[i]).has(x, y);
        assert(found.len() > 0);
    }
}

} // verus!
