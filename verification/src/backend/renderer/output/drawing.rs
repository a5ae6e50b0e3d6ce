//! Which elements of a frame are drawn, in which order, and where.

use vstd::prelude::*;

use crate::utils::geometry::{overlap_is_shared_pixel, Point, Rectangle, Size};
use crate::utils::rects::{
    all_valid, covers, covers_concat, cut, cut_all, cut_all_covers_difference, cut_each,
};

use super::damage::all_filled;
use super::element::{all_moved, all_movable, renderable, RenderElement};
use super::element_map::{ElementState, Key};
use super::laws::{
    all_renderable, drawn_back_to_front, lemma_initial_valid, lemma_pass_valid,
    local_damage_is_exact, raw_damage_is_redrawn,
};
use super::{
    frame_damage, frame_pass, initial_damage, local_damage, output_geometry, pass, steps, visible,
    History,
};

verus! {

/// Positions that fall from one to the next.
pub open spec fn descends(drawn: Seq<int>) -> bool {
    forall|j: int, k: int| 0 <= j < k < drawn.len() ==> #[trigger] drawn[j] > #[trigger] drawn[k]
}

/// Every position is one of the first `n`.
pub open spec fn below(drawn: Seq<int>, n: int) -> bool {
    forall|j: int| 0 <= j < drawn.len() ==> 0 <= #[trigger] drawn[j] < n
}

/// Whether the damage holds a pixel of the rectangle.
pub open spec fn touched(damage: Seq<Rectangle>, geometry: Rectangle) -> bool {
    exists|x: int, y: int| #[trigger] geometry.has(x, y) && covers(damage, x, y)
}

/// Whether some step is for the element at `i`.
pub open spec fn has_step(draws: Seq<(int, Seq<Rectangle>)>, i: int) -> bool {
    exists|s: int| 0 <= s < draws.len() && (#[trigger] draws[s]).0 == i
}

proof fn lemma_local_filled(damage: Seq<Rectangle>, geometry: Rectangle)
    requires
        all_valid(damage),
        all_filled(damage),
        geometry.valid(),
        !geometry.spec_is_empty(),
    ensures
        forall|i: int|
            0 <= i < local_damage(damage, geometry).len() ==> (#[trigger] local_damage(
                damage,
                geometry,
            )[i]).size.w > 0 && local_damage(damage, geometry)[i].size.h > 0,
    decreases damage.len(),
{
    if damage.len() > 0 {
        assert(damage[damage.len() - 1].valid());
        assert(!damage[damage.len() - 1].spec_is_empty());
        lemma_local_filled(damage.drop_last(), geometry);
        let before = local_damage(damage.drop_last(), geometry);
        let local = local_damage(damage, geometry);
        if let Some(part) = damage.last().spec_intersection(geometry) {
            assert(part.size.w > 0 && part.size.h > 0);
            assert forall|i: int| 0 <= i < local.len() implies (#[trigger] local[i]).size.w > 0
                && local[i].size.h > 0 by {
                if i < before.len() {
                    assert(local[i] == before[i]);
                }
            }
        }
    }
}

pub(crate) proof fn lemma_touched(damage: Seq<Rectangle>, geometry: Rectangle)
    requires
        all_valid(damage),
        geometry.valid(),
    ensures
        touched(damage, geometry) ==> local_damage(damage, geometry).len() > 0,
        all_filled(damage) && !geometry.spec_is_empty() && local_damage(damage, geometry).len() > 0
            ==> touched(damage, geometry),
{
    let local = local_damage(damage, geometry);
    if touched(damage, geometry) {
        let (x, y) = choose|x: int, y: int| #[trigger]
            geometry.has(x, y) && covers(damage, x, y);
        local_damage_is_exact(damage, geometry, x, y);
    }
    if all_filled(damage) && !geometry.spec_is_empty() && local.len() > 0 {
        lemma_local_filled(damage, geometry);
        let x = local[0].loc.x + geometry.loc.x;
        let y = local[0].loc.y + geometry.loc.y;
        assert(local[0].has(x - geometry.loc.x, y - geometry.loc.y));
        local_damage_is_exact(damage, geometry, x, y);
        assert(geometry.has(x, y));
    }
}

proof fn lemma_steps<E: RenderElement>(
    elements: Seq<E>,
    drawn: Seq<int>,
    damage: Seq<Rectangle>,
    n: nat,
)
    requires
        n <= drawn.len(),
        descends(drawn),
    ensures
        ({
            let draws = steps(elements, drawn, damage, n);
            &&& forall|s: int|
                0 <= s < draws.len() ==> {
                    &&& (#[trigger] draws[s]).1 == local_damage(
                        damage,
                        elements[draws[s].0].spec_geometry(),
                    )
                    &&& draws[s].1.len() > 0
                    &&& drawn.take(n as int).contains(draws[s].0)
                }
            &&& forall|s: int, t: int|
                0 <= s < t < draws.len() ==> (#[trigger] draws[s]).0 > (#[trigger] draws[t]).0
            &&& forall|z: int|
                0 <= z < n && local_damage(damage, elements[#[trigger] drawn[z]].spec_geometry()).len()
                    > 0 ==> has_step(draws, drawn[z])
        }),
    decreases n,
{
    if n > 0 {
        lemma_steps(elements, drawn, damage, (n - 1) as nat);
        let before = steps(elements, drawn, damage, (n - 1) as nat);
        let draws = steps(elements, drawn, damage, n);
        let head = drawn.take(n - 1);
        let all = drawn.take(n as int);
        assert(all[n - 1] == drawn[n - 1]);
        assert forall|i: int| head.contains(i) implies all.contains(i) && i > drawn[n - 1] by {
            let z = choose|z: int| 0 <= z < head.len() && head[z] == i;
            assert(all[z] == i);
            assert(drawn[z] > drawn[n - 1]);
        }
        assert forall|s: int| 0 <= s < before.len() implies (#[trigger] draws[s]) == before[s] by {}
        assert forall|s: int, t: int| 0 <= s < t < draws.len() implies (#[trigger] draws[s]).0 > (
        #[trigger] draws[t]).0 by {
            assert(draws[s] == before[s]);
            assert(head.contains(before[s].0));
            if t < before.len() {
                assert(draws[t] == before[t]);
            }
        }
        assert forall|z: int|
            0 <= z < n && local_damage(damage, elements[#[trigger] drawn[z]].spec_geometry()).len()
                > 0 implies has_step(draws, drawn[z]) by {
            if z < n - 1 {
                assert(has_step(before, drawn[z]));
                let s = choose|s: int| 0 <= s < before.len() && (#[trigger] before[s]).0 == drawn[z];
                assert(draws[s].0 == drawn[z]);
            } else {
                assert(draws[draws.len() - 1].0 == drawn[z]);
            }
        }
    }
}

/// Steps that draw a list of elements into some damage: they come in the order of the list, at
/// most one for each element and none for others; an element that the damage touches has one;
/// and a step redraws exactly the damaged pixels of its element.
pub proof fn steps_draw_what_is_damaged<E: RenderElement>(
    elements: Seq<E>,
    drawn: Seq<int>,
    damage: Seq<Rectangle>,
)
    requires
        all_renderable(elements),
        all_valid(damage),
        below(drawn, elements.len() as int),
        descends(drawn),
    ensures
        ({
            let draws = steps(elements, drawn, damage, drawn.len());
            &&& forall|s: int, t: int|
                0 <= s < t < draws.len() ==> (#[trigger] draws[s]).0 > (#[trigger] draws[t]).0
            &&& forall|s: int|
                0 <= s < draws.len() ==> drawn.contains((#[trigger] draws[s]).0)
            &&& forall|i: int| #[trigger]
                drawn.contains(i) && touched(damage, elements[i].spec_geometry()) ==> has_step(
                    draws,
                    i,
                )
            &&& forall|i: int| #[trigger]
                has_step(draws, i) && all_filled(damage)
                    && !elements[i].spec_geometry().spec_is_empty() ==> touched(
                    damage,
                    elements[i].spec_geometry(),
                )
            &&& forall|s: int, x: int, y: int|
                0 <= s < draws.len() ==> (#[trigger] covers(draws[s].1, x, y) <==> {
                    let geometry = elements[draws[s].0].spec_geometry();
                    &&& geometry.has(x + geometry.loc.x, y + geometry.loc.y)
                    &&& covers(damage, x + geometry.loc.x, y + geometry.loc.y)
                })
        }),
{
    let draws = steps(elements, drawn, damage, drawn.len());
    lemma_steps(elements, drawn, damage, drawn.len());
    assert(drawn.take(drawn.len() as int) =~= drawn);
    assert forall|i: int| #[trigger] drawn.contains(i) implies {
        touched(damage, elements[i].spec_geometry()) ==> has_step(draws, i)
    } by {
        let z = choose|z: int| 0 <= z < drawn.len() && drawn[z] == i;
        assert(renderable(elements[drawn[z]]));
        lemma_touched(damage, elements[i].spec_geometry());
    }
    assert forall|i: int| #[trigger]
        has_step(draws, i) && all_filled(damage)
            && !elements[i].spec_geometry().spec_is_empty() implies touched(
        damage,
        elements[i].spec_geometry(),
    ) by {
        let s = choose|s: int| 0 <= s < draws.len() && (#[trigger] draws[s]).0 == i;
        assert(drawn.contains(draws[s].0));
        let z = choose|z: int| 0 <= z < drawn.len() && drawn[z] == i;
        assert(renderable(elements[drawn[z]]));
        lemma_touched(damage, elements[i].spec_geometry());
    }
    assert forall|s: int, x: int, y: int| 0 <= s < draws.len() implies (#[trigger] covers(
        draws[s].1,
        x,
        y,
    ) <==> {
        let geometry = elements[draws[s].0].spec_geometry();
        &&& geometry.has(x + geometry.loc.x, y + geometry.loc.y)
        &&& covers(damage, x + geometry.loc.x, y + geometry.loc.y)
    }) by {
        let i = draws[s].0;
        assert(drawn.contains(i));
        let z = choose|z: int| 0 <= z < drawn.len() && drawn[z] == i;
        assert(renderable(elements[drawn[z]]));
        let geometry = elements[i].spec_geometry();
        local_damage_is_exact(damage, geometry, x + geometry.loc.x, y + geometry.loc.y);
    }
}

/// Whether one of the drawn elements in front of the element at `i` is opaque at the pixel.
pub open spec fn hidden_at<E: RenderElement>(
    elements: Seq<E>,
    drawn: Seq<int>,
    i: int,
    x: int,
    y: int,
) -> bool {
    exists|j: int|
        0 <= j < i && #[trigger] drawn.contains(j) && covers(
            elements[j].spec_opaque_regions(),
            x - elements[j].spec_geometry().loc.x,
            y - elements[j].spec_geometry().loc.y,
        )
}

/// Moving rectangles moves the pixels they cover.
pub proof fn moved_pixels_are_covered(rects: Seq<Rectangle>, by: Point, x: int, y: int)
    requires
        all_movable(rects, by),
    ensures
        covers(all_moved(rects, by), x, y) <==> covers(rects, x - by.x, y - by.y),
{
    let placed = all_moved(rects, by);
    if covers(placed, x, y) {
        let i = choose|i: int| 0 <= i < placed.len() && (#[trigger] placed[i]).has(x, y);
        assert(rects[i].movable(by));
        assert(rects[i].has(x - by.x, y - by.y));
    }
    if covers(rects, x - by.x, y - by.y) {
        let i = choose|i: int|
            0 <= i < rects.len() && (#[trigger] rects[i]).has(x - by.x, y - by.y);
        assert(rects[i].movable(by));
        assert(placed[i].has(x, y));
    }
}

pub(crate) proof fn lemma_drawn_if_visible<E: RenderElement>(
    elements: Seq<E>,
    n: nat,
    known: Seq<(Key, ElementState)>,
    output: Rectangle,
    start: Seq<Rectangle>,
    i: int,
)
    requires
        0 <= i,
        n <= elements.len(),
    ensures
        pass(elements, n, known, output, start).drawn.contains(i) <==> i < n && visible(
            elements[i],
            pass(elements, i as nat, known, output, start).opaque,
            output,
        ),
    decreases n,
{
    if n > 0 {
        lemma_drawn_if_visible(elements, (n - 1) as nat, known, output, start, i);
        let before = pass(elements, (n - 1) as nat, known, output, start);
        let after = pass(elements, n, known, output, start);
        if visible(elements[n - 1], before.opaque, output) {
            assert(after.drawn[0] == n - 1);
            if before.drawn.contains(i) {
                let z = choose|z: int| 0 <= z < before.drawn.len() && before.drawn[z] == i;
                assert(after.drawn[z + 1] == i);
            }
            if after.drawn.contains(i) && i != n - 1 {
                let z = choose|z: int| 0 <= z < after.drawn.len() && after.drawn[z] == i;
                assert(before.drawn[z - 1] == i);
            }
        }
    }
}

pub(crate) proof fn lemma_opaque_is_of_drawn<E: RenderElement>(
    elements: Seq<E>,
    i: nat,
    n: nat,
    known: Seq<(Key, ElementState)>,
    output: Rectangle,
    start: Seq<Rectangle>,
    x: int,
    y: int,
)
    requires
        all_renderable(elements),
        i <= n <= elements.len(),
    ensures
        covers(pass(elements, i, known, output, start).opaque, x, y) <==> hidden_at(
            elements,
            pass(elements, n, known, output, start).drawn,
            i as int,
            x,
            y,
        ),
    decreases i,
{
    let drawn = pass(elements, n, known, output, start).drawn;
    if i > 0 {
        lemma_opaque_is_of_drawn(elements, (i - 1) as nat, n, known, output, start, x, y);
        lemma_drawn_if_visible(elements, n, known, output, start, i - 1);
        let before = pass(elements, (i - 1) as nat, known, output, start);
        let element = elements[i - 1];
        let loc = element.spec_geometry().loc;
        assert(renderable(element));
        covers_concat(before.opaque, all_moved(element.spec_opaque_regions(), loc), x, y);
        moved_pixels_are_covered(element.spec_opaque_regions(), loc, x, y);
        if hidden_at(elements, drawn, i as int, x, y) {
            let j = choose|j: int|
                0 <= j < i && #[trigger] drawn.contains(j) && covers(
                    elements[j].spec_opaque_regions(),
                    x - elements[j].spec_geometry().loc.x,
                    y - elements[j].spec_geometry().loc.y,
                );
            if j < i - 1 {
                assert(hidden_at(elements, drawn, i - 1, x, y));
            }
        }
        if hidden_at(elements, drawn, i - 1, x, y) {
            let j = choose|j: int|
                0 <= j < i - 1 && #[trigger] drawn.contains(j) && covers(
                    elements[j].spec_opaque_regions(),
                    x - elements[j].spec_geometry().loc.x,
                    y - elements[j].spec_geometry().loc.y,
                );
            assert(drawn.contains(j));
            assert(hidden_at(elements, drawn, i as int, x, y));
        }
        if drawn.contains(i - 1) && covers(
            element.spec_opaque_regions(),
            x - loc.x,
            y - loc.y,
        ) {
            assert(hidden_at(elements, drawn, i as int, x, y));
        }
    }
}

pub(crate) proof fn lemma_cut_filled(item: Rectangle, other: Rectangle)
    requires
        item.valid(),
        !item.spec_is_empty(),
    ensures
        all_filled(cut(item, other)),
{
}

pub(crate) proof fn lemma_cut_all_filled(rects: Seq<Rectangle>, others: Seq<Rectangle>)
    requires
        all_valid(rects),
        all_filled(rects),
        all_valid(others),
    ensures
        all_filled(cut_all(rects, others)),
    decreases others.len(),
{
    if others.len() > 0 {
        let head = others.drop_last();
        lemma_cut_all_filled(rects, head);
        cut_all_covers_difference(rects, head, 0, 0);
        lemma_cut_each_filled(cut_all(rects, head), others.last());
    }
}

proof fn lemma_cut_each_filled(rects: Seq<Rectangle>, other: Rectangle)
    requires
        all_valid(rects),
        all_filled(rects),
    ensures
        all_filled(cut_each(rects, other)),
    decreases rects.len(),
{
    if rects.len() > 0 {
        assert(rects[rects.len() - 1].valid());
        assert(!rects[rects.len() - 1].spec_is_empty());
        lemma_cut_each_filled(rects.drop_last(), other);
        lemma_cut_filled(rects.last(), other);
    }
}

/// Of a rectangle with pixels something is left after others are cut out of it exactly if one of
/// its pixels lies in none of them.
pub proof fn something_is_left_of_a_pixel(geometry: Rectangle, opaque: Seq<Rectangle>)
    requires
        geometry.valid(),
        !geometry.spec_is_empty(),
        all_valid(opaque),
    ensures
        cut_all(seq![geometry], opaque).len() > 0 <==> exists|x: int, y: int| #[trigger]
            geometry.has(x, y) && !covers(opaque, x, y),
{
    let alone = seq![geometry];
    let left = cut_all(alone, opaque);
    assert(alone[0] == geometry);
    lemma_cut_all_filled(alone, opaque);
    cut_all_covers_difference(alone, opaque, 0, 0);
    if left.len() > 0 {
        let x = left[0].loc.x as int;
        let y = left[0].loc.y as int;
        assert(left[0].valid());
        assert(left[0].has(x, y));
        cut_all_covers_difference(alone, opaque, x, y);
        assert(geometry.has(x, y));
    }
    if exists|x: int, y: int| #[trigger] geometry.has(x, y) && !covers(opaque, x, y) {
        let (x, y) = choose|x: int, y: int| #[trigger]
            geometry.has(x, y) && !covers(opaque, x, y);
        assert(alone[0].has(x, y));
        cut_all_covers_difference(alone, opaque, x, y);
    }
}

/// An element that has pixels is drawn in a frame exactly if one of them is on the output and one
/// of them is not behind an opaque region of an element that is drawn in front of it.
pub proof fn elements_that_show_are_drawn<E: RenderElement>(
    history: History,
    size: Size,
    age: usize,
    elements: Seq<E>,
    i: int,
)
    requires
        history.valid(),
        size.valid(),
        !size.spec_is_empty(),
        all_renderable(elements),
        0 <= i < elements.len(),
        !elements[i].spec_geometry().spec_is_empty(),
    ensures
        ({
            let drawn = frame_pass(history, size, age, elements).drawn;
            let geometry = elements[i].spec_geometry();
            drawn.contains(i) <==> {
                &&& exists|x: int, y: int| #[trigger]
                    geometry.has(x, y) && 0 <= x < size.w && 0 <= y < size.h
                &&& exists|x: int, y: int| #[trigger]
                    geometry.has(x, y) && !hidden_at(elements, drawn, i, x, y)
            }
        }),
{
    let known = history.elements;
    let output = output_geometry(size);
    let start = initial_damage(history, size, age);
    let drawn = frame_pass(history, size, age, elements).drawn;
    let geometry = elements[i].spec_geometry();
    let opaque = pass(elements, i as nat, known, output, start).opaque;
    assert(renderable(elements[i]));
    lemma_initial_valid(history, size, age);
    lemma_pass_valid(elements, i as nat, known, output, start);
    lemma_drawn_if_visible(elements, elements.len(), known, output, start, i);
    assert forall|x: int, y: int| #[trigger] covers(opaque, x, y) == hidden_at(
        elements,
        drawn,
        i,
        x,
        y,
    ) by {
        lemma_opaque_is_of_drawn(elements, i as nat, elements.len(), known, output, start, x, y);
    }
    overlap_is_shared_pixel(geometry, output);
    something_is_left_of_a_pixel(geometry, opaque);
    if drawn.contains(i) {
        let (x, y) = choose|x: int, y: int| geometry.has(x, y) && output.has(x, y);
        assert(geometry.has(x, y) && 0 <= x < size.w && 0 <= y < size.h);
        let (u, v) = choose|u: int, v: int| #[trigger]
            geometry.has(u, v) && !covers(opaque, u, v);
        assert(geometry.has(u, v) && !hidden_at(elements, drawn, i, u, v));
    }
    if (exists|x: int, y: int| #[trigger]
        geometry.has(x, y) && 0 <= x < size.w && 0 <= y < size.h) && (exists|x: int, y: int|
     #[trigger]
        geometry.has(x, y) && !hidden_at(elements, drawn, i, x, y)) {
        let (x, y) = choose|x: int, y: int| #[trigger]
            geometry.has(x, y) && 0 <= x < size.w && 0 <= y < size.h;
        assert(output.has(x, y));
        let (u, v) = choose|u: int, v: int| #[trigger]
            geometry.has(u, v) && !hidden_at(elements, drawn, i, u, v);
        assert(!covers(opaque, u, v));
    }
}

/// A frame draws its elements from back to front, each at most once; an element with pixels has a
/// step exactly if it is one of those that show and the damage holds a pixel of it; and that step
/// redraws exactly the damaged pixels of the element.
pub proof fn frame_draws_what_is_damaged<E: RenderElement>(
    history: History,
    size: Size,
    age: usize,
    elements: Seq<E>,
)
    requires
        history.valid(),
        size.valid(),
        !size.spec_is_empty(),
        all_renderable(elements),
    ensures
        ({
            let damage = frame_damage(history, size, age, elements);
            let drawn = frame_pass(history, size, age, elements).drawn;
            let draws = steps(elements, drawn, damage, drawn.len());
            &&& below(drawn, elements.len() as int) && descends(drawn)
            &&& forall|s: int, t: int|
                0 <= s < t < draws.len() ==> (#[trigger] draws[s]).0 > (#[trigger] draws[t]).0
            &&& forall|s: int| 0 <= s < draws.len() ==> drawn.contains((#[trigger] draws[s]).0)
            &&& forall|i: int| #[trigger]
                drawn.contains(i) && !elements[i].spec_geometry().spec_is_empty() ==> (has_step(
                    draws,
                    i,
                ) <==> touched(damage, elements[i].spec_geometry()))
            &&& forall|s: int, x: int, y: int|
                0 <= s < draws.len() ==> (#[trigger] covers(draws[s].1, x, y) <==> {
                    let geometry = elements[draws[s].0].spec_geometry();
                    &&& geometry.has(x + geometry.loc.x, y + geometry.loc.y)
                    &&& covers(damage, x + geometry.loc.x, y + geometry.loc.y)
                })
        }),
{
    let known = history.elements;
    let damage = frame_damage(history, size, age, elements);
    let drawn = frame_pass(history, size, age, elements).drawn;
    let start = initial_damage(history, size, age);
    lemma_initial_valid(history, size, age);
    lemma_pass_valid(elements, elements.len(), known, output_geometry(size), start);
    raw_damage_is_redrawn(history, size, age, elements, 0, 0);
    assert forall|j: int, k: int| 0 <= j < k < drawn.len() implies #[trigger] drawn[j]
        > #[trigger] drawn[k] by {
        drawn_back_to_front(history, size, age, elements, j, k);
    }
    steps_draw_what_is_damaged(elements, drawn, damage);
}

} // verus!
