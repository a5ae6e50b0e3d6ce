//! What damage tracking guarantees of every frame.

use vstd::prelude::*;

use crate::utils::geometry::{Rectangle, Size};
use crate::utils::rects::{
    all_valid, all_within, covers, covers_concat, cut_all, cut_all_covers_difference,
};

use super::damage::{
    all_filled, optimized_is_filled, optimized_keeps_damage, whole_output_is_one_rectangle,
};
use super::element::{all_movable, all_moved, renderable, RenderElement};
use super::element_map::{collected, lookup, position_finds, Key, ElementState};
use super::{
    age_known, commit_of, frame_damage, frame_pass, gone, has_moved, initial_damage, is_drawn,
    joined, local_damage, output_geometry, parts_valid, pass, raw_damage, shifted,
    states_valid, visible, History,
};

verus! {

/// All elements can be rendered.
pub open spec fn all_renderable<E: RenderElement>(elements: Seq<E>) -> bool {
    forall|j: int| 0 <= j < elements.len() ==> renderable(#[trigger] elements[j])
}

pub(crate) proof fn lemma_moved_valid(rects: Seq<Rectangle>, by: crate::utils::geometry::Point)
    requires
        all_movable(rects, by),
    ensures
        all_valid(all_moved(rects, by)),
{
}

proof fn lemma_joined(parts: Seq<Seq<Rectangle>>, k: int, x: int, y: int)
    requires
        parts_valid(parts),
    ensures
        all_valid(joined(parts)),
        0 <= k < parts.len() && covers(parts[k], x, y) ==> covers(joined(parts), x, y),
    decreases parts.len(),
{
    if parts.len() > 0 {
        let head = parts.drop_last();
        lemma_joined(head, k, x, y);
        assert(all_valid(parts.last()));
        covers_concat(joined(head), parts.last(), x, y);
        if k < parts.len() - 1 {
            assert(0 <= k ==> head[k] == parts[k]);
        }
    }
}

pub(crate) proof fn lemma_initial_valid(history: History, size: Size, age: usize)
    requires
        history.valid(),
        size.valid(),
    ensures
        all_valid(initial_damage(history, size, age)),
{
    if age_known(history, age) {
        let kept = history.old_damage.take(age as int);
        assert(parts_valid(kept)) by {
            assert forall|i: int| 0 <= i < kept.len() implies all_valid(#[trigger] kept[i]) by {
                assert(kept[i] == history.old_damage[i]);
            }
        }
        lemma_joined(kept, 0, 0, 0);
    }
}

pub(crate) proof fn lemma_pass_valid<E: RenderElement>(
    elements: Seq<E>,
    n: nat,
    known: Seq<(Key, ElementState)>,
    output: Rectangle,
    start: Seq<Rectangle>,
)
    requires
        all_renderable(elements),
        n <= elements.len(),
        all_valid(start),
    ensures
        all_valid(pass(elements, n, known, output, start).damage),
        all_valid(pass(elements, n, known, output, start).opaque),
        forall|j: int|
            0 <= j < pass(elements, n, known, output, start).drawn.len() ==> 0
                <= #[trigger] pass(elements, n, known, output, start).drawn[j] < n,
    decreases n,
{
    if n > 0 {
        let before = pass(elements, (n - 1) as nat, known, output, start);
        let element = elements[n - 1];
        lemma_pass_valid(elements, (n - 1) as nat, known, output, start);
        assert(renderable(element));
        let commit = commit_of(known, element.spec_id().spec_key());
        assert(all_movable(element.spec_damage_since(commit), element.spec_geometry().loc));
        lemma_moved_valid(element.spec_damage_since(commit), element.spec_geometry().loc);
        lemma_moved_valid(element.spec_opaque_regions(), element.spec_geometry().loc);
        cut_all_covers_difference(
            all_moved(element.spec_damage_since(commit), element.spec_geometry().loc),
            before.opaque,
            0,
            0,
        );
    }
}

pub(crate) proof fn lemma_gone<E: RenderElement>(
    known: Seq<(Key, ElementState)>,
    elements: Seq<E>,
    drawn: Seq<int>,
    k: int,
    x: int,
    y: int,
)
    requires
        states_valid(known),
    ensures
        all_valid(gone(known, elements, drawn)),
        0 <= k < known.len() && !is_drawn(elements, drawn, known[k].0)
            && known[k].1.last_geometry.has(x, y) ==> covers(gone(known, elements, drawn), x, y),
    decreases known.len(),
{
    if known.len() > 0 {
        let head = known.drop_last();
        lemma_gone(head, elements, drawn, k, x, y);
        assert(known[known.len() - 1].1.last_geometry.valid());
        let part = gone(head, elements, drawn);
        let whole = gone(known, elements, drawn);
        if covers(part, x, y) {
            let i = choose|i: int| 0 <= i < part.len() && (#[trigger] part[i]).has(x, y);
            assert(whole[i].has(x, y));
        }
        if k == known.len() - 1 && !is_drawn(elements, drawn, known[k].0)
            && known[k].1.last_geometry.has(x, y) {
            assert(whole[part.len() as int].has(x, y));
        }
        if 0 <= k < known.len() - 1 {
            assert(head[k] == known[k]);
        }
    }
}

pub(crate) proof fn lemma_shifted<E: RenderElement>(
    known: Seq<(Key, ElementState)>,
    elements: Seq<E>,
    drawn: Seq<int>,
    n: nat,
    z: int,
    x: int,
    y: int,
)
    requires
        states_valid(known),
        all_renderable(elements),
        n <= drawn.len(),
        forall|j: int| 0 <= j < drawn.len() ==> 0 <= #[trigger] drawn[j] < elements.len(),
    ensures
        all_valid(shifted(known, elements, drawn, n)),
        0 <= z < n && has_moved(elements[drawn[z]], z, known) && (elements[drawn[z]].spec_geometry().has(x, y)
            || lookup(known, elements[drawn[z]].spec_id().spec_key())->0.last_geometry.has(x, y))
            ==> covers(shifted(known, elements, drawn, n), x, y),
    decreases n,
{
    if n > 0 {
        let part = shifted(known, elements, drawn, (n - 1) as nat);
        let whole = shifted(known, elements, drawn, n);
        lemma_shifted(known, elements, drawn, (n - 1) as nat, z, x, y);
        let element = elements[drawn[n - 1]];
        assert(renderable(element));
        position_finds(known, element.spec_id().spec_key());
        if covers(part, x, y) {
            let i = choose|i: int| 0 <= i < part.len() && (#[trigger] part[i]).has(x, y);
            assert(whole[i].has(x, y));
        }
        if z == n - 1 && has_moved(element, z, known) {
            if element.spec_geometry().has(x, y) {
                assert(whole[part.len() as int + 1].has(x, y));
            }
            if lookup(known, element.spec_id().spec_key())->0.last_geometry.has(x, y) {
                assert(whole[part.len() as int].has(x, y));
            }
        }
    }
}

/// Whatever of the output is damaged by any cause is redrawn, and what is redrawn are valid
/// rectangles within the output.
pub proof fn raw_damage_is_redrawn<E: RenderElement>(
    history: History,
    size: Size,
    age: usize,
    elements: Seq<E>,
    x: int,
    y: int,
)
    requires
        history.valid(),
        size.valid(),
        all_renderable(elements),
    ensures
        all_valid(frame_damage(history, size, age, elements)),
        all_within(frame_damage(history, size, age, elements), output_geometry(size)),
        !size.spec_is_empty() ==> all_filled(frame_damage(history, size, age, elements)),
        covers(raw_damage(history, size, age, elements), x, y) && output_geometry(size).has(x, y)
            ==> covers(frame_damage(history, size, age, elements), x, y),
{
    let found = frame_pass(history, size, age, elements);
    lemma_initial_valid(history, size, age);
    lemma_pass_valid(
        elements,
        elements.len(),
        history.elements,
        output_geometry(size),
        initial_damage(history, size, age),
    );
    lemma_gone(history.elements, elements, found.drawn, 0, 0, 0);
    lemma_shifted(history.elements, elements, found.drawn, found.drawn.len(), 0, 0, 0);
    let raw = raw_damage(history, size, age, elements);
    assert(all_valid(raw));
    optimized_keeps_damage(raw, output_geometry(size), x, y);
    if !size.spec_is_empty() {
        optimized_is_filled(raw, output_geometry(size));
    }
}

proof fn lemma_pass_grows<E: RenderElement>(
    elements: Seq<E>,
    m: nat,
    n: nat,
    known: Seq<(Key, ElementState)>,
    output: Rectangle,
    start: Seq<Rectangle>,
    x: int,
    y: int,
)
    requires
        m <= n <= elements.len(),
    ensures
        covers(pass(elements, m, known, output, start).damage, x, y) ==> covers(
            pass(elements, n, known, output, start).damage,
            x,
            y,
        ),
    decreases n,
{
    if m < n {
        lemma_pass_grows(elements, m, (n - 1) as nat, known, output, start, x, y);
        let before = pass(elements, (n - 1) as nat, known, output, start);
        let element = elements[n - 1];
        covers_concat(
            before.damage,
            super::element_damage(element, known, before.opaque),
            x,
            y,
        );
    }
}

proof fn lemma_found_is_redrawn<E: RenderElement>(
    history: History,
    size: Size,
    age: usize,
    elements: Seq<E>,
    x: int,
    y: int,
)
    requires
        history.valid(),
        size.valid(),
        all_renderable(elements),
        output_geometry(size).has(x, y),
    ensures
        ({
            let found = frame_pass(history, size, age, elements);
            covers(found.damage, x, y) || covers(gone(history.elements, elements, found.drawn), x, y)
                || covers(
                shifted(history.elements, elements, found.drawn, found.drawn.len()),
                x,
                y,
            ) ==> covers(frame_damage(history, size, age, elements), x, y)
        }),
{
    let found = frame_pass(history, size, age, elements);
    let left = gone(history.elements, elements, found.drawn);
    let moved = shifted(history.elements, elements, found.drawn, found.drawn.len());
    covers_concat(found.damage, left, x, y);
    covers_concat(found.damage + left, moved, x, y);
    raw_damage_is_redrawn(history, size, age, elements, x, y);
}

proof fn lemma_pass_keeps_start<E: RenderElement>(
    elements: Seq<E>,
    n: nat,
    known: Seq<(Key, ElementState)>,
    output: Rectangle,
    start: Seq<Rectangle>,
)
    requires
        start.len() > 0,
    ensures
        pass(elements, n, known, output, start).damage.len() > 0,
        pass(elements, n, known, output, start).damage[0] == start[0],
    decreases n,
{
    if n > 0 {
        lemma_pass_keeps_start(elements, (n - 1) as nat, known, output, start);
    }
}

/// If the age of the buffer is unknown or older than what is remembered, or if the size changed,
/// a frame redraws exactly one rectangle: the whole output, unless that has no pixels.
pub proof fn unknown_contents_are_redrawn<E: RenderElement>(
    history: History,
    size: Size,
    age: usize,
    elements: Seq<E>,
)
    requires
        history.valid(),
        size.valid(),
        !size.spec_is_empty(),
        all_renderable(elements),
        !age_known(history, age) || history.size != Some(size),
    ensures
        frame_damage(history, size, age, elements) == seq![output_geometry(size)],
{
    let start = initial_damage(history, size, age);
    let output = output_geometry(size);
    let found = frame_pass(history, size, age, elements);
    lemma_pass_keeps_start(elements, elements.len(), history.elements, output, start);
    lemma_initial_valid(history, size, age);
    lemma_pass_valid(elements, elements.len(), history.elements, output, start);
    lemma_gone(history.elements, elements, found.drawn, 0, 0, 0);
    lemma_shifted(history.elements, elements, found.drawn, found.drawn.len(), 0, 0, 0);
    let raw = raw_damage(history, size, age, elements);
    assert(raw[0] == output);
    whole_output_is_one_rectangle(raw, output);
}

/// What was redrawn in any of the last `age` frames is redrawn again.
pub proof fn older_damage_is_redrawn<E: RenderElement>(
    history: History,
    size: Size,
    age: usize,
    elements: Seq<E>,
    frame: int,
    x: int,
    y: int,
)
    requires
        history.valid(),
        size.valid(),
        all_renderable(elements),
        age_known(history, age),
        0 <= frame < age,
        covers(history.old_damage[frame], x, y),
        output_geometry(size).has(x, y),
    ensures
        covers(frame_damage(history, size, age, elements), x, y),
{
    let kept = history.old_damage.take(age as int);
    assert(parts_valid(kept)) by {
        assert forall|i: int| 0 <= i < kept.len() implies all_valid(#[trigger] kept[i]) by {
            assert(kept[i] == history.old_damage[i]);
        }
    }
    lemma_joined(kept, frame, x, y);
    let first = if history.size == Some(size) {
        Seq::empty()
    } else {
        seq![output_geometry(size)]
    };
    covers_concat(first, joined(kept), x, y);
    lemma_pass_grows(
        elements,
        0,
        elements.len(),
        history.elements,
        output_geometry(size),
        initial_damage(history, size, age),
        x,
        y,
    );
    lemma_found_is_redrawn(history, size, age, elements, x, y);
}

/// The opaque regions of the visible elements in front of the element at `i`.
pub open spec fn opaque_in_front<E: RenderElement>(
    history: History,
    size: Size,
    age: usize,
    elements: Seq<E>,
    i: int,
) -> Seq<Rectangle> {
    pass(
        elements,
        i as nat,
        history.elements,
        output_geometry(size),
        initial_damage(history, size, age),
    ).opaque
}

/// New damage of a visible element is redrawn where no opaque region in front hides it.
pub proof fn element_damage_is_redrawn<E: RenderElement>(
    history: History,
    size: Size,
    age: usize,
    elements: Seq<E>,
    i: int,
    x: int,
    y: int,
)
    requires
        history.valid(),
        size.valid(),
        all_renderable(elements),
        0 <= i < elements.len(),
        visible(
            elements[i],
            opaque_in_front(history, size, age, elements, i),
            output_geometry(size),
        ),
        covers(
            all_moved(
                elements[i].spec_damage_since(
                    commit_of(history.elements, elements[i].spec_id().spec_key()),
                ),
                elements[i].spec_geometry().loc,
            ),
            x,
            y,
        ),
        !covers(opaque_in_front(history, size, age, elements, i), x, y),
        output_geometry(size).has(x, y),
    ensures
        covers(frame_damage(history, size, age, elements), x, y),
{
    let known = history.elements;
    let output = output_geometry(size);
    let start = initial_damage(history, size, age);
    let element = elements[i];
    let before = pass(elements, i as nat, known, output, start);
    let commit = commit_of(known, element.spec_id().spec_key());
    lemma_initial_valid(history, size, age);
    lemma_pass_valid(elements, i as nat, known, output, start);
    assert(renderable(element));
    assert(all_movable(element.spec_damage_since(commit), element.spec_geometry().loc));
    let placed = all_moved(element.spec_damage_since(commit), element.spec_geometry().loc);
    lemma_moved_valid(element.spec_damage_since(commit), element.spec_geometry().loc);
    cut_all_covers_difference(placed, before.opaque, x, y);
    covers_concat(before.damage, cut_all(placed, before.opaque), x, y);
    let after = pass(elements, (i + 1) as nat, known, output, start);
    assert(after.damage == before.damage + cut_all(placed, before.opaque));
    lemma_pass_grows(elements, (i + 1) as nat, elements.len(), known, output, start, x, y);
    lemma_found_is_redrawn(history, size, age, elements, x, y);
}

/// An element that is on the output and is not drawn lies behind opaque regions with all of
/// its pixels.
pub proof fn skipped_elements_are_hidden<E: RenderElement>(
    history: History,
    size: Size,
    age: usize,
    elements: Seq<E>,
    i: int,
    x: int,
    y: int,
)
    requires
        history.valid(),
        size.valid(),
        all_renderable(elements),
        0 <= i < elements.len(),
        elements[i].spec_geometry().spec_overlaps(output_geometry(size)),
        !visible(
            elements[i],
            opaque_in_front(history, size, age, elements, i),
            output_geometry(size),
        ),
        elements[i].spec_geometry().has(x, y),
    ensures
        covers(opaque_in_front(history, size, age, elements, i), x, y),
{
    let start = initial_damage(history, size, age);
    lemma_initial_valid(history, size, age);
    lemma_pass_valid(elements, i as nat, history.elements, output_geometry(size), start);
    assert(renderable(elements[i]));
    let alone = seq![elements[i].spec_geometry()];
    assert(alone[0].has(x, y));
    cut_all_covers_difference(alone, opaque_in_front(history, size, age, elements, i), x, y);
}

/// Where an element was that is no longer drawn, the output is redrawn.
pub proof fn gone_elements_are_redrawn<E: RenderElement>(
    history: History,
    size: Size,
    age: usize,
    elements: Seq<E>,
    k: int,
    x: int,
    y: int,
)
    requires
        history.valid(),
        size.valid(),
        all_renderable(elements),
        0 <= k < history.elements.len(),
        !is_drawn(
            elements,
            frame_pass(history, size, age, elements).drawn,
            history.elements[k].0,
        ),
        history.elements[k].1.last_geometry.has(x, y),
        output_geometry(size).has(x, y),
    ensures
        covers(frame_damage(history, size, age, elements), x, y),
{
    let found = frame_pass(history, size, age, elements);
    lemma_gone(history.elements, elements, found.drawn, k, x, y);
    lemma_found_is_redrawn(history, size, age, elements, x, y);
}

/// An element that moved or changed its depth is redrawn where it was and where it is.
pub proof fn moved_elements_are_redrawn<E: RenderElement>(
    history: History,
    size: Size,
    age: usize,
    elements: Seq<E>,
    z: int,
    x: int,
    y: int,
)
    requires
        history.valid(),
        size.valid(),
        all_renderable(elements),
        0 <= z < frame_pass(history, size, age, elements).drawn.len(),
        ({
            let element = elements[frame_pass(history, size, age, elements).drawn[z]];
            &&& has_moved(element, z, history.elements)
            &&& element.spec_geometry().has(x, y) || lookup(
                history.elements,
                element.spec_id().spec_key(),
            )->0.last_geometry.has(x, y)
        }),
        output_geometry(size).has(x, y),
    ensures
        covers(frame_damage(history, size, age, elements), x, y),
{
    let found = frame_pass(history, size, age, elements);
    lemma_initial_valid(history, size, age);
    lemma_pass_valid(
        elements,
        elements.len(),
        history.elements,
        output_geometry(size),
        initial_damage(history, size, age),
    );
    lemma_shifted(history.elements, elements, found.drawn, found.drawn.len(), z, x, y);
    lemma_found_is_redrawn(history, size, age, elements, x, y);
}

/// The part of the damage that an element is drawn with is, moved to the element's place,
/// exactly the damage on the element.
pub proof fn local_damage_is_exact(
    damage: Seq<Rectangle>,
    geometry: Rectangle,
    x: int,
    y: int,
)
    requires
        all_valid(damage),
        geometry.valid(),
    ensures
        covers(local_damage(damage, geometry), x - geometry.loc.x, y - geometry.loc.y) <==> covers(
            damage,
            x,
            y,
        ) && geometry.has(x, y),
    decreases damage.len(),
{
    if damage.len() > 0 {
        let head = damage.drop_last();
        local_damage_is_exact(head, geometry, x, y);
        assert(damage =~= head + seq![damage.last()]);
        covers_concat(head, seq![damage.last()], x, y);
        let one = seq![damage.last()];
        assert(one[0] == damage.last());
        assert(covers(one, x, y) <==> damage.last().has(x, y)) by {
            if covers(one, x, y) {
                let i = choose|i: int| 0 <= i < one.len() && (#[trigger] one[i]).has(x, y);
                assert(one[i] == damage.last());
            }
        }
        let before = local_damage(head, geometry);
        if let Some(part) = damage.last().spec_intersection(geometry) {
            let local = part.spec_relative_to(geometry.loc);
            let lone = seq![local];
            assert(lone[0] == local);
            assert(local_damage(damage, geometry) =~= before + lone);
            covers_concat(before, lone, x - geometry.loc.x, y - geometry.loc.y);
            assert(covers(lone, x - geometry.loc.x, y - geometry.loc.y) <==> local.has(
                x - geometry.loc.x,
                y - geometry.loc.y,
            )) by {
                if covers(lone, x - geometry.loc.x, y - geometry.loc.y) {
                    let i = choose|i: int|
                        0 <= i < lone.len() && (#[trigger] lone[i]).has(
                            x - geometry.loc.x,
                            y - geometry.loc.y,
                        );
                    assert(lone[i] == local);
                }
            }
        }
    }
}

proof fn lemma_drawn_descends<E: RenderElement>(
    elements: Seq<E>,
    n: nat,
    known: Seq<(Key, ElementState)>,
    output: Rectangle,
    start: Seq<Rectangle>,
)
    ensures
        ({
            let drawn = pass(elements, n, known, output, start).drawn;
            &&& forall|j: int| 0 <= j < drawn.len() ==> 0 <= #[trigger] drawn[j] < n
            &&& forall|j: int, k: int|
                0 <= j < k < drawn.len() ==> #[trigger] drawn[j] > #[trigger] drawn[k]
        }),
    decreases n,
{
    if n > 0 {
        lemma_drawn_descends(elements, (n - 1) as nat, known, output, start);
        let before = pass(elements, (n - 1) as nat, known, output, start).drawn;
        let drawn = pass(elements, n, known, output, start).drawn;
        if drawn != before {
            assert(drawn =~= seq![n - 1] + before);
            assert forall|j: int, k: int| 0 <= j < k < drawn.len() implies #[trigger] drawn[j]
                > #[trigger] drawn[k] by {
                assert(drawn[k] == before[k - 1]);
                if j > 0 {
                    assert(drawn[j] == before[j - 1]);
                }
            }
        }
    }
}

/// Elements are drawn back to front, each at most once.
pub proof fn drawn_back_to_front<E: RenderElement>(
    history: History,
    size: Size,
    age: usize,
    elements: Seq<E>,
    j: int,
    k: int,
)
    requires
        0 <= j < k < frame_pass(history, size, age, elements).drawn.len(),
    ensures
        ({
            let drawn = frame_pass(history, size, age, elements).drawn;
            0 <= drawn[k] < drawn[j] < elements.len()
        }),
{
    lemma_drawn_descends(
        elements,
        elements.len(),
        history.elements,
        output_geometry(size),
        initial_damage(history, size, age),
    );
}

/// Once the damage of the last `age` frames is known, no older frame is kept, and the damage
/// of a frame just drawn is known under the age of one.
pub proof fn history_is_bounded(
    history: History,
    age: usize,
    size: Size,
    states: Seq<(Key, ElementState)>,
    damage: Seq<Rectangle>,
)
    ensures
        age_known(history, age) ==> history.trimmed(age).old_damage.len() == age,
        age_known(history.after(size, states, damage), 1),
        history.after(size, states, damage).old_damage[0] == damage,
        history.after(size, states, damage).old_damage.len() == history.old_damage.len() + 1,
{
}

/// After a failed frame nothing is known, so the next frame redraws exactly the whole output.
pub proof fn failure_forces_full_redraw<E: RenderElement>(
    size: Size,
    age: usize,
    elements: Seq<E>,
)
    requires
        size.valid(),
        !size.spec_is_empty(),
        all_renderable(elements),
    ensures
        frame_damage(History::fresh(), size, age, elements) == seq![output_geometry(size)],
{
    unknown_contents_are_redrawn(History::fresh(), size, age, elements);
}

/// Every visible element is remembered after a frame: its id leads to a state that was
/// written for an element of that id.
pub proof fn drawn_elements_are_remembered(states: Seq<(Key, ElementState)>, z: int)
    requires
        0 <= z < states.len(),
    ensures
        exists|w: int|
            z <= w < states.len() && (#[trigger] states[w]).0 == states[z].0 && lookup(
                collected(states),
                states[z].0,
            ) == Some(states[w].1),
    decreases states.len(),
{
    let head = states.drop_last();
    let last = states.last();
    super::element_map::put_then_lookup(collected(head), last.0, last.1, states[z].0);
    if last.0 == states[z].0 {
        assert(states[states.len() - 1].0 == states[z].0);
    } else {
        drawn_elements_are_remembered(head, z);
        let w = choose|w: int|
            z <= w < head.len() && (#[trigger] head[w]).0 == head[z].0 && lookup(
                collected(head),
                head[z].0,
            ) == Some(head[w].1);
        assert(states[w] == head[w]);
    }
}

} // verus!
