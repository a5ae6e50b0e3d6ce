//! Why a frame redraws something.

use vstd::prelude::*;

use crate::utils::geometry::{Rectangle, Size};
use crate::utils::rects::{all_valid, covers, covers_concat, cut_all_covers_difference};
use crate::utils::transform::Transform;

use super::damage::{
    clip, clip_keeps_inner_pixels, dedup, dedup_keeps_pixels, lemma_clip_filled, meets, merged,
};
use super::drawing::{hidden_at, lemma_opaque_is_of_drawn, moved_pixels_are_covered};
use super::element::{all_moved, renderable, RenderElement};
use super::element_map::{lookup, ElementState, Key};
use super::laws::{
    all_renderable, lemma_gone, lemma_initial_valid, lemma_moved_valid, lemma_pass_valid,
    lemma_shifted,
};
use super::{
    commit_of, element_damage, frame_damage, frame_pass, gone, has_moved, initial_damage, is_drawn,
    joined, output_geometry, pass, raw_damage, shifted, states_of, visible, History, Mode,
    OutputNoMode,
};

verus! {

/// Whether the buffer may hold something else at the pixel than the last frame: if its contents are
/// not known or are of another size, or if the pixel was redrawn in a frame since.
pub open spec fn stale_at(history: History, size: Size, age: usize, x: int, y: int) -> bool {
    ||| age == 0 || history.old_damage.len() < age || history.size != Some(size)
    ||| exists|frame: int| 0 <= frame < age && #[trigger] covers(history.old_damage[frame], x, y)
}

/// Whether a drawn element is damaged at the pixel since it was last drawn, and no drawn element in
/// front of it is opaque there.
pub open spec fn changed_at<E: RenderElement>(
    history: History,
    elements: Seq<E>,
    drawn: Seq<int>,
    x: int,
    y: int,
) -> bool {
    exists|i: int|
        #![trigger drawn.contains(i)]
        0 <= i < elements.len() && drawn.contains(i) && !hidden_at(elements, drawn, i, x, y)
            && covers(
            elements[i].spec_damage_since(
                commit_of(history.elements, elements[i].spec_id().spec_key()),
            ),
            x - elements[i].spec_geometry().loc.x,
            y - elements[i].spec_geometry().loc.y,
        )
}

/// Whether an element that is no longer drawn was drawn at the pixel.
pub open spec fn vacated_at<E: RenderElement>(
    history: History,
    elements: Seq<E>,
    drawn: Seq<int>,
    x: int,
    y: int,
) -> bool {
    exists|k: int|
        0 <= k < history.elements.len() && !is_drawn(
            elements,
            drawn,
            (#[trigger] history.elements[k]).0,
        ) && history.elements[k].1.last_geometry.has(x, y)
}

/// Whether a drawn element that moved or changed its depth was or is at the pixel.
pub open spec fn moved_at<E: RenderElement>(
    history: History,
    elements: Seq<E>,
    drawn: Seq<int>,
    x: int,
    y: int,
) -> bool {
    exists|z: int|
        0 <= z < drawn.len() && has_moved(elements[#[trigger] drawn[z]], z, history.elements) && (
        elements[drawn[z]].spec_geometry().has(x, y) || lookup(
            history.elements,
            elements[drawn[z]].spec_id().spec_key(),
        )->0.last_geometry.has(x, y))
}

proof fn lemma_joined_cause(parts: Seq<Seq<Rectangle>>, x: int, y: int)
    requires
        covers(joined(parts), x, y),
    ensures
        exists|k: int| 0 <= k < parts.len() && #[trigger] covers(parts[k], x, y),
    decreases parts.len(),
{
    if parts.len() > 0 {
        let head = parts.drop_last();
        covers_concat(joined(head), parts.last(), x, y);
        if covers(joined(head), x, y) {
            lemma_joined_cause(head, x, y);
            let k = choose|k: int| 0 <= k < head.len() && #[trigger] covers(head[k], x, y);
            assert(covers(parts[k], x, y));
        } else {
            assert(covers(parts[parts.len() - 1], x, y));
        }
    }
}

proof fn lemma_gone_cause<E: RenderElement>(
    known: Seq<(Key, ElementState)>,
    elements: Seq<E>,
    drawn: Seq<int>,
    x: int,
    y: int,
)
    requires
        covers(gone(known, elements, drawn), x, y),
    ensures
        exists|k: int|
            0 <= k < known.len() && !is_drawn(elements, drawn, (#[trigger] known[k]).0)
                && known[k].1.last_geometry.has(x, y),
    decreases known.len(),
{
    let whole = gone(known, elements, drawn);
    if known.len() > 0 {
        let head = known.drop_last();
        let part = gone(head, elements, drawn);
        let i = choose|i: int| 0 <= i < whole.len() && (#[trigger] whole[i]).has(x, y);
        if i < part.len() {
            assert(part[i].has(x, y));
            lemma_gone_cause(head, elements, drawn, x, y);
            let k = choose|k: int|
                0 <= k < head.len() && !is_drawn(elements, drawn, (#[trigger] head[k]).0)
                    && head[k].1.last_geometry.has(x, y);
            assert(known[k] == head[k]);
        } else {
            assert(known[known.len() - 1].1.last_geometry.has(x, y));
        }
    }
}

proof fn lemma_shifted_cause<E: RenderElement>(
    known: Seq<(Key, ElementState)>,
    elements: Seq<E>,
    drawn: Seq<int>,
    n: nat,
    x: int,
    y: int,
)
    requires
        n <= drawn.len(),
        covers(shifted(known, elements, drawn, n), x, y),
    ensures
        exists|z: int|
            0 <= z < n && has_moved(elements[#[trigger] drawn[z]], z, known) && (
            elements[drawn[z]].spec_geometry().has(x, y) || lookup(
                known,
                elements[drawn[z]].spec_id().spec_key(),
            )->0.last_geometry.has(x, y)),
    decreases n,
{
    let whole = shifted(known, elements, drawn, n);
    if n > 0 {
        let part = shifted(known, elements, drawn, (n - 1) as nat);
        let i = choose|i: int| 0 <= i < whole.len() && (#[trigger] whole[i]).has(x, y);
        if i < part.len() {
            assert(part[i].has(x, y));
            lemma_shifted_cause(known, elements, drawn, (n - 1) as nat, x, y);
        } else {
            assert(has_moved(elements[drawn[n - 1]], n - 1, known));
        }
    }
}

proof fn lemma_pass_cause<E: RenderElement>(
    elements: Seq<E>,
    n: nat,
    known: Seq<(Key, ElementState)>,
    output: Rectangle,
    start: Seq<Rectangle>,
    x: int,
    y: int,
)
    requires
        all_renderable(elements),
        n <= elements.len(),
        all_valid(start),
        covers(pass(elements, n, known, output, start).damage, x, y),
    ensures
        covers(start, x, y) || exists|i: int|
            0 <= i < n && visible(
                elements[i],
                (#[trigger] pass(elements, i as nat, known, output, start)).opaque,
                output,
            ) && !covers(pass(elements, i as nat, known, output, start).opaque, x, y) && covers(
                elements[i].spec_damage_since(commit_of(known, elements[i].spec_id().spec_key())),
                x - elements[i].spec_geometry().loc.x,
                y - elements[i].spec_geometry().loc.y,
            ),
    decreases n,
{
    if n > 0 {
        let before = pass(elements, (n - 1) as nat, known, output, start);
        let element = elements[n - 1];
        lemma_pass_valid(elements, (n - 1) as nat, known, output, start);
        assert(renderable(element));
        let commit = commit_of(known, element.spec_id().spec_key());
        let damage = element.spec_damage_since(commit);
        let loc = element.spec_geometry().loc;
        covers_concat(before.damage, element_damage(element, known, before.opaque), x, y);
        if covers(before.damage, x, y) {
            lemma_pass_cause(elements, (n - 1) as nat, known, output, start, x, y);
        } else {
            lemma_moved_valid(damage, loc);
            cut_all_covers_difference(all_moved(damage, loc), before.opaque, x, y);
            moved_pixels_are_covered(damage, loc, x, y);
            assert(pass(elements, (n - 1) as nat, known, output, start) == before);
        }
    }
}

/// What a frame finds damaged has one of four causes: the buffer does not hold the last frame there,
/// a drawn element is damaged there where it shows, an element is gone from there, or one has moved
/// away from there or to there.
pub proof fn damage_has_a_cause<E: RenderElement>(
    history: History,
    size: Size,
    age: usize,
    elements: Seq<E>,
    x: int,
    y: int,
)
    requires
        history.valid(),
        size.valid(),
        all_renderable(elements),
        covers(raw_damage(history, size, age, elements), x, y),
    ensures
        ({
            let drawn = frame_pass(history, size, age, elements).drawn;
            ||| stale_at(history, size, age, x, y)
            ||| changed_at(history, elements, drawn, x, y)
            ||| vacated_at(history, elements, drawn, x, y)
            ||| moved_at(history, elements, drawn, x, y)
        }),
{
    let known = history.elements;
    let output = output_geometry(size);
    let start = initial_damage(history, size, age);
    let found = frame_pass(history, size, age, elements);
    let drawn = found.drawn;
    let left = gone(known, elements, drawn);
    let moved = shifted(known, elements, drawn, drawn.len());
    covers_concat(found.damage, left, x, y);
    covers_concat(found.damage + left, moved, x, y);
    if covers(left, x, y) {
        lemma_gone_cause(known, elements, drawn, x, y);
    } else if covers(moved, x, y) {
        lemma_shifted_cause(known, elements, drawn, drawn.len(), x, y);
    } else {
        lemma_initial_valid(history, size, age);
        lemma_pass_cause(elements, elements.len(), known, output, start, x, y);
        if covers(start, x, y) {
            if age > 0 && history.old_damage.len() >= age && history.size == Some(size) {
                let kept = history.old_damage.take(age as int);
                assert(start =~= joined(kept));
                lemma_joined_cause(kept, x, y);
                let k = choose|k: int| 0 <= k < kept.len() && #[trigger] covers(kept[k], x, y);
                assert(covers(history.old_damage[k], x, y));
            }
        } else {
            let i = choose|i: int|
                0 <= i < elements.len() && visible(
                    elements[i],
                    (#[trigger] pass(elements, i as nat, known, output, start)).opaque,
                    output,
                ) && !covers(pass(elements, i as nat, known, output, start).opaque, x, y) && covers(
                    elements[i].spec_damage_since(
                        commit_of(known, elements[i].spec_id().spec_key()),
                    ),
                    x - elements[i].spec_geometry().loc.x,
                    y - elements[i].spec_geometry().loc.y,
                );
            super::drawing::lemma_drawn_if_visible(
                elements,
                elements.len(),
                known,
                output,
                start,
                i,
            );
            lemma_opaque_is_of_drawn(
                elements,
                i as nat,
                elements.len(),
                known,
                output,
                start,
                x,
                y,
            );
            assert(drawn.contains(i));
        }
    }
}

/// A frame without a damaged pixel on the output redraws nothing.
pub proof fn nothing_is_redrawn_without_damage<E: RenderElement>(
    history: History,
    size: Size,
    age: usize,
    elements: Seq<E>,
)
    requires
        history.valid(),
        size.valid(),
        !size.spec_is_empty(),
        all_renderable(elements),
        forall|x: int, y: int|
            0 <= x < size.w && 0 <= y < size.h ==> !#[trigger] covers(
                raw_damage(history, size, age, elements),
                x,
                y,
            ),
    ensures
        frame_damage(history, size, age, elements).len() == 0,
{
    let raw = raw_damage(history, size, age, elements);
    let output = output_geometry(size);
    let found = frame_pass(history, size, age, elements);
    lemma_initial_valid(history, size, age);
    lemma_pass_valid(
        elements,
        elements.len(),
        history.elements,
        output,
        initial_damage(history, size, age),
    );
    lemma_gone(history.elements, elements, found.drawn, 0, 0, 0);
    lemma_shifted(history.elements, elements, found.drawn, found.drawn.len(), 0, 0, 0);
    assert(all_valid(raw));
    let clipped = clip(dedup(raw), output);
    dedup_keeps_pixels(raw, 0, 0);
    clip_keeps_inner_pixels(dedup(raw), output, 0, 0);
    lemma_clip_filled(dedup(raw), output);
    if clipped.len() > 0 {
        let x = clipped[0].loc.x as int;
        let y = clipped[0].loc.y as int;
        assert(clipped[0].valid());
        assert(clipped[0].has(x, y));
        dedup_keeps_pixels(raw, x, y);
        clip_keeps_inner_pixels(dedup(raw), output, x, y);
    }
}

proof fn lemma_apart_all(rects: Seq<Rectangle>, r: Rectangle, touching: bool)
    requires
        forall|i: int| 0 <= i < rects.len() ==> !meets(#[trigger] rects[i], r, touching),
    ensures
        super::damage::apart(rects, r, touching) == rects,
        super::damage::grown(rects, r, touching) == r,
    decreases rects.len(),
{
    if rects.len() > 0 {
        assert(!meets(rects[rects.len() - 1], r, touching));
        lemma_apart_all(rects.drop_last(), r, touching);
        assert(rects.drop_last().push(rects.last()) =~= rects);
    } else {
        assert(super::damage::apart(rects, r, touching) =~= rects);
    }
}

/// Rectangles of which no two overlap, or where that counts touch, are not merged.
pub proof fn separate_damage_is_kept(rects: Seq<Rectangle>, touching: bool)
    requires
        forall|i: int, j: int|
            0 <= i < j < rects.len() ==> !meets(#[trigger] rects[i], #[trigger] rects[j], touching),
    ensures
        merged(rects, touching) == rects,
    decreases rects.len(),
{
    if rects.len() > 0 {
        let head = rects.drop_last();
        assert forall|i: int, j: int| 0 <= i < j < head.len() implies !meets(
            #[trigger] head[i],
            #[trigger] head[j],
            touching,
        ) by {
            assert(head[i] == rects[i] && head[j] == rects[j]);
        }
        separate_damage_is_kept(head, touching);
        assert forall|i: int| 0 <= i < head.len() implies !meets(
            #[trigger] head[i],
            rects.last(),
            touching,
        ) by {
            assert(!meets(rects[i], rects[rects.len() - 1], touching));
        }
        lemma_apart_all(head, rects.last(), touching);
        assert(head.push(rects.last()) =~= rects);
    } else {
        assert(merged(rects, touching) =~= rects);
    }
}

/// Whether rectangles are merged: two that share a pixel always are; where touching does not count,
/// two with pixels are only then.
pub proof fn overlapping_damage_meets(a: Rectangle, b: Rectangle)
    requires
        a.valid(),
        b.valid(),
        !a.spec_is_empty(),
        !b.spec_is_empty(),
    ensures
        meets(a, b, false) <==> exists|x: int, y: int| #[trigger] a.has(x, y) && b.has(x, y),
        meets(a, b, false) ==> meets(a, b, true),
        meets(a, b, false) ==> merged(seq![a, b], false) == seq![a.spec_merge(b)] || merged(
            seq![a, b],
            false,
        ) == seq![b.spec_merge(a)],
{
    crate::utils::geometry::overlap_is_shared_pixel(a, b);
    if meets(a, b, false) {
        let (x, y) = choose|x: int, y: int| a.has(x, y) && b.has(x, y);
        assert(a.has(x, y) && b.has(x, y));
        let both = seq![a, b];
        let one = seq![a];
        assert(both.drop_last() =~= one);
        assert(one.drop_last() =~= Seq::<Rectangle>::empty());
        reveal_with_fuel(merged, 3);
        reveal_with_fuel(super::damage::apart, 3);
        reveal_with_fuel(super::damage::grown, 3);
        let first = merged(one, false);
        assert(first =~= seq![a]);
        assert(first.drop_last() =~= Seq::<Rectangle>::empty());
        assert(merged(both, false) =~= seq![b.spec_merge(a)]);
    }
}

/// What is remembered of a frame: of each drawn element, under its id, its current commit, its place
/// and its depth, which counts from the rear.
pub proof fn frame_is_remembered<E: RenderElement>(elements: Seq<E>, drawn: Seq<int>, z: int)
    requires
        0 <= z < drawn.len() <= usize::MAX,
    ensures
        states_of(elements, drawn).len() == drawn.len(),
        ({
            let (key, state) = states_of(elements, drawn)[z];
            &&& key == elements[drawn[z]].spec_id().spec_key()
            &&& state.last_commit == elements[drawn[z]].spec_current_commit()
            &&& state.last_geometry == elements[drawn[z]].spec_geometry()
            &&& state.last_z_index == z
        }),
{
}

/// A buffer whose contents are unknown, older than what is remembered or of another size is redrawn
/// as a whole.
pub proof fn unusable_contents_are_redrawn<E: RenderElement>(
    history: History,
    size: Size,
    age: usize,
    elements: Seq<E>,
)
    requires
        history.valid(),
        size.valid(),
        !size.spec_is_empty(),
        all_renderable(elements),
        age == 0 || age > history.old_damage.len() || history.size != Some(size),
    ensures
        frame_damage(history, size, age, elements) == seq![output_geometry(size)],
        output_geometry(size).loc.x == 0 && output_geometry(size).loc.y == 0,
        output_geometry(size).size == size,
{
    super::laws::unknown_contents_are_redrawn(history, size, age, elements);
}

/// A remembered element that no drawn element has the id of is redrawn where it was.
pub proof fn forgotten_elements_are_redrawn<E: RenderElement>(
    history: History,
    size: Size,
    age: usize,
    elements: Seq<E>,
    k: int,
    x: int,
    y: int,
)
    requires
        history.valid(),
        size.valid(),
        all_renderable(elements),
        0 <= k < history.elements.len(),
        forall|i: int| #[trigger]
            frame_pass(history, size, age, elements).drawn.contains(i)
                ==> elements[i].spec_id().spec_key() != history.elements[k].0,
        history.elements[k].1.last_geometry.has(x, y),
        0 <= x < size.w,
        0 <= y < size.h,
    ensures
        covers(frame_damage(history, size, age, elements), x, y),
{
    let drawn = frame_pass(history, size, age, elements).drawn;
    if is_drawn(elements, drawn, history.elements[k].0) {
        let j = choose|j: int|
            0 <= j < drawn.len() && elements[#[trigger] drawn[j]].spec_id().spec_key()
                == history.elements[k].0;
        assert(drawn.contains(drawn[j]));
    }
    super::laws::gone_elements_are_redrawn(history, size, age, elements, k, x, y);
}

/// A drawn element that was drawn before at another place, or at another depth, is redrawn where it
/// was and where it is.
pub proof fn displaced_elements_are_redrawn<E: RenderElement>(
    history: History,
    size: Size,
    age: usize,
    elements: Seq<E>,
    z: int,
    x: int,
    y: int,
)
    requires
        history.valid(),
        size.valid(),
        all_renderable(elements),
        0 <= z < frame_pass(history, size, age, elements).drawn.len(),
        ({
            let element = elements[frame_pass(history, size, age, elements).drawn[z]];
            let last = lookup(history.elements, element.spec_id().spec_key());
            &&& last is Some
            &&& last->0.last_geometry != element.spec_geometry() || last->0.last_z_index != z
            &&& element.spec_geometry().has(x, y) || last->0.last_geometry.has(x, y)
        }),
        0 <= x < size.w,
        0 <= y < size.h,
    ensures
        covers(frame_damage(history, size, age, elements), x, y),
{
    super::laws::moved_elements_are_redrawn(history, size, age, elements, z, x, y);
}

/// An element that is drawn as before, at the same place and depth, has not moved; nor has one that
/// was not drawn before.
pub proof fn resting_elements_have_not_moved<E: RenderElement>(
    element: E,
    z: int,
    known: Seq<(Key, ElementState)>,
)
    ensures
        lookup(known, element.spec_id().spec_key()) is None ==> !has_moved(element, z, known),
        lookup(known, element.spec_id().spec_key()) matches Some(state) ==> (has_moved(
            element,
            z,
            known,
        ) <==> state.last_geometry != element.spec_geometry() || state.last_z_index != z),
{
}

/// The damage of an element is asked for since the commit at which it was last drawn, if it was.
pub proof fn damage_is_since_the_last_drawing(known: Seq<(Key, ElementState)>, key: Key)
    ensures
        lookup(known, key) is None <==> commit_of(known, key) is None,
        lookup(known, key) matches Some(state) ==> commit_of(known, key) == Some(
            state.last_commit,
        ),
{
}

/// After a frame its size, its damage and its elements are remembered: the damage before that of all
/// earlier frames, whose order stays, and each element under its id, where a lookup finds it. Frames
/// beyond the age that was asked for are forgotten, and nothing else is.
pub proof fn history_goes_on(
    history: History,
    age: usize,
    size: Size,
    states: Seq<(Key, ElementState)>,
    damage: Seq<Rectangle>,
    i: int,
)
    ensures
        ({
            let after = history.after(size, states, damage);
            &&& after.size == Some(size)
            &&& after.old_damage.len() == history.old_damage.len() + 1
            &&& after.old_damage[0] == damage
            &&& 0 <= i < history.old_damage.len() ==> after.old_damage[i + 1]
                == history.old_damage[i]
            &&& 0 <= i < states.len() ==> lookup(after.elements, states[i].0) is Some
        }),
        ({
            let kept = history.trimmed(age);
            &&& kept.size == history.size
            &&& kept.elements == history.elements
            &&& 0 < age <= history.old_damage.len() ==> kept.old_damage.len() == age
            &&& age == 0 || age > history.old_damage.len() ==> kept.old_damage
                == history.old_damage
            &&& 0 <= i < kept.old_damage.len() ==> kept.old_damage[i] == history.old_damage[i]
        }),
        History::fresh().size is None,
        History::fresh().elements.len() == 0,
        History::fresh().old_damage.len() == 0,
{
    if 0 <= i < states.len() {
        super::laws::drawn_elements_are_remembered(states, i);
    }
}

/// A renderer of fixed measures has those; one of an output has those of the output, as long as it
/// has a mode.
pub proof fn measures_are_those_of_the_output(mode: Mode)
    ensures
        mode matches Mode::Static { size, transform } ==> mode.spec_measures() == Ok::<
            (Size, Transform),
            OutputNoMode,
        >((size, transform)),
        mode matches Mode::Auto(output) ==> {
            &&& mode.spec_measures() is Ok <==> output.current_mode is Some
            &&& mode.spec_measures() matches Ok((size, transform)) ==> Some(size)
                == output.current_mode && transform == output.current_transform
        },
{
}

/// Whatever was remembered and whatever was planned, the frame after one that failed is redrawn as a
/// whole; after one that was drawn, its damage is what the age of one stands for.
pub proof fn failed_frame_is_redrawn<E: RenderElement>(
    history: History,
    size: Size,
    states: Seq<(Key, ElementState)>,
    damage: Seq<Rectangle>,
    next_size: Size,
    age: usize,
    elements: Seq<E>,
)
    requires
        next_size.valid(),
        !next_size.spec_is_empty(),
        all_renderable(elements),
    ensures
        frame_damage(
            history.rendered(size, states, damage, false),
            next_size,
            age,
            elements,
        ) == seq![output_geometry(next_size)],
        history.rendered(size, states, damage, true).size == Some(size),
        history.rendered(size, states, damage, true).old_damage.len() > 0,
        history.rendered(size, states, damage, true).old_damage[0] == damage,
{
    super::laws::failure_forces_full_redraw(next_size, age, elements);
}

} // verus!
