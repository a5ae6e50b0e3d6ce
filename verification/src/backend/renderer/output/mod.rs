//! Damage tracked rendering of an output.
//!
//! A frame takes two steps. [`DamageTrackedRenderer::render_output`] decides what has to be
//! redrawn and in which order; the caller draws that; [`DamageTrackedRenderer::rendered`]
//! takes the outcome and remembers the frame, or forgets everything after a failure.

use std::collections::VecDeque;

use vstd::prelude::*;

use crate::utils::geometry::{Rectangle, Size};
use crate::utils::geometry::rect;
use crate::utils::rects::{all_valid, cut_all, cut_out};
use crate::utils::transform::Transform;

use self::damage::{optimize, optimized};
use self::element::{all_moved, all_movable, move_all, renderable, RenderElement};
use self::element_map::{collected, lookup, position_finds, ElementMap, ElementState, Key};

pub mod causes;
pub mod damage;
pub mod drawing;
pub mod element;
pub mod element_map;
pub mod laws;

verus! {

/// What is known of an output.
#[derive(Clone, Copy, Debug, PartialEq, Eq, Structural)]
pub struct Output {
    /// The size of the current mode, if the output has one.
    pub current_mode: Option<Size>,
    pub current_transform: Transform,
}

/// Where a [`DamageTrackedRenderer`] has its measures from.
#[derive(Clone, Copy, Debug, PartialEq, Eq, Structural)]
pub enum Mode {
    /// Automatic mode based on an output.
    Auto(Output),
    /// Static mode.
    Static { size: Size, transform: Transform },
}

/// The output has no active mode.
#[derive(Clone, Copy, Debug, PartialEq, Eq, Structural)]
pub struct OutputNoMode;

impl Mode {
    pub open spec fn spec_measures(self) -> Result<(Size, Transform), OutputNoMode> {
        match self {
            Mode::Auto(output) => match output.current_mode {
                Some(size) => Ok((size, output.current_transform)),
                None => Err(OutputNoMode),
            },
            Mode::Static { size, transform } => Ok((size, transform)),
        }
    }

    /// The size of the output is not negative.
    pub open spec fn valid(self) -> bool {
        self.spec_measures() matches Ok((size, _)) ==> size.valid()
    }

    /// The size and transform of the output, if it has a mode.
    pub fn measures(self) -> (r: Result<(Size, Transform), OutputNoMode>)
        ensures
            r == self.spec_measures(),
    {
        match self {
            Mode::Auto(output) => match output.current_mode {
                Some(size) => Ok((size, output.current_transform)),
                None => Err(OutputNoMode),
            },
            Mode::Static { size, transform } => Ok((size, transform)),
        }
    }
}

/// Errors of rendering an output, with `E` the error of the renderer.
#[derive(Debug)]
pub enum OutputRenderError<E> {
    /// The renderer returned an error.
    Rendering(E),
    /// The output has no set mode.
    OutputNoMode(OutputNoMode),
}

/// One element to draw and the part of it that is redrawn, relative to the element.
#[derive(Debug)]
pub struct DrawStep {
    /// The position of the element among those that were given.
    pub element: usize,
    pub damage: Vec<Rectangle>,
}

/// What a frame redraws: `damage` is cleared first, then `draws` are drawn in order.
#[derive(Debug)]
pub struct RenderPlan {
    pub damage: Vec<Rectangle>,
    pub draws: Vec<DrawStep>,
    pub transform: Transform,
    /// The size of the output that the plan is for.
    pub size: Size,
    /// What is to be remembered of the visible elements.
    pub states: Vec<(Key, ElementState)>,
}

/// The states behind the rendering decisions, as mathematical values.
#[verifier::ext_equal]
pub struct History {
    pub size: Option<Size>,
    pub elements: Seq<(Key, ElementState)>,
    pub old_damage: Seq<Seq<Rectangle>>,
}

/// What the front to back pass over the elements has found.
#[verifier::ext_equal]
pub struct Pass {
    pub damage: Seq<Rectangle>,
    pub opaque: Seq<Rectangle>,
    /// The positions of the visible elements, the rearmost first.
    pub drawn: Seq<int>,
}

/// The rectangles of a sequence of sequences, in order.
pub open spec fn joined(parts: Seq<Seq<Rectangle>>) -> Seq<Rectangle>
    decreases parts.len(),
{
    if parts.len() == 0 {
        Seq::empty()
    } else {
        joined(parts.drop_last()) + parts.last()
    }
}

/// Whether the damage of the last `age` frames is known.
pub open spec fn age_known(history: History, age: usize) -> bool {
    age > 0 && history.old_damage.len() >= age
}

/// The output at its own origin.
pub open spec fn output_geometry(size: Size) -> Rectangle {
    rect(0, 0, size.w as int, size.h as int)
}

/// The damage that a frame starts with: that of the last `age` frames, and all of the output
/// if those are not known or the size changed.
pub open spec fn initial_damage(history: History, size: Size, age: usize) -> Seq<Rectangle> {
    if age_known(history, age) {
        let first = if history.size == Some(size) {
            Seq::empty()
        } else {
            seq![output_geometry(size)]
        };
        first + joined(history.old_damage.take(age as int))
    } else {
        seq![output_geometry(size)]
    }
}

/// Whether an element is on the output and not completely behind `opaque`.
pub open spec fn visible<E: RenderElement>(
    element: E,
    opaque: Seq<Rectangle>,
    output: Rectangle,
) -> bool {
    &&& element.spec_geometry().spec_overlaps(output)
    &&& cut_all(seq![element.spec_geometry()], opaque).len() > 0
}

/// The commit at which an element was last drawn.
pub open spec fn commit_of(elements: Seq<(Key, ElementState)>, key: Key) -> Option<usize> {
    match lookup(elements, key) {
        Some(state) => Some(state.last_commit),
        None => None,
    }
}

/// The new damage of an element on the output, apart from what `opaque` hides.
pub open spec fn element_damage<E: RenderElement>(
    element: E,
    known: Seq<(Key, ElementState)>,
    opaque: Seq<Rectangle>,
) -> Seq<Rectangle> {
    cut_all(
        all_moved(
            element.spec_damage_since(commit_of(known, element.spec_id().spec_key())),
            element.spec_geometry().loc,
        ),
        opaque,
    )
}

/// The pass over the first `n` elements, front to back.
pub open spec fn pass<E: RenderElement>(
    elements: Seq<E>,
    n: nat,
    known: Seq<(Key, ElementState)>,
    output: Rectangle,
    start: Seq<Rectangle>,
) -> Pass
    decreases n,
{
    if n == 0 {
        Pass { damage: start, opaque: Seq::empty(), drawn: Seq::empty() }
    } else {
        let before = pass(elements, (n - 1) as nat, known, output, start);
        let element = elements[n - 1];
        if visible(element, before.opaque, output) {
            Pass {
                damage: before.damage + element_damage(element, known, before.opaque),
                opaque: before.opaque + all_moved(
                    element.spec_opaque_regions(),
                    element.spec_geometry().loc,
                ),
                drawn: seq![n - 1] + before.drawn,
            }
        } else {
            before
        }
    }
}

/// Whether an element with the key is among those drawn.
pub open spec fn is_drawn<E: RenderElement>(
    elements: Seq<E>,
    drawn: Seq<int>,
    key: Key,
) -> bool {
    exists|j: int|
        0 <= j < drawn.len() && elements[#[trigger] drawn[j]].spec_id().spec_key() == key
}

/// The last places of the elements that were drawn before and are not drawn now.
pub open spec fn gone<E: RenderElement>(
    known: Seq<(Key, ElementState)>,
    elements: Seq<E>,
    drawn: Seq<int>,
) -> Seq<Rectangle>
    decreases known.len(),
{
    if known.len() == 0 {
        Seq::empty()
    } else if is_drawn(elements, drawn, known.last().0) {
        gone(known.drop_last(), elements, drawn)
    } else {
        gone(known.drop_last(), elements, drawn).push(known.last().1.last_geometry)
    }
}

/// Whether an element was drawn before, at another place or at another depth.
pub open spec fn has_moved<E: RenderElement>(
    element: E,
    z_index: int,
    known: Seq<(Key, ElementState)>,
) -> bool {
    lookup(known, element.spec_id().spec_key()) matches Some(state) && (state.last_geometry
        != element.spec_geometry() || state.last_z_index != z_index)
}

/// The old and the new place of each of the first `n` drawn elements that moved.
pub open spec fn shifted<E: RenderElement>(
    known: Seq<(Key, ElementState)>,
    elements: Seq<E>,
    drawn: Seq<int>,
    n: nat,
) -> Seq<Rectangle>
    decreases n,
{
    if n == 0 {
        Seq::empty()
    } else {
        let before = shifted(known, elements, drawn, (n - 1) as nat);
        let element = elements[drawn[n - 1]];
        if has_moved(element, n - 1, known) {
            before.push(
                lookup(known, element.spec_id().spec_key())->0.last_geometry,
            ).push(element.spec_geometry())
        } else {
            before
        }
    }
}

/// The pass over all elements of a frame.
pub open spec fn frame_pass<E: RenderElement>(
    history: History,
    size: Size,
    age: usize,
    elements: Seq<E>,
) -> Pass {
    pass(
        elements,
        elements.len(),
        history.elements,
        output_geometry(size),
        initial_damage(history, size, age),
    )
}

/// All damage of a frame.
pub open spec fn raw_damage<E: RenderElement>(
    history: History,
    size: Size,
    age: usize,
    elements: Seq<E>,
) -> Seq<Rectangle> {
    let found = frame_pass(history, size, age, elements);
    found.damage + gone(history.elements, elements, found.drawn) + shifted(
        history.elements,
        elements,
        found.drawn,
        found.drawn.len(),
    )
}

/// The rectangles that a frame redraws.
pub open spec fn frame_damage<E: RenderElement>(
    history: History,
    size: Size,
    age: usize,
    elements: Seq<E>,
) -> Seq<Rectangle> {
    optimized(raw_damage(history, size, age, elements), output_geometry(size))
}

/// The parts of `damage` on an element, relative to it.
pub open spec fn local_damage(damage: Seq<Rectangle>, geometry: Rectangle) -> Seq<Rectangle>
    decreases damage.len(),
{
    if damage.len() == 0 {
        Seq::empty()
    } else {
        let before = local_damage(damage.drop_last(), geometry);
        match damage.last().spec_intersection(geometry) {
            Some(part) => before.push(part.spec_relative_to(geometry.loc)),
            None => before,
        }
    }
}

/// The elements that are drawn, of the first `n` visible ones, with their part of the damage.
pub open spec fn steps<E: RenderElement>(
    elements: Seq<E>,
    drawn: Seq<int>,
    damage: Seq<Rectangle>,
    n: nat,
) -> Seq<(int, Seq<Rectangle>)>
    decreases n,
{
    if n == 0 {
        Seq::empty()
    } else {
        let before = steps(elements, drawn, damage, (n - 1) as nat);
        let local = local_damage(damage, elements[drawn[n - 1]].spec_geometry());
        if local.len() == 0 {
            before
        } else {
            before.push((drawn[n - 1], local))
        }
    }
}

/// What is remembered of the visible elements.
pub open spec fn states_of<E: RenderElement>(elements: Seq<E>, drawn: Seq<int>) -> Seq<
    (Key, ElementState),
> {
    Seq::new(
        drawn.len(),
        |z: int|
            (
                elements[drawn[z]].spec_id().spec_key(),
                ElementState {
                    last_commit: elements[drawn[z]].spec_current_commit(),
                    last_geometry: elements[drawn[z]].spec_geometry(),
                    last_z_index: z as usize,
                },
            ),
    )
}

/// Every remembered place is valid.
pub open spec fn states_valid(states: Seq<(Key, ElementState)>) -> bool {
    forall|i: int| 0 <= i < states.len() ==> (#[trigger] states[i]).1.last_geometry.valid()
}

/// Every rectangle of every part is valid.
pub open spec fn parts_valid(parts: Seq<Seq<Rectangle>>) -> bool {
    forall|i: int| 0 <= i < parts.len() ==> all_valid(#[trigger] parts[i])
}

impl History {
    pub open spec fn valid(self) -> bool {
        states_valid(self.elements) && parts_valid(self.old_damage)
    }

    /// Nothing is remembered.
    pub open spec fn fresh() -> History {
        History { size: None, elements: Seq::empty(), old_damage: Seq::empty() }
    }

    /// Frames older than `age` are forgotten once the last `age` frames are known.
    pub open spec fn trimmed(self, age: usize) -> History {
        if age_known(self, age) {
            History { old_damage: self.old_damage.take(age as int), ..self }
        } else {
            self
        }
    }

    /// The history after a frame was drawn.
    pub open spec fn after(
        self,
        size: Size,
        states: Seq<(Key, ElementState)>,
        damage: Seq<Rectangle>,
    ) -> History {
        History {
            size: Some(size),
            elements: collected(states),
            old_damage: seq![damage] + self.old_damage,
        }
    }

    /// The history after a frame was to be drawn: one that was is remembered, and after one that
    /// failed nothing is.
    pub open spec fn rendered(
        self,
        size: Size,
        states: Seq<(Key, ElementState)>,
        damage: Seq<Rectangle>,
        drawn: bool,
    ) -> History {
        if drawn {
            self.after(size, states, damage)
        } else {
            History::fresh()
        }
    }
}

impl RenderPlan {
    /// The elements to draw with their damage.
    pub open spec fn spec_draws(self) -> Seq<(int, Seq<Rectangle>)> {
        Seq::new(
            self.draws.len() as nat,
            |i: int| (self.draws[i].element as int, self.draws[i].damage@),
        )
    }

    pub open spec fn valid(self) -> bool {
        all_valid(self.damage@) && states_valid(self.states@)
    }
}

/// Rendering for a single output.
pub struct DamageTrackedRenderer {
    mode: Mode,
    size: Option<Size>,
    elements: ElementMap,
    old_damage: VecDeque<Vec<Rectangle>>,
}

proof fn lemma_joined_valid(parts: Seq<Seq<Rectangle>>)
    requires
        parts_valid(parts),
    ensures
        all_valid(joined(parts)),
    decreases parts.len(),
{
    if parts.len() > 0 {
        lemma_joined_valid(parts.drop_last());
        assert(all_valid(parts.last()));
    }
}

proof fn lemma_collected_valid(states: Seq<(Key, ElementState)>)
    requires
        states_valid(states),
    ensures
        states_valid(collected(states)),
    decreases states.len(),
{
    if states.len() > 0 {
        let head = states.drop_last();
        lemma_collected_valid(head);
        position_finds(collected(head), states.last().0);
        assert(states[states.len() - 1].1.last_geometry.valid());
    }
}

proof fn lemma_lookup_valid(states: Seq<(Key, ElementState)>, key: Key)
    requires
        states_valid(states),
    ensures
        lookup(states, key) matches Some(state) ==> state.last_geometry.valid(),
{
    position_finds(states, key);
}

impl DamageTrackedRenderer {
    pub closed spec fn spec_mode(self) -> Mode {
        self.mode
    }

    /// What is remembered of earlier frames.
    pub closed spec fn history(self) -> History {
        History {
            size: self.size,
            elements: self.elements@,
            old_damage: Seq::new(self.old_damage@.len(), |i: int| self.old_damage@[i]@),
        }
    }

    pub open spec fn valid(self) -> bool {
        self.spec_mode().valid() && self.history().valid()
    }

    /// A renderer for an output of fixed measures.
    pub fn new(size: Size, transform: Transform) -> (r: Self)
        requires
            size.valid(),
        ensures
            r.spec_mode() == (Mode::Static { size, transform }),
            r.history() == History::fresh(),
            r.valid(),
    {
        let r = DamageTrackedRenderer {
            mode: Mode::Static { size, transform },
            size: None,
            elements: ElementMap::new(),
            old_damage: VecDeque::new(),
        };
        assert(r.history() =~= History::fresh());
        r
    }

    /// A renderer for an output that may change its mode.
    pub fn from_output(output: &Output) -> (r: Self)
        requires
            output.current_mode matches Some(size) ==> size.valid(),
        ensures
            r.spec_mode() == Mode::Auto(*output),
            r.history() == History::fresh(),
            r.valid(),
    {
        let r = DamageTrackedRenderer {
            mode: Mode::Auto(*output),
            size: None,
            elements: ElementMap::new(),
            old_damage: VecDeque::new(),
        };
        assert(r.history() =~= History::fresh());
        r
    }

    /// The mode of the renderer.
    pub fn mode(&self) -> (mode: &Mode)
        ensures
            *mode == self.spec_mode(),
    {
        &self.mode
    }

    /// Takes note of what the output has become, if the mode is automatic.
    pub fn update_output(&mut self, output: &Output)
        requires
            old(self).valid(),
            output.current_mode matches Some(size) ==> size.valid(),
        ensures
            final(self).history() == old(self).history(),
            final(self).spec_mode() == (match old(self).spec_mode() {
                Mode::Auto(_) => Mode::Auto(*output),
                Mode::Static { size, transform } => Mode::Static { size, transform },
            }),
            final(self).valid(),
    {
        if let Mode::Auto(_) = self.mode {
            self.mode = Mode::Auto(*output);
        }
        assert(self.history() =~= old(self).history());
    }

    /// The damage of all remembered frames, the newest first.
    fn join_old_damage(&self) -> (damage: Vec<Rectangle>)
        requires
            self.history().valid(),
        ensures
            damage@ == joined(self.history().old_damage),
            all_valid(damage@),
    {
        let ghost parts = self.history().old_damage;
        let mut damage: Vec<Rectangle> = Vec::new();
        assert(parts.take(0) =~= Seq::<Seq<Rectangle>>::empty());
        for i in 0..self.old_damage.len()
            invariant
                parts == self.history().old_damage,
                damage@ == joined(parts.take(i as int)),
        {
            assert(parts.take(i as int + 1).drop_last() =~= parts.take(i as int));
            assert(parts[i as int] == self.old_damage@[i as int]@);
            let frame: &Vec<Rectangle> = &self.old_damage[i];
            let ghost before = damage@;
            for j in 0..frame.len()
                invariant
                    damage@ == before + frame@.take(j as int),
            {
                damage.push(frame[j]);
                assert(damage@ =~= before + frame@.take(j as int + 1));
            }
            assert(frame@.take(frame.len() as int) =~= frame@);
        }
        assert(parts.take(parts.len() as int) =~= parts);
        proof {
            lemma_joined_valid(parts);
        }
        damage
    }

    /// The damage that the frame starts with; forgets the frames that are no longer needed.
    fn start_damage(&mut self, size: Size, age: usize) -> (damage: Vec<Rectangle>)
        requires
            old(self).valid(),
            size.valid(),
        ensures
            damage@ == initial_damage(old(self).history(), size, age),
            all_valid(damage@),
            final(self).history() == old(self).history().trimmed(age),
            final(self).spec_mode() == old(self).spec_mode(),
            final(self).valid(),
    {
        let whole = Rectangle::from_size(size);
        let mut damage: Vec<Rectangle> = Vec::new();
        let same: bool = match self.size {
            Some(last) => last == size,
            None => false,
        };
        if age > 0 && self.old_damage.len() >= age {
            if !same {
                damage.push(whole);
            }
            self.old_damage.truncate(age);
            assert(self.history() =~= old(self).history().trimmed(age));
            let mut older = self.join_old_damage();
            damage.append(&mut older);
            assert(damage@ =~= initial_damage(old(self).history(), size, age));
        } else {
            damage.push(whole);
            assert(self.history() =~= old(self).history().trimmed(age));
            assert(damage@ =~= initial_damage(old(self).history(), size, age));
        }
        damage
    }

    /// Whether none of the drawn elements has the key.
    fn not_drawn<E: RenderElement>(elements: &Vec<E>, drawn: &Vec<usize>, key: Key) -> (r: bool)
        requires
            forall|j: int| 0 <= j < drawn.len() ==> (#[trigger] drawn@[j]) < elements.len(),
        ensures
            r == !is_drawn(elements@, positions(drawn@), key),
    {
        for j in 0..drawn.len()
            invariant
                forall|j: int| 0 <= j < drawn.len() ==> (#[trigger] drawn@[j]) < elements.len(),
                forall|k: int|
                    0 <= k < j ==> elements@[#[trigger] positions(
                        drawn@,
                    )[k]].spec_id().spec_key() != key,
        {
            let other = elements[drawn[j]].id().key();
            assert(positions(drawn@)[j as int] == drawn@[j as int]);
            if other.0 == key.0 && other.1 == key.1 {
                return false;
            }
        }
        true
    }

    /// Adds the last places of the elements that are gone.
    fn add_gone<E: RenderElement>(
        &self,
        damage: &mut Vec<Rectangle>,
        elements: &Vec<E>,
        drawn: &Vec<usize>,
    )
        requires
            self.history().valid(),
            all_valid(old(damage)@),
            forall|j: int| 0 <= j < drawn.len() ==> (#[trigger] drawn@[j]) < elements.len(),
        ensures
            final(damage)@ == old(damage)@ + gone(
                self.history().elements,
                elements@,
                positions(drawn@),
            ),
            all_valid(final(damage)@),
    {
        let ghost known = self.elements@;
        let ghost start = damage@;
        assert(known.take(0) =~= Seq::<(Key, ElementState)>::empty());
        assert(damage@ =~= start + gone(known.take(0), elements@, positions(drawn@)));
        let count: usize = self.elements.len();
        for i in 0..count
            invariant
                count == known.len(),
                damage@ == start + gone(known.take(i as int), elements@, positions(drawn@)),
                known == self.elements@,
                states_valid(known),
                all_valid(damage@),
                forall|j: int| 0 <= j < drawn.len() ==> (#[trigger] drawn@[j]) < elements.len(),
        {
            assert(known.take(i as int + 1).drop_last() =~= known.take(i as int));
            if let Some(entry) = self.elements.get_index(i) {
                assert(known[i as int] == entry);
                if Self::not_drawn(elements, drawn, entry.0) {
                    damage.push(entry.1.last_geometry);
                }
            }
            assert(damage@ =~= start + gone(
                known.take(i as int + 1),
                elements@,
                positions(drawn@),
            ));
        }
        assert(known.take(known.len() as int) =~= known);
    }

    /// Adds the old and new places of the elements that moved.
    fn add_shifted<E: RenderElement>(
        &self,
        damage: &mut Vec<Rectangle>,
        elements: &Vec<E>,
        drawn: &Vec<usize>,
    )
        requires
            self.history().valid(),
            all_valid(old(damage)@),
            forall|j: int| 0 <= j < elements.len() ==> renderable(#[trigger] elements@[j]),
            forall|j: int| 0 <= j < drawn.len() ==> (#[trigger] drawn@[j]) < elements.len(),
        ensures
            final(damage)@ == old(damage)@ + shifted(
                self.history().elements,
                elements@,
                positions(drawn@),
                drawn@.len(),
            ),
            all_valid(final(damage)@),
    {
        let ghost known = self.elements@;
        let ghost start = damage@;
        assert(damage@ =~= start + shifted(known, elements@, positions(drawn@), 0));
        for z in 0..drawn.len()
            invariant
                damage@ == start + shifted(known, elements@, positions(drawn@), z as nat),
                known == self.elements@,
                states_valid(known),
                all_valid(damage@),
                forall|j: int| 0 <= j < elements.len() ==> renderable(#[trigger] elements@[j]),
                forall|j: int| 0 <= j < drawn.len() ==> (#[trigger] drawn@[j]) < elements.len(),
        {
            assert(positions(drawn@)[z as int] == drawn@[z as int]);
            let element: &E = &elements[drawn[z]];
            assert(renderable(elements@[drawn@[z as int] as int]));
            let geometry = element.geometry();
            let key = element.id().key();
            proof {
                lemma_lookup_valid(known, key);
            }
            if let Some(state) = self.elements.get(key) {
                if state.last_geometry != geometry || state.last_z_index != z {
                    damage.push(state.last_geometry);
                    damage.push(geometry);
                }
            }
            assert(damage@ =~= start + shifted(
                known,
                elements@,
                positions(drawn@),
                (z + 1) as nat,
            ));
        }
    }

    /// Walks the elements front to back; gives the positions of the visible ones, the
    /// rearmost first, and adds their new damage.
    fn add_elements<E: RenderElement>(
        &self,
        damage: &mut Vec<Rectangle>,
        elements: &Vec<E>,
        output: Rectangle,
    ) -> (drawn: Vec<usize>)
        requires
            self.history().valid(),
            all_valid(old(damage)@),
            output.valid(),
            forall|j: int| 0 <= j < elements.len() ==> renderable(#[trigger] elements@[j]),
        ensures
            ({
                let found = pass(
                    elements@,
                    elements@.len(),
                    self.history().elements,
                    output,
                    old(damage)@,
                );
                final(damage)@ == found.damage && positions(drawn@) == found.drawn
            }),
            all_valid(final(damage)@),
            forall|j: int| 0 <= j < drawn.len() ==> (#[trigger] drawn@[j]) < elements.len(),
    {
        let ghost known = self.elements@;
        let ghost start = damage@;
        let mut opaque: Vec<Rectangle> = Vec::new();
        let mut drawn: Vec<usize> = Vec::new();
        assert(positions(drawn@) =~= Seq::<int>::empty());
        assert(opaque@ =~= Seq::<Rectangle>::empty());
        for i in 0..elements.len()
            invariant
                known == self.elements@,
                all_valid(damage@),
                all_valid(opaque@),
                output.valid(),
                forall|j: int| 0 <= j < elements.len() ==> renderable(#[trigger] elements@[j]),
                forall|j: int| 0 <= j < drawn.len() ==> (#[trigger] drawn@[j]) < elements.len(),
                ({
                    let found = pass(elements@, i as nat, known, output, start);
                    &&& damage@ == found.damage
                    &&& opaque@ == found.opaque
                    &&& positions(drawn@) == found.drawn
                }),
        {
            let element: &E = &elements[i];
            assert(renderable(elements@[i as int]));
            let geometry = element.geometry();
            if geometry.overlaps(output) {
                let mut alone: Vec<Rectangle> = Vec::new();
                alone.push(geometry);
                assert(alone@ =~= seq![geometry]);
                let left = cut_out(alone, &opaque);
                if left.len() > 0 {
                    let commit: Option<usize> = match self.elements.get(element.id().key()) {
                        Some(state) => Some(state.last_commit),
                        None => None,
                    };
                    let relative = element.damage_since(commit);
                    assert(all_movable(element.spec_damage_since(commit), geometry.loc));
                    let placed = move_all(&relative, geometry.loc);
                    let mut shown = cut_out(placed, &opaque);
                    damage.append(&mut shown);
                    let regions = element.opaque_regions();
                    let mut placed_regions = move_all(&regions, geometry.loc);
                    opaque.append(&mut placed_regions);
                    let ghost before = drawn@;
                    drawn.insert(0, i);
                    proof {
                        assert(drawn@ =~= seq![i] + before);
                        assert(positions(drawn@) =~= seq![i as int] + positions(before));
                        let found = pass(elements@, i as nat, known, output, start);
                        assert(visible(elements@[i as int], found.opaque, output));
                    }
                } else {
                    assert(!visible(
                        elements@[i as int],
                        pass(elements@, i as nat, known, output, start).opaque,
                        output,
                    ));
                }
            }
        }
        drawn
    }

    /// The part of the damage on an element, relative to it.
    pub(crate) fn damage_on(damage: &Vec<Rectangle>, geometry: Rectangle) -> (local: Vec<Rectangle>)
        requires
            all_valid(damage@),
            geometry.valid(),
        ensures
            local@ == local_damage(damage@, geometry),
    {
        let mut local: Vec<Rectangle> = Vec::new();
        assert(damage@.take(0) =~= Seq::<Rectangle>::empty());
        for i in 0..damage.len()
            invariant
                all_valid(damage@),
                geometry.valid(),
                local@ == local_damage(damage@.take(i as int), geometry),
        {
            assert(damage@.take(i as int + 1).drop_last() =~= damage@.take(i as int));
            if let Some(part) = damage[i].intersection(geometry) {
                local.push(part.relative_to(geometry.loc));
            }
        }
        assert(damage@.take(damage.len() as int) =~= damage@);
        local
    }

    /// The elements to draw, rearmost first.
    pub(crate) fn draw_steps<E: RenderElement>(
        damage: &Vec<Rectangle>,
        elements: &Vec<E>,
        drawn: &Vec<usize>,
    ) -> (draws: Vec<DrawStep>)
        requires
            all_valid(damage@),
            forall|j: int| 0 <= j < elements.len() ==> renderable(#[trigger] elements@[j]),
            forall|j: int| 0 <= j < drawn.len() ==> (#[trigger] drawn@[j]) < elements.len(),
        ensures
            draws_view(draws@) == steps(elements@, positions(drawn@), damage@, drawn@.len()),
    {
        let mut draws: Vec<DrawStep> = Vec::new();
        assert(draws_view(draws@) =~= steps(elements@, positions(drawn@), damage@, 0));
        for z in 0..drawn.len()
            invariant
                all_valid(damage@),
                forall|j: int| 0 <= j < elements.len() ==> renderable(#[trigger] elements@[j]),
                forall|j: int| 0 <= j < drawn.len() ==> (#[trigger] drawn@[j]) < elements.len(),
                draws_view(draws@) == steps(elements@, positions(drawn@), damage@, z as nat),
        {
            assert(positions(drawn@)[z as int] == drawn@[z as int]);
            let index: usize = drawn[z];
            assert(renderable(elements@[index as int]));
            let local = Self::damage_on(damage, elements[index].geometry());
            let ghost before = draws@;
            if local.len() > 0 {
                draws.push(DrawStep { element: index, damage: local });
                assert(draws_view(draws@) =~= draws_view(before).push((index as int, local@)));
            }
            assert(draws_view(draws@) =~= steps(
                elements@,
                positions(drawn@),
                damage@,
                (z + 1) as nat,
            ));
        }
        draws
    }

    /// What is to be remembered of the visible elements.
    fn element_states<E: RenderElement>(elements: &Vec<E>, drawn: &Vec<usize>) -> (states: Vec<
        (Key, ElementState),
    >)
        requires
            forall|j: int| 0 <= j < elements.len() ==> renderable(#[trigger] elements@[j]),
            forall|j: int| 0 <= j < drawn.len() ==> (#[trigger] drawn@[j]) < elements.len(),
        ensures
            states@ == states_of(elements@, positions(drawn@)),
            states_valid(states@),
    {
        let mut states: Vec<(Key, ElementState)> = Vec::new();
        for z in 0..drawn.len()
            invariant
                forall|j: int| 0 <= j < elements.len() ==> renderable(#[trigger] elements@[j]),
                forall|j: int| 0 <= j < drawn.len() ==> (#[trigger] drawn@[j]) < elements.len(),
                states@ == states_of(elements@, positions(drawn@)).take(z as int),
                states_valid(states@),
        {
            assert(positions(drawn@)[z as int] == drawn@[z as int]);
            let element: &E = &elements[drawn[z]];
            assert(renderable(elements@[drawn@[z as int] as int]));
            states.push(
                (
                    element.id().key(),
                    ElementState {
                        last_commit: element.current_commit(),
                        last_geometry: element.geometry(),
                        last_z_index: z,
                    },
                ),
            );
            assert(states@ =~= states_of(elements@, positions(drawn@)).take(z as int + 1));
        }
        assert(states@ =~= states_of(elements@, positions(drawn@)));
        states
    }

    /// Decides what a frame redraws.
    ///
    /// `age` is the number of frames since the contents of the buffer were drawn, zero if they
    /// are unknown. `elements` are given front to back. Nothing has to be done for the frame
    /// where no plan is returned; a plan is handed back to
    /// [`rendered`](DamageTrackedRenderer::rendered) once it was carried out.
    pub fn render_output<E: RenderElement>(
        &mut self,
        age: usize,
        elements: &Vec<E>,
    ) -> (r: Result<Option<RenderPlan>, OutputNoMode>)
        requires
            old(self).valid(),
            forall|j: int| 0 <= j < elements.len() ==> renderable(#[trigger] elements@[j]),
        ensures
            final(self).valid(),
            final(self).spec_mode() == old(self).spec_mode(),
            match old(self).spec_mode().spec_measures() {
                Err(e) => r == Err::<Option<RenderPlan>, OutputNoMode>(e) && final(self).history()
                    == old(self).history(),
                Ok((size, transform)) => {
                    let before = old(self).history();
                    let damage = frame_damage(before, size, age, elements@);
                    let drawn = frame_pass(before, size, age, elements@).drawn;
                    &&& final(self).history() == before.trimmed(age)
                    &&& r is Ok
                    &&& r->Ok_0 is None <==> damage.len() == 0
                    &&& r->Ok_0 matches Some(plan) ==> {
                        &&& plan.valid()
                        &&& plan.damage@ == damage
                        &&& plan.spec_draws() == steps(elements@, drawn, damage, drawn.len())
                        &&& plan.states@ == states_of(elements@, drawn)
                        &&& plan.size == size
                        &&& plan.transform == transform
                    }
                },
            },
    {
        let (size, transform) = match self.mode.measures() {
            Ok(measures) => measures,
            Err(e) => {
                return Err(e);
            },
        };
        let output = Rectangle::from_size(size);
        let ghost before = self.history();
        let mut damage = self.start_damage(size, age);
        let drawn = self.add_elements(&mut damage, elements, output);
        self.add_gone(&mut damage, elements, &drawn);
        self.add_shifted(&mut damage, elements, &drawn);
        assert(damage@ =~= raw_damage(before, size, age, elements@));
        let damage = optimize(&damage, output);
        if damage.len() == 0 {
            return Ok(None);
        }
        let draws = Self::draw_steps(&damage, elements, &drawn);
        let states = Self::element_states(elements, &drawn);
        let plan = RenderPlan { damage, draws, transform, size, states };
        assert(plan.spec_draws() =~= draws_view(plan.draws@));
        Ok(Some(plan))
    }

    /// Takes the outcome of a plan: a frame that was drawn is remembered and its damage
    /// returned; after an error the buffer may be partly updated, so everything is forgotten.
    pub fn rendered<F>(&mut self, plan: RenderPlan, outcome: Result<(), F>) -> (r: Result<
        Vec<Rectangle>,
        OutputRenderError<F>,
    >)
        requires
            old(self).valid(),
            plan.valid(),
        ensures
            final(self).valid(),
            final(self).spec_mode() == old(self).spec_mode(),
            final(self).history() == old(self).history().rendered(
                plan.size,
                plan.states@,
                plan.damage@,
                outcome is Ok,
            ),
            match outcome {
                Ok(_) => {
                    &&& r matches Ok(damage) && damage@ == plan.damage@
                    &&& final(self).history() == old(self).history().after(
                        plan.size,
                        plan.states@,
                        plan.damage@,
                    )
                },
                Err(e) => {
                    &&& r == Err::<Vec<Rectangle>, OutputRenderError<F>>(
                        OutputRenderError::Rendering(e),
                    )
                    &&& final(self).history() == History::fresh()
                },
            },
    {
        match outcome {
            Ok(_) => {
                proof {
                    lemma_collected_valid(plan.states@);
                }
                self.size = Some(plan.size);
                self.elements = ElementMap::collect(&plan.states);
                let kept = copy_rects(&plan.damage);
                self.old_damage.push_front(kept);
                assert(self.history() =~= old(self).history().after(
                    plan.size,
                    plan.states@,
                    plan.damage@,
                ));
                Ok(plan.damage)
            },
            Err(e) => {
                self.size = None;
                self.elements = ElementMap::new();
                self.old_damage.clear();
                assert(self.history() =~= History::fresh());
                Err(OutputRenderError::Rendering(e))
            },
        }
    }
}

/// A copy of the rectangles.
pub fn copy_rects(rects: &Vec<Rectangle>) -> (out: Vec<Rectangle>)
    ensures
        out@ == rects@,
{
    let mut out: Vec<Rectangle> = Vec::new();
    for i in 0..rects.len()
        invariant
            out@ == rects@.take(i as int),
    {
        out.push(rects[i]);
        assert(out@ =~= rects@.take(i as int + 1));
    }
    assert(out@ =~= rects@);
    out
}

/// The steps as mathematical values.
pub open spec fn draws_view(draws: Seq<DrawStep>) -> Seq<(int, Seq<Rectangle>)> {
    Seq::new(draws.len(), |i: int| (draws[i].element as int, draws[i].damage@))
}

/// Positions as integers.
pub open spec fn positions(drawn: Seq<usize>) -> Seq<int> {
    Seq::new(drawn.len(), |i: int| drawn[i] as int)
}

} // verus!
