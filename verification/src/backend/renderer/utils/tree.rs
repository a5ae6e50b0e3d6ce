//! The surfaces of a compositor, with what renderers keep of each.

use std::collections::HashMap;

use vstd::prelude::*;

use crate::utils::geometry::Point;

use super::wayland::{ImportRequest, RendererSurfaceState, SurfaceCommit, TraversalAction};

verus! {

/// What renderers keep of the surfaces. Surfaces are told apart by a number.
pub struct SurfaceStates<T> {
    pub states: HashMap<u64, RendererSurfaceState<T>>,
}

/// No surface is committed twice.
pub open spec fn distinct(commits: Seq<(u64, SurfaceCommit)>) -> bool {
    forall|i: int, j: int|
        0 <= i < j < commits.len() ==> (#[trigger] commits[i]).0 != (#[trigger] commits[j]).0
}

/// The surfaces that were not known before, in order.
pub open spec fn unknown<T>(
    states: Map<u64, RendererSurfaceState<T>>,
    commits: Seq<(u64, SurfaceCommit)>,
) -> Seq<u64>
    decreases commits.len(),
{
    if commits.len() == 0 {
        Seq::empty()
    } else if states.contains_key(commits.last().0) {
        unknown(states, commits.drop_last())
    } else {
        unknown(states, commits.drop_last()).push(commits.last().0)
    }
}

/// The state of a surface after a commit: one that was not known starts anew.
pub open spec fn committed<T>(
    before: Map<u64, RendererSurfaceState<T>>,
    surface: u64,
    commit: SurfaceCommit,
    after: RendererSurfaceState<T>,
) -> bool {
    if before.contains_key(surface) {
        after.updated(before[surface], commit)
    } else {
        exists|fresh: RendererSurfaceState<T>| #[trigger]
            fresh.is_new() && after.updated(fresh, commit)
    }
}

/// Whether a surface is among the first that are committed.
pub open spec fn touched(commits: Seq<(u64, SurfaceCommit)>, n: int, surface: u64) -> bool {
    exists|i: int| 0 <= i < n && (#[trigger] commits[i]).0 == surface
}

/// Nothing changed for a surface.
pub open spec fn unchanged<T>(
    before: Map<u64, RendererSurfaceState<T>>,
    after: Map<u64, RendererSurfaceState<T>>,
    surface: u64,
) -> bool {
    &&& before.contains_key(surface) <==> after.contains_key(surface)
    &&& before.contains_key(surface) ==> before[surface] == after[surface]
}

impl<T> SurfaceStates<T> {
    pub open spec fn valid(self) -> bool {
        forall|surface: u64| #[trigger]
            self.states@.contains_key(surface) ==> self.states@[surface].valid()
    }

    /// Whether the renderer has a texture of the surface.
    pub open spec fn has_texture(self, surface: u64, renderer: u64) -> bool {
        self.states@.contains_key(surface) && self.states@[surface].textures@.contains_key(renderer)
    }

    /// Whether the surface has a buffer of which the renderer has no texture yet.
    pub open spec fn needs_import(self, surface: u64, renderer: u64) -> bool {
        &&& self.states@.contains_key(surface)
        &&& !self.states@[surface].textures@.contains_key(renderer)
        &&& self.states@[surface].buffer is Some
    }

    /// A surface got the texture, if there is one, and nothing else changed.
    pub open spec fn took_in(
        self,
        before: SurfaceStates<T>,
        surface: u64,
        renderer: u64,
        texture: Option<T>,
    ) -> bool {
        &&& self.states@.dom() == before.states@.dom()
        &&& forall|other: u64|
            other != surface ==> #[trigger] self.states@[other] == before.states@[other]
        &&& match texture {
            Some(texture) => self.states@[surface].textured(
                before.states@[surface],
                renderer,
                texture,
            ),
            None => self.states@[surface] == before.states@[surface],
        }
    }

    /// The commits can be taken in.
    pub open spec fn can_commit(self, commits: Seq<(u64, SurfaceCommit)>) -> bool {
        forall|i: int|
            0 <= i < commits.len() ==> RendererSurfaceState::<T>::commit_fits(
                if self.states@.contains_key((#[trigger] commits[i]).0) {
                    self.states@[commits[i].0].accumulated_buffer_delta
                } else {
                    None::<Point>
                },
                commits[i].1,
            )
    }

    /// No surface is known.
    pub fn new() -> (states: SurfaceStates<T>)
        ensures
            states.valid(),
            states.states@ == Map::<u64, RendererSurfaceState<T>>::empty(),
    {
        broadcast use vstd::std_specs::hash::group_hash_axioms;

        SurfaceStates { states: HashMap::new() }
    }

    /// Takes in what was committed on the surfaces of a tree, unless the tree belongs to a
    /// synchronized subsurface, which waits for its parent. Gives the surfaces that were not
    /// known before; they have to be forgotten when they are destroyed.
    pub fn on_commit_buffer_handler(
        &mut self,
        is_sync_subsurface: bool,
        commits: &Vec<(u64, SurfaceCommit)>,
    ) -> (new_surfaces: Vec<u64>)
        requires
            old(self).valid(),
            distinct(commits@),
            !is_sync_subsurface ==> old(self).can_commit(commits@),
        ensures
            final(self).valid(),
            if is_sync_subsurface {
                &&& final(self).states@ == old(self).states@
                &&& new_surfaces@ == Seq::<u64>::empty()
            } else {
                &&& new_surfaces@ == unknown(old(self).states@, commits@)
                &&& forall|i: int|
                    0 <= i < commits@.len() ==> final(self).states@.contains_key(
                        (#[trigger] commits@[i]).0,
                    ) && committed(
                        old(self).states@,
                        commits@[i].0,
                        commits@[i].1,
                        final(self).states@[commits@[i].0],
                    )
                &&& forall|surface: u64|
                    !touched(commits@, commits@.len() as int, surface) ==> #[trigger] unchanged(
                        old(self).states@,
                        final(self).states@,
                        surface,
                    )
            },
    {
        broadcast use vstd::std_specs::hash::group_hash_axioms;

        let mut new_surfaces: Vec<u64> = Vec::new();
        if is_sync_subsurface {
            return new_surfaces;
        }
        let ghost before = self.states@;
        assert(commits@.take(0) =~= Seq::<(u64, SurfaceCommit)>::empty());
        for i in 0..commits.len()
            invariant
                before == old(self).states@,
                old(self).can_commit(commits@),
                distinct(commits@),
                self.valid(),
                new_surfaces@ == unknown(before, commits@.take(i as int)),
                forall|j: int|
                    0 <= j < i ==> self.states@.contains_key((#[trigger] commits@[j]).0)
                        && committed(
                        before,
                        commits@[j].0,
                        commits@[j].1,
                        self.states@[commits@[j].0],
                    ),
                forall|surface: u64|
                    !touched(commits@, i as int, surface) ==> #[trigger] unchanged(
                        before,
                        self.states@,
                        surface,
                    ),
        {
            assert(commits@.take(i as int + 1).drop_last() =~= commits@.take(i as int));
            let surface: u64 = commits[i].0;
            let ghost now = self.states@;
            proof {
                assert forall|j: int| 0 <= j < i implies (#[trigger] commits@[j]).0 != surface by {
                    assert(commits@[j].0 != commits@[i as int].0);
                }
                assert(!touched(commits@, i as int, surface));
                assert(unchanged(before, self.states@, surface));
            }
            let mut state: RendererSurfaceState<T> = match self.states.remove(&surface) {
                Some(state) => state,
                None => {
                    new_surfaces.push(surface);
                    RendererSurfaceState::new()
                },
            };
            let ghost start = state;
            state.update_buffer(&commits[i].1);
            let ghost end = state;
            let _ = self.states.insert(surface, state);
            proof {
                assert(self.states@ =~= now.insert(surface, end));
                if !before.contains_key(surface) {
                    assert(start.is_new() && end.updated(start, commits@[i as int].1));
                }
                assert(committed(before, surface, commits@[i as int].1, end));
                assert forall|j: int| 0 <= j < i + 1 implies self.states@.contains_key(
                    (#[trigger] commits@[j]).0,
                ) && committed(
                    before,
                    commits@[j].0,
                    commits@[j].1,
                    self.states@[commits@[j].0],
                ) by {
                    if j < i {
                        assert(commits@[j].0 != surface);
                    }
                }
                assert forall|other: u64|
                    !touched(commits@, i as int + 1, other) implies #[trigger] unchanged(
                    before,
                    self.states@,
                    other,
                ) by {
                    assert(commits@[i as int].0 != other);
                    if touched(commits@, i as int, other) {
                        let j = choose|j: int| 0 <= j < i && (#[trigger] commits@[j]).0 == other;
                        assert(commits@[j].0 == other);
                    }
                    assert(unchanged(before, now, other));
                }
            }
        }
        assert(commits@.take(commits.len() as int) =~= commits@);
        new_surfaces
    }

    /// A surface is destroyed: what was derived from its buffer is forgotten.
    pub fn on_destroyed(&mut self, surface: u64)
        requires
            old(self).valid(),
        ensures
            final(self).valid(),
            final(self).states@.dom() == old(self).states@.dom(),
            old(self).states@.contains_key(surface) ==> {
                let before = old(self).states@[surface];
                let after = final(self).states@[surface];
                &&& after.is_reset(before)
                &&& after.buffer_delta == before.buffer_delta
                &&& after.accumulated_buffer_delta == before.accumulated_buffer_delta
            },
            forall|other: u64|
                other != surface ==> #[trigger] final(self).states@[other]
                    == old(self).states@[other],
    {
        broadcast use vstd::std_specs::hash::group_hash_axioms;

        if let Some(state) = self.states.remove(&surface) {
            let mut state = state;
            state.reset();
            let _ = self.states.insert(surface, state);
            assert(self.states@.dom() =~= old(self).states@.dom());
        } else {
            assert(self.states@ =~= old(self).states@);
        }
    }

    /// What of a surface has to be imported before it can be drawn, if anything.
    pub fn import_surface(&self, surface: u64, renderer: u64) -> (request: Option<ImportRequest>)
        ensures
            request is Some <==> self.needs_import(surface, renderer),
            request matches Some(r) ==> {
                let state = self.states@[surface];
                &&& Some(r.buffer) == state.buffer
                &&& r.damage@ == state.spec_damage_since(state.seen(renderer))
            },
    {
        broadcast use vstd::std_specs::hash::group_hash_axioms;

        match self.states.get(&surface) {
            Some(state) => state.import_request(renderer),
            None => None,
        }
    }

    /// Takes what came of the import of the buffer of a surface: a texture is kept, an error
    /// is handed on, and a buffer of unknown type (no outcome) is left alone.
    pub fn imported<E>(
        &mut self,
        surface: u64,
        renderer: u64,
        outcome: Option<Result<T, E>>,
    ) -> (r: Result<(), E>)
        requires
            old(self).valid(),
            old(self).needs_import(surface, renderer),
        ensures
            final(self).valid(),
            final(self).took_in(
                *old(self),
                surface,
                renderer,
                match outcome {
                    Some(Ok(texture)) => Some(texture),
                    _ => None,
                },
            ),
            r == (match outcome {
                Some(Err(e)) => Err::<(), E>(e),
                _ => Ok(()),
            }),
    {
        broadcast use vstd::std_specs::hash::group_hash_axioms;

        let mut result: Result<(), E> = Ok(());
        if let Some(state) = self.states.remove(&surface) {
            let mut state = state;
            result = state.imported(renderer, outcome);
            let _ = self.states.insert(surface, state);
            assert(self.states@.dom() =~= old(self).states@.dom());
        }
        result
    }

    /// Whether the children of a surface are imported and drawn: only below a surface that the
    /// renderer can draw.
    pub fn import_children(&self, surface: u64, renderer: u64) -> (action: TraversalAction)
        requires
            self.valid(),
        ensures
            action == (if self.has_texture(surface, renderer) {
                TraversalAction::DoChildren(self.states@[surface].surface_view->0.offset)
            } else {
                TraversalAction::SkipChildren
            }),
    {
        broadcast use vstd::std_specs::hash::group_hash_axioms;

        match self.states.get(&surface) {
            Some(state) => state.traversal(renderer),
            None => TraversalAction::SkipChildren,
        }
    }

    /// What renderers keep of a surface, if it was ever committed.
    pub fn with_renderer_surface_state(&self, surface: u64) -> (state: Option<
        &RendererSurfaceState<T>,
    >)
        ensures
            match state {
                Some(state) => self.states@.contains_key(surface) && *state
                    == self.states@[surface],
                None => !self.states@.contains_key(surface),
            },
    {
        broadcast use vstd::std_specs::hash::group_hash_axioms;

        self.states.get(&surface)
    }
}

/// The surfaces that were not known come in the order of their commits: those of commits that go on
/// are those of the first and then those of the rest.
pub proof fn unknown_surfaces_keep_their_order<T>(
    states: Map<u64, RendererSurfaceState<T>>,
    first: Seq<(u64, SurfaceCommit)>,
    second: Seq<(u64, SurfaceCommit)>,
)
    ensures
        unknown(states, first + second) == unknown(states, first) + unknown(states, second),
    decreases second.len(),
{
    let all = first + second;
    if second.len() == 0 {
        assert(all =~= first);
        assert(unknown(states, first) + unknown(states, second) =~= unknown(states, first));
    } else {
        unknown_surfaces_keep_their_order(states, first, second.drop_last());
        assert(all.drop_last() =~= first + second.drop_last());
        assert(all.last() == second.last());
        assert(unknown(states, all) =~= unknown(states, first) + unknown(states, second));
    }
}

/// A committed surface is reported exactly if it was not known before.
pub proof fn unknown_surface_is_reported<T>(
    states: Map<u64, RendererSurfaceState<T>>,
    surface: u64,
    commit: SurfaceCommit,
)
    ensures
        unknown(states, seq![(surface, commit)]) == (if states.contains_key(surface) {
            Seq::<u64>::empty()
        } else {
            seq![surface]
        }),
{
    let one = seq![(surface, commit)];
    assert(one.drop_last() =~= Seq::<(u64, SurfaceCommit)>::empty());
    assert(unknown(states, one.drop_last()) =~= Seq::<u64>::empty());
    assert(one.last() == (surface, commit));
    assert(unknown(states, one) =~= (if states.contains_key(surface) {
        Seq::<u64>::empty()
    } else {
        seq![surface]
    }));
}

/// A surface that got a texture does not wait for an import of that renderer any more, and can be
/// drawn by it; without a texture it still waits. For other surfaces and renderers nothing changes.
pub proof fn texture_ends_the_wait<T>(
    before: SurfaceStates<T>,
    after: SurfaceStates<T>,
    surface: u64,
    renderer: u64,
    texture: Option<T>,
    other: u64,
    another: u64,
)
    requires
        before.needs_import(surface, renderer),
        after.took_in(before, surface, renderer, texture),
    ensures
        texture is Some ==> after.has_texture(surface, renderer) && !after.needs_import(
            surface,
            renderer,
        ) && after.states@[surface].textures@[renderer] == texture->0,
        texture is None ==> after.needs_import(surface, renderer),
        other != surface ==> {
            &&& after.has_texture(other, another) <==> before.has_texture(other, another)
            &&& after.needs_import(other, another) <==> before.needs_import(other, another)
        },
        another != renderer ==> {
            &&& after.has_texture(surface, another) <==> before.has_texture(surface, another)
            &&& after.needs_import(surface, another) <==> before.needs_import(surface, another)
        },
{
    assert(after.states@.contains_key(other) <==> before.states@.contains_key(other)) by {
        assert(after.states@.dom().contains(other) <==> before.states@.dom().contains(other));
    }
    assert(after.states@.contains_key(surface)) by {
        assert(after.states@.dom().contains(surface));
    }
}

/// A surface that was not known before is committed to like one that never had a buffer: what is
/// shown of it comes from this commit alone.
pub proof fn new_surface_starts_empty<T>(
    states: Map<u64, RendererSurfaceState<T>>,
    surface: u64,
    commit: SurfaceCommit,
    after: RendererSurfaceState<T>,
)
    requires
        !states.contains_key(surface),
        committed(states, surface, commit, after),
    ensures
        after.buffer is Some <==> (commit.buffer matches Some(change) && change is NewBuffer
            && change->dimensions is Some),
        after.accumulated_buffer_delta is Some <==> commit.buffer_delta is Some,
        after.textures@.dom() == Set::<u64>::empty(),
        after.renderer_seen@.dom() == Set::<u64>::empty(),
{
    let fresh = choose|fresh: RendererSurfaceState<T>| #[trigger]
        fresh.is_new() && after.updated(fresh, commit);
    assert(Map::<u64, T>::empty().dom() =~= Set::<u64>::empty());
    assert(Map::<u64, crate::backend::renderer::utils::CommitCounter>::empty().dom()
        =~= Set::<u64>::empty());
}

} // verus!
