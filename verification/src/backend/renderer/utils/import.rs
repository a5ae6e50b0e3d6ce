//! The import of the buffers of a tree of surfaces.
//!
//! A renderer imports a buffer itself, and whether it could decides if the surfaces below are
//! looked at. So the import says which buffer is next, and takes what came of it.

use vstd::prelude::*;

use super::tree::SurfaceStates;
use super::wayland::{ImportRequest, TraversalAction};

verus! {

/// A surface of a tree.
#[derive(Clone, Copy, Debug, PartialEq, Eq, Structural)]
pub struct SurfaceNode {
    pub surface: u64,
    /// The position of the parent; the root has none.
    pub parent: Option<usize>,
}

/// Parents come before their children, and no surface comes twice.
pub open spec fn is_tree(nodes: Seq<SurfaceNode>) -> bool {
    &&& forall|i: int|
        0 <= i < nodes.len() ==> ((#[trigger] nodes[i]).parent matches Some(parent) ==> parent < i)
    &&& forall|i: int, j: int|
        0 <= i < j < nodes.len() ==> (#[trigger] nodes[i]).surface != (#[trigger] nodes[j]).surface
}

/// Whether a surface is looked at: only below a parent that is shown.
pub open spec fn reached(nodes: Seq<SurfaceNode>, shown: Seq<bool>, i: int) -> bool {
    match nodes[i].parent {
        None => true,
        Some(parent) => shown[parent as int],
    }
}

/// Whether the renderer can draw a surface and all surfaces above it.
pub open spec fn drawable<T>(
    states: SurfaceStates<T>,
    renderer: u64,
    nodes: Seq<SurfaceNode>,
    i: int,
) -> bool
    decreases i,
{
    &&& 0 <= i < nodes.len()
    &&& states.has_texture(nodes[i].surface, renderer)
    &&& match nodes[i].parent {
        None => true,
        Some(parent) => parent < i && drawable(states, renderer, nodes, parent as int),
    }
}

/// How far the buffers of a tree are imported.
#[derive(Debug)]
pub struct TreeImport<E> {
    pub renderer: u64,
    pub nodes: Vec<SurfaceNode>,
    /// For the surfaces that were looked at so far, whether each is shown.
    pub shown: Vec<bool>,
    /// The last error.
    pub result: Result<(), E>,
}

/// Starts to import the buffers of a surface and its subsurfaces for a renderer.
pub fn import_surface_tree<E>(renderer: u64, nodes: Vec<SurfaceNode>) -> (tree: TreeImport<E>)
    ensures
        tree.renderer == renderer,
        tree.nodes@ == nodes@,
        tree.shown@ == Seq::<bool>::empty(),
        tree.result == Ok::<(), E>(()),
{
    TreeImport { renderer, nodes, shown: Vec::new(), result: Ok(()) }
}

/// The result of an import once more came of it.
pub open spec fn result_after<T, E>(
    result: Result<(), E>,
    outcome: Option<Result<T, E>>,
) -> Result<(), E> {
    match outcome {
        Some(Err(e)) => Err(e),
        _ => result,
    }
}

impl<E> TreeImport<E> {
    /// What is noted of the surfaces is what the states say.
    pub open spec fn agrees<T>(self, states: SurfaceStates<T>) -> bool {
        &&& is_tree(self.nodes@)
        &&& states.valid()
        &&& self.shown@.len() <= self.nodes@.len()
        &&& forall|i: int|
            0 <= i < self.shown@.len() ==> #[trigger] self.shown@[i] == (reached(
                self.nodes@,
                self.shown@,
                i,
            ) && states.has_texture(self.nodes@[i].surface, self.renderer))
    }

    /// Whether the next surface waits for its buffer.
    pub open spec fn waits<T>(self, states: SurfaceStates<T>) -> bool {
        let next = self.shown@.len() as int;
        &&& next < self.nodes@.len()
        &&& reached(self.nodes@, self.shown@, next)
        &&& states.needs_import(self.nodes@[next].surface, self.renderer)
    }

    /// Only more surfaces were looked at.
    pub open spec fn continues(self, before: TreeImport<E>) -> bool {
        &&& self.renderer == before.renderer
        &&& self.nodes == before.nodes
        &&& before.shown@.is_prefix_of(self.shown@)
    }

    /// Looks at the surfaces up to the next one whose buffer has to be imported, and says what
    /// is to be imported; nothing once all surfaces were looked at.
    pub fn next_request<T>(&mut self, states: &SurfaceStates<T>) -> (request: Option<ImportRequest>)
        requires
            old(self).agrees(*states),
        ensures
            final(self).agrees(*states),
            final(self).continues(*old(self)),
            final(self).result == old(self).result,
            request is Some <==> final(self).waits(*states),
            request is None <==> final(self).shown@.len() == final(self).nodes@.len(),
            request matches Some(r) ==> {
                let state =
                    states.states@[final(self).nodes@[final(self).shown@.len() as int].surface];
                &&& Some(r.buffer) == state.buffer
                &&& r.damage@ == state.spec_damage_since(state.seen(final(self).renderer))
            },
    {
        while self.shown.len() < self.nodes.len()
            invariant
                self.agrees(*states),
                self.continues(*old(self)),
                self.result == old(self).result,
            decreases self.nodes@.len() - self.shown@.len(),
        {
            let next: usize = self.shown.len();
            let node = self.nodes[next];
            let below: bool = match node.parent {
                None => true,
                Some(parent) => self.shown[parent],
            };
            let mut drawn: bool = false;
            if below {
                let request = states.import_surface(node.surface, self.renderer);
                if request.is_some() {
                    return request;
                }
                drawn = match states.import_children(node.surface, self.renderer) {
                    TraversalAction::DoChildren(_) => true,
                    TraversalAction::SkipChildren => false,
                };
            }
            let ghost before = *self;
            self.shown.push(drawn);
            proof {
                lemma_noted(before, *self, *states);
            }
        }
        None
    }

    /// Takes what came of the import of the buffer that the next surface waits for. A texture
    /// is kept; a surface without one hides the surfaces below. Of several errors the last one
    /// counts.
    pub fn imported<T>(&mut self, states: &mut SurfaceStates<T>, outcome: Option<Result<T, E>>)
        requires
            old(self).agrees(*old(states)),
            old(self).waits(*old(states)),
        ensures
            final(self).agrees(*final(states)),
            final(self).continues(*old(self)),
            final(self).shown@ == old(self).shown@.push(outcome matches Some(Ok(_))),
            final(self).result == result_after(old(self).result, outcome),
            final(self).result == (match outcome {
                Some(Err(e)) => Err::<(), E>(e),
                _ => old(self).result,
            }),
            final(states).took_in(
                *old(states),
                old(self).nodes@[old(self).shown@.len() as int].surface,
                old(self).renderer,
                match outcome {
                    Some(Ok(texture)) => Some(texture),
                    _ => None,
                },
            ),
    {
        let next: usize = self.shown.len();
        let surface: u64 = self.nodes[next].surface;
        let drawn: bool = match &outcome {
            Some(Ok(_)) => true,
            _ => false,
        };
        if let Err(e) = states.imported(surface, self.renderer, outcome) {
            self.result = Err(e);
        }
        let ghost before = *self;
        self.shown.push(drawn);
        proof {
            assert forall|i: int| 0 <= i < next implies (#[trigger] states.has_texture(
                self.nodes@[i].surface,
                self.renderer,
            )) == old(states).has_texture(self.nodes@[i].surface, self.renderer) by {
                assert(self.nodes@[i].surface != self.nodes@[next as int].surface);
            }
            assert(before.agrees(*states));
            lemma_noted(before, *self, *states);
        }
    }

    /// The last error, if there was one.
    pub fn finish(self) -> (r: Result<(), E>)
        ensures
            r == self.result,
    {
        self.result
    }
}

proof fn lemma_noted<T, E>(before: TreeImport<E>, after: TreeImport<E>, states: SurfaceStates<T>)
    requires
        before.agrees(states),
        before.shown@.len() < before.nodes@.len(),
        after.nodes == before.nodes,
        after.renderer == before.renderer,
        ({
            let next = before.shown@.len() as int;
            after.shown@ == before.shown@.push(
                reached(before.nodes@, before.shown@, next) && states.has_texture(
                    before.nodes@[next].surface,
                    before.renderer,
                ),
            )
        }),
    ensures
        after.agrees(states),
{
    let next = before.shown@.len() as int;
    assert forall|i: int| 0 <= i < after.shown@.len() implies #[trigger] after.shown@[i] == (
    reached(after.nodes@, after.shown@, i) && states.has_texture(
        after.nodes@[i].surface,
        after.renderer,
    )) by {
        if let Some(parent) = after.nodes@[i].parent {
            assert(parent < i);
            assert(after.shown@[parent as int] == before.shown@[parent as int]);
        }
        if i < next {
            assert(before.shown@[i] == (reached(before.nodes@, before.shown@, i)
                && states.has_texture(before.nodes@[i].surface, before.renderer)));
        }
    }
}

/// A surface is shown exactly if the renderer has a texture of it and of every surface above.
pub proof fn shown_is_drawable<T, E>(tree: TreeImport<E>, states: SurfaceStates<T>, i: int)
    requires
        tree.agrees(states),
        0 <= i < tree.shown@.len(),
    ensures
        tree.shown@[i] == drawable(states, tree.renderer, tree.nodes@, i),
    decreases i,
{
    let shown = tree.shown@[i];
    if let Some(parent) = tree.nodes@[i].parent {
        assert(parent < i);
        shown_is_drawable(tree, states, parent as int);
    }
}

/// Of several outcomes the last error counts, and whatever succeeds in between does not undo it;
/// without an error all is well.
pub proof fn last_error_counts<T, E>(result: Result<(), E>, outcome: Option<Result<T, E>>)
    ensures
        outcome matches Some(Err(e)) ==> result_after(result, outcome) == Err::<(), E>(e),
        !(outcome matches Some(Err(_))) ==> result_after(result, outcome) == result,
        result_after(result, outcome) is Ok ==> result is Ok,
{
}

/// A surface waits for its buffer exactly if all surfaces before it were looked at, its parent is
/// shown, and it has a buffer of which the renderer has no texture.
pub proof fn surface_below_a_shown_one_waits<T, E>(tree: TreeImport<E>, states: SurfaceStates<T>)
    requires
        tree.agrees(states),
        tree.shown@.len() < tree.nodes@.len(),
    ensures
        ({
            let node = tree.nodes@[tree.shown@.len() as int];
            tree.waits(states) <==> {
                &&& node.parent matches Some(parent) ==> tree.shown@[parent as int]
                &&& states.states@.contains_key(node.surface)
                &&& states.states@[node.surface].buffer is Some
                &&& !states.states@[node.surface].textures@.contains_key(tree.renderer)
            }
        }),
{
}

} // verus!
