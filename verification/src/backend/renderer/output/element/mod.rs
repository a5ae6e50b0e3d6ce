//! The elements that make up the contents of an output.

use vstd::prelude::*;

use crate::utils::geometry::{Point, Rectangle, Size};
use crate::utils::geometry::rect;
use crate::utils::rects::all_valid;

pub mod recorded;
pub mod surface;
pub mod texture;

verus! {

/// A unique id of an element.
#[derive(Clone, Copy, Debug, PartialEq, Eq, Structural)]
pub enum Id {
    /// The id of a protocol object.
    WaylandResource(usize),
    /// A number that the compositor handed out.
    External(usize),
}

/// The source of ids of elements that are not those of a protocol object. One serves a whole
/// process.
#[derive(Debug)]
pub struct ExternalIds {
    /// The number of the next id.
    pub next: usize,
}

impl ExternalIds {
    /// No id was given out yet.
    pub fn new() -> (ids: ExternalIds)
        ensures
            ids.next == 0,
    {
        ExternalIds { next: 0 }
    }

    /// An id that was not given out before.
    pub fn next_external_id(&mut self) -> (id: Id)
        requires
            old(self).next < usize::MAX,
        ensures
            id == Id::External(old(self).next),
            final(self).next == old(self).next + 1,
    {
        let id = Id::External(self.next);
        self.next = self.next + 1;
        id
    }
}

impl Id {
    /// A new unique id.
    pub fn new(ids: &mut ExternalIds) -> (id: Id)
        requires
            old(ids).next < usize::MAX,
        ensures
            id == Id::External(old(ids).next),
            final(ids).next == old(ids).next + 1,
    {
        ids.next_external_id()
    }

    pub open spec fn spec_key(self) -> (bool, usize) {
        match self {
            Id::WaylandResource(n) => (true, n),
            Id::External(n) => (false, n),
        }
    }

    /// The id of a protocol object; every call for one object gives the same id.
    pub fn from_wayland_resource(object: usize) -> (id: Id)
        ensures
            id == Id::WaylandResource(object),
    {
        Id::WaylandResource(object)
    }

    /// The id as integers, by which elements are found again.
    pub fn key(self) -> (key: (bool, usize))
        ensures
            key == self.spec_key(),
    {
        match self {
            Id::WaylandResource(n) => (true, n),
            Id::External(n) => (false, n),
        }
    }
}

/// No two ids from one source are the same, nor is one of them that of a protocol object. `nexts`
/// are the numbers of the next id before each of some calls.
pub proof fn new_ids_are_unique(nexts: Seq<usize>, i: int, j: int, object: usize)
    requires
        0 <= i < j < nexts.len(),
        forall|k: int| 0 <= k < nexts.len() - 1 ==> #[trigger] nexts[k] + 1 == nexts[k + 1],
    ensures
        nexts[i] < nexts[j],
        Id::External(nexts[i]) != Id::External(nexts[j]),
        Id::External(nexts[i]) != Id::WaylandResource(object),
    decreases j,
{
    assert(nexts[j - 1] + 1 == nexts[j - 1 + 1]);
    if i < j - 1 {
        new_ids_are_unique(nexts, i, j - 1, object);
    }
}

/// Two ids with the same key are the same id.
pub proof fn key_is_injective(a: Id, b: Id)
    ensures
        a.spec_key() == b.spec_key() <==> a == b,
{
}

/// A single element, with its measures in pixels of the output.
///
/// Damage and opaque regions are relative to the element's own corner.
pub trait RenderElement: Sized {
    spec fn spec_id(&self) -> Id;

    spec fn spec_current_commit(&self) -> usize;

    spec fn spec_geometry(&self) -> Rectangle;

    spec fn spec_damage_since(&self, commit: Option<usize>) -> Seq<Rectangle>;

    spec fn spec_opaque_regions(&self) -> Seq<Rectangle>;

    /// The unique id of this element.
    fn id(&self) -> (id: Id)
        ensures
            id == self.spec_id(),
    ;

    /// The current commit position of this element.
    fn current_commit(&self) -> (commit: usize)
        ensures
            commit == self.spec_current_commit(),
    ;

    /// The geometry relative to the output.
    fn geometry(&self) -> (geometry: Rectangle)
        ensures
            geometry == self.spec_geometry(),
    ;

    /// The damage since the given commit, relative to the element.
    fn damage_since(&self, commit: Option<usize>) -> (damage: Vec<Rectangle>)
        ensures
            damage@ == self.spec_damage_since(commit),
    ;

    /// The opaque regions, relative to the element.
    fn opaque_regions(&self) -> (regions: Vec<Rectangle>)
        ensures
            regions@ == self.spec_opaque_regions(),
    ;
}

/// An element that is owned by another one.
#[derive(Debug)]
pub struct Wrap<C>(pub C);

impl<C> vstd::std_specs::convert::FromSpecImpl<C> for Wrap<C> {
    open spec fn obeys_from_spec() -> bool {
        true
    }

    open spec fn from_spec(element: C) -> Wrap<C> {
        Wrap(element)
    }
}

impl<C> From<C> for Wrap<C> {
    fn from(element: C) -> (r: Wrap<C>) {
        Wrap(element)
    }
}

impl<C: RenderElement> RenderElement for Wrap<C> {
    open spec fn spec_id(&self) -> Id {
        self.0.spec_id()
    }

    open spec fn spec_current_commit(&self) -> usize {
        self.0.spec_current_commit()
    }

    open spec fn spec_geometry(&self) -> Rectangle {
        self.0.spec_geometry()
    }

    open spec fn spec_damage_since(&self, commit: Option<usize>) -> Seq<Rectangle> {
        self.0.spec_damage_since(commit)
    }

    open spec fn spec_opaque_regions(&self) -> Seq<Rectangle> {
        self.0.spec_opaque_regions()
    }

    fn id(&self) -> (id: Id) {
        self.0.id()
    }

    fn current_commit(&self) -> (commit: usize) {
        self.0.current_commit()
    }

    fn geometry(&self) -> (geometry: Rectangle) {
        self.0.geometry()
    }

    fn damage_since(&self, commit: Option<usize>) -> (damage: Vec<Rectangle>) {
        self.0.damage_since(commit)
    }

    fn opaque_regions(&self) -> (regions: Vec<Rectangle>) {
        self.0.opaque_regions()
    }
}

/// Every rectangle of the sequence can be moved by `by`.
pub open spec fn all_movable(rects: Seq<Rectangle>, by: Point) -> bool {
    forall|i: int| 0 <= i < rects.len() ==> (#[trigger] rects[i]).movable(by)
}

/// Every rectangle of the sequence moved by `by`.
pub open spec fn all_moved(rects: Seq<Rectangle>, by: Point) -> Seq<Rectangle> {
    Seq::new(rects.len(), |i: int| rects[i].spec_moved(by))
}

/// The positions that the element speaks of are positions on the output.
pub open spec fn renderable<E: RenderElement>(element: E) -> bool {
    &&& element.spec_geometry().valid()
    &&& all_movable(element.spec_opaque_regions(), element.spec_geometry().loc)
    &&& forall|commit: Option<usize>|
        all_movable(
            #[trigger] element.spec_damage_since(commit),
            element.spec_geometry().loc,
        )
}

/// The location of an element relative to the output.
pub fn location<E: RenderElement>(element: &E) -> (loc: Point)
    ensures
        loc == element.spec_geometry().loc,
{
    element.geometry().loc
}

pub open spec fn whole_unless_current(
    size: Size,
    current: usize,
    commit: Option<usize>,
) -> Seq<Rectangle> {
    if commit == Some(current) {
        Seq::empty()
    } else {
        seq![rect(0, 0, size.w as int, size.h as int)]
    }
}

/// The damage of an element that keeps no finer record: all of it, unless the given commit is
/// the current one.
pub fn damage_unless_current(
    size: Size,
    current: usize,
    commit: Option<usize>,
) -> (damage: Vec<Rectangle>)
    ensures
        damage@ == whole_unless_current(size, current, commit),
{
    let mut damage: Vec<Rectangle> = Vec::new();
    let known: bool = match commit {
        Some(c) => c == current,
        None => false,
    };
    if !known {
        damage.push(Rectangle::from_size(size));
    }
    assert(damage@ =~= whole_unless_current(size, current, commit));
    damage
}

/// The rectangles moved by `by`.
pub fn move_all(rects: &Vec<Rectangle>, by: Point) -> (out: Vec<Rectangle>)
    requires
        all_movable(rects@, by),
    ensures
        out@ == all_moved(rects@, by),
        all_valid(out@),
{
    let mut out: Vec<Rectangle> = Vec::new();
    for i in 0..rects.len()
        invariant
            all_movable(rects@, by),
            out@.len() == i,
            forall|j: int| 0 <= j < i ==> #[trigger] out@[j] == rects@[j].spec_moved(by),
            all_valid(out@),
    {
        out.push(rects[i].moved(by));
    }
    assert(out@ =~= all_moved(rects@, by));
    out
}

/// An element that keeps no finer record is damaged at each of its pixels, unless the current commit
/// was seen.
pub proof fn unseen_element_is_damaged(
    size: Size,
    current: usize,
    commit: Option<usize>,
    x: int,
    y: int,
)
    requires
        size.valid(),
    ensures
        crate::utils::rects::covers(whole_unless_current(size, current, commit), x, y) <==> commit
            != Some(current) && 0 <= x < size.w && 0 <= y < size.h,
{
    let damage = whole_unless_current(size, current, commit);
    if commit != Some(current) {
        assert(damage[0] == rect(0, 0, size.w as int, size.h as int));
        if crate::utils::rects::covers(damage, x, y) {
            let i = choose|i: int| 0 <= i < damage.len() && (#[trigger] damage[i]).has(x, y);
            assert(i == 0);
        }
        if 0 <= x < size.w && 0 <= y < size.h {
            assert(damage[0].has(x, y));
        }
    }
}

} // verus!
