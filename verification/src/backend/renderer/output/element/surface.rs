//! The elements of a tree of surfaces.

use vstd::prelude::*;

use crate::utils::geometry::Point;

use super::Id;

verus! {

/// A surface of a tree. A parent comes before its children.
#[derive(Clone, Copy, Debug, PartialEq, Eq, Structural)]
pub struct TreeNode {
    /// The number of the protocol object.
    pub surface: usize,
    /// The position of the parent; the root has none.
    pub parent: Option<usize>,
    /// The offset from the parent, if the surface is shown.
    pub offset: Option<Point>,
}

/// Parents come before their children.
pub open spec fn is_tree(nodes: Seq<TreeNode>) -> bool {
    forall|i: int|
        0 <= i < nodes.len() ==> ((#[trigger] nodes[i]).parent matches Some(parent) ==> parent < i)
}

/// The offsets from the root down to a surface, if it and all surfaces above it are shown.
pub open spec fn offsets(nodes: Seq<TreeNode>, i: int) -> Option<Seq<Point>>
    decreases i,
{
    if i < 0 || i >= nodes.len() {
        None
    } else {
        match (nodes[i].offset, nodes[i].parent) {
            (None, _) => None,
            (Some(offset), None) => Some(seq![offset]),
            (Some(offset), Some(parent)) => if parent < i {
                match offsets(nodes, parent as int) {
                    Some(above) => Some(above.push(offset)),
                    None => None,
                }
            } else {
                None
            },
        }
    }
}

/// A surface that is shown.
#[derive(Debug)]
pub struct SurfacePlacement {
    pub id: Id,
    pub surface: usize,
    /// The offsets from the root down to the surface.
    pub offsets: Vec<Point>,
}

/// The contents of a placement.
pub struct PlacementModel {
    pub id: Id,
    pub surface: usize,
    pub offsets: Seq<Point>,
}

impl View for SurfacePlacement {
    type V = PlacementModel;

    open spec fn view(&self) -> PlacementModel {
        PlacementModel { id: self.id, surface: self.surface, offsets: self.offsets@ }
    }
}

/// The surfaces that are shown, in an order in which the surfaces of the tree are listed.
pub open spec fn shown(nodes: Seq<TreeNode>, order: Seq<usize>) -> Seq<PlacementModel>
    decreases order.len(),
{
    if order.len() == 0 {
        Seq::empty()
    } else {
        let head = shown(nodes, order.drop_last());
        let i = order.last() as int;
        match offsets(nodes, i) {
            Some(offsets) => head.push(
                PlacementModel {
                    id: Id::WaylandResource(nodes[i].surface),
                    surface: nodes[i].surface,
                    offsets,
                },
            ),
            None => head,
        }
    }
}

/// The contents of some placements.
pub open spec fn models(placements: Seq<SurfacePlacement>) -> Seq<PlacementModel> {
    Seq::new(placements.len(), |i: int| placements[i]@)
}

fn collect_offsets(nodes: &Vec<TreeNode>, i: usize) -> (r: Option<Vec<Point>>)
    requires
        is_tree(nodes@),
        i < nodes@.len(),
    ensures
        match r {
            Some(list) => offsets(nodes@, i as int) == Some(list@),
            None => offsets(nodes@, i as int) is None,
        },
    decreases i,
{
    assert(nodes@[i as int].parent matches Some(parent) ==> parent < i);
    let offset: Point = match nodes[i].offset {
        Some(offset) => offset,
        None => {
            return None;
        },
    };
    match nodes[i].parent {
        None => {
            let mut list: Vec<Point> = Vec::new();
            list.push(offset);
            assert(list@ =~= seq![offset]);
            Some(list)
        },
        Some(parent) => match collect_offsets(nodes, parent) {
            Some(above) => {
                let mut list = above;
                list.push(offset);
                Some(list)
            },
            None => None,
        },
    }
}

/// The surfaces of a tree that are shown: those that have contents, as long as all surfaces above
/// them have. `order` lists the surfaces in the order in which they become elements.
pub fn surfaces_from_surface_tree(nodes: &Vec<TreeNode>, order: &Vec<usize>) -> (r: Vec<
    SurfacePlacement,
>)
    requires
        is_tree(nodes@),
        forall|i: int| 0 <= i < order@.len() ==> (#[trigger] order@[i]) < nodes@.len(),
    ensures
        models(r@) == shown(nodes@, order@),
{
    let mut r: Vec<SurfacePlacement> = Vec::new();
    assert(order@.take(0) =~= Seq::<usize>::empty());
    assert(models(r@) =~= shown(nodes@, order@.take(0)));
    for k in 0..order.len()
        invariant
            is_tree(nodes@),
            forall|i: int| 0 <= i < order@.len() ==> (#[trigger] order@[i]) < nodes@.len(),
            models(r@) == shown(nodes@, order@.take(k as int)),
    {
        assert(order@.take(k as int + 1).drop_last() =~= order@.take(k as int));
        let i: usize = order[k];
        assert(order@[k as int] < nodes@.len());
        let ghost before = r@;
        if let Some(list) = collect_offsets(nodes, i) {
            let surface: usize = nodes[i].surface;
            let placement = SurfacePlacement {
                id: Id::from_wayland_resource(surface),
                surface,
                offsets: list,
            };
            let ghost model = placement@;
            r.push(placement);
            assert(models(r@) =~= models(before).push(model));
        }
    }
    assert(order@.take(order.len() as int) =~= order@);
    r
}

/// A surface below one that is not shown is not shown either.
pub proof fn hidden_surface_hides_children(nodes: Seq<TreeNode>, parent: int, child: int)
    requires
        is_tree(nodes),
        0 <= child < nodes.len(),
        nodes[child].parent == Some(parent as usize),
        0 <= parent <= usize::MAX,
        offsets(nodes, parent) is None,
    ensures
        offsets(nodes, child) is None,
{
}

/// A surface is shown exactly if it has contents and its parent, if it has one, is shown. The
/// offsets that lead to it are those that lead to its parent and then its own.
pub proof fn offsets_go_through_the_parent(nodes: Seq<TreeNode>, i: int)
    requires
        is_tree(nodes),
        0 <= i < nodes.len(),
    ensures
        offsets(nodes, i) is Some <==> nodes[i].offset is Some && (nodes[i].parent matches Some(
            parent,
        ) ==> offsets(nodes, parent as int) is Some),
        offsets(nodes, i) matches Some(list) ==> {
            &&& list.len() > 0
            &&& Some(list.last()) == nodes[i].offset
            &&& nodes[i].parent is None ==> list.len() == 1
            &&& nodes[i].parent matches Some(parent) ==> list.drop_last() == offsets(
                nodes,
                parent as int,
            )->0
        },
{
    if let Some(list) = offsets(nodes, i) {
        if let Some(parent) = nodes[i].parent {
            let above = offsets(nodes, parent as int)->0;
            assert(above.push(nodes[i].offset->0).drop_last() =~= above);
        }
    }
}

/// The shown surfaces come in the order in which the surfaces are listed: those of a list that goes
/// on are those of its beginning and then those of the rest.
pub proof fn shown_surfaces_keep_their_order(
    nodes: Seq<TreeNode>,
    first: Seq<usize>,
    second: Seq<usize>,
)
    ensures
        shown(nodes, first + second) == shown(nodes, first) + shown(nodes, second),
    decreases second.len(),
{
    let all = first + second;
    if second.len() == 0 {
        assert(all =~= first);
        assert(shown(nodes, first) + shown(nodes, second) =~= shown(nodes, first));
    } else {
        shown_surfaces_keep_their_order(nodes, first, second.drop_last());
        assert(all.drop_last() =~= first + second.drop_last());
        assert(all.last() == second.last());
        assert(shown(nodes, all) =~= shown(nodes, first) + shown(nodes, second));
    }
}

/// A listed surface becomes one element, with its own id and the offsets that lead to it, if it is
/// shown, and none otherwise.
pub proof fn shown_surface_is_placed(nodes: Seq<TreeNode>, i: usize)
    ensures
        match offsets(nodes, i as int) {
            Some(list) => shown(nodes, seq![i]).len() == 1 && ({
                let placement = shown(nodes, seq![i])[0];
                &&& placement.surface == nodes[i as int].surface
                &&& placement.id == Id::WaylandResource(nodes[i as int].surface)
                &&& placement.offsets == list
            }),
            None => shown(nodes, seq![i]).len() == 0,
        },
{
    let one = seq![i];
    assert(one.drop_last() =~= Seq::<usize>::empty());
    assert(shown(nodes, one.drop_last()) =~= Seq::<PlacementModel>::empty());
}

} // verus!
