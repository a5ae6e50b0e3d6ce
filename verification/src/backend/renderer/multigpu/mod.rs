//! Several graphics cards at once.

use vstd::prelude::*;

pub mod drm;
pub mod egl;

verus! {

/// A device that renders, on a node.
pub trait ApiDevice: Sized {
    spec fn spec_node(&self) -> u64;

    /// The number of the node.
    fn node(&self) -> (node: u64)
        ensures
            node == self.spec_node(),
    ;
}

/// The devices whose nodes are among some, in their order.
pub open spec fn kept<D: ApiDevice>(list: Seq<D>, nodes: Set<u64>) -> Seq<D>
    decreases list.len(),
{
    if list.len() == 0 {
        Seq::empty()
    } else {
        let head = kept(list.drop_last(), nodes);
        if nodes.contains(list.last().spec_node()) {
            head.push(list.last())
        } else {
            head
        }
    }
}

/// The nodes of some devices.
pub open spec fn nodes_of<D: ApiDevice>(list: Seq<D>) -> Seq<u64> {
    Seq::new(list.len(), |i: int| list[i].spec_node())
}

/// The nodes that no device is on, in their order.
pub open spec fn missing(nodes: Seq<u64>, present: Seq<u64>) -> Seq<u64>
    decreases nodes.len(),
{
    if nodes.len() == 0 {
        Seq::empty()
    } else {
        let head = missing(nodes.drop_last(), present);
        if present.contains(nodes.last()) {
            head
        } else {
            head.push(nodes.last())
        }
    }
}

/// Whether a number is among some.
pub fn contains_node(nodes: &Vec<u64>, node: u64) -> (r: bool)
    ensures
        r == nodes@.contains(node),
{
    for i in 0..nodes.len()
        invariant
            forall|j: int| 0 <= j < i ==> #[trigger] nodes@[j] != node,
    {
        if nodes[i] == node {
            return true;
        }
    }
    false
}

/// Drops the devices whose nodes are gone.
pub fn retain_known<D: ApiDevice>(list: &mut Vec<D>, nodes: &Vec<u64>)
    ensures
        final(list)@ == kept(old(list)@, nodes@.to_set()),
{
    let ghost all = list@;
    let ghost mut done: int = 0;
    let mut i: usize = 0;
    assert(all.take(0) =~= Seq::<D>::empty());
    assert(list@ =~= kept(all.take(0), nodes@.to_set()) + all.skip(0));
    while i < list.len()
        invariant
            0 <= done <= all.len(),
            i == kept(all.take(done), nodes@.to_set()).len(),
            list@ == kept(all.take(done), nodes@.to_set()) + all.skip(done),
        decreases list@.len() - i,
    {
        proof {
            assert(list@[i as int] == all.skip(done)[0]);
            assert(all.take(done + 1).drop_last() =~= all.take(done));
            assert(all.take(done + 1).last() == all[done]);
        }
        let ghost before = kept(all.take(done), nodes@.to_set());
        if contains_node(nodes, list[i].node()) {
            i = i + 1;
            proof {
                assert(before.push(all[done]) + all.skip(done + 1) =~= before + all.skip(done));
            }
        } else {
            let _ = list.remove(i);
            proof {
                assert(list@ =~= before + all.skip(done + 1));
            }
        }
        proof {
            done = done + 1;
        }
    }
    proof {
        assert(all.skip(done).len() == 0);
        assert(all.take(done) =~= all);
        assert(list@ =~= kept(all, nodes@.to_set()));
    }
}

/// The nodes that no device of the list is on.
pub fn missing_nodes<D: ApiDevice>(nodes: &Vec<u64>, list: &Vec<D>) -> (r: Vec<u64>)
    ensures
        r@ == missing(nodes@, nodes_of(list@)),
{
    let mut present: Vec<u64> = Vec::new();
    for i in 0..list.len()
        invariant
            present@ == nodes_of(list@).take(i as int),
    {
        present.push(list[i].node());
        assert(present@ =~= nodes_of(list@).take(i as int + 1));
    }
    assert(present@ =~= nodes_of(list@));
    let mut r: Vec<u64> = Vec::new();
    assert(nodes@.take(0) =~= Seq::<u64>::empty());
    for i in 0..nodes.len()
        invariant
            present@ == nodes_of(list@),
            r@ == missing(nodes@.take(i as int), present@),
    {
        assert(nodes@.take(i as int + 1).drop_last() =~= nodes@.take(i as int));
        if !contains_node(&present, nodes[i]) {
            r.push(nodes[i]);
        }
    }
    assert(nodes@.take(nodes.len() as int) =~= nodes@);
    r
}

/// The devices that could be created.
pub open spec fn created_of<D>(created: Seq<Option<D>>) -> Seq<D>
    decreases created.len(),
{
    if created.len() == 0 {
        Seq::empty()
    } else {
        match created.last() {
            Some(device) => created_of(created.drop_last()).push(device),
            None => created_of(created.drop_last()),
        }
    }
}

/// Adds the devices that could be created; the others are passed over.
pub fn extend_created<D: ApiDevice>(list: &mut Vec<D>, created: Vec<Option<D>>)
    ensures
        final(list)@ == old(list)@ + created_of(created@),
{
    let ghost all = created@;
    let ghost before = list@;
    let mut rest = created;
    let mut fresh: Vec<D> = Vec::new();
    assert(all.take(all.len() as int) =~= all);
    assert(fresh@.reverse() =~= Seq::<D>::empty());
    assert(created_of(all) =~= created_of(rest@) + fresh@.reverse());
    let ghost mut left: int = all.len() as int;
    while rest.len() > 0
        invariant
            0 <= left <= all.len(),
            rest@ == all.take(left),
            list@ == before,
            created_of(all) == created_of(rest@) + fresh@.reverse(),
        decreases rest@.len(),
    {
        let ghost old_rest = rest@;
        let ghost old_fresh = fresh@;
        let last = rest.pop();
        proof {
            assert(rest@ =~= old_rest.drop_last());
            assert(rest@ =~= all.take(left - 1));
            left = left - 1;
        }
        if let Some(Some(device)) = last {
            fresh.push(device);
            proof {
                assert(old_rest.last() == Some(device));
                assert(created_of(rest@).push(device) + old_fresh.reverse() =~= created_of(rest@)
                    + fresh@.reverse());
            }
        }
    }
    let ghost wanted = created_of(all);
    assert(fresh@.reverse() =~= wanted);
    let ghost mut k: int = 0;
    assert(list@ =~= before + wanted.take(0));
    assert(fresh@ =~= wanted.reverse());
    while fresh.len() > 0
        invariant
            0 <= k <= wanted.len(),
            fresh@ == wanted.skip(k).reverse(),
            list@ == before + wanted.take(k),
        decreases fresh@.len(),
    {
        let ghost old_fresh = fresh@;
        if let Some(device) = fresh.pop() {
            list.push(device);
            proof {
                assert(device == wanted[k]);
                assert(fresh@ =~= wanted.skip(k + 1).reverse());
                assert(list@ =~= before + wanted.take(k + 1));
                k = k + 1;
            }
        }
    }
    assert(wanted.take(k) =~= wanted);
}

/// A device is kept exactly if its node is still there.
pub proof fn known_devices_stay<D: ApiDevice>(list: Seq<D>, nodes: Set<u64>, device: D)
    ensures
        kept(list, nodes).contains(device) <==> list.contains(device) && nodes.contains(
            device.spec_node(),
        ),
    decreases list.len(),
{
    if list.len() > 0 {
        let head = list.drop_last();
        known_devices_stay(head, nodes, device);
        let (s, t) = (kept(head, nodes), kept(list, nodes));
        if t.contains(device) {
            let i = choose|i: int| 0 <= i < t.len() && t[i] == device;
            if i < s.len() {
                assert(s[i] == device);
                let j = choose|j: int| 0 <= j < head.len() && head[j] == device;
                assert(list[j] == device);
            } else {
                assert(list[list.len() - 1] == device);
            }
        }
        if list.contains(device) && nodes.contains(device.spec_node()) {
            let j = choose|j: int| 0 <= j < list.len() && list[j] == device;
            if j < head.len() {
                assert(head[j] == device);
                let i = choose|i: int| 0 <= i < s.len() && s[i] == device;
                assert(t[i] == device);
            } else {
                assert(t[t.len() - 1] == device);
            }
        }
    }
}

/// A node that no device is on is missing once, if it is there once.
pub proof fn missing_once(nodes: Seq<u64>, present: Seq<u64>)
    requires
        nodes.no_duplicates(),
    ensures
        missing(nodes, present).no_duplicates(),
    decreases nodes.len(),
{
    if nodes.len() > 0 {
        let head = nodes.drop_last();
        missing_once(head, present);
        missing_is_exact(head, present, nodes.last());
    }
}

/// A node is to be set up exactly if it is there and no device is on it.
pub proof fn missing_is_exact(nodes: Seq<u64>, present: Seq<u64>, node: u64)
    ensures
        missing(nodes, present).contains(node) <==> nodes.contains(node) && !present.contains(node),
    decreases nodes.len(),
{
    if nodes.len() > 0 {
        let head = nodes.drop_last();
        missing_is_exact(head, present, node);
        let (s, t) = (missing(head, present), missing(nodes, present));
        if t.contains(node) {
            let i = choose|i: int| 0 <= i < t.len() && t[i] == node;
            if i < s.len() {
                assert(s[i] == node);
                let j = choose|j: int| 0 <= j < head.len() && head[j] == node;
                assert(nodes[j] == node);
            } else {
                assert(nodes[nodes.len() - 1] == node);
            }
        }
        if nodes.contains(node) && !present.contains(node) {
            let j = choose|j: int| 0 <= j < nodes.len() && nodes[j] == node;
            if j < head.len() {
                assert(head[j] == node);
                let i = choose|i: int| 0 <= i < s.len() && s[i] == node;
                assert(t[i] == node);
            } else {
                assert(t[t.len() - 1] == node);
            }
        }
    }
}

/// Devices that are kept stay in their order.
pub proof fn kept_devices_keep_their_order<D: ApiDevice>(
    first: Seq<D>,
    second: Seq<D>,
    nodes: Set<u64>,
)
    ensures
        kept(first + second, nodes) == kept(first, nodes) + kept(second, nodes),
    decreases second.len(),
{
    let all = first + second;
    if second.len() == 0 {
        assert(all =~= first);
        assert(kept(first, nodes) + kept(second, nodes) =~= kept(first, nodes));
    } else {
        kept_devices_keep_their_order(first, second.drop_last(), nodes);
        assert(all.drop_last() =~= first + second.drop_last());
        assert(all.last() == second.last());
        assert(kept(all, nodes) =~= kept(first, nodes) + kept(second, nodes));
    }
}

/// Nodes that no device is on come in their order.
pub proof fn missing_nodes_keep_their_order(
    first: Seq<u64>,
    second: Seq<u64>,
    present: Seq<u64>,
)
    ensures
        missing(first + second, present) == missing(first, present) + missing(second, present),
    decreases second.len(),
{
    let all = first + second;
    if second.len() == 0 {
        assert(all =~= first);
        assert(missing(first, present) + missing(second, present) =~= missing(first, present));
    } else {
        missing_nodes_keep_their_order(first, second.drop_last(), present);
        assert(all.drop_last() =~= first + second.drop_last());
        assert(all.last() == second.last());
        assert(missing(all, present) =~= missing(first, present) + missing(second, present));
    }
}

/// Devices that could be created come in the order in which they were to be.
pub proof fn created_devices_keep_their_order<D>(
    first: Seq<Option<D>>,
    second: Seq<Option<D>>,
)
    ensures
        created_of(first + second) == created_of(first) + created_of(second),
    decreases second.len(),
{
    let all = first + second;
    if second.len() == 0 {
        assert(all =~= first);
        assert(created_of(first) + created_of(second) =~= created_of(first));
    } else {
        created_devices_keep_their_order(first, second.drop_last());
        assert(all.drop_last() =~= first + second.drop_last());
        assert(all.last() == second.last());
        assert(created_of(all) =~= created_of(first) + created_of(second));
    }
}

/// A device is taken exactly if it could be created.
pub proof fn created_device_is_taken<D>(created: Option<D>)
    ensures
        created matches Some(device) ==> created_of(seq![created]) == seq![device],
        created is None ==> created_of(seq![created]) == Seq::<D>::empty(),
{
    let one = seq![created];
    assert(one.drop_last() =~= Seq::<Option<D>>::empty());
    assert(created_of(one.drop_last()) =~= Seq::<D>::empty());
    assert(one.last() == created);
    if let Some(device) = created {
        assert(created_of(one) =~= seq![device]);
    }
}

} // verus!
