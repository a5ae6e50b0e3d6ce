//! Cards that were given by their drm devices and are rendered for with pixman.

use std::collections::HashMap;

use vstd::prelude::*;
use vstd::std_specs::iter::IteratorSpec;

use crate::backend::renderer::pixman::import::PixmanError;
use crate::backend::SwapBuffersError;

use super::{
    created_of, extend_created, kept, known_devices_stay, missing_is_exact, missing_nodes,
    missing_once, nodes_of, retain_known, ApiDevice,
};

verus! {

/// Why a card could not be used.
#[derive(Clone, Copy, Debug, PartialEq, Eq, Structural)]
pub enum Error {
    Pixman(PixmanError),
    /// The node could not be found.
    DrmNode,
}

impl vstd::std_specs::convert::FromSpecImpl<Error> for SwapBuffersError {
    open spec fn obeys_from_spec() -> bool {
        true
    }

    open spec fn from_spec(error: Error) -> SwapBuffersError {
        SwapBuffersError::ContextLost
    }
}

impl From<Error> for SwapBuffersError {
    fn from(error: Error) -> (r: SwapBuffersError) {
        match error {
            Error::DrmNode => SwapBuffersError::ContextLost,
            Error::Pixman(error) => SwapBuffersError::from(error),
        }
    }
}

/// The device that buffers are allocated from, by its number.
#[derive(Clone, Copy, Debug, PartialEq, Eq, Structural)]
pub enum AllocatorDevice {
    /// A drm device, which gives plain buffers.
    Drm(u64),
    /// A gbm device.
    Gbm(u64),
}

/// How buffers are allocated.
#[derive(Clone, Copy, Debug, PartialEq, Eq, Structural)]
pub enum BackendAllocator {
    Dumb(u64),
    /// By a gbm device, with flags.
    Gbm { device: u64, flags: u32 },
}

/// The flag of gbm buffers that are rendered to.
pub const GBM_RENDERING: u32 = 4;

/// The cards that were given.
#[derive(Debug)]
pub struct DrmPixmanBackend {
    /// The allocators of the cards, by their nodes.
    pub devices: HashMap<u64, BackendAllocator>,
    pub gbm_allocator_flags: u32,
    pub needs_enumeration: bool,
}

impl DrmPixmanBackend {
    /// The allocator of a card that is added.
    pub open spec fn allocator_of(self, allocator_device: AllocatorDevice) -> BackendAllocator {
        match allocator_device {
            AllocatorDevice::Drm(device) => BackendAllocator::Dumb(device),
            AllocatorDevice::Gbm(device) => BackendAllocator::Gbm {
                device,
                flags: self.gbm_allocator_flags,
            },
        }
    }

    /// The allocators after a card was added on a node.
    pub open spec fn with_node(self, node: u64, allocator_device: AllocatorDevice) -> Map<
        u64,
        BackendAllocator,
    > {
        if self.devices@.contains_key(node) {
            self.devices@
        } else {
            self.devices@.insert(node, self.allocator_of(allocator_device))
        }
    }

    /// Adds a card on a node; a node that is there already keeps its allocator.
    pub fn add_node(&mut self, node: u64, allocator_device: AllocatorDevice)
        ensures
            final(self).devices@ == old(self).with_node(node, allocator_device),
            final(self).gbm_allocator_flags == old(self).gbm_allocator_flags,
            if old(self).devices@.contains_key(node) {
                final(self).devices@ == old(self).devices@ && final(self).needs_enumeration
                    == old(self).needs_enumeration
            } else {
                final(self).needs_enumeration && final(self).devices@ == old(self).devices@.insert(
                    node,
                    old(self).allocator_of(allocator_device),
                )
            },
    {
        broadcast use vstd::std_specs::hash::group_hash_axioms;

        if self.devices.contains_key(&node) {
            return ;
        }
        let allocator = match allocator_device {
            AllocatorDevice::Drm(device) => BackendAllocator::Dumb(device),
            AllocatorDevice::Gbm(device) => BackendAllocator::Gbm {
                device,
                flags: self.gbm_allocator_flags,
            },
        };
        let _ = self.devices.insert(node, allocator);
        self.needs_enumeration = true;
    }

    /// Sets the flags of gbm allocators, for nodes that are added from now on.
    pub fn set_gbm_allocator_flags(&mut self, flags: u32)
        ensures
            final(self).gbm_allocator_flags == flags,
            final(self).devices@ == old(self).devices@,
            final(self).needs_enumeration == old(self).needs_enumeration,
    {
        self.gbm_allocator_flags = flags;
    }

    /// Removes the card on a node, if there is one.
    pub fn remove_node(&mut self, node: &u64)
        ensures
            final(self).gbm_allocator_flags == old(self).gbm_allocator_flags,
            final(self).devices@ == old(self).devices@.remove(*node),
            final(self).needs_enumeration == (old(self).needs_enumeration
                || old(self).devices@.contains_key(*node)),
    {
        broadcast use vstd::std_specs::hash::group_hash_axioms;

        let removed = self.devices.remove(node);
        if removed.is_some() {
            self.needs_enumeration = true;
        }
        assert(self.devices@ =~= old(self).devices@.remove(*node));
    }

    /// The nodes of the cards, in no particular order.
    fn nodes(&self) -> (nodes: Vec<u64>)
        ensures
            nodes@.no_duplicates(),
            nodes@.to_set() == self.devices@.dom(),
    {
        broadcast use vstd::std_specs::hash::group_hash_axioms;

        let mut nodes: Vec<u64> = Vec::new();
        let ghost keys = self.devices.keys().remaining();
        for node in iter: self.devices.keys()
            invariant
                iter.seq() == keys,
                nodes@.len() == iter.index(),
                forall|i: int| 0 <= i < nodes@.len() ==> #[trigger] nodes@[i] == *keys[i],
        {
            nodes.push(*node);
        }
        assert(nodes@ =~= keys.unref());
        nodes
    }

    /// Drops the devices whose cards are gone, and gives the nodes of the cards that have no
    /// device yet, in no particular order.
    pub fn enumerate(&mut self, list: &mut Vec<DrmPixmanDevice>) -> (new: Vec<u64>)
        ensures
            final(self).devices@ == old(self).devices@,
            final(self).gbm_allocator_flags == old(self).gbm_allocator_flags,
            !final(self).needs_enumeration,
            final(list)@ == kept(old(list)@, old(self).devices@.dom()),
            new@.no_duplicates(),
            forall|node: u64| #[trigger]
                new@.contains(node) <==> old(self).devices@.contains_key(node) && !nodes_of(
                    final(list)@,
                ).contains(node),
    {
        self.needs_enumeration = false;
        let nodes = self.nodes();
        retain_known(list, &nodes);
        let new = missing_nodes(&nodes, list);
        proof {
            missing_once(nodes@, nodes_of(list@));
            assert forall|node: u64| #[trigger] new@.contains(node) <==> self.devices@.contains_key(
                node,
            ) && !nodes_of(list@).contains(node) by {
                missing_is_exact(nodes@, nodes_of(list@), node);
                assert(nodes@.contains(node) <==> nodes@.to_set().contains(node));
            }
        }
        new
    }

    /// The device of a card. `renderer` tells whether a renderer could be created.
    pub fn create_device(&self, node: u64, renderer: Result<(), PixmanError>) -> (r: Result<
        DrmPixmanDevice,
        Error,
    >)
        requires
            self.devices@.contains_key(node),
        ensures
            r == (match renderer {
                Ok(_) => Ok::<DrmPixmanDevice, Error>(
                    DrmPixmanDevice { node, allocator: self.devices@[node] },
                ),
                Err(error) => Err(Error::Pixman(error)),
            }),
    {
        broadcast use vstd::std_specs::hash::group_hash_axioms;

        match renderer {
            Ok(_) => match self.devices.get(&node) {
                Some(allocator) => Ok(DrmPixmanDevice { node, allocator: *allocator }),
                None => Err(Error::DrmNode),
            },
            Err(error) => Err(Error::Pixman(error)),
        }
    }

    /// Adds the devices that could be created behind those that are there.
    pub fn add_devices(list: &mut Vec<DrmPixmanDevice>, created: Vec<Option<DrmPixmanDevice>>)
        ensures
            final(list)@ == old(list)@ + created_of(created@),
    {
        extend_created(list, created);
    }

    /// Whether cards were added or removed since the last enumeration.
    pub fn needs_enumeration(&self) -> (r: bool)
        ensures
            r == self.needs_enumeration,
    {
        self.needs_enumeration
    }

    /// The name of this backend.
    pub fn identifier() -> (name: &'static str)
        ensures
            name@ == "drm_pixman"@,
    {
        "drm_pixman"
    }
}

impl Default for DrmPixmanBackend {
    fn default() -> (backend: DrmPixmanBackend)
        ensures
            backend.devices@ == Map::<u64, BackendAllocator>::empty(),
            backend.gbm_allocator_flags == GBM_RENDERING,
            backend.needs_enumeration,
    {
        DrmPixmanBackend {
            devices: HashMap::new(),
            gbm_allocator_flags: GBM_RENDERING,
            needs_enumeration: true,
        }
    }
}

/// A card that is rendered for.
#[derive(Clone, Copy, Debug, PartialEq, Eq, Structural)]
pub struct DrmPixmanDevice {
    pub node: u64,
    pub allocator: BackendAllocator,
}

impl ApiDevice for DrmPixmanDevice {
    open spec fn spec_node(&self) -> u64 {
        self.node
    }

    fn node(&self) -> (node: u64) {
        self.node
    }
}

/// Pixman cannot take over buffers of EGL.
pub fn try_import_egl() -> (r: Result<u64, PixmanError>)
    ensures
        r == Err::<u64, PixmanError>(PixmanError::Unsupported),
{
    Err(PixmanError::Unsupported)
}

/// After a node was added and removed again, no card is on it, and the other cards are as they
/// were.
pub proof fn removed_node_is_gone(
    devices: Map<u64, BackendAllocator>,
    node: u64,
    allocator: BackendAllocator,
)
    requires
        !devices.contains_key(node),
    ensures
        !devices.insert(node, allocator).remove(node).contains_key(node),
        devices.insert(node, allocator).remove(node) == devices,
{
    assert(devices.insert(node, allocator).remove(node) =~= devices);
}

/// After an enumeration in which every device could be created, there is a device on each
/// node, and on no other.
pub proof fn enumeration_is_complete(
    devices: Map<u64, BackendAllocator>,
    before: Seq<DrmPixmanDevice>,
    new: Seq<u64>,
    created: Seq<Option<DrmPixmanDevice>>,
    node: u64,
)
    requires
        forall|n: u64| #[trigger]
            new.contains(n) <==> devices.contains_key(n) && !nodes_of(
                kept(before, devices.dom()),
            ).contains(n),
        created.len() == new.len(),
        forall|i: int|
            0 <= i < created.len() ==> ((#[trigger] created[i]) matches Some(device)
                && device.node == new[i]),
    ensures
        nodes_of(kept(before, devices.dom()) + created_of(created)).contains(node)
            <==> devices.contains_key(node),
{
    let list = kept(before, devices.dom());
    let all = list + created_of(created);
    lemma_all_created(created);
    if devices.contains_key(node) {
        if nodes_of(list).contains(node) {
            let i = choose|i: int| 0 <= i < list.len() && nodes_of(list)[i] == node;
            assert(nodes_of(all)[i] == node);
        } else {
            assert(new.contains(node));
            let i = choose|i: int| 0 <= i < new.len() && new[i] == node;
            assert(created[i] is Some);
            assert(all[list.len() + i] == created_of(created)[i]);
            assert(nodes_of(all)[list.len() + i] == node);
        }
    }
    if nodes_of(all).contains(node) {
        let i = choose|i: int| 0 <= i < all.len() && nodes_of(all)[i] == node;
        if i < list.len() {
            assert(list.contains(list[i]));
            known_devices_stay(before, devices.dom(), list[i]);
        } else {
            assert(created[i - list.len()] is Some);
            assert(all[i] == created_of(created)[i - list.len()]);
            assert(new.contains(new[i - list.len()]));
        }
    }
}

proof fn lemma_all_created(created: Seq<Option<DrmPixmanDevice>>)
    requires
        forall|i: int| 0 <= i < created.len() ==> (#[trigger] created[i]) is Some,
    ensures
        created_of(created).len() == created.len(),
        forall|i: int|
            0 <= i < created.len() ==> #[trigger] created_of(created)[i] == created[i]->0,
    decreases created.len(),
{
    if created.len() > 0 {
        let head = created.drop_last();
        assert forall|i: int| 0 <= i < head.len() implies (#[trigger] head[i]) is Some by {
            assert(created[i] is Some);
        }
        lemma_all_created(head);
        assert(created[created.len() - 1] is Some);
        assert forall|i: int| 0 <= i < created.len() implies #[trigger] created_of(created)[i]
            == created[i]->0 by {
            if i < head.len() {
                assert(created_of(head)[i] == head[i]->0);
            }
        }
    }
}

/// A card is allocated for by its own device: with plain buffers by a drm device, and with the flags
/// of the backend by a gbm device.
pub proof fn allocator_is_of_the_device(backend: DrmPixmanBackend, device: AllocatorDevice)
    ensures
        ({
            let allocator = backend.allocator_of(device);
            &&& device matches AllocatorDevice::Drm(n) ==> allocator == BackendAllocator::Dumb(n)
            &&& device matches AllocatorDevice::Gbm(n) ==> allocator is Gbm && allocator->device
                == n && allocator->flags == backend.gbm_allocator_flags
        }),
{
}

/// A card that is added is on its node with an allocator of its device, unless a card was there,
/// whose allocator stays. No other card is affected.
pub proof fn added_node_keeps_others(
    backend: DrmPixmanBackend,
    node: u64,
    device: AllocatorDevice,
    other: u64,
)
    ensures
        ({
            let after = backend.with_node(node, device);
            &&& after.contains_key(node)
            &&& backend.devices@.contains_key(node) ==> after[node] == backend.devices@[node]
            &&& !backend.devices@.contains_key(node) ==> after[node] == backend.allocator_of(device)
            &&& other != node ==> (after.contains_key(other) <==> backend.devices@.contains_key(
                other,
            )) && (after.contains_key(other) ==> after[other] == backend.devices@[other])
        }),
{
}

/// The device of a card is on its node, with the allocator of the card, if a renderer could be
/// created; otherwise the error is that of the renderer.
pub proof fn created_device_has_its_allocator(
    backend: DrmPixmanBackend,
    node: u64,
    renderer: Result<(), PixmanError>,
    r: Result<DrmPixmanDevice, Error>,
)
    requires
        backend.devices@.contains_key(node),
        call_ensures(DrmPixmanBackend::create_device, (&backend, node, renderer), r),
    ensures
        r is Ok <==> renderer is Ok,
        r matches Ok(device) ==> device.node == node && device.allocator == backend.devices@[node],
        renderer matches Err(error) ==> r == Err::<DrmPixmanDevice, Error>(Error::Pixman(error)),
{
}

} // verus!
