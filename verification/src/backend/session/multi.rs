//! Passing notifications on to several observers.

use std::collections::HashMap;

use vstd::prelude::*;
use vstd::std_specs::iter::IteratorSpec;

use super::{notify, Notification, SessionObserver};

verus! {

/// The id of an observer.
#[derive(Clone, Copy, Debug, PartialEq, Eq, Hash, Structural)]
pub struct Id(pub usize);

/// The number after a number; after the last one, counting starts over.
pub open spec fn following(n: usize) -> usize {
    if n == usize::MAX {
        0
    } else {
        (n + 1) as usize
    }
}

/// The source of ids. One serves all multiplexers of a process, so that no two observers have the
/// same id until counting starts over.
#[derive(Debug)]
pub struct IdCounter {
    /// The number of the next id.
    pub next: usize,
}

impl IdCounter {
    /// No id was given out yet.
    pub fn new() -> (ids: IdCounter)
        ensures
            ids.next == 0,
    {
        IdCounter { next: 0 }
    }

    /// A new id.
    pub fn next_id(&mut self) -> (id: Id)
        ensures
            id == Id(old(self).next),
            final(self).next == following(old(self).next),
    {
        let id = Id(self.next);
        self.next = if self.next == usize::MAX {
            0
        } else {
            self.next + 1
        };
        id
    }
}

/// Observers that are told whatever this observer is told.
pub struct Multiplexer<O: SessionObserver> {
    /// The observers, by the numbers of their ids.
    pub observers: HashMap<usize, O>,
    pub told: Ghost<Seq<Notification>>,
}

/// Every observer was told one thing more, and none came or went.
pub open spec fn all_told<O: SessionObserver>(
    before: Map<usize, O>,
    after: Map<usize, O>,
    notification: Notification,
) -> bool {
    &&& after.dom() == before.dom()
    &&& forall|id: usize|
        before.contains_key(id) ==> (#[trigger] after[id]).told() == before[id].told().push(
            notification,
        )
}

impl<O: SessionObserver> Multiplexer<O> {
    /// Nobody is told yet.
    pub fn new() -> (multiplexer: Self)
        ensures
            multiplexer.observers@ == Map::<usize, O>::empty(),
            multiplexer.told@ == Seq::<Notification>::empty(),
    {
        Multiplexer { observers: HashMap::new(), told: Ghost(Seq::empty()) }
    }

    /// Adds an observer under a new id; the id serves to remove it again.
    pub fn register(&mut self, ids: &mut IdCounter, observer: O) -> (id: Id)
        ensures
            id == Id(old(ids).next),
            final(ids).next == following(old(ids).next),
            final(self).observers@ == old(self).observers@.insert(id.0, observer),
            final(self).told == old(self).told,
    {
        broadcast use vstd::std_specs::hash::group_hash_axioms;

        let id = ids.next_id();
        let _ = self.observers.insert(id.0, observer);
        id
    }

    /// Removes the observer with the id, if there is one.
    pub fn unregister(&mut self, id: Id)
        ensures
            final(self).told == old(self).told,
            final(self).observers@ == old(self).observers@.remove(id.0),
    {
        broadcast use vstd::std_specs::hash::group_hash_axioms;

        let _ = self.observers.remove(&id.0);
        assert(self.observers@ =~= old(self).observers@.remove(id.0));
    }

    /// The numbers of the ids, in no particular order.
    fn ids(&self) -> (ids: Vec<usize>)
        ensures
            ids@.no_duplicates(),
            ids@.to_set() == self.observers@.dom(),
    {
        broadcast use vstd::std_specs::hash::group_hash_axioms;

        let mut ids: Vec<usize> = Vec::new();
        let ghost keys = self.observers.keys().remaining();
        for id in iter: self.observers.keys()
            invariant
                iter.seq() == keys,
                ids@.len() == iter.index(),
                forall|i: int| 0 <= i < ids@.len() ==> #[trigger] ids@[i] == *keys[i],
        {
            ids.push(*id);
        }
        assert(ids@ =~= keys.unref());
        ids
    }

    /// Tells every observer, in no particular order.
    pub fn notify_all(&mut self, notification: Notification)
        ensures
            final(self).told@ == old(self).told@.push(notification),
            all_told(old(self).observers@, final(self).observers@, notification),
    {
        broadcast use vstd::std_specs::hash::group_hash_axioms;

        let ghost before = self.observers@;
        let ids = self.ids();
        for i in 0..ids.len()
            invariant
                before == old(self).observers@,
                ids@.no_duplicates(),
                ids@.to_set() == before.dom(),
                self.told == old(self).told,
                self.observers@.dom() == before.dom(),
                forall|j: int|
                    0 <= j < i ==> self.observers@[#[trigger] ids@[j]].told()
                        == before[ids@[j]].told().push(notification),
                forall|j: int|
                    i <= j < ids@.len() ==> self.observers@[#[trigger] ids@[j]] == before[ids@[j]],
        {
            let id: usize = ids[i];
            assert(ids@.to_set().contains(id));
            let ghost now = self.observers@;
            let taken = self.observers.remove(&id);
            if let Some(mut observer) = taken {
                notify(&mut observer, notification);
                let _ = self.observers.insert(id, observer);
            }
            assert(self.observers@.dom() =~= before.dom());
            assert forall|j: int| 0 <= j < ids@.len() && j != i implies self.observers@[
                #[trigger] ids@[j]
            ] == now[ids@[j]] by {
                assert(ids@[j] != ids@[i as int]);
                assert(ids@.to_set().contains(ids@[j]));
            }
        }
        self.told = Ghost(self.told@.push(notification));
        assert forall|id: usize| before.contains_key(id) implies (
        #[trigger] self.observers@[id]).told() == before[id].told().push(notification) by {
            assert(ids@.to_set().contains(id));
            let j = choose|j: int| 0 <= j < ids@.len() && ids@[j] == id;
            assert(self.observers@[ids@[j]].told() == before[ids@[j]].told().push(notification));
        }
    }
}

/// Something that happens to a multiplexer, or to the ids that it shares with others.
pub enum MultiEvent<O> {
    /// An observer was added under an id.
    Registered(Id, O),
    /// The observer with an id was removed, if there was one.
    Unregistered(Id),
    /// The multiplexer was told something.
    Told(Notification),
    /// An observer was added to another multiplexer under an id.
    Elsewhere(Id),
}

/// The observers of a multiplexer, and the number of the next id.
pub struct MultiState<O> {
    pub observers: Map<usize, O>,
    pub next: usize,
}

impl<O: SessionObserver> MultiState<O> {
    /// Whether the event leads to the state.
    pub open spec fn leads_to(self, event: MultiEvent<O>, after: MultiState<O>) -> bool {
        match event {
            MultiEvent::Registered(id, observer) => {
                &&& id == Id(self.next)
                &&& after.next == following(self.next)
                &&& after.observers == self.observers.insert(id.0, observer)
            },
            MultiEvent::Unregistered(id) => {
                &&& after.next == self.next
                &&& after.observers == self.observers.remove(id.0)
            },
            MultiEvent::Told(notification) => {
                &&& after.next == self.next
                &&& all_told(self.observers, after.observers, notification)
            },
            MultiEvent::Elsewhere(id) => {
                &&& id == Id(self.next)
                &&& after.next == following(self.next)
                &&& after.observers == self.observers
            },
        }
    }
}

/// The id that was given out by an event.
pub open spec fn given<O>(event: MultiEvent<O>) -> Option<Id> {
    match event {
        MultiEvent::Registered(id, _) => Some(id),
        MultiEvent::Elsewhere(id) => Some(id),
        _ => None,
    }
}

/// What was told by the events between two positions.
pub open spec fn told_between<O>(events: Seq<MultiEvent<O>>, from: int, to: int) -> Seq<
    Notification,
>
    decreases to - from,
{
    if to <= from {
        Seq::empty()
    } else {
        let before = told_between(events, from, to - 1);
        match events[to - 1] {
            MultiEvent::Told(notification) => before.push(notification),
            _ => before,
        }
    }
}

/// The states that a new multiplexer goes through, one before the first event and one after each.
/// No more events come than there are ids.
pub open spec fn is_history<O: SessionObserver>(
    states: Seq<MultiState<O>>,
    events: Seq<MultiEvent<O>>,
) -> bool {
    &&& states.len() == events.len() + 1
    &&& states[0].observers == Map::<usize, O>::empty()
    &&& states[0].next + events.len() <= usize::MAX
    &&& forall|i: int|
        0 <= i < events.len() ==> (#[trigger] states[i]).leads_to(events[i], states[i + 1])
}

proof fn lemma_ids_grow<O: SessionObserver>(
    states: Seq<MultiState<O>>,
    events: Seq<MultiEvent<O>>,
    i: int,
    k: int,
)
    requires
        is_history(states, events),
        0 <= i <= k <= events.len(),
    ensures
        states[i].next <= states[k].next <= states[0].next + k,
        forall|id: usize| #[trigger]
            states[k].observers.contains_key(id) ==> id < states[k].next,
    decreases k,
{
    if k > 0 {
        lemma_ids_grow(states, events, if i < k { i } else { k - 1 }, k - 1);
        assert(states[k - 1].leads_to(events[k - 1], states[k]));
        assert forall|id: usize| #[trigger] states[k].observers.contains_key(id) implies id
            < states[k].next by {
            if let MultiEvent::Told(_) = events[k - 1] {
                assert(states[k].observers.dom().contains(id));
                assert(states[k - 1].observers.contains_key(id));
            }
        }
    }
}

proof fn lemma_stays_absent<O: SessionObserver>(
    states: Seq<MultiState<O>>,
    events: Seq<MultiEvent<O>>,
    id: usize,
    i: int,
    k: int,
)
    requires
        is_history(states, events),
        0 <= i <= k <= events.len(),
        id < states[i].next,
        !states[i].observers.contains_key(id),
    ensures
        !states[k].observers.contains_key(id),
    decreases k,
{
    if i < k {
        lemma_stays_absent(states, events, id, i, k - 1);
        lemma_ids_grow(states, events, i, k - 1);
        assert(states[k - 1].leads_to(events[k - 1], states[k]));
        if let MultiEvent::Told(_) = events[k - 1] {
            assert(!states[k].observers.dom().contains(id));
        }
    }
}

/// No id is given out twice, whether to an observer of this multiplexer or of another.
pub proof fn ids_differ<O: SessionObserver>(
    states: Seq<MultiState<O>>,
    events: Seq<MultiEvent<O>>,
    i: int,
    j: int,
)
    requires
        is_history(states, events),
        0 <= i < j < events.len(),
        given(events[i]) is Some,
        given(events[j]) is Some,
    ensures
        given(events[i]) != given(events[j]),
{
    lemma_ids_grow(states, events, i, i);
    lemma_ids_grow(states, events, i + 1, j);
    assert(states[i].leads_to(events[i], states[i + 1]));
    assert(states[j].leads_to(events[j], states[j + 1]));
}

/// An observer that was added and not removed since was told everything that the multiplexer was
/// told since, each thing once and in order, and nothing else.
pub proof fn registered_observers_are_told<O: SessionObserver>(
    states: Seq<MultiState<O>>,
    events: Seq<MultiEvent<O>>,
    id: Id,
    observer: O,
    i: int,
    k: int,
)
    requires
        is_history(states, events),
        0 <= i < k <= events.len(),
        events[i] == MultiEvent::Registered(id, observer),
        forall|j: int| i < j < k ==> #[trigger] events[j] != MultiEvent::<O>::Unregistered(id),
    ensures
        states[k].observers.contains_key(id.0),
        states[k].observers[id.0].told() == observer.told() + told_between(events, i + 1, k),
    decreases k,
{
    assert(states[k - 1].leads_to(events[k - 1], states[k]));
    if k == i + 1 {
        assert(observer.told() + told_between(events, i + 1, k) =~= observer.told());
    } else {
        registered_observers_are_told(states, events, id, observer, i, k - 1);
        lemma_ids_grow(states, events, i + 1, k - 1);
        assert(states[i].leads_to(events[i], states[i + 1]));
        lemma_ids_grow(states, events, i, i);
        assert(events[k - 1] != MultiEvent::<O>::Unregistered(id));
        let before = told_between(events, i + 1, k - 1);
        match events[k - 1] {
            MultiEvent::Told(notification) => {
                assert(states[k].observers.dom().contains(id.0));
                assert(states[k].observers[id.0].told() == states[k - 1].observers[id.0].told().push(
                    notification,
                ));
                assert(observer.told() + before.push(notification) =~= (observer.told()
                    + before).push(notification));
            },
            MultiEvent::Unregistered(other) => {
                assert(other.0 != id.0);
            },
            _ => {},
        }
    }
}

/// An observer that was removed is never told again, and removing it once more changes nothing.
pub proof fn removed_observers_are_gone<O: SessionObserver>(
    states: Seq<MultiState<O>>,
    events: Seq<MultiEvent<O>>,
    id: Id,
    i: int,
    j: int,
    k: int,
)
    requires
        is_history(states, events),
        0 <= i < j < k <= events.len(),
        given(events[i]) == Some(id),
        events[j] == MultiEvent::<O>::Unregistered(id),
    ensures
        !states[k].observers.contains_key(id.0),
        states[k].observers.remove(id.0) == states[k].observers,
{
    lemma_ids_grow(states, events, i, i);
    lemma_ids_grow(states, events, i + 1, j + 1);
    assert(states[i].leads_to(events[i], states[i + 1]));
    assert(states[j].leads_to(events[j], states[j + 1]));
    lemma_stays_absent(states, events, id.0, j + 1, k);
    assert(states[k].observers.remove(id.0) =~= states[k].observers);
}

/// Removing an observer right after it was added leaves the observers that were there before.
pub proof fn unregister_undoes_register<O: SessionObserver>(
    states: Seq<MultiState<O>>,
    events: Seq<MultiEvent<O>>,
    id: Id,
    observer: O,
    i: int,
)
    requires
        is_history(states, events),
        0 <= i < events.len() - 1,
        events[i] == MultiEvent::Registered(id, observer),
        events[i + 1] == MultiEvent::<O>::Unregistered(id),
    ensures
        states[i + 2].observers == states[i].observers,
{
    lemma_ids_grow(states, events, i, i);
    assert(states[i].leads_to(events[i], states[i + 1]));
    assert(states[i + 1].leads_to(events[i + 1], states[i + 2]));
    assert(states[i + 2].observers =~= states[i].observers);
}

/// The id of an observer of another multiplexer removes nobody here.
pub proof fn foreign_ids_remove_nobody<O: SessionObserver>(
    states: Seq<MultiState<O>>,
    events: Seq<MultiEvent<O>>,
    id: Id,
    i: int,
    k: int,
)
    requires
        is_history(states, events),
        0 <= i < k <= events.len(),
        events[i] == MultiEvent::<O>::Elsewhere(id),
    ensures
        states[k].observers.remove(id.0) == states[k].observers,
{
    lemma_ids_grow(states, events, i, i);
    assert(states[i].leads_to(events[i], states[i + 1]));
    lemma_stays_absent(states, events, id.0, i + 1, k);
    assert(states[k].observers.remove(id.0) =~= states[k].observers);
}

impl<O: SessionObserver> SessionObserver for Multiplexer<O> {
    open spec fn told(&self) -> Seq<Notification> {
        self.told@
    }

    fn pause(&mut self, device: Option<(u32, u32)>)
        ensures
            all_told(old(self).observers@, final(self).observers@, Notification::Pause(device)),
    {
        self.notify_all(Notification::Pause(device));
    }

    fn activate(&mut self, device: Option<(u32, u32, Option<i32>)>)
        ensures
            all_told(old(self).observers@, final(self).observers@, Notification::Activate(device)),
    {
        self.notify_all(Notification::Activate(device));
    }
}

} // verus!
