//! Bookkeeping of damage and surfaces.

use std::collections::VecDeque;
use std::sync::Arc;

use vstd::prelude::*;

use crate::backend::renderer::output::damage::{dedup, dedup_keeps_pixels, dedup_rects};
use crate::backend::renderer::output::joined;
use crate::utils::geometry::Rectangle;
use crate::utils::rects::{all_valid, covers, covers_concat};

use self::small::{
    as_slice16, as_slice32, extend_from_slice32, from_slice16, from_slice32, from_vec16,
    from_vec32, into_vec16, into_vec32, new32, RectList16, RectList32,
};

pub mod draw;
pub mod import;
pub mod region;
pub mod small;
pub mod tree;
pub mod wayland;

verus! {

/// A count of the changes of something.
#[derive(Clone, Copy, Debug, PartialEq, Eq, PartialOrd, Ord, Structural)]
pub struct CommitCounter(pub usize);

impl CommitCounter {
    /// The counter after one more change; it starts over at its end.
    pub open spec fn next(self) -> CommitCounter {
        if self.0 == usize::MAX {
            CommitCounter(0)
        } else {
            CommitCounter((self.0 + 1) as usize)
        }
    }

    pub open spec fn spec_distance(self, previous: Option<CommitCounter>) -> Option<usize> {
        match previous {
            Some(commit) => if commit.0 <= self.0 {
                Some((self.0 - commit.0) as usize)
            } else {
                None
            },
            None => None,
        }
    }

    /// Counts one more change.
    pub fn increment(&mut self)
        ensures
            *final(self) == old(self).next(),
    {
        self.0 = self.0.wrapping_add(1);
    }

    /// The number of changes since an earlier position of the counter.
    ///
    /// There is none if no position is given or the given one lies ahead, which happens after
    /// the counter started over.
    pub fn distance(&self, previous_commit: Option<CommitCounter>) -> (distance: Option<usize>)
        ensures
            distance == self.spec_distance(previous_commit),
    {
        match previous_commit {
            Some(commit) => if commit.0 <= self.0 {
                Some(self.0 - commit.0)
            } else {
                None
            },
            None => None,
        }
    }
}

impl Default for CommitCounter {
    fn default() -> (counter: CommitCounter)
        ensures
            counter == CommitCounter(0),
    {
        CommitCounter(0)
    }
}

impl From<usize> for CommitCounter {
    fn from(counter: usize) -> (r: CommitCounter) {
        CommitCounter(counter)
    }
}

impl vstd::std_specs::convert::FromSpecImpl<usize> for CommitCounter {
    open spec fn obeys_from_spec() -> bool {
        true
    }

    open spec fn from_spec(counter: usize) -> CommitCounter {
        CommitCounter(counter)
    }
}

/// The distance to the position before a change is one, unless the counter started over.
pub proof fn distance_counts_changes(counter: CommitCounter)
    ensures
        counter.spec_distance(Some(counter)) == Some(0usize),
        counter.0 < usize::MAX ==> counter.next().spec_distance(Some(counter)) == Some(1usize),
        counter.0 == usize::MAX ==> counter.next().spec_distance(Some(counter)) == None::<usize>,
{
}

/// The number of changes that are kept where nothing else is asked for.
pub const MAX_DAMAGE_AGE: usize = 4;

/// The rectangles of a sequence that hold pixels, in order.
pub open spec fn filled(rects: Seq<Rectangle>) -> Seq<Rectangle>
    decreases rects.len(),
{
    if rects.len() == 0 {
        Seq::empty()
    } else if rects.last().spec_is_empty() {
        filled(rects.drop_last())
    } else {
        filled(rects.drop_last()).push(rects.last())
    }
}

/// The record of damage as a mathematical value: the damage of each kept change, the newest
/// first.
#[verifier::ext_equal]
pub struct DamageRecord {
    pub limit: usize,
    pub commit: CommitCounter,
    pub frames: Seq<Seq<Rectangle>>,
}

impl DamageRecord {
    /// The first `limit` of the frames.
    pub open spec fn capped(frames: Seq<Seq<Rectangle>>, limit: usize) -> Seq<Seq<Rectangle>> {
        if frames.len() <= limit {
            frames
        } else {
            frames.take(limit as int)
        }
    }

    /// No more frames are kept than the limit allows.
    pub open spec fn valid(self) -> bool {
        self.frames.len() <= self.limit
    }

    pub open spec fn fresh(limit: usize) -> DamageRecord {
        DamageRecord { limit, commit: CommitCounter(0), frames: Seq::empty() }
    }

    /// The record after some damage; empty damage leaves no trace.
    pub open spec fn added(self, damage: Seq<Rectangle>) -> DamageRecord {
        if filled(damage).len() == 0 {
            self
        } else {
            DamageRecord {
                limit: self.limit,
                commit: self.commit.next(),
                frames: DamageRecord::capped(seq![dedup(filled(damage))] + self.frames, self.limit),
            }
        }
    }

    /// The record after it was reset.
    pub open spec fn cleared(self) -> DamageRecord {
        DamageRecord { limit: self.limit, commit: self.commit.next(), frames: Seq::empty() }
    }

    /// The damage since a position, if it is still kept.
    pub open spec fn since(self, commit: Option<CommitCounter>) -> Option<Seq<Rectangle>> {
        match self.commit.spec_distance(commit) {
            Some(distance) => if distance <= self.frames.len() {
                Some(joined(self.frames.take(distance as int)))
            } else {
                None
            },
            None => None,
        }
    }
}

/// A list of damaged rectangles.
pub struct DamageSet {
    damage: RectList32,
}

impl View for DamageSet {
    type V = Seq<Rectangle>;

    closed spec fn view(&self) -> Seq<Rectangle> {
        self.damage@
    }
}

impl Default for DamageSet {
    fn default() -> (set: DamageSet)
        ensures
            set@ == Seq::<Rectangle>::empty(),
    {
        DamageSet { damage: new32() }
    }
}

impl DamageSet {
    /// Copies the damage from a slice.
    pub fn from_slice(slice: &[Rectangle]) -> (set: DamageSet)
        ensures
            set@ == slice@,
    {
        DamageSet { damage: from_slice32(slice) }
    }

    /// A set of the given rectangles.
    pub fn from_rects(rects: Vec<Rectangle>) -> (set: DamageSet)
        ensures
            set@ == rects@,
    {
        DamageSet { damage: from_vec32(rects) }
    }

    /// The rectangles of the set.
    pub fn as_slice(&self) -> (slice: &[Rectangle])
        ensures
            slice@ == self@,
    {
        as_slice32(&self.damage)
    }

    /// The rectangles of the set, by value.
    pub fn into_rects(self) -> (rects: Vec<Rectangle>)
        ensures
            rects@ == self@,
    {
        into_vec32(self.damage)
    }

    fn extend_from_slice(&mut self, slice: &[Rectangle])
        ensures
            final(self)@ == old(self)@ + slice@,
    {
        extend_from_slice32(&mut self.damage, slice);
    }
}

/// A list of regions that hide what is below them.
pub struct OpaqueRegions {
    regions: RectList16,
}

impl View for OpaqueRegions {
    type V = Seq<Rectangle>;

    closed spec fn view(&self) -> Seq<Rectangle> {
        self.regions@
    }
}

impl Default for OpaqueRegions {
    fn default() -> (regions: OpaqueRegions)
        ensures
            regions@ == Seq::<Rectangle>::empty(),
    {
        OpaqueRegions { regions: from_vec16(Vec::new()) }
    }
}

impl OpaqueRegions {
    /// Copies the regions from a slice.
    pub fn from_slice(slice: &[Rectangle]) -> (regions: OpaqueRegions)
        ensures
            regions@ == slice@,
    {
        OpaqueRegions { regions: from_slice16(slice) }
    }

    /// A list of the given regions.
    pub fn from_rects(rects: Vec<Rectangle>) -> (regions: OpaqueRegions)
        ensures
            regions@ == rects@,
    {
        OpaqueRegions { regions: from_vec16(rects) }
    }

    /// The regions.
    pub fn as_slice(&self) -> (slice: &[Rectangle])
        ensures
            slice@ == self@,
    {
        as_slice16(&self.regions)
    }

    /// The regions, by value.
    pub fn into_rects(self) -> (rects: Vec<Rectangle>)
        ensures
            rects@ == self@,
    {
        into_vec16(self.regions)
    }
}

/// `Arc::clone`: another pointer to the same value.
#[verifier::external_body]
fn share(frames: &Arc<VecDeque<RectList16>>) -> (shared: Arc<VecDeque<RectList16>>)
    ensures
        shared == *frames,
{
    Arc::clone(frames)
}

/// The state of a [`DamageBag`] at some moment. Later changes of the bag do not reach it.
pub struct DamageSnapshot {
    limit: usize,
    commit_counter: CommitCounter,
    damage: Arc<VecDeque<RectList16>>,
}

impl View for DamageSnapshot {
    type V = DamageRecord;

    closed spec fn view(&self) -> DamageRecord {
        DamageRecord {
            limit: self.limit,
            commit: self.commit_counter,
            frames: Seq::new(self.damage@.len(), |i: int| self.damage@[i]@),
        }
    }
}

impl DamageSnapshot {
    fn new(limit: usize) -> (snapshot: DamageSnapshot)
        ensures
            snapshot@ == DamageRecord::fresh(limit),
    {
        let snapshot = DamageSnapshot {
            limit,
            commit_counter: CommitCounter(0),
            damage: Arc::new(VecDeque::new()),
        };
        assert(snapshot@ =~= DamageRecord::fresh(limit));
        snapshot
    }

    /// A snapshot without damage that cannot hold any.
    pub fn empty() -> (snapshot: DamageSnapshot)
        ensures
            snapshot@ == DamageRecord::fresh(0),
    {
        DamageSnapshot::new(0)
    }

    /// The position of the counter, to be given to a later call of
    /// [`damage_since`](DamageSnapshot::damage_since).
    pub fn current_commit(&self) -> (commit: CommitCounter)
        ensures
            commit == self@.commit,
    {
        self.commit_counter
    }

    /// The number of changes whose damage is kept.
    pub fn len(&self) -> (len: usize)
        ensures
            len == self@.frames.len(),
    {
        self.damage.len()
    }

    /// The damage of one of the kept changes, the newest at zero.
    pub fn raw(&self, index: usize) -> (damage: &[Rectangle])
        requires
            index < self@.frames.len(),
        ensures
            damage@ == self@.frames[index as int],
    {
        as_slice16(&self.damage[index])
    }

    /// The same state once more.
    pub fn duplicate(&self) -> (snapshot: DamageSnapshot)
        ensures
            snapshot@ == self@,
    {
        let snapshot = DamageSnapshot {
            limit: self.limit,
            commit_counter: self.commit_counter,
            damage: share(&self.damage),
        };
        assert(snapshot@ =~= self@);
        snapshot
    }

    fn reset(&mut self)
        ensures
            final(self)@ == old(self)@.cleared(),
    {
        self.damage = Arc::new(VecDeque::new());
        self.commit_counter.increment();
        assert(self@ =~= old(self)@.cleared());
    }

    /// The damage since the given position.
    ///
    /// There is none if the position is unknown, too old, or from before a reset; then all of
    /// the element counts as damaged. Without any change since, the set is empty.
    pub fn damage_since(&self, commit: Option<CommitCounter>) -> (damage: Option<DamageSet>)
        ensures
            match damage {
                Some(set) => self@.since(commit) == Some(set@),
                None => self@.since(commit) == None::<Seq<Rectangle>>,
            },
    {
        let distance: usize = match self.commit_counter.distance(commit) {
            Some(distance) => distance,
            None => {
                return None;
            },
        };
        if distance > self.damage.len() {
            return None;
        }
        let ghost frames = self@.frames;
        let mut set = DamageSet::default();
        assert(frames.take(0) =~= Seq::<Seq<Rectangle>>::empty());
        for i in 0..distance
            invariant
                frames == self@.frames,
                distance <= frames.len(),
                set@ == joined(frames.take(i as int)),
        {
            assert(frames.take(i as int + 1).drop_last() =~= frames.take(i as int));
            assert(frames[i as int] == self.damage@[i as int]@);
            set.extend_from_slice(as_slice16(&self.damage[i]));
        }
        Some(set)
    }

    fn add(&mut self, damage: &Vec<Rectangle>)
        ensures
            final(self)@ == old(self)@.added(damage@),
    {
        let mut kept: Vec<Rectangle> = Vec::new();
        assert(damage@.take(0) =~= Seq::<Rectangle>::empty());
        for i in 0..damage.len()
            invariant
                kept@ == filled(damage@.take(i as int)),
        {
            assert(damage@.take(i as int + 1).drop_last() =~= damage@.take(i as int));
            if !damage[i].is_empty() {
                kept.push(damage[i]);
            }
        }
        assert(damage@.take(damage.len() as int) =~= damage@);
        if kept.len() == 0 {
            return;
        }
        let ghost before = self@.frames;
        let mut frames: VecDeque<RectList16> = VecDeque::new();
        frames.push_back(from_vec16(dedup_rects(&kept)));
        let old_len: usize = self.damage.len();
        for i in 0..old_len
            invariant
                old_len == self.damage@.len(),
                before == self@.frames,
                frames@.len() == i + 1,
                frames@[0]@ == dedup(filled(damage@)),
                forall|j: int| 0 <= j < i ==> (#[trigger] frames@[j + 1])@ == before[j],
        {
            frames.push_back(from_slice16(as_slice16(&self.damage[i])));
            assert forall|j: int| 0 <= j < i + 1 implies (#[trigger] frames@[j + 1])@
                == before[j] by {
                if j == i {
                    assert(before[i as int] == self.damage@[i as int]@);
                }
            }
        }
        let ghost all = frames@;
        frames.truncate(self.limit);
        self.damage = Arc::new(frames);
        self.commit_counter.increment();
        proof {
            let whole = seq![dedup(filled(damage@))] + before;
            assert forall|j: int| 0 <= j < all.len() implies (#[trigger] all[j])@ == whole[j] by {
                if j > 0 {
                    assert(all[(j - 1) + 1]@ == before[j - 1]);
                }
            }
            assert(self@ =~~= old(self)@.added(damage@));
        }
    }
}

/// A tracker of damage that keeps the damage of a limited number of changes.
pub struct DamageBag {
    state: DamageSnapshot,
}

impl View for DamageBag {
    type V = DamageRecord;

    closed spec fn view(&self) -> DamageRecord {
        self.state@
    }
}

impl Default for DamageBag {
    fn default() -> (bag: DamageBag)
        ensures
            bag@ == DamageRecord::fresh(MAX_DAMAGE_AGE),
    {
        DamageBag::new(MAX_DAMAGE_AGE)
    }
}

impl DamageBag {
    /// A bag that keeps the damage of up to `limit` changes.
    pub fn new(limit: usize) -> (bag: DamageBag)
        ensures
            bag@ == DamageRecord::fresh(limit),
    {
        DamageBag { state: DamageSnapshot::new(limit) }
    }

    /// The position of the counter.
    pub fn current_commit(&self) -> (commit: CommitCounter)
        ensures
            commit == self@.commit,
    {
        self.state.current_commit()
    }

    /// The number of changes whose damage is kept.
    pub fn len(&self) -> (len: usize)
        ensures
            len == self@.frames.len(),
    {
        self.state.len()
    }

    /// The damage of one of the kept changes, the newest at zero.
    pub fn raw(&self, index: usize) -> (damage: &[Rectangle])
        requires
            index < self@.frames.len(),
        ensures
            damage@ == self@.frames[index as int],
    {
        self.state.raw(index)
    }

    /// Forgets all damage, as after the tracked item was resized.
    pub fn reset(&mut self)
        ensures
            final(self)@ == old(self)@.cleared(),
    {
        self.state.reset();
    }

    /// The current state of the bag.
    pub fn snapshot(&self) -> (snapshot: DamageSnapshot)
        ensures
            snapshot@ == self@,
    {
        self.state.duplicate()
    }

    /// Adds some damage.
    pub fn add(&mut self, damage: &Vec<Rectangle>)
        ensures
            final(self)@ == old(self)@.added(damage@),
    {
        self.state.add(damage);
    }

    /// The damage since the given position, see [`DamageSnapshot::damage_since`].
    pub fn damage_since(&self, commit: Option<CommitCounter>) -> (damage: Option<DamageSet>)
        ensures
            match damage {
                Some(set) => self@.since(commit) == Some(set@),
                None => self@.since(commit) == None::<Seq<Rectangle>>,
            },
    {
        self.state.damage_since(commit)
    }
}

proof fn lemma_filled_is_filled(rects: Seq<Rectangle>)
    ensures
        forall|i: int| 0 <= i < filled(rects).len() ==> !(#[trigger] filled(rects)[i]).spec_is_empty(),
    decreases rects.len(),
{
    if rects.len() > 0 {
        let head = filled(rects.drop_last());
        lemma_filled_is_filled(rects.drop_last());
        assert forall|i: int| 0 <= i < filled(rects).len() implies !(
        #[trigger] filled(rects)[i]).spec_is_empty() by {
            if i < head.len() {
                assert(filled(rects)[i] == head[i]);
            }
        }
    }
}

/// Adding, resetting and starting never keep more changes than the limit.
pub proof fn record_stays_within_limit(
    record: DamageRecord,
    damage: Seq<Rectangle>,
    limit: usize,
)
    requires
        record.valid(),
    ensures
        DamageRecord::fresh(limit).valid(),
        record.added(damage).valid(),
        record.cleared().valid(),
        record.added(damage).limit == record.limit,
{
}

/// Right after a position was taken nothing is damaged since; an unknown position has no
/// answer.
pub proof fn no_change_no_damage(record: DamageRecord)
    ensures
        record.since(Some(record.commit)) == Some(Seq::<Rectangle>::empty()),
        record.since(None) == None::<Seq<Rectangle>>,
{
    assert(record.frames.take(0) =~= Seq::<Seq<Rectangle>>::empty());
}

/// The damage that some additions leave behind, the newest first; empty damage leaves none.
pub open spec fn reported(additions: Seq<Seq<Rectangle>>) -> Seq<Seq<Rectangle>>
    decreases additions.len(),
{
    if additions.len() == 0 {
        Seq::empty()
    } else if filled(additions.last()).len() == 0 {
        reported(additions.drop_last())
    } else {
        seq![dedup(filled(additions.last()))] + reported(additions.drop_last())
    }
}

/// The record after some additions, one after the other.
pub open spec fn added_all(record: DamageRecord, additions: Seq<Seq<Rectangle>>) -> DamageRecord
    decreases additions.len(),
{
    if additions.len() == 0 {
        record
    } else {
        added_all(record, additions.drop_last()).added(additions.last())
    }
}

proof fn lemma_added_all(record: DamageRecord, additions: Seq<Seq<Rectangle>>)
    requires
        record.valid(),
        record.commit.0 + reported(additions).len() <= usize::MAX,
    ensures
        added_all(record, additions) == (DamageRecord {
            limit: record.limit,
            commit: CommitCounter((record.commit.0 + reported(additions).len()) as usize),
            frames: DamageRecord::capped(reported(additions) + record.frames, record.limit),
        }),
    decreases additions.len(),
{
    let after = added_all(record, additions);
    if additions.len() == 0 {
        assert(reported(additions) + record.frames =~= record.frames);
    } else {
        let head = additions.drop_last();
        lemma_added_all(record, head);
        let before = added_all(record, head);
        if filled(additions.last()).len() > 0 {
            let new = seq![dedup(filled(additions.last()))];
            let all = reported(head) + record.frames;
            assert(reported(additions) + record.frames =~= new + all);
            assert(DamageRecord::capped(
                new + DamageRecord::capped(all, record.limit),
                record.limit,
            ) =~= DamageRecord::capped(new + all, record.limit));
            assert(after.frames == DamageRecord::capped(new + before.frames, record.limit));
        }
    }
}

/// Whatever is added after a position was taken is reported since that position, the newest
/// first, as long as no more changes came than are kept; then there is no answer. All of this
/// holds until the counter starts over.
pub proof fn all_additions_are_reported(record: DamageRecord, additions: Seq<Seq<Rectangle>>)
    requires
        record.valid(),
        record.commit.0 + reported(additions).len() <= usize::MAX,
    ensures
        added_all(record, additions).since(Some(record.commit)) == (if reported(additions).len()
            <= record.limit {
            Some(joined(reported(additions)))
        } else {
            None
        }),
{
    lemma_added_all(record, additions);
    let after = added_all(record, additions);
    let new = reported(additions);
    if new.len() <= record.limit {
        assert(after.frames.take(new.len() as int) =~= new);
    }
}

/// After a reset no earlier position has an answer, whatever is added since, and what is added
/// is reported since the reset. All of this holds until the counter starts over.
pub proof fn reset_forgets(
    record: DamageRecord,
    commit: CommitCounter,
    additions: Seq<Seq<Rectangle>>,
)
    requires
        commit.0 <= record.commit.0,
        record.commit.0 + 1 + reported(additions).len() <= usize::MAX,
    ensures
        added_all(record.cleared(), additions).since(Some(commit)) == None::<Seq<Rectangle>>,
        added_all(record.cleared(), additions).since(Some(record.cleared().commit)) == (
        if reported(additions).len() <= record.limit {
            Some(joined(reported(additions)))
        } else {
            None
        }),
{
    let reset = record.cleared();
    lemma_added_all(reset, additions);
    all_additions_are_reported(reset, additions);
    assert(reported(additions) + reset.frames =~= reported(additions));
}

/// No empty rectangle is ever kept.
pub proof fn kept_damage_is_filled(damage: Seq<Rectangle>)
    ensures
        crate::backend::renderer::output::damage::all_filled(dedup(filled(damage))),
{
    lemma_filled_is_filled(damage);
    lemma_dedup_keeps_filled(filled(damage));
}

proof fn lemma_dedup_keeps_filled(rects: Seq<Rectangle>)
    requires
        crate::backend::renderer::output::damage::all_filled(rects),
    ensures
        crate::backend::renderer::output::damage::all_filled(dedup(rects)),
    decreases rects.len(),
{
    if rects.len() > 0 {
        assert(!rects[rects.len() - 1].spec_is_empty());
        lemma_dedup_keeps_filled(rects.drop_last());
    }
}

proof fn lemma_filled_pixels(rects: Seq<Rectangle>, x: int, y: int)
    requires
        all_valid(rects),
    ensures
        all_valid(filled(rects)),
        covers(filled(rects), x, y) <==> covers(rects, x, y),
    decreases rects.len(),
{
    if rects.len() > 0 {
        let head = rects.drop_last();
        let one = seq![rects.last()];
        assert(one[0] == rects.last());
        assert(rects[rects.len() - 1].valid());
        lemma_filled_pixels(head, x, y);
        assert(rects =~= head + one);
        covers_concat(head, one, x, y);
        assert(filled(head).push(rects.last()) =~= filled(head) + one);
        covers_concat(filled(head), one, x, y);
        if covers(one, x, y) {
            let i = choose|i: int| 0 <= i < one.len() && (#[trigger] one[i]).has(x, y);
            assert(one[i] == rects.last());
        }
    }
}

proof fn lemma_joined_front(first: Seq<Rectangle>, rest: Seq<Seq<Rectangle>>)
    ensures
        joined(seq![first] + rest) == first + joined(rest),
    decreases rest.len(),
{
    let all = seq![first] + rest;
    if rest.len() == 0 {
        assert(all.drop_last() =~= Seq::<Seq<Rectangle>>::empty());
        assert(joined(all.drop_last()) =~= Seq::<Rectangle>::empty());
        assert(all.last() == first);
        assert(joined(all) =~= first + joined(rest));
    } else {
        lemma_joined_front(first, rest.drop_last());
        assert(all.drop_last() =~= seq![first] + rest.drop_last());
        assert(all.last() == rest.last());
        assert(joined(all) =~= first + joined(rest));
    }
}

/// After an addition, the pixels that are damaged since a known position are those that were
/// damaged before it and those of the addition, as long as that many changes are kept.
pub proof fn added_damage_is_reported(
    record: DamageRecord,
    damage: Seq<Rectangle>,
    position: Option<CommitCounter>,
    x: int,
    y: int,
)
    requires
        record.valid(),
        all_valid(damage),
        record.commit.0 < usize::MAX,
        record.since(position) is Some,
        record.commit.0 - (position->0).0 < record.limit,
    ensures
        record.added(damage).since(position) is Some,
        covers(record.added(damage).since(position)->0, x, y) <==> covers(
            record.since(position)->0,
            x,
            y,
        ) || covers(damage, x, y),
{
    lemma_filled_pixels(damage, x, y);
    let new = dedup(filled(damage));
    dedup_keeps_pixels(filled(damage), x, y);
    if filled(damage).len() > 0 {
        let known: int = record.commit.0 - (position->0).0;
        let after = record.added(damage);
        let kept = record.frames.take(known);
        assert(after.frames.take(known + 1) =~= seq![new] + kept);
        lemma_joined_front(new, kept);
        covers_concat(new, joined(kept), x, y);
    }
}

} // verus!
