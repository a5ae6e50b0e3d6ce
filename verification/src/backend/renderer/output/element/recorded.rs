//! An element of which all measures are known.

use vstd::prelude::*;

use crate::backend::renderer::utils::{CommitCounter, DamageSnapshot};
use crate::utils::geometry::{rect, Rectangle};

use super::{damage_unless_current, whole_unless_current, Id, RenderElement};

verus! {

/// An element with its place, and with the damage of its contents as far as it was recorded.
pub struct RecordedElement {
    pub id: Id,
    pub geometry: Rectangle,
    /// The position of the contents, where no damage was recorded.
    pub commit: usize,
    /// The recorded damage.
    pub damage: Option<DamageSnapshot>,
    pub opaque_regions: Vec<Rectangle>,
}

impl RenderElement for RecordedElement {
    open spec fn spec_id(&self) -> Id {
        self.id
    }

    open spec fn spec_current_commit(&self) -> usize {
        match self.damage {
            Some(damage) => damage@.commit.0,
            None => self.commit,
        }
    }

    open spec fn spec_geometry(&self) -> Rectangle {
        self.geometry
    }

    /// The damage that was recorded since the commit; all of the element if that is not known.
    open spec fn spec_damage_since(&self, commit: Option<usize>) -> Seq<Rectangle> {
        let size = self.geometry.size;
        match self.damage {
            Some(damage) => match damage@.since(
                match commit {
                    Some(commit) => Some(CommitCounter(commit)),
                    None => None,
                },
            ) {
                Some(since) => since,
                None => seq![rect(0, 0, size.w as int, size.h as int)],
            },
            None => whole_unless_current(size, self.commit, commit),
        }
    }

    open spec fn spec_opaque_regions(&self) -> Seq<Rectangle> {
        self.opaque_regions@
    }

    fn id(&self) -> (id: Id) {
        self.id
    }

    fn current_commit(&self) -> (commit: usize) {
        match &self.damage {
            Some(damage) => damage.current_commit().0,
            None => self.commit,
        }
    }

    fn geometry(&self) -> (geometry: Rectangle) {
        self.geometry
    }

    fn damage_since(&self, commit: Option<usize>) -> (damage: Vec<Rectangle>) {
        match &self.damage {
            Some(snapshot) => {
                let since: Option<CommitCounter> = match commit {
                    Some(commit) => Some(CommitCounter(commit)),
                    None => None,
                };
                match snapshot.damage_since(since) {
                    Some(set) => set.into_rects(),
                    None => {
                        let mut whole: Vec<Rectangle> = Vec::new();
                        whole.push(Rectangle::from_size(self.geometry.size));
                        assert(whole@ =~= self.spec_damage_since(commit));
                        whole
                    },
                }
            },
            None => damage_unless_current(self.geometry.size, self.commit, commit),
        }
    }

    fn opaque_regions(&self) -> (regions: Vec<Rectangle>) {
        let mut regions: Vec<Rectangle> = Vec::new();
        for i in 0..self.opaque_regions.len()
            invariant
                regions@ == self.opaque_regions@.take(i as int),
        {
            regions.push(self.opaque_regions[i]);
            assert(regions@ =~= self.opaque_regions@.take(i as int + 1));
        }
        assert(regions@ =~= self.opaque_regions@);
        regions
    }
}

/// An element is damaged where its record says since a known commit, and everywhere otherwise; an
/// element without a record is damaged everywhere, unless its current commit was seen.
pub proof fn unknown_damage_is_everywhere(
    element: RecordedElement,
    commit: Option<usize>,
    x: int,
    y: int,
)
    requires
        element.geometry.valid(),
    ensures
        ({
            let damaged = crate::utils::rects::covers(element.spec_damage_since(commit), x, y);
            let size = element.geometry.size;
            let inside = 0 <= x < size.w && 0 <= y < size.h;
            match element.damage {
                None => {
                    &&& element.spec_current_commit() == element.commit
                    &&& damaged <==> commit != Some(element.commit) && inside
                },
                Some(record) => {
                    &&& element.spec_current_commit() == record@.commit.0
                    &&& commit is None ==> (damaged <==> inside)
                    &&& commit matches Some(n) ==> match record@.since(Some(CommitCounter(n))) {
                        Some(since) => damaged <==> crate::utils::rects::covers(since, x, y),
                        None => damaged <==> inside,
                    }
                },
            }
        }),
        element.spec_geometry() == element.geometry,
        element.spec_id() == element.id,
        element.spec_opaque_regions() == element.opaque_regions@,
{
    let size = element.geometry.size;
    super::unseen_element_is_damaged(size, element.commit, commit, x, y);
    super::unseen_element_is_damaged(size, 0, None, x, y);
    assert(whole_unless_current(size, 0, None) == seq![rect(0, 0, size.w as int, size.h as int)]);
}

} // verus!
