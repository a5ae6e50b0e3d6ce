//! Sets of formats, in the order in which they were found.

use indexmap::IndexSet;
use vstd::prelude::*;

use super::format::{Format, Fourcc};

verus! {

/// The integers of a format: the code and the modifier.
pub type FormatKey = (u32, u64);

/// `indexmap::IndexSet`, a hash set that keeps the order of insertion.
#[verifier::external_type_specification]
#[verifier::external_body]
#[verifier::reject_recursive_types(T)]
#[verifier::reject_recursive_types(S)]
pub struct ExIndexSet<T, S>(IndexSet<T, S>);

/// The members of the set in the order in which it is walked.
pub uninterp spec fn members(set: IndexSet<FormatKey>) -> Seq<FormatKey>;

/// A sequence with a member added last, unless it is there already.
pub open spec fn added(s: Seq<FormatKey>, key: FormatKey) -> Seq<FormatKey> {
    if s.contains(key) {
        s
    } else {
        s.push(key)
    }
}

/// Each of the keys once, where it first comes.
pub open spec fn gathered(keys: Seq<FormatKey>) -> Seq<FormatKey>
    decreases keys.len(),
{
    if keys.len() == 0 {
        Seq::empty()
    } else {
        added(gathered(keys.drop_last()), keys.last())
    }
}

/// `IndexSet::new`: a set without members.
#[verifier::external_body]
fn index_set_new() -> (set: IndexSet<FormatKey>)
    ensures
        members(set) == Seq::<FormatKey>::empty(),
{
    IndexSet::new()
}

/// `IndexSet::insert`: a value that is not in the set yet is added last; otherwise the set stays
/// as it is.
#[verifier::external_body]
fn index_set_insert(set: &mut IndexSet<FormatKey>, key: FormatKey)
    ensures
        members(*final(set)) == added(members(*old(set)), key),
{
    set.insert(key);
}

/// `IndexSet::contains`: whether the value is in the set.
#[verifier::external_body]
fn index_set_contains(set: &IndexSet<FormatKey>, key: FormatKey) -> (r: bool)
    ensures
        r == members(*set).contains(key),
{
    set.contains(&key)
}

/// `IndexSet::len`: the number of members.
#[verifier::external_body]
fn index_set_len(set: &IndexSet<FormatKey>) -> (len: usize)
    ensures
        len == members(*set).len(),
{
    set.len()
}

/// `IndexSet::get_index`: the member at a position of the order of insertion, if there is one.
#[verifier::external_body]
fn index_set_get_index(set: &IndexSet<FormatKey>, index: usize) -> (key: Option<FormatKey>)
    ensures
        key == (if index < members(*set).len() {
            Some(members(*set)[index as int])
        } else {
            None::<FormatKey>
        }),
{
    set.get_index(index).copied()
}

impl Format {
    pub open spec fn key(self) -> FormatKey {
        (self.code.spec_code(), self.modifier)
    }
}

/// The keys of some formats.
pub open spec fn keys(formats: Seq<Format>) -> Seq<FormatKey> {
    Seq::new(formats.len(), |i: int| formats[i].key())
}

/// A set of formats.
pub struct FormatSet {
    inner: IndexSet<FormatKey>,
}

impl View for FormatSet {
    type V = Seq<FormatKey>;

    closed spec fn view(&self) -> Seq<FormatKey> {
        members(self.inner)
    }
}

impl FormatSet {
    /// A set without formats.
    pub fn new() -> (set: FormatSet)
        ensures
            set@ == Seq::<FormatKey>::empty(),
    {
        FormatSet { inner: index_set_new() }
    }

    /// Adds a format.
    pub fn insert(&mut self, format: Format)
        ensures
            final(self)@ == added(old(self)@, format.key()),
    {
        index_set_insert(&mut self.inner, (format.code.code(), format.modifier));
    }

    /// The set of some formats.
    pub fn from_formats(formats: &Vec<Format>) -> (set: FormatSet)
        ensures
            set@ == gathered(keys(formats@)),
    {
        let mut set = FormatSet::new();
        assert(keys(formats@).take(0) =~= Seq::<FormatKey>::empty());
        for i in 0..formats.len()
            invariant
                set@ == gathered(keys(formats@).take(i as int)),
        {
            let ghost all = keys(formats@);
            assert(all.take(i as int + 1).drop_last() =~= all.take(i as int));
            set.insert(formats[i]);
        }
        assert(keys(formats@).take(formats.len() as int) =~= keys(formats@));
        set
    }

    /// Whether a format is in the set.
    pub fn contains(&self, format: Format) -> (r: bool)
        ensures
            r == self@.contains(format.key()),
    {
        index_set_contains(&self.inner, (format.code.code(), format.modifier))
    }

    /// The number of formats.
    pub fn len(&self) -> (len: usize)
        ensures
            len == self@.len(),
    {
        index_set_len(&self.inner)
    }

    /// The formats in the order in which they were added.
    pub fn formats(&self) -> (formats: Vec<Format>)
        ensures
            keys(formats@) == self@,
            forall|i: int| 0 <= i < formats@.len() ==> (#[trigger] formats@[i]).code.canonical(),
    {
        let mut formats: Vec<Format> = Vec::new();
        let n: usize = self.len();
        for i in 0..n
            invariant
                n == self@.len(),
                formats@.len() == i,
                forall|j: int|
                    0 <= j < i ==> (#[trigger] formats@[j]).key() == self@[j]
                        && formats@[j].code.canonical(),
        {
            if let Some((code, modifier)) = index_set_get_index(&self.inner, i) {
                formats.push(Format { code: Fourcc::from_code(code), modifier });
            }
        }
        assert(keys(formats@) =~= self@);
        formats
    }
}

/// A set holds exactly the formats that were put into it, each of them once.
pub proof fn set_holds_each_once(list: Seq<FormatKey>, key: FormatKey)
    ensures
        gathered(list).contains(key) <==> list.contains(key),
        gathered(list).no_duplicates(),
    decreases list.len(),
{
    if list.len() > 0 {
        let head = list.drop_last();
        set_holds_each_once(head, key);
        set_holds_each_once(head, list.last());
        let g = gathered(head);
        if list.contains(key) {
            let i = choose|i: int| 0 <= i < list.len() && list[i] == key;
            if i < head.len() {
                assert(head[i] == key);
                let j = choose|j: int| 0 <= j < g.len() && g[j] == key;
                assert(gathered(list)[j] == key);
            } else if !g.contains(list.last()) {
                assert(gathered(list)[g.len() as int] == key);
            }
        }
        if gathered(list).contains(key) {
            let j = choose|j: int| 0 <= j < gathered(list).len() && gathered(list)[j] == key;
            if j < g.len() {
                assert(g[j] == key);
                let i = choose|i: int| 0 <= i < head.len() && head[i] == key;
                assert(list[i] == key);
            } else {
                assert(list[list.len() - 1] == key);
            }
        }
    }
}

} // verus!
