//! Graphics cards that come and go.

use std::collections::HashMap;

use vstd::prelude::*;
use vstd::std_specs::iter::IteratorSpec;

use crate::utils::text::same_text;

verus! {

/// What happened to a device.
#[derive(Clone, Copy, Debug, PartialEq, Eq, Structural)]
pub enum EventType {
    Add,
    Remove,
    Change,
    /// Something that is of no interest here.
    Other,
}

/// Something that happened to a device. Paths are given by their bytes.
#[derive(Debug)]
pub struct MonitorEvent {
    pub event_type: EventType,
    pub devnum: Option<u64>,
    pub devnode: Option<Vec<u8>>,
}

/// A change of the known cards.
#[derive(Debug)]
pub enum UdevEvent {
    /// A new card was found.
    Added { device_id: u64, path: Vec<u8> },
    /// A card has changed.
    Changed { device_id: u64 },
    /// A card is gone.
    Removed { device_id: u64 },
}

/// The contents of a change.
pub enum EventModel {
    Added(u64, Seq<u8>),
    Changed(u64),
    Removed(u64),
}

impl View for UdevEvent {
    type V = EventModel;

    open spec fn view(&self) -> EventModel {
        match self {
            UdevEvent::Added { device_id, path } => EventModel::Added(*device_id, path@),
            UdevEvent::Changed { device_id } => EventModel::Changed(*device_id),
            UdevEvent::Removed { device_id } => EventModel::Removed(*device_id),
        }
    }
}

/// The known cards, each with its path.
#[derive(Debug)]
pub struct UdevBackend {
    pub devices: HashMap<u64, Vec<u8>>,
}

/// The cards that are known after looking at some, each with its number as far as it could be
/// found out.
pub open spec fn found(cards: Seq<(Vec<u8>, Option<u64>)>) -> Map<u64, Seq<u8>>
    decreases cards.len(),
{
    if cards.len() == 0 {
        Map::empty()
    } else {
        let before = found(cards.drop_last());
        match cards.last().1 {
            Some(devnum) => before.insert(devnum, cards.last().0@),
            None => before,
        }
    }
}

/// What an event does to the known cards, and what is told about it.
pub open spec fn handled(devices: Map<u64, Seq<u8>>, event: MonitorEvent) -> (
    Map<u64, Seq<u8>>,
    Option<EventModel>,
) {
    match (event.event_type, event.devnum, event.devnode) {
        (EventType::Add, Some(devnum), Some(path)) => (
            devices.insert(devnum, path@),
            if devices.contains_key(devnum) {
                None
            } else {
                Some(EventModel::Added(devnum, path@))
            },
        ),
        (EventType::Remove, Some(devnum), _) => (
            devices.remove(devnum),
            if devices.contains_key(devnum) {
                Some(EventModel::Removed(devnum))
            } else {
                None
            },
        ),
        (EventType::Change, Some(devnum), _) => (
            devices,
            if devices.contains_key(devnum) {
                Some(EventModel::Changed(devnum))
            } else {
                None
            },
        ),
        _ => (devices, None),
    }
}

impl View for UdevBackend {
    type V = Map<u64, Seq<u8>>;

    open spec fn view(&self) -> Map<u64, Seq<u8>> {
        self.devices@.map_values(|path: Vec<u8>| path@)
    }
}

impl UdevBackend {
    /// The backend with the cards of a seat, each with its number as far as it could be found
    /// out.
    pub fn new(cards: Vec<(Vec<u8>, Option<u64>)>) -> (backend: UdevBackend)
        ensures
            backend@ == found(cards@),
    {
        broadcast use vstd::std_specs::hash::group_hash_axioms;

        let mut devices: HashMap<u64, Vec<u8>> = HashMap::new();
        let ghost all = cards@;
        assert(all.take(0) =~= Seq::<(Vec<u8>, Option<u64>)>::empty());
        assert(devices@.map_values(|path: Vec<u8>| path@) =~= found(all.take(0)));
        for i in 0..cards.len()
            invariant
                all == cards@,
                devices@.map_values(|path: Vec<u8>| path@) == found(all.take(i as int)),
        {
            assert(all.take(i as int + 1).drop_last() =~= all.take(i as int));
            let (path, devnum) = &cards[i];
            if let Some(devnum) = devnum {
                let ghost before = devices@;
                let copy: Vec<u8> = path.clone();
                let _ = devices.insert(*devnum, copy);
                assert(copy@ =~= path@);
                assert(devices@.map_values(|path: Vec<u8>| path@) =~= before.map_values(
                    |path: Vec<u8>| path@,
                ).insert(*devnum, path@));
            }
        }
        assert(all.take(all.len() as int) =~= all);
        UdevBackend { devices }
    }

    /// The known cards, in no particular order.
    pub fn device_list(&self) -> (list: Vec<(u64, Vec<u8>)>)
        ensures
            list@.len() == self@.dom().len(),
            forall|i: int|
                0 <= i < list@.len() ==> self@.contains_key((#[trigger] list@[i]).0)
                    && self@[list@[i].0] == list@[i].1@,
            forall|devnum: u64| #[trigger]
                self@.contains_key(devnum) ==> exists|i: int|
                    0 <= i < list@.len() && (#[trigger] list@[i]).0 == devnum,
    {
        broadcast use vstd::std_specs::hash::group_hash_axioms;

        let mut list: Vec<(u64, Vec<u8>)> = Vec::new();
        let ghost pairs = self.devices.iter().remaining();
        for entry in iter: self.devices.iter()
            invariant
                iter.seq() == pairs,
                pairs == self.devices.iter().remaining(),
                list@.len() == iter.index(),
                forall|i: int|
                    0 <= i < list@.len() ==> (#[trigger] list@[i]).0 == *pairs[i].0
                        && list@[i].1@ == pairs[i].1@,
        {
            let (devnum, path) = entry;
            let copy: Vec<u8> = path.clone();
            assert(copy@ =~= path@);
            list.push((*devnum, copy));
        }
        proof {
            assert(self@.dom() =~= self.devices@.dom());
            assert forall|i: int| 0 <= i < list@.len() implies self@.contains_key(
                (#[trigger] list@[i]).0,
            ) && self@[list@[i].0] == list@[i].1@ by {
                assert(self.devices@.contains_key(*pairs[i].0));
            }
            assert forall|devnum: u64| #[trigger] self@.contains_key(devnum) implies exists|i: int|
                0 <= i < list@.len() && (#[trigger] list@[i]).0 == devnum by {
                assert(self.devices@.contains_key(devnum));
                assert(pairs.contains((&devnum, &self.devices@[devnum])));
                let i = choose|i: int|
                    0 <= i < pairs.len() && pairs[i] == (&devnum, &self.devices@[devnum]);
                assert(list@[i].0 == devnum);
            }
        }
        list
    }

    /// Handles something that happened to a device. A card that is new, gone or changed is
    /// told about.
    pub fn process_event(&mut self, event: &MonitorEvent) -> (told: Option<UdevEvent>)
        ensures
            final(self)@ == handled(old(self)@, *event).0,
            match told {
                Some(told) => handled(old(self)@, *event).1 == Some(told@),
                None => handled(old(self)@, *event).1 is None,
            },
    {
        broadcast use vstd::std_specs::hash::group_hash_axioms;

        let ghost before = self.devices@;
        let devnum: u64 = match event.devnum {
            Some(devnum) => devnum,
            None => {
                return None;
            },
        };
        match event.event_type {
            EventType::Add => match &event.devnode {
                Some(path) => {
                    let known: Vec<u8> = path.clone();
                    let told: Vec<u8> = path.clone();
                    assert(known@ =~= path@);
                    assert(told@ =~= path@);
                    let previous = self.devices.insert(devnum, known);
                    assert(self@ =~= old(self)@.insert(devnum, path@));
                    if previous.is_none() {
                        Some(UdevEvent::Added { device_id: devnum, path: told })
                    } else {
                        None
                    }
                },
                None => None,
            },
            EventType::Remove => {
                let previous = self.devices.remove(&devnum);
                assert(self@ =~= old(self)@.remove(devnum));
                if previous.is_some() {
                    Some(UdevEvent::Removed { device_id: devnum })
                } else {
                    None
                }
            },
            EventType::Change => if self.devices.contains_key(&devnum) {
                Some(UdevEvent::Changed { device_id: devnum })
            } else {
                None
            },
            EventType::Other => None,
        }
    }
}

/// A card as the system lists it.
#[derive(Debug)]
pub struct DrmCard {
    /// The seat that the card belongs to.
    pub seat: Option<String>,
    /// What the bus that the card is on says of the boot screen.
    pub boot_vga: Option<String>,
    pub devnum: Option<u64>,
    pub devnode: Option<Vec<u8>>,
    /// The drivers of the card and of the devices that it is part of, as far as they have one.
    pub drivers: Vec<Option<String>>,
}

impl DrmCard {
    pub open spec fn on(self, seat: Seq<char>) -> bool {
        seat == (match self.seat {
            Some(name) => name@,
            None => "seat0"@,
        })
    }

    /// Whether the card belongs to a seat; one that says nothing belongs to the first.
    pub fn is_on(&self, seat: &String) -> (r: bool)
        ensures
            r == self.on(seat@),
    {
        match &self.seat {
            Some(name) => *seat == *name,
            None => same_text(seat, "seat0"),
        }
    }

    pub open spec fn spec_is_primary(self) -> bool {
        self.boot_vga matches Some(id) && id@ == "1"@
    }

    /// Whether the system was booted on the card.
    pub fn is_primary(&self) -> (r: bool)
        ensures
            r == self.spec_is_primary(),
    {
        match &self.boot_vga {
            Some(id) => same_text(id, "1"),
            None => false,
        }
    }
}

/// The paths of the cards of a seat.
pub open spec fn seat_cards(cards: Seq<DrmCard>, seat: Seq<char>) -> Seq<Seq<u8>>
    decreases cards.len(),
{
    if cards.len() == 0 {
        Seq::empty()
    } else {
        let head = seat_cards(cards.drop_last(), seat);
        match cards.last().devnode {
            Some(path) if cards.last().on(seat) => head.push(path@),
            _ => head,
        }
    }
}

/// The paths of the cards of a seat that the system was booted on.
pub open spec fn boot_cards(cards: Seq<DrmCard>, seat: Seq<char>) -> Seq<Seq<u8>>
    decreases cards.len(),
{
    if cards.len() == 0 {
        Seq::empty()
    } else {
        let head = boot_cards(cards.drop_last(), seat);
        match cards.last().devnode {
            Some(path) if cards.last().on(seat) && cards.last().spec_is_primary() => head.push(
                path@,
            ),
            _ => head,
        }
    }
}

/// The bytes of some paths.
pub open spec fn paths(list: Seq<Vec<u8>>) -> Seq<Seq<u8>> {
    Seq::new(list.len(), |i: int| list[i]@)
}

/// The paths of all cards of a seat.
pub fn all_gpus(cards: &Vec<DrmCard>, seat: &String) -> (list: Vec<Vec<u8>>)
    ensures
        paths(list@) == seat_cards(cards@, seat@),
{
    let mut list: Vec<Vec<u8>> = Vec::new();
    assert(cards@.take(0) =~= Seq::<DrmCard>::empty());
    assert(paths(list@) =~= seat_cards(cards@.take(0), seat@));
    for i in 0..cards.len()
        invariant
            paths(list@) == seat_cards(cards@.take(i as int), seat@),
    {
        assert(cards@.take(i as int + 1).drop_last() =~= cards@.take(i as int));
        let ghost before = list@;
        if cards[i].is_on(seat) {
            if let Some(path) = &cards[i].devnode {
                let copy: Vec<u8> = path.clone();
                assert(copy@ =~= path@);
                list.push(copy);
                assert(paths(list@) =~= paths(before).push(path@));
            }
        }
    }
    assert(cards@.take(cards.len() as int) =~= cards@);
    list
}

/// The path of the primary card of a seat: the first that the system was booted on, or else the
/// first of all.
pub fn primary_gpu(cards: &Vec<DrmCard>, seat: &String) -> (r: Option<Vec<u8>>)
    ensures
        ({
            let boot = boot_cards(cards@, seat@);
            let all = seat_cards(cards@, seat@);
            match r {
                Some(path) => if boot.len() > 0 {
                    path@ == boot[0]
                } else {
                    all.len() > 0 && path@ == all[0]
                },
                None => boot.len() == 0 && all.len() == 0,
            }
        }),
{
    assert(cards@.take(0) =~= Seq::<DrmCard>::empty());
    for i in 0..cards.len()
        invariant
            boot_cards(cards@.take(i as int), seat@).len() == 0,
    {
        assert(cards@.take(i as int + 1).drop_last() =~= cards@.take(i as int));
        if cards[i].is_on(seat) && cards[i].is_primary() {
            if let Some(path) = &cards[i].devnode {
                let copy: Vec<u8> = path.clone();
                assert(copy@ =~= path@);
                proof {
                    assert(boot_cards(cards@.take(i as int + 1), seat@)[0] == path@);
                    lemma_boot_prefix(cards@, seat@, i as int + 1);
                }
                return Some(copy);
            }
        }
    }
    assert(cards@.take(cards.len() as int) =~= cards@);
    let all = all_gpus(cards, seat);
    if all.len() > 0 {
        let copy: Vec<u8> = all[0].clone();
        assert(copy@ =~= all@[0]@);
        assert(paths(all@)[0] == all@[0]@);
        Some(copy)
    } else {
        assert(paths(all@).len() == 0);
        None
    }
}

proof fn lemma_boot_prefix(cards: Seq<DrmCard>, seat: Seq<char>, n: int)
    requires
        0 <= n <= cards.len(),
        boot_cards(cards.take(n), seat).len() > 0,
    ensures
        boot_cards(cards, seat).len() > 0,
        boot_cards(cards, seat)[0] == boot_cards(cards.take(n), seat)[0],
    decreases cards.len() - n,
{
    if n == cards.len() {
        assert(cards.take(n) =~= cards);
    } else {
        assert(cards.take(n + 1).drop_last() =~= cards.take(n));
        lemma_boot_prefix(cards, seat, n + 1);
    }
}

/// The first driver of a card and the devices that it is part of.
pub open spec fn first_driver(drivers: Seq<Option<String>>) -> Option<Seq<char>>
    decreases drivers.len(),
{
    if drivers.len() == 0 {
        None
    } else {
        match drivers.first() {
            Some(name) => Some(name@),
            None => first_driver(drivers.drop_first()),
        }
    }
}

/// The driver of the first card with a number for which there is one.
pub open spec fn driver_of(cards: Seq<DrmCard>, dev: u64) -> Option<Seq<char>>
    decreases cards.len(),
{
    if cards.len() == 0 {
        None
    } else if cards.first().devnum == Some(dev) && first_driver(cards.first().drivers@) is Some {
        first_driver(cards.first().drivers@)
    } else {
        driver_of(cards.drop_first(), dev)
    }
}

fn find_driver(drivers: &Vec<Option<String>>) -> (r: Option<String>)
    ensures
        match r {
            Some(name) => first_driver(drivers@) == Some(name@),
            None => first_driver(drivers@) is None,
        },
{
    let ghost all = drivers@;
    assert(all.skip(0) =~= all);
    for i in 0..drivers.len()
        invariant
            all == drivers@,
            first_driver(all) == first_driver(all.skip(i as int)),
    {
        assert(all.skip(i as int).first() == all[i as int]);
        assert(all.skip(i as int).drop_first() =~= all.skip(i as int + 1));
        if let Some(name) = &drivers[i] {
            return Some(name.clone());
        }
    }
    assert(all.skip(all.len() as int) =~= Seq::<Option<String>>::empty());
    None
}

/// The driver of the card with a number.
pub fn driver(cards: &Vec<DrmCard>, dev: u64) -> (r: Option<String>)
    ensures
        match r {
            Some(name) => driver_of(cards@, dev) == Some(name@),
            None => driver_of(cards@, dev) is None,
        },
{
    let ghost all = cards@;
    assert(all.skip(0) =~= all);
    for i in 0..cards.len()
        invariant
            all == cards@,
            driver_of(all, dev) == driver_of(all.skip(i as int), dev),
    {
        assert(all.skip(i as int).first() == all[i as int]);
        assert(all.skip(i as int).drop_first() =~= all.skip(i as int + 1));
        let here: bool = match cards[i].devnum {
            Some(devnum) => devnum == dev,
            None => false,
        };
        if here {
            if let Some(name) = find_driver(&cards[i].drivers) {
                return Some(name);
            }
        }
    }
    assert(all.skip(all.len() as int) =~= Seq::<DrmCard>::empty());
    None
}

/// Whoever follows what is told knows which cards there are: a card is told to be new only if it
/// was not there, and to be gone only if it was.
pub proof fn told_changes_are_real(devices: Map<u64, Seq<u8>>, event: MonitorEvent, devnum: u64)
    ensures
        ({
            let (after, told) = handled(devices, event);
            &&& after.contains_key(devnum) && !devices.contains_key(devnum) <==> (told matches Some(
                EventModel::Added(id, _),
            ) && id == devnum)
            &&& !after.contains_key(devnum) && devices.contains_key(devnum) <==> told == Some(
                EventModel::Removed(devnum),
            )
        }),
{
}

/// The primary card is one of the cards of the seat.
pub proof fn primary_is_on_seat(cards: Seq<DrmCard>, seat: Seq<char>)
    requires
        boot_cards(cards, seat).len() > 0,
    ensures
        seat_cards(cards, seat).contains(boot_cards(cards, seat)[0]),
    decreases cards.len(),
{
    let head = cards.drop_last();
    let boot = boot_cards(head, seat);
    if boot.len() > 0 {
        primary_is_on_seat(head, seat);
        let all = seat_cards(head, seat);
        let i = choose|i: int| 0 <= i < all.len() && all[i] == boot[0];
        assert(seat_cards(cards, seat)[i] == boot[0]);
    } else {
        let all = seat_cards(cards, seat);
        assert(all[all.len() - 1] == boot_cards(cards, seat)[0]);
    }
}

/// The cards of a seat come in the order in which the system lists them.
pub proof fn cards_of_a_seat_keep_their_order(
    first: Seq<DrmCard>,
    second: Seq<DrmCard>,
    seat: Seq<char>,
)
    ensures
        seat_cards(first + second, seat) == seat_cards(first, seat) + seat_cards(second, seat),
    decreases second.len(),
{
    let all = first + second;
    if second.len() == 0 {
        assert(all =~= first);
        assert(seat_cards(first, seat) + seat_cards(second, seat) =~= seat_cards(first, seat));
    } else {
        cards_of_a_seat_keep_their_order(first, second.drop_last(), seat);
        assert(all.drop_last() =~= first + second.drop_last());
        assert(all.last() == second.last());
        assert(seat_cards(all, seat) =~= seat_cards(first, seat) + seat_cards(second, seat));
    }
}

/// The cards of a seat that the system was booted on come in the order in which they are listed.
pub proof fn boot_cards_keep_their_order(
    first: Seq<DrmCard>,
    second: Seq<DrmCard>,
    seat: Seq<char>,
)
    ensures
        boot_cards(first + second, seat) == boot_cards(first, seat) + boot_cards(second, seat),
    decreases second.len(),
{
    let all = first + second;
    if second.len() == 0 {
        assert(all =~= first);
        assert(boot_cards(first, seat) + boot_cards(second, seat) =~= boot_cards(first, seat));
    } else {
        boot_cards_keep_their_order(first, second.drop_last(), seat);
        assert(all.drop_last() =~= first + second.drop_last());
        assert(all.last() == second.last());
        assert(boot_cards(all, seat) =~= boot_cards(first, seat) + boot_cards(second, seat));
    }
}

/// A card is one of a seat exactly if it has a path and belongs to the seat, and the system was
/// booted on it exactly if the bus says so.
pub proof fn card_belongs_to_its_seat(card: DrmCard, seat: Seq<char>)
    ensures
        ({
            let named = match card.seat {
                Some(name) => name@,
                None => "seat0"@,
            };
            let all = seat_cards(seq![card], seat);
            let boot = boot_cards(seq![card], seat);
            &&& card.devnode is Some && named == seat ==> all.len() == 1 && all[0]
                == card.devnode->0@
            &&& card.devnode is None || named != seat ==> all.len() == 0
            &&& card.boot_vga is Some && card.boot_vga->0@ == "1"@ ==> boot == all
            &&& card.boot_vga is None || card.boot_vga->0@ != "1"@ ==> boot.len() == 0
        }),
{
    let one = seq![card];
    assert(one.drop_last() =~= Seq::<DrmCard>::empty());
    assert(seat_cards(one.drop_last(), seat) =~= Seq::<Seq<u8>>::empty());
    assert(boot_cards(one.drop_last(), seat) =~= Seq::<Seq<u8>>::empty());
    assert(one.last() == card);
    if card.boot_vga is Some && card.boot_vga->0@ == "1"@ {
        assert(boot_cards(one, seat) =~= seat_cards(one, seat));
    }
}

/// The primary card of a seat is the first of its cards that the system was booted on; if there is
/// none, the first of its cards; and there is none exactly if the seat has no cards.
pub proof fn boot_card_comes_first(
    cards: Vec<DrmCard>,
    seat: String,
    r: Option<Vec<u8>>,
)
    requires
        call_ensures(primary_gpu, (&cards, &seat), r),
    ensures
        r is None <==> seat_cards(cards@, seat@).len() == 0,
        boot_cards(cards@, seat@).len() > 0 ==> r is Some && r->0@ == boot_cards(
            cards@,
            seat@,
        ).first(),
        boot_cards(cards@, seat@).len() == 0 && r is Some ==> r->0@ == seat_cards(
            cards@,
            seat@,
        ).first(),
{
    if boot_cards(cards@, seat@).len() > 0 {
        primary_is_on_seat(cards@, seat@);
        let all = seat_cards(cards@, seat@);
        let i = choose|i: int| 0 <= i < all.len() && all[i] == boot_cards(cards@, seat@)[0];
        assert(all.len() > 0);
    }
}

/// What an event does to the known cards: a card that is added has the path that was given, under
/// its number, and is told with it; a card that is removed is not known any more; a change is told
/// of a known card; and no other card is affected. What has no number or is something else does
/// nothing.
pub proof fn event_is_about_one_card(
    devices: Map<u64, Seq<u8>>,
    event: MonitorEvent,
    other: u64,
)
    ensures
        ({
            let (after, told) = handled(devices, event);
            &&& event.devnum is None || event.event_type is Other ==> after == devices
                && told is None
            &&& event.devnum != Some(other) ==> (after.contains_key(other) <==> devices.contains_key(
                other,
            )) && (devices.contains_key(other) ==> after[other] == devices[other])
            &&& event.devnum matches Some(devnum) ==> {
                &&& event.event_type is Add && event.devnode is Some ==> {
                    &&& after.contains_key(devnum) && after[devnum] == event.devnode->0@
                    &&& !devices.contains_key(devnum) ==> told == Some(
                        EventModel::Added(devnum, event.devnode->0@),
                    )
                    &&& devices.contains_key(devnum) ==> told is None
                }
                &&& event.event_type is Add && event.devnode is None ==> after == devices
                    && told is None
                &&& event.event_type is Remove ==> !after.contains_key(devnum)
                &&& event.event_type is Change ==> after == devices && (told == Some(
                    EventModel::Changed(devnum),
                ) <==> devices.contains_key(devnum)) && (told is None <==> !devices.contains_key(
                    devnum,
                ))
            }
        }),
{
}

/// At the start exactly the cards are known whose number could be found out, each with the path that
/// was listed last for its number.
pub proof fn listed_cards_are_known(cards: Seq<(Vec<u8>, Option<u64>)>, devnum: u64, i: int)
    requires
        0 <= i < cards.len(),
        cards[i].1 == Some(devnum),
        forall|j: int| i < j < cards.len() ==> (#[trigger] cards[j]).1 != Some(devnum),
    ensures
        found(cards).contains_key(devnum),
        found(cards)[devnum] == cards[i].0@,
    decreases cards.len(),
{
    if i < cards.len() - 1 {
        let head = cards.drop_last();
        assert(cards[cards.len() - 1].1 != Some(devnum));
        assert forall|j: int| i < j < head.len() implies (#[trigger] head[j]).1 != Some(devnum) by {
            assert(cards[j].1 != Some(devnum));
        }
        listed_cards_are_known(head, devnum, i);
    }
}

/// No card is known under a number that was not listed.
pub proof fn only_listed_cards_are_known(cards: Seq<(Vec<u8>, Option<u64>)>, devnum: u64)
    requires
        forall|j: int| 0 <= j < cards.len() ==> (#[trigger] cards[j]).1 != Some(devnum),
    ensures
        !found(cards).contains_key(devnum),
    decreases cards.len(),
{
    if cards.len() > 0 {
        let head = cards.drop_last();
        assert(cards[cards.len() - 1].1 != Some(devnum));
        assert forall|j: int| 0 <= j < head.len() implies (#[trigger] head[j]).1 != Some(devnum) by {
            assert(cards[j].1 != Some(devnum));
        }
        only_listed_cards_are_known(head, devnum);
    }
}

/// The driver of a card is that of the nearest device that has one.
pub proof fn nearest_driver_counts(drivers: Seq<Option<String>>, i: int)
    requires
        0 <= i <= drivers.len(),
        forall|j: int| 0 <= j < i ==> (#[trigger] drivers[j]) is None,
        i < drivers.len() ==> drivers[i] is Some,
    ensures
        i < drivers.len() ==> first_driver(drivers) == Some(drivers[i]->0@),
        i == drivers.len() ==> first_driver(drivers) is None,
    decreases i,
{
    if i > 0 {
        let rest = drivers.drop_first();
        assert(drivers[0] is None);
        assert forall|j: int| 0 <= j < i - 1 implies (#[trigger] rest[j]) is None by {
            assert(drivers[j + 1] is None);
        }
        nearest_driver_counts(rest, i - 1);
    }
}

/// The driver for a number is that of the first card with the number that has one.
pub proof fn first_card_with_a_driver_counts(cards: Seq<DrmCard>, dev: u64, i: int)
    requires
        0 <= i <= cards.len(),
        forall|j: int|
            0 <= j < i ==> (#[trigger] cards[j]).devnum != Some(dev) || first_driver(
                cards[j].drivers@,
            ) is None,
        i < cards.len() ==> cards[i].devnum == Some(dev) && first_driver(cards[i].drivers@) is Some,
    ensures
        i < cards.len() ==> driver_of(cards, dev) == first_driver(cards[i].drivers@),
        i == cards.len() ==> driver_of(cards, dev) is None,
    decreases i,
{
    if i > 0 {
        let rest = cards.drop_first();
        assert(cards[0].devnum != Some(dev) || first_driver(cards[0].drivers@) is None);
        assert forall|j: int| 0 <= j < i - 1 implies (#[trigger] rest[j]).devnum != Some(dev)
            || first_driver(rest[j].drivers@) is None by {
            assert(cards[j + 1] == rest[j]);
        }
        first_card_with_a_driver_counts(rest, dev, i - 1);
    }
}

} // verus!
