//! A connection to the message bus in an event loop.

use vstd::prelude::*;

pub mod logind;
pub mod signals;

verus! {

/// What a file descriptor is watched for.
#[derive(Clone, Copy, Debug, PartialEq, Eq, Structural)]
pub enum Interest {
    Read,
    Write,
    Both,
}

impl Interest {
    pub open spec fn spec_of(read: bool, write: bool) -> Option<Interest> {
        match (read, write) {
            (true, true) => Some(Interest::Both),
            (true, false) => Some(Interest::Read),
            (false, true) => Some(Interest::Write),
            (false, false) => None,
        }
    }

    /// What is to be watched for, if anything.
    pub fn of(read: bool, write: bool) -> (interest: Option<Interest>)
        ensures
            interest == Interest::spec_of(read, write),
    {
        match (read, write) {
            (true, true) => Some(Interest::Both),
            (true, false) => Some(Interest::Read),
            (false, true) => Some(Interest::Write),
            (false, false) => None,
        }
    }
}

/// A file descriptor of the connection, and what it is to be watched for.
#[derive(Clone, Copy, Debug, PartialEq, Eq, Structural)]
pub struct Watch {
    pub fd: i32,
    pub read: bool,
    pub write: bool,
}

/// What is done with the event loop.
#[derive(Clone, Copy, Debug, PartialEq, Eq, Structural)]
pub enum PollAction {
    Register(i32, Interest),
    Reregister(i32, Interest),
    Unregister(i32),
}

/// The connection is in an event loop already.
#[derive(Clone, Copy, Debug, PartialEq, Eq, Structural)]
pub struct AlreadyRegistered;

impl Watch {
    /// The watch of a connection that is in no event loop.
    pub open spec fn spec_none() -> Watch {
        Watch { fd: -1i32, read: false, write: false }
    }

    pub open spec fn active(self) -> bool {
        self.read || self.write
    }
}

/// The connection to the message bus.
#[derive(Clone, Copy, Debug, PartialEq, Eq, Structural)]
pub struct DBusConnection {
    pub current_watch: Watch,
}

impl DBusConnection {
    /// A connection that is in no event loop.
    pub fn new() -> (connection: DBusConnection)
        ensures
            connection.current_watch == Watch::spec_none(),
    {
        DBusConnection { current_watch: Watch { fd: -1, read: false, write: false } }
    }

    /// What is done to go from the current watch to another one.
    pub open spec fn changes(self, new: Watch) -> Seq<PollAction> {
        let interest = Interest::spec_of(new.read, new.write);
        let current = self.current_watch;
        if new.fd != current.fd {
            let leave = if current.active() {
                seq![PollAction::Unregister(current.fd)]
            } else {
                Seq::empty()
            };
            let enter = match interest {
                Some(interest) => seq![PollAction::Register(new.fd, interest)],
                None => Seq::empty(),
            };
            leave + enter
        } else {
            match interest {
                Some(interest) => seq![PollAction::Reregister(current.fd, interest)],
                None => seq![PollAction::Unregister(current.fd)],
            }
        }
    }

    /// What is done to put the connection into an event loop.
    pub fn register(&self, new: Watch) -> (r: Result<Vec<PollAction>, AlreadyRegistered>)
        ensures
            self.current_watch.active() <==> r is Err,
            r matches Ok(actions) ==> actions@ == self.changes(new),
    {
        if self.current_watch.read || self.current_watch.write {
            return Err(AlreadyRegistered);
        }
        Ok(self.reregister(new))
    }

    /// What is done so that the new watch takes the place of the current one.
    pub fn reregister(&self, new: Watch) -> (actions: Vec<PollAction>)
        ensures
            actions@ == self.changes(new),
    {
        let interest: Option<Interest> = Interest::of(new.read, new.write);
        let mut actions: Vec<PollAction> = Vec::new();
        if new.fd != self.current_watch.fd {
            if self.current_watch.read || self.current_watch.write {
                actions.push(PollAction::Unregister(self.current_watch.fd));
            }
            if let Some(interest) = interest {
                actions.push(PollAction::Register(new.fd, interest));
            }
        } else if let Some(interest) = interest {
            actions.push(PollAction::Reregister(self.current_watch.fd, interest));
        } else {
            actions.push(PollAction::Unregister(self.current_watch.fd));
        }
        assert(actions@ =~= self.changes(new));
        actions
    }

    /// The event loop now has the new watch.
    pub fn registered(&mut self, new: Watch)
        ensures
            final(self).current_watch == new,
    {
        self.current_watch = new;
    }

    /// What is done to take the connection out of its event loop.
    pub fn unregister(&self) -> (action: Option<PollAction>)
        ensures
            action == (if self.current_watch.active() {
                Some(PollAction::Unregister(self.current_watch.fd))
            } else {
                None
            }),
    {
        if self.current_watch.read || self.current_watch.write {
            Some(PollAction::Unregister(self.current_watch.fd))
        } else {
            None
        }
    }

    /// The connection is in no event loop any more.
    pub fn unregistered(&mut self)
        ensures
            final(self).current_watch == Watch::spec_none(),
    {
        self.current_watch = Watch { fd: -1, read: false, write: false };
    }
}

/// What the event loop watches, after some actions.
pub open spec fn watched(start: Map<i32, Interest>, actions: Seq<PollAction>) -> Map<i32, Interest>
    decreases actions.len(),
{
    if actions.len() == 0 {
        start
    } else {
        let before = watched(start, actions.drop_last());
        match actions.last() {
            PollAction::Register(fd, interest) => before.insert(fd, interest),
            PollAction::Reregister(fd, interest) => before.insert(fd, interest),
            PollAction::Unregister(fd) => before.remove(fd),
        }
    }
}

/// What a watch asks the event loop to watch.
pub open spec fn asked(watch: Watch) -> Map<i32, Interest> {
    match Interest::spec_of(watch.read, watch.write) {
        Some(interest) => Map::empty().insert(watch.fd, interest),
        None => Map::empty(),
    }
}

/// After the changes, the event loop watches what the new watch asks for, and nothing of the
/// old one is left.
pub proof fn loop_follows_watch(connection: DBusConnection, new: Watch)
    ensures
        watched(asked(connection.current_watch), connection.changes(new)) == asked(new),
{
    let start = asked(connection.current_watch);
    let actions = connection.changes(new);
    reveal_with_fuel(watched, 3);
    if actions.len() == 2 {
        assert(actions.drop_last() =~= seq![actions[0]]);
        assert(actions.drop_last().drop_last() =~= Seq::<PollAction>::empty());
    } else if actions.len() == 1 {
        assert(actions.drop_last() =~= Seq::<PollAction>::empty());
    }
    assert(watched(start, actions) =~= asked(new));
}

/// A file descriptor is watched exactly for what is asked for.
pub proof fn interest_is_what_is_asked_for(read: bool, write: bool)
    ensures
        read <==> (Interest::spec_of(read, write) == Some(Interest::Read) || Interest::spec_of(
            read,
            write,
        ) == Some(Interest::Both)),
        write <==> (Interest::spec_of(read, write) == Some(Interest::Write) || Interest::spec_of(
            read,
            write,
        ) == Some(Interest::Both)),
{
}

} // verus!
