//! What the operations come to on a host that answers truthfully.
//!
//! The library sees a host only through its answers. This module says what a
//! host is taken to be: datasets with their snapshots, jails that run or do
//! not, the list of jails started at boot, and files. A record of events is
//! faithful to such a world where every finding in it is true of the world
//! as the changes before it have left it. What a provisioner or an unpacked
//! archive changes inside a jail is not part of the world.

use crate::host::Event;
use crate::text::contains;
use crate::zfs::at;
use vstd::prelude::*;

verus! {

/// The state of a host, as far as the library asks about it.
pub ghost struct World {
    /// The datasets and snapshots that exist, by their full names.
    pub datasets: Set<Seq<char>>,
    /// The names of each dataset's snapshots, oldest first.
    pub snapshots: Map<Seq<char>, Seq<Seq<char>>>,
    /// The jails that run.
    pub running: Set<Seq<char>>,
    /// The jails that are started at boot.
    pub enabled: Set<Seq<char>>,
    /// The regular files, with what they hold.
    pub files: Map<Seq<char>, Seq<char>>,
}

/// The newest of the names that holds `part`, where the names come oldest
/// first.
pub open spec fn last_with(names: Seq<Seq<char>>, part: Seq<char>) -> Option<Seq<char>>
    decreases names.len(),
{
    if names.len() == 0 {
        None
    } else if contains(names.last(), part) {
        Some(names.last())
    } else {
        last_with(names.drop_last(), part)
    }
}

/// The names without the first that equals `name`.
pub open spec fn without(names: Seq<Seq<char>>, name: Seq<char>) -> Seq<Seq<char>>
    decreases names.len(),
{
    if names.len() == 0 {
        names
    } else if names.first() == name {
        names.drop_first()
    } else {
        seq![names.first()] + without(names.drop_first(), name)
    }
}

/// Whether an event is a finding: it tells of the host and changes nothing.
pub open spec fn observes(e: Event) -> bool {
    match e {
        Event::Exists(_, _) => true,
        Event::Property(_, _, _) => true,
        Event::Snapshots(_, _) => true,
        Event::LastSnapshot(_, _, _) => true,
        Event::Running(_, _) => true,
        Event::Enabled(_, _) => true,
        Event::IsFile(_, _) => true,
        Event::IsDir(_, _) => true,
        Event::Read(_, _) => true,
        _ => false,
    }
}

/// How many of the events are changes.
pub open spec fn changes(events: Seq<Event>) -> nat
    decreases events.len(),
{
    if events.len() == 0 {
        0
    } else if observes(events.last()) {
        changes(events.drop_last())
    } else {
        changes(events.drop_last()) + 1
    }
}

impl World {
    /// The names of a dataset's snapshots, oldest first.
    pub open spec fn snaps(self, dataset: Seq<char>) -> Seq<Seq<char>> {
        if self.snapshots.contains_key(dataset) {
            self.snapshots[dataset]
        } else {
            Seq::empty()
        }
    }

    /// Whether a finding is true of the world. A change is not judged.
    pub open spec fn agrees(self, e: Event) -> bool {
        match e {
            Event::Exists(path, found) => found == self.datasets.contains(path),
            Event::Snapshots(dataset, names) => names == self.snaps(dataset),
            Event::LastSnapshot(dataset, part, found) => found == last_with(
                self.snaps(dataset),
                part,
            ),
            Event::Running(jail, found) => found == self.running.contains(jail),
            Event::Enabled(jail, found) => found == self.enabled.contains(jail),
            Event::IsFile(path, found) => found == self.files.contains_key(path),
            Event::Read(path, text) => self.files.contains_key(path) && self.files[path] == text,
            _ => true,
        }
    }

    /// The world once a change is made. A finding leaves it as it is, and so
    /// does a change that is not part of the world.
    pub open spec fn step(self, e: Event) -> World {
        match e {
            Event::Created(path) => World {
                datasets: self.datasets.insert(path),
                snapshots: self.snapshots.insert(path, Seq::empty()),
                ..self
            },
            Event::Destroyed(path) => World {
                datasets: self.datasets.remove(path),
                snapshots: self.snapshots.remove(path),
                ..self
            },
            Event::DestroyedAll(path) => World {
                datasets: self.datasets.remove(path),
                snapshots: self.snapshots.remove(path),
                ..self
            },
            Event::Snapshot(dataset, name) => World {
                datasets: self.datasets.insert(at(dataset, name)),
                snapshots: self.snapshots.insert(dataset, self.snaps(dataset).push(name)),
                ..self
            },
            Event::SnapshotDestroyed(dataset, name) => World {
                datasets: self.datasets.remove(at(dataset, name)),
                snapshots: self.snapshots.insert(dataset, without(self.snaps(dataset), name)),
                ..self
            },
            Event::Cloned(dataset, snapshot, dest) => World {
                datasets: self.datasets.insert(dest),
                snapshots: self.snapshots.insert(dest, Seq::empty()),
                ..self
            },
            Event::Started(jail) => World { running: self.running.insert(jail), ..self },
            Event::Stopped(jail) => World { running: self.running.remove(jail), ..self },
            Event::Enable(jail) => World { enabled: self.enabled.insert(jail), ..self },
            Event::Disable(jail) => World { enabled: self.enabled.remove(jail), ..self },
            Event::Written(path, text) => World { files: self.files.insert(path, text), ..self },
            Event::Removed(path) => World { files: self.files.remove(path), ..self },
            _ => self,
        }
    }

    /// The world once the changes among the events are made, in their order.
    pub open spec fn after(self, events: Seq<Event>) -> World
        decreases events.len(),
    {
        if events.len() == 0 {
            self
        } else {
            self.after(events.drop_last()).step(events.last())
        }
    }

    /// Whether every finding among the events is true of the world as the
    /// changes before it have left it.
    pub open spec fn faithful(self, events: Seq<Event>) -> bool
        decreases events.len(),
    {
        events.len() == 0 || (self.faithful(events.drop_last()) && self.after(
            events.drop_last(),
        ).agrees(events.last()))
    }
}

/// One more event: the world takes one more step, and the record stays
/// faithful if the event agrees.
pub broadcast proof fn lemma_push(w: World, events: Seq<Event>, e: Event)
    ensures
        #![trigger w.after(events.push(e))]
        #![trigger w.faithful(events.push(e))]
        w.after(events.push(e)) == w.after(events).step(e),
        w.faithful(events.push(e)) == (w.faithful(events) && w.after(events).agrees(e)),
{
    assert(events.push(e).drop_last() == events);
}

/// One more event: one more change if it is a change.
pub broadcast proof fn lemma_changes_push(events: Seq<Event>, e: Event)
    ensures
        #[trigger] changes(events.push(e)) == changes(events) + (if observes(e) {
            0nat
        } else {
            1nat
        }),
{
    assert(events.push(e).drop_last() == events);
}

pub broadcast group group_events {
    lemma_push,
    lemma_changes_push,
}

} // verus!
