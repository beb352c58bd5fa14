//! The instance table: which host element owns which instance data.

use std::collections::HashMap;
use vstd::prelude::*;

verus! {

broadcast use vstd::std_specs::hash::group_hash_axioms;

/// A handle to an element that the host owns. Two handles are the same
/// element exactly when their identities are equal.
#[derive(Clone, Copy, PartialEq, Eq, Debug, Hash, Structural)]
pub struct HostElement {
    pub id: u64,
}

/// The serial number of an instance. No two instances that a table ever held
/// share one.
#[derive(Clone, Copy, PartialEq, Eq, Debug, Hash, Structural)]
pub struct InstanceId {
    pub serial: u64,
}

/// Where an instance stands in its life.
#[derive(Clone, Copy, PartialEq, Eq, Debug, Structural)]
pub enum LifecycleState {
    /// The host has asked for the instance and its data is being made.
    Constructing,
    /// The element exists and is not attached to a live document.
    Disconnected,
    /// The element is attached to a live document.
    Connected,
    /// The element is moving to another document; the callback for the move
    /// has not finished.
    Adopting,
    /// The host has destroyed the element.
    Finalized,
}

/// What the host reports of one element.
#[derive(Clone, Copy, PartialEq, Eq, Debug, Structural)]
pub enum LifecycleEvent {
    /// The instance data has been made.
    Constructed,
    /// The element was attached to a live document.
    Connect,
    /// The element was detached from its document.
    Disconnect,
    /// The element moved to another document.
    Adopt,
    /// The callback for a move has finished; `attached` says whether the
    /// element is attached in its new document.
    Settle { attached: bool },
    /// The element was destroyed.
    Finalize,
}

impl LifecycleState {
    /// Whether an instance in this state has an entry in the instance table.
    pub open spec fn is_live(self) -> bool {
        self is Disconnected || self is Connected || self is Adopting
    }

    /// The state that follows this one when the host reports `event`.
    pub open spec fn after(self, event: LifecycleEvent) -> LifecycleState {
        match event {
            LifecycleEvent::Constructed => if self is Constructing {
                LifecycleState::Disconnected
            } else {
                self
            },
            LifecycleEvent::Connect => if self.is_live() {
                LifecycleState::Connected
            } else {
                self
            },
            LifecycleEvent::Disconnect => if self.is_live() {
                LifecycleState::Disconnected
            } else {
                self
            },
            LifecycleEvent::Adopt => if self.is_live() {
                LifecycleState::Adopting
            } else {
                self
            },
            LifecycleEvent::Settle { attached } => if self is Adopting {
                if attached {
                    LifecycleState::Connected
                } else {
                    LifecycleState::Disconnected
                }
            } else {
                self
            },
            LifecycleEvent::Finalize => LifecycleState::Finalized,
        }
    }

    /// Whether an instance in this state has an entry in the instance table.
    pub fn live(self) -> (live: bool)
        ensures
            live == self.is_live(),
    {
        match self {
            LifecycleState::Disconnected => true,
            LifecycleState::Connected => true,
            LifecycleState::Adopting => true,
            _ => false,
        }
    }

    /// The state that follows this one when the host reports `event`.
    ///
    /// A finalized instance stays finalized. An instance that is still being
    /// constructed only reacts to the end of its construction and to its
    /// destruction.
    pub fn step(self, event: LifecycleEvent) -> (next: LifecycleState)
        ensures
            next == self.after(event),
    {
        match event {
            LifecycleEvent::Constructed => match self {
                LifecycleState::Constructing => LifecycleState::Disconnected,
                _ => self,
            },
            LifecycleEvent::Connect => if self.live() {
                LifecycleState::Connected
            } else {
                self
            },
            LifecycleEvent::Disconnect => if self.live() {
                LifecycleState::Disconnected
            } else {
                self
            },
            LifecycleEvent::Adopt => if self.live() {
                LifecycleState::Adopting
            } else {
                self
            },
            LifecycleEvent::Settle { attached } => match self {
                LifecycleState::Adopting => if attached {
                    LifecycleState::Connected
                } else {
                    LifecycleState::Disconnected
                },
                _ => self,
            },
            LifecycleEvent::Finalize => LifecycleState::Finalized,
        }
    }
}

/// One entry of the instance table.
///
/// `data` is `None` exactly while an exclusive borrow of the data is
/// outstanding.
#[derive(Debug, PartialEq, Eq)]
pub struct Instance<D> {
    pub id: InstanceId,
    pub kind: usize,
    pub state: LifecycleState,
    pub data: Option<D>,
}

/// What a table tells of an entry without giving access to its data.
#[derive(Clone, Copy, PartialEq, Eq, Debug, Structural)]
pub struct InstanceInfo {
    pub id: InstanceId,
    pub kind: usize,
    pub state: LifecycleState,
    /// Whether an exclusive borrow of the data is outstanding.
    pub lent: bool,
}

/// A second exclusive borrow of an instance's data was asked for while the
/// first was outstanding.
#[derive(Clone, Copy, PartialEq, Eq, Debug, Structural)]
pub struct ReentrantAliasViolation {
    pub host: HostElement,
}

/// Why a table did not take an entry.
#[derive(Clone, Copy, PartialEq, Eq, Debug, Structural)]
pub enum InsertRefusal {
    /// The host element already has a live entry.
    HostOccupied,
    /// The table has given out every serial number.
    SerialsExhausted,
}

/// A refused entry; the data goes back to the caller.
#[derive(Debug, PartialEq, Eq)]
pub struct InsertError<D> {
    pub refusal: InsertRefusal,
    pub data: D,
}

/// The mathematical value of an [`InstanceTable`]: its entries by host
/// identity, and how many serial numbers it has given out.
pub struct InstanceTableView<D> {
    pub entries: Map<u64, Instance<D>>,
    pub issued: nat,
}

impl<D> InstanceTableView<D> {
    /// Every entry carries a serial number that was given out, no two entries
    /// share one, and every entry is in a live state.
    pub open spec fn inv(self) -> bool {
        &&& self.issued <= u64::MAX
        &&& forall|host: u64| #[trigger]
            self.entries.contains_key(host) ==> self.entries[host].id.serial < self.issued
                && self.entries[host].state.is_live()
        &&& forall|a: u64, b: u64|
            #![trigger self.entries[a], self.entries[b]]
            self.entries.contains_key(a) && self.entries.contains_key(b) && a != b
                ==> self.entries[a].id != self.entries[b].id
    }

    /// Whether `host` has an entry.
    pub open spec fn has(self, host: u64) -> bool {
        self.entries.contains_key(host)
    }

    /// Whether `host` has an entry whose data is lent out.
    pub open spec fn is_lent(self, host: u64) -> bool {
        self.has(host) && self.entries[host].data is None
    }

    /// Whether `host` has an entry whose data is in the table.
    pub open spec fn holds_data(self, host: u64) -> bool {
        self.has(host) && self.entries[host].data is Some
    }

    /// What the table tells of the entry of `host`.
    pub open spec fn info(self, host: u64) -> Option<InstanceInfo> {
        if self.has(host) {
            let entry = self.entries[host];
            Some(
                InstanceInfo {
                    id: entry.id,
                    kind: entry.kind,
                    state: entry.state,
                    lent: entry.data is None,
                },
            )
        } else {
            None
        }
    }

    /// The table with the data slot of `host` replaced.
    pub open spec fn with_data(self, host: u64, data: Option<D>) -> Self {
        let entry = self.entries[host];
        InstanceTableView {
            entries: self.entries.insert(
                host,
                Instance { id: entry.id, kind: entry.kind, state: entry.state, data },
            ),
            issued: self.issued,
        }
    }

    /// The table with the state of `host` replaced.
    pub open spec fn with_state(self, host: u64, state: LifecycleState) -> Self {
        let entry = self.entries[host];
        InstanceTableView {
            entries: self.entries.insert(
                host,
                Instance { id: entry.id, kind: entry.kind, state, data: entry.data },
            ),
            issued: self.issued,
        }
    }

    /// The entry that `insert` makes for data of kind `kind`.
    pub open spec fn fresh_entry(self, kind: usize, data: D) -> Instance<D> {
        Instance {
            id: InstanceId { serial: self.issued as u64 },
            kind,
            state: LifecycleState::Disconnected,
            data: Some(data),
        }
    }

    /// Taking an entry: the table afterwards, and what the caller is told.
    pub open spec fn insert(self, host: u64, kind: usize, data: D) -> (Self, Result<
        InstanceId,
        InsertError<D>,
    >) {
        if self.has(host) {
            (self, Err(InsertError { refusal: InsertRefusal::HostOccupied, data }))
        } else if self.issued >= u64::MAX {
            (self, Err(InsertError { refusal: InsertRefusal::SerialsExhausted, data }))
        } else {
            (
                InstanceTableView {
                    entries: self.entries.insert(host, self.fresh_entry(kind, data)),
                    issued: self.issued + 1,
                },
                Ok(InstanceId { serial: self.issued as u64 }),
            )
        }
    }

    /// Lending the data of `host` out: the table afterwards, and what the
    /// caller is told.
    pub open spec fn checkout(self, host: u64) -> (Self, Result<
        Option<D>,
        ReentrantAliasViolation,
    >) {
        if !self.has(host) {
            (self, Ok(None))
        } else if self.entries[host].data is None {
            (self, Err(ReentrantAliasViolation { host: HostElement { id: host } }))
        } else {
            (self.with_data(host, None), Ok(self.entries[host].data))
        }
    }

    /// Taking lent data back: the table afterwards, and what the caller is
    /// told.
    pub open spec fn checkin(self, host: u64, data: D) -> (Self, Result<(), D>) {
        if self.is_lent(host) {
            (self.with_data(host, Some(data)), Ok(()))
        } else {
            (self, Err(data))
        }
    }

    /// Giving the entry of `host` up: the table afterwards, and what the
    /// caller is told.
    pub open spec fn remove(self, host: u64) -> (Self, Result<
        Option<D>,
        ReentrantAliasViolation,
    >) {
        if !self.has(host) {
            (self, Ok(None))
        } else if self.entries[host].data is None {
            (self, Err(ReentrantAliasViolation { host: HostElement { id: host } }))
        } else {
            (
                InstanceTableView { entries: self.entries.remove(host), issued: self.issued },
                Ok(self.entries[host].data),
            )
        }
    }

    /// Recording a new state for `host`: the table afterwards, and whether
    /// the state was recorded. Only a live state is recorded, and only for a
    /// host that has an entry.
    pub open spec fn set_state(self, host: u64, state: LifecycleState) -> (Self, bool) {
        if self.has(host) && state.is_live() {
            (self.with_state(host, state), true)
        } else {
            (self, false)
        }
    }
}

/// The ownership map from host elements to instance data.
///
/// Each live host element has at most one entry. The data of an entry has
/// one owner, the entry; it leaves the table only as an exclusive borrow,
/// through [`InstanceTable::checkout`] or inside
/// [`InstanceTable::with_instance`], or for good through
/// [`InstanceTable::remove`].
pub struct InstanceTable<D> {
    entries: HashMap<u64, Instance<D>>,
    issued: u64,
}

impl<D> View for InstanceTable<D> {
    type V = InstanceTableView<D>;

    closed spec fn view(&self) -> InstanceTableView<D> {
        InstanceTableView { entries: self.entries@, issued: self.issued as nat }
    }
}

impl<D> InstanceTable<D> {
    /// The invariant of the table.
    pub open spec fn wf(&self) -> bool {
        self@.inv()
    }

    /// The table without entries.
    pub fn new() -> (table: InstanceTable<D>)
        ensures
            table.wf(),
            table@.entries == Map::<u64, Instance<D>>::empty(),
            table@.issued == 0,
    {
        InstanceTable { entries: HashMap::new(), issued: 0 }
    }

    /// The table without entries whose first instance will get the serial
    /// number `first_serial`.
    pub fn starting_at(first_serial: u64) -> (table: InstanceTable<D>)
        ensures
            table.wf(),
            table@.entries == Map::<u64, Instance<D>>::empty(),
            table@.issued == first_serial,
    {
        InstanceTable { entries: HashMap::new(), issued: first_serial }
    }

    /// How many entries the table holds.
    pub fn len(&self) -> (n: usize)
        requires
            self.wf(),
        ensures
            n == self@.entries.len(),
    {
        self.entries.len()
    }

    /// Whether `host` has an entry.
    pub fn contains(&self, host: HostElement) -> (known: bool)
        requires
            self.wf(),
        ensures
            known == self@.has(host.id),
    {
        self.entries.contains_key(&host.id)
    }

    /// What the table tells of the entry of `host`, if it has one.
    pub fn info(&self, host: HostElement) -> (info: Option<InstanceInfo>)
        requires
            self.wf(),
        ensures
            info == self@.info(host.id),
    {
        match self.entries.get(&host.id) {
            Some(entry) => Some(
                InstanceInfo {
                    id: entry.id,
                    kind: entry.kind,
                    state: entry.state,
                    lent: entry.data.is_none(),
                },
            ),
            None => None,
        }
    }

    /// Takes `data` as the instance data of `host`, in the state
    /// `Disconnected`, and gives the new instance its serial number.
    ///
    /// The entry is refused, and the data handed back, where `host` already
    /// has an entry, or where no serial number is left.
    pub fn insert(&mut self, host: HostElement, kind: usize, data: D) -> (outcome: Result<
        InstanceId,
        InsertError<D>,
    >)
        requires
            old(self).wf(),
        ensures
            final(self).wf(),
            final(self)@ == old(self)@.insert(host.id, kind, data).0,
            outcome == old(self)@.insert(host.id, kind, data).1,
    {
        if self.entries.contains_key(&host.id) {
            return Err(InsertError { refusal: InsertRefusal::HostOccupied, data });
        }
        if self.issued == u64::MAX {
            return Err(InsertError { refusal: InsertRefusal::SerialsExhausted, data });
        }
        let id = InstanceId { serial: self.issued };
        let entry = Instance { id, kind, state: LifecycleState::Disconnected, data: Some(data) };
        self.entries.insert(host.id, entry);
        self.issued = self.issued + 1;
        Ok(id)
    }

    /// Runs `f` with exclusive access to the data of `host`.
    ///
    /// Nothing is run where `host` has no entry: that is no error, since the
    /// host may notify of an element that is already gone. Where the data is
    /// lent out, a second exclusive borrow would alias the first: nothing is
    /// run and the violation is reported.
    pub fn with_instance<R, F: FnOnce(D) -> (D, R)>(&mut self, host: HostElement, f: F) -> (outcome:
        Result<Option<R>, ReentrantAliasViolation>)
        requires
            old(self).wf(),
            old(self)@.holds_data(host.id) ==> f.requires((old(self)@.entries[host.id].data->0,)),
        ensures
            final(self).wf(),
            !old(self)@.has(host.id) ==> outcome == Ok::<Option<R>, ReentrantAliasViolation>(None)
                && final(self)@ == old(self)@,
            old(self)@.is_lent(host.id) ==> outcome == Err::<
                Option<R>,
                ReentrantAliasViolation,
            >(ReentrantAliasViolation { host }) && final(self)@ == old(self)@,
            old(self)@.holds_data(host.id) ==> {
                &&& outcome is Ok
                &&& outcome->Ok_0 is Some
                &&& final(self)@.holds_data(host.id)
                &&& f.ensures(
                    (old(self)@.entries[host.id].data->0,),
                    (final(self)@.entries[host.id].data->0, outcome->Ok_0->0),
                )
                &&& final(self)@ == old(self)@.with_data(
                    host.id,
                    final(self)@.entries[host.id].data,
                )
            },
    {
        match self.entries.remove(&host.id) {
            None => {
                assert(self@.entries =~= old(self)@.entries);
                Ok(None)
            },
            Some(entry) => {
                let Instance { id, kind, state, data } = entry;
                match data {
                    None => {
                        self.entries.insert(host.id, Instance { id, kind, state, data: None });
                        assert(self@.entries =~= old(self)@.entries);
                        Err(ReentrantAliasViolation { host })
                    },
                    Some(before) => {
                        let (after, out) = f(before);
                        self.entries.insert(host.id, Instance { id, kind, state, data: Some(after) });
                        assert(self@.entries =~= old(self)@.with_data(host.id, Some(after)).entries);
                        Ok(Some(out))
                    },
                }
            },
        }
    }

    /// Lends the data of `host` out as an exclusive borrow that outlives this
    /// call. The data comes back through [`InstanceTable::checkin`].
    ///
    /// `Ok(None)` where `host` has no entry; the violation where the data is
    /// already lent out.
    pub fn checkout(&mut self, host: HostElement) -> (outcome: Result<
        Option<D>,
        ReentrantAliasViolation,
    >)
        requires
            old(self).wf(),
        ensures
            final(self).wf(),
            final(self)@ == old(self)@.checkout(host.id).0,
            outcome == old(self)@.checkout(host.id).1,
    {
        match self.entries.remove(&host.id) {
            None => {
                assert(self@.entries =~= old(self)@.entries);
                Ok(None)
            },
            Some(entry) => {
                let Instance { id, kind, state, data } = entry;
                self.entries.insert(host.id, Instance { id, kind, state, data: None });
                match data {
                    None => {
                        assert(self@.entries =~= old(self)@.entries);
                        Err(ReentrantAliasViolation { host })
                    },
                    Some(lent) => {
                        assert(self@.entries =~= old(self)@.with_data(host.id, None).entries);
                        Ok(Some(lent))
                    },
                }
            },
        }
    }

    /// Takes back the data of `host` that was lent out.
    ///
    /// The data is handed back to the caller where `host` has no entry or its
    /// data is not lent out.
    pub fn checkin(&mut self, host: HostElement, data: D) -> (outcome: Result<(), D>)
        requires
            old(self).wf(),
        ensures
            final(self).wf(),
            final(self)@ == old(self)@.checkin(host.id, data).0,
            outcome == old(self)@.checkin(host.id, data).1,
    {
        let lent = match self.entries.get(&host.id) {
            Some(entry) => entry.data.is_none(),
            None => false,
        };
        if !lent {
            return Err(data);
        }
        match self.entries.remove(&host.id) {
            None => Err(data),
            Some(entry) => {
                let Instance { id, kind, state, data: _ } = entry;
                self.entries.insert(host.id, Instance { id, kind, state, data: Some(data) });
                assert(self@.entries =~= old(self)@.with_data(host.id, Some(data)).entries);
                Ok(())
            },
        }
    }

    /// Gives the entry of `host` up and hands its data to the caller, who may
    /// run teardown on it before it is dropped.
    ///
    /// `Ok(None)` where `host` has no entry. Where the data is lent out the
    /// entry stays, and the violation is reported.
    pub fn remove(&mut self, host: HostElement) -> (outcome: Result<
        Option<D>,
        ReentrantAliasViolation,
    >)
        requires
            old(self).wf(),
        ensures
            final(self).wf(),
            final(self)@ == old(self)@.remove(host.id).0,
            outcome == old(self)@.remove(host.id).1,
    {
        let lent = match self.entries.get(&host.id) {
            Some(entry) => entry.data.is_none(),
            None => false,
        };
        if lent {
            return Err(ReentrantAliasViolation { host });
        }
        match self.entries.remove(&host.id) {
            None => {
                assert(self@.entries =~= old(self)@.entries);
                Ok(None)
            },
            Some(entry) => Ok(entry.data),
        }
    }

    /// Records `state` as the state of `host`, and says whether it did. A
    /// state that is not live is not recorded, nor one for a host without an
    /// entry.
    pub fn set_state(&mut self, host: HostElement, state: LifecycleState) -> (recorded: bool)
        requires
            old(self).wf(),
        ensures
            final(self).wf(),
            final(self)@ == old(self)@.set_state(host.id, state).0,
            recorded == old(self)@.set_state(host.id, state).1,
    {
        if !state.live() {
            return false;
        }
        match self.entries.remove(&host.id) {
            None => {
                assert(self@.entries =~= old(self)@.entries);
                false
            },
            Some(entry) => {
                let Instance { id, kind, state: _, data } = entry;
                self.entries.insert(host.id, Instance { id, kind, state, data });
                assert(self@.entries =~= old(self)@.with_state(host.id, state).entries);
                true
            },
        }
    }
}

} // verus!
