//! The dispatcher itself: the registry, the instance table and the pending
//! constructions, kept together.

use std::collections::HashMap;
use vstd::prelude::*;
use crate::attribute::AttributeChange;
use crate::dispatch::{
    failure_message, Callback, CallbackFailure, ConstructError, ConstructRefusal, Dispatch,
    DispatcherView, FailureRecordView, Invocation,
};
use crate::instance::{
    HostElement, Instance, InstanceId, InstanceTable, LifecycleEvent, LifecycleState,
    ReentrantAliasViolation,
};
use crate::registry::{Registration, RegistrationError, Registry};

verus! {

broadcast use vstd::std_specs::hash::group_hash_axioms;

/// The lifecycle dispatcher.
///
/// The host notifies it of what happens to its elements. For each
/// notification the dispatcher moves the instance on and says which callback
/// is due; the caller runs the callback and reports its end through
/// [`Dispatcher::complete`]. A notification may arrive while a callback for
/// the same element is still running: the dispatcher never waits for a
/// callback.
pub struct Dispatcher<C, D> {
    registry: Registry<C>,
    instances: InstanceTable<D>,
    constructing: HashMap<u64, usize>,
    failures: Vec<CallbackFailure>,
}

impl<C, D> View for Dispatcher<C, D> {
    type V = DispatcherView<C, D>;

    closed spec fn view(&self) -> DispatcherView<C, D> {
        DispatcherView {
            registry: self.registry@,
            instances: self.instances@,
            constructing: self.constructing@,
            failures: self.failures@.map_values(|f: CallbackFailure| f@),
        }
    }
}

impl<C, D> Dispatcher<C, D> {
    /// The invariant of the dispatcher.
    pub open spec fn wf(&self) -> bool {
        self@.inv()
    }

    /// The dispatcher with no registration and no instance.
    pub fn new() -> (dispatcher: Dispatcher<C, D>)
        ensures
            dispatcher.wf(),
            dispatcher@.registry.registrations.len() == 0,
            dispatcher@.registry.observed.len() == 0,
            dispatcher@.instances.entries == Map::<u64, Instance<D>>::empty(),
            dispatcher@.instances.issued == 0,
            dispatcher@.constructing == Map::<u64, usize>::empty(),
            dispatcher@.failures == Seq::<FailureRecordView>::empty(),
    {
        let dispatcher = Dispatcher {
            registry: Registry::new(),
            instances: InstanceTable::new(),
            constructing: HashMap::new(),
            failures: Vec::new(),
        };
        assert(dispatcher@.failures =~= Seq::<FailureRecordView>::empty());
        dispatcher
    }

    /// The dispatcher with no registration and no instance, whose first
    /// instance will get the serial number `first_serial`.
    pub fn starting_at(first_serial: u64) -> (dispatcher: Dispatcher<C, D>)
        ensures
            dispatcher.wf(),
            dispatcher@.registry.registrations.len() == 0,
            dispatcher@.registry.observed.len() == 0,
            dispatcher@.instances.entries == Map::<u64, Instance<D>>::empty(),
            dispatcher@.instances.issued == first_serial,
            dispatcher@.constructing == Map::<u64, usize>::empty(),
            dispatcher@.failures == Seq::<FailureRecordView>::empty(),
    {
        let dispatcher = Dispatcher {
            registry: Registry::new(),
            instances: InstanceTable::starting_at(first_serial),
            constructing: HashMap::new(),
            failures: Vec::new(),
        };
        assert(dispatcher@.failures =~= Seq::<FailureRecordView>::empty());
        dispatcher
    }

    /// The registry, for reading.
    pub fn registry(&self) -> (registry: &Registry<C>)
        requires
            self.wf(),
        ensures
            registry.wf(),
            registry@ == self@.registry,
    {
        &self.registry
    }

    /// The instance table, for reading.
    pub fn instances(&self) -> (instances: &InstanceTable<D>)
        requires
            self.wf(),
        ensures
            instances.wf(),
            instances@ == self@.instances,
    {
        &self.instances
    }

    /// Publishes `registration`.
    ///
    /// It is refused where its kind name is already registered, and where the
    /// host has already asked for an element of that kind.
    pub fn register(&mut self, registration: Registration<C>) -> (outcome: Result<
        (),
        RegistrationError,
    >)
        requires
            old(self).wf(),
        ensures
            final(self).wf(),
            final(self)@ == old(self)@.register(registration@).0,
            outcome == old(self)@.register(registration@).1,
    {
        self.registry.register(registration)
    }

    /// The registration of `kind_name`, where there is one.
    pub fn lookup(&self, kind_name: &str) -> (registration: Option<&Registration<C>>)
        requires
            self.wf(),
        ensures
            match registration {
                Some(found) => self@.registry.lookup(kind_name@) == Some(found@),
                None => self@.registry.lookup(kind_name@) is None,
            },
    {
        self.registry.lookup(kind_name)
    }

    /// The state of the instance of `host`, where the dispatcher knows of
    /// one: `Constructing` while its data is being made, else the state that
    /// the host last put it in.
    pub fn lifecycle(&self, host: HostElement) -> (state: Option<LifecycleState>)
        requires
            self.wf(),
        ensures
            state == self@.lifecycle(host.id),
    {
        if self.constructing.contains_key(&host.id) {
            return Some(LifecycleState::Constructing);
        }
        match self.instances.info(host) {
            Some(info) => Some(info.state),
            None => None,
        }
    }

    /// The host asks for an instance of kind `kind_name` for `host`.
    ///
    /// Where the kind is registered and `host` has neither an instance nor a
    /// construction under way, the construction is noted and the position of
    /// the registration returned: the caller runs its constructor and hands
    /// the data in through [`Dispatcher::finish_construct`]. A kind that is
    /// not registered is refused and remembered as met by the host.
    pub fn begin_construct(&mut self, host: HostElement, kind_name: &str) -> (outcome: Result<
        usize,
        ConstructRefusal,
    >)
        requires
            old(self).wf(),
        ensures
            final(self).wf(),
            final(self)@ == old(self)@.begin_construct(host.id, kind_name@).0,
            outcome == old(self)@.begin_construct(host.id, kind_name@).1,
    {
        match self.registry.find(kind_name) {
            None => {
                self.registry.mark_observed(kind_name);
                Err(ConstructRefusal::UnknownKind)
            },
            Some(kind) => {
                if self.instances.contains(host) || self.constructing.contains_key(&host.id) {
                    return Err(ConstructRefusal::HostOccupied);
                }
                self.constructing.insert(host.id, kind);
                Ok(kind)
            },
        }
    }

    /// The constructor of `host` hands in its data. The instance starts in
    /// the state `Disconnected`.
    ///
    /// The data goes back to the caller where no construction was begun for
    /// `host`, or where no serial number is left; in the second case the
    /// construction is over all the same.
    pub fn finish_construct(&mut self, host: HostElement, data: D) -> (outcome: Result<
        InstanceId,
        ConstructError<D>,
    >)
        requires
            old(self).wf(),
        ensures
            final(self).wf(),
            final(self)@ == old(self)@.finish_construct(host.id, data).0,
            outcome == old(self)@.finish_construct(host.id, data).1,
    {
        match self.constructing.remove(&host.id) {
            None => {
                assert(self@.constructing =~= old(self)@.constructing);
                Err(ConstructError { refusal: ConstructRefusal::NotConstructing, data })
            },
            Some(kind) => {
                match self.instances.insert(host, kind, data) {
                    Ok(id) => Ok(id),
                    Err(refused) => Err(
                        ConstructError {
                            refusal: ConstructRefusal::SerialsExhausted,
                            data: refused.data,
                        },
                    ),
                }
            },
        }
    }

    /// Constructs the instance of `host` in one step: begins the
    /// construction, runs `constructor` on `host`, and hands its data in.
    ///
    /// `constructor` runs only where the construction is accepted.
    pub fn construct<F: FnOnce(HostElement) -> D>(
        &mut self,
        host: HostElement,
        kind_name: &str,
        constructor: F,
    ) -> (outcome: Result<InstanceId, ConstructRefusal>)
        requires
            old(self).wf(),
            old(self)@.begin_construct(host.id, kind_name@).1 is Ok ==> constructor.requires(
                (host,),
            ),
        ensures
            final(self).wf(),
            old(self)@.begin_construct(host.id, kind_name@).1 is Err ==> {
                &&& final(self)@ == old(self)@.begin_construct(host.id, kind_name@).0
                &&& outcome is Err
                &&& Err::<usize, ConstructRefusal>(outcome->Err_0) == old(self)@.begin_construct(
                    host.id,
                    kind_name@,
                ).1
            },
            old(self)@.begin_construct(host.id, kind_name@).1 is Ok ==> {
                let begun = old(self)@.begin_construct(host.id, kind_name@).0;
                if old(self)@.instances.issued >= u64::MAX {
                    &&& outcome == Err::<InstanceId, ConstructRefusal>(
                        ConstructRefusal::SerialsExhausted,
                    )
                    &&& final(self)@ == old(self)@
                } else {
                    &&& outcome is Ok
                    &&& final(self)@.instances.holds_data(host.id)
                    &&& constructor.ensures((host,), final(self)@.instances.entries[host.id].data->0)
                    &&& final(self)@ == begun.finish_construct(
                        host.id,
                        final(self)@.instances.entries[host.id].data->0,
                    ).0
                    &&& Ok::<InstanceId, ConstructError<D>>(outcome->Ok_0)
                        == begun.finish_construct(
                        host.id,
                        final(self)@.instances.entries[host.id].data->0,
                    ).1
                }
            },
    {
        match self.begin_construct(host, kind_name) {
            Err(refusal) => Err(refusal),
            Ok(_) => {
                let data = constructor(host);
                match self.finish_construct(host, data) {
                    Ok(id) => Ok(id),
                    Err(refused) => {
                        assert(self@.constructing =~= old(self)@.constructing);
                        Err(refused.refusal)
                    },
                }
            },
        }
    }

    fn notify(&mut self, host: HostElement, event: LifecycleEvent, callback: Callback) -> (dispatch:
        Dispatch)
        requires
            old(self).wf(),
            event is Connect || event is Disconnect || event is Adopt,
        ensures
            final(self).wf(),
            final(self)@ == old(self)@.notify(host.id, event, callback@).0,
            dispatch@ == old(self)@.notify(host.id, event, callback@).1,
    {
        match self.instances.info(host) {
            None => Dispatch::Dropped,
            Some(info) => {
                self.instances.set_state(host, info.state.step(event));
                Dispatch::Invoke(Invocation { host, instance: info.id, kind: info.kind, callback })
            },
        }
    }

    /// The host has attached `host` to a live document.
    ///
    /// Where `host` has an instance, the instance is `Connected` from now on
    /// and its connected callback is due. Where it has none, nothing happens.
    pub fn connect(&mut self, host: HostElement) -> (dispatch: Dispatch)
        requires
            old(self).wf(),
        ensures
            final(self).wf(),
            final(self)@ == old(self)@.connect(host.id).0,
            dispatch@ == old(self)@.connect(host.id).1,
    {
        self.notify(host, LifecycleEvent::Connect, Callback::Connected)
    }

    /// The host has detached `host` from its document.
    ///
    /// Where `host` has an instance, the instance is `Disconnected` from now
    /// on and its disconnected callback is due. Where it has none, nothing
    /// happens.
    pub fn disconnect(&mut self, host: HostElement) -> (dispatch: Dispatch)
        requires
            old(self).wf(),
        ensures
            final(self).wf(),
            final(self)@ == old(self)@.disconnect(host.id).0,
            dispatch@ == old(self)@.disconnect(host.id).1,
    {
        self.notify(host, LifecycleEvent::Disconnect, Callback::Disconnected)
    }

    /// The host has moved `host` to the document `new_context`, where it is
    /// attached or not as `attached` says.
    ///
    /// Where `host` has an instance, the instance is `Adopting` until the
    /// adopted callback, which is due, has ended. Where it has none, nothing
    /// happens.
    pub fn adopt(&mut self, host: HostElement, new_context: u64, attached: bool) -> (dispatch:
        Dispatch)
        requires
            old(self).wf(),
        ensures
            final(self).wf(),
            final(self)@ == old(self)@.adopt(host.id, new_context, attached).0,
            dispatch@ == old(self)@.adopt(host.id, new_context, attached).1,
    {
        self.notify(host, LifecycleEvent::Adopt, Callback::Adopted { new_context, attached })
    }

    /// The host reports a mutation of an attribute of `host`.
    ///
    /// The attribute-changed callback is due, with exactly this change, where
    /// `host` has an instance and the registration of the instance observes
    /// the attribute. Every other mutation is dropped.
    pub fn attribute_mutated(&self, host: HostElement, change: AttributeChange) -> (dispatch:
        Dispatch)
        requires
            self.wf(),
        ensures
            dispatch@ == self@.attribute_mutated(host.id, change@),
    {
        match self.instances.info(host) {
            None => Dispatch::Dropped,
            Some(info) => {
                match self.registry.get(info.kind) {
                    None => Dispatch::Dropped,
                    Some(registration) => {
                        if registration.observed_attributes.allows(change.attribute_name.as_str()) {
                            Dispatch::Invoke(
                                Invocation {
                                    host,
                                    instance: info.id,
                                    kind: info.kind,
                                    callback: Callback::AttributeChanged(change),
                                },
                            )
                        } else {
                            Dispatch::Dropped
                        }
                    },
                }
            },
        }
    }

    /// The callback of `invocation` has ended, with `outcome`.
    ///
    /// An error is put on record for [`Dispatcher::take_failures`] and
    /// changes nothing else. The end of an adopted callback settles the
    /// instance, if it is still `Adopting`, in `Connected` or `Disconnected`
    /// as the host reported with the move.
    pub fn complete(&mut self, invocation: &Invocation, outcome: Result<(), String>)
        requires
            old(self).wf(),
        ensures
            final(self).wf(),
            final(self)@ == old(self)@.complete(invocation@, failure_message(outcome)),
    {
        let host = invocation.host;
        if let Callback::Adopted { new_context: _, attached } = &invocation.callback {
            if let Some(info) = self.instances.info(host) {
                if info.id == invocation.instance {
                    let event = LifecycleEvent::Settle { attached: *attached };
                    self.instances.set_state(host, info.state.step(event));
                }
            }
        }
        if let Err(message) = outcome {
            self.failures.push(
                CallbackFailure { host, callback: invocation.callback.kind(), message },
            );
            assert(self@.failures =~= old(self)@.complete(
                invocation@,
                failure_message(outcome),
            ).failures);
        }
    }

    /// Hands over the failures that callbacks have signalled since the last
    /// call, oldest first, and clears the record.
    pub fn take_failures(&mut self) -> (failures: Vec<CallbackFailure>)
        requires
            old(self).wf(),
        ensures
            final(self).wf(),
            failures@.map_values(|f: CallbackFailure| f@) == old(self)@.failures,
            final(self)@ == (DispatcherView {
                registry: old(self)@.registry,
                instances: old(self)@.instances,
                constructing: old(self)@.constructing,
                failures: Seq::<FailureRecordView>::empty(),
            }),
    {
        let mut failures: Vec<CallbackFailure> = Vec::new();
        std::mem::swap(&mut self.failures, &mut failures);
        assert(self@.failures =~= Seq::<FailureRecordView>::empty());
        failures
    }

    /// The host has destroyed `host`.
    ///
    /// The instance leaves the table and its data goes to the caller, who
    /// runs teardown on it. `Ok(None)` where `host` has no instance. Where
    /// the data is lent out the instance stays and the violation is reported.
    pub fn finalize(&mut self, host: HostElement) -> (outcome: Result<
        Option<D>,
        ReentrantAliasViolation,
    >)
        requires
            old(self).wf(),
        ensures
            final(self).wf(),
            final(self)@ == old(self)@.finalize(host.id).0,
            outcome == old(self)@.finalize(host.id).1,
    {
        self.instances.remove(host)
    }

    /// Runs `f` with exclusive access to the data of `host`; see
    /// [`InstanceTable::with_instance`].
    pub fn with_instance<R, F: FnOnce(D) -> (D, R)>(&mut self, host: HostElement, f: F) -> (outcome:
        Result<Option<R>, ReentrantAliasViolation>)
        requires
            old(self).wf(),
            old(self)@.instances.holds_data(host.id) ==> f.requires(
                (old(self)@.instances.entries[host.id].data->0,),
            ),
        ensures
            final(self).wf(),
            !old(self)@.instances.has(host.id) ==> outcome == Ok::<
                Option<R>,
                ReentrantAliasViolation,
            >(None) && final(self)@ == old(self)@,
            old(self)@.instances.is_lent(host.id) ==> outcome == Err::<
                Option<R>,
                ReentrantAliasViolation,
            >(ReentrantAliasViolation { host }) && final(self)@ == old(self)@,
            old(self)@.instances.holds_data(host.id) ==> {
                &&& outcome is Ok
                &&& outcome->Ok_0 is Some
                &&& final(self)@.instances.holds_data(host.id)
                &&& f.ensures(
                    (old(self)@.instances.entries[host.id].data->0,),
                    (final(self)@.instances.entries[host.id].data->0, outcome->Ok_0->0),
                )
                &&& final(self)@ == old(self)@.with_instances(
                    old(self)@.instances.with_data(
                        host.id,
                        final(self)@.instances.entries[host.id].data,
                    ),
                )
            },
    {
        self.instances.with_instance(host, f)
    }

    /// Lends the data of `host` out; see [`InstanceTable::checkout`].
    pub fn checkout(&mut self, host: HostElement) -> (outcome: Result<
        Option<D>,
        ReentrantAliasViolation,
    >)
        requires
            old(self).wf(),
        ensures
            final(self).wf(),
            final(self)@ == old(self)@.with_instances(old(self)@.instances.checkout(host.id).0),
            outcome == old(self)@.instances.checkout(host.id).1,
    {
        self.instances.checkout(host)
    }

    /// Takes lent data back; see [`InstanceTable::checkin`].
    pub fn checkin(&mut self, host: HostElement, data: D) -> (outcome: Result<(), D>)
        requires
            old(self).wf(),
        ensures
            final(self).wf(),
            final(self)@ == old(self)@.with_instances(old(self)@.instances.checkin(host.id, data).0),
            outcome == old(self)@.instances.checkin(host.id, data).1,
    {
        self.instances.checkin(host, data)
    }
}

} // verus!
