//! The lifecycle dispatcher: it takes the notifications of the host and says
//! which callback is due.

use vstd::prelude::*;
use crate::attribute::{observes, AttributeChange, AttributeChangeView};
use crate::instance::{
    HostElement, InstanceId, InstanceTableView, LifecycleEvent, LifecycleState,
    ReentrantAliasViolation,
};
use crate::registry::{RegistrationError, RegistrationView, RegistryView};

verus! {

/// Which of the four lifecycle callbacks of a registration.
#[derive(Clone, Copy, PartialEq, Eq, Debug, Structural)]
pub enum CallbackKind {
    Connected,
    Disconnected,
    Adopted,
    AttributeChanged,
}

/// A callback that is due, with what it is called with.
#[derive(Clone, Debug, PartialEq, Eq)]
pub enum Callback {
    Connected,
    Disconnected,
    /// The element moved to the document `new_context`; `attached` says
    /// whether it is attached there.
    Adopted { new_context: u64, attached: bool },
    AttributeChanged(AttributeChange),
}

/// The mathematical value of a [`Callback`].
pub enum CallbackView {
    Connected,
    Disconnected,
    Adopted { new_context: u64, attached: bool },
    AttributeChanged(AttributeChangeView),
}

impl View for Callback {
    type V = CallbackView;

    open spec fn view(&self) -> CallbackView {
        match *self {
            Callback::Connected => CallbackView::Connected,
            Callback::Disconnected => CallbackView::Disconnected,
            Callback::Adopted { new_context, attached } => CallbackView::Adopted {
                new_context,
                attached,
            },
            Callback::AttributeChanged(change) => CallbackView::AttributeChanged(change@),
        }
    }
}

impl CallbackView {
    /// Which callback this is.
    pub open spec fn kind(self) -> CallbackKind {
        match self {
            CallbackView::Connected => CallbackKind::Connected,
            CallbackView::Disconnected => CallbackKind::Disconnected,
            CallbackView::Adopted { .. } => CallbackKind::Adopted,
            CallbackView::AttributeChanged(_) => CallbackKind::AttributeChanged,
        }
    }
}

impl Callback {
    /// Which callback this is.
    pub fn kind(&self) -> (kind: CallbackKind)
        ensures
            kind == self@.kind(),
    {
        match self {
            Callback::Connected => CallbackKind::Connected,
            Callback::Disconnected => CallbackKind::Disconnected,
            Callback::Adopted { .. } => CallbackKind::Adopted,
            Callback::AttributeChanged(_) => CallbackKind::AttributeChanged,
        }
    }
}

/// One callback to run: on which element, for which instance, from which
/// registration, and which callback.
#[derive(Clone, Debug, PartialEq, Eq)]
pub struct Invocation {
    pub host: HostElement,
    pub instance: InstanceId,
    /// The position of the instance's registration in the registry.
    pub kind: usize,
    pub callback: Callback,
}

/// The mathematical value of an [`Invocation`].
pub struct InvocationView {
    pub host: HostElement,
    pub instance: InstanceId,
    pub kind: usize,
    pub callback: CallbackView,
}

impl View for Invocation {
    type V = InvocationView;

    open spec fn view(&self) -> InvocationView {
        InvocationView {
            host: self.host,
            instance: self.instance,
            kind: self.kind,
            callback: self.callback@,
        }
    }
}

/// What the dispatcher makes of a notification.
#[derive(Clone, Debug, PartialEq, Eq)]
pub enum Dispatch {
    /// No callback is due: the element has no instance, or the attribute is
    /// not observed.
    Dropped,
    /// The caller runs this callback, once.
    Invoke(Invocation),
}

/// The mathematical value of a [`Dispatch`].
pub enum DispatchView {
    Dropped,
    Invoke(InvocationView),
}

impl View for Dispatch {
    type V = DispatchView;

    open spec fn view(&self) -> DispatchView {
        match *self {
            Dispatch::Dropped => DispatchView::Dropped,
            Dispatch::Invoke(invocation) => DispatchView::Invoke(invocation@),
        }
    }
}

/// A callback that signalled an error.
#[derive(Clone, Debug, PartialEq, Eq)]
pub struct CallbackFailure {
    pub host: HostElement,
    pub callback: CallbackKind,
    pub message: String,
}

/// The mathematical value of a [`CallbackFailure`].
pub struct FailureRecordView {
    pub host: HostElement,
    pub callback: CallbackKind,
    pub message: Seq<char>,
}

impl View for CallbackFailure {
    type V = FailureRecordView;

    open spec fn view(&self) -> FailureRecordView {
        FailureRecordView { host: self.host, callback: self.callback, message: self.message@ }
    }
}

/// Why a construction was refused.
#[derive(Clone, Copy, PartialEq, Eq, Debug, Structural)]
pub enum ConstructRefusal {
    /// No registration bears the kind name.
    UnknownKind,
    /// The host element has an instance, or one is being constructed for it.
    HostOccupied,
    /// No construction was begun for the host element.
    NotConstructing,
    /// The instance table has given out every serial number.
    SerialsExhausted,
}

/// A refused end of construction; the data goes back to the caller.
#[derive(Debug, PartialEq, Eq)]
pub struct ConstructError<D> {
    pub refusal: ConstructRefusal,
    pub data: D,
}

/// What a callback reported, as the dispatcher records it: the message of
/// its error, if it signalled one.
pub open spec fn failure_message(outcome: Result<(), String>) -> Option<Seq<char>> {
    match outcome {
        Ok(_) => None,
        Err(message) => Some(message@),
    }
}

/// The mathematical value of a [`Dispatcher`].
pub struct DispatcherView<C, D> {
    pub registry: RegistryView<C>,
    pub instances: InstanceTableView<D>,
    /// The host elements whose instance is being constructed, each with the
    /// position of its registration.
    pub constructing: Map<u64, usize>,
    /// The failures of callbacks that nobody has collected yet, oldest first.
    pub failures: Seq<FailureRecordView>,
}

impl<C, D> DispatcherView<C, D> {
    /// The registry and the table are sound, every instance and every
    /// construction belongs to a registration, and no host element has both
    /// an instance and a construction.
    pub open spec fn inv(self) -> bool {
        &&& self.registry.inv()
        &&& self.instances.inv()
        &&& forall|host: u64| #[trigger]
            self.instances.entries.contains_key(host) ==> self.instances.entries[host].kind
                < self.registry.registrations.len() && !self.constructing.contains_key(host)
        &&& forall|host: u64| #[trigger]
            self.constructing.contains_key(host) ==> self.constructing[host]
                < self.registry.registrations.len()
    }

    /// The state of the instance of `host`, where the dispatcher knows of
    /// one.
    pub open spec fn lifecycle(self, host: u64) -> Option<LifecycleState> {
        if self.constructing.contains_key(host) {
            Some(LifecycleState::Constructing)
        } else if self.instances.has(host) {
            Some(self.instances.entries[host].state)
        } else {
            None
        }
    }

    /// Registering a kind: the dispatcher afterwards, and what the registrant
    /// is told.
    pub open spec fn register(self, registration: RegistrationView<C>) -> (Self, Result<
        (),
        RegistrationError,
    >) {
        (
            DispatcherView {
                registry: self.registry.register(registration).0,
                instances: self.instances,
                constructing: self.constructing,
                failures: self.failures,
            },
            self.registry.register(registration).1,
        )
    }

    /// The host asking for an instance of kind `kind_name` for `host`: the
    /// dispatcher afterwards, and the position of the registration whose
    /// constructor is to run.
    pub open spec fn begin_construct(self, host: u64, kind_name: Seq<char>) -> (Self, Result<
        usize,
        ConstructRefusal,
    >) {
        match self.registry.find(kind_name) {
            None => (
                DispatcherView {
                    registry: self.registry.mark_observed(kind_name),
                    instances: self.instances,
                    constructing: self.constructing,
                    failures: self.failures,
                },
                Err(ConstructRefusal::UnknownKind),
            ),
            Some(kind) => if self.instances.has(host) || self.constructing.contains_key(host) {
                (self, Err(ConstructRefusal::HostOccupied))
            } else {
                (
                    DispatcherView {
                        registry: self.registry,
                        instances: self.instances,
                        constructing: self.constructing.insert(host, kind),
                        failures: self.failures,
                    },
                    Ok(kind),
                )
            },
        }
    }

    /// The constructor of `host` handing in its data: the dispatcher
    /// afterwards, and what the caller is told.
    pub open spec fn finish_construct(self, host: u64, data: D) -> (Self, Result<
        InstanceId,
        ConstructError<D>,
    >) {
        if !self.constructing.contains_key(host) {
            (self, Err(ConstructError { refusal: ConstructRefusal::NotConstructing, data }))
        } else {
            let taken = self.instances.insert(host, self.constructing[host], data);
            (
                DispatcherView {
                    registry: self.registry,
                    instances: taken.0,
                    constructing: self.constructing.remove(host),
                    failures: self.failures,
                },
                match taken.1 {
                    Ok(id) => Ok(id),
                    Err(_) => Err(
                        ConstructError { refusal: ConstructRefusal::SerialsExhausted, data },
                    ),
                },
            )
        }
    }

    /// A notification that moves the instance of `host` on by `event` and
    /// makes `callback` due: the dispatcher afterwards, and what it makes of
    /// the notification.
    pub open spec fn notify(self, host: u64, event: LifecycleEvent, callback: CallbackView) -> (
        Self,
        DispatchView,
    ) {
        if self.instances.has(host) {
            let entry = self.instances.entries[host];
            (
                DispatcherView {
                    registry: self.registry,
                    instances: self.instances.set_state(host, entry.state.after(event)).0,
                    constructing: self.constructing,
                    failures: self.failures,
                },
                DispatchView::Invoke(
                    InvocationView {
                        host: HostElement { id: host },
                        instance: entry.id,
                        kind: entry.kind,
                        callback,
                    },
                ),
            )
        } else {
            (self, DispatchView::Dropped)
        }
    }

    /// The host attaching `host` to a live document.
    pub open spec fn connect(self, host: u64) -> (Self, DispatchView) {
        self.notify(host, LifecycleEvent::Connect, CallbackView::Connected)
    }

    /// The host detaching `host` from its document.
    pub open spec fn disconnect(self, host: u64) -> (Self, DispatchView) {
        self.notify(host, LifecycleEvent::Disconnect, CallbackView::Disconnected)
    }

    /// The host moving `host` to the document `new_context`.
    pub open spec fn adopt(self, host: u64, new_context: u64, attached: bool) -> (
        Self,
        DispatchView,
    ) {
        self.notify(host, LifecycleEvent::Adopt, CallbackView::Adopted { new_context, attached })
    }

    /// The names that the registration of the instance of `host` observes.
    pub open spec fn observed_by(self, host: u64) -> Seq<Seq<char>> {
        self.registry.registrations[self.instances.entries[host].kind as int].observed_attributes
    }

    /// What the dispatcher makes of a mutation of an attribute of `host`. The
    /// dispatcher itself is left as it is.
    pub open spec fn attribute_mutated(self, host: u64, change: AttributeChangeView)
        -> DispatchView {
        if self.instances.has(host) && observes(self.observed_by(host), change.attribute_name) {
            let entry = self.instances.entries[host];
            DispatchView::Invoke(
                InvocationView {
                    host: HostElement { id: host },
                    instance: entry.id,
                    kind: entry.kind,
                    callback: CallbackView::AttributeChanged(change),
                },
            )
        } else {
            DispatchView::Dropped
        }
    }

    /// Whether the end of `invocation` settles a move: it was the callback
    /// for a move, and the instance that it ran for is still there.
    pub open spec fn settles(self, invocation: InvocationView) -> bool {
        invocation.callback is Adopted && self.instances.has(invocation.host.id)
            && self.instances.entries[invocation.host.id].id == invocation.instance
    }

    /// The end of the callback of `invocation`, with the message of its
    /// error if it signalled one: the dispatcher afterwards.
    pub open spec fn complete(self, invocation: InvocationView, failure: Option<Seq<char>>)
        -> Self {
        let host = invocation.host.id;
        DispatcherView {
            registry: self.registry,
            instances: if self.settles(invocation) {
                self.instances.set_state(
                    host,
                    self.instances.entries[host].state.after(
                        LifecycleEvent::Settle { attached: invocation.callback->attached },
                    ),
                ).0
            } else {
                self.instances
            },
            constructing: self.constructing,
            failures: match failure {
                Some(message) => self.failures.push(
                    FailureRecordView {
                        host: invocation.host,
                        callback: invocation.callback.kind(),
                        message,
                    },
                ),
                None => self.failures,
            },
        }
    }

    /// The host destroying `host`: the dispatcher afterwards, and the data of
    /// the instance.
    pub open spec fn finalize(self, host: u64) -> (Self, Result<
        Option<D>,
        ReentrantAliasViolation,
    >) {
        (
            DispatcherView {
                registry: self.registry,
                instances: self.instances.remove(host).0,
                constructing: self.constructing,
                failures: self.failures,
            },
            self.instances.remove(host).1,
        )
    }

    /// The dispatcher with another instance table.
    pub open spec fn with_instances(self, instances: InstanceTableView<D>) -> Self {
        DispatcherView {
            registry: self.registry,
            instances,
            constructing: self.constructing,
            failures: self.failures,
        }
    }
}

} // verus!
