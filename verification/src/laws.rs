//! What holds of the bridge as a whole, stated over the mathematical values
//! of its parts and proved from their definitions.

use vstd::prelude::*;
use crate::attribute::{observes, AttributeChangeView};
use crate::dispatch::{
    CallbackView, ConstructRefusal, DispatchView, DispatcherView, InvocationView,
};
use crate::fragment::FragmentView;
use crate::instance::{HostElement, InstanceTableView, LifecycleState, ReentrantAliasViolation};
use crate::registry::{RegistrationError, RegistrationView, RegistryView};
use crate::template::{InitClaim, TemplateCacheView};

verus! {

/// A kind name that is registered cannot be registered again: the attempt
/// is refused as a duplicate and leaves the registry as it is.
pub proof fn registered_kind_is_refused<C>(
    registry: RegistryView<C>,
    registration: RegistrationView<C>,
)
    requires
        registry.is_registered(registration.kind_name),
    ensures
        registry.register(registration).1 == Err::<(), RegistrationError>(
            RegistrationError::DuplicateKind,
        ),
        registry.register(registration).0 == registry,
{
}

/// Registering a kind and then registering the same kind name again: the
/// second registration is refused as a duplicate, whatever else it declares.
pub proof fn second_registration_is_duplicate<C>(
    registry: RegistryView<C>,
    first: RegistrationView<C>,
    second: RegistrationView<C>,
)
    requires
        first.kind_name == second.kind_name,
        registry.register(first).1 is Ok,
    ensures
        registry.register(first).0.register(second).1 == Err::<(), RegistrationError>(
            RegistrationError::DuplicateKind,
        ),
        registry.register(first).0.register(second).0 == registry.register(first).0,
        registry.register(first).0.lookup(first.kind_name) is Some,
{
    let after = registry.register(first).0;
    let last = registry.registrations.len() as int;
    assert(after.registrations[last].kind_name == second.kind_name);
}

/// The same, for a dispatcher: its second registration of a kind name is
/// refused as a duplicate and changes nothing.
pub proof fn dispatcher_refuses_second_registration<C, D>(
    dispatcher: DispatcherView<C, D>,
    first: RegistrationView<C>,
    second: RegistrationView<C>,
)
    requires
        first.kind_name == second.kind_name,
        dispatcher.register(first).1 is Ok,
    ensures
        dispatcher.register(first).0.register(second).1 == Err::<(), RegistrationError>(
            RegistrationError::DuplicateKind,
        ),
        dispatcher.register(first).0.register(second).0 == dispatcher.register(first).0,
{
    second_registration_is_duplicate(dispatcher.registry, first, second);
}

/// A kind that the host asked for while it was not registered cannot be
/// registered afterwards.
pub proof fn late_registration_is_refused<C, D>(
    dispatcher: DispatcherView<C, D>,
    host: u64,
    registration: RegistrationView<C>,
)
    requires
        dispatcher.inv(),
        !dispatcher.registry.is_registered(registration.kind_name),
    ensures
        dispatcher.begin_construct(host, registration.kind_name).1 == Err::<
            usize,
            ConstructRefusal,
        >(ConstructRefusal::UnknownKind),
        dispatcher.begin_construct(host, registration.kind_name).0.register(registration).1
            == Err::<(), RegistrationError>(RegistrationError::ObservedBeforeRegistration),
{
    let seen = dispatcher.registry.mark_observed(registration.kind_name);
    if !dispatcher.registry.was_observed(registration.kind_name) {
        let last = dispatcher.registry.observed.len() as int;
        assert(seen.observed[last] == registration.kind_name);
    }
}

/// After a construction the host element has its instance, in the state
/// `Disconnected` and holding the constructor's data, and no other host
/// element's entry has changed. Until the instance is finalized, every
/// further construction for the same host element is refused: while the
/// first is under way, and after it has ended.
pub proof fn constructed_host_has_its_instance<C, D>(
    dispatcher: DispatcherView<C, D>,
    host: u64,
    kind_name: Seq<char>,
    data: D,
    again: Seq<char>,
)
    requires
        dispatcher.inv(),
        dispatcher.begin_construct(host, kind_name).1 is Ok,
        dispatcher.begin_construct(host, kind_name).0.finish_construct(host, data).1 is Ok,
    ensures
        ({
            let begun = dispatcher.begin_construct(host, kind_name).0;
            let done = begun.finish_construct(host, data).0;
            &&& begun.inv()
            &&& done.inv()
            &&& begun.lifecycle(host) == Some(LifecycleState::Constructing)
            &&& begun.begin_construct(host, again).1 is Err
            &&& done.instances.has(host)
            &&& done.instances.entries.dom() == dispatcher.instances.entries.dom().insert(host)
            &&& !dispatcher.instances.has(host)
            &&& done.instances.entries[host].data == Some(data)
            &&& Some(done.instances.entries[host].kind) == dispatcher.registry.find(kind_name)
            &&& done.lifecycle(host) == Some(LifecycleState::Disconnected)
            &&& forall|other: u64|
                other != host ==> (#[trigger] done.instances.has(other))
                    == dispatcher.instances.has(other)
            &&& forall|other: u64|
                other != host && dispatcher.instances.has(other) ==> (
                #[trigger] done.instances.entries[other]) == dispatcher.instances.entries[other]
            &&& done.begin_construct(host, again).1 is Err
            &&& done.registry.is_registered(again) ==> done.begin_construct(host, again) == (
                done,
                Err::<usize, ConstructRefusal>(ConstructRefusal::HostOccupied),
            )
        }),
{
    let begun = dispatcher.begin_construct(host, kind_name).0;
    let done = begun.finish_construct(host, data).0;
    assert(begun.constructing.contains_key(host));
    assert(done.instances.entries.contains_key(host));
    assert(done.instances.entries.dom() =~= dispatcher.instances.entries.dom().insert(host));
}

/// Once an instance is finalized its host element may be constructed for
/// again.
pub proof fn finalized_host_may_be_constructed_again<C, D>(
    dispatcher: DispatcherView<C, D>,
    host: u64,
    kind_name: Seq<char>,
)
    requires
        dispatcher.inv(),
        dispatcher.instances.holds_data(host),
        dispatcher.registry.is_registered(kind_name),
    ensures
        dispatcher.finalize(host).1 == Ok::<Option<D>, ReentrantAliasViolation>(
            dispatcher.instances.entries[host].data,
        ),
        dispatcher.finalize(host).0.inv(),
        dispatcher.finalize(host).0.lifecycle(host) is None,
        dispatcher.finalize(host).0.begin_construct(host, kind_name).1 is Ok,
{
    let gone = dispatcher.finalize(host).0;
    assert(!gone.instances.entries.contains_key(host));
    assert(!dispatcher.constructing.contains_key(host));
}

/// Connect, disconnect, connect: each notification makes exactly its own
/// callback due, for the same instance, and the instance is `Connected`,
/// then `Disconnected`, then `Connected` again.
pub proof fn lifecycle_follows_the_host<C, D>(dispatcher: DispatcherView<C, D>, host: u64)
    requires
        dispatcher.inv(),
        dispatcher.instances.has(host),
    ensures
        ({
            let entry = dispatcher.instances.entries[host];
            let due = |callback: CallbackView|
                DispatchView::Invoke(
                    InvocationView {
                        host: HostElement { id: host },
                        instance: entry.id,
                        kind: entry.kind,
                        callback,
                    },
                );
            let first = dispatcher.connect(host);
            let second = first.0.disconnect(host);
            let third = second.0.connect(host);
            &&& first.1 == due(CallbackView::Connected)
            &&& second.1 == due(CallbackView::Disconnected)
            &&& third.1 == due(CallbackView::Connected)
            &&& first.0.lifecycle(host) == Some(LifecycleState::Connected)
            &&& second.0.lifecycle(host) == Some(LifecycleState::Disconnected)
            &&& third.0.lifecycle(host) == Some(LifecycleState::Connected)
            &&& third.0.inv()
        }),
{
    let first = dispatcher.connect(host);
    let second = first.0.disconnect(host);
    assert(first.0.instances.entries.contains_key(host));
    assert(second.0.instances.entries.contains_key(host));
    assert(!dispatcher.constructing.contains_key(host));
    assert(first.0.inv());
    assert(second.0.inv());
}

/// A move settles where the host said: the instance is `Adopting` until the
/// adopted callback ends, and `Connected` or `Disconnected` afterwards, as
/// the host reported with the move.
pub proof fn adoption_settles<C, D>(
    dispatcher: DispatcherView<C, D>,
    host: u64,
    new_context: u64,
    attached: bool,
    failure: Option<Seq<char>>,
)
    requires
        dispatcher.inv(),
        dispatcher.instances.has(host),
    ensures
        ({
            let moved = dispatcher.adopt(host, new_context, attached);
            &&& moved.1 is Invoke
            &&& moved.1->Invoke_0.callback == (CallbackView::Adopted { new_context, attached })
            &&& moved.0.lifecycle(host) == Some(LifecycleState::Adopting)
            &&& moved.0.complete(moved.1->Invoke_0, failure).lifecycle(host) == Some(
                if attached {
                    LifecycleState::Connected
                } else {
                    LifecycleState::Disconnected
                },
            )
        }),
{
    let moved = dispatcher.adopt(host, new_context, attached);
    assert(moved.0.instances.entries.contains_key(host));
    assert(!dispatcher.constructing.contains_key(host));
    let settled = moved.0.complete(moved.1->Invoke_0, failure);
    assert(settled.instances.entries.contains_key(host));
}

/// A notification that arrives while a callback for the same instance has
/// not ended is dispatched like any other. After `connect`, and before the
/// connected callback has ended, a mutation of an observed attribute makes
/// the attribute-changed callback due with exactly that change; the
/// notifications leave the data of the instance alone.
pub proof fn nested_notification_is_dispatched<C, D>(
    dispatcher: DispatcherView<C, D>,
    host: u64,
    change: AttributeChangeView,
)
    requires
        dispatcher.inv(),
        dispatcher.instances.has(host),
    ensures
        ({
            let entry = dispatcher.instances.entries[host];
            let running = dispatcher.connect(host).0;
            &&& running.instances.entries[host].data == entry.data
            &&& running.observed_by(host) == dispatcher.observed_by(host)
            &&& observes(dispatcher.observed_by(host), change.attribute_name)
                ==> running.attribute_mutated(host, change) == DispatchView::Invoke(
                InvocationView {
                    host: HostElement { id: host },
                    instance: entry.id,
                    kind: entry.kind,
                    callback: CallbackView::AttributeChanged(change),
                },
            )
            &&& !observes(dispatcher.observed_by(host), change.attribute_name)
                ==> running.attribute_mutated(host, change) == DispatchView::Dropped
        }),
{
    let running = dispatcher.connect(host).0;
    assert(running.instances.entries.contains_key(host));
}

/// What one exclusive access leaves in the data is what the next one finds.
pub proof fn written_data_is_found<D>(table: InstanceTableView<D>, host: u64, data: D)
    requires
        table.has(host),
    ensures
        table.with_data(host, Some(data)).checkout(host).1 == Ok::<
            Option<D>,
            ReentrantAliasViolation,
        >(Some(data)),
        table.with_data(host, Some(data)).entries[host].state == table.entries[host].state,
        table.with_data(host, Some(data)).entries[host].id == table.entries[host].id,
{
}

/// While the data of an instance is lent out, a second exclusive borrow is
/// refused, and so is the removal of the instance; neither changes the
/// table. Once the data is back it can be borrowed again.
pub proof fn second_exclusive_borrow_is_refused<D>(table: InstanceTableView<D>, host: u64, back: D)
    requires
        table.holds_data(host),
    ensures
        ({
            let lent = table.checkout(host).0;
            let violation = Err::<Option<D>, ReentrantAliasViolation>(
                ReentrantAliasViolation { host: HostElement { id: host } },
            );
            &&& table.checkout(host).1 == Ok::<Option<D>, ReentrantAliasViolation>(
                table.entries[host].data,
            )
            &&& lent.checkout(host) == (lent, violation)
            &&& lent.remove(host) == (lent, violation)
            &&& lent.checkin(host, back).1 is Ok
            &&& lent.checkin(host, back).0.checkout(host).1 == Ok::<
                Option<D>,
                ReentrantAliasViolation,
            >(Some(back))
        }),
{
    let lent = table.checkout(host).0;
    assert(lent.entries.contains_key(host));
    let returned = lent.checkin(host, back).0;
    assert(returned.entries.contains_key(host));
}

/// A borrow of the data does not hold notifications up: while the data of
/// an instance is lent out, a notification for it is dispatched as ever.
pub proof fn lent_data_does_not_block_dispatch<C, D>(dispatcher: DispatcherView<C, D>, host: u64)
    requires
        dispatcher.inv(),
        dispatcher.instances.holds_data(host),
    ensures
        ({
            let lent = dispatcher.with_instances(dispatcher.instances.checkout(host).0);
            &&& lent.inv()
            &&& lent.connect(host).1 == dispatcher.connect(host).1
            &&& lent.disconnect(host).1 == dispatcher.disconnect(host).1
        }),
{
    let lent = dispatcher.with_instances(dispatcher.instances.checkout(host).0);
    assert(lent.instances.entries.contains_key(host));
    assert forall|a: u64, b: u64|
        #![trigger lent.instances.entries[a], lent.instances.entries[b]]
        lent.instances.entries.contains_key(a) && lent.instances.entries.contains_key(b) && a
            != b implies lent.instances.entries[a].id != lent.instances.entries[b].id by {
        assert(dispatcher.instances.entries.contains_key(a));
        assert(dispatcher.instances.entries.contains_key(b));
        assert(dispatcher.instances.entries[a].id != dispatcher.instances.entries[b].id);
    }
}

/// A notification for a host element without an instance, be it never
/// constructed, under construction or finalized, is dropped: no callback is
/// due and the dispatcher is left as it is.
pub proof fn unknown_instance_is_dropped<C, D>(
    dispatcher: DispatcherView<C, D>,
    host: u64,
    new_context: u64,
    attached: bool,
    change: AttributeChangeView,
)
    requires
        !dispatcher.instances.has(host),
    ensures
        dispatcher.connect(host) == (dispatcher, DispatchView::Dropped),
        dispatcher.disconnect(host) == (dispatcher, DispatchView::Dropped),
        dispatcher.adopt(host, new_context, attached) == (dispatcher, DispatchView::Dropped),
        dispatcher.attribute_mutated(host, change) == DispatchView::Dropped,
        dispatcher.finalize(host) == (dispatcher, Ok::<Option<D>, ReentrantAliasViolation>(None)),
{
}

/// After its finalization a host element has no instance, so that every
/// later notification for it is dropped.
pub proof fn finalized_instance_is_gone<C, D>(dispatcher: DispatcherView<C, D>, host: u64)
    requires
        dispatcher.finalize(host).1 is Ok,
    ensures
        !dispatcher.finalize(host).0.instances.has(host),
        dispatcher.finalize(host).0.connect(host).1 == DispatchView::Dropped,
{
    let gone = dispatcher.finalize(host).0;
    if dispatcher.instances.has(host) {
        assert(!gone.instances.entries.contains_key(host));
    }
}

/// A mutation of an attribute that the registration does not observe makes
/// no callback due, and one of an observed attribute makes the
/// attribute-changed callback due with the change as the host reported it.
pub proof fn only_observed_attributes_are_surfaced<C, D>(
    dispatcher: DispatcherView<C, D>,
    host: u64,
    change: AttributeChangeView,
)
    requires
        dispatcher.instances.has(host),
    ensures
        dispatcher.attribute_mutated(host, change) is Invoke <==> observes(
            dispatcher.observed_by(host),
            change.attribute_name,
        ),
        dispatcher.attribute_mutated(host, change) is Invoke ==> dispatcher.attribute_mutated(
            host,
            change,
        )->Invoke_0.callback == CallbackView::AttributeChanged(change),
{
}

/// A callback that fails changes nothing but the record of failures: the
/// registry, the instances and the constructions are what they are after a
/// callback that succeeds, so that every later notification, for this
/// instance or another, is dispatched in the same way.
pub proof fn failure_is_contained<C, D>(
    dispatcher: DispatcherView<C, D>,
    invocation: InvocationView,
    message: Seq<char>,
    other: u64,
    change: AttributeChangeView,
)
    ensures
        ({
            let failed = dispatcher.complete(invocation, Some(message));
            let succeeded = dispatcher.complete(invocation, None);
            &&& failed.registry == succeeded.registry
            &&& failed.instances == succeeded.instances
            &&& failed.constructing == succeeded.constructing
            &&& failed.failures == succeeded.failures.push(failed.failures.last())
            &&& failed.failures.last().host == invocation.host
            &&& failed.failures.last().message == message
            &&& failed.connect(other).1 == succeeded.connect(other).1
            &&& failed.disconnect(other).1 == succeeded.disconnect(other).1
            &&& failed.attribute_mutated(other, change) == succeeded.attribute_mutated(
                other,
                change,
            )
        }),
{
}

/// The end of a callback never touches an instance other than the one it
/// ran for, and never touches any data.
pub proof fn completion_is_local<C, D>(
    dispatcher: DispatcherView<C, D>,
    invocation: InvocationView,
    failure: Option<Seq<char>>,
    other: u64,
)
    requires
        dispatcher.inv(),
    ensures
        dispatcher.complete(invocation, failure).inv(),
        dispatcher.complete(invocation, failure).instances.has(other) == dispatcher.instances.has(
            other,
        ),
        other != invocation.host.id ==> dispatcher.complete(
            invocation,
            failure,
        ).instances.entries[other] == dispatcher.instances.entries[other],
        dispatcher.instances.has(other) ==> dispatcher.complete(
            invocation,
            failure,
        ).instances.entries[other].data == dispatcher.instances.entries[other].data,
{
    let after = dispatcher.complete(invocation, failure);
    if dispatcher.settles(invocation) {
        let host = invocation.host.id;
        assert(after.instances.entries.contains_key(host));
        assert forall|a: u64, b: u64|
            #![trigger after.instances.entries[a], after.instances.entries[b]]
            after.instances.entries.contains_key(a) && after.instances.entries.contains_key(b)
                && a != b implies after.instances.entries[a].id != after.instances.entries[b].id by {
            assert(dispatcher.instances.entries.contains_key(a));
            assert(dispatcher.instances.entries.contains_key(b));
            assert(dispatcher.instances.entries[a].id != dispatcher.instances.entries[b].id);
        }
    }
}

/// A prototype is built once: while a kind is being built nobody else is
/// granted the build, and once the prototype is there, neither a request to
/// build nor a fragment handed in changes the cache.
pub proof fn prototype_is_built_once(
    cache: TemplateCacheView,
    kind_name: Seq<char>,
    prototype: FragmentView,
    other: FragmentView,
)
    requires
        !cache.slots.contains_key(kind_name),
    ensures
        ({
            let claimed = cache.begin_init(kind_name);
            let built = claimed.0.finish_init(kind_name, prototype);
            &&& claimed.1 == InitClaim::Granted
            &&& claimed.0.begin_init(kind_name) == (claimed.0, InitClaim::InProgress)
            &&& claimed.0.prototype(kind_name) is None
            &&& built.1
            &&& built.0.prototype(kind_name) == Some(prototype)
            &&& built.0.begin_init(kind_name) == (built.0, InitClaim::Ready)
            &&& built.0.finish_init(kind_name, other) == (built.0, false)
        }),
{
}

/// Every copy of a prototype is the prototype's equal, so two copies are
/// each other's equal; and changing a copy changes neither the prototype nor
/// another copy.
pub proof fn copies_are_equal_and_apart(
    cache: TemplateCacheView,
    kind_name: Seq<char>,
    first: FragmentView,
    second: FragmentView,
    node: usize,
    text: Seq<char>,
)
    requires
        cache.prototype(kind_name) == Some(first),
        cache.prototype(kind_name) == Some(second),
    ensures
        first == second,
        ({
            let changed = first.set_text(node, text).0;
            &&& cache.prototype(kind_name) == Some(second)
            &&& node < first.nodes.len() ==> changed.nodes[node as int].text == text
            &&& node < first.nodes.len() && second.nodes[node as int].text != text ==> changed
                != second
        }),
{
}

} // verus!
