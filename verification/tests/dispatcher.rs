use arwa::{
    AttributeChange, AttributeFilter, Callback, CallbackFailure, CallbackKind, ConstructError,
    ConstructRefusal, Dispatch, Dispatcher, HostElement, InstanceId, Invocation, LifecycleState,
    ReentrantAliasViolation, Registration, RegistrationError,
};

/// The data of the instances in these tests.
#[derive(Debug, PartialEq, Eq, Clone)]
struct Data {
    connected_count: u32,
    message: Option<String>,
    log: Vec<String>,
}

fn fresh() -> Data {
    Data { connected_count: 0, message: None, log: Vec::new() }
}

fn host(id: u64) -> HostElement {
    HostElement { id }
}

fn dispatcher() -> Dispatcher<&'static str, Data> {
    let mut dispatcher = Dispatcher::new();
    let mut observed = AttributeFilter::none();
    observed.observe("message");
    assert_eq!(dispatcher.register(Registration::new("my-element", "mine", observed)), Ok(()));
    assert_eq!(
        dispatcher.register(Registration::new("plain-element", "plain", AttributeFilter::none())),
        Ok(())
    );
    dispatcher
}

fn constructed(dispatcher: &mut Dispatcher<&'static str, Data>, id: u64) -> InstanceId {
    dispatcher.construct(host(id), "my-element", |_| fresh()).unwrap()
}

fn due(id: u64, instance: u64, kind: usize, callback: Callback) -> Dispatch {
    Dispatch::Invoke(Invocation {
        host: host(id),
        instance: InstanceId { serial: instance },
        kind,
        callback,
    })
}

#[test]
fn register_twice_returns_duplicate_kind() {
    let mut dispatcher = dispatcher();
    assert_eq!(
        dispatcher.register(Registration::new("my-element", "again", AttributeFilter::none())),
        Err(RegistrationError::DuplicateKind)
    );
    assert_eq!(dispatcher.registry().len(), 2);
    assert_eq!(dispatcher.registry().lookup("my-element").unwrap().callbacks, "mine");
}

#[test]
fn construct_makes_exactly_one_instance() {
    let mut dispatcher = dispatcher();
    assert_eq!(dispatcher.lifecycle(host(1)), None);
    let id = dispatcher.construct(host(1), "my-element", |_| fresh());
    assert_eq!(id, Ok(InstanceId { serial: 0 }));
    assert_eq!(dispatcher.instances().len(), 1);
    assert!(dispatcher.instances().contains(host(1)));
    assert_eq!(dispatcher.lifecycle(host(1)), Some(LifecycleState::Disconnected));
    assert_eq!(dispatcher.with_instance(host(1), |d| (d.clone(), d)), Ok(Some(fresh())));
}

#[test]
fn second_construct_for_a_live_host_is_rejected() {
    let mut dispatcher = dispatcher();
    constructed(&mut dispatcher, 1);
    let mut ran = false;
    let again = dispatcher.construct(host(1), "my-element", |_| {
        ran = true;
        fresh()
    });
    assert_eq!(again, Err(ConstructRefusal::HostOccupied));
    assert!(!ran);
    assert_eq!(
        dispatcher.construct(host(1), "plain-element", |_| fresh()),
        Err(ConstructRefusal::HostOccupied)
    );
    assert_eq!(dispatcher.instances().len(), 1);
    assert_eq!(dispatcher.instances().info(host(1)).unwrap().id, InstanceId { serial: 0 });
}

#[test]
fn construct_after_finalization_is_accepted_again() {
    let mut dispatcher = dispatcher();
    constructed(&mut dispatcher, 1);
    assert_eq!(dispatcher.finalize(host(1)), Ok(Some(fresh())));
    assert_eq!(dispatcher.lifecycle(host(1)), None);
    assert_eq!(
        dispatcher.construct(host(1), "my-element", |_| fresh()),
        Ok(InstanceId { serial: 1 })
    );
}

#[test]
fn construct_gets_the_host_and_keeps_the_data() {
    let mut dispatcher = dispatcher();
    let id = dispatcher.construct(host(42), "plain-element", |h| Data {
        connected_count: h.id as u32,
        message: None,
        log: Vec::new(),
    });
    assert_eq!(id, Ok(InstanceId { serial: 0 }));
    let info = dispatcher.instances().info(host(42)).unwrap();
    assert_eq!(info.kind, 1);
    assert_eq!(dispatcher.with_instance(host(42), |d| {
        let n = d.connected_count;
        (d, n)
    }), Ok(Some(42)));
}

#[test]
fn construct_of_an_unknown_kind_is_refused_and_remembered() {
    let mut dispatcher = dispatcher();
    assert_eq!(
        dispatcher.construct(host(1), "late-element", |_| fresh()),
        Err(ConstructRefusal::UnknownKind)
    );
    assert_eq!(dispatcher.lifecycle(host(1)), None);
    assert!(dispatcher.registry().was_observed("late-element"));
    assert_eq!(
        dispatcher.register(Registration::new("late-element", "late", AttributeFilter::none())),
        Err(RegistrationError::ObservedBeforeRegistration)
    );
}

#[test]
fn construction_in_two_steps() {
    let mut dispatcher = dispatcher();
    assert_eq!(dispatcher.begin_construct(host(1), "plain-element"), Ok(1));
    assert_eq!(dispatcher.lifecycle(host(1)), Some(LifecycleState::Constructing));
    // The constructor of one element constructs another.
    assert_eq!(dispatcher.begin_construct(host(2), "my-element"), Ok(0));
    assert_eq!(dispatcher.finish_construct(host(2), fresh()), Ok(InstanceId { serial: 0 }));
    // A notification for an element that is being constructed is dropped.
    assert_eq!(dispatcher.connect(host(1)), Dispatch::Dropped);
    assert_eq!(
        dispatcher.begin_construct(host(1), "plain-element"),
        Err(ConstructRefusal::HostOccupied)
    );
    assert_eq!(dispatcher.finish_construct(host(1), fresh()), Ok(InstanceId { serial: 1 }));
    assert_eq!(dispatcher.lifecycle(host(1)), Some(LifecycleState::Disconnected));
    assert_eq!(dispatcher.lifecycle(host(2)), Some(LifecycleState::Disconnected));
    assert_eq!(dispatcher.instances().info(host(1)).unwrap().kind, 1);
}

#[test]
fn finish_without_begin_hands_the_data_back() {
    let mut dispatcher = dispatcher();
    assert_eq!(
        dispatcher.finish_construct(host(1), fresh()),
        Err(ConstructError { refusal: ConstructRefusal::NotConstructing, data: fresh() })
    );
    constructed(&mut dispatcher, 2);
    assert_eq!(
        dispatcher.finish_construct(host(2), fresh()),
        Err(ConstructError { refusal: ConstructRefusal::NotConstructing, data: fresh() })
    );
    assert_eq!(dispatcher.instances().len(), 1);
}

#[test]
fn observed_attribute_is_surfaced_with_its_exact_change() {
    let mut dispatcher = dispatcher();
    constructed(&mut dispatcher, 1);
    let change = AttributeChange::new("message", None, Some("hi"));
    assert_eq!(
        dispatcher.attribute_mutated(host(1), change),
        due(
            1,
            0,
            0,
            Callback::AttributeChanged(AttributeChange {
                attribute_name: "message".to_string(),
                old_value: None,
                new_value: Some("hi".to_string()),
            })
        )
    );
}

#[test]
fn unobserved_attribute_invokes_nothing() {
    let mut dispatcher = dispatcher();
    constructed(&mut dispatcher, 1);
    let style = AttributeChange::new("style", None, Some("color: red"));
    assert_eq!(dispatcher.attribute_mutated(host(1), style), Dispatch::Dropped);
    // The other kind observes nothing at all.
    dispatcher.construct(host(2), "plain-element", |_| fresh()).unwrap();
    let message = AttributeChange::new("message", None, Some("hi"));
    assert_eq!(dispatcher.attribute_mutated(host(2), message), Dispatch::Dropped);
}

#[test]
fn attribute_mutation_is_valid_in_every_live_state() {
    let mut dispatcher = dispatcher();
    constructed(&mut dispatcher, 1);
    let change = || AttributeChange::new("message", Some("a"), Some("b"));
    let expected = due(1, 0, 0, Callback::AttributeChanged(change()));
    assert_eq!(dispatcher.attribute_mutated(host(1), change()), expected);
    dispatcher.connect(host(1));
    assert_eq!(dispatcher.attribute_mutated(host(1), change()), expected);
    dispatcher.adopt(host(1), 5, true);
    assert_eq!(dispatcher.lifecycle(host(1)), Some(LifecycleState::Adopting));
    assert_eq!(dispatcher.attribute_mutated(host(1), change()), expected);
}

#[test]
fn connect_disconnect_connect_in_order() {
    let mut dispatcher = dispatcher();
    constructed(&mut dispatcher, 1);
    let mut invoked = Vec::new();
    let mut states = Vec::new();
    for step in 0..3 {
        let dispatch = if step == 1 {
            dispatcher.disconnect(host(1))
        } else {
            dispatcher.connect(host(1))
        };
        match dispatch {
            Dispatch::Invoke(invocation) => {
                assert_eq!(invocation.host, host(1));
                assert_eq!(invocation.instance, InstanceId { serial: 0 });
                invoked.push(invocation.callback.kind());
                states.push(dispatcher.lifecycle(host(1)).unwrap());
                dispatcher.complete(&invocation, Ok(()));
            }
            Dispatch::Dropped => panic!("a live instance was passed over"),
        }
    }
    assert_eq!(
        invoked,
        vec![CallbackKind::Connected, CallbackKind::Disconnected, CallbackKind::Connected]
    );
    assert_eq!(
        states,
        vec![LifecycleState::Connected, LifecycleState::Disconnected, LifecycleState::Connected]
    );
    assert!(dispatcher.take_failures().is_empty());
}

#[test]
fn connect_returns_the_connected_callback() {
    let mut dispatcher = dispatcher();
    constructed(&mut dispatcher, 3);
    assert_eq!(dispatcher.connect(host(3)), due(3, 0, 0, Callback::Connected));
    assert_eq!(dispatcher.disconnect(host(3)), due(3, 0, 0, Callback::Disconnected));
}

#[test]
fn adoption_settles_where_the_host_said() {
    let mut dispatcher = dispatcher();
    constructed(&mut dispatcher, 1);
    dispatcher.connect(host(1));

    let moved = dispatcher.adopt(host(1), 77, false);
    assert_eq!(moved, due(1, 0, 0, Callback::Adopted { new_context: 77, attached: false }));
    assert_eq!(dispatcher.lifecycle(host(1)), Some(LifecycleState::Adopting));
    if let Dispatch::Invoke(invocation) = moved {
        dispatcher.complete(&invocation, Ok(()));
    }
    assert_eq!(dispatcher.lifecycle(host(1)), Some(LifecycleState::Disconnected));

    let back = dispatcher.adopt(host(1), 78, true);
    if let Dispatch::Invoke(invocation) = back {
        dispatcher.complete(&invocation, Ok(()));
    }
    assert_eq!(dispatcher.lifecycle(host(1)), Some(LifecycleState::Connected));
}

#[test]
fn connect_during_adoption_is_not_undone() {
    let mut dispatcher = dispatcher();
    constructed(&mut dispatcher, 1);
    let moved = dispatcher.adopt(host(1), 2, false);
    // The host attaches the element before the adopted callback has ended.
    let attached = dispatcher.connect(host(1));
    assert_eq!(attached, due(1, 0, 0, Callback::Connected));
    if let Dispatch::Invoke(invocation) = attached {
        dispatcher.complete(&invocation, Ok(()));
    }
    if let Dispatch::Invoke(invocation) = moved {
        dispatcher.complete(&invocation, Ok(()));
    }
    assert_eq!(dispatcher.lifecycle(host(1)), Some(LifecycleState::Connected));
}

#[test]
fn stale_adoption_does_not_touch_a_new_instance() {
    let mut dispatcher = dispatcher();
    constructed(&mut dispatcher, 1);
    let moved = dispatcher.adopt(host(1), 2, true);
    assert_eq!(dispatcher.finalize(host(1)), Ok(Some(fresh())));
    constructed(&mut dispatcher, 1);
    dispatcher.adopt(host(1), 3, false);
    if let Dispatch::Invoke(invocation) = moved {
        dispatcher.complete(&invocation, Ok(()));
    }
    assert_eq!(dispatcher.lifecycle(host(1)), Some(LifecycleState::Adopting));
}

/// Runs the callbacks of the test element as an application would: the
/// connected callback counts and then sets the attribute `message` on its
/// own element, for which the host at once reports the mutation.
fn run(dispatcher: &mut Dispatcher<&'static str, Data>, dispatch: Dispatch) {
    let invocation = match dispatch {
        Dispatch::Invoke(invocation) => invocation,
        Dispatch::Dropped => return,
    };
    let element = invocation.host;
    match &invocation.callback {
        Callback::Connected => {
            let count = dispatcher
                .with_instance(element, |mut data| {
                    data.connected_count += 1;
                    data.log.push("connected".to_string());
                    let count = data.connected_count;
                    (data, count)
                })
                .unwrap()
                .unwrap();
            let text = format!("connected {} time(s)", count);
            let change = AttributeChange::new("message", None, Some(&text));
            let nested = dispatcher.attribute_mutated(element, change);
            run(dispatcher, nested);
            dispatcher
                .with_instance(element, |mut data| {
                    data.log.push("connected done".to_string());
                    (data, ())
                })
                .unwrap();
        }
        Callback::AttributeChanged(change) => {
            let new_value = change.new_value.clone();
            dispatcher
                .with_instance(element, |mut data| {
                    data.log.push(format!("attribute seen at count {}", data.connected_count));
                    data.message = new_value;
                    (data, ())
                })
                .unwrap();
        }
        _ => {}
    }
    dispatcher.complete(&invocation, Ok(()));
}

#[test]
fn connected_callback_may_mutate_its_own_attribute() {
    let mut dispatcher = dispatcher();
    constructed(&mut dispatcher, 1);
    let dispatch = dispatcher.connect(host(1));
    run(&mut dispatcher, dispatch);

    let data = dispatcher.finalize(host(1)).unwrap().unwrap();
    assert_eq!(
        data,
        Data {
            connected_count: 1,
            message: Some("connected 1 time(s)".to_string()),
            log: vec![
                "connected".to_string(),
                "attribute seen at count 1".to_string(),
                "connected done".to_string(),
            ],
        }
    );
    assert!(dispatcher.take_failures().is_empty());
}

#[test]
fn nested_dispatch_while_the_data_is_lent() {
    let mut dispatcher = dispatcher();
    constructed(&mut dispatcher, 1);
    assert_eq!(dispatcher.connect(host(1)), due(1, 0, 0, Callback::Connected));
    // The connected callback holds its data over a call into the host.
    let held = dispatcher.checkout(host(1)).unwrap().unwrap();
    let nested = dispatcher.attribute_mutated(host(1), AttributeChange::new("message", None, None));
    assert!(matches!(nested, Dispatch::Invoke(_)));
    // The nested callback asks for the same data: that is the aliasing that
    // must not go through.
    let mut ran = false;
    let aliased = dispatcher.with_instance(host(1), |d| {
        ran = true;
        (d, ())
    });
    assert_eq!(aliased, Err(ReentrantAliasViolation { host: host(1) }));
    assert!(!ran);
    assert_eq!(dispatcher.checkout(host(1)), Err(ReentrantAliasViolation { host: host(1) }));
    assert_eq!(dispatcher.finalize(host(1)), Err(ReentrantAliasViolation { host: host(1) }));
    // Other instances are not affected.
    constructed(&mut dispatcher, 2);
    assert_eq!(dispatcher.with_instance(host(2), |d| (d, 1)), Ok(Some(1)));

    assert_eq!(dispatcher.checkin(host(1), held), Ok(()));
    assert_eq!(dispatcher.with_instance(host(1), |d| (d, 2)), Ok(Some(2)));
}

#[test]
fn connect_on_an_unconstructed_host_is_dropped() {
    let mut dispatcher = dispatcher();
    assert_eq!(dispatcher.connect(host(5)), Dispatch::Dropped);
    assert_eq!(dispatcher.disconnect(host(5)), Dispatch::Dropped);
    assert_eq!(dispatcher.adopt(host(5), 1, true), Dispatch::Dropped);
    assert_eq!(
        dispatcher.attribute_mutated(host(5), AttributeChange::new("message", None, Some("hi"))),
        Dispatch::Dropped
    );
    assert_eq!(dispatcher.finalize(host(5)), Ok(None));
    assert_eq!(dispatcher.with_instance(host(5), |d| (d, ())), Ok(None));
    assert_eq!(dispatcher.checkout(host(5)), Ok(None));
    assert_eq!(dispatcher.lifecycle(host(5)), None);
    assert_eq!(dispatcher.instances().len(), 0);
    assert!(dispatcher.take_failures().is_empty());
}

#[test]
fn connect_on_a_finalized_host_is_dropped() {
    let mut dispatcher = dispatcher();
    constructed(&mut dispatcher, 1);
    constructed(&mut dispatcher, 2);
    dispatcher.connect(host(1));
    assert!(dispatcher.finalize(host(1)).is_ok());
    assert_eq!(dispatcher.connect(host(1)), Dispatch::Dropped);
    assert_eq!(dispatcher.disconnect(host(1)), Dispatch::Dropped);
    assert_eq!(
        dispatcher.attribute_mutated(host(1), AttributeChange::new("message", None, None)),
        Dispatch::Dropped
    );
    assert_eq!(dispatcher.finalize(host(1)), Ok(None));
    // The other instance is still served.
    assert_eq!(dispatcher.connect(host(2)), due(2, 1, 0, Callback::Connected));
}

#[test]
fn failed_callback_is_recorded_and_contained() {
    let mut dispatcher = dispatcher();
    constructed(&mut dispatcher, 1);
    constructed(&mut dispatcher, 2);
    let first = dispatcher.connect(host(1));
    if let Dispatch::Invoke(invocation) = first {
        dispatcher.complete(&invocation, Err("no shadow root".to_string()));
    }
    // The element is attached all the same, and dispatch goes on.
    assert_eq!(dispatcher.lifecycle(host(1)), Some(LifecycleState::Connected));
    assert_eq!(dispatcher.connect(host(2)), due(2, 1, 0, Callback::Connected));
    assert_eq!(dispatcher.disconnect(host(1)), due(1, 0, 0, Callback::Disconnected));
    let change = AttributeChange::new("message", None, Some("x"));
    if let Dispatch::Invoke(invocation) = dispatcher.attribute_mutated(host(1), change) {
        dispatcher.complete(&invocation, Err("bad message".to_string()));
    }
    assert_eq!(dispatcher.with_instance(host(1), |d| (d.clone(), d)), Ok(Some(fresh())));

    assert_eq!(
        dispatcher.take_failures(),
        vec![
            CallbackFailure {
                host: host(1),
                callback: CallbackKind::Connected,
                message: "no shadow root".to_string(),
            },
            CallbackFailure {
                host: host(1),
                callback: CallbackKind::AttributeChanged,
                message: "bad message".to_string(),
            },
        ]
    );
    assert!(dispatcher.take_failures().is_empty());
}

#[test]
fn finalize_hands_the_data_over_for_teardown() {
    let mut dispatcher = dispatcher();
    constructed(&mut dispatcher, 1);
    dispatcher
        .with_instance(host(1), |mut data| {
            data.message = Some("last words".to_string());
            (data, ())
        })
        .unwrap();
    let data = dispatcher.finalize(host(1)).unwrap().unwrap();
    assert_eq!(data.message, Some("last words".to_string()));
    assert_eq!(dispatcher.instances().len(), 0);
}

#[test]
fn construction_without_a_serial_left_is_refused() {
    let mut dispatcher: Dispatcher<&'static str, Data> = Dispatcher::starting_at(u64::MAX);
    assert_eq!(
        dispatcher.register(Registration::new("my-element", "mine", AttributeFilter::none())),
        Ok(())
    );
    assert_eq!(
        dispatcher.construct(host(1), "my-element", |_| fresh()),
        Err(ConstructRefusal::SerialsExhausted)
    );
    assert_eq!(dispatcher.lifecycle(host(1)), None);
    assert_eq!(dispatcher.begin_construct(host(1), "my-element"), Ok(0));
    assert_eq!(
        dispatcher.finish_construct(host(1), fresh()),
        Err(ConstructError { refusal: ConstructRefusal::SerialsExhausted, data: fresh() })
    );
    // The construction is over: the host may ask again.
    assert_eq!(dispatcher.lifecycle(host(1)), None);
    assert_eq!(dispatcher.begin_construct(host(1), "my-element"), Ok(0));
}

#[test]
fn lookup_finds_the_registration() {
    let dispatcher = dispatcher();
    let found = dispatcher.lookup("my-element").unwrap();
    assert_eq!(found.callbacks, "mine");
    assert!(found.observed_attributes.allows("message"));
    assert!(dispatcher.lookup("unknown-element").is_none());
}
