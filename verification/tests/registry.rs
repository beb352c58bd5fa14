use arwa::{AttributeFilter, Registration, RegistrationError, Registry};

fn registration(kind_name: &str, callbacks: u32, observed: &[&str]) -> Registration<u32> {
    let mut filter = AttributeFilter::none();
    for name in observed {
        filter.observe(name);
    }
    Registration::new(kind_name, callbacks, filter)
}

#[test]
fn new_registry_is_empty() {
    let registry: Registry<u32> = Registry::new();
    assert_eq!(registry.len(), 0);
    assert!(registry.lookup("my-element").is_none());
    assert_eq!(registry.find("my-element"), None);
    assert!(registry.get(0).is_none());
}

#[test]
fn registration_is_found_by_its_kind_name() {
    let mut registry = Registry::new();
    assert_eq!(registry.register(registration("my-element", 7, &["message"])), Ok(()));
    assert_eq!(registry.register(registration("other-element", 9, &[])), Ok(()));
    assert_eq!(registry.len(), 2);

    let found = registry.lookup("my-element").unwrap();
    assert_eq!(found.kind_name, "my-element");
    assert_eq!(found.callbacks, 7);
    assert_eq!(found.observed_attributes.names, vec!["message".to_string()]);

    assert_eq!(registry.find("my-element"), Some(0));
    assert_eq!(registry.find("other-element"), Some(1));
    assert_eq!(registry.get(1).unwrap().callbacks, 9);
    assert!(registry.get(2).is_none());
    assert!(registry.lookup("my-elemen").is_none());
    assert!(registry.lookup("my-element ").is_none());
}

#[test]
fn second_registration_of_a_kind_is_a_duplicate() {
    let mut registry = Registry::new();
    assert_eq!(registry.register(registration("my-element", 1, &["message"])), Ok(()));
    assert_eq!(
        registry.register(registration("my-element", 2, &["style"])),
        Err(RegistrationError::DuplicateKind)
    );
    assert_eq!(registry.len(), 1);
    let kept = registry.lookup("my-element").unwrap();
    assert_eq!(kept.callbacks, 1);
    assert!(kept.observed_attributes.allows("message"));
    assert!(!kept.observed_attributes.allows("style"));
}

#[test]
fn duplicate_is_reported_for_every_registered_kind() {
    let mut registry = Registry::new();
    for (i, kind) in ["a-one", "a-two", "a-three"].iter().enumerate() {
        assert_eq!(registry.register(registration(kind, i as u32, &[])), Ok(()));
    }
    for kind in ["a-one", "a-two", "a-three"] {
        assert_eq!(
            registry.register(registration(kind, 99, &[])),
            Err(RegistrationError::DuplicateKind)
        );
    }
    assert_eq!(registry.len(), 3);
}

#[test]
fn kind_met_before_registration_is_refused() {
    let mut registry = Registry::new();
    assert!(!registry.was_observed("late-element"));
    registry.mark_observed("late-element");
    assert!(registry.was_observed("late-element"));
    assert_eq!(
        registry.register(registration("late-element", 1, &[])),
        Err(RegistrationError::ObservedBeforeRegistration)
    );
    assert_eq!(registry.len(), 0);
    assert_eq!(registry.register(registration("early-element", 1, &[])), Ok(()));
}

#[test]
fn registered_kind_is_not_marked_as_met() {
    let mut registry = Registry::new();
    assert_eq!(registry.register(registration("my-element", 1, &[])), Ok(()));
    registry.mark_observed("my-element");
    assert!(!registry.was_observed("my-element"));
    assert_eq!(
        registry.register(registration("my-element", 2, &[])),
        Err(RegistrationError::DuplicateKind)
    );
}

#[test]
fn filter_allows_exactly_its_names() {
    let mut filter = AttributeFilter::none();
    assert_eq!(filter.len(), 0);
    assert!(!filter.allows("message"));
    filter.observe("message");
    filter.observe("title");
    assert_eq!(filter.len(), 2);
    assert!(filter.allows("message"));
    assert!(filter.allows("title"));
    assert!(!filter.allows("style"));
    assert!(!filter.allows("Message"));
    assert!(!filter.allows(""));

    let listed = AttributeFilter::new(vec!["message".to_string()]);
    assert!(listed.allows("message"));
    assert!(!listed.allows("title"));
}
