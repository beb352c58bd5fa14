use arwa::{Fragment, FragmentNode, InitClaim, InitInProgress, TemplateCache};

fn message_template() -> Fragment {
    let mut fragment = Fragment::new();
    let root = fragment.append(None, "div", "").unwrap();
    fragment.append(Some(root), "span", "Message: ").unwrap();
    fragment.append(Some(root), "span", "").unwrap();
    fragment
}

fn nodes(fragment: &Fragment) -> Vec<(Option<usize>, String, String)> {
    (0..fragment.len())
        .map(|i| {
            let node = fragment.node(i).unwrap();
            (node.parent, node.tag.clone(), node.text.clone())
        })
        .collect()
}

#[test]
fn fragment_appends_in_document_order() {
    let mut fragment = Fragment::new();
    assert_eq!(fragment.len(), 0);
    assert!(fragment.node(0).is_none());
    assert_eq!(fragment.append(None, "div", "outer"), Some(0));
    assert_eq!(fragment.append(Some(0), "p", "inner"), Some(1));
    assert_eq!(fragment.append(None, "hr", ""), Some(2));
    assert_eq!(fragment.len(), 3);
    assert_eq!(
        fragment.node(1),
        Some(&FragmentNode { parent: Some(0), tag: "p".to_string(), text: "inner".to_string() })
    );
    assert_eq!(fragment.node(2).unwrap().parent, None);
    assert!(fragment.node(3).is_none());
}

#[test]
fn fragment_refuses_a_parent_that_is_no_node() {
    let mut fragment = Fragment::new();
    assert_eq!(fragment.append(Some(0), "p", ""), None);
    assert_eq!(fragment.len(), 0);
    assert_eq!(fragment.append(None, "div", ""), Some(0));
    assert_eq!(fragment.append(Some(1), "p", ""), None);
    assert_eq!(fragment.append(Some(7), "p", ""), None);
    assert_eq!(fragment.len(), 1);
}

#[test]
fn fragment_set_text_changes_one_node() {
    let mut fragment = message_template();
    assert!(fragment.set_text(2, "hi"));
    assert!(!fragment.set_text(3, "nowhere"));
    assert_eq!(
        nodes(&fragment),
        vec![
            (None, "div".to_string(), "".to_string()),
            (Some(0), "span".to_string(), "Message: ".to_string()),
            (Some(0), "span".to_string(), "hi".to_string()),
        ]
    );
}

#[test]
fn deep_copy_is_equal_and_apart() {
    let original = message_template();
    let mut copy = original.duplicate_deep();
    assert_eq!(nodes(&copy), nodes(&original));
    assert!(copy.set_text(2, "changed"));
    assert_eq!(copy.append(Some(2), "b", "more"), Some(3));
    assert_eq!(original.len(), 3);
    assert_eq!(original.node(2).unwrap().text, "");
    assert_eq!(copy.node(2).unwrap().text, "changed");
}

#[test]
fn two_instances_get_equal_and_independent_copies() {
    let mut cache = TemplateCache::new();
    assert!(cache.get_or_init("my-element", message_template).is_ok());

    let mut first = cache.instantiate("my-element").unwrap();
    let mut second = cache.instantiate("my-element").unwrap();
    assert_eq!(nodes(&first), nodes(&second));
    assert_eq!(nodes(&first), nodes(&message_template()));

    assert!(first.set_text(2, "hi"));
    assert_eq!(second.node(2).unwrap().text, "");
    assert_eq!(cache.get("my-element").unwrap().node(2).unwrap().text, "");

    assert_eq!(second.append(None, "p", "extra"), Some(3));
    assert_eq!(first.len(), 3);
    assert_eq!(cache.get("my-element").unwrap().len(), 3);

    let third = cache.instantiate("my-element").unwrap();
    assert_eq!(nodes(&third), nodes(&message_template()));
}

#[test]
fn builder_runs_once_per_kind() {
    let mut cache = TemplateCache::new();
    let mut builds = 0;
    for _ in 0..3 {
        let prototype = cache
            .get_or_init("my-element", || {
                builds += 1;
                message_template()
            })
            .unwrap();
        assert_eq!(prototype.len(), 3);
    }
    assert_eq!(builds, 1);
    let other = cache
        .get_or_init("other-element", || {
            builds += 1;
            Fragment::new()
        })
        .unwrap();
    assert_eq!(other.len(), 0);
    assert_eq!(builds, 2);
    assert_eq!(cache.get("my-element").unwrap().len(), 3);
}

#[test]
fn unknown_kind_has_no_prototype() {
    let cache = TemplateCache::new();
    assert!(cache.get("my-element").is_none());
    assert!(cache.instantiate("my-element").is_none());
}

#[test]
fn build_claimed_once_until_it_is_handed_in() {
    let mut cache = TemplateCache::new();
    assert_eq!(cache.begin_init("my-element"), InitClaim::Granted);
    // The builder asks for its own kind again before it is done.
    assert_eq!(cache.begin_init("my-element"), InitClaim::InProgress);
    let mut ran = false;
    let nested = cache.get_or_init("my-element", || {
        ran = true;
        Fragment::new()
    });
    assert_eq!(nested.err(), Some(InitInProgress));
    assert!(!ran);
    assert!(cache.get("my-element").is_none());
    assert!(cache.instantiate("my-element").is_none());
    // Building another kind meanwhile is fine.
    assert_eq!(cache.begin_init("inner-element"), InitClaim::Granted);
    assert!(cache.finish_init("inner-element", Fragment::new()).is_ok());

    assert!(cache.finish_init("my-element", message_template()).is_ok());
    assert_eq!(cache.begin_init("my-element"), InitClaim::Ready);
    assert_eq!(cache.get("my-element").unwrap().len(), 3);
}

#[test]
fn built_prototype_is_never_replaced() {
    let mut cache = TemplateCache::new();
    assert!(cache.get_or_init("my-element", message_template).is_ok());
    let mut other = Fragment::new();
    other.append(None, "p", "other").unwrap();
    let back = cache.finish_init("my-element", other).unwrap_err();
    assert_eq!(back.len(), 1);
    assert_eq!(back.node(0).unwrap().text, "other");
    assert_eq!(cache.get("my-element").unwrap().len(), 3);
    // Nothing was claimed for this kind either.
    let unclaimed = cache.finish_init("never-claimed", Fragment::new());
    assert!(unclaimed.is_err());
    assert!(cache.get("never-claimed").is_none());
}
