use jumia::{EventHandler, EventKind};

#[test]
fn dispatch_order_is_registration_order() {
    let handler = EventHandler::new().message(1).message(2).message(3);
    assert_eq!(handler.dispatch_order(EventKind::Message), &vec![1, 2, 3]);
}

#[test]
fn registering_one_kind_leaves_every_other_kind_alone() {
    let before = EventHandler::new().ready(9);
    let after = before.message(1).message(2);
    assert_eq!(after.dispatch_order(EventKind::Ready), &vec![9]);
    assert_eq!(after.dispatch_order(EventKind::Resume), &Vec::new());
    assert_eq!(after.dispatch_order(EventKind::GuildCreate), &Vec::new());
}

#[test]
fn empty_kind_dispatches_nothing() {
    let handler = EventHandler::new();
    let plan = handler.dispatch_order(EventKind::Message);
    assert!(plan.is_empty());
    let mut invoked = 0;
    for _ in plan.iter() {
        invoked += 1;
    }
    assert_eq!(invoked, 0);
}

#[test]
fn default_registry_is_empty() {
    let handler = EventHandler::default();
    assert!(handler.dispatch_order(EventKind::Ready).is_empty());
    assert!(handler.unknown_dispatch_order(&String::from("anything")).is_none());
}

#[test]
fn unknown_tag_callbacks_fire_in_registration_order() {
    let handler = EventHandler::new()
        .register_unknown(String::from("custom"), 4)
        .register_unknown(String::from("other"), 5)
        .register_unknown(String::from("custom"), 6);
    assert_eq!(handler.unknown_dispatch_order(&String::from("custom")), Some(&vec![4, 6]));
    assert_eq!(handler.unknown_dispatch_order(&String::from("other")), Some(&vec![5]));
}

#[test]
fn unregistered_tag_is_a_no_op() {
    let handler = EventHandler::new().register_unknown(String::from("custom"), 4);
    assert!(handler.unknown_dispatch_order(&String::from("unseen")).is_none());
    let mut invoked = 0;
    if let Some(plan) = handler.unknown_dispatch_order(&String::from("unseen")) {
        invoked += plan.len();
    }
    assert_eq!(invoked, 0);
}

#[test]
fn unknown_registration_leaves_kind_lists_alone() {
    let handler = EventHandler::new().message(1).register_unknown(String::from("custom"), 2);
    assert_eq!(handler.dispatch_order(EventKind::Message), &vec![1]);
    assert!(handler.dispatch_order(EventKind::Ready).is_empty());
}

#[test]
fn kind_registration_leaves_tag_lists_alone() {
    let handler = EventHandler::new().register_unknown(String::from("custom"), 2).message(1);
    assert_eq!(handler.unknown_dispatch_order(&String::from("custom")), Some(&vec![2]));
}
