//! End-to-end dispatch scenarios: the registry supplies the dispatch plan
//! and the embedding runtime, played here by a small callback table, invokes
//! each callback in turn, completing one before starting the next.

use jumia::{EventHandler, EventKind, Extension};

type Callback = Box<dyn Fn(&str, &mut Vec<String>)>;

fn run_dispatch(
    handler: &EventHandler,
    table: &[Callback],
    kind: EventKind,
    payload: &str,
) -> Vec<String> {
    let mut actions = Vec::new();
    for id in handler.dispatch_order(kind).iter() {
        table[*id as usize](payload, &mut actions);
    }
    actions
}

struct ReplyExtension;

impl Extension for ReplyExtension {
    fn event_handler(&self, event_handler: EventHandler) -> EventHandler {
        event_handler.message(0)
    }
}

#[test]
fn message_extension_replies_exactly_once_on_the_trigger_word() {
    let table: Vec<Callback> = vec![Box::new(|content, actions| {
        if content == "!extension" {
            actions.push(String::from("Hey!"));
        }
    })];
    let handler = ReplyExtension.event_handler(EventHandler::new());
    let replies = run_dispatch(&handler, &table, EventKind::Message, "!extension");
    assert_eq!(replies, vec![String::from("Hey!")]);
    let silence = run_dispatch(&handler, &table, EventKind::Message, "hello");
    assert!(silence.is_empty());
}

#[test]
fn ready_callbacks_run_to_completion_in_registration_order() {
    let table: Vec<Callback> = vec![
        Box::new(|_, actions| actions.push(String::from("A"))),
        Box::new(|_, actions| actions.push(String::from("B"))),
    ];
    let handler = EventHandler::new().ready(0).ready(1);
    let output = run_dispatch(&handler, &table, EventKind::Ready, "");
    assert_eq!(output, vec![String::from("A"), String::from("B")]);
}

#[test]
fn unknown_event_fires_only_its_own_tag() {
    let table: Vec<Callback> = vec![
        Box::new(|_, actions| actions.push(String::from("custom fired"))),
        Box::new(|_, actions| actions.push(String::from("other fired"))),
    ];
    let handler = EventHandler::new()
        .register_unknown(String::from("custom"), 0)
        .register_unknown(String::from("other"), 1);
    let mut actions = Vec::new();
    if let Some(plan) = handler.unknown_dispatch_order(&String::from("custom")) {
        for id in plan.iter() {
            table[*id as usize]("", &mut actions);
        }
    }
    assert_eq!(actions, vec![String::from("custom fired")]);
}
