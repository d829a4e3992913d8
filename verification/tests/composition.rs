use jumia::{ClientBuilder, EventHandler, EventKind, Extension};

struct GreeterExtension;

impl Extension for GreeterExtension {
    fn event_handler(&self, event_handler: EventHandler) -> EventHandler {
        event_handler.message(10).ready(11)
    }
}

struct LoggerExtension;

impl Extension for LoggerExtension {
    fn event_handler(&self, event_handler: EventHandler) -> EventHandler {
        event_handler.message(20)
    }
}

#[test]
fn extensions_applied_in_order_concatenate_their_callbacks() {
    let base = EventHandler::new();
    let mid = GreeterExtension.event_handler(base);
    let end = LoggerExtension.event_handler(mid);
    assert_eq!(end.dispatch_order(EventKind::Message), &vec![10, 20]);
    assert_eq!(end.dispatch_order(EventKind::Ready), &vec![11]);
}

#[test]
fn extension_order_fixes_relative_dispatch_order() {
    let one_way = LoggerExtension.event_handler(GreeterExtension.event_handler(EventHandler::new()));
    let other_way =
        GreeterExtension.event_handler(LoggerExtension.event_handler(EventHandler::new()));
    assert_eq!(one_way.dispatch_order(EventKind::Message), &vec![10, 20]);
    assert_eq!(other_way.dispatch_order(EventKind::Message), &vec![20, 10]);
}

#[test]
fn builder_applies_extensions_to_its_registry() {
    let builder = ClientBuilder::new()
        .token(String::from("example-token"))
        .extension(GreeterExtension)
        .extension(LoggerExtension)
        .event_handler(|handler| handler.ready(12));
    let (params, _step) = builder.begin();
    assert_eq!(params.event_handler.dispatch_order(EventKind::Message), &vec![10, 20]);
    assert_eq!(params.event_handler.dispatch_order(EventKind::Ready), &vec![11, 12]);
}

fn build_sample() -> EventHandler {
    let handler = EventHandler::new()
        .message(1)
        .ready(2)
        .message(3)
        .register_unknown(String::from("custom"), 4);
    LoggerExtension.event_handler(handler)
}

#[test]
fn rebuilding_the_same_sequence_is_deterministic() {
    let first = build_sample();
    let second = build_sample();
    assert_eq!(
        first.dispatch_order(EventKind::Message),
        second.dispatch_order(EventKind::Message)
    );
    assert_eq!(first.dispatch_order(EventKind::Ready), second.dispatch_order(EventKind::Ready));
    assert_eq!(
        first.unknown_dispatch_order(&String::from("custom")),
        second.unknown_dispatch_order(&String::from("custom"))
    );
    assert_eq!(first.dispatch_order(EventKind::Resume), second.dispatch_order(EventKind::Resume));
}
