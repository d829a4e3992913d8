use jumia::{resolve_identity, BuildStep, ClientBuilder, ClientBuilderError, EventKind};

#[test]
fn explicit_application_id_skips_the_identity_lookup() {
    let builder = ClientBuilder::new().token(String::from("example-token")).application_id(42);
    let (params, step) = builder.begin();
    assert_eq!(step, BuildStep::Ready { application_id: 42 });
    assert_eq!(params.token, "example-token");
    let identity = resolve_identity(step, None);
    assert_eq!(identity, Ok(42));
}

#[test]
fn missing_application_id_demands_exactly_one_lookup() {
    let builder = ClientBuilder::new().token(String::from("example-token"));
    let (_params, step) = builder.begin();
    assert_eq!(step, BuildStep::NeedIdentity);
    let identity = resolve_identity(step, Some(Ok(7)));
    assert_eq!(identity, Ok(7));
}

#[test]
fn missing_credentials_abort_before_any_network_call() {
    let builder = ClientBuilder::new().application_id(42);
    assert!(!builder.has_token());
}

#[test]
fn supplied_credentials_are_detected() {
    let builder = ClientBuilder::new().token(String::from("example-token"));
    assert!(builder.has_token());
}

#[test]
fn failed_identity_lookup_fails_the_build() {
    let builder = ClientBuilder::new().token(String::from("example-token"));
    let (_params, step) = builder.begin();
    assert_eq!(step, BuildStep::NeedIdentity);
    let error = ClientBuilderError::SerenityError(String::from("http unreachable"));
    let identity = resolve_identity(step, Some(Err(error.clone())));
    assert_eq!(identity, Err(error));
}

#[test]
fn begin_hands_over_token_and_registry() {
    let builder = ClientBuilder::new()
        .token(String::from("example-token"))
        .event_handler(|handler| handler.message(5));
    let (params, _step) = builder.begin();
    assert_eq!(params.token, "example-token");
    assert_eq!(params.event_handler.dispatch_order(EventKind::Message), &vec![5]);
}

#[test]
fn later_settings_replace_earlier_ones() {
    let builder = ClientBuilder::new()
        .token(String::from("first"))
        .token(String::from("second"))
        .application_id(1)
        .application_id(2);
    let (params, step) = builder.begin();
    assert_eq!(params.token, "second");
    assert_eq!(step, BuildStep::Ready { application_id: 2 });
}

#[test]
fn default_builder_has_nothing_set() {
    let builder = ClientBuilder::default();
    assert!(!builder.has_token());
}
