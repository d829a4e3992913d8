//! The client-facing surface: the registry, the extension protocol and the
//! deferred client builder.
//!
//! The builder assembles credentials, an optional pre-supplied application
//! identity and the registry, then resolves the identity — through one
//! lookup round trip only when it was not pre-supplied — and hands the
//! embedding runtime the parameters with which to construct the underlying
//! client. The runtime performs the lookup and the construction; every
//! decision in between is made here.

pub mod extension;
pub mod handler;

pub use extension::Extension;
pub use handler::{CallbackId, EventHandler, EventKind};

use extension::extends;
use vstd::prelude::*;

verus! {

/// The error a failed build surfaces: the identity lookup or the underlying
/// client constructor failed. The payload renders the underlying error.
#[derive(Clone, Debug, PartialEq, Eq)]
pub enum ClientBuilderError {
    SerenityError(String),
}

/// What the build needs next, once building has begun: either the identity
/// was pre-supplied and construction can proceed with it, or exactly one
/// identity-lookup round trip is owed first.
#[derive(Clone, Copy, Debug, PartialEq, Eq, Structural)]
pub enum BuildStep {
    /// Identity was not pre-supplied: perform one identity lookup.
    NeedIdentity,
    /// Identity is known: construct the client with it.
    Ready { application_id: u64 },
}

/// The connection parameters a begun build hands the embedding runtime: the
/// credential string and the registry to install as the dispatch target.
pub struct BuildParams {
    pub token: String,
    pub event_handler: EventHandler,
}

/// The deferred client builder. It accumulates credentials, an optional
/// pre-supplied application identity and the registry during the composition
/// phase; `begin` then starts the build.
pub struct ClientBuilder {
    token: Option<String>,
    application_id: Option<u64>,
    event_handler: EventHandler,
}

impl ClientBuilder {
    /// The credential string supplied so far, if any.
    pub closed spec fn spec_token(self) -> Option<String> {
        self.token
    }

    /// The pre-supplied application identity, if any.
    pub closed spec fn spec_application_id(self) -> Option<u64> {
        self.application_id
    }

    /// The registry accumulated so far.
    pub closed spec fn spec_event_handler(self) -> EventHandler {
        self.event_handler
    }

    /// A builder with no credentials, no pre-supplied identity and an empty
    /// registry.
    pub fn new() -> (r: Self)
        ensures
            r.spec_token() is None,
            r.spec_application_id() is None,
            r.spec_event_handler().is_empty(),
    {
        Self { token: None, application_id: None, event_handler: EventHandler::new() }
    }

    /// Supply the credential string. Construction cannot begin without one.
    pub fn token(self, token: String) -> (r: Self)
        ensures
            r.spec_token() == Some(token),
            r.spec_application_id() == self.spec_application_id(),
            r.spec_event_handler() == self.spec_event_handler(),
    {
        let Self { token: _, application_id, event_handler } = self;
        Self { token: Some(token), application_id, event_handler }
    }

    /// Pre-supply the application identity; the build then makes no identity
    /// lookup.
    pub fn application_id(self, id: u64) -> (r: Self)
        ensures
            r.spec_token() == self.spec_token(),
            r.spec_application_id() == Some(id),
            r.spec_event_handler() == self.spec_event_handler(),
    {
        let Self { token, application_id: _, event_handler } = self;
        Self { token, application_id: Some(id), event_handler }
    }

    /// Let `callback` transform the accumulated registry; registrations made
    /// by earlier calls stay in place and keep their order.
    pub fn event_handler<F: Fn(EventHandler) -> EventHandler>(self, callback: F) -> (r: Self)
        requires
            call_requires(callback, (self.spec_event_handler(),)),
        ensures
            r.spec_token() == self.spec_token(),
            r.spec_application_id() == self.spec_application_id(),
            call_ensures(callback, (self.spec_event_handler(),), r.spec_event_handler()),
    {
        let Self { token, application_id, event_handler } = self;
        let event_handler = callback(event_handler);
        Self { token, application_id, event_handler }
    }

    /// Apply an extension to the accumulated registry: it appends its own
    /// callbacks and touches nothing already registered.
    pub fn extension<E: Extension>(self, extension: E) -> (r: Self)
        ensures
            r.spec_token() == self.spec_token(),
            r.spec_application_id() == self.spec_application_id(),
            extends(r.spec_event_handler(), self.spec_event_handler()),
    {
        let Self { token, application_id, event_handler } = self;
        let event_handler = extension.event_handler(event_handler);
        Self { token, application_id, event_handler }
    }

    /// Whether credentials were supplied. A caller must not begin the build
    /// without them; the embedding runtime checks this first and treats a
    /// missing credential as a caller bug, aborting before any network call.
    pub fn has_token(&self) -> (r: bool)
        ensures
            r == (self.spec_token() is Some),
    {
        self.token.is_some()
    }

    /// Begin the build: surrender the connection parameters, and say whether
    /// construction may proceed at once with the pre-supplied identity or one
    /// identity lookup is owed first. No lookup is demanded when the identity
    /// was pre-supplied.
    pub fn begin(self) -> (r: (BuildParams, BuildStep))
        requires
            self.spec_token() is Some,
        ensures
            self.spec_token() == Some(r.0.token),
            r.0.event_handler == self.spec_event_handler(),
            r.1 == (match self.spec_application_id() {
                Some(id) => BuildStep::Ready { application_id: id },
                None => BuildStep::NeedIdentity,
            }),
    {
        let Self { token, application_id, event_handler } = self;
        let token = token.unwrap();
        let step = match application_id {
            Some(id) => BuildStep::Ready { application_id: id },
            None => BuildStep::NeedIdentity,
        };
        (BuildParams { token, event_handler }, step)
    }
}

impl Default for ClientBuilder {
    /// Same as `ClientBuilder::new`.
    fn default() -> (r: Self)
        ensures
            r.spec_token() is None,
            r.spec_application_id() is None,
            r.spec_event_handler().is_empty(),
    {
        Self::new()
    }
}

/// Settle the identity construction will use. A pre-supplied identity wins
/// and the lookup outcome is consulted exactly when a lookup was owed; a
/// failed lookup fails the build with its error, and no client is produced.
pub fn resolve_identity(step: BuildStep, lookup: Option<Result<u64, ClientBuilderError>>) -> (r:
    Result<u64, ClientBuilderError>)
    requires
        (step is NeedIdentity) <==> (lookup is Some),
    ensures
        (step matches BuildStep::Ready { application_id } ==> r == Ok::<
            u64,
            ClientBuilderError,
        >(application_id)),
        (step is NeedIdentity ==> lookup == Some(r)),
{
    match step {
        BuildStep::Ready { application_id } => Ok(application_id),
        BuildStep::NeedIdentity => lookup.unwrap(),
    }
}

} // verus!
