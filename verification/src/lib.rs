//! Event-dispatch facade for a chat-gateway client.
//!
//! Independent pieces of application logic register asynchronous callbacks
//! against a fixed catalogue of gateway event kinds; every registered
//! callback for an incoming event fires in registration order. The library
//! holds the registry, the dispatch-order logic and the builder's
//! identity-resolution state machine; the embedding runtime performs the
//! network calls and drives the callbacks themselves.

pub mod client;

pub use client::{
    resolve_identity, BuildParams, BuildStep, CallbackId, ClientBuilder, ClientBuilderError,
    EventHandler, EventKind, Extension,
};
