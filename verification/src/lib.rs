//! Client library for an incident-alerting HTTP API.
//!
//! The library builds typed event payloads (trigger, resolve, acknowledge),
//! serializes them to JSON, and classifies HTTP responses into a small typed
//! result. The HTTP transport itself lives outside the library; callers hand
//! it the serialized body and headers and hand back the status code and
//! response body text.

mod auth;
pub mod context;
pub mod events;
pub mod json;
pub mod request;
pub mod response;

pub use auth::AuthToken;
pub use context::Context;
pub use events::TriggerEvent;
pub use events::UpdateEvent;
pub use request::Error;
pub use request::Requestable;
pub use response::BadRequest;
pub use response::Response;
pub use response::Success;
