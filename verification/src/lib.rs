//! Typed request and model structures for the Telegram bot HTTP API,
//! together with their JSON wire encoding.
//!
//! The wire format is modelled by [`json::JsonValue`], a tree of JSON
//! values whose object keys are the closed set of field names this
//! schema uses.  Every request struct and every model type encodes to
//! and decodes from that tree through verified functions: encoding a
//! value and decoding the result is proved to give the value back, and
//! an optional field that is absent is proved to leave no key in the
//! encoded object.

pub mod chat;
pub mod json;
pub mod member;
pub mod message;
pub mod requests;
pub mod update;
pub mod user;
