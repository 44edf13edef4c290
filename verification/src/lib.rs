//! Client driver for an interactive request/response protocol carried over a
//! bidirectional, message-framed text channel (typically a WebSocket).
//!
//! The crate models the protocol's events and payloads as plain data, encodes
//! and decodes the wire envelope, and drives one interaction as an explicit
//! state machine: the caller (or an async runner) performs the I/O and feeds
//! each incoming event or fold result to the driver, which answers with the
//! next action to take.

pub mod codec;
pub mod driver;
pub mod errors;
pub mod events;
pub mod json;
pub mod runs;
