//! Core of a client for the F-Chat service: the wire codec, the per-connection
//! session state machine, the cache contract and the event dispatcher.
//!
//! The library performs no I/O. Frames come in as text and go out as text;
//! every decision in between is a verified function of plain values.

pub mod text;
pub mod order;
pub mod util;
pub mod json;
pub mod wire;
pub mod data;
pub mod protocol;
pub mod session;
pub mod cache;
pub mod dispatch;
pub mod http_endpoints;
pub mod client;
