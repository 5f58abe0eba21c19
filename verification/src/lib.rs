//! A protocol-client adaptation layer for a blockchain node: it bridges a
//! transport-specific request/response/stream interface operating on wire
//! messages and a domain-level block service interface operating on typed
//! blockchain entities.
//!
//! The adapters here are pull-based state machines: an outside driver
//! performs the transport work, hands each adapter the transport's event,
//! and the adapter decides the transition and the outcome. Every adapter
//! transitions at most once from pending to a terminal outcome and refuses
//! further polls afterward.
pub mod chain;
pub mod client;
pub mod convert;
pub mod error;
pub mod poll;
pub mod stream;
pub mod stream_future;
pub mod unary_future;
