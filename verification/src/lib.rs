//! Path management and connection migration for a transport endpoint.
//!
//! A connection is not bound to a single network 4-tuple: either peer's
//! address may change mid-connection. This crate models path identity,
//! the admission policy applied to every inbound datagram, the bounded
//! table of tracked paths, per-path validation with anti-amplification
//! accounting, active-path promotion, and the backoff interlock that
//! closes a connection when retransmission backoff diverges.

pub mod addr;
pub mod admission;
pub mod blocked;
pub mod chunk;
pub mod connection;
pub mod event;
pub mod intercept;
pub mod laws;
pub mod path;
pub mod table;
