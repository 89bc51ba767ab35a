//! Connection-admission layer of a TLS passthrough reverse proxy.
//!
//! The library covers the decisions made between "a TCP connection just
//! arrived" and "bytes are flowing between client and backend": speculative
//! classification of the first bytes, routing-key derivation, backend
//! resolution with a fixed failure-to-alert mapping, and the handoff that
//! replays the captured handshake prefix byte for byte.

pub mod addr;
pub mod admission;
pub mod alert;
pub mod handoff;
pub mod peek;
pub mod routing;
pub mod text;
