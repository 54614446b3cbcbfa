//! Decode-and-validate pipeline for session handshake message headers.
//!
//! Clients of a real-time session service send a framed JSON text message
//! declaring an action (create or join a session), a session identifier and
//! a caller identity. This crate decodes such a frame into a typed header,
//! validates every domain invariant, and renders any failure as a stable
//! JSON error envelope.

pub mod identity;
pub mod json;
pub mod message;
