//! Orchestration of an OPAQUE password-authenticated key exchange.
//!
//! The cryptography is done by `opaque-ke`; this crate sequences the calls
//! into it, carries every protocol message and state across the boundary as
//! URL-safe unpadded base64 text, resolves the key-stretching profile, and
//! classifies every failure.

pub mod base64;
pub mod cipher_suite;
pub mod client;
pub mod engine;
pub mod error;
pub mod identifiers;
pub mod ksf;
pub mod server;
