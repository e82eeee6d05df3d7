//! Core logic of a transparent TCP gateway: per-client admission control,
//! protocol-based dispatch to one of two upstream destinations, and the
//! byte-accounting model of a bidirectional relay session.

use vstd::prelude::*;

pub mod classify;
pub mod config;
pub mod dispatch;
pub mod endpoint;
pub mod limiter;
pub mod relay;

verus! {

/// The error taxonomy of the gateway's own logic.
#[derive(Debug, Clone, PartialEq, Eq, Structural)]
pub enum Error {
    /// A value could not be serialized or deserialized.
    Serialization,
    /// An input/output operation failed.
    IO,
    /// An endpoint lacks a usable scheme, host or port.
    InvalidUrl,
}

} // verus!
