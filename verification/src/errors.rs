//! Error taxonomy of the capture subsystem.
//!
//! Only a failure to reach the audio server at all is surfaced to callers;
//! everything past a ready session degrades gracefully (partial device
//! lists, a silent stream) instead of propagating an error.

use vstd::prelude::*;

verus! {

/// Why a session against the audio server could not be established.
/// Fatal to the call in progress; never retried within that call.
#[derive(Clone, Copy, Debug, PartialEq, Eq, Structural)]
pub enum ConnectError {
    /// The server event loop could not be created.
    MainloopCreation,
    /// The connection context could not be created.
    ContextCreation,
    /// The connection attempt was refused.
    ConnectionRefused,
    /// An iteration of the event loop failed before the session was ready.
    IterateFailed,
    /// The context reached a terminal failure state instead of ready.
    ContextFailed,
}

/// Why a device enumeration call failed outright. A missing default name or
/// a partially delivered device list is not an error: those degrade to
/// `is_default == false` entries and a shorter list.
#[derive(Clone, Copy, Debug, PartialEq, Eq, Structural)]
pub enum EnumError {
    /// The audio server session could not be established.
    SessionFailed(ConnectError),
}

/// Why the capture thread could not start delivering samples. Reported once
/// over the init signal; the stream itself is still handed out, degraded.
#[derive(Clone, Copy, Debug, PartialEq, Eq, Structural)]
pub enum InitError {
    /// The fixed sample specification was rejected as invalid.
    InvalidSpec,
    /// The record connection against the chosen source could not be opened.
    ConnectionFailed,
}

} // verus!
