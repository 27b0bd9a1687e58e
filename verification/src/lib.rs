//! Verified core of a system-audio loopback capture library.
//!
//! The library models the logic of capturing "what is currently playing"
//! from an audio server and handing it to an asynchronous consumer:
//!
//! - building user-visible device lists from raw enumeration callbacks
//!   ([`devices`]),
//! - resolving a requested output device to the monitor source that mirrors
//!   it ([`input`]),
//! - decoding raw capture bytes into samples ([`samples`]),
//! - a bounded FIFO sample queue with an oldest-first overflow policy
//!   ([`queue`]), and
//! - the wake/shutdown coordination between the capture thread and the
//!   polling consumer ([`stream`]).
//!
//! Talking to the audio server itself (event loop, record connection,
//! threads and locks) is inherently I/O and lives in the unverified shell
//! around this crate; the shell hands plain values in and out of the
//! functions here.

pub mod devices;
pub mod errors;
pub mod input;
pub mod queue;
pub mod samples;
pub mod stream;
