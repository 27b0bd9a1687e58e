//! Capture source resolution.
//!
//! The caller names an *output* device; capturing its playback means
//! recording from the synthetic monitor source paired with it. An explicit,
//! non-empty identifier other than the `"default"` sentinel resolves to
//! `<id>.monitor`; anything else is deferred and resolves at stream start to
//! the server's default-monitor sentinel.

use crate::errors::InitError;
use vstd::prelude::*;

verus! {

/// Name of the monitor source paired with the output device `id`.
pub open spec fn monitor_source_of(id: Seq<char>) -> Seq<char> {
    id + ".monitor"@
}

/// The source resolution rule: an explicit, non-empty identifier other than
/// the `"default"` sentinel maps to its paired monitor source; anything else
/// defers resolution to stream start.
pub open spec fn resolved_source(device_id: Option<Seq<char>>) -> Option<Seq<char>> {
    match device_id {
        Some(id) => if id.len() > 0 && id != "default"@ {
            Some(monitor_source_of(id))
        } else {
            None
        },
        None => None,
    }
}

/// Sentinel the audio server understands as "the monitor of whatever is
/// currently the default output".
pub open spec fn default_monitor_sentinel() -> Seq<char> {
    "@DEFAULT_MONITOR@"@
}

/// Final source handed to the record connection: the explicit monitor
/// source when one was resolved, else the default-monitor sentinel.
pub open spec fn capture_source(source_name: Option<Seq<char>>) -> Option<Seq<char>> {
    match source_name {
        Some(s) => Some(s),
        None => Some(default_monitor_sentinel()),
    }
}

/// Capture configuration: the resolved monitor source, or none to track the
/// default output's monitor. Consumed exactly once when the stream starts.
pub struct SpeakerInput {
    source_name: Option<String>,
}

impl SpeakerInput {
    /// The resolved source name this input will capture from.
    pub closed spec fn source_name_spec(&self) -> Option<Seq<char>> {
        self.source_name.deep_view()
    }

    /// Map a caller-supplied output device identifier to the monitor source
    /// that mirrors it. Construction always succeeds: a missing, empty or
    /// `"default"` identifier merely defers resolution to stream start.
    pub fn new(device_id: Option<String>) -> (r: Result<Self, InitError>)
        ensures
            r is Ok,
            r->Ok_0.source_name_spec() == resolved_source(device_id.deep_view()),
    {
        let source_name: Option<String> = match &device_id {
            Some(id) => {
                let sentinel = String::from_str("default");
                if !id.as_str().is_empty() && !(*id == sentinel) {
                    Some(id.clone().concat(".monitor"))
                } else {
                    None
                }
            },
            None => None,
        };
        Ok(SpeakerInput { source_name })
    }

    /// Consume the input, yielding the resolved source name the capture
    /// thread will record from (`None`: the default monitor, resolved by
    /// [`resolve_capture_source`]).
    pub fn into_source_name(self) -> (r: Option<String>)
        ensures
            r.deep_view() == self.source_name_spec(),
    {
        self.source_name
    }
}

/// The sentinel source that tracks the default output's monitor.
pub fn get_default_monitor_source() -> (r: Option<String>)
    ensures
        r.deep_view() == Some(default_monitor_sentinel()),
{
    Some(String::from_str("@DEFAULT_MONITOR@"))
}

/// Resolve the source the record connection is opened against: the explicit
/// source if one was configured, else the default-monitor sentinel.
pub fn resolve_capture_source(source_name: Option<String>) -> (r: Option<String>)
    ensures
        r.deep_view() == capture_source(source_name.deep_view()),
{
    match source_name {
        Some(s) => Some(s),
        None => get_default_monitor_source(),
    }
}

} // verus!
