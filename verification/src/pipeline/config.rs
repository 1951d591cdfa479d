//! The settings of a pipeline run.

use vstd::prelude::*;

verus! {

/// How long the pipeline waits and when the controller reacts.
#[derive(Debug, Clone, Copy, PartialEq, Eq)]
pub struct PipelineConfig {
    /// Longest time a whole session lasts, in milliseconds.
    pub session_timeout_ms: u64,
    /// Longest single wait of the controller for an event, in milliseconds.
    pub receive_interval_ms: u64,
    /// Longest single wait of the poller for a command, in milliseconds.
    pub poll_interval_ms: u64,
    /// Number of events after which the controller changes the colour.
    /// With `0` it never does.
    pub event_threshold: u32,
    /// The colour it changes to, as red, green, blue and white.
    pub alert_colour: (u8, u8, u8, u8),
}

/// The settings used when nothing else is asked for: a session of two
/// minutes, a second per wait for an event, a tenth of a second per wait for
/// a command, and red after the fifth event.
pub open spec fn default_config() -> PipelineConfig {
    PipelineConfig {
        session_timeout_ms: 120_000,
        receive_interval_ms: 1_000,
        poll_interval_ms: 100,
        event_threshold: 5,
        alert_colour: (255u8, 0u8, 0u8, 0u8),
    }
}

impl Default for PipelineConfig {
    fn default() -> (config: Self)
        ensures
            config == default_config(),
    {
        PipelineConfig {
            session_timeout_ms: 120_000,
            receive_interval_ms: 1_000,
            poll_interval_ms: 100,
            event_threshold: 5,
            alert_colour: (255, 0, 0, 0),
        }
    }
}

} // verus!
