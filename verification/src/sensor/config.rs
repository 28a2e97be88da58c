use vstd::prelude::*;

verus! {

/// Immutable parameters governing one sensor's debounce behaviour, fixed at
/// construction time.
#[derive(Debug, Clone)]
pub struct SensorConfig {
    /// Identifier for the sensor; uniqueness within a deployment is the
    /// caller's responsibility.
    pub name: String,
    /// Hardware pin identifier; ignored when a scripted source is used.
    pub pin_number: u8,
    /// Minimum interval between successive debounce evaluations.
    pub refresh_rate_milisecs: u64,
    /// Width of the sliding window within which triggers accumulate.
    pub motion_time_period_milisecs: u64,
    /// Number of raw triggers required within one window to emit a
    /// validated detection.
    pub minimal_triggering_number: i16,
}

} // verus!
