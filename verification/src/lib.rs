//! Debouncing for passive-infrared (PIR) motion sensors.
//!
//! Raw pin edges are noisy: electrical glitches and environmental flicker
//! produce brief spurious highs. Each sensor therefore counts raw triggers
//! inside a sliding time window and reports a validated detection only once
//! the configured number of triggers has accumulated within one window.
//! The per-sensor state machine that does this counting is verified; the
//! hardware pin driver and the channels that carry events are trusted
//! collaborators.

pub mod sensor;
