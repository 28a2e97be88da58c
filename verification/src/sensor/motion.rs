//! The per-sensor debounce state machine.
//!
//! A [`MotionSensor`] owns its configuration, its mutable debounce state,
//! its raw signal source and the outward detection channel. Two operations
//! drive it, both taking the current instant in milliseconds on a monotone
//! per-sensor clock: [`MotionSensor::reading_from_sensor`] polls the raw
//! source once and buffers an observed edge, and
//! [`MotionSensor::process_detections`] consumes one buffered edge and runs
//! the debounce algorithm specified by [`spec_evaluate`].

use rppal::gpio::IoPin;
use std::time::SystemTime;
use tokio::sync::mpsc::Sender;
use vstd::prelude::*;

use crate::sensor::buffer::buffer_bound;
use crate::sensor::buffer::buffered_markers;
use crate::sensor::buffer::RawEventBuffer;
use crate::sensor::config::SensorConfig;
use crate::sensor::hardware::gpio_get_pin;
use crate::sensor::hardware::gpio_open;
use crate::sensor::hardware::pin_into_input;
use crate::sensor::hardware::pin_is_high;
use crate::sensor::hardware::send_detection;
use crate::sensor::hardware::wall_clock_now;
use crate::sensor::model::config_wf;
use crate::sensor::model::evaluation_gated;
use crate::sensor::model::spec_evaluate;
use crate::sensor::model::state_wf;
use crate::sensor::model::DebounceConfig;
use crate::sensor::model::DebounceModel;

verus! {

/// How many times construction retries claiming a busy pin before treating
/// it as permanently unavailable.
pub const PIN_ACQUISITION_ATTEMPTS: usize = 1000;

/// Why a sensor could not be constructed.
#[derive(Debug, PartialEq, Eq, Structural)]
pub enum SensorError {
    /// The GPIO peripheral is permanently unavailable.
    HardwareUnavailable,
}

/// The raw signal source behind a sensor, together with auxiliary settings:
/// either a live pin handle, or a scripted replay source made of trigger
/// offsets (milliseconds since a replay-local start instant) with its
/// cursor.
#[derive(Debug)]
pub struct SensorAdditionalSettings {
    /// Reserved flag, kept for configuration surfaces that want it.
    pub stop: bool,
    /// `Some`: replay these trigger offsets instead of reading hardware.
    pub sensor_test_data: Option<Vec<u64>>,
    /// The replay's start instant, captured at the first poll.
    pub sensor_test_time: Option<u64>,
    /// Index of the next unconsumed scripted offset.
    pub sensor_test_index: usize,
    /// The live pin handle; `None` exactly when the source is scripted.
    pub pin: Option<IoPin>,
    /// Whether the pin read high at the previous poll; a held-high pin
    /// counts as one edge, not as an edge per poll.
    pub pin_was_high: bool,
}

/// `offsets[i]` is the instant, relative to the replay's start, at which
/// the `i`-th scripted trigger fires. Offsets must be non-decreasing.
pub open spec fn offsets_sorted(offsets: Seq<u64>) -> bool {
    forall|i: int, j: int|
        #![trigger offsets[i], offsets[j]]
        0 <= i <= j < offsets.len() ==> offsets[i] <= offsets[j]
}

/// Whether a scripted source with cursor `index` fires at `elapsed`
/// milliseconds after its start: the next unconsumed offset exists and has
/// been reached.
pub open spec fn scripted_fire(offsets: Seq<u64>, index: int, elapsed: int) -> bool {
    index < offsets.len() && elapsed >= offsets[index]
}

/// One motion sensor: configuration, debounce state, raw signal source and
/// output channel. Timestamps handed to its operations are milliseconds on
/// a clock of the caller's choice that never runs backwards for this
/// sensor.
#[derive(Debug)]
pub struct MotionSensor {
    /// Immutable debounce parameters.
    pub config: SensorConfig,
    /// Where validated detections are sent, best-effort.
    pub detection_channel: Sender<(String, SystemTime)>,
    /// Raw triggers accumulated in the current window.
    pub trigger_count: i16,
    /// When the current accumulation window opened; `None` iff none is
    /// open.
    pub window_start: Option<u64>,
    /// The last instant an evaluation got past the rate gate.
    pub last_evaluation_time: u64,
    /// The instant of the most recent validated detection, informational.
    pub last_valid_detection_time: Option<u64>,
    /// Pending raw edges, produced by Poll and consumed by Evaluate.
    pub raw_event_buffer: RawEventBuffer,
    /// The raw signal source and auxiliary settings.
    pub additional_settings: SensorAdditionalSettings,
}

impl MotionSensor {
    /// This sensor's debounce parameters, as the model sees them.
    pub open spec fn debounce_config(self) -> DebounceConfig {
        DebounceConfig {
            refresh_rate: self.config.refresh_rate_milisecs as int,
            motion_time_period: self.config.motion_time_period_milisecs as int,
            minimal_triggering_number: self.config.minimal_triggering_number as int,
        }
    }

    /// This sensor's mutable debounce state, as the model sees it.
    pub open spec fn debounce_state(self) -> DebounceModel {
        DebounceModel {
            trigger_count: self.trigger_count as int,
            window_start: match self.window_start {
                Some(w) => Some(w as int),
                None => None,
            },
            last_evaluation_time: self.last_evaluation_time as int,
            last_valid_detection_time: match self.last_valid_detection_time {
                Some(t) => Some(t as int),
                None => None,
            },
        }
    }

    /// Well-formedness of the raw signal source: exactly one of the two
    /// variants is present, the scripted cursor stays within the script,
    /// and the scripted offsets are non-decreasing.
    pub open spec fn source_wf(self) -> bool {
        let a = self.additional_settings;
        &&& (a.sensor_test_data is Some <==> a.pin is None)
        &&& (a.sensor_test_data matches Some(d) ==> a.sensor_test_index <= d@.len())
        &&& (a.sensor_test_data matches Some(d) ==> offsets_sorted(d@))
        &&& (a.sensor_test_data is None ==> a.sensor_test_time is None && a.sensor_test_index
            == 0)
    }

    /// Well-formedness of the whole sensor, established by [`Self::new`]
    /// and preserved by every operation.
    pub open spec fn wf(self) -> bool {
        &&& config_wf(self.debounce_config())
        &&& state_wf(self.debounce_config(), self.debounce_state())
        &&& self.source_wf()
    }

    /// Builds a sensor. With scripted trigger offsets this always
    /// succeeds; without them the live pin is acquired, which fails with
    /// [`SensorError::HardwareUnavailable`] exactly when the GPIO
    /// peripheral cannot be opened (a busy pin is retried, as acquisition
    /// is a one-time startup cost).
    pub fn new(
        sensor_name: String,
        sensor_pin_number: u8,
        sensor_refresh_rate_milisecs: u64,
        sensor_motion_time_period_milisecs: u64,
        sensor_minimal_triggering_number: i16,
        sensor_transmission_channel: Sender<(String, SystemTime)>,
        sensor_test_data: Option<Vec<u64>>,
    ) -> (r: Result<MotionSensor, SensorError>)
        requires
            sensor_test_data matches Some(d) ==> offsets_sorted(d@),
        ensures
            sensor_test_data is Some ==> r is Ok,
            r is Err ==> sensor_test_data is None,
            r matches Err(e) ==> e == SensorError::HardwareUnavailable,
            r matches Ok(s) ==> ({
                &&& s.wf()
                &&& s.config.name == sensor_name
                &&& s.config.pin_number == sensor_pin_number
                &&& s.config.refresh_rate_milisecs == sensor_refresh_rate_milisecs
                &&& s.config.motion_time_period_milisecs == sensor_motion_time_period_milisecs
                &&& s.config.minimal_triggering_number == sensor_minimal_triggering_number
                &&& s.trigger_count == 0
                &&& s.window_start is None
                &&& s.last_evaluation_time == 0
                &&& s.last_valid_detection_time is None
                &&& buffered_markers(s.raw_event_buffer) == 0
                &&& buffer_bound(s.raw_event_buffer) == 10
                &&& s.additional_settings.sensor_test_data == sensor_test_data
                &&& s.additional_settings.sensor_test_time is None
                &&& s.additional_settings.sensor_test_index == 0
                &&& s.detection_channel == sensor_transmission_channel
            }),
    {
        let config = SensorConfig {
            name: sensor_name,
            pin_number: sensor_pin_number,
            refresh_rate_milisecs: sensor_refresh_rate_milisecs,
            motion_time_period_milisecs: sensor_motion_time_period_milisecs,
            minimal_triggering_number: sensor_minimal_triggering_number,
        };
        let mut pin_init: Option<IoPin> = None;
        if sensor_test_data.is_none() {
            let gpio = match gpio_open() {
                Ok(g) => g,
                Err(_) => {
                    return Err(SensorError::HardwareUnavailable);
                },
            };
            let mut attempts: usize = 0;
            while pin_init.is_none() && attempts < PIN_ACQUISITION_ATTEMPTS
                invariant
                    attempts <= PIN_ACQUISITION_ATTEMPTS,
                decreases PIN_ACQUISITION_ATTEMPTS - attempts,
            {
                attempts = attempts + 1;
                match gpio_get_pin(&gpio, sensor_pin_number) {
                    Ok(p) => {
                        pin_init = Some(pin_into_input(p));
                    },
                    Err(_) => {},
                }
            }
            if pin_init.is_none() {
                return Err(SensorError::HardwareUnavailable);
            }
        }
        let raw_event_buffer = RawEventBuffer::new(10);
        let additional_settings = SensorAdditionalSettings {
            stop: false,
            sensor_test_data,
            sensor_test_time: None,
            sensor_test_index: 0,
            pin: pin_init,
            pin_was_high: false,
        };
        Ok(
            MotionSensor {
                config,
                detection_channel: sensor_transmission_channel,
                trigger_count: 0,
                window_start: None,
                last_evaluation_time: 0,
                last_valid_detection_time: None,
                raw_event_buffer,
                additional_settings,
            },
        )
    }

    /// Poll: read the raw signal source once and buffer a marker if an
    /// edge is observed; the marker is silently dropped when the buffer is
    /// full. A live pin buffers a marker on a low-to-high transition; a
    /// scripted source fires once per offset that the elapsed replay time
    /// has reached. The debounce state is untouched.
    pub fn reading_from_sensor(&mut self, now_milisecs: u64)
        requires
            old(self).wf(),
            old(self).additional_settings.sensor_test_time matches Some(t) ==> now_milisecs >= t,
        ensures
            final(self).wf(),
            final(self).config == old(self).config,
            final(self).trigger_count == old(self).trigger_count,
            final(self).window_start == old(self).window_start,
            final(self).last_evaluation_time == old(self).last_evaluation_time,
            final(self).last_valid_detection_time == old(self).last_valid_detection_time,
            final(self).detection_channel == old(self).detection_channel,
            buffer_bound(final(self).raw_event_buffer) == buffer_bound(old(self).raw_event_buffer),
            final(self).additional_settings.sensor_test_data == old(
                self,
            ).additional_settings.sensor_test_data,
            final(self).additional_settings.stop == old(self).additional_settings.stop,
            (old(self).additional_settings.sensor_test_data matches Some(d) ==> ({
                let a0 = old(self).additional_settings;
                let a1 = final(self).additional_settings;
                let start = match a0.sensor_test_time {
                    Some(t) => t,
                    None => now_milisecs,
                };
                let fire = scripted_fire(
                    d@,
                    a0.sensor_test_index as int,
                    now_milisecs - start,
                );
                &&& a1.sensor_test_time == Some(start)
                &&& a1.sensor_test_index == a0.sensor_test_index + if fire {
                    1int
                } else {
                    0int
                }
                &&& a1.pin_was_high == a0.pin_was_high
                &&& buffered_markers(final(self).raw_event_buffer) == (if fire
                    && buffered_markers(old(self).raw_event_buffer) < buffer_bound(
                    old(self).raw_event_buffer,
                ) {
                    buffered_markers(old(self).raw_event_buffer) + 1
                } else {
                    buffered_markers(old(self).raw_event_buffer)
                })
            })),
            (old(self).additional_settings.sensor_test_data is None ==> ({
                let a0 = old(self).additional_settings;
                let a1 = final(self).additional_settings;
                let fire = a1.pin_was_high && !a0.pin_was_high;
                &&& a1.sensor_test_time == a0.sensor_test_time
                &&& a1.sensor_test_index == a0.sensor_test_index
                &&& buffered_markers(final(self).raw_event_buffer) == (if fire
                    && buffered_markers(old(self).raw_event_buffer) < buffer_bound(
                    old(self).raw_event_buffer,
                ) {
                    buffered_markers(old(self).raw_event_buffer) + 1
                } else {
                    buffered_markers(old(self).raw_event_buffer)
                })
            })),
    {
        if self.additional_settings.sensor_test_data.is_none() {
            let level = match &self.additional_settings.pin {
                Some(p) => pin_is_high(p),
                None => false,
            };
            let fire = level && !self.additional_settings.pin_was_high;
            self.additional_settings.pin_was_high = level;
            if fire {
                self.raw_event_buffer.push_marker();
            }
        } else {
            if self.additional_settings.sensor_test_time.is_none() {
                self.additional_settings.sensor_test_time = Some(now_milisecs);
            }
            let start = match self.additional_settings.sensor_test_time {
                Some(t) => t,
                None => now_milisecs,
            };
            let elapsed = now_milisecs - start;
            let idx = self.additional_settings.sensor_test_index;
            let fire = match &self.additional_settings.sensor_test_data {
                Some(d) => idx < d.len() && elapsed >= d[idx],
                None => false,
            };
            if fire {
                self.additional_settings.sensor_test_index = idx + 1;
                self.raw_event_buffer.push_marker();
            }
        }
    }

    /// Evaluate: one run of the debounce algorithm at instant
    /// `now_milisecs`, exactly as [`spec_evaluate`] states it. Inside the
    /// rate gate nothing at all changes — the buffer is not even read.
    /// Otherwise one buffered marker — when there is one — is popped
    /// and counted; reaching the threshold emits one validated
    /// detection `(name, now)` to the detection channel, best-effort, and
    /// returns `true`.
    pub fn process_detections(&mut self, now_milisecs: u64) -> (emitted: bool)
        requires
            old(self).wf(),
            now_milisecs >= old(self).last_evaluation_time,
        ensures
            final(self).wf(),
            final(self).config == old(self).config,
            final(self).detection_channel == old(self).detection_channel,
            final(self).additional_settings == old(self).additional_settings,
            buffer_bound(final(self).raw_event_buffer) == buffer_bound(old(self).raw_event_buffer),
            ({
                let cfg = old(self).debounce_config();
                let s0 = old(self).debounce_state();
                let gated = evaluation_gated(cfg, s0, now_milisecs as int);
                let marker = !gated && buffered_markers(old(self).raw_event_buffer) > 0;
                &&& (final(self).debounce_state(), emitted) == spec_evaluate(
                    cfg,
                    s0,
                    now_milisecs as int,
                    marker,
                )
                &&& gated ==> final(self).raw_event_buffer == old(self).raw_event_buffer
                &&& marker ==> buffered_markers(final(self).raw_event_buffer) + 1
                    == buffered_markers(old(self).raw_event_buffer)
                &&& (!gated && !marker) ==> buffered_markers(final(self).raw_event_buffer)
                    == buffered_markers(old(self).raw_event_buffer)
            }),
    {
        if now_milisecs - self.last_evaluation_time < self.config.refresh_rate_milisecs {
            return false;
        }
        let got = self.raw_event_buffer.pop_marker();
        if !got {
            self.last_evaluation_time = now_milisecs;
            return false;
        }
        let opened: u64 = match self.window_start {
            Some(w) => w,
            None => now_milisecs,
        };
        let expired = now_milisecs - opened > self.config.motion_time_period_milisecs;
        let count: i16 = if expired {
            1
        } else {
            self.trigger_count + 1
        };
        if count >= self.config.minimal_triggering_number {
            let at = wall_clock_now();
            send_detection(&self.detection_channel, &self.config.name, at);
            self.last_valid_detection_time = Some(now_milisecs);
            self.trigger_count = 0;
            self.window_start = None;
            self.last_evaluation_time = now_milisecs;
            true
        } else {
            self.trigger_count = count;
            self.window_start = Some(
                if expired {
                    now_milisecs
                } else {
                    opened
                },
            );
            self.last_evaluation_time = now_milisecs;
            false
        }
    }
}

} // verus!
