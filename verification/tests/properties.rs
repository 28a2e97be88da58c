use pir_motion_sensor::sensor::motion::MotionSensor;
use pir_motion_sensor::sensor::motion::SensorError;
use std::time::SystemTime;
use tokio::sync::mpsc::Receiver;
use tokio::sync::mpsc::Sender;

fn drive(sensor: &mut MotionSensor, timeout_milisecs: u64) {
    for now in 0..=timeout_milisecs {
        sensor.reading_from_sensor(now);
        sensor.process_detections(now);
    }
}

fn drain(rx: &mut Receiver<(String, SystemTime)>) -> u64 {
    let mut count = 0;
    while rx.try_recv().is_ok() {
        count += 1;
    }
    count
}

fn channel() -> (
    Sender<(String, SystemTime)>,
    Receiver<(String, SystemTime)>,
) {
    tokio::sync::mpsc::channel(10)
}

/// Triggers at 500 ms and 1000 ms with threshold 2 inside a 1000 ms window
/// validate exactly once.
#[test]
fn two_triggers_within_window_validate_once() {
    let (tx, mut rx) = channel();
    let mut sensor = MotionSensor::new(
        String::from("two in window"),
        0,
        500,
        1000,
        2,
        tx,
        Some(vec![500, 1000]),
    )
    .unwrap();
    drive(&mut sensor, 1050);
    assert_eq!(drain(&mut rx), 1);
}

/// With threshold 1, every one of the ten triggers validates by itself.
#[test]
fn each_trigger_validates_when_threshold_is_one() {
    let (tx, mut rx) = channel();
    let mut sensor = MotionSensor::new(
        String::from("threshold one"),
        0,
        100,
        1000,
        1,
        tx,
        Some(vec![90, 190, 290, 390, 490, 590, 690, 790, 890, 990]),
    )
    .unwrap();
    drive(&mut sensor, 1050);
    assert_eq!(drain(&mut rx), 10);
}

/// The same ten triggers with threshold 10 all fall inside one 1000 ms
/// window: exactly one validated detection, recorded at the evaluation
/// that consumed the tenth trigger.
#[test]
fn ten_triggers_one_window_validate_once() {
    let (tx, mut rx) = channel();
    let mut sensor = MotionSensor::new(
        String::from("one full window"),
        0,
        100,
        1000,
        10,
        tx,
        Some(vec![90, 190, 290, 390, 490, 590, 690, 790, 890, 990]),
    )
    .unwrap();
    drive(&mut sensor, 1050);
    assert_eq!(drain(&mut rx), 1);
    assert_eq!(sensor.last_valid_detection_time, Some(1000));
    assert_eq!(sensor.trigger_count, 0);
    assert_eq!(sensor.window_start, None);
}

/// Ten triggers spanning 900 ms never reach a threshold of 11: no single
/// window accumulates enough, and nothing carries over between windows.
#[test]
fn threshold_above_trigger_count_never_validates() {
    let (tx, mut rx) = channel();
    let mut sensor = MotionSensor::new(
        String::from("threshold out of reach"),
        0,
        100,
        1000,
        11,
        tx,
        Some(vec![90, 190, 290, 390, 490, 590, 690, 790, 890, 990]),
    )
    .unwrap();
    drive(&mut sensor, 1500);
    assert_eq!(drain(&mut rx), 0);
    assert_eq!(sensor.last_valid_detection_time, None);
}

/// A sensor whose script is empty observes no edge: however often it is
/// polled and evaluated, nothing validates and the counter never moves.
#[test]
fn empty_script_never_validates() {
    let (tx, mut rx) = channel();
    let mut sensor = MotionSensor::new(
        String::from("empty script"),
        0,
        100,
        1000,
        1,
        tx,
        Some(vec![]),
    )
    .unwrap();
    drive(&mut sensor, 1000);
    assert_eq!(drain(&mut rx), 0);
    assert_eq!(sensor.trigger_count, 0);
    assert_eq!(sensor.window_start, None);
}

/// After a script is exhausted, further evaluations keep emitting nothing.
#[test]
fn exhausted_script_never_validates_again() {
    let (tx, mut rx) = channel();
    let mut sensor = MotionSensor::new(
        String::from("exhausted script"),
        0,
        100,
        200,
        1,
        tx,
        Some(vec![90]),
    )
    .unwrap();
    drive(&mut sensor, 2000);
    assert_eq!(drain(&mut rx), 1);
    assert_eq!(sensor.additional_settings.sensor_test_index, 1);
    assert_eq!(sensor.trigger_count, 0);
}

/// A trigger that arrives after the open window expired is not discarded:
/// the counter resets and that trigger opens a fresh window as its first.
#[test]
fn window_expiry_starts_fresh_window() {
    let (tx, mut rx) = channel();
    let mut sensor = MotionSensor::new(
        String::from("late trigger"),
        0,
        100,
        300,
        3,
        tx,
        Some(vec![90, 190, 890]),
    )
    .unwrap();
    drive(&mut sensor, 950);
    assert_eq!(drain(&mut rx), 0);
    assert_eq!(sensor.trigger_count, 1);
    assert_eq!(sensor.window_start, Some(900));
}

/// An evaluation inside the rate gate changes nothing: the counter stays,
/// and the buffered marker is still there for the next evaluation past the
/// gate.
#[test]
fn rate_gate_preserves_state_and_buffer() {
    let (tx, mut rx) = channel();
    let mut sensor = MotionSensor::new(
        String::from("gated"),
        0,
        500,
        1000,
        1,
        tx,
        Some(vec![0]),
    )
    .unwrap();
    sensor.reading_from_sensor(0);
    for now in 0..500 {
        let emitted = sensor.process_detections(now);
        assert!(!emitted);
        assert_eq!(sensor.trigger_count, 0);
        assert_eq!(sensor.last_evaluation_time, 0);
    }
    let emitted = sensor.process_detections(500);
    assert!(emitted);
    assert_eq!(drain(&mut rx), 1);
}

/// The raw-event buffer holds ten markers; excess edges polled while the
/// evaluator is idle are dropped, never blocked on.
#[test]
fn saturated_buffer_drops_excess_markers() {
    let (tx, mut rx): (
        Sender<(String, SystemTime)>,
        Receiver<(String, SystemTime)>,
    ) = tokio::sync::mpsc::channel(20);
    let mut sensor = MotionSensor::new(
        String::from("saturated"),
        0,
        1,
        100000,
        1,
        tx,
        Some(vec![0, 1, 2, 3, 4, 5, 6, 7, 8, 9, 10, 11]),
    )
    .unwrap();
    // Poll all twelve scripted edges before any evaluation: ten fit in the
    // buffer, two are dropped.
    for now in 0..=11 {
        sensor.reading_from_sensor(now);
    }
    assert_eq!(sensor.additional_settings.sensor_test_index, 12);
    let mut emitted_count = 0;
    for now in 100..=120 {
        if sensor.process_detections(now) {
            emitted_count += 1;
        }
    }
    assert_eq!(emitted_count, 10);
    assert_eq!(drain(&mut rx), 10);
}

/// Without scripted data the sensor needs the GPIO peripheral, which this
/// machine does not offer: construction reports it rather than handing
/// back a sensor that could never poll.
#[test]
fn live_sensor_without_hardware_fails() {
    let (tx, _rx) = channel();
    let result = MotionSensor::new(String::from("live"), 6, 100, 300, 2, tx, None);
    assert!(matches!(result, Err(SensorError::HardwareUnavailable)));
}
