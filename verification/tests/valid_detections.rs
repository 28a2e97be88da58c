use pir_motion_sensor::sensor::motion::MotionSensor;
use std::time::SystemTime;
use tokio::sync::mpsc::Receiver;
use tokio::sync::mpsc::Sender;

/// Drives one sensor through poll and evaluate at every millisecond from 0
/// up to and including `timeout_milisecs`.
fn drive(sensor: &mut MotionSensor, timeout_milisecs: u64) {
    for now in 0..=timeout_milisecs {
        sensor.reading_from_sensor(now);
        sensor.process_detections(now);
    }
}

fn drain(rx: &mut Receiver<(String, SystemTime)>) -> u64 {
    let mut count = 0;
    while rx.try_recv().is_ok() {
        count += 1;
    }
    count
}

#[test]
fn valid_detections() {
    let (tx, mut rx): (
        Sender<(String, SystemTime)>,
        Receiver<(String, SystemTime)>,
    ) = tokio::sync::mpsc::channel(10);

    // Two triggers, one in each refresh interval; together they reach the
    // threshold of 2 inside one window, giving one validated detection.
    let mut sensor = MotionSensor::new(
        String::from("Simple detection 1"),
        0,
        500,
        1000,
        2,
        tx.clone(),
        Some(vec![490, 990]),
    )
    .unwrap();
    drive(&mut sensor, 1050);
    assert_eq!(drain(&mut rx), 1);

    // Six triggers; the first five fill the 500 ms window and validate
    // once, the sixth falls outside it and stays below the threshold.
    let mut sensor = MotionSensor::new(
        String::from("Simple detection 2"),
        0,
        100,
        500,
        5,
        tx.clone(),
        Some(vec![90, 190, 290, 390, 490, 501]),
    )
    .unwrap();
    drive(&mut sensor, 550);
    assert_eq!(drain(&mut rx), 1);

    // Ten triggers; five validate at 500 ms, and the rest are cut off by
    // the timeout before a second validation can complete.
    let mut sensor = MotionSensor::new(
        String::from("Two valid detections from 10"),
        0,
        100,
        500,
        5,
        tx.clone(),
        Some(vec![90, 190, 290, 390, 490, 550, 650, 750, 950, 1010]),
    )
    .unwrap();
    drive(&mut sensor, 1020);
    assert_eq!(drain(&mut rx), 1);

    // Threshold 1: every trigger validates on its own.
    let mut sensor = MotionSensor::new(
        String::from("10/10 fast detections"),
        0,
        100,
        200,
        1,
        tx.clone(),
        Some(vec![90, 190, 290, 390, 490, 590, 690, 790, 890, 990]),
    )
    .unwrap();
    drive(&mut sensor, 1050);
    assert_eq!(drain(&mut rx), 10);

    // The same ten triggers with threshold 10 and a 1000 ms window fall
    // into a single window and validate exactly once.
    let mut sensor = MotionSensor::new(
        String::from("Single detection from 10"),
        0,
        100,
        1000,
        10,
        tx,
        Some(vec![90, 190, 290, 390, 490, 590, 690, 790, 890, 990]),
    )
    .unwrap();
    drive(&mut sensor, 1050);
    assert_eq!(drain(&mut rx), 1);
}
