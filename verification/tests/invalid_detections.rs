use pir_motion_sensor::sensor::motion::MotionSensor;
use std::time::SystemTime;
use tokio::sync::mpsc::Receiver;
use tokio::sync::mpsc::Sender;

fn drive(sensor: &mut MotionSensor, timeout_milisecs: u64) {
    for now in 0..=timeout_milisecs {
        sensor.reading_from_sensor(now);
        sensor.process_detections(now);
    }
}

fn drain(rx: &mut Receiver<(String, SystemTime)>) -> u64 {
    let mut count = 0;
    while rx.try_recv().is_ok() {
        count += 1;
    }
    count
}

#[test]
fn invalid_detections() {
    let (tx, mut rx): (
        Sender<(String, SystemTime)>,
        Receiver<(String, SystemTime)>,
    ) = tokio::sync::mpsc::channel(10);

    // Two triggers can never reach a threshold of 3, so nothing validates.
    let mut sensor = MotionSensor::new(
        String::from("SensorInValidDetections1"),
        0,
        500,
        1000,
        3,
        tx,
        Some(vec![500, 1000]),
    )
    .unwrap();
    drive(&mut sensor, 1100);
    assert_eq!(drain(&mut rx), 0);
}
