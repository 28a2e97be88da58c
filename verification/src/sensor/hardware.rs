//! Trusted collaborators at the edges of the debounce logic: the GPIO pin
//! driver (rppal), the wall clock, and the outward detection channel.
//!
//! Nothing is promised of a pin level, of the clock, or of delivery to the
//! external consumer: those depend on the hardware and on the consumer, so
//! the verified logic is proved for every outcome of these calls.

use rppal::gpio::Gpio;
use rppal::gpio::IoPin;
use rppal::gpio::Pin;
use std::time::SystemTime;
use tokio::sync::mpsc::Sender;
use vstd::prelude::*;

verus! {

#[verifier::external_type_specification]
#[verifier::external_body]
pub struct ExGpio(Gpio);

#[verifier::external_type_specification]
#[verifier::external_body]
pub struct ExPin(Pin);

#[verifier::external_type_specification]
#[verifier::external_body]
pub struct ExIoPin(IoPin);

#[verifier::external_type_specification]
#[verifier::external_body]
pub struct ExGpioError(rppal::gpio::Error);

#[verifier::external_type_specification]
#[verifier::external_body]
pub struct ExSystemTime(SystemTime);

/// Relies on rppal's Gpio::new: opens the GPIO peripheral, and fails when
/// the hardware is absent or inaccessible.
#[verifier::external_body]
pub(crate) fn gpio_open() -> Result<Gpio, rppal::gpio::Error> {
    Gpio::new()
}

/// Relies on rppal's Gpio::get: claims the pin with the given number, and
/// fails while it is unavailable or already taken.
#[verifier::external_body]
pub(crate) fn gpio_get_pin(gpio: &Gpio, pin_number: u8) -> Result<Pin, rppal::gpio::Error> {
    gpio.get(pin_number)
}

/// Relies on rppal's Pin::into_io: configures the claimed pin as an input
/// pin.
#[verifier::external_body]
pub(crate) fn pin_into_input(pin: Pin) -> IoPin {
    pin.into_io(rppal::gpio::Mode::Input)
}

/// Relies on rppal's IoPin::is_high: reads the pin's instantaneous logic
/// level. The level is whatever the hardware shows at that moment, so
/// nothing is promised of the result.
#[verifier::external_body]
pub(crate) fn pin_is_high(pin: &IoPin) -> bool {
    pin.is_high()
}

/// Relies on std::time::SystemTime::now: reads the wall clock, whose value
/// nothing can promise.
#[verifier::external_body]
pub(crate) fn wall_clock_now() -> SystemTime {
    SystemTime::now()
}

/// Relies on tokio's Sender::try_send: best-effort, non-blocking delivery
/// of one validated detection to the external consumer. The message is
/// dropped when the channel is saturated or the consumer is gone, so
/// nothing is promised beyond the returned outcome.
#[verifier::external_body]
pub(crate) fn send_detection(
    sink: &Sender<(String, SystemTime)>,
    name: &String,
    at: SystemTime,
) -> (delivered: bool) {
    sink.try_send((name.clone(), at)).is_ok()
}

} // verus!
