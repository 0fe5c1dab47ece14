//! What the decoder needs from the hardware: a pin and a clock.
//!
//! Nothing is promised of either. A pin may fail and a clock may jump, and
//! what is proved of the decoder holds whatever they return. The spec
//! functions here only give names to "this value is what the query returned".

use crate::time::Microseconds;
use vstd::prelude::*;

verus! {

/// A GPIO pin that can read the level of the line and drive it.
///
/// The line is open-drain and idles high: `set_high` releases it so that the
/// pull-up raises it, and does not force it high against the sensor.
pub trait IOPin {
    /// What driving the pin can fail with.
    type DeviceError;

    /// Drives the line low.
    fn set_low(&mut self) -> Result<(), Self::DeviceError>;

    /// Releases the line.
    fn set_high(&mut self) -> Result<(), Self::DeviceError>;

    /// Whether the line is low.
    fn is_low(&self) -> bool;

    /// Whether the line is high.
    fn is_high(&self) -> bool;
}

/// A timer with microsecond resolution.
pub trait MicroTimer {
    /// The current instant, as microseconds since some fixed point, usually
    /// the start of the timer. The counter may wrap while the sensor is read.
    fn now(&self) -> Microseconds;
}

/// `is_low`, called on `pin`, can return `answer`.
pub open spec fn is_low_gives<Pin: IOPin>(pin: Pin, answer: bool) -> bool {
    call_ensures(Pin::is_low, (&pin,), answer)
}

/// `is_high`, called on `pin`, can return `answer`.
pub open spec fn is_high_gives<Pin: IOPin>(pin: Pin, answer: bool) -> bool {
    call_ensures(Pin::is_high, (&pin,), answer)
}

/// `now`, called on `timer`, can return `instant`.
pub open spec fn now_gives<Timer: MicroTimer>(timer: Timer, instant: Microseconds) -> bool {
    call_ensures(Timer::now, (&timer,), instant)
}

} // verus!
