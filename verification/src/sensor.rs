//! The sensor on its pin, with the clock that times it.

use crate::capability::{is_high_gives, is_low_gives, now_gives, IOPin, MicroTimer};
use crate::exchange::{Action, Event, Exchange};
use vstd::prelude::*;

verus! {

/// A DHT22 sensor connected to a pin.
///
/// The sensor owns the pin and the clock. Between reads it keeps nothing else.
pub struct Dht22<Pin, Timer> where Pin: IOPin, Timer: MicroTimer {
    pin: Pin,
    timer: Timer,
}

impl<Pin, Timer> View for Dht22<Pin, Timer> where Pin: IOPin, Timer: MicroTimer {
    type V = (Pin, Timer);

    closed spec fn view(&self) -> (Pin, Timer) {
        (self.pin, self.timer)
    }
}

/// Carrying out `action` on the pin and the clock `before` can give `event`
/// and leave them as `after`: the event is of the kind that answers the
/// action, a query returned what the event carries and changed nothing, and a
/// command to the pin left the clock alone.
pub open spec fn carried_out<Pin: IOPin, Timer: MicroTimer>(
    before: (Pin, Timer),
    after: (Pin, Timer),
    action: Action,
    event: Event<Pin::DeviceError>,
) -> bool {
    match action {
        Action::SetLow | Action::SetHigh => event is Driven && after.1 == before.1,
        Action::Now => event matches Event::Clock(instant) && now_gives(before.1, instant)
            && after == before,
        Action::IsLow => event matches Event::Level(answer) && is_low_gives(before.0, answer)
            && after == before,
        Action::IsHigh => event matches Event::Level(answer) && is_high_gives(before.0, answer)
            && after == before,
    }
}

impl<Pin, Timer> Dht22<Pin, Timer> where Pin: IOPin, Timer: MicroTimer {
    /// The sensor on `pin`, timed by `clock`. Nothing is done to either.
    pub fn new(pin: Pin, clock: Timer) -> (sensor: Self)
        ensures
            sensor@ == (pin, clock),
    {
        Dht22 { pin, timer: clock }
    }

    /// Carries out one operation and returns its answer.
    ///
    /// The answer is what the one method returned that the action names:
    /// `set_low` and `set_high` on the pin, which they may change, `now` on
    /// the clock, `is_low` and `is_high` on the pin.
    pub fn perform(&mut self, action: Action) -> (event: Event<Pin::DeviceError>)
        ensures
            carried_out(old(self)@, final(self)@, action, event),
            action.answered_by(event),
            action is SetLow ==> exists|pin: &mut Pin|
                mut_ref_current(pin) == old(self)@.0 && mut_ref_future(pin) == final(self)@.0
                    && call_ensures(Pin::set_low, (pin,), event->Driven_0),
            action is SetHigh ==> exists|pin: &mut Pin|
                mut_ref_current(pin) == old(self)@.0 && mut_ref_future(pin) == final(self)@.0
                    && call_ensures(Pin::set_high, (pin,), event->Driven_0),
    {
        match action {
            Action::SetLow => Event::Driven(self.pin.set_low()),
            Action::SetHigh => Event::Driven(self.pin.set_high()),
            Action::Now => Event::Clock(self.timer.now()),
            Action::IsLow => Event::Level(self.pin.is_low()),
            Action::IsHigh => Event::Level(self.pin.is_high()),
        }
    }

    /// Carries out the operation that `exchange` waits for and hands it the
    /// answer. Returns whether the exchange has more to do.
    ///
    /// A read is an exchange advanced until it is done. While the exchange is
    /// timing-critical the calls must follow each other without interruption.
    pub fn advance(&mut self, exchange: &mut Exchange<Pin::DeviceError>) -> (more: bool)
        ensures
            old(exchange)@.pending() matches Some(action) ==> exists|event: Event<Pin::DeviceError>|
                carried_out(old(self)@, final(self)@, action, event) && final(exchange)@ == old(
                    exchange,
                )@.next(event),
            old(exchange)@.pending() is None ==> final(exchange)@ == old(exchange)@ && final(self)@
                == old(self)@,
            final(exchange)@.wf(),
            more == final(exchange)@.pending() is Some,
    {
        match exchange.action() {
            Some(action) => {
                let event = self.perform(action);
                exchange.step(event);
            },
            None => {},
        }
        !exchange.is_done()
    }
}

} // verus!
