//! What holds of every exchange, whatever the pin and the clock answer.
//!
//! An exchange is followed here through a sequence of events. The events are
//! arbitrary: a sensor that stays silent, a pin that cannot be driven and a
//! clock that jumps are all among them.

use crate::error::DhtError;
use crate::exchange::{Action, Event, ExchangeState, Phase, Wait, EDGE_TIMEOUT};
use crate::reading::SensorReading;
use crate::time::Microseconds;
use vstd::prelude::*;

verus! {

/// A command that was given to the pin.
pub struct Drive {
    /// The command: `SetLow` or `SetHigh`.
    pub action: Action,
    /// Whether the exchange was in its timing-critical part.
    pub critical: bool,
}

impl<DeviceError> ExchangeState<DeviceError> {
    /// The state that `events`, coming in in this order, lead to.
    pub open spec fn run(self, events: Seq<Event<DeviceError>>) -> Self
        decreases events.len(),
    {
        if events.len() == 0 {
            self
        } else {
            self.run(events.drop_last()).next(events.last())
        }
    }

    /// The commands that the pin was given while `events` came in: for each
    /// event that answered a pending `SetLow` or `SetHigh`, that command.
    pub open spec fn drives(self, events: Seq<Event<DeviceError>>) -> Seq<Drive>
        decreases events.len(),
    {
        if events.len() == 0 {
            Seq::empty()
        } else {
            let before = self.run(events.drop_last());
            let earlier = self.drives(events.drop_last());
            if events.last() is Driven && before.accepts(events.last()) {
                earlier.push(
                    Drive { action: before.pending().unwrap(), critical: before.timing_critical() },
                )
            } else {
                earlier
            }
        }
    }
}

/// The request: the line is driven low inside the timing-critical part.
pub open spec fn request() -> Drive {
    Drive { action: Action::SetLow, critical: true }
}

/// The end of the request pulse: the line is released inside the
/// timing-critical part.
pub open spec fn release() -> Drive {
    Drive { action: Action::SetHigh, critical: true }
}

/// The restoration: the line is released after the timing-critical part.
pub open spec fn restoration() -> Drive {
    Drive { action: Action::SetHigh, critical: false }
}

/// Every step keeps a state well-formed.
pub proof fn law_step_keeps_well_formed<DeviceError>(
    state: ExchangeState<DeviceError>,
    event: Event<DeviceError>,
)
    requires
        state.wf(),
    ensures
        state.next(event).wf(),
{
}

/// Following one event is taking one step.
pub proof fn law_run_of_one<DeviceError>(
    state: ExchangeState<DeviceError>,
    event: Event<DeviceError>,
)
    ensures
        state.run(seq![event]) == state.next(event),
{
    let events = seq![event];
    assert(events.drop_last() =~= Seq::<Event<DeviceError>>::empty());
    assert(state.run(events.drop_last()) == state);
}

/// Following `first` and then `second` is following both in a row.
pub proof fn law_run_in_two_parts<DeviceError>(
    state: ExchangeState<DeviceError>,
    first: Seq<Event<DeviceError>>,
    second: Seq<Event<DeviceError>>,
)
    ensures
        state.run(first + second) == state.run(first).run(second),
    decreases second.len(),
{
    if second.len() == 0 {
        assert(first + second =~= first);
    } else {
        assert((first + second).drop_last() =~= first + second.drop_last());
        law_run_in_two_parts(state, first, second.drop_last());
    }
}

/// The commands given while `first` and then `second` came in are those
/// given during `first`, followed by those given during `second`.
pub proof fn law_drives_in_two_parts<DeviceError>(
    state: ExchangeState<DeviceError>,
    first: Seq<Event<DeviceError>>,
    second: Seq<Event<DeviceError>>,
)
    ensures
        state.drives(first + second) == state.drives(first) + state.run(first).drives(second),
    decreases second.len(),
{
    if second.len() == 0 {
        assert(first + second =~= first);
    } else {
        assert((first + second).drop_last() =~= first + second.drop_last());
        law_drives_in_two_parts(state, first, second.drop_last());
        law_run_in_two_parts(state, first, second.drop_last());
    }
}

/// Every state that an exchange reaches is well-formed.
pub proof fn law_run_keeps_well_formed<DeviceError>(
    state: ExchangeState<DeviceError>,
    events: Seq<Event<DeviceError>>,
)
    requires
        state.wf(),
    ensures
        state.run(events).wf(),
    decreases events.len(),
{
    if events.len() > 0 {
        law_run_keeps_well_formed(state, events.drop_last());
    }
}

/// The timing-critical part is one span: it begins with the exchange, and once
/// it is over it never begins again.
pub proof fn law_critical_part_is_one_span<DeviceError>(
    state: ExchangeState<DeviceError>,
    events: Seq<Event<DeviceError>>,
)
    ensures
        ExchangeState::<DeviceError>::initial().timing_critical(),
        !state.timing_critical() ==> !state.run(events).timing_critical(),
        state.phase is Done ==> state.run(events) == state,
    decreases events.len(),
{
    if events.len() > 0 {
        law_critical_part_is_one_span(state, events.drop_last());
    }
}

/// The first failure stands: no later event changes or removes it.
pub proof fn law_failure_stands<DeviceError>(
    state: ExchangeState<DeviceError>,
    events: Seq<Event<DeviceError>>,
)
    requires
        state.wf(),
        state.failure is Some,
    ensures
        state.run(events).failure == state.failure,
        state.run(events).outcome() == state.outcome(),
        state.outcome() is Err,
    decreases events.len(),
{
    if events.len() > 0 {
        law_failure_stands(state, events.drop_last());
        law_run_keeps_well_formed(state, events.drop_last());
    }
}

/// The line is driven low once and is always given back.
///
/// Whatever events come in, the commands that the pin has been given are the
/// beginning of one sequence: the request, the release that ends the request
/// pulse, the restoration. An exchange that is done has given the pin all of
/// them, or the request and the restoration alone if the request itself could
/// not be made. So the last command of every exchange releases the line, after
/// the timing-critical part and exactly once, and no exchange ends with the
/// line held low by a command of its own.
pub proof fn law_line_is_restored<DeviceError>(events: Seq<Event<DeviceError>>)
    ensures
        ({
            let end = ExchangeState::<DeviceError>::initial().run(events);
            let drives = ExchangeState::<DeviceError>::initial().drives(events);
            match end.phase {
                Phase::PullLow => drives == Seq::<Drive>::empty(),
                Phase::PulseStart | Phase::Pulse(_) | Phase::LetGo => drives == seq![request()],
                Phase::Arm(_) | Phase::Watch(_, _) | Phase::Probe(_, _, _) => drives
                    == seq![request(), release()],
                Phase::Restore => drives == seq![request()] || drives
                    == seq![request(), release()],
                Phase::Done => drives == seq![request(), restoration()] || drives
                    == seq![request(), release(), restoration()],
            }
        }),
    decreases events.len(),
{
    if events.len() > 0 {
        law_line_is_restored(events.drop_last());
    }
}

/// A wait that times out decides the exchange.
///
/// If, at some point of an exchange, the answer to a probe is not the awaited
/// one and the clock reading taken before the probe is [`EDGE_TIMEOUT`] or
/// more after the start of the wait, the exchange has failed: with
/// `Handshake(0)` while waiting for the sensor to pull the line low, with
/// `Handshake(1)` while waiting for it to let go, and with `Timeout` and the
/// elapsed time while waiting for an edge. That is what the exchange reports
/// once it is done, whatever comes in after the probe. By then the pin has
/// been given the request, the release and the restoration, in this order and
/// nothing else: the line is not left low.
pub proof fn law_missed_wait_is_reported<DeviceError>(
    events: Seq<Event<DeviceError>>,
    at: int,
    wait: Wait,
    start: Microseconds,
    now: Microseconds,
    answer: bool,
)
    requires
        0 <= at < events.len(),
        ExchangeState::<DeviceError>::initial().run(events.take(at)).phase == Phase::Probe(
            wait,
            start,
            now,
        ),
        events[at] == Event::<DeviceError>::Level(answer),
        !wait.met(answer),
        now.ticks_since(start) >= EDGE_TIMEOUT,
    ensures
        ({
            let error = wait.missed::<DeviceError>(Microseconds(now.ticks_since(start) as u32));
            let end = ExchangeState::<DeviceError>::initial().run(events);
            &&& end.failure == Some(error)
            &&& end.outcome() == Err::<SensorReading, DhtError<DeviceError>>(error)
            &&& !end.timing_critical()
            &&& end.phase is Done ==> ExchangeState::<DeviceError>::initial().drives(events)
                == seq![request(), release(), restoration()]
        }),
{
    let initial = ExchangeState::<DeviceError>::initial();
    let before = initial.run(events.take(at));
    let upto = events.take(at + 1);
    let after = events.skip(at + 1);
    assert(upto.drop_last() =~= events.take(at));
    assert(upto + after =~= events);
    law_run_keeps_well_formed(initial, events.take(at));
    law_run_keeps_well_formed(initial, upto);
    law_run_in_two_parts(initial, upto, after);
    law_failure_stands(initial.run(upto), after);
    law_critical_part_is_one_span(initial.run(upto), after);
    law_line_is_restored::<DeviceError>(events.take(at));
    law_line_is_restored::<DeviceError>(events);
    assert(events.take(at) + events.skip(at) =~= events);
    law_drives_in_two_parts(initial, events.take(at), events.skip(at));
}

/// A pin that cannot be driven decides the exchange.
///
/// If the request or the release that ends it fails, the exchange reports the
/// pin's own error once it is done, whatever comes in later: also when the
/// restoration fails in its turn.
pub proof fn law_pin_failure_is_reported<DeviceError>(
    events: Seq<Event<DeviceError>>,
    at: int,
    error: DeviceError,
)
    requires
        0 <= at < events.len(),
        ExchangeState::<DeviceError>::initial().run(events.take(at)).timing_critical(),
        ExchangeState::<DeviceError>::initial().run(events.take(at)).accepts(events[at]),
        events[at] == Event::Driven(Err::<(), DeviceError>(error)),
    ensures
        ({
            let end = ExchangeState::<DeviceError>::initial().run(events);
            &&& end.failure == Some(DhtError::DeviceError(error))
            &&& end.outcome() == Err::<SensorReading, DhtError<DeviceError>>(
                DhtError::DeviceError(error),
            )
            &&& !end.timing_critical()
        }),
{
    let initial = ExchangeState::<DeviceError>::initial();
    let upto = events.take(at + 1);
    let after = events.skip(at + 1);
    assert(upto.drop_last() =~= events.take(at));
    assert(upto + after =~= events);
    law_run_keeps_well_formed(initial, events.take(at));
    law_run_keeps_well_formed(initial, upto);
    law_run_in_two_parts(initial, upto, after);
    law_failure_stands(initial.run(upto), after);
    law_critical_part_is_one_span(initial.run(upto), after);
}

} // verus!
