//! How an exchange gets through its waits, poll by poll, and what a sensor
//! that answers in time is read as.

use crate::error::DhtError;
use crate::exchange::{Event, ExchangeState, Phase, Wait, EDGE_TIMEOUT, REQUEST_PULSE};
use crate::reading::{decode_of, SensorReading, EDGES};
use crate::time::Microseconds;
use crate::trace::{
    law_drives_in_two_parts, law_line_is_restored, law_run_in_two_parts, law_run_of_one, release,
    request, restoration,
};
use crate::waiter::{law_wait_ends_at_first_verdict, Sample, Waiter};
use vstd::prelude::*;

verus! {

/// One poll of the line during a wait.
pub struct Poll {
    /// What the clock showed.
    pub now: Microseconds,
    /// What the probe of the line returned after that.
    pub answer: bool,
}

/// The events that `polls` consist of: for each the clock reading, then the
/// answer of the probe.
pub open spec fn poll_events<DeviceError>(polls: Seq<Poll>) -> Seq<Event<DeviceError>>
    decreases polls.len(),
{
    if polls.len() == 0 {
        Seq::empty()
    } else {
        poll_events(polls.drop_last()).push(Event::Clock(polls.last().now)).push(
            Event::Level(polls.last().answer),
        )
    }
}

/// What `polls` are to a waiter that waits for `wait`: the clock reading of
/// each, and whether its answer is the awaited one.
pub open spec fn poll_samples(wait: Wait, polls: Seq<Poll>) -> Seq<Sample> {
    Seq::new(
        polls.len(),
        |i: int| Sample { now: polls[i].now, condition: wait.met(polls[i].answer) },
    )
}

/// Whether a wait for `wait` that began at `start` is undecided by all of
/// `polls` but the last.
pub open spec fn open_until_last(wait: Wait, start: Microseconds, polls: Seq<Poll>) -> bool {
    let waiter = Waiter { start, timeout: EDGE_TIMEOUT };
    let samples = poll_samples(wait, polls);
    forall|j: int| 0 <= j < polls.len() - 1 ==> waiter.verdict(#[trigger] samples[j]) is None
}

/// The events that clock readings alone consist of.
pub open spec fn clock_events<DeviceError>(readings: Seq<Microseconds>) -> Seq<
    Event<DeviceError>,
> {
    Seq::new(readings.len(), |i: int| Event::Clock(readings[i]))
}

/// What clock `readings` are to a waiter whose condition never holds.
pub open spec fn idle_samples(readings: Seq<Microseconds>) -> Seq<Sample> {
    Seq::new(readings.len(), |i: int| Sample { now: readings[i], condition: false })
}

/// Whether a request pulse that began at `start` is incomplete at all of
/// `readings` but the last.
pub open spec fn held_until_last(start: Microseconds, readings: Seq<Microseconds>) -> bool {
    forall|j: int|
        0 <= j < readings.len() - 1 ==> (#[trigger] readings[j]).ticks_since(start)
            < REQUEST_PULSE
}

/// Every wait of an exchange is a wait of a [`Waiter`].
///
/// Take an exchange that has just begun a wait at `start`, and any polls of
/// which none but the last has a verdict. Then the exchange stands where the
/// waiter's outcome on these polls says: still in the same wait if there is no
/// verdict yet, past the wait with the elapsed time if the condition was met,
/// and failed with the wait's error if the timeout passed first.
pub proof fn law_wait_follows_waiter<DeviceError>(
    state: ExchangeState<DeviceError>,
    wait: Wait,
    start: Microseconds,
    polls: Seq<Poll>,
)
    requires
        state.phase == Phase::Watch(wait, start),
        open_until_last(wait, start, polls),
    ensures
        ({
            let waiter = Waiter { start, timeout: EDGE_TIMEOUT };
            let end = state.run(poll_events(polls));
            match waiter.outcome(poll_samples(wait, polls)) {
                None => end == state,
                Some(Ok(elapsed)) => end == state.arrived(wait, elapsed),
                Some(Err(elapsed)) => end == state.failed(wait.missed(elapsed)),
            }
        }),
    decreases polls.len(),
{
    let waiter = Waiter { start, timeout: EDGE_TIMEOUT };
    let samples = poll_samples(wait, polls);
    law_wait_ends_at_first_verdict(waiter, samples);
    if polls.len() > 0 {
        let earlier = polls.drop_last();
        let earlier_samples = poll_samples(wait, earlier);
        assert forall|j: int| 0 <= j < earlier.len() implies waiter.verdict(
            #[trigger] earlier_samples[j],
        ) is None by {
            assert(earlier_samples[j] == samples[j]);
        }
        law_wait_ends_at_first_verdict(waiter, earlier_samples);
        law_wait_follows_waiter(state, wait, start, earlier);
        let events = poll_events::<DeviceError>(polls);
        let read = poll_events::<DeviceError>(earlier).push(Event::Clock(polls.last().now));
        assert(events.drop_last() == read);
        assert(read.drop_last() == poll_events::<DeviceError>(earlier));
        assert(state.run(read) == state.run(read.drop_last()).next(read.last()));
        assert(samples.last() == Sample {
            now: polls.last().now,
            condition: wait.met(polls.last().answer),
        });
    }
}

/// The request pulse is a wait of a [`Waiter`] whose condition never holds.
///
/// Take an exchange that holds the line low since `start`, and any clock
/// readings of which none but the last is [`REQUEST_PULSE`] or more after
/// `start`. If the last one is, the exchange goes on to release the line, and
/// if not it holds the line still.
pub proof fn law_pulse_follows_waiter<DeviceError>(
    state: ExchangeState<DeviceError>,
    start: Microseconds,
    readings: Seq<Microseconds>,
)
    requires
        state.phase == Phase::Pulse(start),
        held_until_last(start, readings),
    ensures
        ({
            let waiter = Waiter { start, timeout: REQUEST_PULSE };
            let end = state.run(clock_events(readings));
            match waiter.outcome(idle_samples(readings)) {
                None => end == state,
                Some(Ok(_)) => false,
                Some(Err(elapsed)) => end == state.at(Phase::LetGo) && elapsed.0 >= REQUEST_PULSE,
            }
        }),
    decreases readings.len(),
{
    let waiter = Waiter { start, timeout: REQUEST_PULSE };
    let samples = idle_samples(readings);
    law_wait_ends_at_first_verdict(waiter, samples);
    if readings.len() > 0 {
        let earlier = readings.drop_last();
        let earlier_samples = idle_samples(earlier);
        assert forall|j: int| 0 <= j < earlier.len() implies waiter.verdict(
            #[trigger] earlier_samples[j],
        ) is None by {
            assert(earlier_samples[j] == samples[j]);
            assert(readings[j].ticks_since(start) < REQUEST_PULSE);
        }
        law_wait_ends_at_first_verdict(waiter, earlier_samples);
        law_pulse_follows_waiter(state, start, earlier);
        let events = clock_events::<DeviceError>(readings);
        assert(events.drop_last() == clock_events::<DeviceError>(earlier));
        assert(samples.last() == Sample { now: readings.last(), condition: false });
    }
}

/// A wait as it went: when it began and what its polls found.
pub struct Waited {
    /// What the clock showed when the wait began.
    pub start: Microseconds,
    /// The polls of the wait, in order.
    pub polls: Seq<Poll>,
}

impl Waited {
    /// The events that the wait consists of: the clock reading that begins it,
    /// then its polls.
    pub open spec fn events<DeviceError>(self) -> Seq<Event<DeviceError>> {
        seq![Event::Clock(self.start)] + poll_events(self.polls)
    }

    /// The time from the start of the wait to its last poll.
    pub open spec fn duration(self) -> Microseconds {
        Waiter { start: self.start, timeout: EDGE_TIMEOUT }.elapsed(self.polls.last().now)
    }

    /// Whether the last poll found what `wait` waits for, and no poll before
    /// it found that or the timeout passed.
    pub open spec fn met_at_last(self, wait: Wait) -> bool {
        &&& self.polls.len() > 0
        &&& open_until_last(wait, self.start, self.polls)
        &&& wait.met(self.polls.last().answer)
    }

    /// Whether the last poll found the timeout passed and not what `wait`
    /// waits for, and no poll before it found either.
    pub open spec fn missed_at_last(self, wait: Wait) -> bool {
        &&& self.polls.len() > 0
        &&& open_until_last(wait, self.start, self.polls)
        &&& !wait.met(self.polls.last().answer)
        &&& self.duration().0 >= EDGE_TIMEOUT
    }
}

/// The waits of an exchange, counted from 0: for the sensor to pull the line
/// low, for it to let go, and then for each edge.
pub open spec fn nth_wait(n: int) -> Wait {
    if n == 0 {
        Wait::Acknowledge
    } else if n == 1 {
        Wait::Release
    } else {
        Wait::Edge((n - 2) as usize)
    }
}

/// The number of waits in an exchange that goes well.
pub open spec fn waits_in_all() -> int {
    EDGES + 2
}

/// The events of several waits in a row.
pub open spec fn waits_events<DeviceError>(waits: Seq<Waited>) -> Seq<Event<DeviceError>>
    decreases waits.len(),
{
    if waits.len() == 0 {
        Seq::empty()
    } else {
        waits_events(waits.drop_last()) + waits.last().events()
    }
}

/// The events of a request that is made in full: the pin is driven low, the
/// clock is read for the start of the pulse and then as often as `pulse` says,
/// and the pin is released.
pub open spec fn request_events<DeviceError>(
    pulse_start: Microseconds,
    pulse: Seq<Microseconds>,
) -> Seq<Event<DeviceError>> {
    seq![Event::Driven(Ok(())), Event::Clock(pulse_start)] + clock_events(pulse) + seq![
        Event::Driven(Ok(())),
    ]
}

/// Whether the last of the clock readings `pulse`, and none before it, shows
/// the request pulse complete that began at `pulse_start`.
pub open spec fn complete_at_last(pulse_start: Microseconds, pulse: Seq<Microseconds>) -> bool {
    &&& pulse.len() > 0
    &&& held_until_last(pulse_start, pulse)
    &&& pulse.last().ticks_since(pulse_start) >= REQUEST_PULSE
}

/// A wait that is met at its last poll is passed with the time that this poll
/// found elapsed.
pub proof fn law_met_wait_is_passed<DeviceError>(
    state: ExchangeState<DeviceError>,
    wait: Wait,
    waited: Waited,
)
    requires
        state.phase == Phase::Arm(wait),
        waited.met_at_last(wait),
    ensures
        state.run(waited.events()) == state.arrived(wait, waited.duration()),
{
    let begun = state.at(Phase::Watch(wait, waited.start));
    let first = seq![Event::<DeviceError>::Clock(waited.start)];
    law_run_of_one(state, Event::<DeviceError>::Clock(waited.start));
    law_run_in_two_parts(state, first, poll_events(waited.polls));
    law_wait_follows_waiter(begun, wait, waited.start, waited.polls);
    let waiter = Waiter { start: waited.start, timeout: EDGE_TIMEOUT };
    let samples = poll_samples(wait, waited.polls);
    law_wait_ends_at_first_verdict(waiter, samples);
    assert(samples.last() == Sample {
        now: waited.polls.last().now,
        condition: wait.met(waited.polls.last().answer),
    });
}

/// A wait that is missed at its last poll fails the exchange with the error
/// of the wait and the time that this poll found elapsed.
pub proof fn law_missed_wait_fails<DeviceError>(
    state: ExchangeState<DeviceError>,
    wait: Wait,
    waited: Waited,
)
    requires
        state.phase == Phase::Arm(wait),
        waited.missed_at_last(wait),
    ensures
        state.run(waited.events()) == state.failed(wait.missed(waited.duration())),
{
    let begun = state.at(Phase::Watch(wait, waited.start));
    let first = seq![Event::<DeviceError>::Clock(waited.start)];
    law_run_of_one(state, Event::<DeviceError>::Clock(waited.start));
    law_run_in_two_parts(state, first, poll_events(waited.polls));
    law_wait_follows_waiter(begun, wait, waited.start, waited.polls);
    let waiter = Waiter { start: waited.start, timeout: EDGE_TIMEOUT };
    let samples = poll_samples(wait, waited.polls);
    law_wait_ends_at_first_verdict(waiter, samples);
    assert(samples.last() == Sample {
        now: waited.polls.last().now,
        condition: wait.met(waited.polls.last().answer),
    });
}

/// Waits that are met in time are passed in order, and the edges among them
/// are captured.
///
/// Take an exchange that has made its request, and the first so many of its
/// waits, each met at its last poll. Then the exchange stands at the wait that
/// comes next, or is through with its timing-critical part if there is none.
/// The buffer holds the duration of each wait for an edge at the index of the
/// edge, and is unchanged elsewhere.
pub proof fn law_waits_are_passed<DeviceError>(
    state: ExchangeState<DeviceError>,
    waits: Seq<Waited>,
)
    requires
        state.wf(),
        state.phase == Phase::Arm(Wait::Acknowledge),
        waits.len() <= waits_in_all(),
        forall|n: int| 0 <= n < waits.len() ==> (#[trigger] waits[n]).met_at_last(nth_wait(n)),
    ensures
        ({
            let end = state.run(waits_events(waits));
            &&& end.failure == state.failure
            &&& end.phase == if waits.len() < waits_in_all() {
                Phase::Arm(nth_wait(waits.len() as int))
            } else {
                Phase::Restore
            }
            &&& end.cycles.len() == EDGES
            &&& forall|i: int|
                0 <= i < waits.len() - 2 ==> #[trigger] end.cycles[i] == waits[i + 2].duration().0
            &&& forall|i: int|
                0 <= i < EDGES && waits.len() - 2 <= i ==> #[trigger] end.cycles[i]
                    == state.cycles[i]
        }),
    decreases waits.len(),
{
    if waits.len() > 0 {
        let earlier = waits.drop_last();
        let n = earlier.len() as int;
        assert forall|m: int| 0 <= m < earlier.len() implies (#[trigger] earlier[m]).met_at_last(
            nth_wait(m),
        ) by {
            assert(earlier[m] == waits[m]);
        }
        law_waits_are_passed(state, earlier);
        let before = state.run(waits_events(earlier));
        law_run_in_two_parts(state, waits_events(earlier), waits.last().events());
        assert(waits[n].met_at_last(nth_wait(n)));
        law_met_wait_is_passed(before, nth_wait(n), waits.last());
    }
}

/// A request that is made in full leaves the exchange waiting for the
/// sensor's answer, with the line held low for [`REQUEST_PULSE`] or more.
pub proof fn law_request_is_made<DeviceError>(pulse_start: Microseconds, pulse: Seq<Microseconds>)
    requires
        complete_at_last(pulse_start, pulse),
    ensures
        ExchangeState::<DeviceError>::initial().run(request_events(pulse_start, pulse))
            == ExchangeState::<DeviceError>::initial().at(Phase::Arm(Wait::Acknowledge)),
        ExchangeState::<DeviceError>::initial().drives(request_events(pulse_start, pulse))
            == seq![request(), release()],
{
    let initial = ExchangeState::<DeviceError>::initial();
    let lowered = seq![
        Event::<DeviceError>::Driven(Ok(())),
        Event::<DeviceError>::Clock(pulse_start),
    ];
    let freed = seq![Event::<DeviceError>::Driven(Ok(()))];
    let holding = initial.at(Phase::Pulse(pulse_start));
    assert(initial.run(lowered) == holding) by {
        assert(lowered.drop_last() =~= seq![Event::<DeviceError>::Driven(Ok(()))]);
        law_run_of_one(initial, Event::<DeviceError>::Driven(Ok(())));
    }
    let held = initial.at(Phase::LetGo);
    assert(holding.run(clock_events(pulse)) == held) by {
        law_pulse_follows_waiter(holding, pulse_start, pulse);
        let waiter = Waiter { start: pulse_start, timeout: REQUEST_PULSE };
        let samples = idle_samples(pulse);
        law_wait_ends_at_first_verdict(waiter, samples);
        assert(samples.last() == Sample { now: pulse.last(), condition: false });
        assert(waiter.verdict(samples.last()) is Some);
    }
    assert(held.run(freed) == initial.at(Phase::Arm(Wait::Acknowledge))) by {
        law_run_of_one(held, Event::<DeviceError>::Driven(Ok(())));
    }
    law_run_in_two_parts(initial, lowered, clock_events(pulse));
    law_run_in_two_parts(initial, lowered + clock_events(pulse), freed);
    law_line_is_restored::<DeviceError>(request_events(pulse_start, pulse));
}

/// A sensor that answers in time is read.
///
/// Take any exchange in which the request is made in full and the sensor then
/// answers every wait in time: the two of the handshake and all 81 edges. When
/// the line has been released once more, with or without success, the
/// exchange is done, and its outcome is what the 81 durations decode to, each
/// being the time from the start of the wait for an edge to the poll that
/// found it. The pin has been given the request, the release and the
/// restoration, and nothing else.
pub proof fn law_answering_sensor_is_read<DeviceError>(
    pulse_start: Microseconds,
    pulse: Seq<Microseconds>,
    waits: Seq<Waited>,
    restored: Result<(), DeviceError>,
)
    requires
        complete_at_last(pulse_start, pulse),
        waits.len() == waits_in_all(),
        forall|n: int| 0 <= n < waits.len() ==> (#[trigger] waits[n]).met_at_last(nth_wait(n)),
    ensures
        ({
            let events = request_events::<DeviceError>(pulse_start, pulse) + waits_events(waits)
                + seq![Event::<DeviceError>::Driven(restored)];
            let end = ExchangeState::<DeviceError>::initial().run(events);
            let durations = Seq::new(EDGES as nat, |i: int| waits[i + 2].duration().0);
            &&& end.phase is Done
            &&& end.failure is None
            &&& end.cycles == durations
            &&& end.outcome() == decode_of::<DeviceError>(durations)
            &&& ExchangeState::<DeviceError>::initial().drives(events)
                == seq![request(), release(), restoration()]
        }),
{
    let initial = ExchangeState::<DeviceError>::initial();
    let asked = request_events::<DeviceError>(pulse_start, pulse);
    let capture = waits_events::<DeviceError>(waits);
    let last = seq![Event::<DeviceError>::Driven(restored)];
    let armed = initial.at(Phase::Arm(Wait::Acknowledge));
    let captured = armed.run(capture);
    let end = captured.at(Phase::Done);
    let durations = Seq::new(EDGES as nat, |i: int| waits[i + 2].duration().0);
    assert(initial.run(asked) == armed && initial.drives(asked) == seq![request(), release()]) by {
        law_request_is_made::<DeviceError>(pulse_start, pulse);
    }
    assert(captured.phase == Phase::Restore && captured.failure is None && captured.cycles
        == durations) by {
        law_waits_are_passed(armed, waits);
        assert(captured.cycles =~= durations);
    }
    assert(captured.run(last) == end) by {
        law_run_of_one(captured, Event::<DeviceError>::Driven(restored));
    }
    assert(initial.run(asked + capture + last) == end) by {
        law_run_in_two_parts(initial, asked, capture);
        law_run_in_two_parts(initial, asked + capture, last);
    }
    assert(initial.drives(asked + capture + last) == seq![request(), release(), restoration()])
        by {
        assert(asked + (capture + last) =~= asked + capture + last);
        lemma_drives_after_request(asked, capture + last);
    }
}

/// A wait that the sensor does not answer ends the read.
///
/// Take any exchange in which the request is made in full, the sensor answers
/// some of the waits in time, none or more but not all, and the next wait
/// times out. When the line has been released once more, with or without
/// success, the exchange is done, and its outcome is the error of the wait
/// that timed out: `Handshake(0)` if the sensor never pulled the line low,
/// `Handshake(1)` if it never let go, and `Timeout` with the time that had
/// passed if an edge did not come. The pin has been given the request, the
/// release and the restoration, and nothing else.
pub proof fn law_unanswered_wait_ends_read<DeviceError>(
    pulse_start: Microseconds,
    pulse: Seq<Microseconds>,
    passed: Seq<Waited>,
    missed: Waited,
    restored: Result<(), DeviceError>,
)
    requires
        complete_at_last(pulse_start, pulse),
        passed.len() < waits_in_all(),
        forall|n: int| 0 <= n < passed.len() ==> (#[trigger] passed[n]).met_at_last(nth_wait(n)),
        missed.missed_at_last(nth_wait(passed.len() as int)),
    ensures
        ({
            let events = request_events::<DeviceError>(pulse_start, pulse) + waits_events(passed)
                + missed.events() + seq![Event::<DeviceError>::Driven(restored)];
            let end = ExchangeState::<DeviceError>::initial().run(events);
            let error = nth_wait(passed.len() as int).missed::<DeviceError>(missed.duration());
            &&& end.phase is Done
            &&& end.outcome() == Err::<SensorReading, DhtError<DeviceError>>(error)
            &&& passed.len() == 0 ==> error == DhtError::<DeviceError>::Handshake(0)
            &&& passed.len() == 1 ==> error == DhtError::<DeviceError>::Handshake(1)
            &&& passed.len() >= 2 ==> error == DhtError::<DeviceError>::Timeout(missed.duration())
            &&& ExchangeState::<DeviceError>::initial().drives(events)
                == seq![request(), release(), restoration()]
        }),
{
    let initial = ExchangeState::<DeviceError>::initial();
    let asked = request_events::<DeviceError>(pulse_start, pulse);
    let capture = waits_events::<DeviceError>(passed);
    let lost = missed.events::<DeviceError>();
    let last = seq![Event::<DeviceError>::Driven(restored)];
    let wait = nth_wait(passed.len() as int);
    let armed = initial.at(Phase::Arm(Wait::Acknowledge));
    let waiting = armed.run(capture);
    let failed = waiting.failed(wait.missed(missed.duration()));
    let end = failed.at(Phase::Done);
    assert(initial.run(asked) == armed && initial.drives(asked) == seq![request(), release()]) by {
        law_request_is_made::<DeviceError>(pulse_start, pulse);
    }
    assert(waiting.phase == Phase::Arm(wait)) by {
        law_waits_are_passed(armed, passed);
    }
    assert(waiting.run(lost) == failed) by {
        law_missed_wait_fails(waiting, wait, missed);
    }
    assert(failed.run(last) == end) by {
        law_run_of_one(failed, Event::<DeviceError>::Driven(restored));
    }
    assert(initial.run(asked + capture + lost + last) == end) by {
        law_run_in_two_parts(initial, asked, capture);
        law_run_in_two_parts(initial, asked + capture, lost);
        law_run_in_two_parts(initial, asked + capture + lost, last);
    }
    assert(initial.drives(asked + capture + lost + last) == seq![
        request(),
        release(),
        restoration(),
    ]) by {
        assert(asked + (capture + lost + last) =~= asked + capture + lost + last);
        lemma_drives_after_request(asked, capture + lost + last);
    }
}

/// An exchange that is done, and whose first events gave the pin the request
/// and the release, has given it the restoration after them and nothing else.
proof fn lemma_drives_after_request<DeviceError>(
    first: Seq<Event<DeviceError>>,
    rest: Seq<Event<DeviceError>>,
)
    requires
        ExchangeState::<DeviceError>::initial().drives(first) == seq![request(), release()],
        ExchangeState::<DeviceError>::initial().run(first + rest).phase is Done,
    ensures
        ExchangeState::<DeviceError>::initial().drives(first + rest)
            == seq![request(), release(), restoration()],
{
    let initial = ExchangeState::<DeviceError>::initial();
    law_drives_in_two_parts(initial, first, rest);
    law_line_is_restored::<DeviceError>(first + rest);
    let drives = initial.drives(first + rest);
    assert(drives[1] == (initial.drives(first) + initial.run(first).drives(rest))[1]);
}

} // verus!
