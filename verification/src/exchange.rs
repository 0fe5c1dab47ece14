//! One exchange with the sensor, as a state machine that does no I/O.
//!
//! An [`Exchange`] names the next operation on the pin or the clock
//! ([`Exchange::action`]) and takes the answer ([`Exchange::step`]) until no
//! operation is left. It decides the order of the handshake, which level each
//! wait looks for, when a wait is given up, and that the pin goes back to its
//! idle level whatever happened before.

use crate::error::DhtError;
use crate::reading::{decode, decode_of, SensorReading, EDGES};
use crate::time::Microseconds;
use crate::waiter::{Sample, Waiter};
use vstd::prelude::*;

verus! {

/// Microseconds for which the line is held low to request a reading. The
/// sensor needs at least one millisecond.
pub const REQUEST_PULSE: u32 = 1200;

/// Microseconds after which a wait for the sensor is given up.
pub const EDGE_TIMEOUT: u32 = 100;

/// One operation on the pin or the clock.
#[derive(Debug, Clone, Copy, PartialEq, Eq, Structural)]
pub enum Action {
    /// Drive the line low.
    SetLow,
    /// Release the line, so that it is pulled high.
    SetHigh,
    /// Read the clock.
    Now,
    /// Ask whether the line is low.
    IsLow,
    /// Ask whether the line is high.
    IsHigh,
}

/// The answer to an operation.
#[derive(Debug, PartialEq, Eq)]
pub enum Event<DeviceError> {
    /// `SetLow` or `SetHigh` returned this.
    Driven(Result<(), DeviceError>),
    /// `Now` returned this instant.
    Clock(Microseconds),
    /// `IsLow` or `IsHigh` returned this.
    Level(bool),
}

/// A wait for a level of the line.
#[derive(Debug, Clone, Copy, PartialEq, Eq, Structural)]
pub enum Wait {
    /// For the sensor to pull the line low: it has seen the request.
    Acknowledge,
    /// For the sensor to let the line rise again.
    Release,
    /// For the edge with this index: the line flips at each.
    Edge(usize),
}

/// Where an exchange stands. Every phase but the last has one operation
/// pending.
#[derive(Debug, Clone, Copy, PartialEq, Eq, Structural)]
pub enum Phase {
    /// The line is to be driven low, which begins the request.
    PullLow,
    /// The clock is to be read for the start of the request pulse.
    PulseStart,
    /// The line is held low since this instant; the clock is polled until the
    /// pulse is long enough.
    Pulse(Microseconds),
    /// The line is to be released, which ends the request.
    LetGo,
    /// The clock is to be read for the start of this wait.
    Arm(Wait),
    /// This wait began at this instant and is undecided; the clock is to be
    /// read for the next poll.
    Watch(Wait, Microseconds),
    /// This wait began at the first instant, the clock showed the second a
    /// moment ago, and the line is to be probed.
    Probe(Wait, Microseconds, Microseconds),
    /// The timing-critical part is over, well or badly; the line is to be
    /// released once more so that it idles high.
    Restore,
    /// Nothing is left to do: the outcome stands.
    Done,
}

impl Action {
    /// Whether `event` is an answer to this operation.
    pub open spec fn answered_by<DeviceError>(self, event: Event<DeviceError>) -> bool {
        match self {
            Action::SetLow | Action::SetHigh => event is Driven,
            Action::Now => event is Clock,
            Action::IsLow | Action::IsHigh => event is Level,
        }
    }
}

impl Wait {
    /// The question that this wait asks about the line at each poll.
    pub open spec fn probe(self) -> Action {
        match self {
            Wait::Acknowledge => Action::IsLow,
            Wait::Release => Action::IsHigh,
            Wait::Edge(_) => Action::IsHigh,
        }
    }

    /// Whether the answer to the probe ends this wait. The handshake waits for
    /// the line to be low, then high. The line is high when the first edge is
    /// awaited, so an edge with an even index is there once the line is no
    /// longer high, and one with an odd index once it is high again.
    pub open spec fn met(self, answer: bool) -> bool {
        match self {
            Wait::Acknowledge => answer,
            Wait::Release => answer,
            Wait::Edge(index) => (index % 2 == 0) != answer,
        }
    }

    /// The error that this wait ends in if it times out after `elapsed`.
    pub open spec fn missed<DeviceError>(self, elapsed: Microseconds) -> DhtError<DeviceError> {
        match self {
            Wait::Acknowledge => DhtError::Handshake(0),
            Wait::Release => DhtError::Handshake(1),
            Wait::Edge(_) => DhtError::Timeout(elapsed),
        }
    }
}

/// The state of an exchange.
pub struct ExchangeState<DeviceError> {
    /// Where the exchange stands.
    pub phase: Phase,
    /// The durations captured so far; those not yet captured are zero.
    pub cycles: Seq<u32>,
    /// The error that ended the timing-critical part, if one did.
    pub failure: Option<DhtError<DeviceError>>,
}

impl<DeviceError> ExchangeState<DeviceError> {
    /// The state before anything has happened.
    pub open spec fn initial() -> Self {
        ExchangeState {
            phase: Phase::PullLow,
            cycles: Seq::new(EDGES as nat, |i: int| 0u32),
            failure: None,
        }
    }

    /// What holds of every state that an exchange reaches: there is room for
    /// all edges, the edge awaited is one of them, and a failure has ended the
    /// timing-critical part.
    pub open spec fn wf(self) -> bool {
        &&& self.cycles.len() == EDGES
        &&& match self.phase {
            Phase::Arm(Wait::Edge(index)) => index < EDGES,
            Phase::Watch(Wait::Edge(index), _) => index < EDGES,
            Phase::Probe(Wait::Edge(index), _, _) => index < EDGES,
            _ => true,
        }
        &&& self.failure is Some ==> !self.timing_critical()
    }

    /// The operation whose answer the exchange waits for, if it is not done.
    pub open spec fn pending(self) -> Option<Action> {
        match self.phase {
            Phase::PullLow => Some(Action::SetLow),
            Phase::PulseStart => Some(Action::Now),
            Phase::Pulse(_) => Some(Action::Now),
            Phase::LetGo => Some(Action::SetHigh),
            Phase::Arm(_) => Some(Action::Now),
            Phase::Watch(_, _) => Some(Action::Now),
            Phase::Probe(wait, _, _) => Some(wait.probe()),
            Phase::Restore => Some(Action::SetHigh),
            Phase::Done => None,
        }
    }

    /// Whether `event` answers the pending operation.
    pub open spec fn accepts(self, event: Event<DeviceError>) -> bool {
        self.pending() matches Some(action) && action.answered_by(event)
    }

    /// Whether the exchange is in its timing-critical part, in which a delay
    /// of some tens of microseconds between two operations corrupts the
    /// reading: from the first operation until the last edge is captured or
    /// something fails.
    pub open spec fn timing_critical(self) -> bool {
        !(self.phase is Restore || self.phase is Done)
    }

    /// This state moved on to `phase`.
    pub open spec fn at(self, phase: Phase) -> Self {
        ExchangeState { phase, cycles: self.cycles, failure: self.failure }
    }

    /// This state after `error` ended its timing-critical part.
    pub open spec fn failed(self, error: DhtError<DeviceError>) -> Self {
        ExchangeState { phase: Phase::Restore, cycles: self.cycles, failure: Some(error) }
    }

    /// This state after `wait`, begun at `start`, met its condition with
    /// `elapsed` on the clock. The handshake goes on to its next wait. An edge
    /// goes into the buffer, and the one after it is awaited if it was not the
    /// last.
    pub open spec fn arrived(self, wait: Wait, elapsed: Microseconds) -> Self {
        match wait {
            Wait::Acknowledge => self.at(Phase::Arm(Wait::Release)),
            Wait::Release => self.at(Phase::Arm(Wait::Edge(0))),
            Wait::Edge(index) => ExchangeState {
                phase: if index + 1 < EDGES {
                    Phase::Arm(Wait::Edge((index + 1) as usize))
                } else {
                    Phase::Restore
                },
                cycles: self.cycles.update(index as int, elapsed.0),
                failure: self.failure,
            },
        }
    }

    /// The state that follows this one when `event` comes in.
    ///
    /// An event that does not answer the pending operation changes nothing.
    /// A pin that cannot be driven fails the exchange with its error, except
    /// in the last step, where the error is dropped: the outcome is that of the
    /// timing-critical part. The request pulse ends at the first clock reading
    /// that is at least [`REQUEST_PULSE`] after its start. A wait ends as
    /// [`Waiter::verdict`] says, with [`EDGE_TIMEOUT`] as its timeout.
    pub open spec fn next(self, event: Event<DeviceError>) -> Self {
        match (self.phase, event) {
            (Phase::PullLow, Event::Driven(Ok(_))) => self.at(Phase::PulseStart),
            (Phase::PullLow, Event::Driven(Err(error))) => self.failed(
                DhtError::DeviceError(error),
            ),
            (Phase::PulseStart, Event::Clock(start)) => self.at(Phase::Pulse(start)),
            (Phase::Pulse(start), Event::Clock(now)) => {
                let pulse = Waiter { start, timeout: REQUEST_PULSE };
                if pulse.verdict(Sample { now, condition: false }) is Some {
                    self.at(Phase::LetGo)
                } else {
                    self
                }
            },
            (Phase::LetGo, Event::Driven(Ok(_))) => self.at(Phase::Arm(Wait::Acknowledge)),
            (Phase::LetGo, Event::Driven(Err(error))) => self.failed(
                DhtError::DeviceError(error),
            ),
            (Phase::Arm(wait), Event::Clock(start)) => self.at(Phase::Watch(wait, start)),
            (Phase::Watch(wait, start), Event::Clock(now)) => self.at(
                Phase::Probe(wait, start, now),
            ),
            (Phase::Probe(wait, start, now), Event::Level(answer)) => {
                let waiter = Waiter { start, timeout: EDGE_TIMEOUT };
                match waiter.verdict(Sample { now, condition: wait.met(answer) }) {
                    Some(Ok(elapsed)) => self.arrived(wait, elapsed),
                    Some(Err(elapsed)) => self.failed(wait.missed(elapsed)),
                    None => self.at(Phase::Watch(wait, start)),
                }
            },
            (Phase::Restore, Event::Driven(_)) => self.at(Phase::Done),
            _ => self,
        }
    }

    /// What the exchange has to report once it is done: the failure of the
    /// timing-critical part if there was one, else what the captured
    /// durations decode to.
    pub open spec fn outcome(self) -> Result<SensorReading, DhtError<DeviceError>> {
        match self.failure {
            Some(error) => Err(error),
            None => decode_of(self.cycles),
        }
    }
}

/// An exchange with the sensor in progress.
pub struct Exchange<DeviceError> {
    phase: Phase,
    cycles: [u32; EDGES],
    failure: Option<DhtError<DeviceError>>,
}

impl<DeviceError> View for Exchange<DeviceError> {
    type V = ExchangeState<DeviceError>;

    closed spec fn view(&self) -> ExchangeState<DeviceError> {
        ExchangeState { phase: self.phase, cycles: self.cycles@, failure: self.failure }
    }
}

impl<DeviceError> Exchange<DeviceError> {
    #[verifier::type_invariant]
    spec fn well_formed(self) -> bool {
        self@.wf()
    }

    /// An exchange of which nothing has happened yet.
    pub fn new() -> (exchange: Self)
        ensures
            exchange@ == ExchangeState::<DeviceError>::initial(),
            exchange@.wf(),
    {
        let exchange = Exchange { phase: Phase::PullLow, cycles: [0; EDGES], failure: None };
        assert(exchange@.cycles =~= ExchangeState::<DeviceError>::initial().cycles);
        exchange
    }

    /// The operation to carry out next, or `None` when the exchange is done.
    pub fn action(&self) -> (action: Option<Action>)
        ensures
            action == self@.pending(),
            action is None <==> self@.phase is Done,
            self@.wf(),
    {
        proof {
            use_type_invariant(self);
        }
        match self.phase {
            Phase::PullLow => Some(Action::SetLow),
            Phase::PulseStart | Phase::Pulse(_) | Phase::Arm(_) | Phase::Watch(_, _) => Some(
                Action::Now,
            ),
            Phase::Probe(Wait::Acknowledge, _, _) => Some(Action::IsLow),
            Phase::Probe(_, _, _) => Some(Action::IsHigh),
            Phase::LetGo | Phase::Restore => Some(Action::SetHigh),
            Phase::Done => None,
        }
    }

    /// Whether the exchange is in its timing-critical part. While this holds
    /// the caller must not be interrupted between two operations.
    pub fn is_timing_critical(&self) -> (critical: bool)
        ensures
            critical == self@.timing_critical(),
    {
        !matches!(self.phase, Phase::Restore | Phase::Done)
    }

    /// Whether nothing is left to do.
    pub fn is_done(&self) -> (done: bool)
        ensures
            done == (self@.phase is Done),
            done == (self@.pending() is None),
    {
        matches!(self.phase, Phase::Done)
    }

    /// Takes the answer to the pending operation and moves on.
    pub fn step(&mut self, event: Event<DeviceError>)
        ensures
            final(self)@ == old(self)@.next(event),
            final(self)@.wf(),
    {
        proof {
            use_type_invariant(&*self);
        }
        match (self.phase, event) {
            (Phase::PullLow, Event::Driven(Ok(_))) => {
                self.phase = Phase::PulseStart;
            },
            (Phase::PullLow, Event::Driven(Err(error))) => {
                self.phase = Phase::Restore;
                self.failure = Some(DhtError::from(error));
            },
            (Phase::PulseStart, Event::Clock(start)) => {
                self.phase = Phase::Pulse(start);
            },
            (Phase::Pulse(start), Event::Clock(now)) => {
                let pulse = Waiter::new(start, REQUEST_PULSE);
                if pulse.poll(now, false).is_some() {
                    self.phase = Phase::LetGo;
                }
            },
            (Phase::LetGo, Event::Driven(Ok(_))) => {
                self.phase = Phase::Arm(Wait::Acknowledge);
            },
            (Phase::LetGo, Event::Driven(Err(error))) => {
                self.phase = Phase::Restore;
                self.failure = Some(DhtError::from(error));
            },
            (Phase::Arm(wait), Event::Clock(start)) => {
                self.phase = Phase::Watch(wait, start);
            },
            (Phase::Watch(wait, start), Event::Clock(now)) => {
                self.phase = Phase::Probe(wait, start, now);
            },
            (Phase::Probe(wait, start, now), Event::Level(answer)) => {
                let condition = match wait {
                    Wait::Acknowledge | Wait::Release => answer,
                    Wait::Edge(index) => (index % 2 == 0) != answer,
                };
                let waiter = Waiter::new(start, EDGE_TIMEOUT);
                match waiter.poll(now, condition) {
                    Some(Ok(elapsed)) => match wait {
                        Wait::Acknowledge => {
                            self.phase = Phase::Arm(Wait::Release);
                        },
                        Wait::Release => {
                            self.phase = Phase::Arm(Wait::Edge(0));
                        },
                        Wait::Edge(index) => {
                            self.cycles[index] = elapsed.0;
                            self.phase = if index + 1 < EDGES {
                                Phase::Arm(Wait::Edge(index + 1))
                            } else {
                                Phase::Restore
                            };
                        },
                    },
                    Some(Err(elapsed)) => {
                        self.phase = Phase::Restore;
                        self.failure = Some(
                            match wait {
                                Wait::Acknowledge => DhtError::Handshake(0),
                                Wait::Release => DhtError::Handshake(1),
                                Wait::Edge(_) => DhtError::Timeout(elapsed),
                            },
                        );
                    },
                    None => {
                        self.phase = Phase::Watch(wait, start);
                    },
                }
            },
            (Phase::Restore, Event::Driven(_)) => {
                self.phase = Phase::Done;
            },
            _ => {},
        }
    }

    /// The outcome of the exchange: `None` as long as it is not done, then the
    /// failure of its timing-critical part, or the reading that the captured
    /// durations decode to, or the checksum error that they give.
    pub fn finish(self) -> (outcome: Option<Result<SensorReading, DhtError<DeviceError>>>)
        ensures
            self@.phase is Done ==> outcome == Some(self@.outcome()),
            !(self@.phase is Done) ==> outcome is None,
    {
        if !self.is_done() {
            return None;
        }
        match self.failure {
            Some(error) => Some(Err(error)),
            None => Some(decode(&self.cycles)),
        }
    }
}

} // verus!
