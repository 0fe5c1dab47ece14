//! Waiting for a condition against the clock, one poll at a time.

use crate::time::Microseconds;
use vstd::prelude::*;

verus! {

/// What one look at the clock and at the condition found.
#[derive(Debug, Clone, Copy, PartialEq, Eq, Structural)]
pub struct Sample {
    /// The clock when the condition was evaluated.
    pub now: Microseconds,
    /// Whether the condition held.
    pub condition: bool,
}

/// A wait in progress: it began at `start` and gives up once `timeout`
/// microseconds have passed.
///
/// The wait itself is a busy loop of the caller, which reads the clock, then
/// evaluates the condition, and hands both to [`Waiter::poll`] until that
/// returns a verdict. No sleep lies between two polls: the timings that are
/// measured this way are a few tens of microseconds long.
#[derive(Debug, Clone, Copy, PartialEq, Eq, Structural)]
pub struct Waiter {
    /// The clock when the wait began.
    pub start: Microseconds,
    /// Microseconds after which the wait is given up.
    pub timeout: u32,
}

impl Waiter {
    /// Time from the start of the wait to `now`, as the wrapping counter shows it.
    pub open spec fn elapsed(self, now: Microseconds) -> Microseconds {
        Microseconds(now.ticks_since(self.start) as u32)
    }

    /// What one poll decides. The condition is looked at first: if it holds
    /// the wait has succeeded, however late. Else the wait fails if the
    /// timeout has passed, and is undecided if not. Either verdict carries the
    /// elapsed time.
    pub open spec fn verdict(self, sample: Sample) -> Option<Result<Microseconds, Microseconds>> {
        if sample.condition {
            Some(Ok(self.elapsed(sample.now)))
        } else if self.elapsed(sample.now).0 >= self.timeout {
            Some(Err(self.elapsed(sample.now)))
        } else {
            None
        }
    }

    /// What a whole wait decides that polls `samples` in this order: the
    /// verdict of the first sample that has one.
    pub open spec fn outcome(self, samples: Seq<Sample>) -> Option<
        Result<Microseconds, Microseconds>,
    >
        decreases samples.len(),
    {
        if samples.len() == 0 {
            None
        } else if self.verdict(samples.first()) is Some {
            self.verdict(samples.first())
        } else {
            self.outcome(samples.drop_first())
        }
    }

    /// Begins a wait at the instant `start`.
    pub fn new(start: Microseconds, timeout: u32) -> (waiter: Waiter)
        ensures
            waiter == (Waiter { start, timeout }),
    {
        Waiter { start, timeout }
    }

    /// Judges one poll: `now` is the clock, read first, and `condition` whether
    /// the awaited condition held, evaluated after it.
    ///
    /// Returns `Some(Ok(elapsed))` if the condition held, `Some(Err(elapsed))`
    /// if it did not and at least `timeout` microseconds have passed, and
    /// `None` if the caller is to poll again.
    pub fn poll(&self, now: Microseconds, condition: bool) -> (verdict: Option<
        Result<Microseconds, Microseconds>,
    >)
        ensures
            verdict == self.verdict(Sample { now, condition }),
            verdict matches Some(Ok(elapsed)) ==> condition && elapsed.0 == now.ticks_since(
                self.start,
            ),
            verdict matches Some(Err(elapsed)) ==> !condition && elapsed.0 == now.ticks_since(
                self.start,
            ) && elapsed.0 >= self.timeout,
            verdict is None ==> !condition && now.ticks_since(self.start) < self.timeout,
    {
        let since_start = now.since(self.start);
        if condition {
            Some(Ok(since_start))
        } else if since_start.0 >= self.timeout {
            Some(Err(since_start))
        } else {
            None
        }
    }
}

/// A wait ends at the first poll that finds the condition true or the timeout
/// passed, and with that poll's verdict.
///
/// The result `k` is the number of polls that came before the deciding one.
/// All of them found the condition false and less than `timeout` elapsed. If
/// there is no deciding poll among `samples`, `k` is their number and the
/// wait is still undecided. An `Err` always carries at least `timeout`, and
/// comes only if no poll so far found the condition true.
pub proof fn law_wait_ends_at_first_verdict(waiter: Waiter, samples: Seq<Sample>) -> (k: int)
    ensures
        0 <= k <= samples.len(),
        forall|j: int| 0 <= j < k ==> waiter.verdict(#[trigger] samples[j]) is None,
        forall|j: int|
            0 <= j < k ==> !(#[trigger] samples[j]).condition && waiter.elapsed(samples[j].now).0
                < waiter.timeout,
        k == samples.len() <==> waiter.outcome(samples) is None,
        k < samples.len() ==> waiter.outcome(samples) == waiter.verdict(samples[k]),
        waiter.outcome(samples) matches Some(Ok(elapsed)) ==> samples[k].condition && elapsed
            == waiter.elapsed(samples[k].now),
        waiter.outcome(samples) matches Some(Err(elapsed)) ==> !samples[k].condition && elapsed
            == waiter.elapsed(samples[k].now) && elapsed.0 >= waiter.timeout,
    decreases samples.len(),
{
    if samples.len() == 0 {
        0
    } else if waiter.verdict(samples.first()) is Some {
        0
    } else {
        let rest = samples.drop_first();
        let k = law_wait_ends_at_first_verdict(waiter, rest);
        assert forall|j: int| 0 <= j < k + 1 implies waiter.verdict(#[trigger] samples[j])
            is None by {
            if j > 0 {
                assert(samples[j] == rest[j - 1]);
            }
        }
        if k < rest.len() {
            assert(samples[k + 1] == rest[k]);
        }
        k + 1
    }
}

/// A wait fails as soon as a poll finds the timeout passed, if no poll up to
/// then found the condition true, and it fails with at least `timeout`
/// elapsed.
pub proof fn law_wait_times_out(waiter: Waiter, samples: Seq<Sample>, late: int)
    requires
        0 <= late < samples.len(),
        forall|j: int| 0 <= j <= late ==> !(#[trigger] samples[j]).condition,
        waiter.elapsed(samples[late].now).0 >= waiter.timeout,
    ensures
        waiter.outcome(samples) matches Some(Err(elapsed)) && elapsed.0 >= waiter.timeout,
{
    let k = law_wait_ends_at_first_verdict(waiter, samples);
    if k > late {
        assert(waiter.verdict(samples[late]) is None);
    }
}

/// A wait whose condition is first found true by a poll taken no later than
/// `timeout` after the start succeeds with at most `timeout` elapsed.
///
/// Without the bound on that poll the elapsed time of a success can be any
/// value: the condition is looked at before the timeout is.
pub proof fn law_wait_succeeds_in_window(waiter: Waiter, samples: Seq<Sample>, hit: int)
    requires
        0 <= hit < samples.len(),
        samples[hit].condition,
        forall|j: int|
            0 <= j < hit ==> !(#[trigger] samples[j]).condition && waiter.elapsed(samples[j].now).0
                < waiter.timeout,
        waiter.elapsed(samples[hit].now).0 <= waiter.timeout,
    ensures
        waiter.outcome(samples) matches Some(Ok(elapsed)) && elapsed == waiter.elapsed(
            samples[hit].now,
        ) && elapsed.0 <= waiter.timeout,
{
    let k = law_wait_ends_at_first_verdict(waiter, samples);
    if k < hit {
        assert(waiter.verdict(samples[k]) is None);
    }
    if k > hit {
        assert(waiter.verdict(samples[hit]) is None);
    }
}

} // verus!
