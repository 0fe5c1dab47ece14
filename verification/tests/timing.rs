use dht22::time::Microseconds;
use dht22::waiter::{Sample, Waiter};

#[test]
fn elapsed_time_across_wraparound() {
    let start = Microseconds(0xFFFF_FFF0);
    let now = Microseconds(0x0000_0010);
    assert_eq!(now.since(start), Microseconds(0x20));
    assert_eq!(now.since(start).0, 32);
}

#[test]
fn elapsed_time_without_wraparound() {
    assert_eq!(Microseconds(1_200).since(Microseconds(200)), Microseconds(1_000));
    assert_eq!(Microseconds(7).since(Microseconds(7)), Microseconds(0));
    assert_eq!(Microseconds(u32::MAX).since(Microseconds(0)), Microseconds(u32::MAX));
}

#[test]
fn elapsed_time_of_one_tick_over_the_maximum() {
    assert_eq!(Microseconds(0).since(Microseconds(u32::MAX)), Microseconds(1));
}

#[test]
fn elapsed_time_when_now_is_below_start() {
    // The counter went round: from 10 up to the maximum, over it, and on to 5.
    assert_eq!(Microseconds(5).since(Microseconds(10)), Microseconds(u32::MAX - 4));
}

#[test]
fn microseconds_are_ordered_by_their_count() {
    assert!(Microseconds(3) < Microseconds(4));
    assert_eq!(Microseconds(9).clone(), Microseconds(9));
    assert_ne!(Microseconds(9), Microseconds(10));
}

#[test]
fn waiter_new_keeps_start_and_timeout() {
    let waiter = Waiter::new(Microseconds(17), 100);
    assert_eq!(waiter.start, Microseconds(17));
    assert_eq!(waiter.timeout, 100);
    assert_eq!(waiter, Waiter { start: Microseconds(17), timeout: 100 });
}

#[test]
fn poll_is_undecided_inside_the_window() {
    let waiter = Waiter::new(Microseconds(1_000), 100);
    assert_eq!(waiter.poll(Microseconds(1_000), false), None);
    assert_eq!(waiter.poll(Microseconds(1_099), false), None);
}

#[test]
fn poll_fails_at_the_boundary() {
    let waiter = Waiter::new(Microseconds(1_000), 100);
    assert_eq!(waiter.poll(Microseconds(1_100), false), Some(Err(Microseconds(100))));
    assert_eq!(waiter.poll(Microseconds(1_101), false), Some(Err(Microseconds(101))));
}

#[test]
fn poll_succeeds_with_the_elapsed_time() {
    let waiter = Waiter::new(Microseconds(1_000), 100);
    assert_eq!(waiter.poll(Microseconds(1_000), true), Some(Ok(Microseconds(0))));
    assert_eq!(waiter.poll(Microseconds(1_042), true), Some(Ok(Microseconds(42))));
    assert_eq!(waiter.poll(Microseconds(1_100), true), Some(Ok(Microseconds(100))));
}

#[test]
fn poll_looks_at_the_condition_before_the_timeout() {
    let waiter = Waiter::new(Microseconds(1_000), 100);
    assert_eq!(waiter.poll(Microseconds(1_500), true), Some(Ok(Microseconds(500))));
}

#[test]
fn poll_with_zero_timeout_fails_at_once() {
    let waiter = Waiter::new(Microseconds(5), 0);
    assert_eq!(waiter.poll(Microseconds(5), false), Some(Err(Microseconds(0))));
    assert_eq!(waiter.poll(Microseconds(5), true), Some(Ok(Microseconds(0))));
}

#[test]
fn poll_counts_across_wraparound() {
    let waiter = Waiter::new(Microseconds(0xFFFF_FFF0), 100);
    assert_eq!(waiter.poll(Microseconds(0x0000_0010), false), None);
    assert_eq!(waiter.poll(Microseconds(0x0000_0010), true), Some(Ok(Microseconds(32))));
    assert_eq!(waiter.poll(Microseconds(0x0000_0054), false), Some(Err(Microseconds(100))));
}

/// Polls a clock that advances by `tick` at each reading until the waiter has
/// a verdict. The condition holds from the instant `holds_from` on, if given.
fn wait_on_clock(
    start: u32,
    tick: u32,
    timeout: u32,
    holds_from: Option<u32>,
) -> (Result<Microseconds, Microseconds>, Vec<Sample>) {
    let mut clock = start;
    let waiter = Waiter::new(Microseconds(clock), timeout);
    let mut samples = Vec::new();
    loop {
        clock = clock.wrapping_add(tick);
        let now = Microseconds(clock);
        let condition = match holds_from {
            Some(instant) => clock.wrapping_sub(start) >= instant.wrapping_sub(start),
            None => false,
        };
        samples.push(Sample { now, condition });
        if let Some(verdict) = waiter.poll(now, condition) {
            return (verdict, samples);
        }
    }
}

#[test]
fn wait_times_out_when_the_condition_never_holds() {
    let (verdict, samples) = wait_on_clock(0, 3, 100, None);
    // Readings at 3, 6, ..., 99 are inside the window; 102 is the first outside.
    assert_eq!(verdict, Err(Microseconds(102)));
    assert_eq!(samples.len(), 34);
    match verdict {
        Err(elapsed) => assert!(elapsed.0 >= 100),
        Ok(_) => panic!("the condition never held"),
    }
}

#[test]
fn wait_succeeds_when_the_condition_holds_in_time() {
    let (verdict, samples) = wait_on_clock(500, 3, 100, Some(550));
    // The first reading at or after 550 is 551.
    assert_eq!(verdict, Ok(Microseconds(51)));
    assert_eq!(samples.len(), 17);
    match verdict {
        Ok(elapsed) => assert!(elapsed.0 <= 100),
        Err(_) => panic!("the condition held in time"),
    }
}

#[test]
fn wait_succeeds_exactly_at_the_boundary() {
    let (verdict, _) = wait_on_clock(0, 1, 100, Some(100));
    assert_eq!(verdict, Ok(Microseconds(100)));
}

#[test]
fn wait_measures_the_request_pulse() {
    let (verdict, _) = wait_on_clock(0xFFFF_FF00, 7, 1200, None);
    // 172 readings of 7 microseconds are 1204, the first count of 1200 or more.
    assert_eq!(verdict, Err(Microseconds(1204)));
}

#[test]
fn wait_ends_at_the_first_verdict() {
    let waiter = Waiter::new(Microseconds(0), 100);
    let samples = [
        Sample { now: Microseconds(10), condition: false },
        Sample { now: Microseconds(60), condition: false },
        Sample { now: Microseconds(130), condition: false },
        Sample { now: Microseconds(140), condition: true },
    ];
    let verdict = samples.iter().find_map(|sample| waiter.poll(sample.now, sample.condition));
    assert_eq!(verdict, Some(Err(Microseconds(130))));
}
