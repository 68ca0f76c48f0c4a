use repeater::{join_outcome, sum, Repeater, RepeaterError, Step, TickLoop};

/// Drives a loop against a simulated clock: the owner sets the flag at
/// `cancel_at` milliseconds, each flag check reads it at the current time,
/// sleeping advances the clock exactly and invocations take no time.
/// Returns the ticks delivered and the time at which the loop ended.
fn simulate(interval_ms: u64, cancel_at: u64) -> (Vec<u32>, u64) {
    let mut l = TickLoop::new(interval_ms);
    let mut now: u64 = 0;
    let mut ticks = Vec::new();
    loop {
        match l.step(now >= cancel_at) {
            Step::Exit => return (ticks, now),
            Step::Fire { sleep_ms, tick } => {
                now += sleep_ms;
                ticks.push(tick);
            }
        }
    }
}

#[test]
fn sum_adds() {
    assert_eq!(sum(2, 3), 5);
    assert_eq!(sum(-7, 3), -4);
    assert_eq!(sum(0, 0), 0);
}

#[test]
fn sum_wraps_on_overflow() {
    assert_eq!(sum(i32::MAX, 1), i32::MIN);
    assert_eq!(sum(i32::MIN, -1), i32::MAX);
    assert_eq!(sum(i32::MAX, i32::MAX), -2);
}

#[test]
fn first_round_sleeps_then_fires_tick_zero() {
    let mut l = TickLoop::new(50);
    assert!(!l.is_stopped());
    assert_eq!(l.step(false), Step::Fire { sleep_ms: 50, tick: 0 });
}

#[test]
fn ticks_count_up_without_gaps() {
    let mut l = TickLoop::new(5);
    let mut ticks = Vec::new();
    for _ in 0..10 {
        if let Step::Fire { tick, .. } = l.step(false) {
            ticks.push(tick);
        }
    }
    assert_eq!(ticks, (0..10).collect::<Vec<u32>>());
}

#[test]
fn cancel_before_first_check_fires_nothing() {
    let mut l = TickLoop::new(10);
    assert_eq!(l.step(true), Step::Exit);
    assert!(l.is_stopped());
}

#[test]
fn ended_loop_stays_ended() {
    let mut l = TickLoop::new(10);
    assert_eq!(l.step(false), Step::Fire { sleep_ms: 10, tick: 0 });
    assert_eq!(l.step(true), Step::Exit);
    for _ in 0..5 {
        assert_eq!(l.step(false), Step::Exit);
    }
}

#[test]
fn invocations_by_time_are_floor_of_quotient() {
    // With no cancellation before t, the loop has fired floor(t / d) times by t.
    for (d, t) in [(50u64, 170u64), (10, 95), (7, 7), (7, 6), (3, 0)] {
        let mut l = TickLoop::new(d);
        let mut fired_by_t: u64 = 0;
        let mut now: u64 = 0;
        while let Step::Fire { sleep_ms, .. } = l.step(now > t) {
            now += sleep_ms;
            if now <= t {
                fired_by_t += 1;
            }
        }
        assert_eq!(fired_by_t, t / d);
    }
}

#[test]
fn scenario_fifty_ms_for_one_seventy() {
    let (ticks, ended) = simulate(50, 170);
    // The check at 150 ms still reads the flag clear, so one more
    // invocation comes at 200 ms: three ticks, plus one within the
    // tolerance, and the loop ends less than one interval after the flag.
    assert_eq!(ticks, vec![0, 1, 2, 3]);
    assert!(ended - 170 <= 50);
}

#[test]
fn scenario_immediate_shutdown() {
    let (ticks, ended) = simulate(10, 0);
    assert_eq!(ticks, Vec::<u32>::new());
    assert_eq!(ended, 0);
}

#[test]
fn new_repeater_holds_its_worker() {
    let r = Repeater::new(7u8, 500);
    assert!(r.is_running());
    assert!(!r.is_cancelled());
    assert_eq!(r.interval_ms(), 500);
}

#[test]
fn shutdown_hands_the_worker_back_once() {
    let mut r = Repeater::new(String::from("worker"), 50);
    assert_eq!(r.shutdown(), Some(String::from("worker")));
    assert!(r.is_cancelled());
    assert!(!r.is_running());
    assert_eq!(r.shutdown(), None);
    assert!(r.is_cancelled());
    assert_eq!(r.interval_ms(), 50);
}

#[test]
fn join_failure_is_reported() {
    assert_eq!(join_outcome(true), Ok(()));
    assert_eq!(join_outcome(false), Err(RepeaterError::JoinFailure));
}
