use rusty_chess_clock::{Clock, ClockMode, ClockState, Duration, Instant};

fn at(millis: u64) -> Instant {
    Instant::from_millis(millis)
}

/// The default clock is at 0, stopped and counting up.
#[test]
fn test_clock_default() {
    let clock = Clock::default();
    assert_eq!(clock.format(at(0)), "00:00");
    assert_eq!(clock.state(), ClockState::Stopped);
    assert_eq!(clock.mode(), ClockMode::CountUp);
}

/// The clock behaves as expected when counting up.
#[test]
fn test_clock_count_up() {
    let mut clock = Clock::new(ClockMode::CountUp, None);
    assert_eq!(clock.format(at(0)), "00:00");

    clock.start(at(0));
    assert_eq!(clock.format(at(1000)), "00:01");

    clock.stop(at(1000));
    assert_eq!(clock.format(at(2000)), "00:01");

    clock.start(at(2000));
    assert_eq!(clock.format(at(3000)), "00:02");

    clock.reset(Some(Duration::from_secs(5)));
    assert_eq!(clock.format(at(3000)), "00:05");

    clock.zero();
    assert_eq!(clock.format(at(3000)), "00:00");
}

#[test]
fn test_clock_count_down() {
    let mut clock = Clock::new(ClockMode::CountDown, None);
    assert_eq!(clock.format(at(0)), "10:00");

    clock.start(at(0));
    assert_eq!(clock.format(at(1000)), "09:59");

    clock.stop(at(1000));
    assert_eq!(clock.format(at(2000)), "09:59");

    clock.start(at(2000));
    assert_eq!(clock.format(at(3000)), "09:58");

    clock.reset(Some(Duration::from_secs(5)));
    assert_eq!(clock.format(at(3000)), "00:05");

    clock.zero();
    assert_eq!(clock.format(at(3000)), "00:00");

    clock.reset(Some(Duration::from_millis(750)));
    assert_eq!(clock.format(at(3000)), "00:01");
    assert!(matches!(clock.state(), ClockState::Stopped));

    clock.start(at(3000));
    assert!(matches!(clock.state(), ClockState::Running(_)));

    clock.read_and_update(at(4000));
    assert_eq!(clock.state(), ClockState::Stopped);
    assert_eq!(clock.format(at(4000)), "00:00");
}

#[test]
fn test_clock_add_subtract() {
    let mut clock = Clock::new(ClockMode::CountUp, None);
    assert_eq!(clock.format(at(0)), "00:00");

    clock.add(Duration::from_secs(5));
    assert_eq!(clock.format(at(0)), "00:05");

    clock.subtract(Duration::from_secs(2), at(0));
    assert_eq!(clock.format(at(0)), "00:03");

    clock.subtract(Duration::from_secs(5), at(0));
    assert_eq!(clock.format(at(0)), "00:00");
}

#[test]
fn test_running_clock_add_subtract() {
    let mut clock = Clock::new(ClockMode::CountUp, None);
    assert_eq!(clock.format(at(0)), "00:00");

    clock.start(at(0));
    assert_eq!(clock.format(at(5000)), "00:05");

    clock.add(Duration::from_secs(5));
    assert_eq!(clock.format(at(5000)), "00:10");

    clock.subtract(Duration::from_secs(2), at(5000));
    assert_eq!(clock.format(at(5000)), "00:08");

    clock.subtract(Duration::from_secs(10), at(5000));
    assert_eq!(clock.format(at(5000)), "00:00");
    assert_eq!(clock.state(), ClockState::Stopped);
}

/// A count-down clock started with remaining `R` reads `max(0, R - dt)` at
/// any later instant, and never more than `R`.
#[test]
fn countdown_reads_allotment_less_time_passed() {
    let mut clock = Clock::new(ClockMode::CountDown, Some(Duration::from_millis(10500)));
    clock.start(at(2000));
    assert_eq!(clock.read(at(2000)).as_millis(), 10500);
    assert_eq!(clock.read(at(2001)).as_millis(), 10499);
    assert_eq!(clock.read(at(7000)).as_millis(), 5500);
    assert_eq!(clock.read(at(12500)).as_millis(), 0);
    assert_eq!(clock.read(at(999999)).as_millis(), 0);
}

/// A plain `read` at zero does not stop the clock; `read_and_update` does,
/// leaving an empty bank.
#[test]
fn countdown_auto_stops_only_on_mutating_read() {
    let mut clock = Clock::new(ClockMode::CountDown, Some(Duration::from_millis(500)));
    clock.start(at(0));
    assert_eq!(clock.read(at(800)).as_millis(), 0);
    assert!(matches!(clock.state(), ClockState::Running(_)));

    let t = clock.read_and_update(at(800));
    assert_eq!(t.as_millis(), 0);
    assert_eq!(clock.state(), ClockState::Stopped);
    assert_eq!(clock.read(at(9000)).as_millis(), 0);
}

/// `start` on a running clock and `stop` on a stopped clock are no-ops.
#[test]
fn start_and_stop_are_idempotent() {
    let mut clock = Clock::new(ClockMode::CountDown, Some(Duration::from_secs(60)));
    clock.start(at(0));
    let before = clock.state();
    clock.start(at(5000));
    assert_eq!(clock.state(), before);
    assert_eq!(clock.read(at(10000)).as_millis(), 50000);

    clock.stop(at(10000));
    assert_eq!(clock.read(at(10000)).as_millis(), 50000);
    clock.stop(at(20000));
    assert_eq!(clock.state(), ClockState::Stopped);
    assert_eq!(clock.read(at(20000)).as_millis(), 50000);
}

/// After `finish`, no operation brings the clock back to life.
#[test]
fn finished_clock_stays_finished() {
    let mut clock = Clock::new(ClockMode::CountDown, Some(Duration::from_secs(60)));
    clock.start(at(0));
    clock.finish(at(10000));
    assert_eq!(clock.state(), ClockState::Finished);
    assert_eq!(clock.read(at(10000)).as_millis(), 50000);

    clock.start(at(11000));
    assert_eq!(clock.state(), ClockState::Finished);
    clock.stop(at(12000));
    assert_eq!(clock.state(), ClockState::Finished);
    clock.add(Duration::from_secs(5));
    assert_eq!(clock.state(), ClockState::Finished);
    clock.subtract(Duration::from_secs(5), at(13000));
    assert_eq!(clock.state(), ClockState::Finished);
    clock.read_and_update(at(14000));
    assert_eq!(clock.state(), ClockState::Finished);
}

/// `read_running` reports only the current run segment.
#[test]
fn read_running_reports_current_segment() {
    let mut clock = Clock::new(ClockMode::CountUp, None);
    assert_eq!(clock.read_running(at(500)).as_millis(), 0);
    clock.start(at(1000));
    assert_eq!(clock.read_running(at(3500)).as_millis(), 2500);
    clock.stop(at(3500));
    assert_eq!(clock.read_running(at(4000)).as_millis(), 0);
    clock.start(at(4000));
    assert_eq!(clock.read_running(at(4200)).as_millis(), 200);
}

/// `state_and_update` reconciles before answering.
#[test]
fn state_and_update_is_authoritative() {
    let mut clock = Clock::new(ClockMode::CountDown, Some(Duration::from_millis(100)));
    clock.start(at(0));
    assert!(matches!(clock.state(), ClockState::Running(_)));
    assert_eq!(clock.state_and_update(at(100)), ClockState::Stopped);
}
