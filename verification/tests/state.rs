use nerd_watch::notice::Event;
use nerd_watch::state::{
    ContainerState, INITIAL_BACKOFF_SECS, MAX_BACKOFF_SECS, STABILITY_THRESHOLD_SECS,
};
use nerd_watch::time::{Clock, Duration, Instant};

fn before(now: Instant, secs: u64) -> Instant {
    Instant { nanos: now.nanos - Duration::from_secs(secs).nanos as i128 }
}

fn at(secs: u64) -> Instant {
    Instant { nanos: Duration::from_secs(secs).nanos as i128 }
}

fn millis(n: u128) -> Duration {
    Duration { nanos: n * 1_000_000 }
}

fn wait_millis(n: u64) {
    let start = std::time::Instant::now();
    while start.elapsed() < std::time::Duration::from_millis(n) {}
}

#[test]
fn new_state_has_initial_defaults() {
    let state = ContainerState::new();
    assert_eq!(state.backoff, Duration::from_secs(INITIAL_BACKOFF_SECS));
    assert_eq!(state.restart_count, 0);
    assert!(state.next_restart_at.is_none());
    assert!(state.stable_since.is_none());
    assert!(state.unhealthy_since.is_none());
}

#[test]
fn should_restart_now_when_no_prior_attempt() {
    let state = ContainerState::new();
    assert!(state.should_restart_now());
}

#[test]
fn should_not_restart_immediately_after_attempt() {
    let mut state = ContainerState::new();
    state.record_restart_attempt("test");
    assert!(!state.should_restart_now());
}

#[test]
fn backoff_doubles_and_caps_at_max() {
    let mut state = ContainerState::new();
    assert_eq!(state.backoff, Duration::from_secs(5));

    state.record_restart_attempt("test");
    assert_eq!(state.backoff, Duration::from_secs(10));

    state.record_restart_attempt("test");
    assert_eq!(state.backoff, Duration::from_secs(20));

    state.record_restart_attempt("test");
    assert_eq!(state.backoff, Duration::from_secs(40));

    for _ in 0..10 {
        state.record_restart_attempt("test");
    }
    assert_eq!(state.backoff, Duration::from_secs(MAX_BACKOFF_SECS));
}

#[test]
fn restart_count_increments() {
    let mut state = ContainerState::new();
    assert_eq!(state.restart_count, 0);

    state.record_restart_attempt("test");
    assert_eq!(state.restart_count, 1);

    state.record_restart_attempt("test");
    assert_eq!(state.restart_count, 2);
}

#[test]
fn on_stopped_clears_stable_and_unhealthy() {
    let mut state = ContainerState::new();
    state.stable_since = Some(state.clock.now());
    state.unhealthy_since = Some(state.clock.now());

    state.on_stopped();
    assert!(state.stable_since.is_none());
    assert!(state.unhealthy_since.is_none());
}

#[test]
fn on_maintenance_clears_stable_and_unhealthy() {
    let mut state = ContainerState::new();
    state.stable_since = Some(state.clock.now());
    state.unhealthy_since = Some(state.clock.now());

    state.on_maintenance();
    assert!(state.stable_since.is_none());
    assert!(state.unhealthy_since.is_none());
}

#[test]
fn on_unhealthy_clears_stable_and_sets_unhealthy_since() {
    let mut state = ContainerState::new();
    state.stable_since = Some(state.clock.now());
    assert!(state.unhealthy_since.is_none());

    state.on_unhealthy();
    assert!(state.stable_since.is_none());
    assert!(state.unhealthy_since.is_some());
}

#[test]
fn on_unhealthy_does_not_reset_existing_timestamp() {
    let mut state = ContainerState::new();
    state.on_unhealthy();
    let first = state.unhealthy_since.unwrap();

    wait_millis(10);
    state.on_unhealthy();
    let second = state.unhealthy_since.unwrap();

    assert_eq!(first, second);
}

#[test]
fn unhealthy_for_returns_none_when_healthy() {
    let state = ContainerState::new();
    assert!(state.unhealthy_for().is_none());
}

#[test]
fn unhealthy_for_returns_duration_when_unhealthy() {
    let mut state = ContainerState::new();
    state.on_unhealthy();
    wait_millis(10);
    let dur = state.unhealthy_for().unwrap();
    assert!(dur >= millis(10));
}

#[test]
fn on_health_starting_clears_both_timestamps() {
    let mut state = ContainerState::new();
    state.stable_since = Some(state.clock.now());
    state.unhealthy_since = Some(state.clock.now());

    state.on_health_starting();
    assert!(state.stable_since.is_none());
    assert!(state.unhealthy_since.is_none());
}

#[test]
fn on_healthy_clears_unhealthy_since() {
    let mut state = ContainerState::new();
    state.on_unhealthy();
    assert!(state.unhealthy_since.is_some());

    state.on_healthy("test");
    assert!(state.unhealthy_since.is_none());
}

#[test]
fn on_healthy_sets_stable_since() {
    let mut state = ContainerState::new();
    assert!(state.stable_since.is_none());

    state.on_healthy("test");
    assert!(state.stable_since.is_some());
}

#[test]
fn on_healthy_does_not_reset_backoff_without_prior_restarts() {
    let mut state = ContainerState::new();
    state.stable_since = Some(before(state.clock.now(), 120));
    state.on_healthy("test");

    assert_eq!(state.backoff, Duration::from_secs(INITIAL_BACKOFF_SECS));
    assert_eq!(state.restart_count, 0);
}

#[test]
fn on_healthy_resets_backoff_after_stability_threshold() {
    let mut state = ContainerState::new();
    state.record_restart_attempt("test");
    state.record_restart_attempt("test");
    assert_eq!(state.restart_count, 2);
    assert_eq!(state.backoff, Duration::from_secs(20));

    state.stable_since = Some(before(state.clock.now(), STABILITY_THRESHOLD_SECS + 1));
    let notice = state.on_healthy("test").unwrap();

    assert_eq!(state.backoff, Duration::from_secs(INITIAL_BACKOFF_SECS));
    assert_eq!(state.restart_count, 0);
    assert!(state.next_restart_at.is_none());
    assert_eq!(notice.container, "test");
    assert!(matches!(notice.event, Event::BackoffReset { uptime } if uptime.as_secs() >= 61));
}

#[test]
fn on_healthy_does_not_reset_backoff_before_stability_threshold() {
    let mut state = ContainerState::new();
    state.record_restart_attempt("test");
    state.record_restart_attempt("test");
    let backoff_before = state.backoff;
    let count_before = state.restart_count;

    state.stable_since = Some(before(state.clock.now(), 10));
    assert!(state.on_healthy("test").is_none());

    assert_eq!(state.backoff, backoff_before);
    assert_eq!(state.restart_count, count_before);
}

#[test]
fn should_restart_after_backoff_elapses() {
    let mut state = ContainerState::new();
    state.next_restart_at = Some(before(state.clock.now(), 1));
    assert!(state.should_restart_now());
}

#[test]
fn stability_threshold_is_met_to_the_nanosecond() {
    let mut state = ContainerState::new();
    state.record_restart_attempt_at(at(100));
    assert_eq!(state.on_healthy_at(at(200)), None);
    let almost = Instant { nanos: at(260).nanos - 1 };
    assert_eq!(state.on_healthy_at(almost), None);
    assert_eq!(state.restart_count, 1);
    let uptime = Duration::from_secs(60);
    assert_eq!(state.on_healthy_at(at(260)), Some(Event::BackoffReset { uptime }));
    assert_eq!(state.restart_count, 0);
    assert_eq!(state.stable_since, Some(at(200)));
}

#[test]
fn attempt_arms_the_backoff_that_was_in_force() {
    let mut state = ContainerState::new();
    let event = state.record_restart_attempt_at(at(100));
    assert_eq!(
        event,
        Event::AttemptRecorded {
            attempt: 1,
            backoff: Duration::from_secs(5),
            next_backoff: Duration::from_secs(10),
        }
    );
    assert_eq!(state.next_restart_at, Some(at(105)));
    assert!(!state.should_restart_at(Instant { nanos: at(105).nanos - 1 }));
    assert!(state.should_restart_at(at(105)));
    let notice = state.record_restart_attempt("web");
    assert_eq!(notice.container, "web");
}

#[test]
fn backoff_schedule_runs_to_five_minutes() {
    let mut state = ContainerState::new();
    let mut armed = Vec::new();
    for _ in 0..8 {
        state.record_restart_attempt_at(at(1000));
        armed.push(state.next_restart_at.unwrap().nanos / 1_000_000_000 - 1000);
    }
    assert_eq!(armed, vec![5, 10, 20, 40, 80, 160, 300, 300]);
}

#[test]
fn unhealthy_time_counts_from_the_first_observation() {
    let mut state = ContainerState::new();
    assert_eq!(state.unhealthy_for_at(at(9)), None);
    state.on_unhealthy_at(at(10));
    state.on_unhealthy_at(at(40));
    assert_eq!(state.unhealthy_for_at(at(75)), Some(Duration::from_secs(65)));
    assert_eq!(state.unhealthy_for_at(at(5)), Some(Duration::from_secs(0)));
}

#[test]
fn clock_runs_forward_from_its_start() {
    let clock = Clock::start();
    let first = clock.now();
    assert!(first.nanos >= 0);
    wait_millis(5);
    let second = clock.now();
    assert!(second.saturating_duration_since(first) >= millis(5));
    assert_eq!(first.saturating_duration_since(second), Duration::from_secs(0));
}

#[test]
fn spans_across_the_origin_are_exact() {
    let early = Instant { nanos: i128::MIN };
    let late = Instant { nanos: i128::MAX };
    assert_eq!(late.saturating_duration_since(early), Duration { nanos: u128::MAX });
    assert_eq!(early.plus(Duration { nanos: u128::MAX }), late);
    assert_eq!(at(7).plus(Duration::from_secs(5)), at(12));
    assert_eq!(Duration { nanos: 1_999_999_999 }.as_secs(), 1);
}

#[test]
fn instant_counts_seconds_and_nanoseconds_from_the_start() {
    assert_eq!(Instant::after_start(0, 0), Instant { nanos: 0 });
    assert_eq!(Instant::after_start(3, 7), Instant { nanos: 3_000_000_007 });
    let last = Instant::after_start(u64::MAX, 999_999_999);
    assert_eq!(last, Instant { nanos: 18_446_744_073_709_551_615_999_999_999 });
}
