use nerd_watch::docker::{
    classify, ApiError, Condition, ContainerStatus, Health, HealthStatus, RestartMode, StateReport,
};
use nerd_watch::maintenance::{MaintenanceFinding, MarkerFields, MarkerReading};
use nerd_watch::notice::Event;
use nerd_watch::poll::{
    check_marker, poll_container, poll_container_at, poll_container_checked, PollEvent, PollStep,
    Turn,
};
use nerd_watch::state::ContainerState;
use nerd_watch::time::{Duration, Instant};

fn at(secs: u64) -> Instant {
    Instant { nanos: Duration::from_secs(secs).nanos as i128 }
}

fn report(
    status: ContainerStatus,
    running: bool,
    health: Option<HealthStatus>,
) -> Option<StateReport> {
    Some(StateReport {
        status: Some(status),
        running: Some(running),
        health: health.map(|h| Health { status: Some(h) }),
    })
}

fn inspect(state: &mut ContainerState, report: Option<StateReport>, now: Instant) -> Turn {
    poll_container_at(state, PollEvent::Inspected(Ok(report)), now)
}

fn unhealthy() -> Option<StateReport> {
    report(ContainerStatus::Running, true, Some(HealthStatus::Unhealthy))
}

const START: RestartMode = RestartMode::Start;
const RESTART: RestartMode = RestartMode::Restart;

#[test]
fn conditions_follow_status_running_flag_and_health() {
    let s = ContainerStatus::Restarting;
    assert_eq!(classify(&report(s, true, None)), Condition::Restarting);
    assert_eq!(classify(&report(s, false, None)), Condition::Restarting);
    assert_eq!(classify(&unhealthy()), Condition::Unhealthy);
    let s = ContainerStatus::Running;
    assert_eq!(
        classify(&report(s, true, Some(HealthStatus::Starting))),
        Condition::HealthStarting
    );
    for h in [HealthStatus::Healthy, HealthStatus::NoCheck, HealthStatus::Empty] {
        assert_eq!(classify(&report(s, true, Some(h))), Condition::Healthy);
    }
    assert_eq!(classify(&report(s, true, None)), Condition::Healthy);
    assert_eq!(classify(&report(ContainerStatus::Exited, true, None)), Condition::Healthy);
    for s in [
        ContainerStatus::Exited,
        ContainerStatus::Dead,
        ContainerStatus::Created,
        ContainerStatus::Paused,
        ContainerStatus::Removing,
        ContainerStatus::Empty,
        ContainerStatus::Running,
    ] {
        let stopped = Condition::Stopped { status: Some(s) };
        assert_eq!(classify(&report(s, false, Some(HealthStatus::Unhealthy))), stopped);
    }
    assert_eq!(classify(&None), Condition::Stopped { status: None });
    let silent = StateReport { status: None, running: None, health: None };
    assert_eq!(classify(&Some(silent)), Condition::Stopped { status: None });
}

#[test]
fn stopped_container_is_started_and_counted() {
    let mut state = ContainerState::new();
    let turn = inspect(&mut state, report(ContainerStatus::Exited, false, None), at(10));
    assert_eq!(turn.next, PollStep::CheckMarker { mode: START });
    assert_eq!(turn.events, vec![Event::NotRunning { status: ContainerStatus::Exited }]);

    let checked = PollEvent::MarkerChecked { mode: START, suppressed: false };
    let turn = poll_container_at(&mut state, checked, at(11));
    assert_eq!(turn.next, PollStep::Attempt { mode: START });
    assert_eq!(turn.events, vec![Event::Attempting { mode: START, attempt: 1 }]);

    let ended = PollEvent::Attempted { mode: START, result: Ok(()) };
    let turn = poll_container_at(&mut state, ended, at(20));
    assert_eq!(turn.next, PollStep::Finished);
    assert_eq!(
        turn.events,
        vec![
            Event::Started,
            Event::AttemptRecorded {
                attempt: 1,
                backoff: Duration::from_secs(5),
                next_backoff: Duration::from_secs(10),
            },
        ]
    );
    assert_eq!(state.next_restart_at, Some(at(25)));

    let turn = poll_container_at(&mut state, checked, at(22));
    assert_eq!(turn.next, PollStep::Finished);
    assert_eq!(turn.events, vec![Event::BackoffInEffect { wait: Duration::from_secs(3) }]);
    let turn = poll_container_at(&mut state, checked, at(25));
    assert_eq!(turn.next, PollStep::Attempt { mode: START });
    assert_eq!(turn.events, vec![Event::Attempting { mode: START, attempt: 2 }]);
}

#[test]
fn container_without_status_counts_as_stopped() {
    let mut state = ContainerState::new();
    let turn = inspect(&mut state, None, at(1));
    assert_eq!(turn.next, PollStep::CheckMarker { mode: START });
    assert_eq!(turn.events, vec![Event::NoStatus]);
}

#[test]
fn unhealthy_container_is_restarted_after_its_grace_period() {
    let mut state = ContainerState::new();
    let threshold = Duration::from_secs(60);
    let turn = inspect(&mut state, unhealthy(), at(10));
    assert_eq!(turn.next, PollStep::Finished);
    let unhealthy_for = Duration::from_secs(0);
    assert_eq!(turn.events, vec![Event::UnhealthyInGrace { unhealthy_for, threshold }]);
    let turn = inspect(&mut state, unhealthy(), at(69));
    assert_eq!(turn.next, PollStep::Finished);
    let unhealthy_for = Duration::from_secs(59);
    assert_eq!(turn.events, vec![Event::UnhealthyInGrace { unhealthy_for, threshold }]);
    let turn = inspect(&mut state, unhealthy(), at(70));
    assert_eq!(turn.next, PollStep::CheckMarker { mode: RESTART });
    let unhealthy_for = Duration::from_secs(60);
    assert_eq!(turn.events, vec![Event::UnhealthyTooLong { unhealthy_for, threshold }]);
    let checked = PollEvent::MarkerChecked { mode: RESTART, suppressed: false };
    let turn = poll_container_at(&mut state, checked, at(70));
    assert_eq!(turn.next, PollStep::Attempt { mode: RESTART });
    let ended = PollEvent::Attempted { mode: RESTART, result: Ok(()) };
    let turn = poll_container_at(&mut state, ended, at(90));
    assert_eq!(turn.events[0], Event::Restarted);
}

#[test]
fn healthy_observation_breaks_the_grace_period() {
    let mut state = ContainerState::new();
    inspect(&mut state, unhealthy(), at(10));
    inspect(&mut state, report(ContainerStatus::Running, true, None), at(50));
    let turn = inspect(&mut state, unhealthy(), at(80));
    assert_eq!(turn.next, PollStep::Finished);
    assert_eq!(state.unhealthy_since, Some(at(80)));
}

#[test]
fn maintenance_suppresses_both_modes() {
    let mut state = ContainerState::new();
    inspect(&mut state, unhealthy(), at(10));
    let start = PollEvent::MarkerChecked { mode: START, suppressed: true };
    let turn = poll_container_at(&mut state, start, at(80));
    assert_eq!(turn.next, PollStep::Finished);
    assert!(turn.events.is_empty());
    assert_eq!(state.unhealthy_since, Some(at(10)));
    let restart = PollEvent::MarkerChecked { mode: RESTART, suppressed: true };
    let turn = poll_container_at(&mut state, restart, at(80));
    assert_eq!(turn.next, PollStep::Finished);
    assert!(turn.events.is_empty());
    assert_eq!(state.unhealthy_since, None);
    assert_eq!(inspect(&mut state, unhealthy(), at(85)).next, PollStep::Finished);
}

#[test]
fn managed_restart_and_starting_health_are_waited_for() {
    let mut state = ContainerState::new();
    state.stable_since = Some(at(1));
    let turn = inspect(&mut state, report(ContainerStatus::Restarting, true, None), at(5));
    assert_eq!(turn.next, PollStep::Finished);
    assert_eq!(turn.events, vec![Event::ManagedRestart]);
    assert_eq!(state.stable_since, None);
    state.stable_since = Some(at(1));
    let starting = report(ContainerStatus::Running, true, Some(HealthStatus::Starting));
    let turn = inspect(&mut state, starting, at(5));
    assert_eq!(turn.next, PollStep::Finished);
    assert_eq!(turn.events, vec![Event::HealthStarting]);
    assert_eq!(state.stable_since, None);
}

#[test]
fn stable_container_resets_its_backoff() {
    let mut state = ContainerState::new();
    let ended = PollEvent::Attempted { mode: START, result: Ok(()) };
    poll_container_at(&mut state, ended, at(10));
    let running = report(ContainerStatus::Running, true, Some(HealthStatus::Healthy));
    assert!(inspect(&mut state, running, at(20)).events.is_empty());
    assert!(inspect(&mut state, running, at(79)).events.is_empty());
    let turn = inspect(&mut state, running, at(80));
    let uptime = Duration::from_secs(60);
    assert_eq!(turn.events, vec![Event::BackoffReset { uptime }]);
    assert_eq!(state.restart_count, 0);
    assert_eq!(state.next_restart_at, None);
    assert!(inspect(&mut state, running, at(140)).events.is_empty());
}

#[test]
fn failed_inspections_change_nothing() {
    let mut state = ContainerState::new();
    inspect(&mut state, unhealthy(), at(10));
    let missing = PollEvent::Inspected(Err(ApiError::Response { status_code: 404 }));
    let turn = poll_container_at(&mut state, missing, at(20));
    assert_eq!(turn.next, PollStep::Finished);
    assert_eq!(turn.events, vec![Event::NotFound]);
    for error in [ApiError::Response { status_code: 500 }, ApiError::Other] {
        let turn = poll_container_at(&mut state, PollEvent::Inspected(Err(error)), at(30));
        assert_eq!(turn.next, PollStep::Failed);
        assert!(turn.events.is_empty());
    }
    assert_eq!(state.unhealthy_since, Some(at(10)));
}

#[test]
fn results_of_attempts_are_told_apart_and_all_count() {
    let not_modified = Err(ApiError::Response { status_code: 304 });
    let refused = Err(ApiError::Response { status_code: 500 });
    let cases = [
        (START, Ok(()), Event::Started),
        (START, not_modified, Event::AlreadyRunning),
        (START, refused, Event::StartFailed),
        (START, Err(ApiError::Other), Event::StartFailed),
        (RESTART, Ok(()), Event::Restarted),
        (RESTART, not_modified, Event::RestartFailed),
        (RESTART, Err(ApiError::Other), Event::RestartFailed),
    ];
    for (mode, result, told) in cases {
        let mut state = ContainerState::new();
        let turn = poll_container_at(&mut state, PollEvent::Attempted { mode, result }, at(100));
        assert_eq!(turn.next, PollStep::Finished);
        assert_eq!(turn.events[0], told);
        assert_eq!(state.restart_count, 1);
        assert_eq!(state.backoff, Duration::from_secs(10));
        assert_eq!(state.next_restart_at, Some(at(105)));
    }
}

#[test]
fn notices_name_the_container() {
    let mut state = ContainerState::new();
    let stopped = report(ContainerStatus::Dead, false, None);
    let turn = poll_container("my-app", &mut state, PollEvent::Inspected(Ok(stopped)));
    assert_eq!(turn.next, PollStep::CheckMarker { mode: START });
    assert_eq!(turn.notices.len(), 1);
    assert_eq!(turn.notices[0].container, "my-app");
    assert_eq!(turn.notices[0].event, Event::NotRunning { status: ContainerStatus::Dead });

    let checked = PollEvent::MarkerChecked { mode: START, suppressed: false };
    let turn = poll_container("my-app", &mut state, checked);
    assert_eq!(turn.next, PollStep::Attempt { mode: START });
    let ended = PollEvent::Attempted { mode: START, result: Ok(()) };
    let turn = poll_container("my-app", &mut state, ended);
    assert_eq!(turn.notices.len(), 2);
    assert_eq!(turn.notices[0].event, Event::Started);
    let turn = poll_container("my-app", &mut state, checked);
    assert_eq!(turn.next, PollStep::Finished);
    assert!(matches!(turn.notices[0].event, Event::BackoffInEffect { .. }));
}

#[test]
fn marker_decides_whether_the_poll_goes_on() {
    let mut state = ContainerState::new();
    let marker = |expires_at: &str| {
        MarkerReading::Fields(MarkerFields {
            expires_at: expires_at.to_string(),
            reason: Some("upgrade".to_string()),
        })
    };
    let (event, finding) = check_marker(START, marker("2999-01-01T00:00:00Z"));
    assert!(matches!(finding, MaintenanceFinding::Active { .. }));
    assert_eq!(poll_container_at(&mut state, event, at(1)).next, PollStep::Finished);
    for reading in [
        marker("2001-01-01T00:00:00Z"),
        marker("never"),
        MarkerReading::NoDirectory,
        MarkerReading::NotFound,
        MarkerReading::Unreadable,
        MarkerReading::Malformed,
    ] {
        let (event, finding) = check_marker(RESTART, reading);
        assert!(!finding.suppresses_restart());
        let turn = poll_container_at(&mut state, event, at(1));
        assert_eq!(turn.next, PollStep::Attempt { mode: RESTART });
    }
}

#[test]
fn suppressed_and_waiting_polls_take_a_full_counter() {
    let mut state = ContainerState::new();
    state.restart_count = u32::MAX;
    state.next_restart_at = Some(at(100));
    let suppressed = PollEvent::MarkerChecked { mode: START, suppressed: true };
    assert_eq!(poll_container_at(&mut state, suppressed, at(200)).next, PollStep::Finished);
    assert_eq!(poll_container("test", &mut state, suppressed).next, PollStep::Finished);
    let checked = PollEvent::MarkerChecked { mode: START, suppressed: false };
    let turn = poll_container_at(&mut state, checked, at(90));
    assert_eq!(turn.next, PollStep::Finished);
    assert_eq!(turn.events, vec![Event::BackoffInEffect { wait: Duration::from_secs(10) }]);
    assert_eq!(state.restart_count, u32::MAX);
    assert_eq!(state.next_restart_at, Some(at(100)));
    assert_eq!(state.backoff, Duration::from_secs(5));
}

#[test]
fn poll_under_a_marker_clears_times_and_keeps_the_pace() {
    for (report, mode) in [(None, START), (unhealthy(), RESTART)] {
        let mut state = ContainerState::new();
        state.record_restart_attempt_at(at(1));
        state.unhealthy_since = Some(at(2));
        let turn = inspect(&mut state, report, at(100));
        assert_eq!(turn.next, PollStep::CheckMarker { mode });
        let event = PollEvent::MarkerChecked { mode, suppressed: true };
        assert_eq!(poll_container_at(&mut state, event, at(101)).next, PollStep::Finished);
        assert_eq!(state.stable_since, None);
        assert_eq!(state.unhealthy_since, None);
        assert_eq!(state.restart_count, 1);
        assert_eq!(state.backoff, Duration::from_secs(10));
        assert_eq!(state.next_restart_at, Some(at(6)));
    }
}

#[test]
fn runs_are_counted_across_attempts_and_failed_inspections() {
    let mut state = ContainerState::new();
    inspect(&mut state, unhealthy(), at(10));
    let missing = PollEvent::Inspected(Err(ApiError::Response { status_code: 404 }));
    poll_container_at(&mut state, missing, at(20));
    let ended = PollEvent::Attempted { mode: RESTART, result: Err(ApiError::Other) };
    poll_container_at(&mut state, ended, at(30));
    inspect(&mut state, unhealthy(), at(40));
    assert_eq!(state.unhealthy_since, Some(at(10)));
    let turn = inspect(&mut state, unhealthy(), at(70));
    assert_eq!(turn.next, PollStep::CheckMarker { mode: RESTART });

    let running = report(ContainerStatus::Running, true, None);
    inspect(&mut state, running, at(80));
    poll_container_at(&mut state, missing, at(90));
    poll_container_at(&mut state, ended, at(100));
    inspect(&mut state, running, at(110));
    assert_eq!(state.stable_since, Some(at(80)));
    assert_eq!(state.restart_count, 2);
    inspect(&mut state, running, at(140));
    assert_eq!(state.restart_count, 0);
}

#[test]
fn full_counter_is_refused_only_where_it_would_be_raised() {
    let mut state = ContainerState::new();
    state.restart_count = u32::MAX;
    let checked = PollEvent::MarkerChecked { mode: START, suppressed: false };
    let ended = PollEvent::Attempted { mode: START, result: Ok(()) };
    assert!(poll_container_checked("test", &mut state, checked).is_none());
    assert!(poll_container_checked("test", &mut state, ended).is_none());
    assert_eq!(state.restart_count, u32::MAX);
    assert_eq!(state.next_restart_at, None);
    state.next_restart_at = Some(at(1_000_000));
    let turn = poll_container_checked("test", &mut state, checked).unwrap();
    assert_eq!(turn.next, PollStep::Finished);
    assert!(matches!(turn.notices[0].event, Event::BackoffInEffect { .. }));
    state.next_restart_at = None;
    let suppressed = PollEvent::MarkerChecked { mode: RESTART, suppressed: true };
    assert!(poll_container_checked("test", &mut state, suppressed).is_some());
    let stopped = PollEvent::Inspected(Ok(None));
    let turn = poll_container_checked("test", &mut state, stopped).unwrap();
    assert_eq!(turn.next, PollStep::CheckMarker { mode: START });
    assert_eq!(turn.notices[0].container, "test");
}
