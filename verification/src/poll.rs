//! One poll of a container, as a state machine. The caller performs each step that a turn asks
//! for, and hands what came of it back as the event of the next turn.
use crate::docker::{classify, condition, ApiError, Condition, RestartMode, StateReport};
use crate::maintenance::{calendar_shows, reading_expiry, should_skip_for_maintenance};
use crate::maintenance::{MaintenanceFinding, MarkerReading, Timestamp};
use crate::notice::{Event, Notice};
use crate::state::{
    span, ContainerState, Tracking, MAX_BACKOFF_SECS, UNHEALTHY_THRESHOLD_SECS,
};
use crate::time::{elapsed, secs, Duration, Instant, CLOCK_RANGE};
use vstd::prelude::*;

verus! {

/// The status with which Docker answers that there is no such container.
pub const STATUS_NOT_FOUND: u16 = 404;

/// The status with which Docker answers that a container to be started is already running.
pub const STATUS_NOT_MODIFIED: u16 = 304;

/// What has happened in a poll.
#[derive(Clone, Copy, Debug)]
pub enum PollEvent {
    /// The container was inspected, with this result. A poll begins with this event.
    Inspected(Result<Option<StateReport>, ApiError>),
    /// It was found out whether a maintenance marker keeps the container from being restarted.
    MarkerChecked { mode: RestartMode, suppressed: bool },
    /// An attempt to bring the container back was made, with this result.
    Attempted { mode: RestartMode, result: Result<(), ApiError> },
}

/// What is to be done next in a poll.
#[derive(Clone, Copy, Debug, PartialEq, Eq, Structural)]
pub enum PollStep {
    /// Look at the maintenance marker of the container.
    CheckMarker { mode: RestartMode },
    /// Try to bring the container back.
    Attempt { mode: RestartMode },
    /// Nothing: the poll is over.
    Finished,
    /// Nothing: the container could not be inspected, and the poll is over.
    Failed,
}

/// What one event in a poll leads to.
pub struct Outcome {
    pub tracking: Tracking,
    pub next: PollStep,
    pub events: Seq<Event>,
}

/// What the observation of a container in the condition `c` at `now` leads to.
pub open spec fn observed(t: Tracking, c: Condition, now: int) -> Outcome {
    match c {
        Condition::Restarting => Outcome {
            tracking: t.cleared(),
            next: PollStep::Finished,
            events: seq![Event::ManagedRestart],
        },
        Condition::Unhealthy => {
            let unhealthy_for = elapsed(t.unhealthy_from(now), now);
            let threshold = span(secs(UNHEALTHY_THRESHOLD_SECS));
            if unhealthy_for >= secs(UNHEALTHY_THRESHOLD_SECS) {
                Outcome {
                    tracking: t.unhealthy(now),
                    next: PollStep::CheckMarker { mode: RestartMode::Restart },
                    events: seq![
                        Event::UnhealthyTooLong { unhealthy_for: span(unhealthy_for), threshold },
                    ],
                }
            } else {
                Outcome {
                    tracking: t.unhealthy(now),
                    next: PollStep::Finished,
                    events: seq![
                        Event::UnhealthyInGrace { unhealthy_for: span(unhealthy_for), threshold },
                    ],
                }
            }
        },
        Condition::HealthStarting => Outcome {
            tracking: t.cleared(),
            next: PollStep::Finished,
            events: seq![Event::HealthStarting],
        },
        Condition::Healthy => Outcome {
            tracking: t.healthy(now),
            next: PollStep::Finished,
            events: match t.healthy_event(now) {
                Some(event) => seq![event],
                None => seq![],
            },
        },
        Condition::Stopped { status } => Outcome {
            tracking: t.cleared(),
            next: PollStep::CheckMarker { mode: RestartMode::Start },
            events: match status {
                Some(status) => seq![Event::NotRunning { status }],
                None => seq![Event::NoStatus],
            },
        },
    }
}

/// What the result of an inspection at `now` leads to. A container that does not exist is
/// reported and otherwise passed over; any other failure ends the poll as failed.
pub open spec fn inspected(
    t: Tracking,
    inspection: Result<Option<StateReport>, ApiError>,
    now: int,
) -> Outcome {
    match inspection {
        Ok(report) => observed(t, condition(report), now),
        Err(error) => if error == (ApiError::Response { status_code: STATUS_NOT_FOUND }) {
            Outcome { tracking: t, next: PollStep::Finished, events: seq![Event::NotFound] }
        } else {
            Outcome { tracking: t, next: PollStep::Failed, events: seq![] }
        },
    }
}

/// What becomes of the wish to bring a container back at `now`: an attempt, if the backoff
/// window has passed.
pub open spec fn attempt_if_due(t: Tracking, mode: RestartMode, now: int) -> Outcome {
    if t.due(now) {
        Outcome {
            tracking: t,
            next: PollStep::Attempt { mode },
            events: seq![Event::Attempting { mode, attempt: (t.restart_count + 1) as u32 }],
        }
    } else {
        Outcome {
            tracking: t,
            next: PollStep::Finished,
            events: seq![
                Event::BackoffInEffect { wait: span(elapsed(now, t.next_restart_at->0)) },
            ],
        }
    }
}

/// What the check of the maintenance marker at `now` leads to. A marker in force ends the poll;
/// an unhealthy container then starts its grace period anew.
pub open spec fn marker_checked(
    t: Tracking,
    mode: RestartMode,
    suppressed: bool,
    now: int,
) -> Outcome {
    if suppressed {
        Outcome {
            tracking: if mode is Restart {
                t.cleared()
            } else {
                t
            },
            next: PollStep::Finished,
            events: seq![],
        }
    } else {
        attempt_if_due(t, mode, now)
    }
}

/// What the result of an attempt is reported as.
pub open spec fn attempt_event(mode: RestartMode, result: Result<(), ApiError>) -> Event {
    match mode {
        RestartMode::Start => match result {
            Ok(()) => Event::Started,
            Err(error) => if error == (ApiError::Response { status_code: STATUS_NOT_MODIFIED }) {
                Event::AlreadyRunning
            } else {
                Event::StartFailed
            },
        },
        RestartMode::Restart => match result {
            Ok(()) => Event::Restarted,
            Err(_) => Event::RestartFailed,
        },
    }
}

/// What an attempt that ended at `now` leads to. It counts whether or not it succeeded.
pub open spec fn attempt_ended(
    t: Tracking,
    mode: RestartMode,
    result: Result<(), ApiError>,
    now: int,
) -> Outcome {
    Outcome {
        tracking: t.attempted(now),
        next: PollStep::Finished,
        events: seq![attempt_event(mode, result), t.attempted_event(now)],
    }
}

/// What an event at `now` leads to.
pub open spec fn polled(t: Tracking, event: PollEvent, now: int) -> Outcome {
    match event {
        PollEvent::Inspected(inspection) => inspected(t, inspection, now),
        PollEvent::MarkerChecked { mode, suppressed } => marker_checked(t, mode, suppressed, now),
        PollEvent::Attempted { mode, result } => attempt_ended(t, mode, result, now),
    }
}

/// Whether the machine's numbers have room for what `event` leads to at `now`. Only an attempt
/// takes room: one that is to be made is numbered, and one that was made is recorded.
pub open spec fn countable(t: Tracking, event: PollEvent, now: int) -> bool {
    match event {
        PollEvent::Inspected(_) => true,
        PollEvent::MarkerChecked { suppressed, .. } => {
            !suppressed && t.due(now) ==> t.restart_count < u32::MAX
        },
        PollEvent::Attempted { .. } => t.recordable(now),
    }
}

/// The next step of a poll, and what there is to say about the last one.
pub struct Turn {
    pub next: PollStep,
    pub events: Vec<Event>,
}

impl Turn {
    /// This turn is the visible part of `outcome`, which left `state` behind.
    pub open spec fn shows(self, outcome: Outcome, state: ContainerState) -> bool {
        &&& state@ == outcome.tracking
        &&& self.next == outcome.next
        &&& self.events@ =~= outcome.events
    }
}

/// Takes in that the container was observed in the condition `c` at `now`.
pub fn observe_at(state: &mut ContainerState, c: Condition, now: Instant) -> (r: Turn)
    ensures
        r.shows(observed(old(state)@, c, now@), *final(state)),
        final(state).clock == old(state).clock,
        old(state)@.well_formed() ==> final(state)@.well_formed(),
{
    match c {
        Condition::Restarting => {
            state.on_stopped();
            Turn { next: PollStep::Finished, events: vec![Event::ManagedRestart] }
        },
        Condition::Unhealthy => {
            state.on_unhealthy_at(now);
            let unhealthy_for = match state.unhealthy_for_at(now) {
                Some(d) => d,
                None => Duration::from_secs(0),
            };
            let threshold = Duration::from_secs(UNHEALTHY_THRESHOLD_SECS);
            if unhealthy_for.nanos >= threshold.nanos {
                Turn {
                    next: PollStep::CheckMarker { mode: RestartMode::Restart },
                    events: vec![Event::UnhealthyTooLong { unhealthy_for, threshold }],
                }
            } else {
                Turn {
                    next: PollStep::Finished,
                    events: vec![Event::UnhealthyInGrace { unhealthy_for, threshold }],
                }
            }
        },
        Condition::HealthStarting => {
            state.on_health_starting();
            Turn { next: PollStep::Finished, events: vec![Event::HealthStarting] }
        },
        Condition::Healthy => {
            let events = match state.on_healthy_at(now) {
                Some(event) => vec![event],
                None => Vec::new(),
            };
            Turn { next: PollStep::Finished, events }
        },
        Condition::Stopped { status } => {
            state.on_stopped();
            let event = match status {
                Some(status) => Event::NotRunning { status },
                None => Event::NoStatus,
            };
            Turn {
                next: PollStep::CheckMarker { mode: RestartMode::Start },
                events: vec![event],
            }
        },
    }
}

/// Decides whether a container may be brought back at `now`, or has to wait for its backoff
/// window.
pub fn attempt_restart_if_due_at(state: &ContainerState, mode: RestartMode, now: Instant) -> (r:
    Turn)
    requires
        state@.due(now@) ==> state.restart_count < u32::MAX,
    ensures
        r.shows(attempt_if_due(state@, mode, now@), *state),
{
    if state.should_restart_at(now) {
        Turn {
            next: PollStep::Attempt { mode },
            events: vec![Event::Attempting { mode, attempt: state.restart_count + 1 }],
        }
    } else {
        let wait = match state.next_restart_at {
            Some(at) => at.saturating_duration_since(now),
            None => Duration::from_secs(0),
        };
        Turn { next: PollStep::Finished, events: vec![Event::BackoffInEffect { wait }] }
    }
}

/// Takes in that an attempt to bring the container back ended at `now` with `result`.
pub fn conclude_attempt_at(
    state: &mut ContainerState,
    mode: RestartMode,
    result: Result<(), ApiError>,
    now: Instant,
) -> (r: Turn)
    requires
        old(state)@.recordable(now@),
    ensures
        r.shows(attempt_ended(old(state)@, mode, result, now@), *final(state)),
        final(state).clock == old(state).clock,
        old(state)@.well_formed() ==> final(state)@.well_formed(),
{
    let told = match mode {
        RestartMode::Start => match result {
            Ok(()) => Event::Started,
            Err(ApiError::Response { status_code: STATUS_NOT_MODIFIED }) => Event::AlreadyRunning,
            Err(_) => Event::StartFailed,
        },
        RestartMode::Restart => match result {
            Ok(()) => Event::Restarted,
            Err(_) => Event::RestartFailed,
        },
    };
    let recorded = state.record_restart_attempt_at(now);
    Turn { next: PollStep::Finished, events: vec![told, recorded] }
}

/// Takes in `event`, which happened at `now` in a poll of the container that `state` tracks, and
/// decides what is to be done next.
pub fn poll_container_at(state: &mut ContainerState, event: PollEvent, now: Instant) -> (r: Turn)
    requires
        countable(old(state)@, event, now@),
    ensures
        r.shows(polled(old(state)@, event, now@), *final(state)),
        final(state).clock == old(state).clock,
        old(state)@.well_formed() ==> final(state)@.well_formed(),
{
    match event {
        PollEvent::Inspected(inspection) => match inspection {
            Ok(report) => observe_at(state, classify(&report), now),
            Err(ApiError::Response { status_code: STATUS_NOT_FOUND }) => {
                Turn { next: PollStep::Finished, events: vec![Event::NotFound] }
            },
            Err(_) => Turn { next: PollStep::Failed, events: Vec::new() },
        },
        PollEvent::MarkerChecked { mode, suppressed } => if suppressed {
            match mode {
                RestartMode::Restart => state.on_maintenance(),
                RestartMode::Start => {},
            }
            Turn { next: PollStep::Finished, events: Vec::new() }
        } else {
            attempt_restart_if_due_at(state, mode, now)
        },
        PollEvent::Attempted { mode, result } => conclude_attempt_at(state, mode, result, now),
    }
}

/// Takes in what came of looking for the maintenance marker of a container that is to be brought
/// back in the mode `mode`: gives the event with which the poll goes on, and the finding that it
/// rests on.
pub fn check_marker(mode: RestartMode, reading: MarkerReading) -> (r: (
    PollEvent,
    MaintenanceFinding,
))
    ensures
        exists|now: Timestamp|
            {
                &&& now.since_epoch()
                &&& reading_expiry(reading) is Some ==> calendar_shows(now)
                &&& #[trigger] r.1.follows(reading, reading_expiry(reading), now)
            },
        r.0 == (PollEvent::MarkerChecked { mode, suppressed: r.1.in_force() }),
{
    let finding = should_skip_for_maintenance(reading);
    let suppressed = finding.suppresses_restart();
    (PollEvent::MarkerChecked { mode, suppressed }, finding)
}

/// The next step of a poll, and the notices about the container on the last one.
pub struct PollTurn {
    pub next: PollStep,
    pub notices: Vec<Notice>,
}

/// These notices tell of `events`, one by one, about the container `name`.
pub open spec fn tells(notices: Seq<Notice>, name: Seq<char>, events: Seq<Event>) -> bool {
    &&& notices.len() == events.len()
    &&& forall|i: int| 0 <= i < events.len() ==> (#[trigger] notices[i])@ == (name, events[i])
}

/// The notices of `events` about the container `name`.
fn notices_about(name: &str, events: &Vec<Event>) -> (r: Vec<Notice>)
    ensures
        tells(r@, name@, events@),
{
    let mut notices: Vec<Notice> = Vec::new();
    for i in 0..events.len()
        invariant
            tells(notices@, name@, events@.take(i as int)),
    {
        notices.push(Notice::about(name, events[i]));
    }
    assert(events@.take(events.len() as int) =~= events@);
    notices
}

/// Whether the machine's numbers have room for what `event` leads to at `now`.
pub fn is_countable_at(state: &ContainerState, event: &PollEvent, now: Instant) -> (r: bool)
    ensures
        r == countable(state@, *event, now@),
{
    match event {
        PollEvent::Inspected(_) => true,
        PollEvent::MarkerChecked { suppressed, .. } => *suppressed || !state.should_restart_at(now)
            || state.restart_count < u32::MAX,
        PollEvent::Attempted { .. } => state.is_recordable_at(now),
    }
}

/// This turn, which left `t` behind, is what `outcome` shows of the container `name`.
pub open spec fn turned(turn: PollTurn, t: Tracking, name: Seq<char>, outcome: Outcome) -> bool {
    &&& t == outcome.tracking
    &&& turn.next == outcome.next
    &&& tells(turn.notices@, name, outcome.events)
}

/// Takes in `event`, which happens now in a poll of the container `name`, and decides what is to
/// be done next, if the machine's numbers have room for it; where they have none, nothing changes
/// and nothing is decided. One reading of the clock serves the whole decision.
pub fn poll_container_checked(name: &str, state: &mut ContainerState, event: PollEvent) -> (r:
    Option<PollTurn>)
    ensures
        exists|now: int|
            {
                let outcome = #[trigger] polled(old(state)@, event, now);
                &&& 0 <= now < CLOCK_RANGE
                &&& old(state).clock.shows(now)
                &&& r is Some <==> countable(old(state)@, event, now)
                &&& r matches Some(turn) ==> turned(turn, final(state)@, name@, outcome)
                &&& r is None ==> *final(state) == *old(state)
            },
        event is Inspected ==> r is Some,
        old(state).restart_count < u32::MAX && old(state)@.backoff <= secs(MAX_BACKOFF_SECS)
            ==> r is Some,
        final(state).clock == old(state).clock,
        old(state)@.well_formed() ==> final(state)@.well_formed(),
{
    let now = state.clock.now();
    let ghost outcome = polled(state@, event, now@);
    if !is_countable_at(state, &event, now) {
        return None;
    }
    let turn = poll_container_at(state, event, now);
    let notices = notices_about(name, &turn.events);
    let r = PollTurn { next: turn.next, notices };
    assert(turned(r, state@, name@, outcome));
    Some(r)
}

/// Takes in `event`, which happens now in a poll of the container `name`, and decides what is to
/// be done next. One reading of the clock serves the whole decision; there has to be room for what
/// the event leads to at every moment that the clock can show.
pub fn poll_container(name: &str, state: &mut ContainerState, event: PollEvent) -> (r: PollTurn)
    requires
        countable(old(state)@, event, CLOCK_RANGE as int),
    ensures
        exists|now: int|
            {
                let outcome = #[trigger] polled(old(state)@, event, now);
                &&& 0 <= now < CLOCK_RANGE
                &&& old(state).clock.shows(now)
                &&& turned(r, final(state)@, name@, outcome)
            },
        final(state).clock == old(state).clock,
        old(state)@.well_formed() ==> final(state)@.well_formed(),
{
    let now = state.clock.now();
    let turn = poll_container_at(state, event, now);
    let notices = notices_about(name, &turn.events);
    let r = PollTurn { next: turn.next, notices };
    assert(turned(r, state@, name@, polled(old(state)@, event, now@)));
    r
}

} // verus!
