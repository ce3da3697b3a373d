//! What the terms of the contracts come to, in the fields of the values they speak of and in
//! plain numbers. Spans and moments are nanoseconds throughout.
use crate::docker::{
    condition, ApiError, Condition, ContainerStatus, Health, HealthStatus, RestartMode, StateReport,
};
use crate::laws::{law_always_consistent, replay, Moment};
use crate::maintenance::{
    chrono_time, reading_expiry, MaintenanceFinding, MarkerReading, Timestamp,
};
use crate::notice::{Event, Notice};
use crate::poll::{
    countable, polled, tells, turned, Outcome, PollEvent, PollStep, PollTurn, Turn,
};
use crate::state::{paced, ContainerState, Tracking};
use crate::time::{elapsed, secs, Duration, Instant, CLOCK_RANGE};
use vstd::arithmetic::power2::pow2;
use vstd::prelude::*;

verus! {

/// A moment fits the machine's instants.
pub open spec fn fits(at: int) -> bool {
    i128::MIN <= at <= i128::MAX
}

/// All moments that are kept of a container fit the machine's instants.
pub open spec fn all_fit(t: Tracking) -> bool {
    &&& t.next_restart_at matches Some(at) ==> fits(at)
    &&& t.stable_since matches Some(at) ==> fits(at)
    &&& t.unhealthy_since matches Some(at) ==> fits(at)
}

/// A second has a thousand million nanoseconds.
pub proof fn law_seconds_in_nanoseconds(n: u64)
    ensures
        secs(n) == n * 1_000_000_000,
{
}

/// The time elapsed is the distance to a moment in the past, and nothing to one in the future.
pub proof fn law_elapsed_is_distance(since: int, now: int)
    ensures
        since <= now ==> elapsed(since, now) == now - since,
        since >= now ==> elapsed(since, now) == 0,
{
}

/// The views of spans and moments are the numbers they hold.
pub proof fn law_time_views(span: Duration, at: Instant)
    ensures
        span@ == span.nanos,
        at@ == at.nanos,
{
}

/// The view of a container's state is made of its fields, one for one.
pub proof fn law_state_view(s: ContainerState)
    ensures
        s@.backoff == s.backoff.nanos,
        s@.restart_count == s.restart_count,
        s@.next_restart_at is Some <==> s.next_restart_at is Some,
        s.next_restart_at matches Some(at) ==> s@.next_restart_at == Some(at.nanos as int),
        s@.stable_since is Some <==> s.stable_since is Some,
        s.stable_since matches Some(at) ==> s@.stable_since == Some(at.nanos as int),
        s@.unhealthy_since is Some <==> s.unhealthy_since is Some,
        s.unhealthy_since matches Some(at) ==> s@.unhealthy_since == Some(at.nanos as int),
{
}

/// After a number of attempts in a row the backoff is five seconds, doubled once for each of them,
/// but never more than three hundred seconds.
pub proof fn law_backoff_in_numbers(attempts: nat)
    ensures
        5_000_000_000 * pow2(attempts) <= 300_000_000_000 ==> paced(attempts) == 5_000_000_000
            * pow2(attempts),
        5_000_000_000 * pow2(attempts) >= 300_000_000_000 ==> paced(attempts) == 300_000_000_000,
{
}

/// A container that has not been observed yet has the shortest backoff and nothing else to it.
pub proof fn law_initial_in_numbers()
    ensures
        Tracking::initial().backoff == 5_000_000_000,
        Tracking::initial().restart_count == 0,
        Tracking::initial().next_restart_at is None,
        Tracking::initial().stable_since is None,
        Tracking::initial().unhealthy_since is None,
{
}

/// Whatever has happened to a container since its first poll, its backoff is five seconds, doubled
/// once for each attempt that is counted, up to three hundred seconds; a window is armed exactly
/// if an attempt is counted; and not both of the times are kept.
pub proof fn law_history_in_numbers(history: Seq<Moment>)
    ensures
        ({
            let t = replay(Tracking::initial(), history);
            let doubled = 5_000_000_000 * pow2(t.restart_count);
            &&& doubled <= 300_000_000_000 ==> t.backoff == doubled
            &&& doubled >= 300_000_000_000 ==> t.backoff == 300_000_000_000
            &&& t.next_restart_at is Some <==> t.restart_count > 0
            &&& !(t.stable_since is Some && t.unhealthy_since is Some)
        }),
{
    law_always_consistent(history);
    law_backoff_in_numbers(replay(Tracking::initial(), history).restart_count);
}

/// The condition of a container in the fields of its report. A restart of Docker's own comes
/// first. After that a container that is not reported running is stopped, whatever its health; one
/// that is reported running is judged by its health alone, whatever its status.
pub proof fn law_condition_by_fields(report: StateReport)
    ensures
        condition(Some(report)) is Restarting <==> report.status == Some(
            ContainerStatus::Restarting,
        ),
        report.status != Some(ContainerStatus::Restarting) && report.running != Some(true)
            ==> condition(Some(report)) == (Condition::Stopped { status: report.status }),
        report.status != Some(ContainerStatus::Restarting) && report.running == Some(true) ==> {
            &&& condition(Some(report)) is Unhealthy <==> report.health == Some(
                Health { status: Some(HealthStatus::Unhealthy) },
            )
            &&& condition(Some(report)) is HealthStarting <==> report.health == Some(
                Health { status: Some(HealthStatus::Starting) },
            )
            &&& condition(Some(report)) is Healthy <==> report.health != Some(
                Health { status: Some(HealthStatus::Unhealthy) },
            ) && report.health != Some(Health { status: Some(HealthStatus::Starting) })
        },
{
}

/// An inspection without a state section describes a stopped container without a status.
pub proof fn law_condition_without_report()
    ensures
        condition(None) == (Condition::Stopped { status: None }),
{
}

/// What an inspection leads to, in the fields of its report: a check of the marker for a start
/// exactly if the container does not run and Docker is not restarting it, one for a restart exactly
/// if it runs, its health field says unhealthy, and it has counted as unhealthy for sixty seconds;
/// and nothing more otherwise.
pub proof fn law_inspection_leads_to(t: Tracking, report: StateReport, now: int)
    ensures
        ({
            let next = polled(t, PollEvent::Inspected(Ok(Some(report))), now).next;
            &&& next == (PollStep::CheckMarker { mode: RestartMode::Start }) <==> report.status
                != Some(ContainerStatus::Restarting) && report.running != Some(true)
            &&& next == (PollStep::CheckMarker { mode: RestartMode::Restart }) <==> {
                &&& report.status != Some(ContainerStatus::Restarting)
                &&& report.running == Some(true)
                &&& report.health == Some(Health { status: Some(HealthStatus::Unhealthy) })
                &&& t.unhealthy_since is Some
                &&& t.unhealthy_since->0 + 60_000_000_000 <= now
            }
            &&& next is CheckMarker || next is Finished
        }),
{
}

/// What an inspection without a state section leads to.
pub proof fn law_inspection_without_report(t: Tracking, now: int)
    ensures
        ({
            let outcome = polled(t, PollEvent::Inspected(Ok(None)), now);
            &&& outcome.next == (PollStep::CheckMarker { mode: RestartMode::Start })
            &&& outcome.events == seq![Event::NoStatus]
            &&& outcome.tracking == (Tracking { stable_since: None, unhealthy_since: None, ..t })
        }),
{
}

/// What is kept of a container that was observed stable: since when it is, and the attempts made,
/// unless it has been stable for sixty seconds.
pub proof fn law_stable_observation_keeps(
    t: Tracking,
    event: PollEvent,
    report: StateReport,
    now: int,
)
    requires
        event == PollEvent::Inspected(Ok(Some(report))),
        report.status != Some(ContainerStatus::Restarting),
        report.running == Some(true),
        report.health != Some(Health { status: Some(HealthStatus::Unhealthy) }),
        report.health != Some(Health { status: Some(HealthStatus::Starting) }),
    ensures
        ({
            let after = polled(t, event, now).tracking;
            let lasting = t.stable_since is Some && t.stable_since->0 + 60_000_000_000 <= now;
            &&& after.unhealthy_since is None
            &&& t.stable_since is Some ==> after.stable_since == t.stable_since
            &&& t.stable_since is None ==> after.stable_since == Some(now)
            &&& lasting && t.restart_count > 0 ==> {
                &&& after.restart_count == 0
                &&& after.backoff == 5_000_000_000
                &&& after.next_restart_at is None
            }
            &&& !(lasting && t.restart_count > 0) ==> {
                &&& after.restart_count == t.restart_count
                &&& after.backoff == t.backoff
                &&& after.next_restart_at == t.next_restart_at
            }
        }),
{
}

/// What a stable observation reports: a reset, with the time for which the container has been
/// stable, exactly if attempts were forgotten; and nothing otherwise.
pub proof fn law_stable_observation_reports(
    t: Tracking,
    event: PollEvent,
    report: StateReport,
    now: int,
)
    requires
        event == PollEvent::Inspected(Ok(Some(report))),
        report.status != Some(ContainerStatus::Restarting),
        report.running == Some(true),
        report.health != Some(Health { status: Some(HealthStatus::Unhealthy) }),
        report.health != Some(Health { status: Some(HealthStatus::Starting) }),
        all_fit(t),
        fits(now),
    ensures
        ({
            let outcome = polled(t, event, now);
            let reset = t.restart_count > 0 && outcome.tracking.restart_count == 0;
            &&& reset ==> {
                &&& outcome.events.len() == 1
                &&& outcome.events[0] matches Event::BackoffReset { uptime }
                &&& uptime.nanos == now - t.stable_since->0
            }
            &&& !reset ==> outcome.events.len() == 0
        }),
{
}

/// What is kept of a container that was observed unhealthy: since when it is, and the attempts
/// made.
pub proof fn law_unhealthy_observation_keeps(
    t: Tracking,
    event: PollEvent,
    report: StateReport,
    now: int,
)
    requires
        event == PollEvent::Inspected(Ok(Some(report))),
        report.status != Some(ContainerStatus::Restarting),
        report.running == Some(true),
        report.health == Some(Health { status: Some(HealthStatus::Unhealthy) }),
    ensures
        ({
            let after = polled(t, event, now).tracking;
            &&& after.stable_since is None
            &&& t.unhealthy_since is Some ==> after.unhealthy_since == t.unhealthy_since
            &&& t.unhealthy_since is None ==> after.unhealthy_since == Some(now)
            &&& after.restart_count == t.restart_count
            &&& after.backoff == t.backoff
            &&& after.next_restart_at == t.next_restart_at
        }),
{
}

/// What an unhealthy observation reports: for how long the container has been unhealthy, held
/// against sixty seconds.
pub proof fn law_unhealthy_observation_reports(
    t: Tracking,
    event: PollEvent,
    report: StateReport,
    now: int,
)
    requires
        event == PollEvent::Inspected(Ok(Some(report))),
        report.status != Some(ContainerStatus::Restarting),
        report.running == Some(true),
        report.health == Some(Health { status: Some(HealthStatus::Unhealthy) }),
        all_fit(t),
        fits(now),
    ensures
        ({
            let outcome = polled(t, event, now);
            let since = outcome.tracking.unhealthy_since->0;
            let long = if since <= now {
                now - since
            } else {
                0
            };
            &&& outcome.events.len() == 1
            &&& long >= 60_000_000_000 ==> outcome.events[0] == (Event::UnhealthyTooLong {
                unhealthy_for: Duration { nanos: long as u128 },
                threshold: Duration { nanos: 60_000_000_000 },
            })
            &&& long < 60_000_000_000 ==> outcome.events[0] == (Event::UnhealthyInGrace {
                unhealthy_for: Duration { nanos: long as u128 },
                threshold: Duration { nanos: 60_000_000_000 },
            })
        }),
{
}

/// What every other observation keeps and reports: the attempts made, but no time, and what was
/// seen.
pub proof fn law_other_observations(t: Tracking, event: PollEvent, report: StateReport, now: int)
    requires
        event == PollEvent::Inspected(Ok(Some(report))),
        report.status == Some(ContainerStatus::Restarting) || report.running != Some(true)
            || report.health == Some(Health { status: Some(HealthStatus::Starting) }),
    ensures
        ({
            let outcome = polled(t, event, now);
            let managed = report.status == Some(ContainerStatus::Restarting);
            let stopped = !managed && report.running != Some(true);
            &&& outcome.tracking.stable_since is None
            &&& outcome.tracking.unhealthy_since is None
            &&& outcome.tracking.restart_count == t.restart_count
            &&& outcome.tracking.backoff == t.backoff
            &&& outcome.tracking.next_restart_at == t.next_restart_at
            &&& outcome.events.len() == 1
            &&& managed ==> outcome.events[0] is ManagedRestart
            &&& stopped && report.status is Some ==> outcome.events[0] == (Event::NotRunning {
                status: report.status->0,
            })
            &&& stopped && report.status is None ==> outcome.events[0] is NoStatus
            &&& !managed && !stopped ==> outcome.events[0] is HealthStarting
        }),
{
}

/// An inspection that Docker answered with the status 404 ends the poll with that report; one that
/// failed in any other way fails it without one. Nothing that is kept changes.
pub proof fn law_inspection_error_by_status(t: Tracking, status_code: u16, now: int)
    ensures
        ({
            let outcome = polled(
                t,
                PollEvent::Inspected(Err(ApiError::Response { status_code })),
                now,
            );
            &&& outcome.tracking == t
            &&& status_code == 404 ==> outcome.next is Finished && outcome.events
                == seq![Event::NotFound]
            &&& status_code != 404 ==> outcome.next is Failed && outcome.events.len() == 0
        }),
        ({
            let outcome = polled(t, PollEvent::Inspected(Err(ApiError::Other)), now);
            outcome.tracking == t && outcome.next is Failed && outcome.events.len() == 0
        }),
{
}

/// Whether an attempt may be made is a matter of the window alone: at any time where none is
/// armed, and from its end on where one is.
pub proof fn law_due_by_window(t: Tracking, now: int)
    ensures
        t.next_restart_at is None ==> t.due(now),
        t.next_restart_at is Some ==> (t.due(now) <==> t.next_restart_at->0 <= now),
{
}

/// After an attempt that ended at one moment of a clock, another may be made at a second moment of
/// it exactly if the backoff has passed between the two.
pub proof fn law_window_spans_the_backoff(t: Tracking, ended: int, later: int)
    ensures
        t.attempted(ended).due(later) <==> ended + t.backoff <= later,
{
}

/// How long a container has been unhealthy is the distance from where it began.
pub proof fn law_unhealthy_for_is_distance(t: Tracking, now: int)
    ensures
        t.unhealthy_for(now) is Some <==> t.unhealthy_since is Some,
        t.unhealthy_since is Some && t.unhealthy_since->0 <= now ==> t.unhealthy_for(now)->0 == now
            - t.unhealthy_since->0,
        t.unhealthy_since is Some && t.unhealthy_since->0 > now ==> t.unhealthy_for(now)->0 == 0,
{
}

/// A suppressed check ends the poll in silence. Only where a restart was suppressed do the times
/// go; the attempts made stay in any case.
pub proof fn law_suppressed_check(t: Tracking, mode: RestartMode, now: int)
    ensures
        ({
            let outcome = polled(t, PollEvent::MarkerChecked { mode, suppressed: true }, now);
            &&& outcome.next is Finished
            &&& outcome.events.len() == 0
            &&& outcome.tracking.restart_count == t.restart_count
            &&& outcome.tracking.backoff == t.backoff
            &&& outcome.tracking.next_restart_at == t.next_restart_at
            &&& mode is Start ==> outcome.tracking.stable_since == t.stable_since
                && outcome.tracking.unhealthy_since == t.unhealthy_since
            &&& mode is Restart ==> outcome.tracking.stable_since is None
                && outcome.tracking.unhealthy_since is None
        }),
{
}

/// A check that suppresses nothing leads to the attempt in the mode that was asked for, under the
/// next number, exactly if no window is armed or the armed one has passed; otherwise the time left
/// of it is reported. Nothing that is kept changes.
pub proof fn law_unsuppressed_check(t: Tracking, mode: RestartMode, now: int)
    requires
        t.restart_count < u32::MAX,
        all_fit(t),
        fits(now),
    ensures
        ({
            let outcome = polled(t, PollEvent::MarkerChecked { mode, suppressed: false }, now);
            let open = t.next_restart_at is None || t.next_restart_at->0 <= now;
            &&& outcome.tracking == t
            &&& outcome.events.len() == 1
            &&& open ==> {
                &&& outcome.next == (PollStep::Attempt { mode })
                &&& outcome.events[0] == (Event::Attempting {
                    mode,
                    attempt: (t.restart_count + 1) as u32,
                })
            }
            &&& !open ==> {
                &&& outcome.next is Finished
                &&& outcome.events[0] == (Event::BackoffInEffect {
                    wait: Duration { nanos: (t.next_restart_at->0 - now) as u128 },
                })
            }
        }),
{
}

/// An attempt raises the count by one, arms a window of the backoff in force from its end on, and
/// doubles the backoff up to three hundred seconds, whatever its result. The times stay.
pub proof fn law_attempt_keeps(
    t: Tracking,
    mode: RestartMode,
    result: Result<(), ApiError>,
    now: int,
)
    ensures
        ({
            let outcome = polled(t, PollEvent::Attempted { mode, result }, now);
            &&& outcome.next is Finished
            &&& outcome.tracking.restart_count == t.restart_count + 1
            &&& outcome.tracking.next_restart_at == Some(now + t.backoff)
            &&& 2 * t.backoff <= 300_000_000_000 ==> outcome.tracking.backoff == 2 * t.backoff
            &&& 2 * t.backoff >= 300_000_000_000 ==> outcome.tracking.backoff == 300_000_000_000
            &&& outcome.tracking.stable_since == t.stable_since
            &&& outcome.tracking.unhealthy_since == t.unhealthy_since
        }),
{
}

/// What an attempt reports: first its result, where a start that Docker answers with the status 304
/// found the container running; then its number, the backoff that it armed and the next one.
pub proof fn law_attempt_reports(
    t: Tracking,
    mode: RestartMode,
    result: Result<(), ApiError>,
    now: int,
)
    requires
        t.restart_count < u32::MAX,
        t.backoff <= u128::MAX,
    ensures
        ({
            let outcome = polled(t, PollEvent::Attempted { mode, result }, now);
            let told = outcome.events[0];
            &&& outcome.events.len() == 2
            &&& mode is Start && result is Ok ==> told is Started
            &&& mode is Restart && result is Ok ==> told is Restarted
            &&& mode is Restart && result is Err ==> told is RestartFailed
            &&& mode is Start && result is Err ==> {
                &&& told is AlreadyRunning <==> result->Err_0 == (ApiError::Response {
                    status_code: 304,
                })
                &&& told is AlreadyRunning || told is StartFailed
            }
            &&& outcome.events[1] matches Event::AttemptRecorded { attempt, backoff, next_backoff }
            &&& attempt == t.restart_count + 1
            &&& backoff.nanos == t.backoff
            &&& next_backoff.nanos == outcome.tracking.backoff
        }),
{
}

/// An attempt can be recorded exactly if the raised count, the doubled backoff and the end of the
/// window fit the numbers that hold them.
pub proof fn law_recordable_in_numbers(t: Tracking, now: int)
    ensures
        t.recordable(now) <==> t.restart_count + 1 <= u32::MAX && t.backoff + t.backoff <= u128::MAX
            && now + t.backoff <= i128::MAX,
{
}

/// There is room for every event as long as the count can still be raised: with a backoff of at
/// most three hundred seconds, nothing else is ever in the way at a moment that a clock shows.
pub proof fn law_room_until_the_counter_is_full(t: Tracking, event: PollEvent, now: int)
    requires
        t.restart_count < u32::MAX,
        t.backoff <= 300_000_000_000,
        0 <= now <= CLOCK_RANGE,
    ensures
        countable(t, event, now),
{
}

/// At a full counter there is still room for every event that does not raise it: an inspection, a
/// suppressed check, and a check within the window.
pub proof fn law_room_at_a_full_counter(
    t: Tracking,
    event: PollEvent,
    mode: RestartMode,
    now: int,
)
    ensures
        event is Inspected ==> countable(t, event, now),
        countable(t, PollEvent::MarkerChecked { mode, suppressed: true }, now),
        event is MarkerChecked && t.next_restart_at is Some && now < t.next_restart_at->0
            ==> countable(t, event, now),
{
}

/// An event that would raise a full counter has no room.
pub proof fn law_full_counter_is_not_raised(t: Tracking, event: PollEvent, now: int)
    requires
        countable(t, event, now),
        t.restart_count >= u32::MAX,
    ensures
        !(polled(t, event, now).next is Attempt),
        polled(t, event, now).tracking.restart_count <= t.restart_count,
{
}

/// Notices that tell of events are as many, in the same order, and each names the container and
/// holds its event.
pub proof fn law_notices_by_fields(notices: Seq<Notice>, name: Seq<char>, events: Seq<Event>)
    ensures
        tells(notices, name, events) <==> {
            &&& notices.len() == events.len()
            &&& forall|i: int|
                0 <= i < events.len() ==> (#[trigger] notices[i]).container@ == name
                    && notices[i].event == events[i]
        },
{
    if tells(notices, name, events) {
        assert forall|i: int| 0 <= i < events.len() implies (#[trigger] notices[i]).container@
            == name && notices[i].event == events[i] by {
            assert(notices[i]@ == (name, events[i]));
        }
    }
}

/// A turn of a poll hands on the whole of its outcome: what is kept, the next step, and every
/// event.
pub proof fn law_turns_by_fields(
    turn: Turn,
    named: PollTurn,
    state: ContainerState,
    name: Seq<char>,
    outcome: Outcome,
)
    ensures
        turn.shows(outcome, state) <==> state@ == outcome.tracking && turn.next == outcome.next
            && turn.events@ == outcome.events,
        turned(named, state@, name, outcome) ==> {
            &&& state@ == outcome.tracking
            &&& named.next == outcome.next
            &&& named.notices@.len() == outcome.events.len()
            &&& forall|i: int|
                0 <= i < outcome.events.len() ==> (#[trigger] named.notices@[i]).container@ == name
                    && named.notices@[i].event == outcome.events[i]
        },
{
    law_notices_by_fields(named.notices@, name, outcome.events);
}

/// One time lies after another if its seconds are more, or are the same and its nanoseconds are
/// more; so of two different times exactly one lies after the other, and later than later is
/// later.
pub proof fn law_time_order(a: Timestamp, b: Timestamp, c: Timestamp)
    ensures
        a.secs > b.secs ==> a.after(b),
        a.secs < b.secs ==> !a.after(b),
        a.secs == b.secs ==> (a.after(b) <==> a.nanos > b.nanos),
        a != b ==> (a.after(b) <==> !b.after(a)),
        a.after(b) && b.after(c) ==> a.after(c),
{
}

/// The expiry of a reading is what chrono makes of the text in its fields.
pub proof fn law_expiry_by_text(reading: MarkerReading)
    ensures
        reading matches MarkerReading::Fields(fields) ==> reading_expiry(reading) == chrono_time(
            fields.expires_at@,
        ),
        !(reading is Fields) ==> reading_expiry(reading) is None,
{
}

/// What a reading without a marker in it comes to.
pub proof fn law_finding_without_marker(
    finding: MaintenanceFinding,
    reading: MarkerReading,
    now: Timestamp,
)
    requires
        finding.follows(reading, reading_expiry(reading), now),
        reading_expiry(reading) is None,
    ensures
        !finding.in_force(),
        reading is NoDirectory || reading is NotFound ==> finding is NoMarker,
        reading is Unreadable ==> finding is Unreadable,
        reading is Malformed ==> finding is Malformed,
        reading is Fields ==> finding is BadExpiry,
{
}

/// What a marker comes to at `now`: it is in force exactly while its expiry has more seconds than
/// `now`, or as many and more nanoseconds. The finding tells that expiry, and while the marker is
/// in force its reason, or that none was given.
pub proof fn law_finding_on_marker(
    finding: MaintenanceFinding,
    reading: MarkerReading,
    now: Timestamp,
)
    requires
        finding.follows(reading, reading_expiry(reading), now),
        reading_expiry(reading) is Some,
    ensures
        ({
            let expiry = reading_expiry(reading)->0;
            let coming = expiry.0 > now.secs || (expiry.0 == now.secs && expiry.1 > now.nanos);
            let text = reading->Fields_0.reason;
            &&& finding.in_force() <==> coming
            &&& coming ==> {
                &&& finding matches MaintenanceFinding::Active { expires_at, reason }
                &&& expires_at.secs == expiry.0 && expires_at.nanos == expiry.1
                &&& text is Some ==> reason@ == text->0@
                &&& text is None ==> reason@ == "unspecified"@
            }
            &&& !coming ==> {
                &&& finding matches MaintenanceFinding::Expired { expires_at }
                &&& expires_at.secs == expiry.0 && expires_at.nanos == expiry.1
            }
        }),
{
}

} // verus!
