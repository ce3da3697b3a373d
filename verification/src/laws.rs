//! What holds of the watchdog as a whole.
use crate::docker::{condition, ApiError, Condition, ContainerStatus, RestartMode, StateReport};
use crate::docker::{reported_running, reported_status};
use crate::maintenance::{MaintenanceFinding, MarkerReading, Timestamp};
use crate::notice::Event;
use crate::poll::{attempt_if_due, polled, PollEvent, PollStep, STATUS_NOT_FOUND};
use crate::state::{lemma_paced_doubles, paced, span, Tracking};
use crate::state::{INITIAL_BACKOFF_SECS, MAX_BACKOFF_SECS};
use crate::state::{STABILITY_THRESHOLD_SECS, UNHEALTHY_THRESHOLD_SECS};
use crate::time::{elapsed, secs};
use vstd::arithmetic::power2::{lemma2_to64, lemma_pow2_strictly_increases};
use vstd::prelude::*;

verus! {

/// An event in the life of a container, and when it happened.
pub struct Moment {
    pub event: PollEvent,
    pub at: int,
}

/// What is kept of a container after `history`, starting from `start`.
pub open spec fn replay(start: Tracking, history: Seq<Moment>) -> Tracking
    decreases history.len(),
{
    if history.len() == 0 {
        start
    } else {
        let last = history.last();
        polled(replay(start, history.drop_last()), last.event, last.at).tracking
    }
}

/// The event is an observation of the container in the condition `c`.
pub open spec fn shows(event: PollEvent, c: Condition) -> bool {
    event matches PollEvent::Inspected(inspection) && inspection matches Ok(report) && condition(
        report,
    ) == c
}

/// The event is an observation of the container, in whatever condition.
pub open spec fn is_observation(event: PollEvent) -> bool {
    event matches PollEvent::Inspected(inspection) && inspection is Ok
}

/// The event at `now` forgets the attempts that were made.
pub open spec fn resets(t: Tracking, event: PollEvent, now: int) -> bool {
    shows(event, Condition::Healthy) && t.reset_due(now)
}

/// Two states agree on the attempts made and on when the next may follow.
pub open spec fn same_pace(a: Tracking, b: Tracking) -> bool {
    &&& a.backoff == b.backoff
    &&& a.restart_count == b.restart_count
    &&& a.next_restart_at == b.next_restart_at
}

/// What holds of a container at every moment: the backoff is the one that the number of
/// attempts calls for and lies between the initial and the maximal backoff, a window is armed
/// exactly if an attempt was made, and the container does not count as stable and as unhealthy
/// at once.
pub open spec fn consistent(t: Tracking) -> bool {
    &&& t.well_formed()
    &&& secs(INITIAL_BACKOFF_SECS) <= t.backoff <= secs(MAX_BACKOFF_SECS)
    &&& t.next_restart_at is Some <==> t.restart_count > 0
    &&& t.stable_since is None || t.unhealthy_since is None
}

/// A container that has not been observed yet is consistent.
pub proof fn law_initial_consistent()
    ensures
        consistent(Tracking::initial()),
{
    lemma2_to64();
}

/// Every event keeps a container consistent.
pub proof fn law_events_keep_consistency(t: Tracking, event: PollEvent, now: int)
    requires
        consistent(t),
    ensures
        consistent(polled(t, event, now).tracking),
{
    law_initial_consistent();
    lemma_paced_doubles(t.restart_count);
    lemma_paced_doubles(t.restart_count + 1);
}

/// Whatever happens to a container from its first poll on, it is consistent afterwards.
pub proof fn law_always_consistent(history: Seq<Moment>)
    ensures
        consistent(replay(Tracking::initial(), history)),
    decreases history.len(),
{
    if history.len() == 0 {
        law_initial_consistent();
    } else {
        law_always_consistent(history.drop_last());
        law_events_keep_consistency(
            replay(Tracking::initial(), history.drop_last()),
            history.last().event,
            history.last().at,
        );
    }
}

/// The backoff starts at the initial backoff, never shrinks from one attempt to the next, and
/// stays at the maximum from the sixth attempt on.
pub proof fn law_backoff_grows_to_its_cap(attempts: nat)
    ensures
        paced(0) == secs(INITIAL_BACKOFF_SECS),
        paced(attempts) <= paced(attempts + 1) <= 2 * paced(attempts),
        paced(attempts) <= secs(MAX_BACKOFF_SECS),
        attempts >= 6 ==> paced(attempts) == secs(MAX_BACKOFF_SECS),
{
    lemma2_to64();
    lemma_paced_doubles(attempts);
    lemma_paced_doubles(attempts + 1);
    if attempts > 6 {
        lemma_pow2_strictly_increases(6, attempts);
    }
}

/// What is kept of a container after attempts that ended at `times`, one after the other.
pub open spec fn after_attempts(start: Tracking, times: Seq<int>) -> Tracking
    decreases times.len(),
{
    if times.len() == 0 {
        start
    } else {
        after_attempts(start, times.drop_last()).attempted(times.last())
    }
}

/// After a number of attempts in a row, that many are counted, and the window that the last one
/// armed is as long as the backoff that was in force after the attempts before it.
pub proof fn law_backoff_schedule(times: Seq<int>)
    ensures
        ({
            let t = after_attempts(Tracking::initial(), times);
            &&& t.restart_count == times.len()
            &&& t.backoff == paced(times.len())
            &&& times.len() > 0 ==> t.next_restart_at == Some(
                times.last() + paced((times.len() - 1) as nat),
            )
        }),
    decreases times.len(),
{
    if times.len() == 0 {
        lemma2_to64();
    } else {
        law_backoff_schedule(times.drop_last());
        lemma_paced_doubles((times.len() - 1) as nat);
    }
}

/// Only an attempt and a reset change the pace at which a container is brought back.
pub proof fn law_pace_changes_only_by_attempt_or_reset(t: Tracking, event: PollEvent, now: int)
    ensures
        event is Attempted ==> polled(t, event, now).tracking == t.attempted(now),
        resets(t, event, now) ==> same_pace(polled(t, event, now).tracking, Tracking::initial()),
        !(event is Attempted) && !resets(t, event, now) ==> same_pace(
            polled(t, event, now).tracking,
            t,
        ),
{
}

/// Once a container has been stable for the stability threshold, its pace is that of a container
/// that was never brought back, and an attempt may be made at any time.
pub proof fn law_stability_resets_backoff(t: Tracking, since: int, now: int)
    requires
        consistent(t),
        t.stable_since == Some(since),
        since + secs(STABILITY_THRESHOLD_SECS) <= now,
    ensures
        same_pace(t.healthy(now), Tracking::initial()),
        forall|later: int| #[trigger] t.healthy(now).due(later),
{
    lemma2_to64();
}

/// A container that has been stable for less than the stability threshold keeps its pace.
pub proof fn law_no_reset_before_stability(t: Tracking, since: int, now: int)
    requires
        t.stable_since == Some(since),
        now < since + secs(STABILITY_THRESHOLD_SECS),
    ensures
        same_pace(t.healthy(now), t),
{
}

proof fn lemma_window_stays(t: Tracking, history: Seq<Moment>)
    requires
        forall|i: int|
            0 <= i < history.len() ==> !((#[trigger] history[i]).event is Attempted) && !resets(
                replay(t, history.take(i)),
                history[i].event,
                history[i].at,
            ),
    ensures
        same_pace(replay(t, history), t),
    decreases history.len(),
{
    if history.len() > 0 {
        let before = history.drop_last();
        assert forall|i: int| 0 <= i < before.len() implies !((#[trigger] before[i]).event
            is Attempted) && !resets(
            replay(t, before.take(i)),
            before[i].event,
            before[i].at,
        ) by {
            assert(before[i] == history[i]);
            assert(before.take(i) =~= history.take(i));
        }
        lemma_window_stays(t, before);
        assert(history[history.len() - 1] == history.last());
        assert(history.take(history.len() - 1) =~= before);
        law_pace_changes_only_by_attempt_or_reset(
            replay(t, before),
            history.last().event,
            history.last().at,
        );
    }
}

/// After an attempt the next one waits for the backoff that was in force: whatever happens in
/// between, short of a reset, none is made before that time has passed.
pub proof fn law_attempts_are_spaced(
    t: Tracking,
    ended: int,
    history: Seq<Moment>,
    event: PollEvent,
    now: int,
)
    requires
        forall|i: int|
            0 <= i < history.len() ==> !((#[trigger] history[i]).event is Attempted) && !resets(
                replay(t.attempted(ended), history.take(i)),
                history[i].event,
                history[i].at,
            ),
        polled(replay(t.attempted(ended), history), event, now).next is Attempt,
    ensures
        now >= ended + t.backoff,
{
    lemma_window_stays(t.attempted(ended), history);
}

/// Once the backoff window has passed, an attempt may be made at any later time.
pub proof fn law_window_stays_open(t: Tracking, now: int, later: int)
    requires
        t.due(now),
        now <= later,
    ensures
        t.due(later),
{
}

/// While the backoff window is closed, the wait that is reported is exact: an attempt may be made
/// when it is over, and at no time before.
pub proof fn law_reported_wait_is_exact(t: Tracking, mode: RestartMode, now: int, wait: nat)
    requires
        !t.due(now),
        wait == elapsed(now, t.next_restart_at->0),
    ensures
        attempt_if_due(t, mode, now).events == seq![Event::BackoffInEffect { wait: span(wait) }],
        forall|later: int| #[trigger] t.due(later) <==> now + wait <= later,
{
}

/// Every attempt is counted and arms the next window, whether it succeeded or not.
pub proof fn law_attempts_count_whatever_their_result(
    t: Tracking,
    a: PollEvent,
    b: PollEvent,
    now: int,
)
    requires
        a is Attempted,
        b is Attempted,
    ensures
        polled(t, a, now).tracking == polled(t, b, now).tracking,
        polled(t, a, now).tracking.restart_count == t.restart_count + 1,
        polled(t, a, now).tracking.next_restart_at == Some(now + t.backoff),
{
}

/// A poll comes to an end: an inspection leads at most to the check of the marker, that check
/// at most to an attempt in the same mode, and an attempt to nothing more.
pub proof fn law_poll_ends(t: Tracking, event: PollEvent, now: int)
    ensures
        event is Inspected ==> !(polled(t, event, now).next is Attempt),
        event matches PollEvent::MarkerChecked { mode, suppressed } ==> polled(t, event, now).next
            == PollStep::Finished || polled(t, event, now).next == (PollStep::Attempt { mode }),
        event is Attempted ==> polled(t, event, now).next == PollStep::Finished,
{
}

/// A poll fails only on an inspection that failed for another reason than that there is no such
/// container; a container that does not exist is reported and the poll is over. Either way
/// nothing that is kept of the container changes.
pub proof fn law_failed_inspection_changes_nothing(t: Tracking, error: ApiError, now: int)
    ensures
        ({
            let outcome = polled(t, PollEvent::Inspected(Err(error)), now);
            &&& outcome.tracking == t
            &&& error == (ApiError::Response { status_code: STATUS_NOT_FOUND }) ==> outcome.next
                == PollStep::Finished && outcome.events == seq![Event::NotFound]
            &&& error != (ApiError::Response { status_code: STATUS_NOT_FOUND }) ==> outcome.next
                == PollStep::Failed
        }),
{
}

/// A poll ends as failed on nothing but a failed inspection.
pub proof fn law_only_failed_inspections_fail(t: Tracking, event: PollEvent, now: int)
    requires
        polled(t, event, now).next is Failed,
    ensures
        event matches PollEvent::Inspected(inspection) && inspection is Err,
{
}

/// A container that Docker itself is restarting is left alone.
pub proof fn law_managed_restart_is_left_alone(t: Tracking, report: StateReport, now: int)
    requires
        report.status == Some(ContainerStatus::Restarting),
    ensures
        polled(t, PollEvent::Inspected(Ok(Some(report))), now).next is Finished,
        same_pace(polled(t, PollEvent::Inspected(Ok(Some(report))), now).tracking, t),
{
}

/// A container that runs is started by no poll, whatever its status and its health.
pub proof fn law_running_container_is_not_started(
    t: Tracking,
    report: Option<StateReport>,
    now: int,
)
    requires
        reported_running(report),
    ensures
        polled(t, PollEvent::Inspected(Ok(report)), now).next != (PollStep::CheckMarker {
            mode: RestartMode::Start,
        }),
{
}

/// A container that is not running, and that Docker is not restarting itself, is started as soon
/// as no marker is in force and the backoff window has passed.
pub proof fn law_stopped_container_is_started(
    t: Tracking,
    report: Option<StateReport>,
    observed_at: int,
    checked_at: int,
)
    requires
        !reported_running(report),
        reported_status(report) != Some(ContainerStatus::Restarting),
        t.due(checked_at),
    ensures
        ({
            let seen = polled(t, PollEvent::Inspected(Ok(report)), observed_at);
            let checked = polled(
                seen.tracking,
                PollEvent::MarkerChecked { mode: RestartMode::Start, suppressed: false },
                checked_at,
            );
            &&& seen.next == (PollStep::CheckMarker { mode: RestartMode::Start })
            &&& checked.next == (PollStep::Attempt { mode: RestartMode::Start })
        }),
{
}

/// A container that has been unhealthy for the grace period is restarted as soon as no marker is
/// in force and the backoff window has passed.
pub proof fn law_unhealthy_container_is_restarted(
    t: Tracking,
    since: int,
    event: PollEvent,
    observed_at: int,
    checked_at: int,
)
    requires
        shows(event, Condition::Unhealthy),
        t.unhealthy_since == Some(since),
        since + secs(UNHEALTHY_THRESHOLD_SECS) <= observed_at,
        t.due(checked_at),
    ensures
        ({
            let seen = polled(t, event, observed_at);
            let checked = polled(
                seen.tracking,
                PollEvent::MarkerChecked { mode: RestartMode::Restart, suppressed: false },
                checked_at,
            );
            &&& seen.next == (PollStep::CheckMarker { mode: RestartMode::Restart })
            &&& checked.next == (PollStep::Attempt { mode: RestartMode::Restart })
        }),
{
}

/// No attempt is made while a marker is in force or the backoff window is closed, and none
/// without a check of the marker.
pub proof fn law_attempt_needs_consent(t: Tracking, event: PollEvent, now: int)
    requires
        polled(t, event, now).next is Attempt,
    ensures
        event matches PollEvent::MarkerChecked { mode, suppressed } && !suppressed,
        t.due(now),
{
}

/// A marker in force keeps the pace as it is, and after it an unhealthy container has a whole
/// grace period again.
pub proof fn law_maintenance_renews_grace(
    t: Tracking,
    checked_at: int,
    event: PollEvent,
    observed_at: int,
)
    requires
        shows(event, Condition::Unhealthy),
    ensures
        ({
            let checked = polled(
                t,
                PollEvent::MarkerChecked { mode: RestartMode::Restart, suppressed: true },
                checked_at,
            );
            let seen = polled(checked.tracking, event, observed_at);
            &&& checked.next is Finished
            &&& same_pace(checked.tracking, t)
            &&& seen.next is Finished
            &&& seen.tracking.unhealthy_since == Some(observed_at)
        }),
{
}

/// A poll that finds a container to be brought back, stopped or unhealthy for too long, and then a
/// marker in force, ends without an attempt: the pace stays as it was, and nothing is known any
/// more of how long the container has been stable or unhealthy.
pub proof fn law_poll_under_marker(
    t: Tracking,
    report: Option<StateReport>,
    observed_at: int,
    mode: RestartMode,
    checked_at: int,
)
    requires
        polled(t, PollEvent::Inspected(Ok(report)), observed_at).next == (PollStep::CheckMarker {
            mode,
        }),
    ensures
        ({
            let seen = polled(t, PollEvent::Inspected(Ok(report)), observed_at);
            let checked = polled(
                seen.tracking,
                PollEvent::MarkerChecked { mode, suppressed: true },
                checked_at,
            );
            &&& checked.next is Finished
            &&& checked.tracking == t.cleared()
        }),
{
}

/// A second unhealthy observation in a row does not move the time of the first.
pub proof fn law_first_unhealthy_observation_counts(t: Tracking, first: int, second: int)
    ensures
        t.unhealthy(first).unhealthy(second) == t.unhealthy(first),
{
}

/// At some point of `history` the container was observed in the condition `c` at the time
/// `since`, and no observation after that showed it in any other.
pub open spec fn unbroken(history: Seq<Moment>, c: Condition, since: int) -> bool {
    exists|i: int|
        {
            &&& 0 <= i < history.len()
            &&& shows((#[trigger] history[i]).event, c)
            &&& history[i].at == since
            &&& forall|j: int|
                i <= j < history.len() && is_observation((#[trigger] history[j]).event) ==> shows(
                    history[j].event,
                    c,
                )
        }
}

proof fn lemma_unbroken_extends(history: Seq<Moment>, c: Condition, since: int)
    requires
        history.len() > 0,
        unbroken(history.drop_last(), c, since),
        is_observation(history.last().event) ==> shows(history.last().event, c),
    ensures
        unbroken(history, c, since),
{
    let before = history.drop_last();
    let i = choose|i: int|
        {
            &&& 0 <= i < before.len()
            &&& shows((#[trigger] before[i]).event, c)
            &&& before[i].at == since
            &&& forall|j: int|
                i <= j < before.len() && is_observation((#[trigger] before[j]).event) ==> shows(
                    before[j].event,
                    c,
                )
        };
    assert(history[i] == before[i]);
    assert forall|j: int|
        i <= j < history.len() && is_observation((#[trigger] history[j]).event) implies shows(
        history[j].event,
        c,
    ) by {
        if j < before.len() {
            assert(before[j] == history[j]);
        }
    }
}

/// A container counts as unhealthy since a time at which it was observed unhealthy, and has not
/// been observed otherwise since; it counts as stable in the same way.
pub proof fn law_counted_time_is_unbroken(history: Seq<Moment>)
    ensures
        replay(Tracking::initial(), history).unhealthy_since matches Some(since) ==> unbroken(
            history,
            Condition::Unhealthy,
            since,
        ),
        replay(Tracking::initial(), history).stable_since matches Some(since) ==> unbroken(
            history,
            Condition::Healthy,
            since,
        ),
    decreases history.len(),
{
    if history.len() > 0 {
        let before = history.drop_last();
        let t = replay(Tracking::initial(), before);
        let last = history.last();
        let after = replay(Tracking::initial(), history);
        law_counted_time_is_unbroken(before);
        assert(history[history.len() - 1] == last);
        if after.unhealthy_since is Some {
            if t.unhealthy_since is Some {
                lemma_unbroken_extends(history, Condition::Unhealthy, t.unhealthy_since->0);
            }
        }
        if after.stable_since is Some {
            if t.stable_since is Some {
                lemma_unbroken_extends(history, Condition::Healthy, t.stable_since->0);
            }
        }
    }
}

/// From its moment `i` on, `history` holds an unbroken run of the condition `c`: the container is
/// observed in it at that moment and in no other later, and no marker in force renews the grace
/// period of an unhealthy container in between.
pub open spec fn runs_from(history: Seq<Moment>, i: int, c: Condition) -> bool {
    &&& 0 <= i < history.len()
    &&& shows(history[i].event, c)
    &&& forall|j: int|
        i < j < history.len() ==> {
            &&& is_observation((#[trigger] history[j]).event) ==> shows(history[j].event, c)
            &&& history[j].event != (PollEvent::MarkerChecked {
                mode: RestartMode::Restart,
                suppressed: true,
            })
        }
}

proof fn lemma_run_shortens(history: Seq<Moment>, i: int, c: Condition)
    requires
        runs_from(history, i, c),
        i < history.len() - 1,
    ensures
        runs_from(history.drop_last(), i, c),
        history.drop_last().take(i + 1) =~= history.take(i + 1),
{
    let before = history.drop_last();
    assert forall|j: int| i < j < before.len() implies {
        &&& is_observation((#[trigger] before[j]).event) ==> shows(before[j].event, c)
        &&& before[j].event != (PollEvent::MarkerChecked {
            mode: RestartMode::Restart,
            suppressed: true,
        })
    } by {
        assert(before[j] == history[j]);
    }
}

/// An unbroken run of health is counted as one: whatever else happens in its course, the time
/// since which the container counts as stable stays as its first observation left it.
pub proof fn law_stable_run_is_counted(start: Tracking, history: Seq<Moment>, i: int)
    requires
        runs_from(history, i, Condition::Healthy),
    ensures
        replay(start, history).stable_since is Some,
        replay(start, history).stable_since == replay(start, history.take(i + 1)).stable_since,
        replay(start, history.take(i)).stable_since is None ==> replay(start, history).stable_since
            == Some(history[i].at),
    decreases history.len(),
{
    assert(history.take(i + 1).drop_last() =~= history.take(i));
    assert(history.take(i + 1).last() == history[i]);
    if i == history.len() - 1 {
        assert(history.take(i + 1) =~= history);
    } else {
        lemma_run_shortens(history, i, Condition::Healthy);
        law_stable_run_is_counted(start, history.drop_last(), i);
        assert(history.drop_last().take(i) =~= history.take(i));
        assert(history[history.len() - 1] == history.last());
    }
}

/// An unbroken run of ill health is counted as one: whatever else happens in its course, the time
/// since which the container counts as unhealthy stays as its first observation left it.
pub proof fn law_unhealthy_run_is_counted(start: Tracking, history: Seq<Moment>, i: int)
    requires
        runs_from(history, i, Condition::Unhealthy),
    ensures
        replay(start, history).unhealthy_since is Some,
        replay(start, history).unhealthy_since == replay(
            start,
            history.take(i + 1),
        ).unhealthy_since,
        replay(start, history.take(i)).unhealthy_since is None ==> replay(
            start,
            history,
        ).unhealthy_since == Some(history[i].at),
    decreases history.len(),
{
    assert(history.take(i + 1).drop_last() =~= history.take(i));
    assert(history.take(i + 1).last() == history[i]);
    if i == history.len() - 1 {
        assert(history.take(i + 1) =~= history);
    } else {
        lemma_run_shortens(history, i, Condition::Unhealthy);
        law_unhealthy_run_is_counted(start, history.drop_last(), i);
        assert(history.drop_last().take(i) =~= history.take(i));
        assert(history[history.len() - 1] == history.last());
    }
}

/// The moments of `history` lie in the order of time.
pub open spec fn in_order(history: Seq<Moment>) -> bool {
    forall|j: int, k: int|
        0 <= j <= k < history.len() ==> (#[trigger] history[j]).at <= (#[trigger] history[k]).at
}

proof fn lemma_unbroken_since_earlier(history: Seq<Moment>, i: int, c: Condition, since: int)
    requires
        in_order(history),
        0 <= i < history.len(),
        unbroken(history.take(i + 1), c, since),
    ensures
        since <= history[i].at,
{
    let until = history.take(i + 1);
    let k = choose|k: int|
        {
            &&& 0 <= k < until.len()
            &&& shows((#[trigger] until[k]).event, c)
            &&& until[k].at == since
            &&& forall|j: int|
                k <= j < until.len() && is_observation((#[trigger] until[j]).event) ==> shows(
                    until[j].event,
                    c,
                )
        };
    assert(until[k] == history[k]);
}

/// A container that has been observed stable without a break for the stability threshold has its
/// backoff reset by the next such observation.
pub proof fn law_stable_run_resets_backoff(
    history: Seq<Moment>,
    i: int,
    event: PollEvent,
    now: int,
)
    requires
        in_order(history),
        runs_from(history, i, Condition::Healthy),
        shows(event, Condition::Healthy),
        history[i].at + secs(STABILITY_THRESHOLD_SECS) <= now,
    ensures
        same_pace(
            polled(replay(Tracking::initial(), history), event, now).tracking,
            Tracking::initial(),
        ),
{
    let t = replay(Tracking::initial(), history);
    law_stable_run_is_counted(Tracking::initial(), history, i);
    law_counted_time_is_unbroken(history.take(i + 1));
    lemma_unbroken_since_earlier(history, i, Condition::Healthy, t.stable_since->0);
    law_always_consistent(history);
    law_stability_resets_backoff(t, t.stable_since->0, now);
}

/// A container that has been observed unhealthy without a break for the grace period comes up for
/// a restart at the next such observation.
pub proof fn law_unhealthy_run_comes_up_for_restart(
    history: Seq<Moment>,
    i: int,
    event: PollEvent,
    now: int,
)
    requires
        in_order(history),
        runs_from(history, i, Condition::Unhealthy),
        shows(event, Condition::Unhealthy),
        history[i].at + secs(UNHEALTHY_THRESHOLD_SECS) <= now,
    ensures
        polled(replay(Tracking::initial(), history), event, now).next == (PollStep::CheckMarker {
            mode: RestartMode::Restart,
        }),
{
    let t = replay(Tracking::initial(), history);
    law_unhealthy_run_is_counted(Tracking::initial(), history, i);
    law_counted_time_is_unbroken(history.take(i + 1));
    lemma_unbroken_since_earlier(history, i, Condition::Unhealthy, t.unhealthy_since->0);
}

/// A running container comes up for a restart only when it has been unhealthy, without a healthy
/// or other observation in between, for the whole grace period.
pub proof fn law_restart_needs_unbroken_ill_health(
    history: Seq<Moment>,
    event: PollEvent,
    now: int,
)
    requires
        polled(replay(Tracking::initial(), history), event, now).next == (PollStep::CheckMarker {
            mode: RestartMode::Restart,
        }),
    ensures
        shows(event, Condition::Unhealthy),
        exists|since: int|
            since + secs(UNHEALTHY_THRESHOLD_SECS) <= now && #[trigger] unbroken(
                history,
                Condition::Unhealthy,
                since,
            ),
{
    law_counted_time_is_unbroken(history);
}

/// The backoff of a container is reset only when it has been stable, without an observation to
/// the contrary in between, for the whole stability threshold.
pub proof fn law_reset_needs_unbroken_stability(history: Seq<Moment>, event: PollEvent, now: int)
    requires
        resets(replay(Tracking::initial(), history), event, now),
    ensures
        exists|since: int|
            since + secs(STABILITY_THRESHOLD_SECS) <= now && #[trigger] unbroken(
                history,
                Condition::Healthy,
                since,
            ),
{
    law_counted_time_is_unbroken(history);
}

/// Nothing but a marker whose expiry can be read and is still to come keeps a container from
/// being restarted; a marker that is missing, unreadable, malformed or expired does not.
pub proof fn law_only_unexpired_markers_suppress(
    finding: MaintenanceFinding,
    reading: MarkerReading,
    expiry: Option<(i64, u32)>,
    now: Timestamp,
)
    requires
        finding.follows(reading, expiry, now),
    ensures
        finding.in_force() <==> reading is Fields && expiry is Some && (Timestamp {
            secs: (expiry->0).0,
            nanos: (expiry->0).1,
        }).after(now),
{
}

/// In a poll that has got as far as its marker, an attempt is made exactly if the backoff window
/// has passed and no unexpired marker is in place.
pub proof fn law_marker_and_window_decide(
    t: Tracking,
    mode: RestartMode,
    finding: MaintenanceFinding,
    reading: MarkerReading,
    expiry: Option<(i64, u32)>,
    today: Timestamp,
    now: int,
)
    requires
        finding.follows(reading, expiry, today),
    ensures
        polled(
            t,
            PollEvent::MarkerChecked { mode, suppressed: finding.in_force() },
            now,
        ).next is Attempt <==> t.due(now) && !(reading is Fields && expiry is Some && (Timestamp {
            secs: (expiry->0).0,
            nanos: (expiry->0).1,
        }).after(today)),
{
}

/// A marker that expired before the Unix epoch keeps nothing from being restarted at any time that
/// a calendar clock can show.
pub proof fn law_marker_before_epoch_is_void(
    finding: MaintenanceFinding,
    reading: MarkerReading,
    expiry: (i64, u32),
    now: Timestamp,
)
    requires
        finding.follows(reading, Some(expiry), now),
        expiry.0 < 0,
        now.since_epoch(),
    ensures
        !finding.in_force(),
{
}

/// A marker that has expired stays expired.
pub proof fn law_expiry_is_final(expires_at: Timestamp, now: Timestamp, later: Timestamp)
    requires
        !expires_at.after(now),
        !now.after(later),
    ensures
        !expires_at.after(later),
{
}

} // verus!
