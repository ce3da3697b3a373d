//! What the watchdog keeps of one container from poll to poll.
use crate::notice::{Event, Notice};
use crate::time::{elapsed, secs, Clock, Duration, Instant, CLOCK_RANGE};
use vstd::arithmetic::power2::{lemma2_to64, lemma_pow2_pos, lemma_pow2_unfold, pow2};
use vstd::prelude::*;

verus! {

/// Seconds between the first attempt to bring a container back and the next.
pub const INITIAL_BACKOFF_SECS: u64 = 5;

/// Seconds that the backoff never exceeds.
pub const MAX_BACKOFF_SECS: u64 = 300;

/// Seconds for which a container has to be stable before its backoff is reset.
pub const STABILITY_THRESHOLD_SECS: u64 = 60;

/// Seconds for which a container may be unhealthy before it is restarted.
pub const UNHEALTHY_THRESHOLD_SECS: u64 = 60;

/// Per-container tracking state.
pub struct ContainerState {
    /// The backoff that the next attempt arms. It doubles with each attempt, up to the maximum.
    pub backoff: Duration,
    /// The earliest time at which the next attempt may be made.
    pub next_restart_at: Option<Instant>,
    /// The number of attempts since the backoff was last reset.
    pub restart_count: u32,
    /// When the container was first observed stable.
    pub stable_since: Option<Instant>,
    /// When the container was first observed unhealthy.
    pub unhealthy_since: Option<Instant>,
    /// The clock that all of the above are read from.
    pub clock: Clock,
}

/// The mathematical content of a [`ContainerState`]: spans and points in time are numbers of
/// nanoseconds.
pub struct Tracking {
    pub backoff: nat,
    pub next_restart_at: Option<int>,
    pub restart_count: nat,
    pub stable_since: Option<int>,
    pub unhealthy_since: Option<int>,
}

/// The point in time that an optional instant stands for.
pub open spec fn point(at: Option<Instant>) -> Option<int> {
    match at {
        Some(i) => Some(i@),
        None => None,
    }
}

/// The span of `nanos` nanoseconds.
pub open spec fn span(nanos: nat) -> Duration {
    Duration { nanos: nanos as u128 }
}

/// The smaller of two spans.
pub open spec fn shorter(a: nat, b: nat) -> nat {
    if a <= b {
        a
    } else {
        b
    }
}

/// The backoff that is in force after `attempts` attempts in a row: it starts at the initial
/// backoff and doubles with each attempt, and is capped at the maximum.
pub open spec fn paced(attempts: nat) -> nat {
    shorter(secs(INITIAL_BACKOFF_SECS) * pow2(attempts), secs(MAX_BACKOFF_SECS))
}

impl Tracking {
    /// The state of a container that has not been observed yet.
    pub open spec fn initial() -> Tracking {
        Tracking {
            backoff: secs(INITIAL_BACKOFF_SECS),
            next_restart_at: None,
            restart_count: 0,
            stable_since: None,
            unhealthy_since: None,
        }
    }

    /// The backoff is the one that the number of attempts calls for.
    pub open spec fn well_formed(self) -> bool {
        self.backoff == paced(self.restart_count)
    }

    /// Since when the container counts as stable if it is observed stable at `now`.
    pub open spec fn stable_from(self, now: int) -> int {
        match self.stable_since {
            Some(since) => since,
            None => now,
        }
    }

    /// Whether a stable observation at `now` resets the backoff: there is something to reset,
    /// and the container has been stable long enough.
    pub open spec fn reset_due(self, now: int) -> bool {
        &&& self.restart_count > 0
        &&& elapsed(self.stable_from(now), now) >= secs(STABILITY_THRESHOLD_SECS)
    }

    /// After the container was observed stable at `now`.
    pub open spec fn healthy(self, now: int) -> Tracking {
        if self.reset_due(now) {
            Tracking { stable_since: Some(self.stable_from(now)), ..Tracking::initial() }
        } else {
            Tracking {
                stable_since: Some(self.stable_from(now)),
                unhealthy_since: None,
                ..self
            }
        }
    }

    /// With nothing known of how long the container has been stable or unhealthy.
    pub open spec fn cleared(self) -> Tracking {
        Tracking { stable_since: None, unhealthy_since: None, ..self }
    }

    /// Since when the container counts as unhealthy if it is observed unhealthy at `now`.
    pub open spec fn unhealthy_from(self, now: int) -> int {
        match self.unhealthy_since {
            Some(since) => since,
            None => now,
        }
    }

    /// After the container was observed unhealthy at `now`.
    pub open spec fn unhealthy(self, now: int) -> Tracking {
        Tracking {
            stable_since: None,
            unhealthy_since: Some(self.unhealthy_from(now)),
            ..self
        }
    }

    /// How long the container has been unhealthy at `now`, where it is.
    pub open spec fn unhealthy_for(self, now: int) -> Option<nat> {
        match self.unhealthy_since {
            Some(since) => Some(elapsed(since, now)),
            None => None,
        }
    }

    /// Whether an attempt may be made at `now`.
    pub open spec fn due(self, now: int) -> bool {
        self.next_restart_at matches Some(at) ==> at <= now
    }

    /// After an attempt that ended at `now`.
    pub open spec fn attempted(self, now: int) -> Tracking {
        Tracking {
            restart_count: self.restart_count + 1,
            next_restart_at: Some(now + self.backoff),
            backoff: shorter(2 * self.backoff, secs(MAX_BACKOFF_SECS)),
            ..self
        }
    }

    /// Whether an attempt that ends at `now` can be recorded within the machine's numbers: the
    /// count, the doubled backoff and the end of the window that is armed.
    pub open spec fn recordable(self, now: int) -> bool {
        &&& self.restart_count < u32::MAX
        &&& 2 * self.backoff <= u128::MAX
        &&& now + self.backoff <= i128::MAX
    }

    /// What a stable observation at `now` has to report.
    pub open spec fn healthy_event(self, now: int) -> Option<Event> {
        if self.reset_due(now) {
            Some(Event::BackoffReset { uptime: span(elapsed(self.stable_from(now), now)) })
        } else {
            None
        }
    }

    /// What the record of an attempt has to report.
    pub open spec fn attempted_event(self, now: int) -> Event {
        Event::AttemptRecorded {
            attempt: self.attempted(now).restart_count as u32,
            backoff: span(self.backoff),
            next_backoff: span(self.attempted(now).backoff),
        }
    }
}

impl View for ContainerState {
    type V = Tracking;

    open spec fn view(&self) -> Tracking {
        Tracking {
            backoff: self.backoff@,
            next_restart_at: point(self.next_restart_at),
            restart_count: self.restart_count as nat,
            stable_since: point(self.stable_since),
            unhealthy_since: point(self.unhealthy_since),
        }
    }
}

/// A doubled and capped backoff is the backoff of one attempt more.
pub proof fn lemma_paced_doubles(attempts: nat)
    ensures
        paced(attempts + 1) == shorter(2 * paced(attempts), secs(MAX_BACKOFF_SECS)),
        secs(INITIAL_BACKOFF_SECS) <= paced(attempts) <= secs(MAX_BACKOFF_SECS),
{
    lemma_pow2_pos(attempts);
    lemma_pow2_unfold(attempts + 1);
    let initial = secs(INITIAL_BACKOFF_SECS);
    let factor = pow2(attempts);
    assert(initial * (2 * factor) == 2 * (initial * factor)) by (nonlinear_arith);
    assert(initial * factor >= initial) by (nonlinear_arith)
        requires
            factor >= 1,
    ;
}

impl ContainerState {
    /// The state of a container that has not been observed yet, with a clock of its own.
    pub fn new() -> (r: Self)
        ensures
            r@ == Tracking::initial(),
            r@.well_formed(),
            r.clock.started(),
    {
        proof {
            lemma2_to64();
        }
        ContainerState {
            backoff: Duration::from_secs(INITIAL_BACKOFF_SECS),
            next_restart_at: None,
            restart_count: 0,
            stable_since: None,
            unhealthy_since: None,
            clock: Clock::start(),
        }
    }

    /// Takes note that the container was observed running and stable at `now`. Once it has been
    /// stable for the stability threshold, the attempts made so far are forgotten.
    pub fn on_healthy_at(&mut self, now: Instant) -> (r: Option<Event>)
        ensures
            final(self)@ == old(self)@.healthy(now@),
            r == old(self)@.healthy_event(now@),
            final(self).clock == old(self).clock,
            old(self)@.well_formed() ==> final(self)@.well_formed(),
    {
        proof {
            lemma2_to64();
        }
        self.unhealthy_since = None;
        let since: Instant = match self.stable_since {
            Some(since) => since,
            None => now,
        };
        self.stable_since = Some(since);
        let uptime = now.saturating_duration_since(since);
        if self.restart_count > 0 && uptime.nanos >= Duration::from_secs(
            STABILITY_THRESHOLD_SECS,
        ).nanos {
            self.backoff = Duration::from_secs(INITIAL_BACKOFF_SECS);
            self.restart_count = 0;
            self.next_restart_at = None;
            Some(Event::BackoffReset { uptime })
        } else {
            None
        }
    }

    /// Takes note that the container `name` is observed running and stable now.
    pub fn on_healthy(&mut self, name: &str) -> (r: Option<Notice>)
        ensures
            exists|now: int|
                0 <= now < CLOCK_RANGE && old(self).clock.shows(now)
                    && final(self)@ == #[trigger] old(self)@.healthy(now)
                    && match r {
                    Some(notice) => {
                        &&& notice@.0 == name@
                        &&& old(self)@.healthy_event(now) == Some(notice@.1)
                    },
                    None => old(self)@.healthy_event(now) is None,
                },
            final(self).clock == old(self).clock,
            old(self)@.well_formed() ==> final(self)@.well_formed(),
    {
        let now = self.clock.now();
        let event = self.on_healthy_at(now);
        assert(self@ == old(self)@.healthy(now@));
        match event {
            Some(event) => Some(Notice::about(name, event)),
            None => None,
        }
    }

    /// Takes note that the container is running while its health check has not settled.
    pub fn on_health_starting(&mut self)
        ensures
            final(self)@ == old(self)@.cleared(),
            final(self).clock == old(self).clock,
    {
        self.stable_since = None;
        self.unhealthy_since = None;
    }

    /// Takes note that the container was observed unhealthy at `now`. The time of the first
    /// such observation is kept.
    pub fn on_unhealthy_at(&mut self, now: Instant)
        ensures
            final(self)@ == old(self)@.unhealthy(now@),
            final(self).clock == old(self).clock,
    {
        self.stable_since = None;
        if self.unhealthy_since.is_none() {
            self.unhealthy_since = Some(now);
        }
    }

    /// Takes note that the container is observed unhealthy now.
    pub fn on_unhealthy(&mut self)
        ensures
            exists|now: int|
                0 <= now < CLOCK_RANGE && old(self).clock.shows(now)
                    && final(self)@ == #[trigger] old(self)@.unhealthy(now),
            final(self).clock == old(self).clock,
    {
        let now = self.clock.now();
        self.on_unhealthy_at(now);
        assert(self@ == old(self)@.unhealthy(now@));
    }

    /// Takes note that the container is not running.
    pub fn on_stopped(&mut self)
        ensures
            final(self)@ == old(self)@.cleared(),
            final(self).clock == old(self).clock,
    {
        self.stable_since = None;
        self.unhealthy_since = None;
    }

    /// Takes note that a maintenance marker keeps the container from being restarted.
    pub fn on_maintenance(&mut self)
        ensures
            final(self)@ == old(self)@.cleared(),
            final(self).clock == old(self).clock,
    {
        self.stable_since = None;
        self.unhealthy_since = None;
    }

    /// How long the container has been unhealthy without a break at `now`, if it is.
    pub fn unhealthy_for_at(&self, now: Instant) -> (r: Option<Duration>)
        ensures
            match r {
                Some(d) => self@.unhealthy_for(now@) == Some(d@),
                None => self@.unhealthy_for(now@) is None,
            },
    {
        match self.unhealthy_since {
            Some(since) => Some(now.saturating_duration_since(since)),
            None => None,
        }
    }

    /// How long the container has been unhealthy without a break, if it is.
    pub fn unhealthy_for(&self) -> (r: Option<Duration>)
        ensures
            exists|now: int|
                0 <= now < CLOCK_RANGE && self.clock.shows(now) && match r {
                    Some(d) => #[trigger] self@.unhealthy_for(now) == Some(d@),
                    None => self@.unhealthy_for(now) is None,
                },
    {
        let now = self.clock.now();
        self.unhealthy_for_at(now)
    }

    /// Whether the backoff window has passed at `now`, so that an attempt may be made.
    pub fn should_restart_at(&self, now: Instant) -> (r: bool)
        ensures
            r == self@.due(now@),
    {
        match self.next_restart_at {
            None => true,
            Some(at) => now.nanos >= at.nanos,
        }
    }

    /// Whether the backoff window has passed, so that an attempt may be made now.
    pub fn should_restart_now(&self) -> (r: bool)
        ensures
            exists|now: int|
                0 <= now < CLOCK_RANGE && self.clock.shows(now) && r == #[trigger] self@.due(now),
    {
        let now = self.clock.now();
        self.should_restart_at(now)
    }

    /// Whether an attempt that ends at `now` can be recorded within the machine's numbers.
    pub fn is_recordable_at(&self, now: Instant) -> (r: bool)
        ensures
            r == self@.recordable(now@),
    {
        self.restart_count < u32::MAX && self.backoff.nanos <= i128::MAX as u128 && (now.nanos <= 0
            || self.backoff.nanos as i128 <= i128::MAX - now.nanos)
    }

    /// Counts an attempt that ended at `now` and arms the next backoff window.
    pub fn record_restart_attempt_at(&mut self, now: Instant) -> (r: Event)
        requires
            old(self)@.recordable(now@),
        ensures
            final(self)@ == old(self)@.attempted(now@),
            r == old(self)@.attempted_event(now@),
            final(self).clock == old(self).clock,
            old(self)@.well_formed() ==> final(self)@.well_formed(),
    {
        proof {
            lemma_paced_doubles(self.restart_count as nat);
        }
        self.restart_count = self.restart_count + 1;
        let current = self.backoff;
        self.next_restart_at = Some(now.plus(current));
        let doubled: u128 = current.nanos * 2;
        let max = Duration::from_secs(MAX_BACKOFF_SECS);
        self.backoff = if doubled <= max.nanos {
            Duration { nanos: doubled }
        } else {
            max
        };
        Event::AttemptRecorded {
            attempt: self.restart_count,
            backoff: current,
            next_backoff: self.backoff,
        }
    }

    /// Counts an attempt on the container `name` that ends now and arms the next backoff window.
    /// It has to be recordable at every moment that the clock can show.
    pub fn record_restart_attempt(&mut self, name: &str) -> (r: Notice)
        requires
            old(self)@.recordable(CLOCK_RANGE as int),
        ensures
            exists|now: int|
                0 <= now < CLOCK_RANGE && old(self).clock.shows(now)
                    && final(self)@ == #[trigger] old(self)@.attempted(now)
                    && r@ == (name@, old(self)@.attempted_event(now)),
            final(self).clock == old(self).clock,
            old(self)@.well_formed() ==> final(self)@.well_formed(),
    {
        let now = self.clock.now();
        let event = self.record_restart_attempt_at(now);
        assert(self@ == old(self)@.attempted(now@));
        Notice::about(name, event)
    }
}

} // verus!
