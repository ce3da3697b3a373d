//! Spans of time, points in time, and the monotonic clock that yields them.
use vstd::prelude::*;

verus! {

/// Nanoseconds in one second.
pub const NANOS_PER_SEC: u128 = 1_000_000_000;

/// Every reading of a [`Clock`] lies below this many nanoseconds, which is one more than
/// `u64::MAX` seconds.
pub const CLOCK_RANGE: u128 = 18_446_744_073_709_551_616_000_000_000;

/// A span of time, counted in nanoseconds.
#[derive(Clone, Copy, Debug, PartialEq, Eq, PartialOrd, Ord, Structural)]
pub struct Duration {
    pub nanos: u128,
}

/// A point on the time line of one [`Clock`], counted in nanoseconds from the moment that
/// clock was started; points before that moment are negative.
#[derive(Clone, Copy, Debug, PartialEq, Eq, PartialOrd, Ord, Structural)]
pub struct Instant {
    pub nanos: i128,
}

impl View for Duration {
    type V = nat;

    open spec fn view(&self) -> nat {
        self.nanos as nat
    }
}

impl View for Instant {
    type V = int;

    open spec fn view(&self) -> int {
        self.nanos as int
    }
}

/// The time that has passed at `now` since `since`, and zero where `since` is still to come.
pub open spec fn elapsed(since: int, now: int) -> nat {
    if since <= now {
        (now - since) as nat
    } else {
        0
    }
}

/// The nanoseconds in `n` whole seconds.
pub open spec fn secs(n: u64) -> nat {
    (n * NANOS_PER_SEC) as nat
}

impl Duration {
    /// A span of `n` whole seconds.
    pub fn from_secs(n: u64) -> (r: Duration)
        ensures
            r@ == secs(n),
    {
        Duration { nanos: n as u128 * NANOS_PER_SEC }
    }

    /// The whole seconds in this span; a fraction of a second is dropped.
    pub fn as_secs(&self) -> (r: u128)
        ensures
            r * NANOS_PER_SEC <= self@ < (r + 1) * NANOS_PER_SEC,
    {
        self.nanos / NANOS_PER_SEC
    }
}

impl Instant {
    /// The instant at which a clock has run for `whole` seconds and `nanos` nanoseconds.
    pub fn after_start(whole: u64, nanos: u32) -> (r: Instant)
        ensures
            r@ == secs(whole) + nanos,
    {
        Instant { nanos: whole as i128 * 1_000_000_000 + nanos as i128 }
    }

    /// The time that has passed at this instant since `earlier`, and zero where `earlier` is
    /// the later of the two.
    pub fn saturating_duration_since(&self, earlier: Instant) -> (r: Duration)
        ensures
            r@ == elapsed(earlier@, self@),
    {
        if self.nanos <= earlier.nanos {
            Duration { nanos: 0 }
        } else if earlier.nanos >= 0 || self.nanos < 0 {
            Duration { nanos: (self.nanos - earlier.nanos) as u128 }
        } else {
            Duration { nanos: self.nanos as u128 + (-(earlier.nanos + 1)) as u128 + 1 }
        }
    }

    /// The instant that lies `span` after this one.
    pub fn plus(&self, span: Duration) -> (r: Instant)
        requires
            self@ + span@ <= i128::MAX,
        ensures
            r@ == self@ + span@,
    {
        if span.nanos <= i128::MAX as u128 {
            Instant { nanos: self.nanos + span.nanos as i128 }
        } else {
            let rest: u128 = span.nanos - i128::MAX as u128 - 1;
            Instant { nanos: self.nanos + i128::MAX + 1 + rest as i128 }
        }
    }
}

/// Declares `std::time::Instant`, a reading of the machine's monotonic clock, to Verus. A
/// value of it is opaque.
#[verifier::external_type_specification]
#[verifier::external_body]
pub struct ExStdInstant(std::time::Instant);

/// Calls `std::time::Instant::now`. Nothing is claimed of the reading it returns.
#[verifier::external_body]
fn read_monotonic() -> (r: std::time::Instant) {
    std::time::Instant::now()
}

/// Calls `std::time::Instant::elapsed` and takes the span it returns apart into whole seconds
/// and the nanoseconds left over. All that is claimed is that those nanoseconds make up less
/// than one second; how much time has passed depends on the machine.
#[verifier::external_body]
fn read_elapsed(origin: &std::time::Instant) -> (r: (u64, u32))
    ensures
        r.1 < 1_000_000_000,
{
    let span = origin.elapsed();
    (span.as_secs(), span.subsec_nanos())
}

/// A monotonic clock that counts from the moment it was started.
pub struct Clock {
    origin: std::time::Instant,
}

impl Clock {
    /// Whether the start of this clock was read off the machine's monotonic clock.
    pub closed spec fn started(&self) -> bool {
        call_ensures(read_monotonic, (), self.origin)
    }

    /// Whether `now` is a moment that this clock shows: the seconds and nanoseconds that a reading
    /// of the time elapsed since its own start gave.
    pub closed spec fn shows(&self, now: int) -> bool {
        exists|whole: u64, nanos: u32|
            #[trigger] call_ensures(read_elapsed, (&self.origin,), (whole, nanos)) && now == secs(
                whole,
            ) + nanos
    }

    /// A clock shows no moment but one that was read off the time elapsed since its own start.
    proof fn law_shown_moments_are_read(&self, now: int)
        requires
            self.shows(now),
        ensures
            exists|reading: (u64, u32)| #[trigger]
                call_ensures(read_elapsed, (&self.origin,), reading) && now == reading.0
                    * 1_000_000_000 + reading.1,
    {
        let (whole, nanos) = choose|whole: u64, nanos: u32|
            #[trigger] call_ensures(read_elapsed, (&self.origin,), (whole, nanos)) && now == secs(
                whole,
            ) + nanos;
        assert(call_ensures(read_elapsed, (&self.origin,), (whole, nanos)));
    }

    /// Every moment that a clock shows lies at or after its start and within its range.
    pub proof fn law_shown_moments_are_in_range(&self, now: int)
        requires
            self.shows(now),
        ensures
            0 <= now < CLOCK_RANGE,
    {
        self.law_shown_moments_are_read(now);
    }

    /// Starts a clock at the present moment.
    pub fn start() -> (r: Clock)
        ensures
            r.started(),
    {
        Clock { origin: read_monotonic() }
    }

    /// The present moment on this clock. It never lies before the start of the clock.
    pub fn now(&self) -> (r: Instant)
        ensures
            0 <= r@ < CLOCK_RANGE,
            self.shows(r@),
    {
        let (whole, nanos): (u64, u32) = read_elapsed(&self.origin);
        Instant::after_start(whole, nanos)
    }
}

} // verus!
