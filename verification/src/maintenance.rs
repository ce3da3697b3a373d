//! Maintenance markers: files by which an operator keeps a container from being restarted until
//! a given time.
use vstd::prelude::*;
use vstd::string::StringExecFns;

verus! {

/// A point in calendar time: whole seconds since the Unix epoch, and nanoseconds on top of
/// them. The nanoseconds reach past one second only within a leap second.
#[derive(Clone, Copy, Debug, PartialEq, Eq, Structural)]
pub struct Timestamp {
    pub secs: i64,
    pub nanos: u32,
}

impl Timestamp {
    /// Whether this point in time lies after `other`.
    pub open spec fn after(self, other: Timestamp) -> bool {
        self.secs > other.secs || (self.secs == other.secs && self.nanos > other.nanos)
    }

    /// Whether this is a time that a calendar clock can show: it does not lie before the Unix
    /// epoch, nor within a leap second.
    pub open spec fn since_epoch(self) -> bool {
        self.secs >= 0 && self.nanos < 1_000_000_000
    }

    /// This point in time as chrono writes it in RFC 3339, where chrono can hold it.
    pub fn to_rfc3339(&self) -> (r: Option<String>)
        ensures
            match r {
                Some(text) => chrono_rfc3339(self.secs, self.nanos) == Some(text@),
                None => chrono_rfc3339(self.secs, self.nanos) is None,
            },
    {
        format_time(self.secs, self.nanos)
    }
}

/// A marker that an external maintenance job has written.
pub struct MaintenanceMarker {
    /// When the marker stops keeping the container from being restarted.
    pub expires_at: Timestamp,
    /// Why the container is in maintenance, in words for people.
    pub reason: Option<String>,
}

impl MaintenanceMarker {
    /// Whether the marker is still in force at `now`.
    pub fn is_active(&self, now: Timestamp) -> (r: bool)
        ensures
            r == self.expires_at.after(now),
    {
        self.expires_at.secs > now.secs || (self.expires_at.secs == now.secs
            && self.expires_at.nanos > now.nanos)
    }
}

/// The fields of a marker file as they are written in it.
pub struct MarkerFields {
    /// The time of expiry as text.
    pub expires_at: String,
    /// The reason, where the file gives one.
    pub reason: Option<String>,
}

/// What came of looking for the marker file of a container.
pub enum MarkerReading {
    /// No directory for marker files is configured.
    NoDirectory,
    /// There is no marker file for the container.
    NotFound,
    /// The marker file could not be read.
    Unreadable,
    /// The marker file does not hold the fields of a marker.
    Malformed,
    /// The marker file holds these fields.
    Fields(MarkerFields),
}

/// What the marker file of a container means for it.
pub enum MaintenanceFinding {
    /// No marker is in place, or markers are not in use.
    NoMarker,
    /// The marker file could not be read; it is ignored.
    Unreadable,
    /// The marker file does not hold the fields of a marker; it is ignored.
    Malformed,
    /// The time of expiry cannot be read as a time; the marker is ignored.
    BadExpiry { error: chrono::ParseError },
    /// The marker is in force.
    Active { expires_at: Timestamp, reason: String },
    /// The marker has expired.
    Expired { expires_at: Timestamp },
}

/// Declares `chrono::ParseError`, which says why a text is not a time, to Verus. A value of it
/// is opaque.
#[verifier::external_type_specification]
#[verifier::external_body]
pub struct ExParseError(chrono::ParseError);

/// The seconds since the Unix epoch and the nanoseconds on top of them that chrono reads out of
/// a text in its relaxed form of RFC 3339, and nothing where it rejects the text.
pub uninterp spec fn chrono_time(text: Seq<char>) -> Option<(i64, u32)>;

/// Calls `str::parse` for `chrono::DateTime<chrono::Utc>`, and takes the time it returns apart
/// into `timestamp` and `timestamp_subsec_nanos`. The contract says that whether the text is
/// accepted, and as which time, depends on the text alone. Which texts are times, and which
/// error a rejected text gives, is not stated.
#[verifier::external_body]
fn parse_time(text: &str) -> (r: Result<(i64, u32), chrono::ParseError>)
    ensures
        match r {
            Ok(time) => chrono_time(text@) == Some(time),
            Err(_) => chrono_time(text@) is None,
        },
{
    let time = text.parse::<chrono::DateTime<chrono::Utc>>()?;
    Ok((time.timestamp(), time.timestamp_subsec_nanos()))
}

/// The RFC 3339 text that chrono writes for a time in UTC, given as seconds since the Unix epoch
/// and nanoseconds on top of them, and nothing where it has no such time.
pub uninterp spec fn chrono_rfc3339(secs: i64, nanos: u32) -> Option<Seq<char>>;

/// Calls `chrono::DateTime::to_rfc3339` on the time that `chrono::DateTime::from_timestamp` makes
/// of the seconds and nanoseconds. The contract says that whether there is such a time, and how
/// it is written, depends on these two numbers alone. The text itself is not stated.
#[verifier::external_body]
fn format_time(secs: i64, nanos: u32) -> (r: Option<String>)
    ensures
        match r {
            Some(text) => chrono_rfc3339(secs, nanos) == Some(text@),
            None => chrono_rfc3339(secs, nanos) is None,
        },
{
    let time = chrono::DateTime::from_timestamp(secs, nanos)?;
    Some(time.to_rfc3339())
}

/// Calls `chrono::Utc::now` and takes the time apart into `timestamp` and
/// `timestamp_subsec_nanos`. The machine's clock decides what time it is. All that is claimed is
/// that it is not before the Unix epoch, since chrono measures it from there and panics on a
/// clock that is set before it, and that the nanoseconds make up less than one second.
#[verifier::external_body]
fn read_calendar() -> (r: (i64, u32))
    ensures
        r.0 >= 0,
        r.1 < 1_000_000_000,
{
    let now = chrono::Utc::now();
    (now.timestamp(), now.timestamp_subsec_nanos())
}

/// Whether `now` is a time that the machine's calendar shows: what a reading of it gave.
pub closed spec fn calendar_shows(now: Timestamp) -> bool {
    call_ensures(read_calendar, (), (now.secs, now.nanos))
}

/// The calendar shows no time but one that was read off it.
proof fn law_shown_times_are_read(now: Timestamp)
    requires
        calendar_shows(now),
    ensures
        call_ensures(read_calendar, (), (now.secs, now.nanos)),
{
}

/// Every time that the calendar shows lies since the Unix epoch: its seconds are not negative, and
/// its nanoseconds make up less than one second.
pub proof fn law_calendar_shows_since_epoch(now: Timestamp)
    requires
        calendar_shows(now),
    ensures
        now.since_epoch(),
        now.secs >= 0,
        now.nanos < 1_000_000_000,
{
    law_shown_times_are_read(now);
}

/// The name of the marker file of the container `name`.
pub fn marker_file_name(name: &str) -> (r: String)
    ensures
        r@ == name@ + ".json"@,
{
    name.to_owned().concat(".json")
}

/// The reason to give for a marker: its own, or a stand-in.
pub open spec fn shown_reason(reason: Option<String>) -> Seq<char> {
    match reason {
        Some(text) => text@,
        None => "unspecified"@,
    }
}

impl MaintenanceFinding {
    /// Whether the container is to be left alone.
    pub open spec fn in_force(self) -> bool {
        self is Active
    }

    /// Whether the container is to be left alone: only a marker in force keeps it from being
    /// restarted.
    pub fn suppresses_restart(&self) -> (r: bool)
        ensures
            r == self.in_force(),
    {
        match self {
            MaintenanceFinding::Active { .. } => true,
            _ => false,
        }
    }

    /// This is the finding on a marker that expires at `expires_at`, for the reason `reason`,
    /// when it is looked at at `now`.
    pub open spec fn judges(
        self,
        expires_at: Timestamp,
        reason: Option<String>,
        now: Timestamp,
    ) -> bool {
        if expires_at.after(now) {
            self matches MaintenanceFinding::Active { expires_at: e, reason: shown }
                && e == expires_at && shown@ == shown_reason(reason)
        } else {
            self == (MaintenanceFinding::Expired { expires_at })
        }
    }

    /// This is the finding on `reading` at `now`, where `expiry` is the time that the text of
    /// its expiry stands for.
    pub open spec fn follows(
        self,
        reading: MarkerReading,
        expiry: Option<(i64, u32)>,
        now: Timestamp,
    ) -> bool {
        match reading {
            MarkerReading::NoDirectory | MarkerReading::NotFound => self is NoMarker,
            MarkerReading::Unreadable => self is Unreadable,
            MarkerReading::Malformed => self is Malformed,
            MarkerReading::Fields(fields) => match expiry {
                Some((secs, nanos)) => self.judges(
                    Timestamp { secs, nanos },
                    fields.reason,
                    now,
                ),
                None => self is BadExpiry,
            },
        }
    }
}

/// What a marker that was read means at `now`.
pub fn judge_marker(marker: MaintenanceMarker, now: Timestamp) -> (r: MaintenanceFinding)
    ensures
        r.judges(marker.expires_at, marker.reason, now),
{
    if marker.is_active(now) {
        MaintenanceFinding::Active {
            expires_at: marker.expires_at,
            reason: match marker.reason {
                Some(text) => text,
                None => "unspecified".to_owned(),
            },
        }
    } else {
        MaintenanceFinding::Expired { expires_at: marker.expires_at }
    }
}

/// The time that the expiry of a reading stands for, where it has one that chrono accepts.
pub open spec fn reading_expiry(reading: MarkerReading) -> Option<(i64, u32)> {
    match reading {
        MarkerReading::Fields(fields) => chrono_time(fields.expires_at@),
        _ => None,
    }
}

/// Reads the marker out of a reading, or gives the finding on a reading that holds none. No clock
/// is needed for that.
pub fn read_marker(reading: MarkerReading) -> (r: Result<MaintenanceMarker, MaintenanceFinding>)
    ensures
        match r {
            Ok(marker) => {
                &&& reading matches MarkerReading::Fields(fields) && marker.reason == fields.reason
                &&& reading_expiry(reading) == Some(
                    (marker.expires_at.secs, marker.expires_at.nanos),
                )
            },
            Err(finding) => {
                &&& reading_expiry(reading) is None
                &&& forall|now: Timestamp| #[trigger] finding.follows(reading, None, now)
            },
        },
{
    match reading {
        MarkerReading::NoDirectory => Err(MaintenanceFinding::NoMarker),
        MarkerReading::NotFound => Err(MaintenanceFinding::NoMarker),
        MarkerReading::Unreadable => Err(MaintenanceFinding::Unreadable),
        MarkerReading::Malformed => Err(MaintenanceFinding::Malformed),
        MarkerReading::Fields(fields) => match parse_time(fields.expires_at.as_str()) {
            Ok((secs, nanos)) => Ok(
                MaintenanceMarker {
                    expires_at: Timestamp { secs, nanos },
                    reason: fields.reason,
                },
            ),
            Err(error) => Err(MaintenanceFinding::BadExpiry { error }),
        },
    }
}

/// What the marker file of a container means at `now`. A marker that is missing, cannot be read
/// or makes no sense keeps nothing from being restarted.
pub fn should_skip_for_maintenance_at(reading: MarkerReading, now: Timestamp) -> (r:
    MaintenanceFinding)
    ensures
        r.follows(reading, reading_expiry(reading), now),
{
    match read_marker(reading) {
        Ok(marker) => judge_marker(marker, now),
        Err(finding) => finding,
    }
}

/// What the marker file of a container means now. The calendar is consulted only where there is
/// a marker to hold against it.
pub fn should_skip_for_maintenance(reading: MarkerReading) -> (r: MaintenanceFinding)
    ensures
        exists|now: Timestamp|
            {
                &&& now.since_epoch()
                &&& reading_expiry(reading) is Some ==> calendar_shows(now)
                &&& #[trigger] r.follows(reading, reading_expiry(reading), now)
            },
{
    match read_marker(reading) {
        Ok(marker) => {
            let (secs, nanos): (i64, u32) = read_calendar();
            let now = Timestamp { secs, nanos };
            let finding = judge_marker(marker, now);
            assert(finding.follows(reading, reading_expiry(reading), now));
            finding
        },
        Err(finding) => {
            assert(finding.follows(reading, None, Timestamp { secs: 0, nanos: 0 }));
            finding
        },
    }
}

} // verus!
