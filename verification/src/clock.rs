//! Instants in time and the clocks that tell them.

use vstd::prelude::*;
use vstd::string::*;

verus! {

/// The first second of which `chrono` has an instant: the one that
/// `DateTime::MIN_UTC` tells, midnight before the first day of the year
/// -262143.
pub const MIN_SECS: i64 = -8_334_601_228_800;

/// The last second of which `chrono` has an instant: the one that
/// `DateTime::MAX_UTC` tells, the last of the year 262142.
pub const MAX_SECS: i64 = 8_210_266_876_799;

/// Whether `chrono` has an instant `secs` whole seconds after the Unix epoch
/// and `nanos` nanoseconds after that second began: the second lies in the
/// years that `chrono` spans, and the nanoseconds are below one second, or
/// below two in the last second of a minute, where they stand for a leap
/// second.
pub open spec fn is_instant(secs: int, nanos: int) -> bool {
    &&& MIN_SECS <= secs <= MAX_SECS
    &&& 0 <= nanos < 2_000_000_000
    &&& nanos >= 1_000_000_000 ==> secs % 60 == 59
}

/// What `chrono` prints for the UTC instant `secs` whole seconds after the
/// Unix epoch, and `nanos` nanoseconds after that second began: the date,
/// the time of day and the word `UTC`.
pub uninterp spec fn utc_text(secs: int, nanos: int) -> Seq<char>;

/// An instant in UTC: whole seconds since the Unix epoch and nanoseconds
/// since that second began. Every value is an instant of `chrono`.
#[derive(Clone, Copy, Debug, PartialEq, Eq)]
pub struct Timestamp {
    secs: i64,
    nanos: u32,
}

/// The second of the day on which the second `secs` falls.
pub open spec fn second_of_day(secs: int) -> int {
    secs % 86_400
}

/// The second that `chrono` counts for a leap second between two instants:
/// one more where the first instant stands in a leap second and the second
/// instant later in its day, one less where the second instant stands in a
/// leap second and the first instant later in its day.
pub open spec fn leap_second(from: Timestamp, to: Timestamp) -> int {
    if second_of_day(to.secs()) > second_of_day(from.secs()) && from.nanos() >= 1_000_000_000 {
        1
    } else if second_of_day(to.secs()) < second_of_day(from.secs()) && to.nanos()
        >= 1_000_000_000 {
        -1
    } else {
        0
    }
}

/// The nanoseconds from one instant to another, as `chrono` subtracts two
/// instants: the seconds between them, a leap second where it counts one,
/// and the nanoseconds between them. Negative where the second instant lies
/// before the first.
pub open spec fn nanos_between(from: Timestamp, to: Timestamp) -> int {
    (to.secs() - from.secs() + leap_second(from, to)) * 1_000_000_000 + (to.nanos()
        - from.nanos())
}

/// `chrono::DateTime::from_timestamp`, and `to_string` on the instant that it
/// gives. `from_timestamp` has an instant for the two numbers where the day
/// of the second lies in the range of `NaiveDate` and
/// `NaiveTime::from_num_seconds_from_midnight_opt` takes the nanoseconds; the
/// text then depends on the two numbers alone.
#[verifier::external_body]
fn format_utc(secs: i64, nanos: u32) -> (r: Option<String>)
    ensures
        r is Some <==> is_instant(secs as int, nanos as int),
        r matches Some(text) ==> text@ == utc_text(secs as int, nanos as int),
{
    match chrono::DateTime::from_timestamp(secs, nanos) {
        Some(instant) => Some(instant.to_string()),
        None => None,
    }
}

/// `chrono::Utc::now`, taken apart by `DateTime::timestamp` and
/// `DateTime::timestamp_subsec_nanos`. The reading is the system clock's, so
/// nothing is said of it but that it is an instant of `chrono`, which
/// `from_timestamp` gives back from these two numbers. `Utc::now` panics
/// where the system clock stands before the Unix epoch.
#[verifier::external_body]
fn utc_now() -> (t: Timestamp)
    ensures
        t.wf(),
{
    let now = chrono::Utc::now();
    Timestamp { secs: now.timestamp(), nanos: now.timestamp_subsec_nanos() }
}

/// The remainder of `secs` by `by` that is not negative.
fn remainder(secs: i64, by: i64) -> (r: i64)
    requires
        by > 0,
    ensures
        r == secs % by,
{
    match secs.checked_rem_euclid(by) {
        Some(r) => r,
        None => unreached(),
    }
}

impl Timestamp {
    #[verifier::type_invariant]
    spec fn representable(self) -> bool {
        self.wf()
    }

    /// Whole seconds since the Unix epoch.
    pub closed spec fn secs(self) -> int {
        self.secs as int
    }

    /// Nanoseconds since the last whole second.
    pub closed spec fn nanos(self) -> int {
        self.nanos as int
    }

    /// The instant is one of `chrono`.
    pub open spec fn wf(self) -> bool {
        is_instant(self.secs(), self.nanos())
    }

    /// The instant as it is printed.
    pub open spec fn text(self) -> Seq<char> {
        utc_text(self.secs(), self.nanos())
    }

    /// The instant `secs` seconds and `nanos` nanoseconds after the Unix
    /// epoch, if `chrono` has one.
    pub fn new(secs: i64, nanos: u32) -> (r: Option<Timestamp>)
        ensures
            r is Some <==> is_instant(secs as int, nanos as int),
            r matches Some(t) ==> t.secs() == secs && t.nanos() == nanos && t.wf(),
    {
        if secs < MIN_SECS || secs > MAX_SECS || nanos >= 2_000_000_000 {
            return None;
        }
        if nanos >= 1_000_000_000 && remainder(secs, 60) != 59 {
            return None;
        }
        Some(Timestamp { secs, nanos })
    }

    /// Whole seconds since the Unix epoch.
    pub fn timestamp(&self) -> (secs: i64)
        ensures
            secs == self.secs(),
    {
        self.secs
    }

    /// Nanoseconds since the last whole second.
    pub fn timestamp_subsec_nanos(&self) -> (nanos: u32)
        ensures
            nanos == self.nanos(),
    {
        self.nanos
    }

    /// The instant as it is printed.
    pub fn to_string(&self) -> (r: String)
        ensures
            self.wf(),
            r@ == self.text(),
    {
        proof {
            use_type_invariant(self);
        }
        match format_utc(self.secs, self.nanos) {
            Some(text) => text,
            None => unreached(),
        }
    }

    /// Whether more than `minutes` minutes lie between this instant and
    /// `now`.
    pub fn older_than(&self, now: &Timestamp, minutes: i64) -> (b: bool)
        ensures
            b == (nanos_between(*self, *now) > minutes * 60_000_000_000),
    {
        let from: i64 = remainder(self.secs, 86_400);
        let to: i64 = remainder(now.secs, 86_400);
        let leap: i128 = if to > from && self.nanos >= 1_000_000_000 {
            1
        } else if to < from && now.nanos >= 1_000_000_000 {
            -1
        } else {
            0
        };
        let seconds: i128 = now.secs as i128 - self.secs as i128 + leap;
        let nanos: i128 = now.nanos as i128 - self.nanos as i128;
        seconds * 1_000_000_000 + nanos > (minutes as i128) * 60_000_000_000
    }
}

/// A source of the current time.
pub trait Clock {
    /// The current instant.
    fn now(&self) -> Timestamp;
}

/// The system clock.
pub struct RealClock;

impl Clock for RealClock {
    fn now(&self) -> Timestamp {
        utc_now()
    }
}

} // verus!
