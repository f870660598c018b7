use vstd::prelude::*;

verus! {

/// The first second of the calendar, counted from 1970-01-01T00:00:00Z: the start of the
/// year -262143, the earliest that `chrono` holds.
pub const MIN_SECONDS: i64 = -8_334_601_228_800;

/// The last second of the calendar, counted from 1970-01-01T00:00:00Z: the end of the
/// year 262142, the latest that `chrono` holds.
pub const MAX_SECONDS: i64 = 8_210_266_876_799;

/// Whether `secs` seconds and `nanos` nanoseconds after the epoch name an instant of the
/// calendar: the second lies inside the calendar, and the nanosecond part stays under one
/// second, except inside a leap second, which may only follow a second whose number within
/// its minute is 59. These are the instants that `chrono::DateTime::from_timestamp` takes.
pub open spec fn is_instant(secs: int, nanos: int) -> bool {
    &&& MIN_SECONDS <= secs <= MAX_SECONDS
    &&& 0 <= nanos < 2_000_000_000
    &&& (nanos >= 1_000_000_000 ==> secs % 60 == 59)
}

/// What `chrono` prints under `{:?}` for the UTC instant `secs` seconds and `nanos`
/// nanoseconds after the epoch: the calendar date, `T`, the time of day with its fraction,
/// and `Z`. It means something only where `is_instant(secs, nanos)` holds.
pub uninterp spec fn utc_debug_text(secs: int, nanos: int) -> Seq<char>;

/// An instant of UTC: whole seconds since 1970-01-01T00:00:00Z and the nanoseconds
/// into that second. Every value is an instant of the calendar.
#[derive(Clone, Copy, Debug, PartialEq, Eq, Structural)]
pub struct Timestamp {
    secs: i64,
    nanos: u32,
}

impl Timestamp {
    #[verifier::type_invariant]
    spec fn calendar_instant(self) -> bool {
        is_instant(self.secs as int, self.nanos as int)
    }

    /// Seconds since the epoch.
    pub closed spec fn spec_seconds(self) -> int {
        self.secs as int
    }

    /// Nanoseconds into the second.
    pub closed spec fn spec_nanoseconds(self) -> int {
        self.nanos as int
    }

    /// `self` lies strictly later than `other`.
    pub open spec fn later_than(self, other: Timestamp) -> bool {
        self.spec_seconds() > other.spec_seconds() || (self.spec_seconds() == other.spec_seconds()
            && self.spec_nanoseconds() > other.spec_nanoseconds())
    }

    /// The instant `secs` seconds and `nanos` nanoseconds after the epoch, where the
    /// calendar has one.
    pub fn new(secs: i64, nanos: u32) -> (r: Option<Timestamp>)
        ensures
            r.is_some() <==> is_instant(secs as int, nanos as int),
            r matches Some(t) ==> t.spec_seconds() == secs && t.spec_nanoseconds() == nanos,
    {
        if secs < MIN_SECONDS || secs > MAX_SECONDS || nanos >= 2_000_000_000 {
            return None;
        }
        if nanos >= 1_000_000_000 {
            let rest: i64 = secs % 60;
            let second_of_minute: i64 = if rest < 0 { rest + 60 } else { rest };
            if second_of_minute != 59 {
                return None;
            }
        }
        Some(Timestamp { secs, nanos })
    }

    /// Seconds since the epoch.
    pub fn seconds(&self) -> (r: i64)
        ensures
            r == self.spec_seconds(),
    {
        self.secs
    }

    /// Nanoseconds into the second.
    pub fn nanoseconds(&self) -> (r: u32)
        ensures
            r == self.spec_nanoseconds(),
    {
        self.nanos
    }

    /// Tells whether `self` lies strictly later than `other`.
    pub fn is_after(&self, other: &Timestamp) -> (r: bool)
        ensures
            r == self.later_than(*other),
    {
        self.secs > other.secs || (self.secs == other.secs && self.nanos > other.nanos)
    }

    /// The present instant. This is `chrono::Utc::now`, with the instant taken apart by
    /// `DateTime::timestamp` and `DateTime::timestamp_subsec_nanos`. It depends on the
    /// system clock, so the contract holds only what is true of every reading: `chrono`
    /// builds the value from a span since the epoch, through `DateTime::from_timestamp`,
    /// so it is an instant of the calendar, not before the epoch and outside a leap second.
    /// Where the clock stands before the epoch or beyond the calendar, `chrono` panics.
    #[verifier::external_body]
    pub(crate) fn now() -> (r: Timestamp)
        ensures
            is_instant(r.spec_seconds(), r.spec_nanoseconds()),
            0 <= r.spec_seconds(),
            r.spec_nanoseconds() < 1_000_000_000,
    {
        let t = chrono::Utc::now();
        Timestamp { secs: t.timestamp(), nanos: t.timestamp_subsec_nanos() }
    }

    /// The instant as `chrono` prints it under `{:?}`. This is `DateTime::from_timestamp`
    /// followed by the `Debug` impl of `DateTime<Utc>`. `from_timestamp` gives `None` only
    /// outside the calendar, where no `Timestamp` lies.
    #[verifier::external_body]
    pub(crate) fn debug_text(&self) -> (r: String)
        ensures
            r@ == utc_debug_text(self.spec_seconds(), self.spec_nanoseconds()),
    {
        match chrono::DateTime::from_timestamp(self.secs, self.nanos) {
            Some(t) => format!("{:?}", t),
            None => String::new(),
        }
    }
}

} // verus!
