//! Points in time and lengths of time as plain numbers.

use vstd::prelude::*;

verus! {

/// The first nanosecond of the calendar, 1 January of the year -9999 in UTC,
/// counted from the Unix epoch.
pub const FIRST_NANOS: i128 = -377_705_116_800_000_000_000;

/// The last nanosecond of the calendar, 31 December of the year 9999 in UTC.
pub const LAST_NANOS: i128 = 253_402_300_799_999_999_999;

/// A point in time between the years -9999 and 9999, in UTC.
#[derive(Clone, Copy, Debug, PartialEq, Eq, Structural)]
pub struct Timestamp {
    nanos: i128,
}

impl View for Timestamp {
    type V = int;

    /// Nanoseconds since the Unix epoch.
    closed spec fn view(&self) -> int {
        self.nanos as int
    }
}

/// Whole seconds since the Unix epoch, rounded down.
pub open spec fn unix_seconds(nanos: int) -> int {
    nanos / 1_000_000_000
}

impl Timestamp {
    #[verifier::type_invariant]
    spec fn in_calendar(self) -> bool {
        FIRST_NANOS <= self.nanos <= LAST_NANOS
    }

    /// The point `nanos` nanoseconds after the Unix epoch, if the calendar
    /// holds it.
    pub fn from_unix_nanos(nanos: i128) -> (at: Option<Timestamp>)
        ensures
            at is Some <==> FIRST_NANOS <= nanos <= LAST_NANOS,
            at matches Some(point) ==> point@ == nanos,
    {
        if nanos < FIRST_NANOS || nanos > LAST_NANOS {
            return None;
        }
        Some(Timestamp { nanos })
    }

    /// The point `seconds` seconds after the Unix epoch, if the calendar holds
    /// it.
    pub fn from_unix(seconds: i64) -> (at: Option<Timestamp>)
        ensures
            at is Some <==> FIRST_NANOS <= seconds * 1_000_000_000 <= LAST_NANOS,
            at matches Some(point) ==> point@ == seconds * 1_000_000_000,
    {
        Timestamp::from_unix_nanos(seconds as i128 * 1_000_000_000)
    }

    /// Nanoseconds since the Unix epoch.
    pub fn unix_nanos(&self) -> (nanos: i128)
        ensures
            nanos == self@,
            FIRST_NANOS <= nanos <= LAST_NANOS,
    {
        proof {
            use_type_invariant(self);
        }
        self.nanos
    }

    /// Whole seconds since the Unix epoch.
    pub fn unix(&self) -> (seconds: i64)
        ensures
            seconds == unix_seconds(self@),
            -377_705_116_800 <= seconds <= 253_402_300_799,
    {
        proof {
            use_type_invariant(self);
        }
        let whole: i128 = self.nanos / 1_000_000_000;
        if self.nanos < 0 && self.nanos % 1_000_000_000 != 0 {
            (whole - 1) as i64
        } else {
            whole as i64
        }
    }
}

/// A length of time.
#[derive(Clone, Copy, Debug, PartialEq, Eq, Structural)]
pub struct Span {
    seconds: u64,
    nanos: u32,
}

impl View for Span {
    type V = int;

    /// The length in nanoseconds.
    closed spec fn view(&self) -> int {
        self.seconds * 1_000_000_000 + self.nanos
    }
}

impl Span {
    #[verifier::type_invariant]
    spec fn fraction_below_one(self) -> bool {
        self.nanos < 1_000_000_000
    }

    /// A length of whole seconds.
    pub fn from_secs(seconds: u64) -> (span: Span)
        ensures
            span@ == seconds * 1_000_000_000,
    {
        Span { seconds, nanos: 0 }
    }

    /// A length of whole seconds and a fraction of one.
    pub fn from_parts(seconds: u64, nanos: u32) -> (span: Option<Span>)
        ensures
            span is Some <==> nanos < 1_000_000_000,
            span matches Some(length) ==> length@ == seconds * 1_000_000_000 + nanos,
    {
        if nanos >= 1_000_000_000 {
            return None;
        }
        Some(Span { seconds, nanos })
    }

    /// The whole seconds in the length.
    pub fn as_secs(&self) -> (seconds: u64)
        ensures
            seconds == self@ / 1_000_000_000,
    {
        proof {
            use_type_invariant(self);
        }
        self.seconds
    }

    /// The length in nanoseconds.
    pub fn as_nanos(&self) -> (nanos: u128)
        ensures
            nanos == self@,
    {
        proof {
            use_type_invariant(self);
        }
        self.seconds as u128 * 1_000_000_000 + self.nanos as u128
    }
}

/// Whether `span` has passed between `from` and `now`.
pub fn has_elapsed(from: Timestamp, span: Span, now: Timestamp) -> (elapsed: bool)
    ensures
        elapsed == (now@ >= from@ + span@),
{
    let start: i128 = from.unix_nanos();
    let end: i128 = now.unix_nanos();
    if end < start {
        proof {
            use_type_invariant(&span);
        }
        return false;
    }
    (end - start) as u128 >= span.as_nanos()
}

} // verus!
