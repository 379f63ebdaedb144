//! Instants and spans of time, counted in whole nanoseconds.
//!
//! An instant is a point on the UTC time line, a signed duration is the
//! distance between two instants, and a pause is a span that can be slept.

use vstd::prelude::*;

verus! {

pub const NANOS_PER_SEC: i128 = 1_000_000_000;

pub const NANOS_PER_DAY: i128 = 86_400_000_000_000;

/// A point in time: seconds since 1970-01-01T00:00:00Z and the nanoseconds
/// past that second. Within a leap second the nanoseconds run on from
/// 1_000_000_000, and the instant counts them as they stand.
#[derive(Clone, Copy, Debug, PartialEq, Eq, Structural)]
pub struct Timestamp {
    pub secs: i64,
    pub nanos: u32,
}

impl View for Timestamp {
    type V = int;

    /// Nanoseconds since the epoch.
    open spec fn view(&self) -> int {
        self.secs * NANOS_PER_SEC + self.nanos
    }
}

impl Timestamp {
    pub fn new(secs: i64, nanos: u32) -> (t: Timestamp)
        ensures
            t == (Timestamp { secs, nanos }),
    {
        Timestamp { secs, nanos }
    }

    /// Nanoseconds since the epoch.
    pub fn as_nanos(&self) -> (n: i128)
        ensures
            n == self@,
    {
        (self.secs as i128) * NANOS_PER_SEC + (self.nanos as i128)
    }

    /// Reads a date and time with its offset from UTC, in the relaxed RFC 3339
    /// form that certificate events are written in.
    pub fn parse(text: &str) -> (t: Option<Timestamp>)
        ensures
            t == instant_of_text(text@),
    {
        match parse_instant(text) {
            Ok(t) => Some(t),
            Err(_) => None,
        }
    }
}

/// The whole days in `nanos`, rounded towards zero.
pub open spec fn whole_days(nanos: int) -> int {
    if nanos >= 0 {
        nanos / (NANOS_PER_DAY as int)
    } else {
        -((-nanos) / (NANOS_PER_DAY as int))
    }
}

/// A span of time that may be negative.
#[derive(Clone, Copy, Debug, PartialEq, Eq, Structural)]
pub struct SignedDuration {
    pub nanos: i128,
}

impl View for SignedDuration {
    type V = int;

    /// The span in nanoseconds.
    open spec fn view(&self) -> int {
        self.nanos as int
    }
}

impl SignedDuration {
    pub fn from_nanos(nanos: i128) -> (d: SignedDuration)
        ensures
            d@ == nanos,
    {
        SignedDuration { nanos }
    }

    pub fn as_nanos(&self) -> (n: i128)
        ensures
            n == self@,
    {
        self.nanos
    }

    /// The number of whole days in the span, rounded towards zero.
    pub fn num_days(&self) -> (days: i128)
        ensures
            days == whole_days(self@),
    {
        self.nanos / NANOS_PER_DAY
    }

    /// The time to wait for this span to pass: nothing when it is not positive.
    pub fn to_pause(&self) -> (p: Pause)
        ensures
            p@ == clamped(self@),
    {
        if self.nanos > 0 {
            Pause { nanos: self.nanos as u128 }
        } else {
            Pause { nanos: 0 }
        }
    }
}

/// `nanos` where it is positive, zero otherwise.
pub open spec fn clamped(nanos: int) -> nat {
    if nanos > 0 {
        nanos as nat
    } else {
        0
    }
}

/// A span of time to sleep: never negative.
#[derive(Clone, Copy, Debug, PartialEq, Eq, Structural)]
pub struct Pause {
    pub nanos: u128,
}

impl View for Pause {
    type V = nat;

    /// The span in nanoseconds.
    open spec fn view(&self) -> nat {
        self.nanos as nat
    }
}

impl Pause {
    pub fn from_secs(secs: u64) -> (p: Pause)
        ensures
            p@ == secs * NANOS_PER_SEC,
    {
        Pause { nanos: (secs as u128) * 1_000_000_000 }
    }

    pub fn is_zero(&self) -> (z: bool)
        ensures
            z == (self@ == 0),
    {
        self.nanos == 0
    }

    /// The whole seconds of the span.
    pub fn whole_secs(&self) -> (secs: u128)
        ensures
            secs == self@ / (NANOS_PER_SEC as nat),
    {
        self.nanos / (NANOS_PER_SEC as u128)
    }

    /// The nanoseconds past the last whole second.
    pub fn subsec_nanos(&self) -> (nanos: u32)
        ensures
            nanos == self@ % (NANOS_PER_SEC as nat),
    {
        (self.nanos % (NANOS_PER_SEC as u128)) as u32
    }
}

#[verifier::external_type_specification]
#[verifier::external_body]
pub struct ExParseError(chrono::ParseError);

/// The instant that chrono reads from `text` as a `DateTime<Utc>`, where it
/// reads one.
pub uninterp spec fn instant_of_text(text: Seq<char>) -> Option<Timestamp>;

/// Calls chrono's `FromStr` for `DateTime<Utc>`, which accepts a relaxed form
/// of RFC 3339 and converts the offset to UTC. The contract only names the
/// outcome: the text either denotes the instant returned, with the seconds
/// and sub-second nanoseconds that chrono reports for it, or it denotes none.
#[verifier::external_body]
fn parse_instant(text: &str) -> (r: Result<Timestamp, chrono::ParseError>)
    ensures
        match r {
            Ok(t) => instant_of_text(text@) == Some(t),
            Err(_) => instant_of_text(text@) is None,
        },
{
    text.parse::<chrono::DateTime<chrono::Utc>>().map(
        |t| Timestamp { secs: t.timestamp(), nanos: t.timestamp_subsec_nanos() },
    )
}

/// Calls chrono's `Utc::now`. Nothing is promised of the instant it reads
/// from the system clock.
#[verifier::external_body]
pub(crate) fn current_instant() -> (now: Timestamp) {
    let t = chrono::Utc::now();
    Timestamp { secs: t.timestamp(), nanos: t.timestamp_subsec_nanos() }
}

} // verus!
