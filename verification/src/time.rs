//! Points in time, as the task record stores them.

use vstd::prelude::*;

verus! {

/// Nanoseconds in one second.
pub const NANOS_PER_SEC: u32 = 1_000_000_000;

/// An instant: whole seconds since the Unix epoch and the nanoseconds past
/// that second.
#[derive(Clone, Copy, Debug, PartialEq, Eq, Structural)]
pub struct Timestamp {
    pub secs: i64,
    pub nanos: u32,
}

impl Timestamp {
    /// The instant as a count of nanoseconds since the epoch.
    pub open spec fn total_nanos(self) -> int {
        self.secs * NANOS_PER_SEC + self.nanos
    }

    /// `self` lies strictly before `other`.
    pub open spec fn before(self, other: Timestamp) -> bool {
        self.secs < other.secs || (self.secs == other.secs && self.nanos < other.nanos)
    }

    /// The instant `nanos` nanoseconds past the second `secs`.
    pub fn new(secs: i64, nanos: u32) -> (t: Timestamp)
        ensures
            t.secs == secs,
            t.nanos == nanos,
    {
        Timestamp { secs, nanos }
    }

    /// Whether `self` is strictly earlier than `other`.
    pub fn is_before(&self, other: &Timestamp) -> (b: bool)
        ensures
            b == self.before(*other),
    {
        self.secs < other.secs || (self.secs == other.secs && self.nanos < other.nanos)
    }

    /// The nanoseconds that passed from `earlier` to `self`; negative where
    /// `self` is the earlier one.
    pub open spec fn nanos_since(self, earlier: Timestamp) -> int {
        self.total_nanos() - earlier.total_nanos()
    }

    /// Whether more than `seconds` seconds passed from `earlier` to `self`.
    pub fn is_more_than_seconds_after(&self, earlier: &Timestamp, seconds: u32) -> (b: bool)
        ensures
            b == (self.nanos_since(*earlier) > seconds * NANOS_PER_SEC),
    {
        let whole: i128 = self.secs as i128 - earlier.secs as i128;
        let part: i128 = self.nanos as i128 - earlier.nanos as i128;
        let limit: i128 = seconds as i128 * 1_000_000_000;
        assert(-0x1_0000_0000_0000_0000 <= whole <= 0x1_0000_0000_0000_0000);
        assert(self.secs * 1_000_000_000 - earlier.secs * 1_000_000_000 == whole * 1_000_000_000)
            by (nonlinear_arith)
            requires
                whole == self.secs - earlier.secs,
        ;
        let elapsed: i128 = whole * 1_000_000_000 + part;
        elapsed > limit
    }

    /// The instant is a plain one: its nanoseconds stay below one second. A
    /// stored instant may lie within a leap second and then carries a second
    /// or more of nanoseconds; a reading of the clock never does.
    pub open spec fn sub_second(self) -> bool {
        self.nanos < NANOS_PER_SEC
    }

    /// The current time of the system clock. Which instant that is, the clock
    /// decides; whatever it is, it is a plain instant.
    pub fn now() -> (t: Timestamp)
        ensures
            t.sub_second(),
    {
        current_time()
    }
}

/// Reads the system clock through `chrono::Local::now` and keeps the Unix
/// seconds (`DateTime::timestamp`) and the sub-second nanoseconds
/// (`DateTime::timestamp_subsec_nanos`) of what it returned. The clock decides
/// the value, and one thing is claimed of it: the nanoseconds are below one
/// second. chrono makes the time from the span that the system clock gives
/// since the Unix epoch, taking for the nanoseconds the fractional part of
/// that span, which is less than a second, and keeps it when it moves the
/// time into the local zone. The call gives up where the clock of the machine
/// stands before the Unix epoch.
#[verifier::external_body]
fn current_time() -> (t: Timestamp)
    ensures
        t.sub_second(),
{
    let now = chrono::Local::now();
    Timestamp { secs: now.timestamp(), nanos: now.timestamp_subsec_nanos() }
}

/// A decimal digit.
pub open spec fn is_digit(c: char) -> bool {
    0x30 <= c as u32 <= 0x39
}

/// The text is a date and a time to the minute: a year of four characters or
/// more, then a hyphen, two digits for the month, a hyphen, two digits for
/// the day, a blank, two digits for the hour, a colon and two digits for the
/// minute.
pub open spec fn is_minute_text(text: Seq<char>) -> bool {
    let n = text.len() as int;
    &&& n >= 16
    &&& text[n - 12] == '-' && is_digit(text[n - 11]) && is_digit(text[n - 10])
    &&& text[n - 9] == '-' && is_digit(text[n - 8]) && is_digit(text[n - 7])
    &&& text[n - 6] == ' ' && is_digit(text[n - 5]) && is_digit(text[n - 4])
    &&& text[n - 3] == ':' && is_digit(text[n - 2]) && is_digit(text[n - 1])
}

/// Reads the system clock through `chrono::Local::now` and writes the local
/// date and time to the minute with `DateTime::format`, as year-month-day
/// hour:minute. The clock and the time zone of the machine decide the text,
/// and its shape is claimed: see [`is_minute_text`]. chrono documents the
/// year as padded with zeros to four digits, with a sign before a year beyond
/// 9999, and month, day, hour and minute as padded with zeros to two digits
/// each. The call gives up where the clock of the machine stands before the
/// Unix epoch.
#[verifier::external_body]
pub(crate) fn local_minute_text() -> (text: String)
    ensures
        is_minute_text(text@),
{
    chrono::Local::now().format("%Y-%m-%d %H:%M").to_string()
}

} // verus!
