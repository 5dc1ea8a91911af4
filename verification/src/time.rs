//! Spans and points of time as whole nanoseconds.
use vstd::prelude::*;

verus! {

/// Nanoseconds in a millisecond.
pub const NANOS_PER_MILLI: u128 = 1_000_000;

/// Nanoseconds in a second.
pub const NANOS_PER_SEC: u128 = 1_000_000_000;

/// A span of time.
#[derive(Clone, Copy, Debug, PartialEq, Eq, PartialOrd, Ord)]
pub struct Duration {
    pub nanos: u128,
}

impl Duration {
    /// A span of `millis` milliseconds.
    pub fn from_millis(millis: u64) -> (r: Self)
        ensures
            r.nanos == millis * NANOS_PER_MILLI,
    {
        Duration { nanos: millis as u128 * NANOS_PER_MILLI }
    }

    /// A span of `secs` seconds.
    pub fn from_secs(secs: u64) -> (r: Self)
        ensures
            r.nanos == secs * NANOS_PER_SEC,
    {
        Duration { nanos: secs as u128 * NANOS_PER_SEC }
    }

    /// The whole milliseconds of this span.
    pub fn as_millis(&self) -> (r: u128)
        ensures
            r == self.nanos / NANOS_PER_MILLI,
    {
        self.nanos / NANOS_PER_MILLI
    }
}

/// A point of time: seconds since the Unix epoch, and nanoseconds on top. A
/// full second of nanoseconds or more marks the leap second that follows.
#[derive(Clone, Copy, Debug, PartialEq, Eq)]
pub struct Timestamp {
    pub secs: i64,
    pub nanos: u32,
}

impl Timestamp {
    /// Nanoseconds since the Unix epoch.
    pub open spec fn at(self) -> int {
        self.secs * 1_000_000_000 + self.nanos
    }

    /// The UTC calendar day, counted from the first of January 1970.
    pub open spec fn day(self) -> int {
        self.secs as int / 86_400
    }

    /// The second of the UTC day.
    pub open spec fn second_of_day(self) -> int {
        self.secs as int % 86_400
    }

    /// Whether this point lies in a leap second.
    pub open spec fn is_leap(self) -> bool {
        self.nanos >= 1_000_000_000
    }

    /// Whether this point comes before `other`.
    pub open spec fn before(self, other: Timestamp) -> bool {
        self.secs < other.secs || (self.secs == other.secs && self.nanos < other.nanos)
    }

    /// The nanoseconds from `earlier` to this point. A leap second counts
    /// where the other point stands later in the day than it.
    pub open spec fn elapsed_since(self, earlier: Timestamp) -> int {
        self.at() - earlier.at() + if self.second_of_day() > earlier.second_of_day()
            && earlier.is_leap() {
            1_000_000_000
        } else if self.second_of_day() < earlier.second_of_day() && self.is_leap() {
            -1_000_000_000
        } else {
            0int
        }
    }

    /// The point `secs` seconds and `nanos` nanoseconds after the epoch.
    pub fn from_unix(secs: i64, nanos: u32) -> (r: Self)
        ensures
            r.at() == secs * 1_000_000_000 + nanos,
            r == (Timestamp { secs, nanos }),
    {
        Timestamp { secs, nanos }
    }

    /// Nanoseconds since the Unix epoch.
    pub fn unix_nanos(&self) -> (r: i128)
        ensures
            r == self.at(),
    {
        self.secs as i128 * 1_000_000_000 + self.nanos as i128
    }

    /// The UTC calendar day, counted from the first of January 1970.
    pub fn unix_day(&self) -> (r: i64)
        ensures
            r == self.day(),
    {
        if self.secs >= 0 {
            self.secs / 86_400
        } else {
            -((-(self.secs + 1)) / 86_400) - 1
        }
    }

    /// Whether this point comes before `other`.
    pub fn is_before(&self, other: &Timestamp) -> (r: bool)
        ensures
            r == self.before(*other),
    {
        self.secs < other.secs || (self.secs == other.secs && self.nanos < other.nanos)
    }

    fn unix_second_of_day(&self) -> (r: i128)
        ensures
            r == self.second_of_day(),
    {
        self.secs as i128 - self.unix_day() as i128 * 86_400
    }

    /// How far `earlier` lies before this point; negative when it lies after.
    pub fn since(&self, earlier: &Timestamp) -> (r: TimeDelta)
        ensures
            r.nanos == self.elapsed_since(*earlier),
    {
        let mut nanos: i128 = self.unix_nanos() - earlier.unix_nanos();
        let ours: i128 = self.unix_second_of_day();
        let theirs: i128 = earlier.unix_second_of_day();
        if ours > theirs && earlier.nanos >= 1_000_000_000 {
            nanos += 1_000_000_000;
        } else if ours < theirs && self.nanos >= 1_000_000_000 {
            nanos -= 1_000_000_000;
        }
        TimeDelta { nanos }
    }
}

/// Between two points outside leap seconds, the span is the difference of
/// their distances from the epoch.
pub proof fn law_span_without_leap_seconds(a: Timestamp, b: Timestamp)
    requires
        !a.is_leap(),
        !b.is_leap(),
    ensures
        a.elapsed_since(b) == a.at() - b.at(),
        a.elapsed_since(b) == 0 <==> a == b,
        a.elapsed_since(b) < 0 <==> a.before(b),
{
}

/// A span of time of either sign.
#[derive(Clone, Copy, Debug, PartialEq, Eq, PartialOrd, Ord)]
pub struct TimeDelta {
    pub nanos: i128,
}

impl TimeDelta {
    /// A span of `secs` seconds.
    pub fn seconds(secs: i64) -> (r: Self)
        ensures
            r.nanos == secs * 1_000_000_000,
    {
        TimeDelta { nanos: secs as i128 * 1_000_000_000 }
    }
}

/// What an RFC 3339 text says: the seconds since the Unix epoch and the
/// nanoseconds on top, or the message of the parser's error.
pub uninterp spec fn rfc3339_parsed(raw: Seq<char>) -> Result<(i64, u32), Seq<char>>;

/// `chrono::DateTime::parse_from_rfc3339`; of a time the value is handed on by
/// `timestamp` and `timestamp_subsec_nanos`, of an error the message. What is
/// claimed is that the outcome depends on the text alone.
#[verifier::external_body]
pub(crate) fn parse_rfc3339_parts(raw: &str) -> (r: Result<(i64, u32), String>)
    ensures
        match r {
            Ok(parts) => rfc3339_parsed(raw@) == Ok::<(i64, u32), Seq<char>>(parts),
            Err(e) => rfc3339_parsed(raw@) == Err::<(i64, u32), Seq<char>>(e@),
        },
{
    chrono::DateTime::parse_from_rfc3339(raw).map(
        |t| (t.timestamp(), t.timestamp_subsec_nanos()),
    ).map_err(|e| e.to_string())
}

/// The calendar day is the one the second falls into, before the epoch too.
pub proof fn law_day_holds_its_seconds(t: &Timestamp, r: i64)
    requires
        Timestamp::unix_day.ensures((t,), r),
    ensures
        r * 86_400 <= t.secs < (r + 1) * 86_400,
{
}

/// The span between two points outside leap seconds is the difference of
/// their distances from the epoch, and of the two the one with the smaller
/// distance comes first.
pub proof fn law_span_is_the_difference(a: &Timestamp, b: &Timestamp, r: TimeDelta, before: bool)
    requires
        Timestamp::since.ensures((a, b), r),
        Timestamp::is_before.ensures((a, b), before),
        a.nanos < 1_000_000_000,
        b.nanos < 1_000_000_000,
    ensures
        r.nanos == (a.secs - b.secs) * 1_000_000_000 + a.nanos - b.nanos,
        before == (r.nanos < 0),
{
}

/// Whole spans are read back: milliseconds and seconds agree.
pub proof fn law_spans_are_read_back(millis: u64, secs: u64, a: Duration, b: Duration, r: u128)
    requires
        Duration::from_millis.ensures((millis,), a),
        Duration::from_secs.ensures((secs,), b),
        Duration::as_millis.ensures((&a,), r),
    ensures
        r == millis,
        millis == secs * 1_000 ==> a == b,
{
}

/// The span from one point to another is the opposite of the span back. A leap
/// second counts where the other point stands later in the day than it.
pub proof fn law_spans_are_antisymmetric(
    a: &Timestamp,
    b: &Timestamp,
    there: TimeDelta,
    back: TimeDelta,
)
    requires
        Timestamp::since.ensures((a, b), there),
        Timestamp::since.ensures((b, a), back),
    ensures
        there.nanos == -back.nanos,
        ({
            let difference = (a.secs - b.secs) * 1_000_000_000 + a.nanos - b.nanos;
            let later = a.secs as int % 86_400 > b.secs as int % 86_400;
            let earlier = a.secs as int % 86_400 < b.secs as int % 86_400;
            &&& later && b.nanos >= 1_000_000_000 ==> there.nanos == difference + 1_000_000_000
            &&& earlier && a.nanos >= 1_000_000_000 ==> there.nanos == difference - 1_000_000_000
            &&& !(later && b.nanos >= 1_000_000_000) && !(earlier && a.nanos >= 1_000_000_000)
                ==> there.nanos == difference
        }),
{
}

/// Points are ordered by their seconds and then by their nanoseconds, and are
/// what they were made of.
pub proof fn law_points_are_ordered(
    secs: i64,
    nanos: u32,
    made: Timestamp,
    a: &Timestamp,
    b: &Timestamp,
    r: bool,
    whole: i128,
)
    requires
        Timestamp::from_unix.ensures((secs, nanos), made),
        Timestamp::is_before.ensures((a, b), r),
        Timestamp::unix_nanos.ensures((a,), whole),
    ensures
        made.secs == secs && made.nanos == nanos,
        a.secs < b.secs ==> r,
        a.secs > b.secs ==> !r,
        a.secs == b.secs ==> r == (a.nanos < b.nanos),
        whole == a.secs * 1_000_000_000 + a.nanos,
{
}

} // verus!
