//! Points in time, held as seconds and nanoseconds since the Unix epoch.
use vstd::prelude::*;

verus! {

/// A point in time: whole seconds since 1970-01-01 00:00:00 UTC and the
/// nanoseconds past that second.
#[derive(Clone, Copy, Debug, PartialEq, Eq, Structural)]
pub struct Timestamp {
    pub secs: i64,
    pub nanos: u32,
}

/// The text that the calendar library prints for a point in time, where it
/// can represent that point.
pub uninterp spec fn timestamp_text(secs: i64, nanos: u32) -> Option<Seq<char>>;

/// The point in time that the calendar library reads from a text, where it
/// reads one.
pub uninterp spec fn timestamp_parsed(s: Seq<char>) -> Option<(i64, u32)>;

/// The point in time that a text denotes, if it denotes one.
pub open spec fn timestamp_of(s: Seq<char>) -> Option<Timestamp> {
    match timestamp_parsed(s) {
        Some((secs, nanos)) => Some(Timestamp { secs, nanos }),
        None => None,
    }
}

/// Whether `a` is not later than `b`.
pub open spec fn not_after(a: Timestamp, b: Timestamp) -> bool {
    a.secs < b.secs || (a.secs == b.secs && a.nanos <= b.nanos)
}

impl Timestamp {
    /// Whether `self` is not later than `other`.
    pub fn le(&self, other: &Timestamp) -> (r: bool)
        ensures
            r == not_after(*self, *other),
    {
        self.secs < other.secs || (self.secs == other.secs && self.nanos <= other.nanos)
    }

    /// The current time.
    pub fn now() -> Timestamp {
        current_time()
    }

    /// The text of this point in time, or `None` where the calendar cannot
    /// represent it.
    pub fn to_text(&self) -> (r: Option<String>)
        ensures
            r is Some <==> timestamp_text(self.secs, self.nanos) is Some,
            r is Some ==> r->0@ == timestamp_text(self.secs, self.nanos)->0,
    {
        format_timestamp(self.secs, self.nanos)
    }

    /// The point in time that `s` denotes, if it denotes one.
    pub fn parse(s: &str) -> (r: Option<Timestamp>)
        ensures
            r == timestamp_of(s@),
    {
        match parse_timestamp(s) {
            Some((secs, nanos)) => Some(Timestamp { secs, nanos }),
            None => None,
        }
    }
}

/// Calls `chrono::Utc::now` and takes the result apart with
/// `DateTime::timestamp` and `DateTime::timestamp_subsec_nanos`. Nothing is
/// claimed of the time that comes back.
#[verifier::external_body]
fn current_time() -> Timestamp {
    let now = chrono::Utc::now();
    Timestamp { secs: now.timestamp(), nanos: now.timestamp_subsec_nanos() }
}

/// Calls `chrono::DateTime::from_timestamp` and prints the result with its
/// `Display` impl. `None` where `from_timestamp` gives none.
#[verifier::external_body]
fn format_timestamp(secs: i64, nanos: u32) -> (r: Option<String>)
    ensures
        r is Some <==> timestamp_text(secs, nanos) is Some,
        r is Some ==> r->0@ == timestamp_text(secs, nanos)->0,
{
    chrono::DateTime::from_timestamp(secs, nanos).map(|t| t.to_string())
}

/// Calls `str::parse` for `chrono::DateTime<Utc>` and takes the result apart
/// with `DateTime::timestamp` and `DateTime::timestamp_subsec_nanos`.
#[verifier::external_body]
fn parse_timestamp(s: &str) -> (r: Option<(i64, u32)>)
    ensures
        r == timestamp_parsed(s@),
{
    match s.parse::<chrono::DateTime<chrono::Utc>>() {
        Ok(t) => Some((t.timestamp(), t.timestamp_subsec_nanos())),
        Err(_) => None,
    }
}

} // verus!
