use vstd::prelude::*;

verus! {

/// An instant in UTC: whole seconds since the Unix epoch, and the nanoseconds
/// past that second.
#[derive(Debug, Clone, Copy, PartialEq, Eq, Structural)]
pub struct Timestamp {
    pub seconds: i64,
    pub nanos: u32,
}

/// The instant that a text names in RFC 3339 form (with chrono's relaxations:
/// a space for the `T`, spaces between the parts), as seconds and
/// nanoseconds, if the text is such a form.
pub uninterp spec fn rfc3339_instant(s: Seq<char>) -> Option<(i64, u32)>;

/// The timestamp of an instant given as seconds and nanoseconds.
pub open spec fn timestamp_of(p: Option<(i64, u32)>) -> Option<Timestamp> {
    match p {
        Some((seconds, nanos)) => Some(Timestamp { seconds, nanos }),
        None => None,
    }
}

/// Relies on chrono's `FromStr` for `DateTime<FixedOffset>`, which is how a
/// stored `DateTime<Utc>` is read: its result depends on the text alone.
#[verifier::external_body]
pub(crate) fn parse_instant(s: &str) -> (r: Option<Timestamp>)
    ensures
        r == timestamp_of(rfc3339_instant(s@)),
{
    s.parse::<chrono::DateTime<chrono::FixedOffset>>().ok().map(
        |d| Timestamp { seconds: d.timestamp(), nanos: d.timestamp_subsec_nanos() },
    )
}

/// Relies on chrono's `Utc::now`: the current instant, built from a
/// `Duration` since the epoch, so its nanoseconds stay under one second.
#[verifier::external_body]
pub(crate) fn clock_now() -> (r: Timestamp)
    ensures
        r.nanos < 1_000_000_000,
{
    let d = chrono::Utc::now();
    Timestamp { seconds: d.timestamp(), nanos: d.timestamp_subsec_nanos() }
}

impl Timestamp {
    /// The Unix epoch.
    pub fn epoch() -> (r: Timestamp)
        ensures
            r.seconds == 0,
            r.nanos == 0,
    {
        Timestamp { seconds: 0, nanos: 0 }
    }

    /// The current instant.
    pub fn now() -> (r: Timestamp)
        ensures
            r.nanos < 1_000_000_000,
    {
        clock_now()
    }
}

} // verus!
