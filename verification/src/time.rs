use vstd::prelude::*;

verus! {

/// Seconds in one day, as `chrono::Duration::days(1)` counts them.
pub const SECONDS_PER_DAY: i64 = 86_400;

/// A UTC instant as `chrono::DateTime<Utc>` exposes it: whole seconds since the
/// Unix epoch and the nanoseconds past that second (above 999,999,999 only
/// during a leap second).
#[derive(Clone, Copy, Debug, PartialEq, Eq)]
pub struct Timestamp {
    pub secs: i64,
    pub nanos: u32,
}

/// What `"...".parse::<chrono::DateTime<Utc>>()` gives for a string, as
/// (seconds, nanoseconds) since the epoch; `None` where chrono refuses it.
pub uninterp spec fn chrono_parse_utc(s: Seq<char>) -> Option<(i64, u32)>;

/// Calls `<chrono::DateTime<Utc> as FromStr>::from_str` (chrono's relaxed
/// RFC 3339 reading) and hands back the instant's `timestamp()` and
/// `timestamp_subsec_nanos()`. Claimed: the result is `chrono_parse_utc` of the
/// text, a function of the text alone.
#[verifier::external_body]
fn chrono_parse(s: &str) -> (r: Option<(i64, u32)>)
    ensures
        r == chrono_parse_utc(s@),
{
    match s.parse::<chrono::DateTime<chrono::Utc>>() {
        Ok(d) => Some((d.timestamp(), d.timestamp_subsec_nanos())),
        Err(_) => None,
    }
}

/// Calls `chrono::Utc::now()`. Claimed, from its source: the instant is built by
/// `DateTime::from_timestamp` from a duration since the epoch, so the seconds are
/// not negative, the nanoseconds are below one second, and the seconds lie within
/// chrono's range of years (below 10^13). Which instant comes back is not stated.
#[verifier::external_body]
fn chrono_now() -> (r: (i64, u32))
    ensures
        0 <= r.0 < 10_000_000_000_000,
        r.1 < 1_000_000_000,
{
    let now = chrono::Utc::now();
    (now.timestamp(), now.timestamp_subsec_nanos())
}

impl Timestamp {
    /// Whether this instant is one that `chrono::Utc::now()` can give.
    pub open spec fn is_clock_reading(self) -> bool {
        &&& 0 <= self.secs < 10_000_000_000_000
        &&& self.nanos < 1_000_000_000
    }

    /// Strictly earlier, in the order of `chrono::DateTime`.
    pub open spec fn spec_before(self, other: Timestamp) -> bool {
        self.secs < other.secs || (self.secs == other.secs && self.nanos < other.nanos)
    }

    /// The instant `days` whole days later.
    pub open spec fn spec_plus_days(self, days: int) -> Timestamp {
        Timestamp { secs: (self.secs + days * SECONDS_PER_DAY) as i64, nanos: self.nanos }
    }

    /// Milliseconds since the epoch, as `chrono::DateTime::timestamp_millis`
    /// computes them (and `bson::DateTime::from_chrono` keeps them).
    pub open spec fn spec_millis(self) -> int {
        self.secs * 1000 + self.nanos / 1_000_000
    }

    /// Reads a date and time the way `str::parse::<DateTime<Utc>>` does.
    pub fn parse(s: &str) -> (r: Option<Timestamp>)
        ensures
            r == (match chrono_parse_utc(s@) {
                Some(p) => Some(Timestamp { secs: p.0, nanos: p.1 }),
                None => None::<Timestamp>,
            }),
    {
        match chrono_parse(s) {
            Some(p) => Some(Timestamp { secs: p.0, nanos: p.1 }),
            None => None,
        }
    }

    /// The current instant.
    pub fn now() -> (t: Timestamp)
        ensures
            t.is_clock_reading(),
    {
        let p = chrono_now();
        Timestamp { secs: p.0, nanos: p.1 }
    }

    /// Strictly earlier.
    pub fn before(&self, other: &Timestamp) -> (b: bool)
        ensures
            b == self.spec_before(*other),
    {
        self.secs < other.secs || (self.secs == other.secs && self.nanos < other.nanos)
    }

    /// The same time of day, `days` days later (earlier for a negative count).
    pub fn plus_days(&self, days: i64) -> (t: Timestamp)
        requires
            i64::MIN <= days * SECONDS_PER_DAY <= i64::MAX,
            i64::MIN <= self.secs + days * SECONDS_PER_DAY <= i64::MAX,
        ensures
            t == self.spec_plus_days(days as int),
            t.secs == self.secs + days * SECONDS_PER_DAY,
            t.nanos == self.nanos,
    {
        Timestamp { secs: self.secs + days * SECONDS_PER_DAY, nanos: self.nanos }
    }

    /// Milliseconds since the epoch, truncated, as `bson::DateTime::from_chrono` keeps them.
    pub fn millis(&self) -> (m: i64)
        requires
            i64::MIN <= self.secs * 1000,
            self.secs * 1000 + self.nanos / 1_000_000 <= i64::MAX,
        ensures
            m as int == self.spec_millis(),
    {
        self.secs * 1000 + (self.nanos / 1_000_000) as i64
    }
}

/// Strict earliness is a strict order: never reflexive, and transitive.
pub proof fn lemma_before_strict_order(a: Timestamp, b: Timestamp, c: Timestamp)
    ensures
        !a.spec_before(a),
        a.spec_before(b) && b.spec_before(c) ==> a.spec_before(c),
        a.spec_before(b) ==> !b.spec_before(a),
{
}

} // verus!
