//! Points in time as seconds and nanoseconds since the Unix epoch.

use vstd::prelude::*;

verus! {

/// Nanoseconds in one second.
pub const NSEC_PER_SEC: i32 = 1_000_000_000;

/// The largest distance from the epoch, in seconds, of a timestamp that
/// the library renders as text (some thirty centuries either way).
pub const MAX_TIMESTAMP_SECS: i64 = 100_000_000_000;

/// A point in time: `sec` whole seconds since the epoch plus `nsec`
/// nanoseconds (negative `sec` with positive `nsec` before the epoch).
#[derive(Debug, Clone, Copy, PartialEq, Eq, Structural)]
pub struct Timestamp {
    pub sec: i64,
    pub nsec: i32,
}

/// The text that `time` renders for the UTC date and time of `sec`
/// seconds after the epoch ("Thu, 22 Mar 2012 14:53:18 GMT").
pub uninterp spec fn rfc822_utc(sec: i64) -> Seq<char>;

/// The Unix second that `rfc822_sanitizer` reads from a date text, if it
/// reads one.
pub uninterp spec fn rfc2822_seconds(s: Seq<char>) -> Option<i64>;

/// Relies on `time::get_time`: the wall clock, whose `Timespec` is built by
/// `Timespec::new`, which asserts `0 <= nsec < NSEC_PER_SEC`.
#[verifier::external_body]
fn wall_clock() -> (r: (i64, i32))
    ensures
        0 <= r.1 < NSEC_PER_SEC,
{
    let t = time::get_time();
    (t.sec, t.nsec)
}

/// Relies on `time::at_utc` and `Tm::rfc822`: the UTC calendar form of a
/// second as RFC 822 text. `at_utc` panics only where `gmtime_r` fails, for
/// years beyond the range of a C `int`, far outside the bound required here.
#[verifier::external_body]
fn format_rfc822_utc(sec: i64) -> (r: String)
    requires
        -MAX_TIMESTAMP_SECS <= sec <= MAX_TIMESTAMP_SECS,
    ensures
        r@ == rfc822_utc(sec),
{
    time::at_utc(time::Timespec::new(sec, 0)).rfc822().to_string()
}

/// Relies on `rfc822_sanitizer::parse_from_rfc2822_with_fallback`, which
/// parses RFC 2822 text (repairing common defects first when the plain parse
/// fails), and on chrono's `DateTime::timestamp` for the Unix second.
#[verifier::external_body]
fn parse_rfc2822(s: &str) -> (r: Option<i64>)
    ensures
        r == rfc2822_seconds(s@),
{
    rfc822_sanitizer::parse_from_rfc2822_with_fallback(s).ok().map(|d| d.timestamp())
}

impl Timestamp {
    /// The timestamp as a count of nanoseconds since the epoch.
    pub open spec fn nanos(self) -> int {
        self.sec as int * NSEC_PER_SEC as int + self.nsec as int
    }

    /// A normalised timestamp within the range the library renders.
    pub open spec fn wf(self) -> bool {
        &&& 0 <= self.nsec < NSEC_PER_SEC
        &&& -MAX_TIMESTAMP_SECS <= self.sec <= MAX_TIMESTAMP_SECS
    }

    /// The whole second `sec`.
    pub open spec fn at_second(sec: i64) -> Timestamp {
        Timestamp { sec, nsec: 0 }
    }

    /// The current time. The clock is read, so only the normalisation of
    /// the nanoseconds is known.
    pub fn now() -> (r: Timestamp)
        ensures
            0 <= r.nsec < NSEC_PER_SEC,
    {
        let (sec, nsec) = wall_clock();
        Timestamp { sec, nsec }
    }

    /// Whether the timestamp is well formed (see `wf`).
    pub fn is_valid(&self) -> (r: bool)
        ensures
            r == self.wf(),
    {
        0 <= self.nsec && self.nsec < NSEC_PER_SEC && -MAX_TIMESTAMP_SECS <= self.sec
            && self.sec <= MAX_TIMESTAMP_SECS
    }

    /// The timestamp as nanoseconds since the epoch.
    pub fn total_nanos(&self) -> (r: i128)
        ensures
            r as int == self.nanos(),
    {
        let s = self.sec as i128;
        assert(-0x8000_0000_0000_0000 <= s <= 0x7fff_ffff_ffff_ffff);
        assert(-0x8000_0000_0000_0000 * 1_000_000_000 <= s * 1_000_000_000 <= 0x7fff_ffff_ffff_ffff
            * 1_000_000_000) by (nonlinear_arith)
            requires
                -0x8000_0000_0000_0000 <= s <= 0x7fff_ffff_ffff_ffff,
        ;
        s * 1_000_000_000 + self.nsec as i128
    }

    /// Whether at least `secs` seconds separate `self` from the later
    /// point `now`: `self + secs <= now`.
    pub fn is_at_least_secs_before(&self, now: &Timestamp, secs: i64) -> (r: bool)
        ensures
            r == (self.nanos() + secs as int * NSEC_PER_SEC as int <= now.nanos()),
    {
        let d = secs as i128;
        assert(-0x8000_0000_0000_0000 * 1_000_000_000 <= d * 1_000_000_000 <= 0x7fff_ffff_ffff_ffff
            * 1_000_000_000) by (nonlinear_arith)
            requires
                -0x8000_0000_0000_0000 <= d <= 0x7fff_ffff_ffff_ffff,
        ;
        self.total_nanos() + d * 1_000_000_000 <= now.total_nanos()
    }

    /// Reads an RFC 2822 date text, tolerating the defects common in
    /// feeds; `None` where no date can be read.
    pub fn from_rfc822(s: &str) -> (r: Option<Timestamp>)
        ensures
            r == (match rfc2822_seconds(s@) {
                Some(sec) => Some(Timestamp::at_second(sec)),
                None => None,
            }),
    {
        match parse_rfc2822(s) {
            Some(sec) => Some(Timestamp { sec, nsec: 0 }),
            None => None,
        }
    }

    /// The UTC date and time of the timestamp as RFC 822 text.
    pub fn rfc822(&self) -> (r: String)
        requires
            self.wf(),
        ensures
            r@ == rfc822_utc(self.sec),
    {
        format_rfc822_utc(self.sec)
    }
}

} // verus!
