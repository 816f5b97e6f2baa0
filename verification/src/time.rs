//! Instants in UTC, held as seconds and nanoseconds since the Unix epoch.
//! Calendar arithmetic and formatting are chrono's; the wrappers below say
//! what this crate relies on of it.

use vstd::prelude::*;
use chrono::DateTime;
use chrono::Utc;

verus! {

/// Seconds from the Unix epoch to the first instant chrono represents,
/// -262143-01-01T00:00:00Z.
pub const MIN_TIMESTAMP: i64 = -8_334_601_228_800;

/// Seconds from the Unix epoch to the last whole second chrono represents,
/// +262142-12-31T23:59:59Z.
pub const MAX_TIMESTAMP: i64 = 8_210_266_876_799;

/// Whether chrono represents `secs` seconds and `nanos` nanoseconds after
/// the Unix epoch as a `DateTime<Utc>`: the second lies within the years
/// -262143 through 262142, and the nanoseconds are below 10^9, or below
/// 2·10^9 in the last second of a minute (a leap second).
pub open spec fn chrono_timestamp_valid(secs: i64, nanos: u32) -> bool {
    &&& MIN_TIMESTAMP <= secs <= MAX_TIMESTAMP
    &&& (nanos < 1_000_000_000 || (nanos < 2_000_000_000 && secs % 60 == 59))
}

/// The text chrono writes for that instant under a strftime pattern.
pub uninterp spec fn chrono_formatted(secs: i64, nanos: u32, pattern: Seq<char>) -> Seq<char>;

/// The whole seconds chrono counts from the instant `b` to the instant `a`.
pub uninterp spec fn chrono_seconds_between(a_secs: i64, a_nanos: u32, b_secs: i64, b_nanos: u32) -> int;

/// Division rounding toward zero, as Rust's `/` on integers does.
pub open spec fn trunc_div(a: int, b: int) -> int {
    if a >= 0 {
        a / b
    } else {
        -((-a) / b)
    }
}

/// Nanoseconds since the Unix epoch.
pub open spec fn epoch_nanos(secs: i64, nanos: u32) -> int {
    secs * 1_000_000_000 + nanos
}

/// The pattern of an ISO 8601 date and time with milliseconds.
pub open spec fn iso_millis_pattern() -> Seq<char> {
    "%Y-%m-%dT%H:%M:%S%.3f"@
}

/// The pattern of a calendar date.
pub open spec fn date_pattern() -> Seq<char> {
    "%Y-%m-%d"@
}

/// Calls `DateTime::<Utc>::from_timestamp(secs, nanos)` and reports whether it
/// gave a value. Claimed: it does exactly when `chrono_timestamp_valid` holds
/// (chrono splits the seconds into a day, which must fall within its years,
/// and a second of the day, which takes more than 10^9 nanoseconds only when
/// it is the 59th of its minute).
#[verifier::external_body]
fn chrono_accepts(secs: i64, nanos: u32) -> (ok: bool)
    ensures
        ok == chrono_timestamp_valid(secs, nanos),
{
    DateTime::<Utc>::from_timestamp(secs, nanos).is_some()
}

/// Reads the system clock with `std::time::SystemTime::now()` and converts
/// the reading with chrono's `From<SystemTime> for DateTime<Utc>`, returning
/// its `timestamp()` and `timestamp_subsec_nanos()`. Claimed: chrono accepts
/// the pair and the nanoseconds are below 10^9 (the conversion splits the
/// clock's offset from the epoch, before or after it, into whole seconds and
/// sub-second nanoseconds). Left unsaid: the conversion panics when the clock
/// reads outside the years chrono represents (about 262,000 years either side
/// of year 0), which no argument can rule out.
#[verifier::external_body]
fn chrono_now() -> (t: (i64, u32))
    ensures
        chrono_timestamp_valid(t.0, t.1),
        t.1 < 1_000_000_000,
{
    let now = DateTime::<Utc>::from(std::time::SystemTime::now());
    (now.timestamp(), now.timestamp_subsec_nanos())
}

/// Calls `DateTime::format(pattern)` on the instant and renders it with
/// `to_string`. Claimed: the text depends on the instant and the pattern alone.
/// The two patterns admitted are well formed, so rendering does not fail.
#[verifier::external_body]
fn chrono_format(secs: i64, nanos: u32, pattern: &str) -> (s: String)
    requires
        chrono_timestamp_valid(secs, nanos),
        pattern@ == iso_millis_pattern() || pattern@ == date_pattern(),
    ensures
        s@ == chrono_formatted(secs, nanos, pattern@),
{
    DateTime::<Utc>::from_timestamp(secs, nanos).expect("accepted instant").format(pattern).to_string()
}

/// Calls `(a - b).num_seconds()` on two chrono instants. Claimed: the result
/// depends on the instants alone; it is zero for equal instants; and when
/// neither instant lies in a leap second (nanoseconds below 10^9) it is the
/// nanosecond difference divided by 10^9, rounded toward zero (chrono adds the
/// day and time-of-day differences exactly, and `num_seconds` truncates).
#[verifier::external_body]
fn chrono_seconds_since(a_secs: i64, a_nanos: u32, b_secs: i64, b_nanos: u32) -> (d: i64)
    requires
        chrono_timestamp_valid(a_secs, a_nanos),
        chrono_timestamp_valid(b_secs, b_nanos),
    ensures
        d == chrono_seconds_between(a_secs, a_nanos, b_secs, b_nanos),
        (a_secs == b_secs && a_nanos == b_nanos) ==> d == 0,
        (a_nanos < 1_000_000_000 && b_nanos < 1_000_000_000) ==> d == trunc_div(
            epoch_nanos(a_secs, a_nanos) - epoch_nanos(b_secs, b_nanos),
            1_000_000_000,
        ),
{
    let a = DateTime::<Utc>::from_timestamp(a_secs, a_nanos).expect("accepted instant");
    let b = DateTime::<Utc>::from_timestamp(b_secs, b_nanos).expect("accepted instant");
    (a - b).num_seconds()
}

/// An instant in UTC, as chrono's `DateTime<Utc>` holds it.
#[derive(Debug, Clone, Copy)]
pub struct UtcTime {
    secs: i64,
    nanos: u32,
}

impl UtcTime {
    #[verifier::type_invariant]
    spec fn accepted(self) -> bool {
        chrono_timestamp_valid(self.secs, self.nanos)
    }

    /// Seconds since the Unix epoch.
    pub closed spec fn secs(self) -> i64 {
        self.secs
    }

    /// Nanoseconds past the second (at least 10^9 only within a leap second).
    pub closed spec fn nanos(self) -> u32 {
        self.nanos
    }

    /// The instant lies outside a leap second.
    pub open spec fn regular(self) -> bool {
        self.nanos() < 1_000_000_000
    }

    /// The Unix epoch, 1970-01-01T00:00:00Z.
    pub closed spec fn epoch_spec() -> UtcTime {
        UtcTime { secs: 0, nanos: 0 }
    }

    /// The Unix epoch, 1970-01-01T00:00:00Z.
    pub fn epoch() -> (t: UtcTime)
        ensures
            t == UtcTime::epoch_spec(),
            t.secs() == 0,
            t.nanos() == 0,
    {
        let ok = chrono_accepts(0, 0);
        assert(ok);
        UtcTime { secs: 0, nanos: 0 }
    }

    /// The instant `secs` seconds and `nanos` nanoseconds after the Unix
    /// epoch, where chrono can represent it.
    pub fn from_timestamp(secs: i64, nanos: u32) -> (t: Option<UtcTime>)
        ensures
            t is Some <==> chrono_timestamp_valid(secs, nanos),
            (0 <= secs <= 253_402_300_799 && nanos < 1_000_000_000) ==> t is Some,
            t matches Some(v) ==> v.secs() == secs && v.nanos() == nanos,
    {
        if chrono_accepts(secs, nanos) {
            Some(UtcTime { secs, nanos })
        } else {
            None
        }
    }

    /// The current instant of the system clock.
    pub fn now() -> (t: UtcTime)
        ensures
            t.regular(),
    {
        let (secs, nanos) = chrono_now();
        UtcTime { secs, nanos }
    }

    /// Seconds since the Unix epoch.
    pub fn timestamp(&self) -> (s: i64)
        ensures
            s == self.secs(),
    {
        self.secs
    }

    /// Nanoseconds past the second.
    pub fn timestamp_subsec_nanos(&self) -> (n: u32)
        ensures
            n == self.nanos(),
    {
        self.nanos
    }

    /// Milliseconds since the Unix epoch, as chrono's `timestamp_millis`
    /// computes them: whole seconds times 1000 plus the millisecond part.
    pub fn timestamp_millis(&self) -> (ms: i128)
        ensures
            ms == self.secs() * 1000 + self.nanos() / 1_000_000,
    {
        self.secs as i128 * 1000 + (self.nanos / 1_000_000) as i128
    }

    /// Whole seconds from `earlier` to this instant, as chrono counts them.
    pub fn seconds_since(&self, earlier: &UtcTime) -> (d: i64)
        ensures
            d == chrono_seconds_between(self.secs(), self.nanos(), earlier.secs(), earlier.nanos()),
            self == earlier ==> d == 0,
            self.regular() && earlier.regular() ==> d == trunc_div(
                epoch_nanos(self.secs(), self.nanos()) - epoch_nanos(earlier.secs(), earlier.nanos()),
                1_000_000_000,
            ),
    {
        proof {
            use_type_invariant(self);
            use_type_invariant(earlier);
        }
        chrono_seconds_since(self.secs, self.nanos, earlier.secs, earlier.nanos)
    }

    /// The instant written under one of the two patterns the client uses.
    pub fn format(&self, pattern: &str) -> (s: String)
        requires
            pattern@ == iso_millis_pattern() || pattern@ == date_pattern(),
        ensures
            s@ == chrono_formatted(self.secs(), self.nanos(), pattern@),
    {
        proof {
            use_type_invariant(self);
        }
        chrono_format(self.secs, self.nanos, pattern)
    }
}

} // verus!
