//! UTC instants as the bidding protocol exchanges them: whole Unix seconds plus
//! a sub-second nanosecond part (the two numbers that `time::OffsetDateTime`
//! reports through `unix_timestamp` and `nanosecond`).
use vstd::prelude::*;

verus! {

/// Nanoseconds per second.
pub const NANOS_PER_SECOND: u32 = 1_000_000_000;

/// First Unix timestamp (in seconds) that `time` accepts in every build
/// configuration: -9999-01-01T00:00:00Z.
pub const MIN_UNIX_TIMESTAMP: i64 = -377_705_116_800;

/// Last Unix timestamp (in seconds) that `time` accepts in every build
/// configuration: 9999-12-31T23:59:59Z.
pub const MAX_UNIX_TIMESTAMP: i64 = 253_402_300_799;

/// Rust's integer division, which rounds toward zero.
pub open spec fn trunc_div(a: int, b: int) -> int {
    if a >= 0 {
        a / b
    } else {
        -((-a) / b)
    }
}

/// Reading the protocol microseconds back from the instant they stand for
/// gives the same microseconds: `to_timestamp_us` undoes `from_timestamp_us`.
pub proof fn lemma_timestamp_us_round_trip(t: Timestamp, timestamp_us: u64)
    requires
        t.spec_unix_timestamp_nanos() == timestamp_us * 1000,
    ensures
        t.spec_timestamp_us() == timestamp_us,
{
    assert(trunc_div(timestamp_us * 1000, 1000) == timestamp_us);
}

/// Whether `time` can represent the instant `t`: `from_unix_timestamp`
/// accepts its whole seconds, which lie within years -999999 to 999999.
pub open spec fn is_representable(t: Timestamp) -> bool {
    &&& WIDEST_MIN_UNIX_TIMESTAMP <= t.spec_unix_timestamp() <= WIDEST_MAX_UNIX_TIMESTAMP
    &&& unix_timestamp_accepted(t.spec_unix_timestamp() as i64)
}

/// An instant `time` can represent lies within years -999999 to 999999; after
/// the epoch, its milliseconds since the epoch are below 31_494_784_780_805_000
/// (about 3.1 * 10^16), so a stamp in milliseconds of such an instant is never
/// a count of microseconds or nanoseconds of a present-day instant.
pub proof fn lemma_representable_ms_bounds(t: Timestamp)
    requires
        is_representable(t),
    ensures
        WIDEST_MIN_UNIX_TIMESTAMP <= t.spec_unix_timestamp() <= WIDEST_MAX_UNIX_TIMESTAMP,
        t.spec_unix_timestamp() >= 0 ==> (trunc_div(t.spec_unix_timestamp_nanos(), 1_000_000) as u64)
            < 31_494_784_780_805_000,
{
    if t.spec_unix_timestamp() >= 0 {
        assert(t.spec_unix_timestamp_nanos() < (WIDEST_MAX_UNIX_TIMESTAMP + 5) * 1_000_000_000);
        assert(trunc_div(t.spec_unix_timestamp_nanos(), 1_000_000) < (WIDEST_MAX_UNIX_TIMESTAMP + 5)
            * 1000);
    }
}

/// A UTC instant.
#[derive(Clone, Copy, Debug, PartialEq, Eq, Structural)]
pub struct Timestamp {
    unix_timestamp: i64,
    nanosecond: u32,
}

/// `time::OffsetDateTime::now_utc`, read back through `unix_timestamp` and
/// `nanosecond`. The instant depends on the clock, so nothing is said of it but
/// what holds of every `OffsetDateTime`: its sub-second part is below one
/// second (as `time` documents of `nanosecond`), and it lies between `time`'s
/// minimum and maximum dates (the source builds it as the epoch plus the
/// clock's offset, which panics when the sum leaves that range), so that
/// `from_unix_timestamp` accepts its Unix timestamp.
#[verifier::external_body]
fn offset_date_time_now_utc() -> (r: (i64, u32))
    ensures
        r.1 < NANOS_PER_SECOND,
        unix_timestamp_accepted(r.0),
        WIDEST_MIN_UNIX_TIMESTAMP <= r.0 <= WIDEST_MAX_UNIX_TIMESTAMP,
{
    let now = time::OffsetDateTime::now_utc();
    (now.unix_timestamp(), now.nanosecond())
}

/// First Unix timestamp (in seconds) that `time` accepts in any build
/// configuration: -999999-01-01T00:00:00Z, with its `large-dates` feature.
pub const WIDEST_MIN_UNIX_TIMESTAMP: i64 = -31_619_087_596_800;

/// Last Unix timestamp (in seconds) that `time` accepts in any build
/// configuration: 999999-12-31T23:59:59Z, with its `large-dates` feature.
pub const WIDEST_MAX_UNIX_TIMESTAMP: i64 = 31_494_784_780_799;

/// Whether `time::OffsetDateTime::from_unix_timestamp` accepts `timestamp` in
/// this build: it accepts the timestamps from the first second of its minimum
/// date to the last second of its maximum date, which depend on its
/// `large-dates` feature.
pub uninterp spec fn unix_timestamp_accepted(timestamp: i64) -> bool;

/// `time::OffsetDateTime::from_unix_timestamp`, read back through
/// `unix_timestamp`. The source accepts the timestamps between its minimum and
/// maximum dates (years -9999 to 9999, or -999999 to 999999 with its
/// `large-dates` feature) and then reports the same timestamp.
#[verifier::external_body]
fn offset_date_time_from_unix_timestamp(timestamp: i64) -> (r: Option<i64>)
    ensures
        r is Some <==> unix_timestamp_accepted(timestamp),
        MIN_UNIX_TIMESTAMP <= timestamp <= MAX_UNIX_TIMESTAMP ==> r is Some,
        !(WIDEST_MIN_UNIX_TIMESTAMP <= timestamp <= WIDEST_MAX_UNIX_TIMESTAMP) ==> r is None,
        r matches Some(t) ==> t == timestamp,
{
    match time::OffsetDateTime::from_unix_timestamp(timestamp) {
        Ok(t) => Some(t.unix_timestamp()),
        Err(_) => None,
    }
}

impl Timestamp {
    #[verifier::type_invariant]
    spec fn sub_second_in_range(self) -> bool {
        self.nanosecond < NANOS_PER_SECOND
    }

    /// Whole seconds since the Unix epoch (rounded toward minus infinity).
    pub closed spec fn spec_unix_timestamp(self) -> int {
        self.unix_timestamp as int
    }

    /// Nanoseconds since the Unix epoch.
    pub closed spec fn spec_unix_timestamp_nanos(self) -> int {
        self.unix_timestamp * 1_000_000_000 + self.nanosecond
    }

    /// Microseconds since the epoch, as the protocol carries them.
    pub open spec fn spec_timestamp_us(self) -> u64 {
        trunc_div(self.spec_unix_timestamp_nanos(), 1000) as u64
    }

    /// The current instant, read from the system clock: any instant that
    /// `time` can represent may come back.
    pub fn now_utc() -> (r: Timestamp)
        ensures
            is_representable(r),
    {
        let (unix_timestamp, nanosecond) = offset_date_time_now_utc();
        Timestamp { unix_timestamp, nanosecond }
    }

    /// The instant `timestamp` seconds after the epoch, when `time` can
    /// represent it (always for years -9999 to 9999, never past years
    /// -999999 to 999999).
    pub fn from_unix_timestamp(timestamp: i64) -> (r: Option<Timestamp>)
        ensures
            r is Some <==> unix_timestamp_accepted(timestamp),
            MIN_UNIX_TIMESTAMP <= timestamp <= MAX_UNIX_TIMESTAMP ==> r is Some,
            !(WIDEST_MIN_UNIX_TIMESTAMP <= timestamp <= WIDEST_MAX_UNIX_TIMESTAMP) ==> r is None,
            r matches Some(t) ==> t.spec_unix_timestamp_nanos() == timestamp * 1_000_000_000
                && t.spec_unix_timestamp() == timestamp,
    {
        match offset_date_time_from_unix_timestamp(timestamp) {
            Some(t) => Some(Timestamp { unix_timestamp: t, nanosecond: 0 }),
            None => None,
        }
    }

    /// The instant `unix_timestamp` seconds and `nanosecond` nanoseconds after
    /// the epoch; `None` when `nanosecond` is a whole second or more.
    pub fn from_unix_parts(unix_timestamp: i64, nanosecond: u32) -> (r: Option<Timestamp>)
        ensures
            r is Some <==> nanosecond < NANOS_PER_SECOND,
            r matches Some(t) ==> t.spec_unix_timestamp() == unix_timestamp
                && t.spec_unix_timestamp_nanos() == unix_timestamp * 1_000_000_000 + nanosecond,
    {
        if nanosecond < NANOS_PER_SECOND {
            Some(Timestamp { unix_timestamp, nanosecond })
        } else {
            None
        }
    }

    /// Whole seconds since the epoch.
    pub fn unix_timestamp(&self) -> (r: i64)
        ensures
            r == self.spec_unix_timestamp(),
            r == self.spec_unix_timestamp_nanos() / 1_000_000_000,
    {
        proof {
            use_type_invariant(self);
        }
        self.unix_timestamp
    }

    /// Nanoseconds since the epoch.
    pub fn unix_timestamp_nanos(&self) -> (r: i128)
        ensures
            r == self.spec_unix_timestamp_nanos(),
    {
        proof {
            use_type_invariant(self);
        }
        self.unix_timestamp as i128 * 1_000_000_000 + self.nanosecond as i128
    }

    /// Microseconds since the epoch as the protocol carries them: the
    /// nanoseconds divided by 1000 (rounding toward zero) and cast to `u64`,
    /// so that instants before the epoch wrap around.
    pub fn to_timestamp_us(&self) -> (r: u64)
        ensures
            r == self.spec_timestamp_us(),
    {
        let nanos = self.unix_timestamp_nanos();
        (nanos / 1000) as u64
    }

    /// Milliseconds since the epoch, computed as [`Self::to_timestamp_us`] does.
    pub fn to_timestamp_ms(&self) -> (r: u64)
        ensures
            r == (trunc_div(self.spec_unix_timestamp_nanos(), 1_000_000) as u64),
    {
        let nanos = self.unix_timestamp_nanos();
        (nanos / 1_000_000) as u64
    }

    /// The instant `timestamp_us` microseconds after the epoch.
    pub fn from_timestamp_us(timestamp_us: u64) -> (r: Timestamp)
        ensures
            r.spec_unix_timestamp_nanos() == timestamp_us * 1000,
    {
        let seconds = timestamp_us / 1_000_000;
        let micros = timestamp_us % 1_000_000;
        let r = Timestamp { unix_timestamp: seconds as i64, nanosecond: (micros * 1000) as u32 };
        r
    }
}

} // verus!
