use vstd::prelude::*;

use crate::net::facade::NetworkError;
use crate::time_lib::model::ApiTimeType;

verus! {

/// Earliest Unix timestamp (in seconds) the backing calendar type represents.
pub const MIN_UNIX_TS: i64 = -377705116800;

/// Latest Unix timestamp (in seconds) the backing calendar type represents.
pub const MAX_UNIX_TS: i64 = 253402300799;

/// Largest reading the monotonic second counter can yield: the tick counter
/// holds at most `u64::MAX` ticks at one million ticks per second.
pub const MONO_SECS_MAX: u64 = 18446744073709;

/// Failures of time synchronization and of current-time queries.
/// `NotSynchronized` is the expected steady state until the first successful
/// sync, not an anomaly.
#[derive(Debug, Clone, Copy, PartialEq, Eq, Structural)]
pub enum TimeError {
    NetworkError,
    InvalidResponse,
    NotSynchronized,
}

/// Whether a timestamp lies in the range the calendar type accepts.
pub open spec fn timestamp_in_range(ts: int) -> bool {
    MIN_UNIX_TS <= ts <= MAX_UNIX_TS
}

/// Whether a value is a possible reading of the monotonic second counter.
pub open spec fn valid_mono_reading(m: u64) -> bool {
    m <= MONO_SECS_MAX
}

/// The offset-based clock: wall-clock time is derived as the local monotonic
/// counter plus a stored offset, recalibrated on each successful sync.  The
/// offset is absent until the first sync succeeds and is never cleared by a
/// later failure.
pub struct TimeManager {
    offset: Option<i64>,
}

impl TimeManager {
    /// The stored clock offset: `wall_clock_seconds - monotonic_seconds` at
    /// the last successful sync, or `None` before any sync has succeeded.
    pub closed spec fn clock_offset(&self) -> Option<i64> {
        self.offset
    }

    /// Whether at least one synchronization has succeeded.
    pub open spec fn synchronized(&self) -> bool {
        self.clock_offset() is Some
    }

    /// A stored offset always comes from a valid timestamp and a bounded
    /// monotonic reading.
    pub open spec fn wf(&self) -> bool {
        self.clock_offset() matches Some(o)
            ==> MIN_UNIX_TS - MONO_SECS_MAX <= o <= MAX_UNIX_TS
    }

    pub fn new() -> (r: TimeManager)
        ensures
            !r.synchronized(),
            r.wf(),
    {
        TimeManager { offset: None }
    }

    /// Recalibrate the clock from one time sample taken at the given
    /// monotonic counter reading.  A timestamp outside the calendar range is
    /// rejected as `InvalidResponse` and leaves the clock untouched.
    pub fn apply_sample(&mut self, sample: ApiTimeType, mono_now: u64) -> (r: Result<
        i64,
        TimeError,
    >)
        requires
            old(self).wf(),
            valid_mono_reading(mono_now),
        ensures
            final(self).wf(),
            timestamp_in_range(sample.timestamp as int) ==> r == Ok::<i64, TimeError>(
                sample.timestamp as i64,
            ) && final(self).clock_offset() == Some((sample.timestamp - mono_now) as i64),
            !timestamp_in_range(sample.timestamp as int) ==> r == Err::<i64, TimeError>(
                TimeError::InvalidResponse,
            ) && *final(self) == *old(self),
    {
        if sample.timestamp <= i64::MAX as u64 {
            let ts = sample.timestamp as i64;
            if unix_timestamp_in_range(ts) {
                let off: i64 = ts - mono_now as i64;
                self.offset = Some(off);
                Ok(ts)
            } else {
                Err(TimeError::InvalidResponse)
            }
        } else {
            // The calendar range ends far below timestamps past `i64::MAX`.
            Err(TimeError::InvalidResponse)
        }
    }

    /// The current wall-clock time at the given monotonic counter reading:
    /// the reading plus the stored offset, `NotSynchronized` before the first
    /// successful sync, `InvalidResponse` if the sum leaves the calendar
    /// range.
    pub fn current_time_at(&self, mono_now: u64) -> (r: Result<i64, TimeError>)
        requires
            self.wf(),
            valid_mono_reading(mono_now),
        ensures
            r == current_time_of(*self, mono_now as int),
    {
        match self.offset {
            None => Err(TimeError::NotSynchronized),
            Some(o) => {
                let t: i64 = o + mono_now as i64;
                if unix_timestamp_in_range(t) {
                    Ok(t)
                } else {
                    Err(TimeError::InvalidResponse)
                }
            },
        }
    }

    /// One synchronization step: apply a fetched sample at the current
    /// monotonic reading.  Any failure leaves the clock exactly as it was;
    /// once synchronized, the clock stays synchronized.
    pub fn sync_time(&mut self, fetched: Result<ApiTimeType, NetworkError>) -> (r: Result<
        i64,
        TimeError,
    >)
        requires
            old(self).wf(),
        ensures
            final(self).wf(),
            fetched matches Err(_) ==> r == Err::<i64, TimeError>(TimeError::NetworkError),
            fetched matches Ok(sample) ==> (timestamp_in_range(sample.timestamp as int) ==> r
                == Ok::<i64, TimeError>(sample.timestamp as i64) && (exists|m: u64|
                #[trigger] valid_mono_reading(m) && final(self).clock_offset() == Some(
                    (sample.timestamp - m) as i64,
                ))),
            fetched matches Ok(sample) ==> (!timestamp_in_range(sample.timestamp as int) ==> r
                == Err::<i64, TimeError>(TimeError::InvalidResponse)),
            r matches Err(_) ==> *final(self) == *old(self),
            old(self).synchronized() ==> final(self).synchronized(),
    {
        match fetched {
            Err(_) => Err(TimeError::NetworkError),
            Ok(sample) => {
                let mono = monotonic_now();
                let r = self.apply_sample(sample, mono);
                proof {
                    if timestamp_in_range(sample.timestamp as int) {
                        assert(valid_mono_reading(mono) && self.clock_offset() == Some(
                            (sample.timestamp - mono) as i64,
                        ));
                    }
                }
                r
            },
        }
    }

    /// The current wall-clock time at the monotonic reading taken now.
    pub fn get_current_time(&self) -> (r: Result<i64, TimeError>)
        requires
            self.wf(),
        ensures
            r == Err::<i64, TimeError>(TimeError::NotSynchronized) <==> !self.synchronized(),
            self.synchronized() ==> (exists|m: u64|
                #[trigger] valid_mono_reading(m) && r == current_time_of(*self, m as int)),
    {
        let mono = monotonic_now();
        let r = self.current_time_at(mono);
        proof {
            assert(valid_mono_reading(mono) && r == current_time_of(*self, mono as int));
        }
        r
    }
}

/// What a current-time query answers in a given clock state at a given
/// monotonic counter reading.
pub open spec fn current_time_of(st: TimeManager, mono_now: int) -> Result<i64, TimeError> {
    match st.clock_offset() {
        None => Err(TimeError::NotSynchronized),
        Some(o) => if timestamp_in_range(o + mono_now) {
            Ok((o + mono_now) as i64)
        } else {
            Err(TimeError::InvalidResponse)
        },
    }
}

/// Offset correctness: immediately after a successful sync on a sample taken
/// at monotonic reading `m0`, a current-time query at reading `m1` answers the
/// sample's timestamp plus the elapsed time `m1 - m0`.
pub proof fn lemma_offset_correctness(st: TimeManager, sample: ApiTimeType, m0: int, m1: int)
    requires
        timestamp_in_range(sample.timestamp as int),
        0 <= m0 <= MONO_SECS_MAX,
        m0 <= m1 <= MONO_SECS_MAX,
        st.clock_offset() == Some((sample.timestamp - m0) as i64),
        timestamp_in_range(sample.timestamp + (m1 - m0)),
    ensures
        current_time_of(st, m1) == Ok::<i64, TimeError>((sample.timestamp + (m1 - m0)) as i64),
{
}

/// Monotonic under failure: a failed sync leaves the stored offset in place
/// (per `sync_time`'s contract the whole state is unchanged), so every
/// current-time query answers exactly what it answered before the call.
pub proof fn lemma_monotonic_under_failure(before: TimeManager, after: TimeManager, mono: int)
    requires
        after.clock_offset() == before.clock_offset(),
    ensures
        current_time_of(after, mono) == current_time_of(before, mono),
{
}

/// Uninitialized query: a current-time query answers `NotSynchronized`
/// exactly when no sync has ever succeeded.
pub proof fn lemma_uninitialized_query(st: TimeManager, mono: int)
    ensures
        current_time_of(st, mono) == Err::<i64, TimeError>(TimeError::NotSynchronized)
            <==> !st.synchronized(),
{
}

/// Relies on `time::UtcDateTime::from_unix_timestamp`, which accepts exactly
/// the timestamps between the calendar's minimum and maximum instants
/// (`-9999-01-01T00:00:00Z` through `9999-12-31T23:59:59Z`).
#[verifier::external_body]
fn unix_timestamp_in_range(ts: i64) -> (r: bool)
    ensures
        r == timestamp_in_range(ts as int),
{
    time::UtcDateTime::from_unix_timestamp(ts).is_ok()
}

/// Relies on `embassy_time::Instant::now` and `Instant::as_secs`: seconds
/// since boot, computed as ticks divided by a tick rate of one million, hence
/// never above `u64::MAX / 1_000_000`.
#[verifier::external_body]
fn monotonic_now() -> (r: u64)
    ensures
        r <= MONO_SECS_MAX,
{
    embassy_time::Instant::now().as_secs()
}

} // verus!
