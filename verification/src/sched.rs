//! The scheduling loop's decisions: the minute gate and the per-minute
//! evaluation of the alarm store.  The loop itself (tick timer, channel
//! drain, trigger action) is run by the surrounding application; everything
//! it decides is here, as functions of the current state and the tick's
//! inputs.

use vstd::prelude::*;

use crate::alarm::model::Alarm;
use crate::alarm::store::AlarmStore;
use crate::time_lib::time::TimeError;
use vstd::string::StrSliceExecFns;

verus! {

/// Minutes in a day.
pub const MINUTES_PER_DAY: u16 = 1440;

/// The minute-of-day a wall-clock timestamp falls in.
pub open spec fn minute_of(t: int) -> int {
    (t / 60) % 1440
}

/// Whether `c` is a decimal digit.
pub open spec fn is_clock_digit(c: char) -> bool {
    48 <= c as u32 <= 57
}

/// The numeric value of a decimal digit character.
pub open spec fn digit_of(c: char) -> int {
    c as u32 - 48
}

/// The minute-of-day a five-character "HH:MM" time of day denotes, or `None`
/// if the text is not of that shape or out of range.
pub open spec fn parse_hhmm(t: Seq<char>) -> Option<int> {
    if t.len() == 5 && is_clock_digit(t[0]) && is_clock_digit(t[1]) && t[2] == ':'
        && is_clock_digit(t[3]) && is_clock_digit(t[4]) {
        let h = digit_of(t[0]) * 10 + digit_of(t[1]);
        let m = digit_of(t[3]) * 10 + digit_of(t[4]);
        if h < 24 && m < 60 {
            Some(h * 60 + m)
        } else {
            None
        }
    } else {
        None
    }
}

/// Whether an alarm should fire in the given minute: it is active and its
/// time of day names exactly that minute.
pub open spec fn should_fire(a: Alarm, minute: int) -> bool {
    a.is_active && parse_hhmm(a.time@) == Some(minute)
}

/// The indices, in store order, of the alarms that should fire in `minute`.
pub open spec fn fired_indices(s: Seq<Alarm>, minute: int) -> Seq<int>
    decreases s.len(),
{
    if s.len() == 0 {
        Seq::empty()
    } else if should_fire(s.last(), minute) {
        fired_indices(s.drop_last(), minute).push(s.len() - 1)
    } else {
        fired_indices(s.drop_last(), minute)
    }
}

/// Parse a "HH:MM" time of day into a minute-of-day.
pub fn parse_time_of_day(s: &str) -> (r: Option<u16>)
    ensures
        r matches Some(m) ==> parse_hhmm(s@) == Some(m as int) && m < MINUTES_PER_DAY,
        r is None ==> parse_hhmm(s@) is None,
{
    if s.unicode_len() != 5 {
        return None;
    }
    let c0 = s.get_char(0) as u32;
    let c1 = s.get_char(1) as u32;
    let c2 = s.get_char(2);
    let c3 = s.get_char(3) as u32;
    let c4 = s.get_char(4) as u32;
    if c0 < 48 || c0 > 57 || c1 < 48 || c1 > 57 || c2 != ':' || c3 < 48 || c3 > 57 || c4 < 48
        || c4 > 57 {
        return None;
    }
    let h: u32 = (c0 - 48) * 10 + (c1 - 48);
    let m: u32 = (c3 - 48) * 10 + (c4 - 48);
    if h < 24 && m < 60 {
        Some((h * 60 + m) as u16)
    } else {
        None
    }
}

/// Compute the minute-of-day of a wall-clock timestamp.
pub fn minute_of_day(t: i64) -> (m: u16)
    ensures
        m as int == minute_of(t as int),
        m < MINUTES_PER_DAY,
{
    let q = t.checked_div_euclid(60).unwrap();
    let r = q.checked_rem_euclid(1440).unwrap();
    r as u16
}

/// Collect the alarms that should fire in `minute`, as indices into the
/// store, in store order.
pub fn evaluate(store: &AlarmStore, minute: u16) -> (fired: Vec<usize>)
    ensures
        fired@.map_values(|u: usize| u as int) == fired_indices(store@, minute as int),
{
    let n = store.len();
    let mut fired: Vec<usize> = Vec::new();
    let mut i: usize = 0;
    while i < n
        invariant
            n == store@.len(),
            i <= n,
            fired@.map_values(|u: usize| u as int) == fired_indices(
                store@.take(i as int),
                minute as int,
            ),
        decreases n - i,
    {
        let a = store.get(i);
        let hit = a.is_active && (match parse_time_of_day(a.time.as_str()) {
            Some(m) => m == minute,
            None => false,
        });
        proof {
            assert(store@.take(i + 1).drop_last() =~= store@.take(i as int));
            assert(store@.take(i + 1).last() == store@[i as int]);
        }
        if hit {
            fired.push(i);
        }
        proof {
            assert(fired@.map_values(|u: usize| u as int) =~= fired_indices(
                store@.take(i + 1),
                minute as int,
            ));
        }
        i += 1;
    }
    proof {
        assert(store@.take(n as int) =~= store@);
    }
    fired
}

/// The scheduling loop's own state: the minute last evaluated, `None` until
/// the first evaluation after boot.
pub struct Scheduler {
    last_evaluated_minute: Option<u16>,
}

/// Whether a tick is a no-op: the current time is unknown, or the current
/// minute was already evaluated.
pub open spec fn tick_skips(st: Scheduler, time: Result<i64, TimeError>) -> bool {
    match time {
        Err(_) => true,
        Ok(t) => st.last_minute() == Some(minute_of(t as int) as u16),
    }
}

impl Scheduler {
    /// The minute last evaluated, or `None` if none was.
    pub closed spec fn last_minute(&self) -> Option<u16> {
        self.last_evaluated_minute
    }

    pub fn new() -> (r: Scheduler)
        ensures
            r.last_minute() is None,
    {
        Scheduler { last_evaluated_minute: None }
    }

    /// One tick of the scheduling loop, given the store's current contents
    /// and the current-time query's answer.  When the time is unknown or the
    /// minute was already evaluated, nothing happens; otherwise the minute is
    /// recorded and the alarms to trigger are returned.
    pub fn tick(&mut self, store: &AlarmStore, time: Result<i64, TimeError>) -> (fired: Option<
        Vec<usize>,
    >)
        ensures
            tick_skips(*old(self), time) ==> *final(self) == *old(self) && fired is None,
            !tick_skips(*old(self), time) ==> (time matches Ok(t) && final(self).last_minute()
                == Some(minute_of(t as int) as u16) && (fired matches Some(v) && v@.map_values(
                |u: usize| u as int,
            ) == fired_indices(store@, minute_of(t as int)))),
    {
        match time {
            Err(_) => None,
            Ok(t) => {
                let m = minute_of_day(t);
                let repeat = match self.last_evaluated_minute {
                    Some(lm) => lm == m,
                    None => false,
                };
                if repeat {
                    None
                } else {
                    self.last_evaluated_minute = Some(m);
                    Some(evaluate(store, m))
                }
            },
        }
    }
}

/// Once-per-minute evaluation: a tick that evaluated minute `m` records it,
/// and as long as the current minute stays `m`, every further tick skips; so
/// however often the tick runs, each minute is evaluated at most once.
pub proof fn lemma_once_per_minute(st: Scheduler, t: i64)
    requires
        st.last_minute() == Some(minute_of(t as int) as u16),
    ensures
        tick_skips(st, Ok(t)),
{
}

} // verus!
