//! The per-minute request governor.
//!
//! A window starts at a minute boundary; within one window at most
//! `requests_per_minute` sends are admitted. The caller asks for a
//! slot with [`RatelimitState::step_at`]; a `None` answer admits the
//! send at once, a `Some(d)` answer asks the caller to sleep `d`
//! seconds and ask again.

use vstd::arithmetic::div_mod::lemma_mod_multiples_vanish;
use vstd::arithmetic::div_mod::lemma_small_mod;
use vstd::prelude::*;

verus! {

/// The default quota: kept strictly below the server's published
/// per-minute limit to absorb clock skew and network jitter.
pub const REQUESTS_PER_MINUTE: u8 = 55;

/// The governor's counter: a window start (truncated to a minute
/// boundary) and the number of sends still allowed in that window.
#[derive(Debug, Clone, Copy, PartialEq, Eq, Structural)]
pub struct RatelimitState {
    /// Start of the current window, in seconds since the Unix epoch,
    /// always a multiple of 60.
    pub last_refreshed: u64,
    /// Sends still allowed before the window must roll over.
    pub remaining_requests: u8,
    /// The quota a fresh window starts with.
    pub requests_per_minute: u8,
}

/// `t` truncated down to the start of its minute.
pub open spec fn minute_trunc(t: int) -> int {
    t - (t % 60)
}

impl RatelimitState {
    /// The governor's invariant: the window starts on a minute
    /// boundary and the remaining budget never exceeds the quota.
    pub open spec fn wf(self) -> bool {
        &&& self.last_refreshed % 60 == 0
        &&& self.remaining_requests <= self.requests_per_minute
        &&& self.requests_per_minute >= 1
    }

    /// A call at `now` rolls the window over.
    pub open spec fn spec_refreshes(self, now: int) -> bool {
        minute_trunc(now) - self.last_refreshed >= 60
    }

    /// The state after the window roll-over step, before any budget
    /// is drawn.
    pub open spec fn spec_refreshed(self, now: int) -> RatelimitState {
        if self.spec_refreshes(now) {
            RatelimitState {
                last_refreshed: minute_trunc(now) as u64,
                remaining_requests: self.requests_per_minute,
                ..self
            }
        } else {
            self
        }
    }

    /// A call at `now` is admitted without suspension.
    pub open spec fn spec_admits(self, now: int) -> bool {
        self.spec_refreshed(now).remaining_requests > 0
    }

    /// The state after one governor step at `now`.
    pub open spec fn spec_step_state(self, now: int) -> RatelimitState {
        let r = self.spec_refreshed(now);
        if r.remaining_requests > 0 {
            RatelimitState { remaining_requests: (r.remaining_requests - 1) as u8, ..r }
        } else {
            r
        }
    }

    /// The seconds left until the current window rolls over, clamped
    /// to the representable range.
    pub open spec fn spec_sleep(self, now: int) -> u64 {
        let r = self.spec_refreshed(now);
        let d = 60 + r.last_refreshed - minute_trunc(now);
        if d > u64::MAX {
            u64::MAX
        } else if d < 0 {
            0
        } else {
            d as u64
        }
    }

    /// The answer of one governor step at `now`: `None` admits the
    /// send, `Some(d)` asks for a sleep of `d` seconds.
    pub open spec fn spec_step_result(self, now: int) -> Option<u64> {
        if self.spec_admits(now) {
            None
        } else {
            Some(self.spec_sleep(now))
        }
    }

    /// `t` falls within the window that starts at `self.last_refreshed`.
    pub open spec fn in_window(self, t: u64) -> bool {
        self.last_refreshed <= t < self.last_refreshed + 60
    }

    /// A fresh governor whose window holds `now`.
    pub fn new_at(requests_per_minute: u8, now: u64) -> (s: Self)
        requires
            requests_per_minute >= 1,
        ensures
            s.wf(),
            s.last_refreshed == minute_trunc(now as int),
            s.remaining_requests == requests_per_minute,
            s.requests_per_minute == requests_per_minute,
    {
        let start = now - now % 60;
        Self {
            last_refreshed: start,
            remaining_requests: requests_per_minute,
            requests_per_minute,
        }
    }

    /// A fresh governor with the default quota, anchored at the
    /// current wall-clock minute.
    pub fn new() -> (s: Self)
        ensures
            s.wf(),
            s.remaining_requests == REQUESTS_PER_MINUTE,
            s.requests_per_minute == REQUESTS_PER_MINUTE,
            exists|now: int| 0 <= now && s.last_refreshed == minute_trunc(now),
    {
        let now = clamp_seconds(now_unix_seconds());
        let s = Self::new_at(REQUESTS_PER_MINUTE, now);
        proof {
            assert(0 <= now as int && s.last_refreshed == minute_trunc(now as int));
        }
        s
    }

    /// One governor step at time `now` (seconds since the Unix
    /// epoch): roll the window over if a minute has passed, then
    /// either draw one slot or report how long to sleep.
    pub fn step_at(&mut self, now: u64) -> (r: Option<u64>)
        requires
            old(self).wf(),
        ensures
            final(self).wf(),
            *final(self) == old(self).spec_step_state(now as int),
            r == old(self).spec_step_result(now as int),
    {
        let t = now - now % 60;
        if t >= self.last_refreshed && t - self.last_refreshed >= 60 {
            self.last_refreshed = t;
            self.remaining_requests = self.requests_per_minute;
        }
        if self.remaining_requests > 0 {
            self.remaining_requests = self.remaining_requests - 1;
            None
        } else {
            let sleep: u64 = if t >= self.last_refreshed {
                60 - (t - self.last_refreshed)
            } else {
                let diff = self.last_refreshed - t;
                if diff > u64::MAX - 60 {
                    u64::MAX
                } else {
                    60 + diff
                }
            };
            Some(sleep)
        }
    }

    /// One governor step at the current wall-clock time. The clock's
    /// reading is outside the caller's control, so the contract only
    /// states that some non-negative instant was used.
    pub fn get_sleep_duration(&mut self) -> (r: Option<u64>)
        requires
            old(self).wf(),
        ensures
            final(self).wf(),
            exists|now: int|
                0 <= now && *final(self) == old(self).spec_step_state(now)
                    && r == old(self).spec_step_result(now),
    {
        let now = clamp_seconds(now_unix_seconds());
        let r = self.step_at(now);
        proof {
            assert(0 <= now as int && *self == old(self).spec_step_state(now as int)
                && r == old(self).spec_step_result(now as int));
        }
        r
    }
}

/// Relies on `jiff::Timestamp::now` and `jiff::Timestamp::as_second`:
/// the current wall-clock time in whole seconds since the Unix epoch.
/// Nothing can be promised of a clock reading.
#[verifier::external_body]
fn now_unix_seconds() -> i64 {
    jiff::Timestamp::now().as_second()
}

/// A clock reading clamped to the epoch: instants before 1970 are
/// treated as the epoch itself.
pub fn clamp_seconds(t: i64) -> (r: u64)
    ensures
        r as int == if t < 0 { 0int } else { t as int },
{
    if t < 0 {
        0
    } else {
        t as u64
    }
}

/// The state after stepping the governor once for each time in
/// `times`, in order.
pub open spec fn spec_run(s: RatelimitState, times: Seq<u64>) -> RatelimitState
    decreases times.len(),
{
    if times.len() == 0 {
        s
    } else {
        spec_run(s.spec_step_state(times[0] as int), times.skip(1))
    }
}

/// How many of the calls at `times`, in order, are admitted without
/// suspension.
pub open spec fn spec_count_admitted(s: RatelimitState, times: Seq<u64>) -> int
    decreases times.len(),
{
    if times.len() == 0 {
        0
    } else {
        (if s.spec_admits(times[0] as int) {
            1int
        } else {
            0int
        }) + spec_count_admitted(s.spec_step_state(times[0] as int), times.skip(1))
    }
}

/// Truncating any instant of a window gives the window's start.
proof fn lemma_trunc_in_window(s: RatelimitState, t: u64)
    requires
        s.wf(),
        s.in_window(t),
    ensures
        minute_trunc(t as int) == s.last_refreshed,
{
    let d = t - s.last_refreshed;
    lemma_mod_multiples_vanish(s.last_refreshed as int / 60, d as int, 60);
    lemma_small_mod(d as nat, 60);
    assert(t as int == 60 * (s.last_refreshed as int / 60) + d);
    assert(t as int % 60 == d);
}

/// Quota monotonicity: over any sequence of calls whose instants all
/// fall within one window, the number of calls admitted without
/// suspension never exceeds the remaining budget (and so never
/// exceeds the quota), the budget decreases by exactly the admitted
/// count, and the window does not move.
pub proof fn lemma_quota_monotonic(s: RatelimitState, times: Seq<u64>)
    requires
        s.wf(),
        forall|i: int| 0 <= i < times.len() ==> s.in_window(#[trigger] times[i]),
    ensures
        spec_count_admitted(s, times) <= s.remaining_requests,
        spec_count_admitted(s, times) <= s.requests_per_minute,
        spec_run(s, times).remaining_requests == s.remaining_requests - spec_count_admitted(
            s,
            times,
        ),
        spec_run(s, times).last_refreshed == s.last_refreshed,
        spec_run(s, times).requests_per_minute == s.requests_per_minute,
        spec_run(s, times).wf(),
    decreases times.len(),
{
    if times.len() > 0 {
        let t0 = times[0];
        lemma_trunc_in_window(s, t0);
        assert(!s.spec_refreshes(t0 as int));
        let s1 = s.spec_step_state(t0 as int);
        assert(s1.last_refreshed == s.last_refreshed);
        assert(s1.wf());
        assert(forall|i: int|
            0 <= i < times.skip(1).len() ==> s1.in_window(#[trigger] times.skip(1)[i]));
        lemma_quota_monotonic(s1, times.skip(1));
    }
}

/// Once the whole budget of a window is spent, every further call in
/// the same window suspends.
pub proof fn lemma_exhausted_call_suspends(s: RatelimitState, times: Seq<u64>, t: u64)
    requires
        s.wf(),
        forall|i: int| 0 <= i < times.len() ==> s.in_window(#[trigger] times[i]),
        spec_count_admitted(s, times) == s.remaining_requests,
        s.in_window(t),
    ensures
        !spec_run(s, times).spec_admits(t as int),
        spec_run(s, times).spec_step_result(t as int) is Some,
{
    lemma_quota_monotonic(s, times);
    let r = spec_run(s, times);
    lemma_trunc_in_window(r, t);
    assert(!r.spec_refreshes(t as int));
    assert(r.remaining_requests == 0);
}

/// Window refresh determinism: if a window starts at minute boundary
/// `t`, a call at `t + 59` still draws from the same budget, while a
/// call at `t + 60` rolls the window over and resets the budget to
/// the full quota before drawing.
pub proof fn lemma_window_refresh(s: RatelimitState, t: u64)
    requires
        s.wf(),
        s.last_refreshed == t,
        t + 60 <= u64::MAX,
    ensures
        !s.spec_refreshes(t + 59),
        s.spec_step_state(t + 59).last_refreshed == t,
        s.spec_step_state(t + 59).remaining_requests == (if s.remaining_requests > 0 {
            s.remaining_requests - 1
        } else {
            0
        }),
        s.spec_refreshes(t + 60),
        s.spec_admits(t + 60),
        s.spec_step_state(t + 60).last_refreshed == t + 60,
        s.spec_step_state(t + 60).remaining_requests == s.requests_per_minute - 1,
{
    lemma_trunc_in_window(s, (t + 59) as u64);
    lemma_mod_multiples_vanish((t as int / 60) + 1, 0, 60);
    lemma_small_mod(0, 60);
    assert((t + 60) as int == 60 * ((t as int / 60) + 1) + 0);
    assert((t + 60) as int % 60 == 0);
    assert(minute_trunc((t + 60) as int) == t + 60);
}

} // verus!
