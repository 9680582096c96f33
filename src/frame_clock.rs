use vstd::prelude::*;

use crate::utils::get_monotonic_time;

verus! {

/// `v` cut down to `u64::MAX`.
pub open spec fn saturate(v: int) -> u64 {
    if v > u64::MAX as int { u64::MAX } else if v < 0 { 0 } else { v as u64 }
}

/// The time from which the next presentation is counted: `now`, pushed one interval ahead when
/// it is not after the last presentation, and put one interval after the last presentation
/// when even that is not enough (a VBlank that came two or more frames early).
pub open spec fn aligned_now(last: u64, interval: u64, now: u64) -> u64 {
    if now <= last {
        let pushed = saturate(now + interval);
        if pushed < last { saturate(last + interval) } else { pushed }
    } else {
        now
    }
}

/// The next presentation time predicted from the last presentation `last` and the refresh
/// interval: the first point of the grid `last + k·interval` strictly after the aligned time.
/// With VRR, when that point is more than one interval after `last`, the aligned time itself.
pub open spec fn next_presentation(last: Option<u64>, interval: Option<u64>, vrr: bool, now: u64) -> u64 {
    match (interval, last) {
        (Some(i), Some(l)) => {
            let n = aligned_now(l, i, now);
            let to_next = ((n - l) / (i as int) + 1) * (i as int);
            if vrr && to_next > i as int { n } else { saturate(l + to_next) }
        },
        _ => now,
    }
}

/// Predicts when the next frame of an output will be presented.
#[derive(Debug)]
pub struct FrameClock {
    last_presentation_time: Option<u64>,
    refresh_interval_ns: Option<u64>,
    vrr: bool,
}

impl FrameClock {
    pub closed spec fn last_presented(self) -> Option<u64> {
        self.last_presentation_time
    }

    pub closed spec fn interval(self) -> Option<u64> {
        self.refresh_interval_ns
    }

    pub closed spec fn vrr_spec(self) -> bool {
        self.vrr
    }

    /// The refresh interval, when there is one, is positive and under a second.
    pub open spec fn wf(self) -> bool {
        self.interval() is Some ==> 0 < self.interval()->0 < 1_000_000_000
    }

    /// A frame clock for an output with the given refresh interval (nanoseconds, under a
    /// second) and VRR setting, with no presentation seen yet.
    pub fn new(refresh_interval: Option<u64>, vrr: bool) -> (r: Self)
        requires
            refresh_interval is Some ==> 0 < refresh_interval->0 < 1_000_000_000,
        ensures
            r.wf(),
            r.interval() == refresh_interval,
            r.vrr_spec() == vrr,
            r.last_presented() is None,
    {
        FrameClock { last_presentation_time: None, refresh_interval_ns: refresh_interval, vrr }
    }

    pub fn refresh_interval(&self) -> (r: Option<u64>)
        ensures
            r == self.interval(),
    {
        self.refresh_interval_ns
    }

    /// Switches VRR; a change forgets the last presentation, since the two modes pace frames
    /// from different baselines.
    pub fn set_vrr(&mut self, vrr: bool)
        ensures
            final(self).vrr_spec() == vrr,
            final(self).interval() == old(self).interval(),
            final(self).last_presented() == (if old(self).vrr_spec() == vrr {
                old(self).last_presented()
            } else {
                None
            }),
    {
        if self.vrr == vrr {
            return;
        }
        self.vrr = vrr;
        self.last_presentation_time = None;
    }

    pub fn vrr(&self) -> (r: bool)
        ensures
            r == self.vrr_spec(),
    {
        self.vrr
    }

    /// Records a presentation; a zero time marks an invalid timestamp and is ignored.
    pub fn presented(&mut self, presentation_time: u64)
        ensures
            final(self).vrr_spec() == old(self).vrr_spec(),
            final(self).interval() == old(self).interval(),
            final(self).last_presented() == (if presentation_time == 0 {
                old(self).last_presented()
            } else {
                Some(presentation_time)
            }),
    {
        if presentation_time == 0 {
            return;
        }
        self.last_presentation_time = Some(presentation_time);
    }

    /// The predicted next presentation time, seen from the monotonic time now.
    pub fn next_presentation_time(&self) -> (r: u64)
        requires
            self.wf(),
        ensures
            exists|now: u64|
                r == next_presentation(self.last_presented(), self.interval(), self.vrr_spec(), now),
    {
        let now = get_monotonic_time();
        self.next_presentation_time_at(now)
    }

    /// The predicted next presentation time, seen from the time `now`.
    pub fn next_presentation_time_at(&self, now: u64) -> (r: u64)
        requires
            self.wf(),
        ensures
            r == next_presentation(self.last_presented(), self.interval(), self.vrr_spec(), now),
            // Seen from a time not before the last presentation: a point of the grid, or with
            // VRR possibly the time itself.
            ({
                let (i, l) = (self.interval()->0, self.last_presented()->0);
                self.interval() is Some && self.last_presented() is Some && l <= now && now + 2 * i
                    <= u64::MAX ==> (exists|k: int| k >= 1 && r == #[trigger] grid_point(l, i, k)) || (
                self.vrr_spec() && r == now)
            }),
            // Still before the last presentation even one interval on (a VBlank two or more
            // frames early): two intervals after the last presentation.
            ({
                let (i, l) = (self.interval()->0, self.last_presented()->0);
                self.interval() is Some && self.last_presented() is Some && !self.vrr_spec() && now
                    + i < l && l + 2 * i <= u64::MAX ==> r == l + 2 * i
            }),
    {
        proof {
            if self.interval() is Some && self.last_presented() is Some {
                let (i, l) = (self.interval()->0, self.last_presented()->0);
                if l <= now && now + 2 * i <= u64::MAX {
                    lemma_next_presentation_on_grid(l, i, self.vrr_spec(), now);
                }
                if now + i < l && l + 2 * i <= u64::MAX {
                    lemma_next_presentation_early_vblank(l, i, now);
                }
            }
        }
        let refresh_interval_ns = match self.refresh_interval_ns {
            Some(i) => i,
            None => return now,
        };
        let last_presentation_time = match self.last_presentation_time {
            Some(t) => t,
            None => return now,
        };
        let mut now = now;
        if now <= last_presentation_time {
            now = now.saturating_add(refresh_interval_ns);
            if now < last_presentation_time {
                now = last_presentation_time.saturating_add(refresh_interval_ns);
            }
        }
        let since_last_ns = now - last_presentation_time;
        let q = since_last_ns / refresh_interval_ns;
        proof {
            assert(q as int * refresh_interval_ns as int <= since_last_ns as int) by (nonlinear_arith)
                requires q == since_last_ns / refresh_interval_ns, refresh_interval_ns > 0;
            assert((q as int + 1) * refresh_interval_ns as int == q as int * refresh_interval_ns as int
                + refresh_interval_ns as int) by (nonlinear_arith);
        }
        let to_next_ns: u128 = (q as u128 + 1) * (refresh_interval_ns as u128);
        if self.vrr && to_next_ns > refresh_interval_ns as u128 {
            now
        } else {
            let target: u128 = last_presentation_time as u128 + to_next_ns;
            if target > u64::MAX as u128 {
                u64::MAX
            } else {
                target as u64
            }
        }
    }
}

/// The `k`-th point of the presentation grid that starts at `last`.
pub open spec fn grid_point(last: u64, interval: u64, k: int) -> int {
    last + k * interval
}

/// Seen from any time not before the last presentation, the prediction lies on the grid of
/// whole refresh intervals after the last presentation; with VRR it may instead be the time
/// itself.
pub proof fn lemma_next_presentation_on_grid(last: u64, interval: u64, vrr: bool, now: u64)
    requires
        0 < interval,
        last <= now,
        now + 2 * interval <= u64::MAX,
    ensures
        ({
            let r = next_presentation(Some(last), Some(interval), vrr, now);
            (exists|k: int| k >= 1 && r == #[trigger] grid_point(last, interval, k)) || (vrr && r == now)
        }),
{
    let n = aligned_now(last, interval, now);
    let q = (n - last) / (interval as int);
    let to_next = (q + 1) * (interval as int);
    assert(q * interval <= n - last) by (nonlinear_arith)
        requires q == (n - last) / (interval as int), interval > 0, n - last >= 0;
    assert(to_next == q * interval + interval) by (nonlinear_arith)
        requires to_next == (q + 1) * (interval as int);
    assert(n <= now + interval);
    let r = next_presentation(Some(last), Some(interval), vrr, now);
    if !(vrr && to_next > interval as int) {
        assert(r == grid_point(last, interval, q + 1));
        assert(q + 1 >= 1) by (nonlinear_arith)
            requires q == (n - last) / (interval as int), interval > 0, n - last >= 0;
    } else {
        assert(n == now || n == now + interval);
        if n == now {
        } else {
            // The time was the last presentation itself and was pushed one interval ahead.
            assert(r == grid_point(last, interval, 1));
        }
    }
}

/// When the time is still before the last presentation one interval on, the prediction
/// without VRR is two intervals after the last presentation.
pub proof fn lemma_next_presentation_early_vblank(last: u64, interval: u64, now: u64)
    requires
        0 < interval,
        now + interval < last,
        last + 2 * interval <= u64::MAX,
    ensures
        next_presentation(Some(last), Some(interval), false, now) == last + 2 * interval,
{
    let n = aligned_now(last, interval, now);
    assert(n == last + interval);
    assert((n - last) / (interval as int) == 1) by (nonlinear_arith)
        requires n - last == interval as int, interval > 0;
}

} // verus!
