use vstd::prelude::*;

use crate::utils::get_monotonic_time;

verus! {

/// The clock rate is kept in millionths: this value stands for a rate of one.
pub const RATE_ONE: u64 = 1_000_000;

/// The largest rate a clock accepts, a thousand times the normal speed.
pub const MAX_RATE: u64 = 1_000 * RATE_ONE;

/// `delta` nanoseconds of raw time seen at `rate` (in millionths), saturating at `u64::MAX`.
pub open spec fn scaled(delta: u64, rate: u64) -> u64 {
    let v = (delta as int) * (rate as int) / (RATE_ONE as int);
    if v > u64::MAX as int { u64::MAX } else { v as u64 }
}

/// The adjusted time after the raw time moved from `last` to `raw`: the raw delta at `rate`
/// is added when time went forward and taken away when it went backward, saturating.
pub open spec fn advanced(current: u64, last: u64, raw: u64, rate: u64) -> u64 {
    if raw == last {
        current
    } else if last < raw {
        let v = current as int + scaled((raw - last) as u64, rate) as int;
        if v > u64::MAX as int { u64::MAX } else { v as u64 }
    } else {
        let v = current as int - scaled((last - raw) as u64, rate) as int;
        if v < 0 { 0 } else { v as u64 }
    }
}

/// A clock that reads the monotonic time once and keeps it until it is cleared.
#[derive(Debug)]
pub struct LazyClock {
    time: Option<u64>,
}

impl Default for LazyClock {
    fn default() -> (r: Self)
        ensures
            r.cached() is None,
    {
        LazyClock { time: None }
    }
}

impl LazyClock {
    /// The kept time, if any.
    pub closed spec fn cached(self) -> Option<u64> {
        self.time
    }

    /// A clock that holds `time` (nanoseconds).
    pub fn with_time(time: u64) -> (r: Self)
        ensures
            r.cached() == Some(time),
    {
        LazyClock { time: Some(time) }
    }

    /// Forgets the kept time, so that the next `now` reads the monotonic time again.
    pub fn clear(&mut self)
        ensures
            final(self).cached() is None,
    {
        self.time = None;
    }

    /// Replaces the kept time.
    pub fn set(&mut self, time: u64)
        ensures
            final(self).cached() == Some(time),
    {
        self.time = Some(time);
    }

    /// The kept time; where none is kept, the monotonic time, which is kept from then on.
    pub fn now(&mut self) -> (r: u64)
        ensures
            final(self).cached() == Some(r),
            old(self).cached() is Some ==> r == old(self).cached()->0,
    {
        match self.time {
            Some(t) => t,
            None => {
                let t = get_monotonic_time();
                self.time = Some(t);
                t
            },
        }
    }
}

/// The animation clock: a lazily read monotonic time, run at an adjustable rate.
///
/// The event loop owns one clock and hands it by reference to everything that animates, so
/// that a change of rate or of the complete-instantly flag reaches every animation at once.
#[derive(Debug)]
pub struct Clock {
    inner: LazyClock,
    current_time: u64,
    last_seen_time: u64,
    rate: u64,
    complete_instantly: bool,
}

impl Clock {
    /// The raw time kept for this frame, if any.
    pub closed spec fn cached_raw(self) -> Option<u64> {
        self.inner.cached()
    }

    /// The adjusted time as of the last sample.
    pub closed spec fn adjusted(self) -> u64 {
        self.current_time
    }

    /// The raw time of the last sample.
    pub closed spec fn last_seen(self) -> u64 {
        self.last_seen_time
    }

    /// The rate, in millionths.
    pub closed spec fn rate_spec(self) -> u64 {
        self.rate
    }

    pub closed spec fn complete_instantly_spec(self) -> bool {
        self.complete_instantly
    }

    pub open spec fn wf(self) -> bool {
        self.rate_spec() <= MAX_RATE
    }

    /// The raw time of this frame has been sampled into the adjusted time.
    pub open spec fn is_sampled(self) -> bool {
        self.cached_raw() == Some(self.last_seen())
    }

    /// What `now` returns while a raw time is kept.
    pub open spec fn now_spec(self) -> u64
        recommends
            self.cached_raw() is Some,
    {
        advanced(self.adjusted(), self.last_seen(), self.cached_raw()->0, self.rate_spec())
    }

    fn from_lazy(inner: LazyClock) -> (r: Self)
        ensures
            r.wf(),
            r.is_sampled(),
            r.adjusted() == r.last_seen(),
            inner.cached() is Some ==> r.last_seen() == inner.cached()->0,
            r.rate_spec() == RATE_ONE,
            !r.complete_instantly_spec(),
    {
        let mut inner = inner;
        let time = inner.now();
        Clock {
            inner,
            current_time: time,
            last_seen_time: time,
            rate: RATE_ONE,
            complete_instantly: false,
        }
    }

    /// A clock at rate one whose raw and adjusted time are both `time` (nanoseconds).
    pub fn with_time(time: u64) -> (r: Self)
        ensures
            r.wf(),
            r.is_sampled(),
            r.adjusted() == time,
            r.last_seen() == time,
            r.rate_spec() == RATE_ONE,
            !r.complete_instantly_spec(),
    {
        Self::from_lazy(LazyClock::with_time(time))
    }

    /// The adjusted time: the raw time is read if none is kept for this frame, and the raw
    /// time that passed since the last sample is added at the current rate.
    pub fn now(&mut self) -> (r: u64)
        ensures
            final(self).cached_raw() is Some,
            old(self).cached_raw() is Some ==> final(self).cached_raw() == old(self).cached_raw(),
            r == final(self).adjusted(),
            r == advanced(
                old(self).adjusted(),
                old(self).last_seen(),
                final(self).cached_raw()->0,
                old(self).rate_spec(),
            ),
            final(self).is_sampled(),
            final(self).rate_spec() == old(self).rate_spec(),
            final(self).complete_instantly_spec() == old(self).complete_instantly_spec(),
    {
        let time = self.inner.now();
        if self.last_seen_time == time {
            return self.current_time;
        }
        if self.last_seen_time < time {
            let delta = scale(time - self.last_seen_time, self.rate);
            self.current_time = self.current_time.saturating_add(delta);
        } else {
            let delta = scale(self.last_seen_time - time, self.rate);
            self.current_time = self.current_time.saturating_sub(delta);
        }
        self.last_seen_time = time;
        self.current_time
    }

    /// The raw time, not adjusted for the rate.
    pub fn now_unadjusted(&mut self) -> (r: u64)
        ensures
            final(self).cached_raw() == Some(r),
            old(self).cached_raw() is Some ==> r == old(self).cached_raw()->0,
            final(self).adjusted() == old(self).adjusted(),
            final(self).last_seen() == old(self).last_seen(),
            final(self).rate_spec() == old(self).rate_spec(),
            final(self).complete_instantly_spec() == old(self).complete_instantly_spec(),
    {
        self.inner.now()
    }

    /// Sets the raw time of this frame.
    pub fn set_unadjusted(&mut self, time: u64)
        ensures
            final(self).cached_raw() == Some(time),
            final(self).adjusted() == old(self).adjusted(),
            final(self).last_seen() == old(self).last_seen(),
            final(self).rate_spec() == old(self).rate_spec(),
            final(self).complete_instantly_spec() == old(self).complete_instantly_spec(),
    {
        self.inner.set(time);
    }

    /// Forgets the raw time of this frame, so that the next `now` reads it again.
    pub fn clear(&mut self)
        ensures
            final(self).cached_raw() is None,
            final(self).adjusted() == old(self).adjusted(),
            final(self).last_seen() == old(self).last_seen(),
            final(self).rate_spec() == old(self).rate_spec(),
            final(self).complete_instantly_spec() == old(self).complete_instantly_spec(),
    {
        self.inner.clear();
    }

    /// The rate, in millionths.
    pub fn rate(&self) -> (r: u64)
        ensures
            r == self.rate_spec(),
    {
        self.rate
    }

    /// Sets the rate (in millionths), clamped to at most `MAX_RATE`.
    pub fn set_rate(&mut self, rate: u64)
        ensures
            final(self).rate_spec() == (if rate > MAX_RATE { MAX_RATE } else { rate }),
            final(self).cached_raw() == old(self).cached_raw(),
            final(self).adjusted() == old(self).adjusted(),
            final(self).last_seen() == old(self).last_seen(),
            final(self).complete_instantly_spec() == old(self).complete_instantly_spec(),
    {
        self.rate = if rate > MAX_RATE { MAX_RATE } else { rate };
    }

    /// Whether animations should jump to their end.
    pub fn should_complete_instantly(&self) -> (r: bool)
        ensures
            r == self.complete_instantly_spec(),
    {
        self.complete_instantly
    }

    pub fn set_complete_instantly(&mut self, value: bool)
        ensures
            final(self).complete_instantly_spec() == value,
            final(self).cached_raw() == old(self).cached_raw(),
            final(self).adjusted() == old(self).adjusted(),
            final(self).last_seen() == old(self).last_seen(),
            final(self).rate_spec() == old(self).rate_spec(),
    {
        self.complete_instantly = value;
    }
}

impl Default for Clock {
    /// A clock at rate one, started at the monotonic time.
    fn default() -> (r: Self)
        ensures
            r.wf(),
            r.is_sampled(),
            r.adjusted() == r.last_seen(),
            r.rate_spec() == RATE_ONE,
            !r.complete_instantly_spec(),
    {
        Self::from_lazy(LazyClock::default())
    }
}

/// `delta` nanoseconds at `rate` millionths, saturating.
fn scale(delta: u64, rate: u64) -> (r: u64)
    ensures
        r == scaled(delta, rate),
{
    proof {
        assert((delta as int) * (rate as int) <= (u64::MAX as int) * (u64::MAX as int))
            by (nonlinear_arith);
    }
    let v: u128 = (delta as u128) * (rate as u128) / (RATE_ONE as u128);
    if v > u64::MAX as u128 {
        u64::MAX
    } else {
        v as u64
    }
}

/// Within one frame the adjusted time stands still: once `now` has sampled the raw time of
/// the frame, every later `now` before the next `clear` returns the same value, whatever the
/// rate has been set to meanwhile.
pub proof fn lemma_now_constant_within_frame(c: Clock)
    requires
        c.is_sampled(),
    ensures
        c.now_spec() == c.adjusted(),
{
}

} // verus!
