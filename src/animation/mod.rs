use vstd::prelude::*;

pub mod clock;

use self::clock::Clock;

verus! {

/// An easing curve.
#[derive(Debug, Clone, Copy, PartialEq, Eq, Structural)]
pub enum Curve {
    Linear,
    EaseOutQuad,
    EaseOutCubic,
    EaseOutExpo,
}

/// How a running animation moves from its start value to its end value.
pub trait Interpolation<V> {
    /// The value `passed` nanoseconds into an animation from `from` to `to` that lasts
    /// `duration` nanoseconds, for `0 < passed < duration`.
    fn value_between(&self, from: V, to: V, passed: u64, duration: u64) -> V;
}

/// `start + duration`, saturating at `u64::MAX`.
pub open spec fn end_of(start: u64, duration: u64) -> u64 {
    if start as int + duration as int > u64::MAX as int {
        u64::MAX
    } else {
        (start + duration) as u64
    }
}

/// An animation of a value of type `V` over the shared clock; `K` computes its value while it
/// runs. Times are in nanoseconds of the clock's adjusted time.
#[derive(Debug, Clone)]
pub struct Animation<V, K> {
    from: V,
    to: V,
    is_off: bool,
    duration: u64,
    clamped_duration: u64,
    start_time: u64,
    kind: K,
}

impl<V: Copy, K: Interpolation<V>> Animation<V, K> {
    pub closed spec fn from_spec(self) -> V {
        self.from
    }

    pub closed spec fn to_spec(self) -> V {
        self.to
    }

    /// The animation was turned off: it lasts no time at all.
    pub closed spec fn is_off_spec(self) -> bool {
        self.is_off
    }

    pub closed spec fn duration_spec(self) -> u64 {
        self.duration
    }

    /// The time after the start at which the value first reaches its end.
    pub closed spec fn clamped_duration_spec(self) -> u64 {
        self.clamped_duration
    }

    pub closed spec fn start_time_spec(self) -> u64 {
        self.start_time
    }

    pub closed spec fn kind_spec(self) -> K {
        self.kind
    }

    /// An animation from `from` to `to` moved by `kind`, lasting `duration` and reaching its
    /// end first after `clamped_duration`, started at the clock's current time.
    pub fn with_kind(
        clock: &mut Clock,
        from: V,
        to: V,
        kind: K,
        duration: u64,
        clamped_duration: u64,
    ) -> (r: Self)
        ensures
            r.from_spec() == from,
            r.to_spec() == to,
            r.kind_spec() == kind,
            !r.is_off_spec(),
            r.duration_spec() == duration,
            r.clamped_duration_spec() == clamped_duration,
            r.start_time_spec() == final(clock).adjusted(),
            final(clock).rate_spec() == old(clock).rate_spec(),
            final(clock).complete_instantly_spec() == old(clock).complete_instantly_spec(),
    {
        let start_time = clock.now();
        Animation { from, to, is_off: false, duration, clamped_duration, start_time, kind }
    }

    /// Replaces how the animation moves and how long it lasts, keeping its start time, so that
    /// a reconfigured animation does not jump. An animation turned off lasts no time.
    pub fn replace_kind(&mut self, kind: K, is_off: bool, duration: u64, clamped_duration: u64)
        ensures
            final(self).from_spec() == old(self).from_spec(),
            final(self).to_spec() == old(self).to_spec(),
            final(self).start_time_spec() == old(self).start_time_spec(),
            final(self).kind_spec() == kind,
            final(self).is_off_spec() == is_off,
            final(self).duration_spec() == (if is_off { 0 } else { duration }),
            final(self).clamped_duration_spec() == (if is_off { 0 } else { clamped_duration }),
            // Replacing with what is there changes nothing.
            kind == old(self).kind_spec() && is_off == old(self).is_off_spec() && duration
                == old(self).duration_spec() && clamped_duration == old(self).clamped_duration_spec()
                && !is_off ==> *final(self) == *old(self),
    {
        self.kind = kind;
        self.is_off = is_off;
        if is_off {
            self.duration = 0;
            self.clamped_duration = 0;
        } else {
            self.duration = duration;
            self.clamped_duration = clamped_duration;
        }
    }

    /// Whether the animation has ended: always so while the clock completes animations
    /// instantly.
    pub fn is_done(&self, clock: &mut Clock) -> (r: bool)
        ensures
            final(clock).rate_spec() == old(clock).rate_spec(),
            final(clock).complete_instantly_spec() == old(clock).complete_instantly_spec(),
            old(clock).complete_instantly_spec() ==> r,
            !old(clock).complete_instantly_spec() ==> (r == (final(clock).adjusted() >= end_of(
                self.start_time_spec(),
                self.duration_spec(),
            ))),
            !old(clock).complete_instantly_spec() ==> final(clock).is_sampled(),
    {
        if clock.should_complete_instantly() {
            return true;
        }
        clock.now() >= self.start_time.saturating_add(self.duration)
    }

    /// Whether the value has reached its end for the first time.
    pub fn is_clamped_done(&self, clock: &mut Clock) -> (r: bool)
        ensures
            final(clock).rate_spec() == old(clock).rate_spec(),
            final(clock).complete_instantly_spec() == old(clock).complete_instantly_spec(),
            old(clock).complete_instantly_spec() ==> r,
            !old(clock).complete_instantly_spec() ==> (r == (final(clock).adjusted() >= end_of(
                self.start_time_spec(),
                self.clamped_duration_spec(),
            ))),
            !old(clock).complete_instantly_spec() ==> final(clock).is_sampled(),
    {
        if clock.should_complete_instantly() {
            return true;
        }
        clock.now() >= self.start_time.saturating_add(self.clamped_duration)
    }

    /// The value at time `at`: the start value up to the start time, the end value from the
    /// end time on (and at any time after the start while the clock completes animations
    /// instantly), and what the kind computes in between.
    pub fn value_at(&self, clock: &Clock, at: u64) -> (r: V)
        ensures
            at <= self.start_time_spec() ==> r == self.from_spec(),
            at > self.start_time_spec() && at >= end_of(self.start_time_spec(), self.duration_spec())
                ==> r == self.to_spec(),
            at > self.start_time_spec() && clock.complete_instantly_spec() ==> r == self.to_spec(),
    {
        if at <= self.start_time {
            return self.from;
        } else if self.start_time.saturating_add(self.duration) <= at {
            return self.to;
        }
        if clock.should_complete_instantly() {
            return self.to;
        }
        let passed = at - self.start_time;
        self.kind.value_between(self.from, self.to, passed, self.duration)
    }

    /// The value now; the end value while the clock completes animations instantly.
    pub fn value(&self, clock: &mut Clock) -> (r: V)
        ensures
            final(clock).rate_spec() == old(clock).rate_spec(),
            final(clock).complete_instantly_spec() == old(clock).complete_instantly_spec(),
            final(clock).is_sampled(),
            old(clock).is_sampled() ==> final(clock).adjusted() == old(clock).adjusted(),
            old(clock).complete_instantly_spec() ==> r == self.to_spec(),
            !old(clock).complete_instantly_spec() && final(clock).adjusted() <= self.start_time_spec()
                ==> r == self.from_spec(),
            final(clock).adjusted() > self.start_time_spec() && final(clock).adjusted() >= end_of(
                self.start_time_spec(),
                self.duration_spec(),
            ) ==> r == self.to_spec(),
    {
        let now = clock.now();
        if clock.should_complete_instantly() {
            return self.to;
        }
        self.value_at(clock, now)
    }

    /// The value now, held at the end once it has been reached the first time.
    pub fn clamped_value(&self, clock: &mut Clock) -> (r: V)
        ensures
            final(clock).rate_spec() == old(clock).rate_spec(),
            final(clock).complete_instantly_spec() == old(clock).complete_instantly_spec(),
            old(clock).complete_instantly_spec() ==> r == self.to_spec(),
            final(clock).adjusted() >= end_of(self.start_time_spec(), self.clamped_duration_spec())
                ==> r == self.to_spec(),
    {
        if self.is_clamped_done(clock) {
            return self.to;
        }
        self.value(clock)
    }

    pub fn to(&self) -> (r: V)
        ensures
            r == self.to_spec(),
    {
        self.to
    }

    pub fn from(&self) -> (r: V)
        ensures
            r == self.from_spec(),
    {
        self.from
    }

    pub fn kind(&self) -> (r: &K)
        ensures
            *r == self.kind_spec(),
    {
        &self.kind
    }

    pub fn is_off(&self) -> (r: bool)
        ensures
            r == self.is_off_spec(),
    {
        self.is_off
    }

    pub fn start_time(&self) -> (r: u64)
        ensures
            r == self.start_time_spec(),
    {
        self.start_time
    }

    pub fn end_time(&self) -> (r: u64)
        ensures
            r == end_of(self.start_time_spec(), self.duration_spec()),
    {
        self.start_time.saturating_add(self.duration)
    }

    pub fn duration(&self) -> (r: u64)
        ensures
            r == self.duration_spec(),
    {
        self.duration
    }

    pub fn clamped_duration(&self) -> (r: u64)
        ensures
            r == self.clamped_duration_spec(),
    {
        self.clamped_duration
    }

    /// Sets both end values, keeping the timing; for animations whose target moves.
    pub fn set_values(&mut self, from: V, to: V, kind: K)
        ensures
            final(self).from_spec() == from,
            final(self).to_spec() == to,
            final(self).kind_spec() == kind,
            final(self).is_off_spec() == old(self).is_off_spec(),
            final(self).start_time_spec() == old(self).start_time_spec(),
            final(self).duration_spec() == old(self).duration_spec(),
            final(self).clamped_duration_spec() == old(self).clamped_duration_spec(),
    {
        self.from = from;
        self.to = to;
        self.kind = kind;
    }
}

} // verus!
