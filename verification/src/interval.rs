//! The broadcast schedule: a period that ramps down linearly.
//!
//! All times are whole milliseconds. Instants are counted from the start of
//! the schedule's epoch, the moment the first announcement is sent.

use vstd::prelude::*;

verus! {

/// A duration or an instant, in milliseconds.
pub type Millis = u64;

/// Period between broadcasts right after the start, unless configured.
pub const DEFAULT_MAX: Millis = 10_000;

/// Period between broadcasts once the ramp is over, unless configured.
pub const DEFAULT_MIN: Millis = 10;

/// Length of the ramp, unless configured.
pub const DEFAULT_RAMPDOWN: Millis = 60_000;

/// The shape of the ramp: the period falls linearly from `max` to `min`
/// over the first `rampdown` milliseconds and stays at `min` afterwards.
#[derive(Clone, Copy, Debug, PartialEq, Eq, Structural)]
pub struct Params {
    pub rampdown: Millis,
    pub min: Millis,
    pub max: Millis,
}

impl Params {
    /// The minimum period does not exceed the maximum.
    pub open spec fn wf(&self) -> bool {
        self.min <= self.max
    }

    /// The period at `t` milliseconds after the start:
    /// `max - (max - min) * clamp(t / rampdown, 0, 1)`, rounded up to a whole
    /// millisecond. A ramp of length zero is over at once.
    pub open spec fn spec_period(&self, t: Millis) -> int {
        if self.rampdown == 0 || t >= self.rampdown {
            self.min as int
        } else {
            self.max - ((self.max - self.min) * t) / (self.rampdown as int)
        }
    }

    /// The period at `t` milliseconds after the start.
    pub fn period(&self, t: Millis) -> (p: Millis)
        requires
            self.wf(),
        ensures
            p == self.spec_period(t),
            self.min <= p <= self.max,
    {
        if self.rampdown == 0 || t >= self.rampdown {
            self.min
        } else {
            let span: u64 = self.max - self.min;
            let ramp: u64 = self.rampdown;
            assert(span * t <= span * ramp) by (nonlinear_arith)
                requires
                    t < ramp,
                    0 <= span,
            ;
            assert(span * ramp <= 0xffff_ffff_ffff_ffff * 0xffff_ffff_ffff_ffff) by (nonlinear_arith)
                requires
                    0 <= span <= 0xffff_ffff_ffff_ffff,
                    0 <= ramp <= 0xffff_ffff_ffff_ffff,
            ;
            assert((span * t) / (ramp as int) <= span) by (nonlinear_arith)
                requires
                    span * t <= span * ramp,
                    0 <= span * t,
                    ramp > 0,
            ;
            assert(0 <= (span * t) / (ramp as int)) by (nonlinear_arith)
                requires
                    0 <= span * t,
                    ramp > 0,
            ;
            let fall: u128 = (span as u128 * t as u128) / (ramp as u128);
            self.max - (fall as u64)
        }
    }
}

impl Default for Params {
    /// From ten seconds down to ten milliseconds, over one minute.
    fn default() -> (p: Params)
        ensures
            p == (Params { rampdown: DEFAULT_RAMPDOWN, min: DEFAULT_MIN, max: DEFAULT_MAX }),
    {
        Params { rampdown: DEFAULT_RAMPDOWN, min: DEFAULT_MIN, max: DEFAULT_MAX }
    }
}

/// The later a broadcast, the shorter the wait that follows it.
pub proof fn lemma_period_ramps_down(params: Params, earlier: Millis, later: Millis)
    requires
        params.wf(),
        earlier <= later,
    ensures
        params.min <= params.spec_period(later) <= params.spec_period(earlier) <= params.max,
        params.spec_period(0) == if params.rampdown == 0 { params.min } else { params.max },
{
    let span = params.max - params.min;
    let ramp = params.rampdown as int;
    if ramp > 0 {
        assert((span * 0) / ramp == 0) by (nonlinear_arith)
            requires
                ramp > 0,
        ;
        if later < ramp {
            assert(0 <= (span * earlier) / ramp <= (span * later) / ramp <= span)
                by (nonlinear_arith)
                requires
                    0 <= earlier <= later < ramp,
                    0 <= span,
            ;
        } else if earlier < ramp {
            assert(0 <= (span * earlier) / ramp <= span) by (nonlinear_arith)
                requires
                    0 <= earlier < ramp,
                    0 <= span,
            ;
        }
    }
}

/// The schedule of one instance: the shape of its ramp and the instant of
/// its next broadcast.
#[derive(Clone, Copy, Debug)]
pub struct Interval {
    params: Params,
    next: Millis,
}

impl Interval {
    #[verifier::type_invariant]
    spec fn inv(&self) -> bool {
        self.params.wf()
    }

    /// The shape of the ramp.
    pub closed spec fn params(&self) -> Params {
        self.params
    }

    /// The instant of the next broadcast.
    pub closed spec fn spec_next(&self) -> Millis {
        self.next
    }

    /// Time left at `now` until the next broadcast; zero once it is due.
    pub open spec fn spec_until(&self, now: Millis) -> Millis {
        if self.spec_next() > now {
            (self.spec_next() - now) as Millis
        } else {
            0
        }
    }

    /// The instant that follows the next broadcast: one period later, the
    /// period taken at the next broadcast; the last representable instant
    /// where that lies beyond it.
    pub open spec fn spec_following(&self) -> Millis {
        let then = self.spec_next() + self.params().spec_period(self.spec_next());
        if then > Millis::MAX {
            Millis::MAX
        } else {
            then as Millis
        }
    }

    /// The schedule at the start of an epoch. The first broadcast goes out
    /// at once, at instant zero, so the next one is due one period later.
    pub fn new(params: Params) -> (interval: Interval)
        requires
            params.wf(),
        ensures
            interval.params() == params,
            interval.spec_next() == params.spec_period(0),
    {
        let next: Millis = params.period(0);
        Interval { params, next }
    }

    /// The instant of the next broadcast. Reading it changes nothing.
    #[verifier::when_used_as_spec(spec_next)]
    pub fn next(&self) -> (next: Millis)
        ensures
            next == self.spec_next(),
    {
        self.next
    }

    /// Time left at `now` until the next broadcast, zero once it is due.
    #[verifier::when_used_as_spec(spec_until)]
    pub fn until(&self, now: Millis) -> (left: Millis)
        ensures
            left == self.spec_until(now),
    {
        if self.next > now {
            self.next - now
        } else {
            0
        }
    }

    /// Moves on to the broadcast after the next one. To be called when the
    /// sleep till `next()` is over and the broadcast goes out.
    ///
    /// The next instant never moves back, and it moves by a period between
    /// the minimum and the maximum.
    pub fn advance(&mut self)
        ensures
            final(self).params() == old(self).params(),
            final(self).spec_next() == old(self).spec_following(),
            final(self).spec_next() >= old(self).spec_next(),
            final(self).spec_next() < Millis::MAX ==> old(self).params().min
                <= final(self).spec_next() - old(self).spec_next() <= old(self).params().max,
    {
        proof {
            use_type_invariant(&*self);
        }
        let period: Millis = self.params.period(self.next);
        if period > Millis::MAX - self.next {
            self.next = Millis::MAX;
        } else {
            self.next = self.next + period;
        }
    }
}

/// The schedule never moves back, and each of its steps is one period
/// long: no shorter than the minimum and no longer than the maximum, unless
/// the last representable instant cuts it short.
pub proof fn lemma_schedule_moves_forward(interval: Interval)
    requires
        interval.params().wf(),
    ensures
        interval.spec_following() >= interval.spec_next(),
        interval.spec_following() < Millis::MAX ==> interval.params().min
            <= interval.spec_following() - interval.spec_next() <= interval.params().max,
{
    lemma_period_ramps_down(interval.params(), interval.spec_next(), interval.spec_next());
}

} // verus!
