use vstd::prelude::*;

verus! {

/// Nanoseconds in one second.
pub const NANOS_PER_SEC: u64 = 1_000_000_000;

/// A span of time with nanosecond granularity.
#[derive(Clone, Copy, Debug, PartialEq, Eq, Structural)]
pub struct Duration {
    pub nanos: u64,
}

impl Duration {
    pub fn from_nanos(nanos: u64) -> (r: Duration)
        ensures
            r.nanos == nanos,
    {
        Duration { nanos }
    }

    pub fn from_secs(secs: u64) -> (r: Duration)
        requires
            secs * NANOS_PER_SEC <= u64::MAX,
        ensures
            r.nanos == secs * NANOS_PER_SEC,
    {
        Duration { nanos: secs * NANOS_PER_SEC }
    }

    pub fn as_nanos(&self) -> (r: u64)
        ensures
            r == self.nanos,
    {
        self.nanos
    }
}

/// Number of whole ticks of `resolution` nanoseconds that cover `nanos`:
/// the duration divided by the resolution, rounded up.
pub open spec fn ticks_covering(nanos: nat, resolution: nat) -> nat
    recommends
        resolution > 0,
{
    if nanos % resolution == 0 {
        nanos / resolution
    } else {
        nanos / resolution + 1
    }
}

/// A monotonic hardware timer whose counter advances once per tick of
/// `resolution_ns` nanoseconds.
#[derive(Clone, Copy, Debug, PartialEq, Eq, Structural)]
pub struct Timer {
    pub resolution_ns: u64,
}

/// How a blocking wait is carried out on a given timer.
///
/// A wait shorter than one tick is rounded up to one whole tick, and
/// `below_resolution` records that this happened.
#[derive(Clone, Copy, Debug, PartialEq, Eq, Structural)]
pub struct SpinPlan {
    pub ticks: u64,
    pub below_resolution: bool,
}

/// An ongoing blocking wait: the counter value it started at and the number
/// of ticks it must see pass.
#[derive(Clone, Copy, Debug, PartialEq, Eq, Structural)]
pub struct SpinWait {
    pub start: u64,
    pub ticks: u64,
}

impl Timer {
    pub open spec fn wf(&self) -> bool {
        self.resolution_ns > 0
    }

    pub fn new(resolution_ns: u64) -> (r: Option<Timer>)
        ensures
            r is Some <==> resolution_ns > 0,
            r matches Some(t) ==> t.resolution_ns == resolution_ns && t.wf(),
    {
        if resolution_ns == 0 {
            None
        } else {
            Some(Timer { resolution_ns })
        }
    }

    /// The smallest observable step of the timer.
    pub fn resolution(&self) -> (r: Duration)
        ensures
            r.nanos == self.resolution_ns,
    {
        Duration { nanos: self.resolution_ns }
    }

    /// Plans a wait of at least `d`: the fewest whole ticks that cover it.
    pub fn plan_spin(&self, d: Duration) -> (r: SpinPlan)
        requires
            self.wf(),
        ensures
            r.ticks == ticks_covering(d.nanos as nat, self.resolution_ns as nat),
            r.below_resolution <==> (0 < d.nanos && d.nanos < self.resolution_ns),
            r.ticks * self.resolution_ns >= d.nanos,
            r.ticks > 0 ==> (r.ticks - 1) * self.resolution_ns < d.nanos,
    {
        let q = d.nanos / self.resolution_ns;
        let rem = d.nanos % self.resolution_ns;
        proof {
            if rem != 0 {
                assert(q < u64::MAX) by (nonlinear_arith)
                    requires q == d.nanos / self.resolution_ns, rem == d.nanos % self.resolution_ns,
                        rem != 0, self.resolution_ns > 0, d.nanos <= u64::MAX;
            }
        }
        let ticks: u64 = if rem == 0 { q } else { q + 1 };
        proof {
            let res = self.resolution_ns as int;
            let n = d.nanos as int;
            assert(n == q * res + rem) by (nonlinear_arith)
                requires q == n / res, rem == n % res, res > 0;
            assert(ticks * res >= n) by (nonlinear_arith)
                requires n == q * res + rem, 0 <= rem < res,
                    ticks == (if rem == 0 { q as int } else { q + 1 });
            assert(ticks > 0 ==> (ticks - 1) * res < n) by (nonlinear_arith)
                requires n == q * res + rem, 0 <= rem < res,
                    ticks == (if rem == 0 { q as int } else { q + 1 });
        }
        SpinPlan { ticks, below_resolution: 0 < d.nanos && d.nanos < self.resolution_ns }
    }
}

impl SpinWait {
    /// Starts a planned wait at counter value `start`.
    pub fn begin(start: u64, plan: SpinPlan) -> (r: SpinWait)
        ensures
            r.start == start,
            r.ticks == plan.ticks,
    {
        SpinWait { start, ticks: plan.ticks }
    }

    /// Whether the wait is over once the counter reads `now`.
    pub open spec fn finished_at(&self, now: u64) -> bool {
        now >= self.start && now - self.start >= self.ticks
    }

    /// Polls the wait against the counter value `now`. A counter that reads
    /// below the start value has not advanced, so the wait goes on.
    pub fn is_done(&self, now: u64) -> (r: bool)
        ensures
            r == self.finished_at(now),
    {
        now >= self.start && now - self.start >= self.ticks
    }
}

/// A wait planned for `d` and polled until it reports done has let at least
/// `d` of timer time pass, whether or not `d` is shorter than one tick.
pub proof fn lemma_spin_lasts_at_least(timer: Timer, d: Duration, w: SpinWait, now: u64)
    requires
        timer.wf(),
        w.ticks == ticks_covering(d.nanos as nat, timer.resolution_ns as nat),
        w.finished_at(now),
    ensures
        (now - w.start) * timer.resolution_ns >= d.nanos,
{
    let res = timer.resolution_ns as int;
    let n = d.nanos as int;
    let t = w.ticks as int;
    let e = (now - w.start) as int;
    assert(n == (n / res) * res + n % res) by (nonlinear_arith)
        requires res > 0;
    assert(t * res >= n) by (nonlinear_arith)
        requires n == (n / res) * res + n % res, 0 <= n % res < res,
            t == (if n % res == 0 { n / res } else { n / res + 1 });
    assert(e * res >= t * res) by (nonlinear_arith)
        requires e >= t, res > 0;
}

/// A wait for any positive duration, even one below the timer's
/// resolution, takes at least one tick: it never returns at once.
pub proof fn lemma_positive_wait_takes_a_tick(timer: Timer, d: Duration)
    requires
        timer.wf(),
        d.nanos > 0,
    ensures
        ticks_covering(d.nanos as nat, timer.resolution_ns as nat) >= 1,
{
    let res = timer.resolution_ns as int;
    let n = d.nanos as int;
    assert(n == (n / res) * res + n % res) by (nonlinear_arith)
        requires res > 0;
    if n % res == 0 {
        assert(n / res >= 1) by (nonlinear_arith)
            requires n == (n / res) * res, n > 0, res > 0;
    }
}

} // verus!
