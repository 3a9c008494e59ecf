//! The repeating timer that gates the scrolling of the obstacles.
//!
//! Times are whole nanoseconds.

use vstd::arithmetic::div_mod::{
    lemma_add_mod_noop_right,
    lemma_fundamental_div_mod,
    lemma_fundamental_div_mod_converse,
    lemma_mod_bound,
    lemma_small_mod,
};
use vstd::prelude::*;

verus! {

/// The interval of the scroll timer: 125 ms.
pub const SCROLL_INTERVAL_NANOS: u64 = 125_000_000;

/// A repeating timer. Each tick adds the time that has passed to what the
/// timer carries; when the sum reaches the interval the timer fires, once,
/// and carries on with what is left beyond the last whole interval.
#[derive(Clone, Copy, Debug, PartialEq, Eq, Structural)]
pub struct ScrollTimer {
    pub interval: u64,
    pub elapsed: u64,
    pub fired: bool,
}

/// A repeating timer over unbounded numbers.
pub struct Clock {
    pub interval: nat,
    pub elapsed: nat,
    pub fired: bool,
}

impl Clock {
    /// The interval is positive and the carried time lies below it.
    pub open spec fn wf(self) -> bool {
        0 < self.interval && self.elapsed < self.interval
    }

    /// The clock after a tick of `delta`: it fires when the carried time and
    /// `delta` together reach the interval, and carries their sum less every
    /// whole interval in it.
    pub open spec fn tick(self, delta: nat) -> Clock {
        Clock {
            interval: self.interval,
            elapsed: (self.elapsed + delta) % self.interval,
            fired: self.elapsed + delta >= self.interval,
        }
    }

    /// The clock after one tick for each entry of `deltas`, in order.
    pub open spec fn run(self, deltas: Seq<nat>) -> Clock
        decreases deltas.len(),
    {
        if deltas.len() == 0 {
            self
        } else {
            self.run(deltas.drop_last()).tick(deltas.last())
        }
    }

    /// In how many of the ticks of `deltas` the clock fires.
    pub open spec fn fire_count(self, deltas: Seq<nat>) -> nat
        decreases deltas.len(),
    {
        if deltas.len() == 0 {
            0
        } else {
            self.fire_count(deltas.drop_last()) + if self.run(deltas).fired {
                1nat
            } else {
                0nat
            }
        }
    }

    /// No tick of `deltas` skips an interval: at each tick the carried time
    /// and the time added stay below two intervals, so that the one firing
    /// of the tick accounts for every whole interval reached.
    pub open spec fn skips_no_interval(self, deltas: Seq<nat>) -> bool
        decreases deltas.len(),
    {
        deltas.len() == 0 || (self.skips_no_interval(deltas.drop_last()) && self.run(
            deltas.drop_last(),
        ).elapsed + deltas.last() < 2 * self.interval)
    }
}

/// The sum of the entries of `deltas`.
pub open spec fn total(deltas: Seq<nat>) -> nat
    decreases deltas.len(),
{
    if deltas.len() == 0 {
        0
    } else {
        total(deltas.drop_last()) + deltas.last()
    }
}

impl View for ScrollTimer {
    type V = Clock;

    open spec fn view(&self) -> Clock {
        Clock {
            interval: self.interval as nat,
            elapsed: self.elapsed as nat,
            fired: self.fired,
        }
    }
}

/// Runs one tick of a repeating `bevy::time::Timer` (`Timer::new` with
/// `TimerMode::Repeating`, `Timer::set_elapsed`, `Timer::tick`,
/// `Timer::elapsed`, `Timer::finished`). With less than one interval carried
/// and less than one interval added, the timer finishes exactly when the sum
/// reaches the interval, and then keeps the sum less one interval; otherwise
/// it keeps the sum.
#[verifier::external_body]
fn repeating_timer_tick(interval: u64, elapsed: u64, delta: u64) -> (r: (u64, bool))
    requires
        0 < interval,
        elapsed < interval,
        delta < interval,
    ensures
        r.1 == (elapsed + delta >= interval),
        r.1 ==> r.0 == elapsed + delta - interval,
        !r.1 ==> r.0 == elapsed + delta,
{
    let mut timer = bevy::time::Timer::new(
        std::time::Duration::from_nanos(interval),
        bevy::time::TimerMode::Repeating,
    );
    timer.set_elapsed(std::time::Duration::from_nanos(elapsed));
    timer.tick(std::time::Duration::from_nanos(delta));
    (timer.elapsed().as_nanos() as u64, timer.finished())
}

impl ScrollTimer {
    /// The interval is positive and the carried time lies below it.
    pub open spec fn wf(&self) -> bool {
        self@.wf()
    }

    /// A timer with the given interval that carries no time and has not
    /// fired.
    pub fn new(interval: u64) -> (r: ScrollTimer)
        requires
            0 < interval,
        ensures
            r@ == (Clock { interval: interval as nat, elapsed: 0, fired: false }),
            r.wf(),
    {
        ScrollTimer { interval, elapsed: 0, fired: false }
    }

    /// The timer of the game: 125 ms, nothing carried.
    pub fn scroll() -> (r: ScrollTimer)
        ensures
            r@ == (Clock { interval: SCROLL_INTERVAL_NANOS as nat, elapsed: 0, fired: false }),
            r.wf(),
    {
        ScrollTimer::new(SCROLL_INTERVAL_NANOS)
    }

    /// Whether the interval is positive and the carried time lies below it.
    pub fn is_well_formed(&self) -> (r: bool)
        ensures
            r == self.wf(),
    {
        0 < self.interval && self.elapsed < self.interval
    }

    /// Advances the timer by the time since the last frame. However long
    /// that was, the timer fires at most once.
    pub fn tick(&mut self, delta: u64)
        requires
            old(self).wf(),
        ensures
            final(self)@ == old(self)@.tick(delta as nat),
            final(self).wf(),
    {
        // A tick of a whole interval or more fires whatever is carried; what
        // is carried changes only by what the tick holds beyond whole
        // intervals.
        let whole: bool = delta >= self.interval;
        let rest: u64 = delta % self.interval;
        proof {
            let n = self.interval as int;
            lemma_mod_bound(delta as int, n);
            lemma_add_mod_noop_right(self.elapsed as int, delta as int, n);
            if !whole {
                lemma_small_mod(delta as nat, self.interval as nat);
            }
            let sum = self.elapsed + rest;
            if sum >= n {
                lemma_fundamental_div_mod_converse(sum, n, 1, sum - n);
            } else {
                lemma_small_mod(sum as nat, self.interval as nat);
            }
        }
        let (elapsed, wrapped) = repeating_timer_tick(self.interval, self.elapsed, rest);
        self.elapsed = elapsed;
        self.fired = whole || wrapped;
    }

    /// Whether the last tick reached the interval.
    pub fn fired(&self) -> (r: bool)
        ensures
            r == self@.fired,
    {
        self.fired
    }
}

/// One tick more: the carried time follows the running sum, and the number
/// of whole intervals in the sum grows at least by one when the clock fires,
/// and by exactly that when the tick skips no interval.
proof fn lemma_tick_carries(sum: nat, delta: nat, interval: nat)
    requires
        0 < interval,
    ensures
        ((sum % interval) + delta) % interval == (sum + delta) % interval,
        (sum % interval) + delta >= interval ==> (sum + delta) / interval >= sum / interval + 1,
        (sum + delta) / interval >= sum / interval,
        (sum % interval) + delta < 2 * interval ==> (sum + delta) / interval == sum / interval
            + if (sum % interval) + delta >= interval {
            1nat
        } else {
            0nat
        },
{
    let n = interval as int;
    let q = sum as int / n;
    let r = sum as int % n;
    lemma_fundamental_div_mod(sum as int, n);
    lemma_mod_bound(sum as int, n);
    let q2 = (r + delta) / n;
    let r2 = (r + delta) % n;
    lemma_fundamental_div_mod(r + delta, n);
    lemma_mod_bound(r + delta, n);
    assert(q2 >= 0) by (nonlinear_arith)
        requires
            r + delta == n * q2 + r2,
            0 <= r2 < n,
            r + delta >= 0,
            n > 0,
    ;
    assert(sum + delta == (q + q2) * n + r2) by (nonlinear_arith)
        requires
            sum == n * q + r,
            r + delta == n * q2 + r2,
    ;
    lemma_fundamental_div_mod_converse((sum + delta) as int, n, q + q2, r2);
    if r + delta >= n {
        assert(q2 >= 1) by (nonlinear_arith)
            requires
                r + delta == n * q2 + r2,
                0 <= r2 < n,
                r + delta >= n,
                n > 0,
        ;
    }
    if r + delta < 2 * n {
        assert(q2 <= 1) by (nonlinear_arith)
            requires
                r + delta == n * q2 + r2,
                0 <= r2 < n,
                r + delta < 2 * n,
                n > 0,
        ;
        if r + delta < n {
            assert(q2 < 1) by (nonlinear_arith)
                requires
                    r + delta == n * q2 + r2,
                    0 <= r2 < n,
                    r + delta < n,
                    n > 0,
            ;
        }
    }
}

/// After any ticks the clock carries what the time it started with and the
/// time added leave beyond the last whole interval, and it has fired at most
/// once for each whole interval in that sum.
pub proof fn fires_at_most_once_per_interval(clock: Clock, deltas: Seq<nat>)
    requires
        clock.wf(),
    ensures
        clock.run(deltas).wf(),
        clock.run(deltas).interval == clock.interval,
        clock.run(deltas).elapsed == (clock.elapsed + total(deltas)) % clock.interval,
        clock.fire_count(deltas) <= (clock.elapsed + total(deltas)) / clock.interval,
        clock.fire_count(deltas) <= deltas.len(),
    decreases deltas.len(),
{
    let n = clock.interval;
    if deltas.len() == 0 {
        lemma_small_mod(clock.elapsed, n);
        lemma_fundamental_div_mod_converse(clock.elapsed as int, n as int, 0, clock.elapsed as int);
    } else {
        let earlier = deltas.drop_last();
        fires_at_most_once_per_interval(clock, earlier);
        lemma_tick_carries(clock.elapsed + total(earlier), deltas.last(), n);
        lemma_mod_bound((clock.elapsed + total(deltas)) as int, n as int);
    }
}

/// Where no tick skips an interval, the clock fires exactly once for each
/// whole interval in the time it started with and the time added.
pub proof fn fires_once_per_interval(clock: Clock, deltas: Seq<nat>)
    requires
        clock.wf(),
        clock.skips_no_interval(deltas),
    ensures
        clock.fire_count(deltas) == (clock.elapsed + total(deltas)) / clock.interval,
    decreases deltas.len(),
{
    let n = clock.interval;
    if deltas.len() == 0 {
        lemma_fundamental_div_mod_converse(clock.elapsed as int, n as int, 0, clock.elapsed as int);
    } else {
        let earlier = deltas.drop_last();
        fires_once_per_interval(clock, earlier);
        fires_at_most_once_per_interval(clock, earlier);
        lemma_tick_carries(clock.elapsed + total(earlier), deltas.last(), n);
    }
}

/// Ticks that are no longer than the interval skip no interval.
pub proof fn short_ticks_skip_no_interval(clock: Clock, deltas: Seq<nat>)
    requires
        clock.wf(),
        forall|i: int| 0 <= i < deltas.len() ==> deltas[i] <= clock.interval,
    ensures
        clock.skips_no_interval(deltas),
    decreases deltas.len(),
{
    if deltas.len() > 0 {
        let earlier = deltas.drop_last();
        short_ticks_skip_no_interval(clock, earlier);
        fires_at_most_once_per_interval(clock, earlier);
    }
}

/// How a stretch of time is cut into frames does not matter: two runs of
/// ticks that add up to the same time, neither skipping an interval, fire
/// equally often and leave the clock carrying the same time.
pub proof fn resplitting_keeps_the_fires(clock: Clock, first: Seq<nat>, second: Seq<nat>)
    requires
        clock.wf(),
        total(first) == total(second),
        clock.skips_no_interval(first),
        clock.skips_no_interval(second),
    ensures
        clock.fire_count(first) == clock.fire_count(second),
        clock.run(first).elapsed == clock.run(second).elapsed,
        clock.run(first).interval == clock.run(second).interval,
{
    fires_once_per_interval(clock, first);
    fires_once_per_interval(clock, second);
    fires_at_most_once_per_interval(clock, first);
    fires_at_most_once_per_interval(clock, second);
}

} // verus!
