use vstd::arithmetic::div_mod::lemma_add_mod_noop_right;
use vstd::prelude::*;

use bevy::time::{Timer, TimerMode};
use std::time::Duration;

verus! {

/// Number of values a `u32` can hold.
pub const U32_SPAN: u64 = 0x1_0000_0000;

/// Time a repeating timer holds after running `total_ns` past its start.
pub open spec fn wrapped_elapsed(total_ns: int, period_ns: int) -> int {
    total_ns % period_ns
}

/// Full periods in `total_ns`, as bevy reports them in a `u32`.
pub open spec fn periods_reported(total_ns: int, period_ns: int) -> int {
    (total_ns / period_ns) % (U32_SPAN as int)
}

/// Ticking a repeating timer by `first_ns` and then by `second_ns` leaves it
/// with the same elapsed time as one tick by their sum.
pub proof fn lemma_ticks_compose(period_ns: int, elapsed_ns: int, first_ns: int, second_ns: int)
    requires
        period_ns > 0,
        0 <= elapsed_ns,
        0 <= first_ns,
        0 <= second_ns,
    ensures
        wrapped_elapsed(wrapped_elapsed(elapsed_ns + first_ns, period_ns) + second_ns, period_ns)
            == wrapped_elapsed(elapsed_ns + first_ns + second_ns, period_ns),
{
    lemma_add_mod_noop_right(second_ns, elapsed_ns + first_ns, period_ns);
    assert(second_ns + (elapsed_ns + first_ns) == elapsed_ns + first_ns + second_ns);
}

/// What one tick of a repeating timer reports.
#[derive(Clone, Copy, Debug, PartialEq, Eq)]
pub struct TickOutcome {
    /// Periods that ended during the tick (bevy's `times_finished_this_tick`).
    pub times_finished: u32,
    /// Whether at least one period ended during the tick (bevy's `finished`).
    pub finished: bool,
}

impl TickOutcome {
    /// Whether the timer fired during the tick (bevy's `just_finished`).
    pub fn just_finished(&self) -> (r: bool)
        ensures
            r == (self.times_finished > 0),
    {
        self.times_finished > 0
    }
}

/// A timer in bevy's repeating mode, held as nanoseconds.
#[derive(Clone, Copy, Debug, PartialEq, Eq)]
pub struct RepeatingTimer {
    /// Length of one period.
    pub period_ns: u64,
    /// Time since the last period ended.
    pub elapsed_ns: u64,
}

/// Relies on bevy's `Timer::tick` in `TimerMode::Repeating`: the stopwatch
/// advances by `delta`, the number of whole periods is reported (cast to
/// `u32`), and the remainder is kept as the new elapsed time. `Timer::new`,
/// `Timer::set_elapsed`, `Timer::elapsed`, `Timer::times_finished_this_tick`
/// and `Timer::finished` only carry the values in and out.
#[verifier::external_body]
fn bevy_repeating_tick(period_ns: u64, elapsed_ns: u64, delta_ns: u64) -> (r: (u64, u32, bool))
    requires
        period_ns > 0,
        elapsed_ns < period_ns,
    ensures
        r.0 == wrapped_elapsed(elapsed_ns + delta_ns, period_ns as int),
        r.1 == periods_reported(elapsed_ns + delta_ns, period_ns as int),
        r.2 == (elapsed_ns + delta_ns >= period_ns),
{
    let mut timer = Timer::new(Duration::from_nanos(period_ns), TimerMode::Repeating);
    timer.set_elapsed(Duration::from_nanos(elapsed_ns));
    timer.tick(Duration::from_nanos(delta_ns));
    (timer.elapsed().as_nanos() as u64, timer.times_finished_this_tick(), timer.finished())
}

impl RepeatingTimer {
    /// A timer is usable when its period is positive and less than one period
    /// has elapsed.
    pub open spec fn wf(&self) -> bool {
        self.period_ns > 0 && self.elapsed_ns < self.period_ns
    }

    /// A fresh timer with the given period and nothing elapsed.
    pub fn new(period_ns: u64) -> (r: RepeatingTimer)
        requires
            period_ns > 0,
        ensures
            r.wf(),
            r.period_ns == period_ns,
            r.elapsed_ns == 0,
    {
        RepeatingTimer { period_ns, elapsed_ns: 0 }
    }

    /// Advances the timer by `delta_ns` and reports the periods that ended.
    pub fn tick(&mut self, delta_ns: u64) -> (r: TickOutcome)
        requires
            old(self).wf(),
        ensures
            final(self).wf(),
            final(self).period_ns == old(self).period_ns,
            final(self).elapsed_ns == wrapped_elapsed(
                old(self).elapsed_ns + delta_ns,
                old(self).period_ns as int,
            ),
            r.times_finished == periods_reported(
                old(self).elapsed_ns + delta_ns,
                old(self).period_ns as int,
            ),
            r.finished == (old(self).elapsed_ns + delta_ns >= old(self).period_ns),
    {
        let (elapsed_ns, times_finished, finished) = bevy_repeating_tick(
            self.period_ns,
            self.elapsed_ns,
            delta_ns,
        );
        self.elapsed_ns = elapsed_ns;
        TickOutcome { times_finished, finished }
    }
}

} // verus!
