use vstd::prelude::*;

use crate::timer::{wrapped_elapsed, RepeatingTimer};

verus! {

/// Period between two updates of the sky: one second.
pub const CYCLE_PERIOD_NS: u64 = 1_000_000_000;

/// The timer that paces the daylight cycle.
pub fn cycle_timer() -> (r: RepeatingTimer)
    ensures
        r.wf(),
        r.period_ns == CYCLE_PERIOD_NS,
        r.elapsed_ns == 0,
{
    RepeatingTimer::new(CYCLE_PERIOD_NS)
}

/// Advances the cycle timer by one frame and says whether the sun moves in
/// this frame: it does when a period ended.
pub fn daylight_cycle(timer: &mut RepeatingTimer, delta_ns: u64) -> (r: bool)
    requires
        old(timer).wf(),
    ensures
        final(timer).wf(),
        final(timer).period_ns == old(timer).period_ns,
        final(timer).elapsed_ns == wrapped_elapsed(
            old(timer).elapsed_ns + delta_ns,
            old(timer).period_ns as int,
        ),
        r == (old(timer).elapsed_ns + delta_ns >= old(timer).period_ns),
{
    timer.tick(delta_ns).finished
}

} // verus!
