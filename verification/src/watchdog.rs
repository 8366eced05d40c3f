//! The liveness watchdog over the power control loop.
//!
//! The platform resets the system unless it is petted in time. The watchdog
//! wakes at half the required interval and pets the platform only if the
//! control loop's liveness counter has moved since the previous wake.

use crate::dut_power::{
    lemma_tick_counts_live_cycles, live_cycles, stale, DutPwrView, Run,
};
use vstd::prelude::*;

verus! {

/// What the watchdog does at a wake.
#[derive(Clone, Copy, PartialEq, Eq, Debug, Structural)]
pub enum WatchdogAction {
    /// The control loop made progress: pet the platform watchdog.
    Pet,
    /// The control loop stalled or is gone: notify the platform watchdog to
    /// reset the system, and stop with an error.
    Trigger,
}

/// The time between two wakes in nanoseconds, for a platform that asks to be
/// petted every `micros` microseconds: half of that. `None` where the
/// platform asks for no watchdog, by answering 0 or not at all.
pub open spec fn half_interval(micros: Option<u64>) -> Option<u128> {
    match micros {
        Some(m) if m > 0 => Some((m * 500) as u128),
        _ => None,
    }
}

/// Whether two successive readings of the liveness counter show a stall: the
/// counter did not move, or the control loop could not be found at either
/// wake.
pub open spec fn stalled(prev: Option<u32>, curr: Option<u32>) -> bool {
    match (prev, curr) {
        (Some(p), Some(c)) => p == c,
        _ => true,
    }
}

/// The time between two wakes of the watchdog in nanoseconds; `None` where
/// the watchdog stays dormant for good.
pub fn pet_interval(micros: Option<u64>) -> (interval: Option<u128>)
    ensures
        interval == half_interval(micros),
{
    match micros {
        None => None,
        Some(m) => {
            if m == 0 {
                None
            } else {
                let wide: u128 = m as u128;
                Some(wide * 500)
            }
        },
    }
}

/// The watchdog's memory between two wakes.
#[derive(Clone, Copy, Debug)]
pub struct Watchdog {
    dut_power_tick: Option<u32>,
}

impl View for Watchdog {
    type V = Option<u32>;

    /// The liveness counter as read at the previous wake; `None` if the
    /// control loop could not be found then.
    closed spec fn view(&self) -> Option<u32> {
        self.dut_power_tick
    }
}

impl Watchdog {
    /// A watchdog that has just read the liveness counter as
    /// `dut_power_tick`; `None` stands for a control loop that could not be
    /// found.
    pub fn new(dut_power_tick: Option<u32>) -> (this: Self)
        ensures
            this@ == dut_power_tick,
    {
        Watchdog { dut_power_tick }
    }

    /// One wake: `curr` is the liveness counter as read now. Pets if the
    /// counter moved since the previous wake and remembers the new reading;
    /// triggers otherwise, and then remembers nothing new.
    pub fn keep_fed(&mut self, curr: Option<u32>) -> (action: WatchdogAction)
        ensures
            action == if stalled(old(self)@, curr) {
                WatchdogAction::Trigger
            } else {
                WatchdogAction::Pet
            },
            final(self)@ == if stalled(old(self)@, curr) {
                old(self)@
            } else {
                curr
            },
    {
        let (p, c): (u32, u32) = match (self.dut_power_tick, curr) {
            (Some(p), Some(c)) => (p, c),
            _ => (0, 0),
        };
        if p == c {
            WatchdogAction::Trigger
        } else {
            self.dut_power_tick = curr;
            WatchdogAction::Pet
        }
    }
}

/// Liveness coupling. The watchdog pets only while the control loop acts on
/// fresh readings. If every cycle between two wakes had a missing or stale
/// reading, or there was no cycle at all, the second wake finds the counter
/// unchanged and triggers; if some cycles, but fewer than two to the power
/// 32, acted on a fresh reading, it finds the counter moved and pets.
pub proof fn lemma_watchdog_follows_fresh_readings(s: DutPwrView, run: Run)
    ensures
        live_cycles(run) == 0 ==> stalled(Some(s.tick), Some(s.after_run(run).tick)),
        0 < live_cycles(run) < 0x1_0000_0000 ==> !stalled(
            Some(s.tick),
            Some(s.after_run(run).tick),
        ),
{
    lemma_tick_counts_live_cycles(s, run);
}

/// A loop whose readings are all missing or stale has no live cycle.
pub proof fn lemma_stale_run_has_no_live_cycle(run: Run)
    requires
        forall|i: int| 0 <= i < run.len() ==> stale((#[trigger] run[i]).0, run[i].1),
    ensures
        live_cycles(run) == 0,
    decreases run.len(),
{
    if run.len() > 0 {
        let earlier = run.drop_last();
        assert forall|i: int| 0 <= i < earlier.len() implies stale(
            (#[trigger] earlier[i]).0,
            earlier[i].1,
        ) by {
            assert(earlier[i] == run[i]);
        }
        lemma_stale_run_has_no_live_cycle(earlier);
        assert(stale(run[run.len() - 1].0, run[run.len() - 1].1));
    }
}

} // verus!
