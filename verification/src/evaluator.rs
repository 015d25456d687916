//! The fixed-rate evaluator's per-tick decisions.
//!
//! The evaluator runs a policy against the environment at a target
//! sampling period (50 Hz, 20 ms). Each tick re-zeroes a free-running
//! timer, runs the policy and the environment step, re-checks the mode
//! word, and then sleeps for whatever remains of the period. Re-zeroing
//! the timer each tick keeps the rate near the target without letting
//! jitter accumulate across iterations. The platform layer owns the timer
//! and the sleeps; this module decides when to stop and how long to wait.

use vstd::prelude::*;
use crate::mode::spec_next_mode;
use crate::mode::Button;
use crate::mode::Mode;
use crate::mode::ModeController;

verus! {

/// The fixed-rate evaluator: the target sampling period.
pub struct PendulumEvaluator {
    /// Target tick period in milliseconds.
    pub period_ms: u32,
}

impl PendulumEvaluator {
    /// A new evaluator ticks at the 50 Hz target: a 20 ms period.
    pub fn new() -> (e: Self)
        ensures
            e.period_ms == 20,
    {
        PendulumEvaluator { period_ms: 20 }
    }

    /// How long to sleep at the end of a tick: the period minus the
    /// measured tick duration. Returns the remaining time when some is
    /// left, and nothing when the tick body already overran the period —
    /// the loop then proceeds immediately, without catching up by
    /// skipping ticks.
    pub fn compute_wait(&self, elapsed_us: u64) -> (w: Option<u32>)
        ensures
            elapsed_us / 1000 < self.period_ms ==> w == Some(
                (self.period_ms - elapsed_us / 1000) as u32,
            ),
            elapsed_us / 1000 >= self.period_ms ==> w is None,
    {
        let elapsed_ms: u64 = elapsed_us / 1000;
        if elapsed_ms < self.period_ms as u64 {
            Some((self.period_ms as u64 - elapsed_ms) as u32)
        } else {
            None
        }
    }
}

/// The evaluator's per-tick mode check, its only cancellation point. When
/// the mode fell back to idle, stop; when a manual session was requested,
/// switch the word to the manual-run mode and stop, handing control back
/// without losing the session; on every other mode keep running.
pub fn evaluate_tick_control(ctrl: &mut ModeController) -> (stop: bool)
    ensures
        stop == (old(ctrl).mode_spec() == Mode::Idle || old(ctrl).mode_spec()
            == Mode::ManualPolicyStart),
        old(ctrl).mode_spec() == Mode::ManualPolicyStart ==> final(ctrl).mode_spec()
            == Mode::ManualPolicy,
        old(ctrl).mode_spec() != Mode::ManualPolicyStart ==> *final(ctrl) == *old(ctrl),
{
    let m = ctrl.get();
    if m == Mode::Idle {
        true
    } else if m == Mode::ManualPolicyStart {
        ctrl.set(Mode::ManualPolicy);
        true
    } else {
        false
    }
}

/// A button press that moves the mode off a running episode always lands
/// in the evaluator's stop set, so the loop exits at its next per-tick
/// mode check — within one tick period of the press.
pub proof fn lemma_episode_cancelled_within_one_tick(m: Mode, b: Button)
    requires
        m == Mode::AutoPolicy || m == Mode::ManualPolicy,
        spec_next_mode(m, b) != m,
    ensures
        spec_next_mode(m, b) == Mode::Idle || spec_next_mode(m, b) == Mode::ManualPolicyStart,
{
}

} // verus!
