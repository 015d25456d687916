//! The sine sweep policy's internal time counter.
//!
//! The policy advances an internal time counter by a fixed step of 0.025
//! seconds on every call and commands `sin(frequency * time)`. The counter
//! and the phase argument are kept here in integer units — milliseconds
//! and microunits — so the policy is deterministic given its call count;
//! the platform layer evaluates the sine itself, which is floating-point
//! work outside this library.

use vstd::prelude::*;

verus! {

/// How far one call advances the time counter, in milliseconds.
pub const TIME_STEP_MS: u32 = 25;

/// The sine sweep policy: a stored angular frequency and the time counter
/// its calls advance.
pub struct SinPolicy {
    /// Angular frequency in thousandths (radians per second).
    pub frequency_milli: i32,
    /// Internal time counter in milliseconds.
    pub time_ms: u32,
}

impl SinPolicy {
    /// A fresh policy starts its time counter at zero.
    pub fn new(frequency_milli: i32) -> (p: Self)
        ensures
            p.frequency_milli == frequency_milli,
            p.time_ms == 0,
    {
        SinPolicy { frequency_milli, time_ms: 0 }
    }

    /// One policy call: advance the time counter by the fixed step and
    /// return the phase `frequency * time` in microunits (micro-radians
    /// when the frequency is in radians per second); the command is the
    /// sine of this phase.
    pub fn sample(&mut self) -> (phase_micro: i64)
        requires
            old(self).time_ms + TIME_STEP_MS <= u32::MAX,
        ensures
            final(self).time_ms == old(self).time_ms + TIME_STEP_MS,
            final(self).frequency_milli == old(self).frequency_milli,
            phase_micro == old(self).frequency_milli as int * (old(self).time_ms
                + TIME_STEP_MS),
    {
        self.time_ms = self.time_ms + TIME_STEP_MS;
        proof {
            let f = self.frequency_milli as int;
            let t = self.time_ms as int;
            assert(i64::MIN <= f * t <= i64::MAX) by (nonlinear_arith)
                requires
                    i32::MIN <= f <= i32::MAX,
                    0 <= t <= u32::MAX,
            ;
        }
        let phase_micro: i64 = (self.frequency_milli as i64) * (self.time_ms as i64);
        phase_micro
    }
}

} // verus!
