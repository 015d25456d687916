//! The pendulum environment: calibrated angle observations, command-to-duty
//! mapping bounded by safe limits, and the offset calibration session's
//! commit step.
//!
//! The platform layer owns the encoder, the PWM driver and the delays; it
//! reads raw samples and commits duty values. This type owns the derived
//! duty-cycle safe limits and the calibration state, and computes every
//! value the platform layer commits.

use vstd::prelude::*;
use vstd::arithmetic::div_mod::lemma_div_is_ordered;
use vstd::arithmetic::div_mod::lemma_div_multiples_vanish;
use vstd::arithmetic::mul::lemma_mul_inequality;
use crate::angle::angle_counts;
use crate::angle::get_direction;
use crate::angle::spec_angle_counts;
use crate::angle::spec_direction;

verus! {

/// Fixed command scale: commands are scaled by 0.6 (600 thousandths)
/// before being turned into a target angle.
pub const SCALE_MILLI: i32 = 600;

/// A single-scalar observation: the calibrated pendulum angle in encoder
/// counts, where one count is pi/2048 radians.
#[derive(Clone, Copy, PartialEq, Eq, Structural, Debug)]
pub struct PendulumEnvObs {
    /// Calibrated angle in encoder counts.
    pub counts: i32,
}

impl PendulumEnvObs {
    /// Wrap a calibrated angle count as an observation.
    pub fn new(counts: i32) -> (o: Self)
        ensures
            o.counts == counts,
    {
        PendulumEnvObs { counts }
    }

    /// Get the observation value.
    pub fn value(&self) -> (v: i32)
        ensures
            v == self.counts,
    {
        self.counts
    }
}

/// A single-scalar action: a target-position command in thousandths, so
/// the command range [-1, 1] is the integer range [-1000, 1000].
#[derive(Clone, Copy, PartialEq, Eq, Structural, Debug)]
pub struct PendulumEnvAct {
    /// Command in thousandths.
    pub milli: i32,
}

impl PendulumEnvAct {
    /// Wrap a command, given in thousandths, as an action.
    pub fn new(milli: i32) -> (a: Self)
        ensures
            a.milli == milli,
    {
        PendulumEnvAct { milli }
    }

    /// Get the action value.
    pub fn value(&self) -> (v: i32)
        ensures
            v == self.milli,
    {
        self.milli
    }
}

/// The auxiliary record a step returns beside the observation. Reward and
/// termination are placeholders the caller may extend; they are always
/// zero in this design.
#[derive(Clone, Copy, PartialEq, Eq, Structural, Debug)]
pub struct StepRecord {
    /// Reward placeholder, in thousandths; always zero.
    pub reward_milli: i32,
    /// Termination placeholder; always false.
    pub terminated: bool,
    /// Truncation placeholder; always false.
    pub truncated: bool,
}

/// The pendulum environment: duty-cycle safe limits fixed at construction
/// and the offset/direction calibration state.
pub struct PendulumEnv {
    /// Lower bound of the safe duty-cycle range.
    pub min_limit: u32,
    /// Upper bound of the safe duty-cycle range.
    pub max_limit: u32,
    /// Calibration offset: the raw encoder sample recorded as zero.
    pub offset: u16,
    /// Calibration sign: 1 or -1, mapping raw increase to angle increase.
    pub direction: i8,
}

/// The linear map from a target angle in degrees [0, 180] to a duty value
/// in the safe range [min_limit, max_limit].
pub open spec fn spec_map_duty(x: int, min_limit: int, max_limit: int) -> int {
    x * (max_limit - min_limit) / 180 + min_limit
}

/// The target angle, in whole degrees, a command maps to:
/// `180 * (scale * command + 1) / 2` with the fixed scale of 0.6, written
/// over commands in thousandths and truncated to a whole degree.
pub open spec fn spec_target_degrees(action_milli: int) -> int {
    180 * (SCALE_MILLI * action_milli + 1_000_000) / 2_000_000
}

impl PendulumEnv {
    /// The environment's invariant: the safe duty range is ordered and
    /// small enough that mapping any angle in [0, 180] into it cannot
    /// overflow, and the calibration state is a valid anchor and sign.
    pub open spec fn wf(&self) -> bool {
        &&& self.min_limit <= self.max_limit
        &&& 180 * (self.max_limit - self.min_limit) + self.min_limit <= u32::MAX
        &&& self.offset <= 4095
        &&& (self.direction == 1i8 || self.direction == -1i8)
    }

    /// Build an environment from the actuator's maximum duty, deriving the
    /// safe duty-cycle limits once; calibration starts at the default
    /// anchor 0 with positive sign.
    pub fn from_max_duty(max_duty: u32) -> (env: Self)
        requires
            max_duty <= u32::MAX / 24,
        ensures
            env.min_limit == max_duty * 5 / 10 / 20,
            env.max_limit == max_duty * 24 / 10 / 20,
            env.offset == 0,
            env.direction == 1i8,
            env.wf(),
    {
        let min_limit: u32 = max_duty * 5 / 10 / 20;
        let max_limit: u32 = max_duty * 24 / 10 / 20;
        proof {
            lemma_div_is_ordered(max_duty as int * 5, max_duty as int * 24, 10);
            lemma_div_is_ordered(
                max_duty as int * 5 / 10,
                max_duty as int * 24 / 10,
                20,
            );
        }
        PendulumEnv { min_limit, max_limit, offset: 0, direction: 1 }
    }

    /// Map a target angle in degrees [0, 180] linearly into the safe
    /// duty-cycle range. The result never leaves [min_limit, max_limit].
    pub fn map(&self, x: u32) -> (duty: u32)
        requires
            self.wf(),
            x <= 180,
        ensures
            duty as int == spec_map_duty(x as int, self.min_limit as int, self.max_limit as int),
            self.min_limit <= duty <= self.max_limit,
    {
        let range: u32 = self.max_limit - self.min_limit;
        proof {
            lemma_mul_inequality(x as int, 180, range as int);
            lemma_div_is_ordered(x as int * range as int, 180 * range as int, 180);
            lemma_div_multiples_vanish(range as int, 180);
        }
        x * range / 180 + self.min_limit
    }

    /// Turn a command in thousandths into a target angle in whole degrees:
    /// scale it, shift the range [-1, 1] to [0, 2], and spread it over a
    /// half turn. Commands within range always land in [36, 144].
    pub fn target_degrees(action_milli: i32) -> (deg: u32)
        requires
            -1000 <= action_milli <= 1000,
        ensures
            deg as int == spec_target_degrees(action_milli as int),
            36 <= deg <= 144,
    {
        let shifted: u32 = (action_milli + 1000) as u32;
        let num: u32 = 108_000 * shifted + 72_000_000;
        proof {
            assert(num as int == 180 * (SCALE_MILLI as int * action_milli as int + 1_000_000));
        }
        num / 2_000_000
    }

    /// The calibrated angle count of a raw encoder sample under the stored
    /// calibration.
    pub fn angle(&self, raw: u16) -> (a: i32)
        requires
            self.wf(),
            raw <= 4095,
        ensures
            a as int == spec_angle_counts(raw as int, self.offset as int, self.direction as int),
    {
        angle_counts(raw, self.offset, self.direction)
    }

    /// One environment step: the raw sample read before acting becomes the
    /// observation, the command becomes a duty value in the safe range for
    /// the platform layer to commit, and the auxiliary record carries the
    /// zero placeholders.
    pub fn step(&self, raw: u16, action: &PendulumEnvAct) -> (r: (
        PendulumEnvObs,
        u32,
        StepRecord,
    ))
        requires
            self.wf(),
            raw <= 4095,
            -1000 <= action.milli <= 1000,
        ensures
            r.0.counts as int == spec_angle_counts(
                raw as int,
                self.offset as int,
                self.direction as int,
            ),
            r.1 as int == spec_map_duty(
                spec_target_degrees(action.milli as int),
                self.min_limit as int,
                self.max_limit as int,
            ),
            self.min_limit <= r.1 <= self.max_limit,
            r.2 == (StepRecord { reward_milli: 0, terminated: false, truncated: false }),
    {
        let obs = PendulumEnvObs { counts: self.angle(raw) };
        let deg = Self::target_degrees(action.milli);
        let duty = self.map(deg);
        let record = StepRecord { reward_milli: 0, terminated: false, truncated: false };
        (obs, duty, record)
    }

    /// The duty value that commands the center position (90 degrees); a
    /// reset commits it and then waits a settle delay before sampling.
    pub fn reset_duty(&self) -> (duty: u32)
        requires
            self.wf(),
        ensures
            duty as int == spec_map_duty(90, self.min_limit as int, self.max_limit as int),
            self.min_limit <= duty <= self.max_limit,
    {
        self.map(90)
    }

    /// Commit or discard an offset calibration session.
    ///
    /// `anchor` is the raw sample recorded when the session began and
    /// `last` the most recent raw sample, taken after the operator rotated
    /// the pendulum counter-clockwise. When the session ended normally the
    /// anchor becomes the offset and the two samples decide the rotation
    /// sign; when it was cancelled every prior calibration value stands.
    pub fn correct_offset(&mut self, anchor: u16, last: u16, cancelled: bool)
        requires
            old(self).wf(),
            anchor <= 4095,
            last <= 4095,
        ensures
            final(self).wf(),
            cancelled ==> *final(self) == *old(self),
            !cancelled ==> final(self).offset == anchor,
            !cancelled ==> final(self).direction as int == spec_direction(
                last as int,
                anchor as int,
            ),
            final(self).min_limit == old(self).min_limit,
            final(self).max_limit == old(self).max_limit,
    {
        if !cancelled {
            self.offset = anchor;
            self.direction = get_direction(last, anchor);
        }
    }
}

} // verus!
