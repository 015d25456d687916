//! The potentiometer-driven manual policy.
//!
//! The policy wraps a stored [min, max] raw analog range and rescales a
//! raw analog sample linearly into the command range [-1, 1] (kept here in
//! thousandths as [-1000, 1000]), clamping to exactly -1 below the minimum
//! limit and to exactly +1 above the maximum limit. The limits themselves
//! are captured during the potentiometer calibration sessions; the
//! platform layer runs those blocking sessions and feeds the readings
//! through `latest_reading`.

use vstd::prelude::*;
use vstd::arithmetic::div_mod::lemma_div_is_ordered;
use vstd::arithmetic::div_mod::lemma_div_multiples_vanish;
use vstd::arithmetic::div_mod::lemma_div_of0;
use vstd::arithmetic::div_mod::lemma_div_pos_is_pos;
use vstd::arithmetic::mul::lemma_mul_inequality;

verus! {

/// The manual policy's linear rescaling of a raw analog sample into the
/// command range, in thousandths: values at the limits map to exactly
/// -1000 and 1000, and values beyond them clamp to those endpoints.
pub open spec fn spec_manual_map(raw: int, min_limit: int, max_limit: int) -> int
    recommends
        min_limit < max_limit,
{
    if raw < min_limit {
        -1000
    } else if raw > max_limit {
        1000
    } else {
        (raw - min_limit) * 2000 / (max_limit - min_limit) - 1000
    }
}

/// The manual policy: a stored raw analog range. The platform layer owns
/// the analog input channel and hands raw samples in.
pub struct ManualPolicy {
    /// Raw analog value mapped to command -1.
    pub min_limit: u16,
    /// Raw analog value mapped to command +1.
    pub max_limit: u16,
}

impl ManualPolicy {
    /// The policy's invariant: the raw range is non-empty, so the
    /// rescaling is defined.
    pub open spec fn wf(&self) -> bool {
        self.min_limit < self.max_limit
    }

    /// A fresh policy covers the default raw range [0, 2048].
    pub fn new() -> (p: Self)
        ensures
            p.min_limit == 0,
            p.max_limit == 2048,
            p.wf(),
    {
        ManualPolicy { min_limit: 0, max_limit: 2048 }
    }

    /// Store the raw value captured as the range's minimum.
    pub fn set_min_limit(&mut self, min_limit: u16)
        ensures
            final(self).min_limit == min_limit,
            final(self).max_limit == old(self).max_limit,
    {
        self.min_limit = min_limit;
    }

    /// Store the raw value captured as the range's maximum.
    pub fn set_max_limit(&mut self, max_limit: u16)
        ensures
            final(self).max_limit == max_limit,
            final(self).min_limit == old(self).min_limit,
    {
        self.max_limit = max_limit;
    }

    /// Rescale a raw analog sample into the command range, in thousandths,
    /// clamping outside the stored limits.
    pub fn sample(&self, raw: u16) -> (a: i32)
        requires
            self.wf(),
        ensures
            a as int == spec_manual_map(raw as int, self.min_limit as int, self.max_limit as int),
            -1000 <= a <= 1000,
    {
        if raw < self.min_limit {
            -1000
        } else if raw > self.max_limit {
            1000
        } else {
            let num: u32 = (raw - self.min_limit) as u32 * 2000;
            let range: u32 = (self.max_limit - self.min_limit) as u32;
            proof {
                lemma_div_pos_is_pos(num as int, range as int);
                lemma_mul_inequality(raw - self.min_limit, range as int, 2000);
                lemma_div_is_ordered(num as int, range as int * 2000, range as int);
                lemma_div_multiples_vanish(2000, range as int);
            }
            (num / range) as i32 - 1000
        }
    }
}

/// One turn of a potentiometer capture session: a successful read replaces
/// the session's value, a failed read keeps the previous one.
pub fn latest_reading(previous: u16, reading: Option<u16>) -> (v: u16)
    ensures
        v == (match reading {
            Option::Some(value) => value,
            Option::None => previous,
        }),
{
    match reading {
        Option::Some(value) => value,
        Option::None => previous,
    }
}

/// The rescaling maps the stored limits to exactly the command endpoints,
/// and clamps every value below the minimum limit to exactly -1000 and
/// every value above the maximum limit to exactly 1000.
pub proof fn lemma_manual_map_endpoints(min_limit: int, max_limit: int)
    requires
        min_limit < max_limit,
    ensures
        spec_manual_map(min_limit, min_limit, max_limit) == -1000,
        spec_manual_map(max_limit, min_limit, max_limit) == 1000,
        forall|raw: int|
            raw < min_limit ==> spec_manual_map(raw, min_limit, max_limit) == -1000,
        forall|raw: int|
            raw > max_limit ==> spec_manual_map(raw, min_limit, max_limit) == 1000,
{
    lemma_div_of0(max_limit - min_limit);
    lemma_div_multiples_vanish(2000, max_limit - min_limit);
}

/// The rescaling is monotonic: a larger raw sample never maps to a
/// smaller command.
pub proof fn lemma_manual_map_monotonic(min_limit: int, max_limit: int, x: int, y: int)
    requires
        min_limit < max_limit,
        x <= y,
    ensures
        spec_manual_map(x, min_limit, max_limit) <= spec_manual_map(y, min_limit, max_limit),
{
    let range = max_limit - min_limit;
    if min_limit <= x <= max_limit {
        lemma_div_pos_is_pos((x - min_limit) * 2000, range);
        lemma_mul_inequality(x - min_limit, range, 2000);
        lemma_div_is_ordered((x - min_limit) * 2000, range * 2000, range);
        lemma_div_multiples_vanish(2000, range);
    }
    if min_limit <= y <= max_limit {
        lemma_div_pos_is_pos((y - min_limit) * 2000, range);
        lemma_mul_inequality(y - min_limit, range, 2000);
        lemma_div_is_ordered((y - min_limit) * 2000, range * 2000, range);
        lemma_div_multiples_vanish(2000, range);
    }
    if min_limit <= x && y <= max_limit {
        lemma_mul_inequality(x - min_limit, y - min_limit, 2000);
        lemma_div_is_ordered((x - min_limit) * 2000, (y - min_limit) * 2000, range);
    }
}

} // verus!
