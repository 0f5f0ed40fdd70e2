//! Level meter with asymmetric smoothing: a new peak above the current
//! level jumps to it at once (fast attack); below it, the level decays
//! geometrically (95% hold plus 5% of the new peak), so the meter reacts
//! instantly to onset but falls visibly instead of flickering to zero.
//!
//! Levels are fixed point on a scale of 32768 to one.

use vstd::prelude::*;
use crate::arith::lemma_div_common_factor;

verus! {

/// One smoothing step: fast attack, geometric decay.
pub open spec fn meter_step_spec(level: int, peak: int) -> int {
    if peak > level {
        peak
    } else {
        (level * 95 + peak * 5) / 100
    }
}

/// Peak tracker for one channel.
pub struct LevelMeter {
    level: u16,
}

impl LevelMeter {
    pub open spec fn wf(&self) -> bool {
        self.level_spec() <= 32768
    }

    pub closed spec fn level_spec(&self) -> int {
        self.level as int
    }

    pub fn new() -> (r: Self)
        ensures
            r.wf(),
            r.level_spec() == 0,
    {
        LevelMeter { level: 0 }
    }

    /// Fold one block's peak into the smoothed level.
    pub fn update(&mut self, peak: u16)
        requires
            old(self).wf(),
            peak <= 32768,
        ensures
            final(self).wf(),
            final(self).level_spec() == meter_step_spec(old(self).level_spec(), peak as int),
    {
        if peak > self.level {
            self.level = peak;
        } else {
            proof {
                let v = (old(self).level as int) * 95 + (peak as int) * 5;
                vstd::arithmetic::div_mod::lemma_div_is_ordered(v, 32768int * 100, 100);
                lemma_div_common_factor(32768, 1, 100);
                vstd::arithmetic::div_mod::lemma_div_pos_is_pos(v, 100);
            }
            self.level = ((self.level as u32 * 95 + peak as u32 * 5) / 100) as u16;
        }
    }

    /// The current smoothed level, on a scale of 32768 to one.
    pub fn level(&self) -> (r: u16)
        ensures
            r == self.level_spec(),
    {
        self.level
    }
}

} // verus!
