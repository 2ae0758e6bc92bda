//! The modulator vector: the output of every critic.

use crate::binary32::{equal, ieee_eq};
use vstd::prelude::*;

verus! {

/// A vector of neuromodulator concentrations.
///
/// Each field is the binary32 encoding (`f32::to_bits`) of the level; see
/// [`crate::binary32`]. Equality is `f32` equality field by field: a NaN
/// level makes vectors unequal, and `+0.0` equals `-0.0`.
#[derive(Debug, Clone, Copy, Default)]
pub struct ModulatorVector {
    /// Dopamine level (typically reward/error).
    pub dopamine: u32,
    /// Serotonin level (typically risk/volatility).
    pub serotonin: u32,
    /// Acetylcholine level (typically focus/surprise).
    pub acetylcholine: u32,
    /// Norepinephrine level (typically stress/instability).
    pub norepinephrine: u32,
}

impl PartialEq for ModulatorVector {
    fn eq(&self, other: &Self) -> (r: bool) {
        equal(self.dopamine, other.dopamine) && equal(self.serotonin, other.serotonin) && equal(
            self.acetylcholine,
            other.acetylcholine,
        ) && equal(self.norepinephrine, other.norepinephrine)
    }
}

impl vstd::std_specs::cmp::PartialEqSpecImpl for ModulatorVector {
    open spec fn obeys_eq_spec() -> bool {
        true
    }

    open spec fn eq_spec(&self, other: &Self) -> bool {
        &&& ieee_eq(self.dopamine, other.dopamine)
        &&& ieee_eq(self.serotonin, other.serotonin)
        &&& ieee_eq(self.acetylcholine, other.acetylcholine)
        &&& ieee_eq(self.norepinephrine, other.norepinephrine)
    }
}

} // verus!
