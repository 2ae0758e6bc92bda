//! What a critic reads of an environment.
//!
//! An environment reports a scalar objective and three optional signals
//! (volatility, surprise, stress; each 0.0 when the environment does not
//! report it). An [`Observation`] holds one such reading.

use vstd::prelude::*;

verus! {

/// One reading of an environment's channels, each the binary32 encoding
/// (`f32::to_bits`) of the reported value; see [`crate::binary32`].
/// Equality compares the encodings.
#[derive(Debug, Clone, Copy, PartialEq, Eq, Structural, Default)]
pub struct Observation {
    /// The primary metric the critic shapes into dopamine.
    pub objective: u32,
    /// Environmental volatility or risk (serotonin).
    pub volatility: u32,
    /// Environmental surprise or novelty (acetylcholine, stateless critic).
    pub surprise: u32,
    /// System stress or instability (norepinephrine).
    pub stress: u32,
}

} // verus!
