//! Telemetry vocabulary shared with reward calibration.

use vstd::prelude::*;

verus! {

/// Supported crypto assets for reward calibration.
#[derive(Debug, Clone, Copy, PartialEq, Eq, Structural)]
pub enum CryptoAsset {
    Dynex,
    Quai,
    Qubic,
    Kaspa,
    Monero,
    Verus,
}

} // verus!
