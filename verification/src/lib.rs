//! Neuromodulatory reward shaping for spiking networks: critics that map an
//! observation of an environment into bounded modulator concentrations
//! (dopamine, serotonin, acetylcholine, norepinephrine).
//!
//! Scalars are carried as IEEE 754 binary32 encodings (see [`binary32`]).

pub mod binary32;
pub mod critic;
pub mod environment;
pub mod error;
pub mod laws;
pub mod modulators;
pub mod q8;
pub mod telemetry;

pub use critic::{InvalidAlpha, SimpleCritic, TDCritic, TdState, TdStep};
pub use environment::Observation;
pub use error::{CriticError, CriticField, NonFiniteKind};
pub use modulators::ModulatorVector;
pub use telemetry::CryptoAsset;
