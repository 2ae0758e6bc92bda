# limbic_critic

Neuromodulatory reward shaping for spiking neural networks: critics map an
observation of an environment (objective, volatility, surprise, stress) into
a bounded modulator vector (dopamine, serotonin, acetylcholine,
norepinephrine). The library is verified with Verus.

## Layout

- `src/` — the verified library.
  - `binary32.rs` — IEEE 754 binary32 values held as their bit patterns
    (`f32::to_bits`): classification, IEEE ordering, `clamp`, saturation.
  - `error.rs` — `NonFiniteKind`, `CriticField`, `CriticError`, finiteness
    checks and their texts.
  - `environment.rs` — `Observation`, one reading of an environment.
  - `modulators.rs` — `ModulatorVector`.
  - `critic.rs` — `SimpleCritic`, `TDCritic`, `InvalidAlpha`, and the laws
    relating the checked and compatibility paths.
  - `telemetry.rs` — `CryptoAsset`.
- `app/` — the `f32` face: the `Environment` trait, critics driven by it
  (the TD step's float arithmetic lives here), std error traits, serde on
  `CryptoAsset`, and the float-only mining reward computation.
- `tests/` — tests of the library, including checks that the encoding-level
  operations agree with hardware `f32` operations.
