//! Reward-shaping critics: map an [`Observation`] into a [`ModulatorVector`].
//!
//! These are modulator-mapping primitives, not a full actor–critic or a
//! learned value function:
//!
//! - [`SimpleCritic`] — stateless clamp of the immediate objective and the
//!   auxiliary signals.
//! - [`TDCritic`] — stateful mapper of successive objective deltas
//!   (`objective − prev_objective`): dopamine is derived from the EMA of
//!   those deltas, acetylcholine from the absolute delta.
//!
//! The checked paths (`try_assess`) reject NaN and ±∞ on every channel they
//! read, in a fixed order, and `TDCritic::try_assess` commits no state unless
//! the whole assessment succeeds. The compatibility paths (`assess`) keep the
//! IEEE passthrough of the float operations.

use crate::binary32::{
    clamp, clamp_to, finite_in_range, is_finite, is_nan, le, lemma_clamp_range, lemma_saturate,
    less_than, lt, nan, saturate, saturate_infinity, NEG_ONE, POS_ONE, POS_ZERO,
};
use crate::environment::Observation;
use crate::error::{require_finite, CriticError, CriticField, NonFiniteKind};
use crate::modulators::ModulatorVector;
use vstd::prelude::*;
use vstd::string::*;

verus! {

/// `x.clamp(0.0, 1.0)`.
pub open spec fn clamp_unit(x: u32) -> u32 {
    clamp(x, POS_ZERO, POS_ONE)
}

/// `x.clamp(-1.0, 1.0)`.
pub open spec fn clamp_signed_unit(x: u32) -> u32 {
    clamp(x, NEG_ONE, POS_ONE)
}

/// The stateless mapping of [`SimpleCritic`]: dopamine is the clamped
/// objective when the objective is positive (`> 0.0`) and `0.0` otherwise
/// (NaN included); the other fields are the clamped auxiliary signals.
pub open spec fn simple_modulators(
    objective: u32,
    volatility: u32,
    surprise: u32,
    stress: u32,
) -> ModulatorVector {
    ModulatorVector {
        dopamine: if lt(POS_ZERO, objective) {
            clamp_unit(objective)
        } else {
            POS_ZERO
        },
        serotonin: clamp_unit(volatility),
        acetylcholine: clamp_unit(surprise),
        norepinephrine: clamp_unit(stress),
    }
}

/// Every field finite and in `[0.0, 1.0]`.
pub open spec fn in_unit_range(m: ModulatorVector) -> bool {
    &&& finite_in_range(m.dopamine, POS_ZERO, POS_ONE)
    &&& finite_in_range(m.serotonin, POS_ZERO, POS_ONE)
    &&& finite_in_range(m.acetylcholine, POS_ZERO, POS_ONE)
    &&& finite_in_range(m.norepinephrine, POS_ZERO, POS_ONE)
}

/// `x.clamp(0.0, 1.0)` on an encoding.
fn clamp_unit_exec(x: u32) -> (r: u32)
    ensures
        r == clamp_unit(x),
{
    clamp_to(x, POS_ZERO, POS_ONE)
}

/// The stateless mapping shared by `SimpleCritic::assess` and `try_assess`.
fn simple_map(objective: u32, volatility: u32, surprise: u32, stress: u32) -> (m: ModulatorVector)
    ensures
        m == simple_modulators(objective, volatility, surprise, stress),
{
    // Positive objective -> dopamine; non-positive (and NaN) -> nothing.
    let dopamine = if less_than(POS_ZERO, objective) {
        clamp_unit_exec(objective)
    } else {
        POS_ZERO
    };
    ModulatorVector {
        dopamine,
        serotonin: clamp_unit_exec(volatility),
        acetylcholine: clamp_unit_exec(surprise),
        norepinephrine: clamp_unit_exec(stress),
    }
}

/// A stateless reward-shaping map from the current observation to
/// modulators.
///
/// | Field | Source | Range |
/// |-------|--------|-------|
/// | `dopamine` | `objective` if positive, else `0.0` | `[0.0, 1.0]` |
/// | `serotonin` | `volatility` | `[0.0, 1.0]` |
/// | `acetylcholine` | `surprise` | `[0.0, 1.0]` |
/// | `norepinephrine` | `stress` | `[0.0, 1.0]` |
pub struct SimpleCritic;

impl SimpleCritic {
    /// What [`SimpleCritic::assess`] returns for `obs`.
    pub open spec fn assessment(obs: Observation) -> ModulatorVector {
        simple_modulators(obs.objective, obs.volatility, obs.surprise, obs.stress)
    }

    /// What [`SimpleCritic::try_assess`] returns for `obs`: the error for the
    /// first non-finite channel in the order objective, volatility,
    /// surprise, stress; otherwise the stateless mapping.
    pub open spec fn checked_assessment(obs: Observation) -> Result<ModulatorVector, CriticError> {
        match CriticError::of(CriticField::Objective, obs.objective) {
            Some(e) => Err(e),
            None => match CriticError::of(CriticField::Volatility, obs.volatility) {
                Some(e) => Err(e),
                None => match CriticError::of(CriticField::Surprise, obs.surprise) {
                    Some(e) => Err(e),
                    None => match CriticError::of(CriticField::Stress, obs.stress) {
                        Some(e) => Err(e),
                        None => Ok(Self::assessment(obs)),
                    },
                },
            },
        }
    }

    /// Calculate neuromodulator concentrations from the current observation
    /// (the compatibility path: IEEE clamp behaviour, no validation).
    ///
    /// A NaN, zero or negative objective gives `dopamine = 0.0`; `+∞`
    /// clamps to `1.0`. NaN auxiliary signals pass through `clamp` as NaN;
    /// `±∞` auxiliary signals clamp to the nearest bound.
    #[must_use]
    pub fn assess(obs: &Observation) -> (m: ModulatorVector)
        ensures
            m == Self::assessment(*obs),
    {
        simple_map(obs.objective, obs.volatility, obs.surprise, obs.stress)
    }

    /// Checked mapping from a finite observation to modulators.
    ///
    /// Returns `CriticError::NonFinite` for the first non-finite channel in
    /// the order objective, volatility, surprise, stress. Extreme finite
    /// values are clamped as in [`SimpleCritic::assess`].
    pub fn try_assess(obs: &Observation) -> (r: Result<ModulatorVector, CriticError>)
        ensures
            r == Self::checked_assessment(*obs),
            r matches Ok(m) ==> in_unit_range(m),
    {
        proof {
            law_simple_checked_in_range(*obs);
        }
        let objective = require_finite(obs.objective, CriticField::Objective)?;
        let volatility = require_finite(obs.volatility, CriticField::Volatility)?;
        let surprise = require_finite(obs.surprise, CriticField::Surprise)?;
        let stress = require_finite(obs.stress, CriticField::Stress)?;
        Ok(simple_map(objective, volatility, surprise, stress))
    }
}

/// `alpha` supplied to [`TDCritic::new`] was not in `(0, 1]`.
///
/// Rejected values include `0.0`, negatives, values greater than `1.0`,
/// NaN and infinities.
#[derive(Debug, Clone, Copy, PartialEq, Eq, Structural)]
pub struct InvalidAlpha;

impl InvalidAlpha {
    /// The text that describes the error.
    pub open spec fn text(self) -> Seq<char> {
        "TDCritic alpha must be in (0, 1] (finite, greater than 0, at most 1)"@
    }

    /// The display text of the error.
    pub fn to_string(&self) -> (r: String)
        ensures
            r@ == self.text(),
    {
        String::from_str("TDCritic alpha must be in (0, 1] (finite, greater than 0, at most 1)")
    }
}

/// `alpha > 0.0 && alpha <= 1.0` (false for NaN and infinities).
pub open spec fn valid_alpha(alpha: u32) -> bool {
    lt(POS_ZERO, alpha) && le(alpha, POS_ONE)
}

/// Whether `alpha` lies in `(0, 1]`.
///
/// The positive values up to `1.0` are exactly the encodings from the
/// smallest positive subnormal (`1`) to that of `1.0`.
fn is_valid_alpha(alpha: u32) -> (r: bool)
    ensures
        r == valid_alpha(alpha),
{
    1 <= alpha && alpha <= POS_ONE
}

/// The state of a [`TDCritic`], each value a binary32 encoding (equality
/// compares the encodings).
#[derive(Debug, Clone, Copy, PartialEq, Eq, Structural)]
pub struct TdState {
    /// Objective of the previous committed step (initially `0.0`).
    pub prev_objective: u32,
    /// EMA of the TD errors (initially `0.0`).
    pub ema_reward: u32,
    /// EMA learning rate, in `(0, 1]`.
    pub alpha: u32,
}

/// The binary32 results of the float operations of one [`TDCritic`] step,
/// computed by the caller from the critic's current state and the
/// observation's objective.
///
/// For [`TDCritic::assess`]: `td_error = objective − prev_objective`,
/// `ema_reward = (1 − alpha)·ema + alpha·td_error`,
/// `tanh_ema = tanh(ema_reward)`, `tanh_abs_td = tanh(|td_error|)`.
///
/// For [`TDCritic::try_assess`] the same, with `td_error` saturated
/// ([`saturate_or_reject`]) before it enters `ema_reward` and
/// `tanh_abs_td`, and `ema_reward` saturated before it enters `tanh_ema`.
#[derive(Debug, Clone, Copy, PartialEq, Eq, Structural)]
pub struct TdStep {
    /// `objective − prev_objective`, as computed (not saturated).
    pub td_error: u32,
    /// The updated EMA, as computed (not saturated).
    pub ema_reward: u32,
    /// `tanh` of the (saturated) updated EMA.
    pub tanh_ema: u32,
    /// `tanh` of the absolute (saturated) TD error.
    pub tanh_abs_td: u32,
}

impl TdStep {
    /// What `f32::tanh` guarantees of the two `tanh` results: `tanh` of a
    /// non-NaN value (infinities included) is not NaN, so a non-NaN TD error
    /// gives a non-NaN `tanh_abs_td` and a non-NaN EMA a non-NaN `tanh_ema`.
    pub open spec fn tanh_consistent(self) -> bool {
        &&& !is_nan(self.td_error) ==> !is_nan(self.tanh_abs_td)
        &&& !is_nan(self.ema_reward) ==> !is_nan(self.tanh_ema)
    }
}

/// The TD mapping: dopamine from `tanh(ema)` clamped to `[-1, 1]`,
/// acetylcholine from `tanh(|td|)` clamped to `[0, 1]`, serotonin and
/// norepinephrine from the clamped volatility and stress.
pub open spec fn td_modulators(
    tanh_ema: u32,
    tanh_abs_td: u32,
    volatility: u32,
    stress: u32,
) -> ModulatorVector {
    ModulatorVector {
        dopamine: clamp_signed_unit(tanh_ema),
        serotonin: clamp_unit(volatility),
        acetylcholine: clamp_unit(tanh_abs_td),
        norepinephrine: clamp_unit(stress),
    }
}

/// Reject NaN; replace `±∞` by `±f32::MAX` so `tanh` still saturates.
pub open spec fn saturated_or_error(value: u32, field: CriticField) -> Result<u32, CriticError> {
    if is_nan(value) {
        Err(CriticError::NonFinite { field, kind: NonFiniteKind::Nan })
    } else {
        Ok(saturate(value))
    }
}

/// Reject a NaN intermediate; saturate `±∞` to `±f32::MAX`.
pub fn saturate_or_reject(value: u32, field: CriticField) -> (r: Result<u32, CriticError>)
    ensures
        r == saturated_or_error(value, field),
{
    if nan(value) {
        return Err(CriticError::NonFinite { field, kind: NonFiniteKind::Nan });
    }
    Ok(saturate_infinity(value))
}

/// `tanh_ema.clamp(-1.0, 1.0)` and friends on encodings.
fn td_map(tanh_ema: u32, tanh_abs_td: u32, volatility: u32, stress: u32) -> (m: ModulatorVector)
    ensures
        m == td_modulators(tanh_ema, tanh_abs_td, volatility, stress),
{
    ModulatorVector {
        dopamine: clamp_to(tanh_ema, NEG_ONE, POS_ONE),
        serotonin: clamp_unit_exec(volatility),
        acetylcholine: clamp_unit_exec(tanh_abs_td),
        norepinephrine: clamp_unit_exec(stress),
    }
}

/// A stateful reward-shaping map based on successive objective deltas.
///
/// "TD" is an exponential moving average of `objective − prev_objective`,
/// not a learned value function. Dopamine reflects change in the objective;
/// acetylcholine reflects the size of that change.
///
/// | Field | Source | Range |
/// |-------|--------|-------|
/// | `dopamine` | `tanh(ema_reward)` | `[-1.0, 1.0]` |
/// | `serotonin` | `volatility` | `[0.0, 1.0]` |
/// | `acetylcholine` | `tanh(abs(td_error))` | `[0.0, 1.0]` |
/// | `norepinephrine` | `stress` | `[0.0, 1.0]` |
pub struct TDCritic {
    prev_objective: u32,
    ema_reward: u32,
    alpha: u32,
}

impl View for TDCritic {
    type V = TdState;

    closed spec fn view(&self) -> TdState {
        TdState {
            prev_objective: self.prev_objective,
            ema_reward: self.ema_reward,
            alpha: self.alpha,
        }
    }
}

impl TDCritic {
    #[verifier::type_invariant]
    spec fn alpha_in_range(self) -> bool {
        valid_alpha(self.alpha)
    }

    /// What [`TDCritic::assess`] does from state `s`: the next state and
    /// the modulators.
    pub open spec fn assessment(s: TdState, obs: Observation, step: TdStep) -> (TdState, ModulatorVector) {
        (
            TdState { prev_objective: obs.objective, ema_reward: step.ema_reward, alpha: s.alpha },
            td_modulators(step.tanh_ema, step.tanh_abs_td, obs.volatility, obs.stress),
        )
    }

    /// What [`TDCritic::try_assess`] does from state `s`: the error for the
    /// first non-finite channel in the order objective, volatility, stress
    /// (surprise is not read), then a NaN TD error, then a NaN EMA;
    /// otherwise the next state (objective and saturated EMA) and the
    /// modulators.
    pub open spec fn checked_assessment(s: TdState, obs: Observation, step: TdStep) -> Result<
        (TdState, ModulatorVector),
        CriticError,
    > {
        match CriticError::of(CriticField::Objective, obs.objective) {
            Some(e) => Err(e),
            None => match CriticError::of(CriticField::Volatility, obs.volatility) {
                Some(e) => Err(e),
                None => match CriticError::of(CriticField::Stress, obs.stress) {
                    Some(e) => Err(e),
                    None => match saturated_or_error(step.td_error, CriticField::TdError) {
                        Err(e) => Err(e),
                        Ok(_) => match saturated_or_error(step.ema_reward, CriticField::EmaReward) {
                            Err(e) => Err(e),
                            Ok(ema) => Ok(
                                (
                                    TdState {
                                        prev_objective: obs.objective,
                                        ema_reward: ema,
                                        alpha: s.alpha,
                                    },
                                    td_modulators(
                                        step.tanh_ema,
                                        step.tanh_abs_td,
                                        obs.volatility,
                                        obs.stress,
                                    ),
                                ),
                            ),
                        },
                    },
                },
            },
        }
    }

    /// Create a new TD critic with the EMA learning rate `alpha`.
    ///
    /// Returns [`InvalidAlpha`] unless `alpha > 0.0 && alpha <= 1.0`; on
    /// success `prev_objective` and `ema_reward` start at `0.0`.
    pub fn new(alpha: u32) -> (r: Result<TDCritic, InvalidAlpha>)
        ensures
            r is Ok <==> valid_alpha(alpha),
            r is Ok <==> (lt(POS_ZERO, alpha) && le(alpha, POS_ONE)),
            r matches Ok(c) ==> c@ == (TdState {
                prev_objective: POS_ZERO,
                ema_reward: POS_ZERO,
                alpha,
            }),
    {
        if !is_valid_alpha(alpha) {
            return Err(InvalidAlpha);
        }
        Ok(TDCritic { prev_objective: POS_ZERO, ema_reward: POS_ZERO, alpha })
    }

    /// The objective of the previous committed step.
    pub fn prev_objective(&self) -> (r: u32)
        ensures
            r == self@.prev_objective,
    {
        self.prev_objective
    }

    /// The EMA of the TD errors.
    pub fn ema_reward(&self) -> (r: u32)
        ensures
            r == self@.ema_reward,
    {
        self.ema_reward
    }

    /// The EMA learning rate; always in `(0, 1]`.
    pub fn alpha(&self) -> (r: u32)
        ensures
            r == self@.alpha,
            valid_alpha(r),
    {
        proof {
            use_type_invariant(self);
        }
        self.alpha
    }

    /// Calculate neuromodulator concentrations from the TD error (the
    /// compatibility path: no validation, IEEE passthrough).
    ///
    /// Stores the objective as `prev_objective` and the computed EMA as
    /// `ema_reward`, whatever they are (a NaN objective therefore poisons
    /// later steps).
    pub fn assess(&mut self, obs: &Observation, step: &TdStep) -> (m: ModulatorVector)
        requires
            step.tanh_consistent(),
        ensures
            (final(self)@, m) == Self::assessment(old(self)@, *obs, *step),
    {
        proof {
            use_type_invariant(&*self);
        }
        self.prev_objective = obs.objective;
        self.ema_reward = step.ema_reward;
        td_map(step.tanh_ema, step.tanh_abs_td, obs.volatility, obs.stress)
    }

    /// Checked mapping that rejects non-finite observations and NaN
    /// intermediates without committing critic state.
    ///
    /// Validates objective, volatility and stress in that order (surprise is
    /// not read), then rejects a NaN TD error and a NaN EMA. Only then are
    /// `prev_objective` and `ema_reward` (saturated) updated.
    pub fn try_assess(&mut self, obs: &Observation, step: &TdStep) -> (r: Result<ModulatorVector, CriticError>)
        requires
            step.tanh_consistent(),
        ensures
            Self::checked_assessment(old(self)@, *obs, *step) == (match r {
                Ok(m) => Ok((final(self)@, m)),
                Err(e) => Err(e),
            }),
            r is Err ==> final(self)@ == old(self)@,
            r matches Ok(m) ==> td_in_range(m) && is_finite(final(self)@.prev_objective)
                && is_finite(final(self)@.ema_reward),
    {
        proof {
            use_type_invariant(&*self);
            law_td_checked_ranges(old(self)@, *obs, *step);
        }
        let objective = require_finite(obs.objective, CriticField::Objective)?;
        let volatility = require_finite(obs.volatility, CriticField::Volatility)?;
        let stress = require_finite(obs.stress, CriticField::Stress)?;
        let _td_error = saturate_or_reject(step.td_error, CriticField::TdError)?;
        let ema_reward = saturate_or_reject(step.ema_reward, CriticField::EmaReward)?;
        let mods = td_map(step.tanh_ema, step.tanh_abs_td, volatility, stress);
        self.prev_objective = objective;
        self.ema_reward = ema_reward;
        Ok(mods)
    }
}

/// A checked simple assessment that succeeds returns exactly what the
/// compatibility assessment returns.
pub proof fn law_simple_checked_agrees_with_assess(obs: Observation)
    ensures
        SimpleCritic::checked_assessment(obs) matches Ok(m) ==> m == SimpleCritic::assessment(obs),
{
}

/// A checked simple assessment succeeds exactly when all four channels are
/// finite.
pub proof fn law_simple_checked_ok_iff_finite(obs: Observation)
    ensures
        SimpleCritic::checked_assessment(obs) is Ok <==> (is_finite(obs.objective) && is_finite(
            obs.volatility,
        ) && is_finite(obs.surprise) && is_finite(obs.stress)),
{
}

/// Every field of a successful checked simple assessment is finite and in
/// `[0.0, 1.0]`.
pub proof fn law_simple_checked_in_range(obs: Observation)
    ensures
        SimpleCritic::checked_assessment(obs) matches Ok(m) ==> in_unit_range(m),
{
    if SimpleCritic::checked_assessment(obs) is Ok {
        lemma_clamp_range(obs.objective, POS_ZERO, POS_ONE);
        lemma_clamp_range(obs.volatility, POS_ZERO, POS_ONE);
        lemma_clamp_range(obs.surprise, POS_ZERO, POS_ONE);
        lemma_clamp_range(obs.stress, POS_ZERO, POS_ONE);
    }
}

/// The compatibility simple assessment: dopamine is always finite in
/// `[0.0, 1.0]` (a NaN objective gives `0.0`); an auxiliary signal that is
/// NaN passes through as the same NaN, any other is clamped into
/// `[0.0, 1.0]` (infinities to the nearest bound).
pub proof fn law_simple_assess_ranges(obs: Observation)
    ensures
        finite_in_range(SimpleCritic::assessment(obs).dopamine, POS_ZERO, POS_ONE),
        is_nan(obs.volatility) ==> SimpleCritic::assessment(obs).serotonin == obs.volatility,
        !is_nan(obs.volatility) ==> finite_in_range(
            SimpleCritic::assessment(obs).serotonin,
            POS_ZERO,
            POS_ONE,
        ),
        is_nan(obs.surprise) ==> SimpleCritic::assessment(obs).acetylcholine == obs.surprise,
        !is_nan(obs.surprise) ==> finite_in_range(
            SimpleCritic::assessment(obs).acetylcholine,
            POS_ZERO,
            POS_ONE,
        ),
        is_nan(obs.stress) ==> SimpleCritic::assessment(obs).norepinephrine == obs.stress,
        !is_nan(obs.stress) ==> finite_in_range(
            SimpleCritic::assessment(obs).norepinephrine,
            POS_ZERO,
            POS_ONE,
        ),
{
    lemma_clamp_range(obs.objective, POS_ZERO, POS_ONE);
    lemma_clamp_range(obs.volatility, POS_ZERO, POS_ONE);
    lemma_clamp_range(obs.surprise, POS_ZERO, POS_ONE);
    lemma_clamp_range(obs.stress, POS_ZERO, POS_ONE);
}

/// The checked TD assessment does not read the surprise channel: two
/// observations that differ only there give the same outcome.
pub proof fn law_td_checked_ignores_surprise(
    s: TdState,
    obs1: Observation,
    obs2: Observation,
    step: TdStep,
)
    requires
        obs1.objective == obs2.objective,
        obs1.volatility == obs2.volatility,
        obs1.stress == obs2.stress,
    ensures
        TDCritic::checked_assessment(s, obs1, step) == TDCritic::checked_assessment(s, obs2, step),
        TDCritic::assessment(s, obs1, step) == TDCritic::assessment(s, obs2, step),
{
}

/// When a shared channel (objective, volatility, stress) is non-finite and
/// surprise is finite, both checked critics reject the observation with the
/// same error, whatever the TD state and intermediates.
pub proof fn law_shared_channel_errors_agree(s: TdState, obs: Observation, step: TdStep)
    requires
        is_finite(obs.surprise),
        !(is_finite(obs.objective) && is_finite(obs.volatility) && is_finite(obs.stress)),
    ensures
        SimpleCritic::checked_assessment(obs) is Err,
        SimpleCritic::checked_assessment(obs) matches Err(e) ==> TDCritic::checked_assessment(
            s,
            obs,
            step,
        ) == Err::<(TdState, ModulatorVector), CriticError>(e),
{
}

/// On finite channels, when neither the TD error nor the EMA needs
/// saturation (both finite), the checked TD assessment succeeds with the
/// same next state and modulators as the compatibility assessment.
pub proof fn law_td_checked_agrees_with_assess(s: TdState, obs: Observation, step: TdStep)
    requires
        is_finite(obs.objective),
        is_finite(obs.volatility),
        is_finite(obs.stress),
        is_finite(step.td_error),
        is_finite(step.ema_reward),
    ensures
        TDCritic::checked_assessment(s, obs, step) == Ok::<(TdState, ModulatorVector), CriticError>(
            TDCritic::assessment(s, obs, step),
        ),
{
    lemma_saturate(step.ema_reward);
}

/// Every field finite, dopamine in `[-1.0, 1.0]`, the others in
/// `[0.0, 1.0]`.
pub open spec fn td_in_range(m: ModulatorVector) -> bool {
    &&& finite_in_range(m.dopamine, NEG_ONE, POS_ONE)
    &&& finite_in_range(m.serotonin, POS_ZERO, POS_ONE)
    &&& finite_in_range(m.acetylcholine, POS_ZERO, POS_ONE)
    &&& finite_in_range(m.norepinephrine, POS_ZERO, POS_ONE)
}

/// A successful checked TD step keeps the learning rate, stores the
/// (finite) objective and a finite EMA, and yields every modulator finite:
/// dopamine in `[-1.0, 1.0]`, the others in `[0.0, 1.0]`.
pub proof fn law_td_checked_ranges(s: TdState, obs: Observation, step: TdStep)
    requires
        step.tanh_consistent(),
    ensures
        TDCritic::checked_assessment(s, obs, step) matches Ok((next, m)) ==> {
            &&& next.alpha == s.alpha
            &&& next.prev_objective == obs.objective
            &&& is_finite(next.prev_objective)
            &&& is_finite(next.ema_reward)
            &&& td_in_range(m)
        },
{
    lemma_saturate(step.ema_reward);
    lemma_clamp_range(obs.volatility, POS_ZERO, POS_ONE);
    lemma_clamp_range(obs.stress, POS_ZERO, POS_ONE);
    lemma_clamp_range(step.tanh_ema, NEG_ONE, POS_ONE);
    lemma_clamp_range(step.tanh_abs_td, POS_ZERO, POS_ONE);
}

/// The compatibility TD step on non-NaN volatility and stress, when the TD
/// error and the EMA it is given are not NaN (as the `f32` arithmetic makes
/// them from a finite state and a finite objective), yields every modulator
/// finite: dopamine in `[-1.0, 1.0]`, the others in `[0.0, 1.0]`.
pub proof fn law_td_assess_ranges(s: TdState, obs: Observation, step: TdStep)
    requires
        step.tanh_consistent(),
        !is_nan(step.td_error),
        !is_nan(step.ema_reward),
        !is_nan(obs.volatility),
        !is_nan(obs.stress),
    ensures
        td_in_range(TDCritic::assessment(s, obs, step).1),
        TDCritic::assessment(s, obs, step).0.prev_objective == obs.objective,
        TDCritic::assessment(s, obs, step).0.alpha == s.alpha,
{
    lemma_clamp_range(obs.volatility, POS_ZERO, POS_ONE);
    lemma_clamp_range(obs.stress, POS_ZERO, POS_ONE);
    lemma_clamp_range(step.tanh_ema, NEG_ONE, POS_ONE);
    lemma_clamp_range(step.tanh_abs_td, POS_ZERO, POS_ONE);
}

} // verus!
