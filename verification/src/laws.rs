//! What the critics do, stated as relations between their inputs and
//! results over the IEEE order of binary32 values.
//!
//! Each law speaks of the specs that the critics' contracts equal
//! (`SimpleCritic::assessment`, `TDCritic::checked_assessment`, ...) and
//! pins their results by the order of values, by the channel that fails
//! first, or by the state a step leaves behind.

use crate::binary32::{
    clamp, is_finite, is_infinite, is_nan, le, lt, sign_bit,
    NEG_MAX, NEG_ONE, POS_MAX, POS_ONE, POS_ZERO,
};
use crate::critic::{saturated_or_error, valid_alpha, SimpleCritic, TDCritic, TdState, TdStep};
use crate::environment::Observation;
use crate::error::{finite_or_error, CriticError, CriticField, NonFiniteKind};
use crate::modulators::ModulatorVector;
use vstd::prelude::*;

verus! {

/// `r` is `x` brought into `[lo, hi]` as `f32::clamp` does: `x` itself
/// when `lo <= x <= hi`, `lo` when `x < lo`, `hi` when `x > hi`, and the
/// same NaN when `x` is NaN.
pub open spec fn clamped_into(r: u32, x: u32, lo: u32, hi: u32) -> bool {
    &&& le(lo, x) && le(x, hi) ==> r == x
    &&& lt(x, lo) ==> r == lo
    &&& lt(hi, x) ==> r == hi
    &&& is_nan(x) ==> r == x
}

/// The error that names `field` and the kind of the non-finite `value`.
pub open spec fn error_for(field: CriticField, value: u32) -> CriticError {
    CriticError::NonFinite { field, kind: NonFiniteKind::of(value)->0 }
}

/// IEEE order: `<` is irreflexive and transitive, `<=` is `<` or equal
/// value, NaN is unordered, and `+0.0` and `-0.0` are the same value.
pub proof fn law_ieee_order(a: u32, b: u32, c: u32)
    ensures
        !lt(a, a),
        lt(a, b) && lt(b, c) ==> lt(a, c),
        lt(a, b) ==> !lt(b, a),
        !is_nan(a) && !is_nan(b) ==> (le(a, b) <==> !lt(b, a)),
        is_nan(a) ==> !lt(a, b) && !lt(b, a) && !le(a, b) && !le(b, a),
        le(POS_ZERO, 0x8000_0000) && le(0x8000_0000, POS_ZERO),
        lt(NEG_ONE, POS_ZERO) && lt(POS_ZERO, POS_ONE),
{
}

/// `clamp` (as `f32::clamp`, bounds ordered) brings every value into
/// `[lo, hi]` by the rules of [`clamped_into`].
pub proof fn law_clamp_cases(x: u32, lo: u32, hi: u32)
    requires
        le(lo, hi),
    ensures
        clamped_into(clamp(x, lo, hi), x, lo, hi),
{
}

/// Clamping keeps the sign: a value below `0.0` clamps (into a range that
/// contains `0.0`) to a value below `0.0`, one above to one above.
proof fn lemma_clamp_sign(x: u32, lo: u32, hi: u32)
    requires
        le(lo, hi),
        lt(lo, POS_ZERO),
        lt(POS_ZERO, hi),
    ensures
        lt(x, POS_ZERO) ==> lt(clamp(x, lo, hi), POS_ZERO),
        lt(POS_ZERO, x) ==> lt(POS_ZERO, clamp(x, lo, hi)),
{
}

/// Clamping into `[0.0, 1.0]` keeps a positive value positive.
proof fn lemma_clamp_unit_positive(x: u32)
    ensures
        lt(POS_ZERO, x) ==> lt(POS_ZERO, clamp(x, POS_ZERO, POS_ONE)),
{
}

/// Simple dopamine: a positive objective gives the objective clamped into
/// `[0.0, 1.0]`, which is positive (an objective in `(0, 1]` is passed on
/// unchanged); a zero, negative or NaN objective gives exactly `+0.0`.
pub proof fn law_simple_dopamine(obs: Observation)
    ensures
        lt(POS_ZERO, obs.objective) ==> clamped_into(
            SimpleCritic::assessment(obs).dopamine,
            obs.objective,
            POS_ZERO,
            POS_ONE,
        ),
        lt(POS_ZERO, obs.objective) ==> lt(POS_ZERO, SimpleCritic::assessment(obs).dopamine),
        lt(POS_ZERO, obs.objective) && le(obs.objective, POS_ONE) ==> SimpleCritic::assessment(
            obs,
        ).dopamine == obs.objective,
        !lt(POS_ZERO, obs.objective) ==> SimpleCritic::assessment(obs).dopamine == POS_ZERO,
        SimpleCritic::assessment(obs).dopamine == POS_ZERO <==> !lt(POS_ZERO, obs.objective),
{
    law_clamp_cases(obs.objective, POS_ZERO, POS_ONE);
    lemma_clamp_unit_positive(obs.objective);
}

/// Simple serotonin, acetylcholine and norepinephrine are volatility,
/// surprise and stress, each clamped into `[0.0, 1.0]`.
pub proof fn law_simple_channels(obs: Observation)
    ensures
        clamped_into(SimpleCritic::assessment(obs).serotonin, obs.volatility, POS_ZERO, POS_ONE),
        clamped_into(SimpleCritic::assessment(obs).acetylcholine, obs.surprise, POS_ZERO, POS_ONE),
        clamped_into(SimpleCritic::assessment(obs).norepinephrine, obs.stress, POS_ZERO, POS_ONE),
{
    law_clamp_cases(obs.volatility, POS_ZERO, POS_ONE);
    law_clamp_cases(obs.surprise, POS_ZERO, POS_ONE);
    law_clamp_cases(obs.stress, POS_ZERO, POS_ONE);
}

/// The checked simple assessment reports the first non-finite channel in
/// the order objective, volatility, surprise, stress, with its kind; with
/// all four finite it succeeds with the compatibility result.
pub proof fn law_simple_checked_first_error(obs: Observation)
    ensures
        !is_finite(obs.objective) ==> SimpleCritic::checked_assessment(obs) == Err::<
            ModulatorVector,
            CriticError,
        >(error_for(CriticField::Objective, obs.objective)),
        is_finite(obs.objective) && !is_finite(obs.volatility) ==> SimpleCritic::checked_assessment(
            obs,
        ) == Err::<ModulatorVector, CriticError>(error_for(CriticField::Volatility, obs.volatility)),
        is_finite(obs.objective) && is_finite(obs.volatility) && !is_finite(obs.surprise)
            ==> SimpleCritic::checked_assessment(obs) == Err::<ModulatorVector, CriticError>(
            error_for(CriticField::Surprise, obs.surprise),
        ),
        is_finite(obs.objective) && is_finite(obs.volatility) && is_finite(obs.surprise)
            && !is_finite(obs.stress) ==> SimpleCritic::checked_assessment(obs) == Err::<
            ModulatorVector,
            CriticError,
        >(error_for(CriticField::Stress, obs.stress)),
        is_finite(obs.objective) && is_finite(obs.volatility) && is_finite(obs.surprise)
            && is_finite(obs.stress) ==> SimpleCritic::checked_assessment(obs) == Ok::<
            ModulatorVector,
            CriticError,
        >(SimpleCritic::assessment(obs)),
{
}

/// The TD modulators, on both paths: dopamine is `tanh(ema)` clamped into
/// `[-1.0, 1.0]` and has its sign (negative when the EMA of the deltas is
/// negative); acetylcholine is `tanh(|td|)` clamped into `[0.0, 1.0]`;
/// serotonin and norepinephrine are volatility and stress clamped into
/// `[0.0, 1.0]`.
pub proof fn law_td_modulators(s: TdState, obs: Observation, step: TdStep)
    ensures
        ({
            let m = TDCritic::assessment(s, obs, step).1;
            &&& clamped_into(m.dopamine, step.tanh_ema, NEG_ONE, POS_ONE)
            &&& lt(step.tanh_ema, POS_ZERO) ==> lt(m.dopamine, POS_ZERO)
            &&& lt(POS_ZERO, step.tanh_ema) ==> lt(POS_ZERO, m.dopamine)
            &&& clamped_into(m.acetylcholine, step.tanh_abs_td, POS_ZERO, POS_ONE)
            &&& clamped_into(m.serotonin, obs.volatility, POS_ZERO, POS_ONE)
            &&& clamped_into(m.norepinephrine, obs.stress, POS_ZERO, POS_ONE)
        }),
        TDCritic::checked_assessment(s, obs, step) matches Ok((_, m)) ==> {
            &&& clamped_into(m.dopamine, step.tanh_ema, NEG_ONE, POS_ONE)
            &&& lt(step.tanh_ema, POS_ZERO) ==> lt(m.dopamine, POS_ZERO)
            &&& lt(POS_ZERO, step.tanh_ema) ==> lt(POS_ZERO, m.dopamine)
            &&& clamped_into(m.acetylcholine, step.tanh_abs_td, POS_ZERO, POS_ONE)
            &&& clamped_into(m.serotonin, obs.volatility, POS_ZERO, POS_ONE)
            &&& clamped_into(m.norepinephrine, obs.stress, POS_ZERO, POS_ONE)
        },
{
    law_clamp_cases(step.tanh_ema, NEG_ONE, POS_ONE);
    lemma_clamp_sign(step.tanh_ema, NEG_ONE, POS_ONE);
    law_clamp_cases(step.tanh_abs_td, POS_ZERO, POS_ONE);
    law_clamp_cases(obs.volatility, POS_ZERO, POS_ONE);
    law_clamp_cases(obs.stress, POS_ZERO, POS_ONE);
}

/// The state a TD step leaves: the compatibility step stores the objective
/// and the EMA it is given; a successful checked step stores the objective
/// and the EMA, an infinite EMA saturated to `±f32::MAX` of its sign. Both
/// keep the learning rate.
pub proof fn law_td_state_update(s: TdState, obs: Observation, step: TdStep)
    ensures
        TDCritic::assessment(s, obs, step).0 == (TdState {
            prev_objective: obs.objective,
            ema_reward: step.ema_reward,
            alpha: s.alpha,
        }),
        TDCritic::checked_assessment(s, obs, step) matches Ok((next, _)) ==> {
            &&& next.prev_objective == obs.objective
            &&& next.alpha == s.alpha
            &&& is_finite(step.ema_reward) ==> next.ema_reward == step.ema_reward
            &&& is_infinite(step.ema_reward) && sign_bit(step.ema_reward) == 0
                ==> next.ema_reward == POS_MAX
            &&& is_infinite(step.ema_reward) && sign_bit(step.ema_reward) == 1
                ==> next.ema_reward == NEG_MAX
        },
{
}

/// The checked TD step rejects, in order, a non-finite objective,
/// volatility and stress (never surprise), then a NaN TD error, then a NaN
/// EMA; otherwise it succeeds with the compatibility modulators.
pub proof fn law_td_checked_first_error(s: TdState, obs: Observation, step: TdStep)
    ensures
        !is_finite(obs.objective) ==> TDCritic::checked_assessment(s, obs, step) == Err::<
            (TdState, ModulatorVector),
            CriticError,
        >(error_for(CriticField::Objective, obs.objective)),
        is_finite(obs.objective) && !is_finite(obs.volatility) ==> TDCritic::checked_assessment(
            s,
            obs,
            step,
        ) == Err::<(TdState, ModulatorVector), CriticError>(
            error_for(CriticField::Volatility, obs.volatility),
        ),
        is_finite(obs.objective) && is_finite(obs.volatility) && !is_finite(obs.stress)
            ==> TDCritic::checked_assessment(s, obs, step) == Err::<
            (TdState, ModulatorVector),
            CriticError,
        >(error_for(CriticField::Stress, obs.stress)),
        is_finite(obs.objective) && is_finite(obs.volatility) && is_finite(obs.stress) && is_nan(
            step.td_error,
        ) ==> TDCritic::checked_assessment(s, obs, step) == Err::<
            (TdState, ModulatorVector),
            CriticError,
        >(CriticError::NonFinite { field: CriticField::TdError, kind: NonFiniteKind::Nan }),
        is_finite(obs.objective) && is_finite(obs.volatility) && is_finite(obs.stress) && !is_nan(
            step.td_error,
        ) && is_nan(step.ema_reward) ==> TDCritic::checked_assessment(s, obs, step) == Err::<
            (TdState, ModulatorVector),
            CriticError,
        >(CriticError::NonFinite { field: CriticField::EmaReward, kind: NonFiniteKind::Nan }),
        is_finite(obs.objective) && is_finite(obs.volatility) && is_finite(obs.stress) && !is_nan(
            step.td_error,
        ) && !is_nan(step.ema_reward) ==> (TDCritic::checked_assessment(s, obs, step) matches Ok(
            (_, m),
        ) && m == TDCritic::assessment(s, obs, step).1),
{
}

/// Saturation of an intermediate: NaN is rejected under its field, `±∞`
/// becomes `±f32::MAX`, a finite value is kept.
pub proof fn law_saturation(value: u32, field: CriticField)
    ensures
        is_nan(value) ==> saturated_or_error(value, field) == Err::<u32, CriticError>(
            CriticError::NonFinite { field, kind: NonFiniteKind::Nan },
        ),
        is_finite(value) ==> saturated_or_error(value, field) == Ok::<u32, CriticError>(value),
        is_infinite(value) && sign_bit(value) == 0 ==> saturated_or_error(value, field) == Ok::<
            u32,
            CriticError,
        >(POS_MAX),
        is_infinite(value) && sign_bit(value) == 1 ==> saturated_or_error(value, field) == Ok::<
            u32,
            CriticError,
        >(NEG_MAX),
{
}

/// The learning rates a `TDCritic` accepts are exactly the values in
/// `(0.0, 1.0]`: the encodings from the smallest positive subnormal up to
/// that of `1.0`.
pub proof fn law_alpha_unit_interval(alpha: u32)
    ensures
        valid_alpha(alpha) <==> lt(POS_ZERO, alpha) && le(alpha, POS_ONE),
        valid_alpha(alpha) <==> 1 <= alpha <= POS_ONE,
        valid_alpha(POS_ONE),
        !valid_alpha(POS_ZERO),
        !valid_alpha(0x8000_0000),
{
}

/// Classification by sign: an infinity with the sign bit clear is `+∞`,
/// with it set `−∞`; a NaN is NaN whatever its sign; a finite value is not
/// classified.
pub proof fn law_classify_kinds(value: u32)
    ensures
        is_finite(value) ==> NonFiniteKind::of(value) is None,
        is_nan(value) ==> NonFiniteKind::of(value) == Some(NonFiniteKind::Nan),
        is_infinite(value) && sign_bit(value) == 0 ==> NonFiniteKind::of(value) == Some(
            NonFiniteKind::PositiveInfinity,
        ),
        is_infinite(value) && sign_bit(value) == 1 ==> NonFiniteKind::of(value) == Some(
            NonFiniteKind::NegativeInfinity,
        ),
{
}

/// An error built from a field and a non-finite value names that field and
/// that value's kind; a finite value builds no error; `require_finite`
/// passes a finite value through and rejects any other with that error.
pub proof fn law_errors_name_field_and_kind(field: CriticField, value: u32, kind: NonFiniteKind)
    ensures
        (CriticError::NonFinite { field, kind }).field_of() == field,
        (CriticError::NonFinite { field, kind }).kind_of() == kind,
        CriticError::of(field, value) is None <==> is_finite(value),
        CriticError::of(field, value) matches Some(e) ==> e.field_of() == field && Some(e.kind_of())
            == NonFiniteKind::of(value),
        is_finite(value) ==> finite_or_error(value, field) == Ok::<u32, CriticError>(value),
        !is_finite(value) ==> finite_or_error(value, field) == Err::<u32, CriticError>(
            error_for(field, value),
        ),
{
}

} // verus!
