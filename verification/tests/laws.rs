//! Concrete instances of the laws the library proves.

use limbic_critic::{
    CriticError, CriticField, ModulatorVector, NonFiniteKind, Observation, SimpleCritic, TDCritic,
    TdStep,
};

fn obs(objective: f32, volatility: f32, surprise: f32, stress: f32) -> Observation {
    Observation {
        objective: objective.to_bits(),
        volatility: volatility.to_bits(),
        surprise: surprise.to_bits(),
        stress: stress.to_bits(),
    }
}

fn step(td_error: f32, ema_reward: f32, tanh_ema: f32, tanh_abs_td: f32) -> TdStep {
    TdStep {
        td_error: td_error.to_bits(),
        ema_reward: ema_reward.to_bits(),
        tanh_ema: tanh_ema.to_bits(),
        tanh_abs_td: tanh_abs_td.to_bits(),
    }
}

fn levels(m: ModulatorVector) -> [f32; 4] {
    [
        f32::from_bits(m.dopamine),
        f32::from_bits(m.serotonin),
        f32::from_bits(m.acetylcholine),
        f32::from_bits(m.norepinephrine),
    ]
}

#[test]
fn simple_checked_equals_assess_when_finite() {
    let o = obs(0.3, 2.0, -4.0, 0.75);
    let checked = SimpleCritic::try_assess(&o).unwrap();
    assert_eq!(checked, SimpleCritic::assess(&o));
    assert_eq!(levels(checked), [0.3, 1.0, 0.0, 0.75]);
}

#[test]
fn simple_checked_ok_only_when_all_finite() {
    assert!(SimpleCritic::try_assess(&obs(1.0, 1.0, 1.0, 1.0)).is_ok());
    assert_eq!(
        SimpleCritic::try_assess(&obs(1.0, 1.0, 1.0, f32::NEG_INFINITY)),
        Err(CriticError::NonFinite {
            field: CriticField::Stress,
            kind: NonFiniteKind::NegativeInfinity
        })
    );
}

#[test]
fn simple_assess_nan_objective_gives_zero_dopamine_and_nan_passes_through() {
    let nan = 0x7FC0_1234u32;
    let o = Observation {
        objective: nan,
        volatility: nan,
        surprise: f32::INFINITY.to_bits(),
        stress: f32::NEG_INFINITY.to_bits(),
    };
    let m = SimpleCritic::assess(&o);
    assert_eq!(m.dopamine, 0.0f32.to_bits());
    // The very NaN that came in goes out.
    assert_eq!(m.serotonin, nan);
    assert_eq!(f32::from_bits(m.acetylcholine), 1.0);
    assert_eq!(f32::from_bits(m.norepinephrine), 0.0);
}

#[test]
fn td_checked_ignores_surprise_channel() {
    let s = step(0.4, 0.04, 0.04f32.tanh(), 0.4f32.tanh());
    let mut a = TDCritic::new(0.1f32.to_bits()).unwrap();
    let mut b = TDCritic::new(0.1f32.to_bits()).unwrap();
    let ra = a.try_assess(&obs(0.4, 0.2, f32::NAN, 0.3), &s);
    let rb = b.try_assess(&obs(0.4, 0.2, 0.9, 0.3), &s);
    assert_eq!(ra, rb);
    assert_eq!(a.prev_objective(), b.prev_objective());
    assert_eq!(a.ema_reward(), b.ema_reward());
}

#[test]
fn shared_channel_errors_agree_between_critics() {
    let o = obs(0.4, f32::NAN, 0.1, 0.3);
    let mut td = TDCritic::new(0.5f32.to_bits()).unwrap();
    let e1 = SimpleCritic::try_assess(&o).unwrap_err();
    let e2 = td.try_assess(&o, &step(0.4, 0.2, 0.2, 0.4)).unwrap_err();
    assert_eq!(e1, e2);
    assert_eq!(e1.field(), CriticField::Volatility);
}

#[test]
fn td_checked_equals_assess_without_saturation() {
    let o = obs(0.5, 0.25, 0.0, 2.0);
    let s = step(0.5, 0.05, 0.05f32.tanh(), 0.5f32.tanh());
    let mut checked = TDCritic::new(0.1f32.to_bits()).unwrap();
    let mut plain = TDCritic::new(0.1f32.to_bits()).unwrap();
    let m1 = checked.try_assess(&o, &s).unwrap();
    let m2 = plain.assess(&o, &s);
    assert_eq!(m1, m2);
    assert_eq!(checked.prev_objective(), plain.prev_objective());
    assert_eq!(checked.ema_reward(), plain.ema_reward());
    assert_eq!(levels(m1), [0.05f32.tanh(), 0.25, 0.5f32.tanh(), 1.0]);
    assert_eq!(f32::from_bits(checked.prev_objective()), 0.5);
    assert_eq!(f32::from_bits(checked.ema_reward()), 0.05);
}

#[test]
fn td_checked_saturates_infinite_ema_and_keeps_alpha() {
    let mut td = TDCritic::new(0.25f32.to_bits()).unwrap();
    let m = td
        .try_assess(&obs(1.0, 0.0, 0.0, 0.0), &step(1.0, f32::INFINITY, 1.0, 1.0))
        .unwrap();
    assert_eq!(td.ema_reward(), f32::MAX.to_bits());
    assert_eq!(td.alpha(), 0.25f32.to_bits());
    assert_eq!(levels(m), [1.0, 0.0, 1.0, 0.0]);
}

#[test]
fn td_checked_rejects_nan_intermediates_in_order_and_keeps_state() {
    let mut td = TDCritic::new(0.5f32.to_bits()).unwrap();
    let err = td
        .try_assess(&obs(1.0, 0.0, 0.0, 0.0), &step(f32::NAN, f32::NAN, 0.0, 0.0))
        .unwrap_err();
    assert_eq!(err.field(), CriticField::TdError);
    assert_eq!(err.kind(), NonFiniteKind::Nan);
    let err = td
        .try_assess(&obs(1.0, 0.0, 0.0, 0.0), &step(1.0, f32::NAN, 0.0, 0.0))
        .unwrap_err();
    assert_eq!(err.field(), CriticField::EmaReward);
    assert_eq!(td.prev_objective(), 0.0f32.to_bits());
    assert_eq!(td.ema_reward(), 0.0f32.to_bits());
}

#[test]
fn td_assess_stores_whatever_it_is_given() {
    let mut td = TDCritic::new(1.0f32.to_bits()).unwrap();
    let m = td.assess(
        &obs(f32::NAN, 2.0, 0.0, -1.0),
        &step(f32::NAN, f32::NAN, f32::NAN, f32::NAN),
    );
    assert!(f32::from_bits(td.prev_objective()).is_nan());
    assert!(f32::from_bits(td.ema_reward()).is_nan());
    assert!(f32::from_bits(m.dopamine).is_nan());
    assert!(f32::from_bits(m.acetylcholine).is_nan());
    assert_eq!(f32::from_bits(m.serotonin), 1.0);
    assert_eq!(f32::from_bits(m.norepinephrine), 0.0);
}

#[test]
fn new_critic_starts_at_zero() {
    let td = TDCritic::new(0.2f32.to_bits()).unwrap();
    assert_eq!(td.prev_objective(), 0);
    assert_eq!(td.ema_reward(), 0);
    assert_eq!(td.alpha(), 0.2f32.to_bits());
}

#[test]
fn invalid_alpha_text() {
    assert_eq!(
        limbic_critic::InvalidAlpha.to_string(),
        "TDCritic alpha must be in (0, 1] (finite, greater than 0, at most 1)"
    );
}

#[test]
fn modulator_equality_is_float_equality() {
    let zero = ModulatorVector::default();
    let negative_zero = ModulatorVector {
        dopamine: (-0.0f32).to_bits(),
        serotonin: (-0.0f32).to_bits(),
        acetylcholine: 0,
        norepinephrine: 0,
    };
    assert_eq!(zero, negative_zero);
    let nan = ModulatorVector {
        dopamine: f32::NAN.to_bits(),
        ..zero
    };
    assert_ne!(nan, nan);
    let one = ModulatorVector {
        serotonin: 1.0f32.to_bits(),
        ..zero
    };
    assert_ne!(zero, one);
}
