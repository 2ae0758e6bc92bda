use limbic_critic::critic::saturate_or_reject;
use limbic_critic::error::require_finite;
use limbic_critic::{CriticError, CriticField, NonFiniteKind};

/// Adapter giving a library error the std error traits, so that it can be
/// used through `&dyn std::error::Error`.
#[derive(Debug)]
struct StdError(CriticError);

impl std::fmt::Display for StdError {
    fn fmt(&self, f: &mut std::fmt::Formatter<'_>) -> std::fmt::Result {
        f.write_str(&self.0.to_string())
    }
}

impl std::error::Error for StdError {}

#[test]
fn classify_finite_and_nonfinite() {
    assert_eq!(NonFiniteKind::classify(0.0f32.to_bits()), None);
    assert_eq!(NonFiniteKind::classify((-0.0f32).to_bits()), None);
    assert_eq!(NonFiniteKind::classify(f32::MIN_POSITIVE.to_bits()), None);
    assert_eq!(NonFiniteKind::classify(f32::MAX.to_bits()), None);
    assert_eq!(
        NonFiniteKind::classify(f32::NAN.to_bits()),
        Some(NonFiniteKind::Nan)
    );
    assert_eq!(
        NonFiniteKind::classify(f32::INFINITY.to_bits()),
        Some(NonFiniteKind::PositiveInfinity)
    );
    assert_eq!(
        NonFiniteKind::classify(f32::NEG_INFINITY.to_bits()),
        Some(NonFiniteKind::NegativeInfinity)
    );
}

#[test]
fn display_and_error_trait() {
    let err = CriticError::NonFinite {
        field: CriticField::Objective,
        kind: NonFiniteKind::Nan,
    };
    assert_eq!(err.to_string(), "non-finite objective (NaN)");
    assert_eq!(
        CriticError::NonFinite {
            field: CriticField::Volatility,
            kind: NonFiniteKind::PositiveInfinity,
        }
        .to_string(),
        "non-finite volatility (+inf)"
    );
    assert_eq!(
        CriticError::NonFinite {
            field: CriticField::Stress,
            kind: NonFiniteKind::NegativeInfinity,
        }
        .to_string(),
        "non-finite stress (-inf)"
    );
    let wrapped = StdError(err);
    let as_error: &dyn std::error::Error = &wrapped;
    assert!(as_error.source().is_none());
    assert_eq!(err.field(), CriticField::Objective);
    assert_eq!(err.kind(), NonFiniteKind::Nan);
    assert_eq!(CriticField::Surprise.to_string(), "surprise");
    assert_eq!(CriticField::TdError.to_string(), "TD error");
    assert_eq!(CriticField::EmaReward.to_string(), "EMA reward");
}

#[test]
fn from_non_finite_skips_finite() {
    assert!(CriticError::from_non_finite(CriticField::Objective, 1.0f32.to_bits()).is_none());
    assert_eq!(
        require_finite(1.5f32.to_bits(), CriticField::Surprise).unwrap(),
        1.5f32.to_bits()
    );
    assert!(require_finite(f32::NAN.to_bits(), CriticField::Surprise).is_err());
}

#[test]
fn classify_negative_nan_and_subnormal() {
    // A NaN with the sign bit set and a non-default payload is still NaN.
    assert_eq!(NonFiniteKind::classify(0xFFC0_0001), Some(NonFiniteKind::Nan));
    assert_eq!(NonFiniteKind::classify(0x0000_0001), None);
    assert_eq!(NonFiniteKind::classify(f32::MIN.to_bits()), None);
}

#[test]
fn from_non_finite_names_field_and_kind() {
    let err = CriticError::from_non_finite(CriticField::TdError, f32::NEG_INFINITY.to_bits())
        .expect("non-finite");
    assert_eq!(err.field(), CriticField::TdError);
    assert_eq!(err.kind(), NonFiniteKind::NegativeInfinity);
    assert_eq!(err.to_string(), "non-finite TD error (-inf)");
    let err = require_finite(f32::INFINITY.to_bits(), CriticField::Stress).unwrap_err();
    assert_eq!(
        err,
        CriticError::NonFinite {
            field: CriticField::Stress,
            kind: NonFiniteKind::PositiveInfinity
        }
    );
}

#[test]
fn kind_and_field_texts() {
    assert_eq!(NonFiniteKind::Nan.to_string(), "NaN");
    assert_eq!(NonFiniteKind::PositiveInfinity.to_string(), "+inf");
    assert_eq!(NonFiniteKind::NegativeInfinity.to_string(), "-inf");
    assert_eq!(CriticField::Objective.to_string(), "objective");
    assert_eq!(CriticField::Volatility.to_string(), "volatility");
    assert_eq!(CriticField::Stress.to_string(), "stress");
    assert_eq!(
        CriticError::NonFinite {
            field: CriticField::EmaReward,
            kind: NonFiniteKind::Nan
        }
        .to_string(),
        "non-finite EMA reward (NaN)"
    );
}

#[test]
fn saturate_or_reject_saturates_infinities_and_rejects_nan() {
    assert_eq!(
        saturate_or_reject(f32::INFINITY.to_bits(), CriticField::TdError),
        Ok(f32::MAX.to_bits())
    );
    assert_eq!(
        saturate_or_reject(f32::NEG_INFINITY.to_bits(), CriticField::EmaReward),
        Ok(f32::MIN.to_bits())
    );
    assert_eq!(
        saturate_or_reject(0.25f32.to_bits(), CriticField::TdError),
        Ok(0.25f32.to_bits())
    );
    assert_eq!(
        saturate_or_reject(f32::NAN.to_bits(), CriticField::EmaReward),
        Err(CriticError::NonFinite {
            field: CriticField::EmaReward,
            kind: NonFiniteKind::Nan
        })
    );
}
