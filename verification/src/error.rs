//! Typed errors for checked critic assessment.
//!
//! The checked paths (`SimpleCritic::try_assess`, `TDCritic::try_assess`)
//! reject non-finite observations before any modulator is produced and, for
//! the temporal critic, before internal state is committed. Values are the
//! binary32 encodings described in [`crate::binary32`].

use crate::binary32::{is_infinite, is_nan, nan, infinite, sign_bit, sign_negative};
use vstd::prelude::*;
use vstd::string::*;

verus! {

/// Classification of a non-finite `f32` that failed critic validation.
#[derive(Debug, Clone, Copy, PartialEq, Eq, Structural)]
#[non_exhaustive]
pub enum NonFiniteKind {
    /// IEEE NaN (any payload, including negative-NaN).
    Nan,
    /// `+∞`.
    PositiveInfinity,
    /// `−∞`.
    NegativeInfinity,
}

impl NonFiniteKind {
    /// The kind of a non-finite encoding, or `None` for a finite one.
    pub open spec fn of(value: u32) -> Option<NonFiniteKind> {
        if is_nan(value) {
            Some(NonFiniteKind::Nan)
        } else if is_infinite(value) {
            if sign_bit(value) == 0 {
                Some(NonFiniteKind::PositiveInfinity)
            } else {
                Some(NonFiniteKind::NegativeInfinity)
            }
        } else {
            None
        }
    }

    /// The text that names the kind: `NaN`, `+inf` or `-inf`.
    pub open spec fn text(self) -> Seq<char> {
        match self {
            NonFiniteKind::Nan => "NaN"@,
            NonFiniteKind::PositiveInfinity => "+inf"@,
            NonFiniteKind::NegativeInfinity => "-inf"@,
        }
    }

    /// Classify the encoded `value` as non-finite, or `None` when it is
    /// finite (subnormals and signed zeros included).
    #[must_use]
    pub fn classify(value: u32) -> (r: Option<NonFiniteKind>)
        ensures
            r == Self::of(value),
    {
        if nan(value) {
            Some(NonFiniteKind::Nan)
        } else if infinite(value) {
            if sign_negative(value) {
                Some(NonFiniteKind::NegativeInfinity)
            } else {
                Some(NonFiniteKind::PositiveInfinity)
            }
        } else {
            None
        }
    }

    /// The display text of the kind.
    pub fn to_string(&self) -> (r: String)
        ensures
            r@ == self.text(),
    {
        match self {
            NonFiniteKind::Nan => String::from_str("NaN"),
            NonFiniteKind::PositiveInfinity => String::from_str("+inf"),
            NonFiniteKind::NegativeInfinity => String::from_str("-inf"),
        }
    }
}

/// A validated field or computed intermediate in a critic assessment.
///
/// Input channels (`Objective`, `Volatility`, `Surprise`, `Stress`) are read
/// from the observation. Intermediates (`TdError`, `EmaReward`) are computed
/// by `TDCritic` and checked before state is committed.
#[derive(Debug, Clone, Copy, PartialEq, Eq, Structural)]
#[non_exhaustive]
pub enum CriticField {
    /// The objective channel.
    Objective,
    /// The volatility channel.
    Volatility,
    /// The surprise channel (validated by `SimpleCritic` only).
    Surprise,
    /// The stress channel.
    Stress,
    /// `objective − prev_objective` inside `TDCritic`.
    TdError,
    /// The EMA of TD errors inside `TDCritic`.
    EmaReward,
}

impl CriticField {
    /// The text that names the field.
    pub open spec fn text(self) -> Seq<char> {
        match self {
            CriticField::Objective => "objective"@,
            CriticField::Volatility => "volatility"@,
            CriticField::Surprise => "surprise"@,
            CriticField::Stress => "stress"@,
            CriticField::TdError => "TD error"@,
            CriticField::EmaReward => "EMA reward"@,
        }
    }

    /// The display text of the field.
    pub fn to_string(&self) -> (r: String)
        ensures
            r@ == self.text(),
    {
        match self {
            CriticField::Objective => String::from_str("objective"),
            CriticField::Volatility => String::from_str("volatility"),
            CriticField::Surprise => String::from_str("surprise"),
            CriticField::Stress => String::from_str("stress"),
            CriticField::TdError => String::from_str("TD error"),
            CriticField::EmaReward => String::from_str("EMA reward"),
        }
    }
}

/// A checked assessment failed because a value was not finite.
///
/// Each error names the field that failed and whether the value was NaN or
/// an infinity.
#[derive(Debug, Clone, Copy, PartialEq, Eq, Structural)]
#[non_exhaustive]
pub enum CriticError {
    /// A raw observation or a computed intermediate was NaN or ±∞.
    NonFinite {
        /// Which input channel or intermediate failed validation.
        field: CriticField,
        /// Whether the value was NaN or an infinity.
        kind: NonFiniteKind,
    },
}

impl CriticError {
    /// The error for `value` in `field`, or `None` when `value` is finite.
    pub open spec fn of(field: CriticField, value: u32) -> Option<CriticError> {
        match NonFiniteKind::of(value) {
            Some(kind) => Some(CriticError::NonFinite { field, kind }),
            None => None,
        }
    }

    /// The failing field of the error.
    pub open spec fn field_of(self) -> CriticField {
        match self {
            CriticError::NonFinite { field, .. } => field,
        }
    }

    /// The kind of the failing value.
    pub open spec fn kind_of(self) -> NonFiniteKind {
        match self {
            CriticError::NonFinite { kind, .. } => kind,
        }
    }

    /// `non-finite {field} ({kind})`.
    pub open spec fn text(self) -> Seq<char> {
        "non-finite "@ + self.field_of().text() + " ("@ + self.kind_of().text() + ")"@
    }

    /// Construct a `NonFinite` error from a non-finite encoding; `None` when
    /// `value` is finite.
    #[must_use]
    pub fn from_non_finite(field: CriticField, value: u32) -> (r: Option<CriticError>)
        ensures
            r == Self::of(field, value),
    {
        match NonFiniteKind::classify(value) {
            Some(kind) => Some(CriticError::NonFinite { field, kind }),
            None => None,
        }
    }

    /// The field or intermediate that failed validation.
    #[must_use]
    pub fn field(&self) -> (r: CriticField)
        ensures
            r == self.field_of(),
    {
        match *self {
            CriticError::NonFinite { field, .. } => field,
        }
    }

    /// Whether the rejected value was NaN or an infinity.
    #[must_use]
    pub fn kind(&self) -> (r: NonFiniteKind)
        ensures
            r == self.kind_of(),
    {
        match *self {
            CriticError::NonFinite { kind, .. } => kind,
        }
    }

    /// The display text: `non-finite {field} ({kind})`.
    pub fn to_string(&self) -> (r: String)
        ensures
            r@ == self.text(),
    {
        let mut s = String::from_str("non-finite ");
        let f = self.field().to_string();
        s.append(f.as_str());
        s.append(" (");
        let k = self.kind().to_string();
        s.append(k.as_str());
        s.append(")");
        s
    }
}

/// `Ok(value)` for a finite encoding, else the error for `field`.
pub open spec fn finite_or_error(value: u32, field: CriticField) -> Result<u32, CriticError> {
    match CriticError::of(field, value) {
        Some(err) => Err(err),
        None => Ok(value),
    }
}

/// Reject `value` unless it is finite.
pub fn require_finite(value: u32, field: CriticField) -> (r: Result<u32, CriticError>)
    ensures
        r == finite_or_error(value, field),
{
    match CriticError::from_non_finite(field, value) {
        Some(err) => Err(err),
        None => Ok(value),
    }
}

/// An encoding is classified as non-finite exactly when it is not finite,
/// and a NaN is never reported as an infinity nor the reverse.
pub proof fn law_classify_finite(value: u32)
    ensures
        NonFiniteKind::of(value) is None <==> crate::binary32::is_finite(value),
        NonFiniteKind::of(value) == Some(NonFiniteKind::Nan) <==> is_nan(value),
        (NonFiniteKind::of(value) == Some(NonFiniteKind::PositiveInfinity) || NonFiniteKind::of(value)
            == Some(NonFiniteKind::NegativeInfinity)) <==> is_infinite(value),
{
}

} // verus!
