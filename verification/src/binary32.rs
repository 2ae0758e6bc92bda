//! IEEE 754 binary32 values carried as their bit patterns.
//!
//! Every `f32` that the critics read or produce is held here as the `u32`
//! that `f32::to_bits` returns for it. The spec functions below give the
//! fields of the encoding (sign, biased exponent, fraction), the standard
//! classification (NaN, infinite, finite) and the IEEE order of non-NaN
//! values; the executable functions compute the comparisons, clamps and
//! saturations that the critics apply, each proved against those specs.

use vstd::prelude::*;

verus! {

/// Encoding of `+0.0`.
pub const POS_ZERO: u32 = 0x0000_0000;

/// Encoding of `1.0`.
pub const POS_ONE: u32 = 0x3F80_0000;

/// Encoding of `-1.0`.
pub const NEG_ONE: u32 = 0xBF80_0000;

/// Encoding of `f32::MAX`, the largest finite value.
pub const POS_MAX: u32 = 0x7F7F_FFFF;

/// Encoding of `f32::MIN`, the most negative finite value.
pub const NEG_MAX: u32 = 0xFF7F_FFFF;

/// Encoding of `+∞`.
pub const POS_INFINITY: u32 = 0x7F80_0000;

/// Encoding of `−∞`.
pub const NEG_INFINITY: u32 = 0xFF80_0000;

/// The sign bit (bit 31): 1 for negative encodings.
pub open spec fn sign_bit(b: u32) -> int {
    b as int / 0x8000_0000
}

/// The encoding without its sign bit (bits 0..=30).
pub open spec fn magnitude(b: u32) -> int {
    b as int % 0x8000_0000
}

/// The biased exponent field (bits 23..=30).
pub open spec fn biased_exponent(b: u32) -> int {
    magnitude(b) / 0x80_0000
}

/// The fraction (mantissa) field (bits 0..=22).
pub open spec fn fraction(b: u32) -> int {
    b as int % 0x80_0000
}

/// The integer significand: the fraction, with the implicit leading 1
/// (`2^23`) of normal encodings.
pub open spec fn significand(b: u32) -> int {
    if biased_exponent(b) == 0 {
        fraction(b)
    } else {
        fraction(b) + 0x80_0000
    }
}

/// The exponent that scales the significand: a finite encoding's absolute
/// value is `significand(b) · 2^(effective_exponent(b) − 150)` (subnormals
/// share the exponent of the smallest normals).
pub open spec fn effective_exponent(b: u32) -> int {
    if biased_exponent(b) == 0 {
        1
    } else {
        biased_exponent(b)
    }
}

/// NaN: all-ones exponent with a non-zero fraction (any sign, any payload).
pub open spec fn is_nan(b: u32) -> bool {
    biased_exponent(b) == 0xFF && fraction(b) != 0
}

/// `±∞`: all-ones exponent with a zero fraction.
pub open spec fn is_infinite(b: u32) -> bool {
    biased_exponent(b) == 0xFF && fraction(b) == 0
}

/// Finite: any exponent but all-ones (zeros, subnormals and normals).
pub open spec fn is_finite(b: u32) -> bool {
    biased_exponent(b) != 0xFF
}

/// A key that orders non-NaN encodings as their real values are ordered.
///
/// Within one sign, a larger magnitude encodes a value of larger absolute
/// value (subnormals, normals and infinity in turn), so the signed magnitude
/// orders values; `+0.0` and `-0.0` both get key 0, as IEEE equates them.
pub open spec fn order_key(b: u32) -> int {
    if sign_bit(b) == 0 {
        magnitude(b)
    } else {
        -magnitude(b)
    }
}

/// IEEE `a < b` (false whenever either side is NaN).
pub open spec fn lt(a: u32, b: u32) -> bool {
    !is_nan(a) && !is_nan(b) && order_key(a) < order_key(b)
}

/// IEEE `a <= b` (false whenever either side is NaN).
pub open spec fn le(a: u32, b: u32) -> bool {
    !is_nan(a) && !is_nan(b) && order_key(a) <= order_key(b)
}

/// IEEE `a == b`: false whenever either side is NaN; `+0.0 == -0.0`.
pub open spec fn ieee_eq(a: u32, b: u32) -> bool {
    !is_nan(a) && !is_nan(b) && order_key(a) == order_key(b)
}

/// `f32::clamp(x, lo, hi)`: `lo` when `x < lo`, `hi` when `x > hi`, else `x`
/// (so a NaN `x` is returned unchanged).
pub open spec fn clamp(x: u32, lo: u32, hi: u32) -> u32 {
    if lt(x, lo) {
        lo
    } else if lt(hi, x) {
        hi
    } else {
        x
    }
}

/// A finite value `v` with `lo <= v <= hi`.
pub open spec fn finite_in_range(v: u32, lo: u32, hi: u32) -> bool {
    is_finite(v) && le(lo, v) && le(v, hi)
}

/// `x.signum() * f32::MAX` for an infinite `x`; every other `x` unchanged.
pub open spec fn saturate(x: u32) -> u32 {
    if is_infinite(x) {
        if sign_bit(x) == 0 {
            POS_MAX
        } else {
            NEG_MAX
        }
    } else {
        x
    }
}

/// Whether the encoded value is NaN.
pub fn nan(b: u32) -> (r: bool)
    ensures
        r == is_nan(b),
{
    b % 0x8000_0000 > 0x7F80_0000
}

/// Whether the encoded value is `+∞` or `−∞`.
pub fn infinite(b: u32) -> (r: bool)
    ensures
        r == is_infinite(b),
{
    b % 0x8000_0000 == 0x7F80_0000
}

/// Whether the sign bit is set (as `f32::is_sign_negative`).
pub fn sign_negative(b: u32) -> (r: bool)
    ensures
        r == (sign_bit(b) == 1),
{
    b >= 0x8000_0000
}

/// IEEE `a < b` on encodings.
pub fn less_than(a: u32, b: u32) -> (r: bool)
    ensures
        r == lt(a, b),
{
    if nan(a) || nan(b) {
        return false;
    }
    let ma = a % 0x8000_0000;
    let mb = b % 0x8000_0000;
    let na = a >= 0x8000_0000;
    let nb = b >= 0x8000_0000;
    if na && nb {
        mb < ma
    } else if na {
        // a <= 0 <= b; equal only when both are zeros
        !(ma == 0 && mb == 0)
    } else if nb {
        false
    } else {
        ma < mb
    }
}

/// IEEE `a == b` on encodings.
pub fn equal(a: u32, b: u32) -> (r: bool)
    ensures
        r == ieee_eq(a, b),
{
    if nan(a) || nan(b) {
        return false;
    }
    // Equal encodings are equal values; otherwise only the two zeros.
    a == b || (a % 0x8000_0000 == 0 && b % 0x8000_0000 == 0)
}

/// `f32::clamp(x, lo, hi)` on encodings, for non-NaN bounds `lo <= hi`
/// (the bounds under which `f32::clamp` does not panic).
pub fn clamp_to(x: u32, lo: u32, hi: u32) -> (r: u32)
    requires
        le(lo, hi),
    ensures
        r == clamp(x, lo, hi),
{
    if less_than(x, lo) {
        lo
    } else if less_than(hi, x) {
        hi
    } else {
        x
    }
}

/// Replace `±∞` by `±f32::MAX`; every other encoding is kept.
pub fn saturate_infinity(x: u32) -> (r: u32)
    ensures
        r == saturate(x),
{
    if infinite(x) {
        if sign_negative(x) {
            NEG_MAX
        } else {
            POS_MAX
        }
    } else {
        x
    }
}

/// A clamp of a non-NaN value between finite bounds is finite and within
/// them; a clamp of NaN is NaN.
pub proof fn lemma_clamp_range(x: u32, lo: u32, hi: u32)
    requires
        is_finite(lo),
        is_finite(hi),
        le(lo, hi),
    ensures
        !is_nan(x) ==> finite_in_range(clamp(x, lo, hi), lo, hi),
        is_nan(x) ==> clamp(x, lo, hi) == x,
{
    if !is_nan(x) && !lt(x, lo) && !lt(hi, x) {
        lemma_between_finite(lo, x, hi);
    }
}

/// A non-NaN value between two finite values is finite.
pub proof fn lemma_between_finite(lo: u32, x: u32, hi: u32)
    requires
        is_finite(lo),
        is_finite(hi),
        !is_nan(x),
        order_key(lo) <= order_key(x) <= order_key(hi),
    ensures
        is_finite(x),
{
}

/// Saturation keeps NaN, turns infinities finite, and keeps finite values.
pub proof fn lemma_saturate(x: u32)
    ensures
        is_nan(x) ==> saturate(x) == x,
        !is_nan(x) ==> is_finite(saturate(x)),
        is_finite(x) ==> saturate(x) == x,
{
}

} // verus!
