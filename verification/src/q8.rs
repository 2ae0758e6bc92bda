//! Unsigned Q8.8 fixed point for rewards in `[0.0, 1.0]`.

use crate::binary32::{
    biased_exponent, clamp, clamp_to, effective_exponent, finite_in_range, is_nan, le,
    lemma_clamp_range, lt, nan, order_key, sign_bit, sign_negative, significand,
    POS_ONE, POS_ZERO,
};
use vstd::arithmetic::div_mod::{
    lemma_basic_div, lemma_div_denominator, lemma_div_is_ordered,
    lemma_div_is_ordered_by_denominator, lemma_fundamental_div_mod, lemma_mod_bound,
};
use vstd::arithmetic::power2::{
    lemma2_to64, lemma_pow2_pos, lemma_pow2_strictly_increases, lemma_pow2_unfold, pow2,
};
use vstd::bits::lemma_u32_shr_is_div;
use vstd::prelude::*;

verus! {

/// Maximum representable value in unsigned Q8.8 (`0xFF.FF`).
pub const Q8_8_MAX: u16 = 0xFFFF;

/// `(v * 256.0) as u32` for an encoding `v` of `clamp(0.0, 1.0)`'s range:
/// `0` for NaN and `-0.0`; otherwise the whole part of `v · 256`, which for
/// `v = significand · 2^(e − 150)` with `e <= 127` is
/// `significand / 2^(142 − e)` (the product is exact, the cast truncates).
pub open spec fn unit_to_q8_8(v: u32) -> int {
    if is_nan(v) || sign_bit(v) == 1 {
        0
    } else {
        significand(v) / pow2((142 - effective_exponent(v)) as nat) as int
    }
}

/// The Q8.8 value of a reward: clamp to `[0.0, 1.0]`, scale by 256,
/// truncate, cap at [`Q8_8_MAX`].
pub open spec fn q8_8_of(reward: u32) -> int {
    let raw = unit_to_q8_8(clamp(reward, POS_ZERO, POS_ONE));
    if raw < Q8_8_MAX as int {
        raw
    } else {
        Q8_8_MAX as int
    }
}

/// A clamped value scales to at most 256 (`1.0` exactly to 256).
proof fn lemma_unit_to_q8_8_bound(v: u32)
    requires
        !is_nan(v),
        sign_bit(v) == 0,
        v <= POS_ONE,
    ensures
        0 <= unit_to_q8_8(v) <= 256,
        v == POS_ONE ==> unit_to_q8_8(v) == 256,
{
    let e = effective_exponent(v);
    let sig = significand(v);
    lemma2_to64();
    lemma_pow2_pos((142 - e) as nat);
    if v == POS_ONE {
        assert(sig == 0x80_0000 && e == 127);
        assert(pow2(15) == 0x8000);
    } else {
        if e == 127 {
            assert(v == POS_ONE);
        } else {
            assert(142 - e >= 16);
            if 142 - e > 16 {
                lemma_pow2_strictly_increases(16, (142 - e) as nat);
            }
            lemma_div_is_ordered_by_denominator(sig, 0x1_0000, pow2((142 - e) as nat) as int);
            lemma_div_is_ordered(sig, 0x100_0000, 0x1_0000);
        }
    }
}

/// Convert a reward (a binary32 encoding) to unsigned Q8.8 fixed point.
///
/// Clamps to `[0.0, 1.0]` before conversion and caps the result at
/// [`Q8_8_MAX`]; the result is at most 256 (`1.0` maps to `0x0100`).
pub fn reward_to_q8_8(reward: u32) -> (r: u16)
    ensures
        r == q8_8_of(reward),
        r <= 256,
{
    let clamped = clamp_to(reward, POS_ZERO, POS_ONE);
    proof {
        lemma_clamp_range(reward, POS_ZERO, POS_ONE);
    }
    let raw: u32 = if nan(clamped) || sign_negative(clamped) {
        0
    } else {
        let exponent: u32 = (clamped % 0x8000_0000) / 0x80_0000;
        let fraction: u32 = clamped % 0x80_0000;
        let (sig, e): (u32, u32) = if exponent == 0 {
            (fraction, 1)
        } else {
            (fraction + 0x80_0000, exponent)
        };
        proof {
            assert(clamped <= POS_ONE);
            assert(e <= 127);
            lemma_unit_to_q8_8_bound(clamped);
        }
        let shift: u32 = 142 - e;
        if shift < 32 {
            proof {
                lemma_u32_shr_is_div(sig, shift);
            }
            sig >> shift
        } else {
            proof {
                lemma2_to64();
                if shift > 32 {
                    lemma_pow2_strictly_increases(32, shift as nat);
                }
                assert(sig as int / pow2(shift as nat) as int == 0) by {
                    lemma_basic_div(sig as int, pow2(shift as nat) as int);
                }
            }
            0
        }
    };
    proof {
        if !(is_nan(clamped) || sign_bit(clamped) == 1) {
            lemma_unit_to_q8_8_bound(clamped);
        }
    }
    let capped: u32 = if raw < Q8_8_MAX as u32 {
        raw
    } else {
        Q8_8_MAX as u32
    };
    capped as u16
}

/// Within `[0.0, 1.0]` the scaled whole part grows with the value.
proof fn lemma_unit_to_q8_8_monotone(x: u32, y: u32)
    requires
        finite_in_range(x, POS_ZERO, POS_ONE),
        finite_in_range(y, POS_ZERO, POS_ONE),
        order_key(x) <= order_key(y),
    ensures
        unit_to_q8_8(x) <= unit_to_q8_8(y),
{
    let ex = effective_exponent(x);
    let ey = effective_exponent(y);
    let kx = (142 - ex) as nat;
    let ky = (142 - ey) as nat;
    lemma_pow2_pos(kx);
    lemma_pow2_pos(ky);
    if sign_bit(x) == 1 || sign_bit(y) == 1 || x == 0 {
        // x is a zero (or y is, and then so is x): its whole part is 0.
        if sign_bit(y) == 0 {
            lemma_div_is_ordered(0, significand(y), pow2(ky) as int);
        }
        if sign_bit(x) == 0 {
            lemma_div_is_ordered(0, significand(x), pow2(kx) as int);
        }
        assert(unit_to_q8_8(x) == 0) by {
            if sign_bit(x) == 0 {
                assert(significand(x) == 0);
                lemma_basic_div(0, pow2(kx) as int);
            }
        }
    } else if ex == ey {
        lemma_div_is_ordered(significand(x), significand(y), pow2(kx) as int);
    } else {
        // ex < ey: x's significand is below 2^24 and y's at least 2^23.
        assert(ex < ey);
        assert(biased_exponent(y) >= 2);
        assert(kx >= ky + 1);
        lemma_pow2_unfold(ky + 1);
        assert(pow2(ky + 1) == 2 * pow2(ky));
        if kx > ky + 1 {
            lemma_pow2_strictly_increases(ky + 1, kx);
        }
        lemma_div_is_ordered(significand(x), 0x100_0000, pow2(kx) as int);
        lemma_div_is_ordered_by_denominator(0x100_0000, pow2(ky + 1) as int, pow2(kx) as int);
        lemma_div_denominator(0x100_0000, 2, pow2(ky) as int);
        lemma_div_is_ordered(0x80_0000, significand(y), pow2(ky) as int);
    }
}

/// The Q8.8 conversion is nondecreasing: a larger reward never converts to
/// a smaller fixed-point value.
pub proof fn law_q8_8_monotone(a: u32, b: u32)
    requires
        le(a, b),
    ensures
        q8_8_of(a) <= q8_8_of(b),
{
    lemma_clamp_range(a, POS_ZERO, POS_ONE);
    lemma_clamp_range(b, POS_ZERO, POS_ONE);
    let ca = clamp(a, POS_ZERO, POS_ONE);
    let cb = clamp(b, POS_ZERO, POS_ONE);
    assert(order_key(ca) <= order_key(cb));
    lemma_unit_to_q8_8_monotone(ca, cb);
}

/// The Q8.8 value of a reward in `[0.0, 1.0]` (not `-0.0`) is the whole
/// part of `256 · v`: with `v = significand · 2^(e − 150)`, the result `q`
/// satisfies `q · 2^(142 − e) <= significand < (q + 1) · 2^(142 − e)`. A
/// reward below `0.0` (or NaN) gives 0, one above `1.0` gives 256.
pub proof fn law_q8_8_whole_part(reward: u32)
    ensures
        !is_nan(reward) && sign_bit(reward) == 0 && le(reward, POS_ONE) ==> ({
            let k = pow2((142 - effective_exponent(reward)) as nat) as int;
            let q = q8_8_of(reward);
            q * k <= significand(reward) < (q + 1) * k
        }),
        is_nan(reward) || lt(reward, POS_ZERO) ==> q8_8_of(reward) == 0,
        lt(POS_ONE, reward) ==> q8_8_of(reward) == 256,
{
    lemma_clamp_range(reward, POS_ZERO, POS_ONE);
    if !is_nan(reward) && sign_bit(reward) == 0 && le(reward, POS_ONE) {
        let k = pow2((142 - effective_exponent(reward)) as nat) as int;
        lemma_pow2_pos((142 - effective_exponent(reward)) as nat);
        lemma_unit_to_q8_8_bound(reward);
        lemma_fundamental_div_mod(significand(reward), k);
        lemma_mod_bound(significand(reward), k);
        let q = significand(reward) / k;
        assert(q * k <= significand(reward) < (q + 1) * k) by (nonlinear_arith)
            requires
                significand(reward) == k * q + significand(reward) % k,
                0 <= significand(reward) % k < k,
        ;
    }
    if lt(reward, POS_ZERO) {
        lemma_pow2_pos(141);
        lemma_basic_div(0, pow2(141) as int);
    }
    if lt(POS_ONE, reward) {
        lemma_unit_to_q8_8_bound(POS_ONE);
    }
}

} // verus!
