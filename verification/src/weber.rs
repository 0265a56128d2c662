//! Weber-law sensory quantization.
//!
//! The just-noticeable difference grows with stimulus magnitude: small
//! stimuli get fine resolution, large stimuli get coarse resolution.
//! Step sizes follow four intensity bands: 5 for magnitudes 0..=49,
//! 10 for 50..=199, 15 for 200..=999, and 25 from 1000 up.

use vstd::prelude::*;

verus! {

/// The absolute value of a signed quantity, as a mathematical integer.
pub open spec fn abs_int(x: int) -> int {
    if x >= 0 {
        x
    } else {
        -x
    }
}

/// Weber step size for a given (non-negative) magnitude: the width of the
/// quantization band that the magnitude falls in.
pub open spec fn spec_weber_step(m: int) -> int {
    if m <= 49 {
        5
    } else if m <= 199 {
        10
    } else if m <= 999 {
        15
    } else {
        25
    }
}

/// Weber quantization of a signed value: the magnitude snaps down to the
/// largest multiple of its band's step, and the sign is preserved.
pub open spec fn spec_weber_quantize(x: int) -> int {
    let a = abs_int(x);
    let s = spec_weber_step(a);
    let q = (a / s) * s;
    if x >= 0 {
        q
    } else {
        -q
    }
}

/// Weber fraction (step over magnitude) as an integer percentage, capped
/// at 255; the fraction at magnitude zero is defined as 255.
pub open spec fn spec_weber_fraction_pct(m: int) -> int {
    if m == 0 {
        255
    } else {
        let f = spec_weber_step(m) * 100 / m;
        if f <= 255 {
            f
        } else {
            255
        }
    }
}

/// Quantize a raw sensory value using Weber-law step sizes.
///
/// Preserves sign; zero passes through unchanged. The quantized magnitude
/// is the largest multiple of the band's step not exceeding the input's
/// absolute value.
pub fn weber_quantize(raw: i32) -> (r: i32)
    ensures
        r == spec_weber_quantize(raw as int),
{
    if raw == 0 {
        return 0;
    }

    let abs_val: u32 = if raw >= 0 {
        raw as u32
    } else {
        ((-(raw as i64)) as u64) as u32
    };

    let step: u32 = if abs_val <= 49 {
        5
    } else if abs_val <= 199 {
        10
    } else if abs_val <= 999 {
        15
    } else {
        25
    };

    let quantized_abs: u32 = (abs_val / step) * step;

    proof {
        assert(abs_val == abs_int(raw as int));
        assert(step == spec_weber_step(abs_val as int));
        assert((abs_val as int / step as int) * (step as int) <= abs_val as int
            && abs_val as int / step as int >= 0) by {
            vstd::arithmetic::div_mod::lemma_fundamental_div_mod(
                abs_val as int,
                step as int,
            );
            vstd::arithmetic::div_mod::lemma_mod_bound(abs_val as int, step as int);
        }
    }

    if raw > 0 {
        quantized_abs as i32
    } else {
        -(quantized_abs as i32)
    }
}

/// Snapping a non-negative magnitude down to a multiple of a positive
/// step stays non-negative, does not exceed the magnitude, and is exactly
/// divisible by the step.
proof fn lemma_snap_facts(a: int, s: int)
    requires
        a >= 0,
        s > 0,
    ensures
        0 <= (a / s) * s <= a,
        ((a / s) * s) / s == a / s,
{
    vstd::arithmetic::div_mod::lemma_fundamental_div_mod(a, s);
    vstd::arithmetic::div_mod::lemma_mod_bound(a, s);
    vstd::arithmetic::div_mod::lemma_div_pos_is_pos(a, s);
    vstd::arithmetic::mul::lemma_mul_is_commutative(a / s, s);
    vstd::arithmetic::div_mod::lemma_div_by_multiple(a / s, s);
    vstd::arithmetic::mul::lemma_mul_nonnegative(a / s, s);
}

/// A magnitude at least `k` steps high snaps down to at least `k` steps.
proof fn lemma_snap_lower(a: int, s: int, k: int)
    requires
        k >= 0,
        s > 0,
        a >= k * s,
    ensures
        (a / s) * s >= k * s,
{
    vstd::arithmetic::mul::lemma_mul_nonnegative(k, s);
    vstd::arithmetic::div_mod::lemma_div_is_ordered(k * s, a, s);
    vstd::arithmetic::div_mod::lemma_div_by_multiple(k, s);
    vstd::arithmetic::mul::lemma_mul_inequality(k, a / s, s);
}

/// Weber quantization preserves sign: quantizing the negation of a value
/// gives the negation of the quantized value.
pub proof fn lemma_weber_quantize_sign(x: int)
    ensures
        spec_weber_quantize(-x) == -spec_weber_quantize(x),
{
    assert(abs_int(-x) == abs_int(x));
}

/// Weber quantization is idempotent: a quantized value quantizes to
/// itself. The one exception is a magnitude in 200..=209, which snaps to
/// 195 — below its own band — so those inputs are excluded.
pub proof fn lemma_weber_quantize_idempotent(x: int)
    requires
        !(200 <= abs_int(x) && abs_int(x) <= 209),
    ensures
        spec_weber_quantize(spec_weber_quantize(x)) == spec_weber_quantize(x),
{
    let a = abs_int(x);
    let s = spec_weber_step(a);
    let qa = (a / s) * s;
    lemma_snap_facts(a, s);
    if a <= 49 {
        assert(spec_weber_step(qa) == s);
    } else if a <= 199 {
        lemma_snap_lower(a, 10, 5);
        assert(spec_weber_step(qa) == s);
    } else if a <= 999 {
        lemma_snap_lower(a, 15, 14);
        assert(spec_weber_step(qa) == s);
    } else {
        lemma_snap_lower(a, 25, 40);
        assert(spec_weber_step(qa) == s);
    }
    assert((qa / s) * s == qa);
    if x >= 0 {
        assert(spec_weber_quantize(x) == qa);
        assert(abs_int(qa) == qa);
    } else {
        assert(spec_weber_quantize(x) == -qa);
        assert(abs_int(-qa) == qa);
    }
}

/// Within one quantization band the Weber fraction is monotonically
/// non-increasing: of two magnitudes with the same step size, the larger
/// has the coarser (smaller or equal) relative resolution.
pub proof fn lemma_weber_fraction_monotone(m1: int, m2: int)
    requires
        0 < m1 <= m2,
        spec_weber_step(m1) == spec_weber_step(m2),
    ensures
        spec_weber_fraction_pct(m1) >= spec_weber_fraction_pct(m2),
{
    let s = spec_weber_step(m1);
    vstd::arithmetic::div_mod::lemma_div_is_ordered_by_denominator(s * 100, m1, m2);
}

/// For a small magnitude — at most half the first band — the Weber
/// fraction dominates that of every larger magnitude, whatever band the
/// larger one falls in: fine stimuli always discriminate relatively more
/// coarsely than their size suggests.
pub proof fn lemma_weber_fraction_small_dominates(m1: int, m2: int)
    requires
        0 < m1 <= 25,
        m1 <= m2,
    ensures
        spec_weber_fraction_pct(m1) >= spec_weber_fraction_pct(m2),
{
    vstd::arithmetic::div_mod::lemma_div_is_ordered_by_denominator(500, m1, 25);
    if m2 <= 49 {
        lemma_weber_fraction_monotone(m1, m2);
    } else if m2 <= 199 {
        vstd::arithmetic::div_mod::lemma_div_is_ordered_by_denominator(1000, 50, m2);
    } else if m2 <= 999 {
        vstd::arithmetic::div_mod::lemma_div_is_ordered_by_denominator(1500, 200, m2);
    } else {
        vstd::arithmetic::div_mod::lemma_div_is_ordered_by_denominator(2500, 1000, m2);
    }
}

/// The Weber step size for a given magnitude: the discrimination
/// resolution at that intensity.
pub fn weber_step(magnitude: u32) -> (r: u32)
    ensures
        r == spec_weber_step(magnitude as int),
{
    if magnitude <= 49 {
        5
    } else if magnitude <= 199 {
        10
    } else if magnitude <= 999 {
        15
    } else {
        25
    }
}

/// The Weber fraction (step over magnitude) as a percentage, capped at
/// 255. Higher means coarser discrimination; magnitude 0 gives 255.
pub fn weber_fraction_pct(magnitude: u32) -> (r: u8)
    ensures
        r == spec_weber_fraction_pct(magnitude as int),
{
    if magnitude == 0 {
        return 255;
    }
    let step = weber_step(magnitude);
    let frac = step * 100 / magnitude;
    if frac <= 255 {
        frac as u8
    } else {
        255
    }
}

} // verus!
