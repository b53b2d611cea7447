use vstd::prelude::*;
use vstd::arithmetic::power2::{lemma2_to64, lemma_pow2_adds, lemma_pow2_strictly_increases, pow2};

verus! {

// The bridge never computes with floating-point values: it moves them
// through as IEEE 754 bit patterns, either unchanged (a double-width value)
// or widened (a single-width value bound as an argument, which the backend
// stores double-width). Widening is exact: every single-width value has a
// double-width representation with the same sign, the same finiteness
// class and the same magnitude.

/// Sign bit of a single-width pattern.
pub open spec fn real_sign(b: u32) -> u32 {
    b >> 31
}

/// Biased exponent field of a single-width pattern.
pub open spec fn real_exp(b: u32) -> u32 {
    (b >> 23) & 0xff
}

/// Fraction field of a single-width pattern.
pub open spec fn real_frac(b: u32) -> u32 {
    b & 0x7fffff
}

/// A single-width pattern holds a finite value (not an infinity, not a NaN).
pub open spec fn real_is_finite(b: u32) -> bool {
    real_exp(b) != 0xff
}

/// Sign bit of a double-width pattern.
pub open spec fn double_sign(d: u64) -> u64 {
    d >> 63
}

/// Biased exponent field of a double-width pattern.
pub open spec fn double_exp(d: u64) -> u64 {
    (d >> 52) & 0x7ff
}

/// Fraction field of a double-width pattern.
pub open spec fn double_frac(d: u64) -> u64 {
    d & 0xf_ffff_ffff_ffff
}

/// A double-width pattern holds a finite value.
pub open spec fn double_is_finite(d: u64) -> bool {
    double_exp(d) != 0x7ff
}

/// The full significand of a finite single-width pattern, with the hidden
/// bit made explicit for normal numbers.
pub open spec fn real_mantissa(b: u32) -> nat {
    if real_exp(b) == 0 {
        real_frac(b) as nat
    } else {
        real_frac(b) as nat + 0x800000
    }
}

/// The magnitude of a finite single-width value, scaled by 2^1200 so that
/// every exponent in range yields a natural number.
pub open spec fn real_scaled(b: u32) -> nat {
    if real_exp(b) == 0 {
        real_mantissa(b) * pow2(1051)
    } else {
        real_mantissa(b) * pow2((real_exp(b) + 1050) as nat)
    }
}

/// The full significand of a finite double-width pattern.
pub open spec fn double_mantissa(d: u64) -> nat {
    if double_exp(d) == 0 {
        double_frac(d) as nat
    } else {
        double_frac(d) as nat + 0x10_0000_0000_0000
    }
}

/// The magnitude of a finite double-width value, scaled by the same 2^1200.
pub open spec fn double_scaled(d: u64) -> nat {
    if double_exp(d) == 0 {
        double_mantissa(d) * pow2(126)
    } else {
        double_mantissa(d) * pow2((double_exp(d) + 125) as nat)
    }
}

/// The normalized significand of a subnormal single-width fraction: the
/// fraction doubled until its hidden-bit position is set.
pub open spec fn norm_mantissa(m: nat) -> nat
    decreases 0x800000 - m,
        when 0 < m < 0x800000
{
    if m * 2 >= 0x800000 {
        m * 2
    } else {
        norm_mantissa(m * 2)
    }
}

/// How many doublings `norm_mantissa` applies.
pub open spec fn norm_shift(m: nat) -> nat
    decreases 0x800000 - m,
        when 0 < m < 0x800000
{
    if m * 2 >= 0x800000 {
        1
    } else {
        1 + norm_shift(m * 2)
    }
}

/// Normalization multiplies by exactly a power of two and lands the
/// significand in the normal range.
pub proof fn lemma_norm(m: nat)
    requires
        0 < m < 0x800000,
    ensures
        norm_mantissa(m) == m * pow2(norm_shift(m)),
        0x800000 <= norm_mantissa(m) < 0x1000000,
        1 <= norm_shift(m) <= 23,
    decreases 0x800000 - m,
{
    lemma2_to64();
    if m * 2 >= 0x800000 {
        assert(pow2(1) == 2);
        assert(norm_mantissa(m) == m * 2);
    } else {
        lemma_norm(m * 2);
        lemma_pow2_adds(1, norm_shift(m * 2));
        assert(m * 2 == m * pow2(1));
        assert(norm_mantissa(m) == (m * pow2(1)) * pow2(norm_shift(m * 2)));
        assert((m * pow2(1)) * pow2(norm_shift(m * 2)) == m * (pow2(1) * pow2(norm_shift(m * 2))))
            by (nonlinear_arith);
        // The shift count stays within the fraction width: a significand of
        // at least 1 doubled more than 23 times would leave the normal range.
        if norm_shift(m) > 23 {
            assert(pow2(norm_shift(m)) >= pow2(24)) by {
                if norm_shift(m) > 24 {
                    lemma_pow2_strictly_increases(24, norm_shift(m));
                }
            }
            assert(m * pow2(norm_shift(m)) >= 1 * pow2(24)) by (nonlinear_arith)
                requires m >= 1 && pow2(norm_shift(m)) >= pow2(24);
            assert(false);
        }
    }
}

/// The double-width pattern that represents exactly the value of the
/// single-width pattern `b`: sign and fraction carried over, exponent
/// rebiased, subnormals normalized, infinities and NaNs mapped to their
/// double-width counterparts.
pub open spec fn spec_widen_real(b: u32) -> u64 {
    let s = (real_sign(b) as u64) << 63;
    let e = real_exp(b);
    let f = real_frac(b);
    if e == 0xff {
        s | (0x7ffu64 << 52) | ((f as u64) << 29)
    } else if e == 0 {
        if f == 0 {
            s
        } else {
            let k = norm_shift(f as nat);
            let m = norm_mantissa(f as nat);
            s | (((897 - k) as u64) << 52) | (((m - 0x800000) as u64) << 29)
        }
    } else {
        s | (((e + 896) as u64) << 52) | ((f as u64) << 29)
    }
}

/// Law (widening is exact): a finite single-width pattern and its widened
/// double-width pattern have the same sign and, on a common scale, the same
/// magnitude; an infinite or NaN pattern widens to an infinite or NaN
/// pattern of the same class.
pub proof fn lemma_widen_real_exact(b: u32)
    ensures
        double_sign(spec_widen_real(b)) == real_sign(b) as u64,
        real_is_finite(b) ==> double_is_finite(spec_widen_real(b)),
        real_is_finite(b) ==> double_scaled(spec_widen_real(b)) == real_scaled(b),
        !real_is_finite(b) ==> double_exp(spec_widen_real(b)) == 0x7ff,
        !real_is_finite(b) ==> (double_frac(spec_widen_real(b)) == 0 <==> real_frac(b) == 0),
{
    lemma2_to64();
    let w = spec_widen_real(b);
    let s = real_sign(b);
    let e = real_exp(b);
    let f = real_frac(b);
    assert(b >> 31 <= 1 && (b >> 23) & 0xff < 0x100 && b & 0x7fffff < 0x800000) by (bit_vector);
    if e == 0xff {
        assert((((s as u64) << 63) | (0x7ffu64 << 52) | ((f as u64) << 29)) >> 63 == s
            && ((((s as u64) << 63) | (0x7ffu64 << 52) | ((f as u64) << 29)) >> 52) & 0x7ff
                == 0x7ff
            && (((s as u64) << 63) | (0x7ffu64 << 52) | ((f as u64) << 29)) & 0xf_ffff_ffff_ffff
                == (f as u64) << 29
            && ((f as u64) << 29 == 0 <==> f == 0)) by (bit_vector)
            requires
                s <= 1 && f < 0x800000,
        ;
    } else if e == 0 && f == 0 {
        assert(((s as u64) << 63) >> 63 == s
            && ((((s as u64) << 63) >> 52) & 0x7ff) == 0
            && (((s as u64) << 63) & 0xf_ffff_ffff_ffff) == 0) by (bit_vector)
            requires
                s <= 1,
        ;
        assert(w == ((s as u64) << 63));
        assert(double_exp(w) == 0);
        assert(double_frac(w) == 0);
        assert(double_mantissa(w) == 0);
        assert(double_scaled(w) == double_mantissa(w) * pow2(126));
        assert(double_scaled(w) == 0);
        assert(real_scaled(b) == 0);
    } else if e == 0 {
        lemma_norm(f as nat);
        let k = norm_shift(f as nat);
        let m = norm_mantissa(f as nat);
        let ke: u64 = (897 - k) as u64;
        let mf: u64 = (m - 0x800000) as u64;
        assert((((s as u64) << 63) | (ke << 52) | (mf << 29)) >> 63 == s
            && ((((s as u64) << 63) | (ke << 52) | (mf << 29)) >> 52) & 0x7ff == ke
            && (((s as u64) << 63) | (ke << 52) | (mf << 29)) & 0xf_ffff_ffff_ffff == mf << 29
            && mf << 29 == mf * 0x2000_0000) by (bit_vector)
            requires
                s <= 1 && mf < 0x800000 && 874 <= ke <= 896,
        ;
        assert(double_mantissa(w) == mf * 0x2000_0000 + 0x10_0000_0000_0000);
        assert(mf * 0x2000_0000 + 0x10_0000_0000_0000 == m * 0x2000_0000);
        assert(double_scaled(w) == (m * pow2(29)) * pow2((1022 - k) as nat));
        lemma_pow2_adds(29, (1022 - k) as nat);
        assert((m * pow2(29)) * pow2((1022 - k) as nat)
            == m * (pow2(29) * pow2((1022 - k) as nat))) by (nonlinear_arith);
        assert(double_scaled(w) == m * pow2((1051 - k) as nat));
        lemma_pow2_adds(k, (1051 - k) as nat);
        assert((f as nat * pow2(k)) * pow2((1051 - k) as nat)
            == f as nat * (pow2(k) * pow2((1051 - k) as nat))) by (nonlinear_arith);
        assert(double_scaled(w) == f as nat * pow2(1051));
        assert(real_scaled(b) == f as nat * pow2(1051));
    } else {
        let ee: u64 = (e + 896) as u64;
        assert((((s as u64) << 63) | (ee << 52) | ((f as u64) << 29)) >> 63 == s
            && ((((s as u64) << 63) | (ee << 52) | ((f as u64) << 29)) >> 52) & 0x7ff == ee
            && (((s as u64) << 63) | (ee << 52) | ((f as u64) << 29)) & 0xf_ffff_ffff_ffff
                == (f as u64) << 29
            && (f as u64) << 29 == f * 0x2000_0000) by (bit_vector)
            requires
                s <= 1 && f < 0x800000 && 897 <= ee <= 0x47e,
        ;
        assert(double_mantissa(w) == f as nat * 0x2000_0000 + 0x10_0000_0000_0000);
        assert(f as nat * 0x2000_0000 + 0x10_0000_0000_0000
            == (f as nat + 0x800000) * 0x2000_0000) by (nonlinear_arith);
        assert(double_scaled(w) == ((f as nat + 0x800000) * pow2(29)) * pow2((e + 1021) as nat));
        lemma_pow2_adds(29, (e + 1021) as nat);
        assert(((f as nat + 0x800000) * pow2(29)) * pow2((e + 1021) as nat)
            == (f as nat + 0x800000) * (pow2(29) * pow2((e + 1021) as nat))) by (nonlinear_arith);
        assert(double_scaled(w) == (f as nat + 0x800000) * pow2((e + 1050) as nat));
        assert(real_scaled(b) == (f as nat + 0x800000) * pow2((e + 1050) as nat));
    }
}

/// Widens a single-width bit pattern to the double-width pattern of the
/// same value, in integer arithmetic.
pub fn widen_real(b: u32) -> (r: u64)
    ensures
        r == spec_widen_real(b),
{
    let s: u64 = ((b >> 31) as u64) << 63;
    let e: u32 = (b >> 23) & 0xff;
    let f: u32 = b & 0x7fffff;
    assert(s == (real_sign(b) as u64) << 63);
    assert((b >> 23) & 0xff < 0x100) by (bit_vector);
    if e == 0xff {
        s | (0x7ffu64 << 52) | ((f as u64) << 29)
    } else if e == 0 {
        if f == 0 {
            s
        } else {
            let ghost fs: nat = f as nat;
            let mut m: u32 = f;
            let mut k: u32 = 0;
            proof {
                lemma2_to64();
                assert(b & 0x7fffff < 0x800000) by (bit_vector);
            }
            while m < 0x400000
                invariant
                    0 < m < 0x800000,
                    0 < fs < 0x800000,
                    norm_mantissa(fs) == norm_mantissa(m as nat),
                    norm_shift(fs) == k + norm_shift(m as nat),
                    k <= 23,
                decreases 0x800000 - m,
            {
                proof {
                    lemma_norm(m as nat);
                    lemma_norm((m * 2) as nat);
                    lemma_norm(fs);
                }
                m = m * 2;
                k = k + 1;
            }
            proof {
                lemma_norm(m as nat);
                lemma_norm(fs);
            }
            m = m * 2;
            k = k + 1;
            s | (((897 - k) as u64) << 52) | (((m - 0x800000) as u64) << 29)
        }
    } else {
        s | (((e + 896) as u64) << 52) | ((f as u64) << 29)
    }
}

} // verus!
