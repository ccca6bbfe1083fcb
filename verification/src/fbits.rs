//! Decisions on IEEE-754 double-precision bit patterns.
//!
//! The sampling algorithm works on real numbers carried as IEEE-754
//! `binary64` values. This module holds such a value as its 64-bit
//! encoding (sign bit, 11-bit biased exponent, 52-bit fraction) and
//! makes the comparisons the algorithm needs directly on that encoding,
//! so that each decision has an exact, verified statement:
//!
//! * a value is zero exactly when its magnitude bits are zero;
//! * a NaN has biased exponent `0x7ff` and a nonzero fraction, and
//!   compares false under every ordering comparison;
//! * for non-NaN values of equal sign, the order of the magnitudes is
//!   the unsigned order of the magnitude bits.

use vstd::prelude::*;

verus! {

/// Encoding of `1.0`.
pub const ONE_BITS: u64 = 0x3ff0_0000_0000_0000;

/// Encoding of `-1.0`.
pub const NEG_ONE_BITS: u64 = 0xbff0_0000_0000_0000;

/// Encoding of `1e-8`, the cutover below which the numerically stable
/// helper functions of the algorithm switch to their Taylor expansions.
pub const TAYLOR_THRESHOLD_BITS: u64 = 0x3e45_798e_e230_8c3a;

/// The sign bit of an encoded value: 1 for negative values (and for
/// NaNs whose payload carries a set sign bit).
pub open spec fn sign_bit(bits: u64) -> u64 {
    bits >> 63
}

/// The 11-bit biased exponent field.
pub open spec fn biased_exponent(bits: u64) -> u64 {
    (bits >> 52) & 0x7ff
}

/// The 52-bit fraction field.
pub open spec fn fraction_field(bits: u64) -> u64 {
    bits & 0xf_ffff_ffff_ffff
}

/// The encoding with the sign bit cleared: the bits of the magnitude.
pub open spec fn magnitude_bits(bits: u64) -> u64 {
    bits & 0x7fff_ffff_ffff_ffff
}

/// Whether the encoded value is a NaN: biased exponent all ones and a
/// nonzero fraction.
pub open spec fn is_nan_bits(bits: u64) -> bool {
    biased_exponent(bits) == 0x7ff && fraction_field(bits) != 0
}

/// Whether the encoded value is a finite number (neither NaN nor an
/// infinity).
pub open spec fn is_finite_bits(bits: u64) -> bool {
    biased_exponent(bits) != 0x7ff
}

/// Whether the encoded value compares less than or equal to zero.
///
/// That holds of the two zeroes (magnitude bits zero) and of every
/// negative non-NaN value; a NaN compares false against zero.
pub open spec fn encodes_nonpositive(bits: u64) -> bool {
    magnitude_bits(bits) == 0 || (sign_bit(bits) == 1 && !is_nan_bits(bits))
}

/// Whether the encoded value compares less than `1.0`: either it is
/// negative or zero of either sign, or it is a nonnegative value whose
/// magnitude bits fall below those of `1.0`. A NaN compares false.
pub open spec fn encodes_below_one(bits: u64) -> bool {
    !is_nan_bits(bits) && (sign_bit(bits) == 1 || magnitude_bits(bits) < ONE_BITS)
}

/// Whether the encoded value compares less than `-1.0`: negative, not a
/// NaN, and of magnitude strictly above `1.0`.
pub open spec fn encodes_below_neg_one(bits: u64) -> bool {
    sign_bit(bits) == 1 && !is_nan_bits(bits) && magnitude_bits(bits) > ONE_BITS
}

/// Whether the encoded value is finite and at least `1.0`: not a NaN or
/// an infinity, nonnegative, and of magnitude at least that of `1.0`.
pub open spec fn encodes_finite_at_least_one(bits: u64) -> bool {
    is_finite_bits(bits) && sign_bit(bits) == 0 && magnitude_bits(bits) >= ONE_BITS
}

/// Decides whether an encoded value is less than or equal to zero, as
/// the IEEE-754 comparison `v <= 0.0` does: true for both zeroes and
/// for negative numbers and the negative infinity, false for positive
/// values and for every NaN.
pub fn is_nonpositive(bits: u64) -> (r: bool)
    ensures
        r == encodes_nonpositive(bits),
{
    bits & 0x7fff_ffff_ffff_ffff == 0
        || (bits >> 63 == 1 && !((bits >> 52) & 0x7ff == 0x7ff && bits & 0xf_ffff_ffff_ffff != 0))
}

/// Decides whether the magnitude of an encoded value is at most `1e-8`,
/// as the IEEE-754 comparison `v.abs() <= 1e-8` does. The algorithm's
/// helper functions switch to their Taylor expansions exactly on these
/// inputs. For nonnegative non-NaN values the IEEE-754 order agrees
/// with the unsigned order of the encodings, so the magnitude bits are
/// compared against the encoding of `1e-8` directly; the magnitude bits
/// of a NaN exceed those of every finite value, so a NaN correctly
/// falls outside the threshold.
pub fn within_taylor_threshold(bits: u64) -> (r: bool)
    ensures
        r == (magnitude_bits(bits) <= TAYLOR_THRESHOLD_BITS),
{
    bits & 0x7fff_ffff_ffff_ffff <= TAYLOR_THRESHOLD_BITS
}

/// What [`round_half_up`] returns: the encoded value plus one half —
/// the sum taken with IEEE-754 round-to-nearest, ties-to-even — then
/// truncated toward zero, saturated to `u64::MAX`.
///
/// For an encoded value `x >= 1.0` with biased exponent `e` and
/// implicit-bit mantissa `m` (so `x = m * 2^(e - 1075)`):
///
/// * `e >= 1076`: `x` is an integer, and a unit in its last place is
///   at least `2`, so the sum `x + 0.5` rounds back to `x`; the
///   result is `m` shifted into place, or `u64::MAX` once the value
///   reaches `2^64`;
/// * `e == 1075`: `x` is the integer `m`, and `x + 0.5` falls exactly
///   between `m` and `m + 1`, which IEEE-754 resolves to the even
///   neighbour;
/// * `e <= 1074`: `x + 0.5` is exact, and truncating it adds one to
///   the integer part exactly when the first fractional bit is set.
pub open spec fn spec_round_half_up(bits: u64) -> u64 {
    let e = biased_exponent(bits);
    let m = fraction_field(bits) | 0x10_0000_0000_0000;
    if e >= 1076 {
        if e >= 1087 {
            u64::MAX
        } else {
            m << ((e - 1075) as u64)
        }
    } else if e == 1075 {
        if m & 1 == 0 {
            m
        } else {
            (m + 1) as u64
        }
    } else {
        let sh = (1075 - e) as u64;
        let i = m >> sh;
        if (m >> ((sh - 1) as u64)) & 1 == 1 {
            (i + 1) as u64
        } else {
            i
        }
    }
}

/// Computes the integer that the conversion `(x + 0.5) as u64` of Rust
/// yields for a finite encoded value `x >= 1.0`: the addition of the
/// IEEE-754 literal one half, truncated toward zero, saturated at
/// `u64::MAX` where the sum reaches `2^64`. The branches follow the
/// shape of the encoding; see [`spec_round_half_up`].
pub fn round_half_up(bits: u64) -> (r: u64)
    requires
        encodes_finite_at_least_one(bits),
    ensures
        r == spec_round_half_up(bits),
{
    let e = (bits >> 52) & 0x7ff;
    let m = (bits & 0xf_ffff_ffff_ffff) | 0x10_0000_0000_0000;
    proof {
        assert(e >= 1023 && m <= 0x1f_ffff_ffff_ffff) by (bit_vector)
            requires
                e == (bits >> 52) & 0x7ff,
                m == (bits & 0xf_ffff_ffff_ffff) | 0x10_0000_0000_0000,
                bits >> 63 == 0,
                bits & 0x7fff_ffff_ffff_ffff >= 0x3ff0_0000_0000_0000,
        ;
    }
    if e >= 1076 {
        if e >= 1087 {
            u64::MAX
        } else {
            m << (e - 1075)
        }
    } else if e == 1075 {
        if m & 1 == 0 {
            m
        } else {
            m + 1
        }
    } else {
        let sh = 1075 - e;
        let i = m >> sh;
        proof {
            assert(m >> sh <= m) by (bit_vector);
        }
        if (m >> (sh - 1)) & 1 == 1 {
            i + 1
        } else {
            i
        }
    }
}

/// What [`clamp_inversion_argument`] returns: the encoding of `-1.0`
/// for values below `-1.0`, the input encoding otherwise.
pub open spec fn spec_clamp_inversion_argument(bits: u64) -> u64 {
    if encodes_below_neg_one(bits) {
        NEG_ONE_BITS
    } else {
        bits
    }
}

/// Clamps the argument of the inverse integral transform to the domain
/// `[-1.0, +inf)`, replacing an encoded value below `-1.0` — a rare
/// numerical excursion — by `-1.0` exactly, and passing every other
/// value (a NaN included, as the IEEE-754 comparison `v < -1.0` is
/// false on it) through unchanged.
pub fn clamp_inversion_argument(bits: u64) -> (r: u64)
    ensures
        r == spec_clamp_inversion_argument(bits),
{
    let negative = bits >> 63 == 1;
    let nan = (bits >> 52) & 0x7ff == 0x7ff && bits & 0xf_ffff_ffff_ffff != 0;
    let magnitude = bits & 0x7fff_ffff_ffff_ffff;
    if negative && !nan && magnitude > ONE_BITS {
        NEG_ONE_BITS
    } else {
        bits
    }
}

} // verus!
