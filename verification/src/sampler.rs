//! The Zipf sampler: parameter validation, the precomputed state, and
//! the per-round decisions of the rejection-inversion loop.
//!
//! A sampler for a population of `N` elements and an exponent `s > 0`
//! holds five precomputed scalars, fixed at construction: the
//! population size both as an integer and as its IEEE-754 encoding,
//! the exponent, the two endpoints `H(1.5) - 1` and `H(N + 0.5)` of
//! the interval the uniform draws are mapped into, and the shortcut
//! threshold `2 - H⁻¹(H(2.5) - h(2))` — `H` being the integral of the
//! density-shape function `h(x) = x^(-s)`. The caller that owns the
//! uniform random source and the transcendental functions drives the
//! rejection loop; each round it maps a fresh draw to `u` in
//! `(H(1.5) - 1, H(N + 0.5)]`, inverts it to `x = H⁻¹(u)`, and hands
//! `x` to [`ZipfDistribution::locate`], which clamps it into `[1, N]`
//! and rounds it to the candidate rank `k`. The round ends with
//! [`accept`] on the two acceptance tests (`k - x <= threshold`, or
//! `u >= H(k + 0.5) - h(k)`), returning `k` or asking for another
//! draw.

use vstd::prelude::*;

use crate::fbits;

verus! {

/// Why construction of a sampler was refused.
#[derive(Clone, Copy, Debug, PartialEq, Eq, Structural)]
pub enum ConstructionError {
    /// The population size was zero; the sampler draws from `[1, N]`
    /// and needs at least one element.
    ZeroPopulation,
    /// The exponent was not strictly positive; the distribution needs
    /// `s > 0`.
    NonPositiveExponent,
}

/// A Zipf-distributed random number generator over ranks `[1, N]`,
/// immutable once constructed. Every real-valued field holds the
/// 64-bit IEEE-754 encoding of its value.
#[derive(Clone, Copy, Debug, PartialEq, Eq, Structural)]
pub struct ZipfDistribution {
    /// The population size `N`, at least 1.
    pub num_elements: usize,
    /// The population size as an encoded real, used to clamp
    /// candidates from above.
    pub num_elements_bits: u64,
    /// The exponent `s` of the distribution, strictly positive.
    pub exponent_bits: u64,
    /// The precomputed constant `H(1.5) - 1`.
    pub h_integral_x1_bits: u64,
    /// The precomputed constant `H(N + 0.5)`.
    pub h_integral_num_elements_bits: u64,
    /// The precomputed shortcut threshold `2 - H⁻¹(H(2.5) - h(2))`.
    pub s_threshold_bits: u64,
}

impl ZipfDistribution {
    /// The invariant every constructed sampler has: a population of at
    /// least one element whose encoding is a finite real of at least
    /// one, and a strictly positive exponent.
    pub open spec fn wf(self) -> bool {
        &&& self.num_elements >= 1
        &&& fbits::encodes_finite_at_least_one(self.num_elements_bits)
        &&& !fbits::encodes_nonpositive(self.exponent_bits)
    }

    /// Builds a sampler from the population size, its encoding as a
    /// real, the encoded exponent, and the three encoded constants the
    /// caller precomputed from them.
    ///
    /// Construction fails with [`ConstructionError::ZeroPopulation`]
    /// exactly when the population is empty, otherwise with
    /// [`ConstructionError::NonPositiveExponent`] exactly when the
    /// encoded exponent is nonpositive; on every other input it
    /// succeeds, stores the five scalars unchanged, and never touches
    /// a random source.
    pub fn new(
        num_elements: usize,
        num_elements_bits: u64,
        exponent_bits: u64,
        h_integral_x1_bits: u64,
        h_integral_num_elements_bits: u64,
        s_threshold_bits: u64,
    ) -> (r: Result<ZipfDistribution, ConstructionError>)
        requires
            num_elements >= 1 ==> fbits::encodes_finite_at_least_one(num_elements_bits),
        ensures
            match r {
                Ok(d) => {
                    &&& num_elements >= 1
                    &&& !fbits::encodes_nonpositive(exponent_bits)
                    &&& d == (ZipfDistribution {
                        num_elements,
                        num_elements_bits,
                        exponent_bits,
                        h_integral_x1_bits,
                        h_integral_num_elements_bits,
                        s_threshold_bits,
                    })
                    &&& d.wf()
                },
                Err(e) => {
                    ||| (num_elements == 0 && e == ConstructionError::ZeroPopulation)
                    ||| (num_elements >= 1 && fbits::encodes_nonpositive(exponent_bits)
                        && e == ConstructionError::NonPositiveExponent)
                },
            },
    {
        if num_elements == 0 {
            return Err(ConstructionError::ZeroPopulation);
        }
        if fbits::is_nonpositive(exponent_bits) {
            return Err(ConstructionError::NonPositiveExponent);
        }
        Ok(ZipfDistribution {
            num_elements,
            num_elements_bits,
            exponent_bits,
            h_integral_x1_bits,
            h_integral_num_elements_bits,
            s_threshold_bits,
        })
    }

    /// What the clamping half of [`locate`] returns: the encoded
    /// candidate, raised to `1.0` if it falls below it or is a NaN,
    /// then lowered to the encoded population size if it exceeds it.
    /// Both comparisons are the unsigned order of the encodings, which
    /// on the nonnegative non-NaN values involved is the IEEE-754
    /// order.
    pub open spec fn spec_clamp(self, x_bits: u64) -> u64 {
        let lower = if fbits::is_nan_bits(x_bits) || fbits::encodes_below_one(x_bits) {
            fbits::ONE_BITS
        } else {
            x_bits
        };
        if lower > self.num_elements_bits {
            self.num_elements_bits
        } else {
            lower
        }
    }

    /// What the rounding half of [`locate`] returns: the clamped
    /// encoding rounded by adding one half and truncating, kept at
    /// least 1, and clamped to the population size where the rounding
    /// overshot it.
    pub open spec fn spec_candidate(self, x_bits: u64) -> usize {
        let k0 = fbits::spec_round_half_up(self.spec_clamp(x_bits));
        let k1: u64 = if k0 < 1 { 1u64 } else { k0 };
        if k1 > self.num_elements as u64 {
            self.num_elements
        } else {
            k1 as usize
        }
    }

    /// Turns one inverted draw `x = H⁻¹(u)` into a candidate rank.
    ///
    /// Returns the pair of the clamped encoding of `x` — guarded into
    /// `[1.0, N]` against numerical overshoot, a NaN included — and
    /// the candidate rank `k`, obtained from the clamped value by
    /// adding one half and truncating, then clamping the rank into
    /// `[1, N]`. The caller needs the clamped encoding as well as the
    /// rank, since the shortcut acceptance test compares `k - x`
    /// against the shortcut threshold.
    pub fn locate(&self, x_bits: u64) -> (r: (u64, usize))
        requires
            self.wf(),
        ensures
            r.0 == self.spec_clamp(x_bits),
            r.1 == self.spec_candidate(x_bits),
            1 <= r.1 <= self.num_elements,
    {
        let nan = (x_bits >> 52) & 0x7ff == 0x7ff && x_bits & 0xf_ffff_ffff_ffff != 0;
        let below_one = !nan
            && (x_bits >> 63 == 1 || x_bits & 0x7fff_ffff_ffff_ffff < fbits::ONE_BITS);
        let lower = if nan || below_one {
            fbits::ONE_BITS
        } else {
            x_bits
        };
        let clamped = if lower > self.num_elements_bits {
            self.num_elements_bits
        } else {
            lower
        };
        proof {
            self.lemma_clamp_well_formed(x_bits);
        }
        let k0 = fbits::round_half_up(clamped);
        let k1 = if k0 < 1 { 1u64 } else { k0 };
        let k = if k1 > self.num_elements as u64 {
            self.num_elements
        } else {
            k1 as usize
        };
        (clamped, k)
    }

    /// The clamped encoding is a finite real of at least one, so a
    /// candidate rank can be read off it.
    proof fn lemma_clamp_well_formed(self, x_bits: u64)
        requires
            self.wf(),
        ensures
            fbits::encodes_finite_at_least_one(self.spec_clamp(x_bits)),
    {
        let n = self.num_elements_bits;
        let c = self.spec_clamp(x_bits);
        assert(fbits::encodes_finite_at_least_one(fbits::ONE_BITS)) by (bit_vector);
        if !(fbits::is_nan_bits(x_bits) || fbits::encodes_below_one(x_bits)) && x_bits <= n {
            assert(fbits::encodes_finite_at_least_one(x_bits)) by (bit_vector)
                requires
                    x_bits <= n,
                    !((x_bits >> 52) & 0x7ff == 0x7ff && x_bits & 0xf_ffff_ffff_ffff != 0),
                    !(x_bits >> 63 == 1 || x_bits & 0x7fff_ffff_ffff_ffff < 0x3ff0_0000_0000_0000u64),
                    (n >> 52) & 0x7ff != 0x7ff,
                    n >> 63 == 0,
            ;
        }
    }
}

/// What [`accept`] returns: the rank where either acceptance test
/// held, nothing where both failed.
pub open spec fn spec_accept(k: usize, shortcut_holds: bool, exact_holds: bool) -> Option<usize> {
    if shortcut_holds || exact_holds {
        Some(k)
    } else {
        None
    }
}

/// Ends one round of the rejection loop: accepts the candidate rank
/// `k` exactly when the shortcut test `k - x <= threshold` or the
/// exact test `u >= H(k + 0.5) - h(k)` held, and asks for a fresh draw
/// otherwise. The shortcut never accepts a rank the exact test would
/// refuse, so the caller may skip the exact test — passing false —
/// whenever the shortcut already held.
pub fn accept(k: usize, shortcut_holds: bool, exact_holds: bool) -> (r: Option<usize>)
    ensures
        r == spec_accept(k, shortcut_holds, exact_holds),
{
    if shortcut_holds || exact_holds {
        Some(k)
    } else {
        None
    }
}

/// Law: whatever real the inversion step produced and however the
/// acceptance tests came out, a sampler only ever yields ranks inside
/// its population: the candidate lies in `[1, N]`, and so does every
/// accepted rank.
pub proof fn lemma_sample_within_population(
    d: ZipfDistribution,
    x_bits: u64,
    shortcut_holds: bool,
    exact_holds: bool,
)
    requires
        d.wf(),
    ensures
        1 <= d.spec_candidate(x_bits) <= d.num_elements,
        spec_accept(d.spec_candidate(x_bits), shortcut_holds, exact_holds) matches Some(k)
            ==> 1 <= k <= d.num_elements,
{
}

/// Law: a population of a single element only ever yields rank 1,
/// whatever the exponent, the draw, or the outcome of the acceptance
/// tests.
pub proof fn lemma_single_element_population(
    d: ZipfDistribution,
    x_bits: u64,
    shortcut_holds: bool,
    exact_holds: bool,
)
    requires
        d.wf(),
        d.num_elements == 1,
    ensures
        d.spec_candidate(x_bits) == 1,
        spec_accept(d.spec_candidate(x_bits), shortcut_holds, exact_holds) matches Some(k)
            ==> k == 1,
{
}

/// Law: the sampler holds no state beyond its five construction-time
/// scalars, so two samplers built from the same parameters make the
/// same decision on every draw: equal states clamp alike, locate the
/// same candidate rank, and accept alike.
pub proof fn lemma_deterministic_decisions(
    d1: ZipfDistribution,
    d2: ZipfDistribution,
    x_bits: u64,
    shortcut_holds: bool,
    exact_holds: bool,
)
    requires
        d1 == d2,
    ensures
        d1.spec_clamp(x_bits) == d2.spec_clamp(x_bits),
        d1.spec_candidate(x_bits) == d2.spec_candidate(x_bits),
        spec_accept(d1.spec_candidate(x_bits), shortcut_holds, exact_holds)
            == spec_accept(d2.spec_candidate(x_bits), shortcut_holds, exact_holds),
{
}

} // verus!
