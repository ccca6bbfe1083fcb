//! End-to-end tests: the transcendental side of the algorithm lives
//! here (as it does in any caller of the library), the decisions come
//! from the verified crate, and the resulting draws are held against
//! the Zipf distribution.

use rand::Rng;
use zipf::{ConstructionError, ZipfDistribution};

/// `log(1 + x) / x`, by Taylor expansion where `|x| <= 1e-8`.
fn helper1(x: f64) -> f64 {
    if zipf::within_taylor_threshold(x.to_bits()) {
        1.0 - x * (0.5 - x * (1.0 / 3.0 - 0.25 * x))
    } else {
        x.ln_1p() / x
    }
}

/// `(exp(x) - 1) / x`, by Taylor expansion where `|x| <= 1e-8`.
fn helper2(x: f64) -> f64 {
    if zipf::within_taylor_threshold(x.to_bits()) {
        1.0 + x * 0.5 * (1.0 + x * 1.0 / 3.0 * (1.0 + 0.25 * x))
    } else {
        x.exp_m1() / x
    }
}

/// `H(x) = (x^(1 - s) - 1) / (1 - s)`, and `log(x)` in the limit `s = 1`.
fn h_integral(x: f64, exponent: f64) -> f64 {
    let log_x = x.ln();
    helper2((1.0 - exponent) * log_x) * log_x
}

/// `h(x) = x^(-s)`.
fn h(x: f64, exponent: f64) -> f64 {
    (-exponent * x.ln()).exp()
}

/// The inverse of `H`, its argument clamped to `[-1, +inf)`.
fn h_integral_inv(x: f64, exponent: f64) -> f64 {
    let t = f64::from_bits(zipf::clamp_inversion_argument((x * (1.0 - exponent)).to_bits()));
    (helper1(t) * x).exp()
}

fn make(num_elements: usize, exponent: f64) -> Result<ZipfDistribution, ConstructionError> {
    ZipfDistribution::new(
        num_elements,
        (num_elements as f64).to_bits(),
        exponent.to_bits(),
        (h_integral(1.5, exponent) - 1.0).to_bits(),
        h_integral(num_elements as f64 + 0.5, exponent).to_bits(),
        (2.0 - h_integral_inv(h_integral(2.5, exponent) - h(2.0, exponent), exponent)).to_bits(),
    )
}

fn sample<R: Rng + ?Sized>(d: &ZipfDistribution, rng: &mut R) -> usize {
    let exponent = f64::from_bits(d.exponent_bits);
    let hnum = f64::from_bits(d.h_integral_num_elements_bits);
    let hx1 = f64::from_bits(d.h_integral_x1_bits);
    let threshold = f64::from_bits(d.s_threshold_bits);
    loop {
        let u: f64 = hnum + rng.gen::<f64>() * (hx1 - hnum);
        let x = h_integral_inv(u, exponent);
        let (clamped_bits, k) = d.locate(x.to_bits());
        let clamped = f64::from_bits(clamped_bits);
        let shortcut = k as f64 - clamped <= threshold;
        let exact = if shortcut {
            false
        } else {
            u >= h_integral(k as f64 + 0.5, exponent) - h(k as f64, exponent)
        };
        if let Some(v) = zipf::sampler::accept(k, shortcut, exact) {
            return v;
        }
    }
}

/// Samples a population of 100 and holds every empirical frequency to
/// the theoretical `k^(-s) / H_N(s)`, within 0.1 in absolute terms and
/// within half of the expected frequency.
fn check_distribution(alpha: f64) {
    let n: usize = 100;
    let samples: usize = 5_000_000;

    let mut rng = rand::thread_rng();
    let d = make(n, alpha).unwrap();

    let harmonic: f64 = (1..=n).map(|k| 1.0 / (k as f64).powf(alpha)).sum();

    let mut buckets: Vec<u64> = vec![0; n];
    for _ in 0..samples {
        let s = sample(&d, &mut rng);
        assert!(1 <= s && s <= n, "sample {s} out of [1, {n}]");
        buckets[s - 1] += 1;
    }

    for i in 0..n {
        let freq = buckets[i] as f64 / samples as f64;
        let expected = (1.0 / ((i + 1) as f64).powf(alpha)) / harmonic;
        let off_by = (expected - freq).abs();
        assert!(off_by < 0.1, "got {freq}, expected {expected} for k = {}", i + 1);
        assert!(
            off_by < 0.5 * expected,
            "got {freq}, expected {expected} for k = {}",
            i + 1
        );
    }
}

#[test]
fn one() {
    check_distribution(1.00);
}

#[test]
fn two() {
    check_distribution(2.00);
}

#[test]
fn float() {
    check_distribution(1.08);
}

#[test]
fn debug() {
    println!("{:?}", make(100, 1.0).unwrap());
}

#[test]
fn errs() {
    make(0, 1.0).unwrap_err();
    make(100, 0.0).unwrap_err();
    make(100, -1.0).unwrap_err();
}

#[test]
fn construction_error_kinds() {
    assert_eq!(make(0, 1.0).unwrap_err(), ConstructionError::ZeroPopulation);
    assert_eq!(make(0, 0.0).unwrap_err(), ConstructionError::ZeroPopulation);
    assert_eq!(make(0, -3.5).unwrap_err(), ConstructionError::ZeroPopulation);
    assert_eq!(make(100, 0.0).unwrap_err(), ConstructionError::NonPositiveExponent);
    assert_eq!(make(100, -0.0).unwrap_err(), ConstructionError::NonPositiveExponent);
    assert_eq!(make(100, -1.0).unwrap_err(), ConstructionError::NonPositiveExponent);
    assert_eq!(
        make(100, f64::NEG_INFINITY).unwrap_err(),
        ConstructionError::NonPositiveExponent
    );
    assert!(make(1, 0.001).is_ok());
    assert!(make(1000, 1.03).is_ok());
    assert!(make(usize::MAX, 2.0).is_ok());
}

#[test]
fn single_element_always_one() {
    let mut rng = rand::thread_rng();
    for &alpha in [0.5, 1.0, 3.0].iter() {
        let d = make(1, alpha).unwrap();
        for _ in 0..2000 {
            assert_eq!(sample(&d, &mut rng), 1);
        }
    }
}

#[test]
fn bounded_scenario() {
    let mut rng = rand::thread_rng();
    let d = make(1000, 1.03).unwrap();
    for _ in 0..20000 {
        let s = sample(&d, &mut rng);
        assert!(1 <= s && s <= 1000, "sample {s} out of [1, 1000]");
    }
    assert!(make(0, 1.0).is_err());
    assert!(make(100, 0.0).is_err());
    assert!(make(100, -1.0).is_err());
}

/// A small deterministic generator, so two runs can be fed the very
/// same sequence of uniform draws.
struct SplitMix {
    state: u64,
}

impl rand::RngCore for SplitMix {
    fn next_u32(&mut self) -> u32 {
        (self.next_u64() >> 32) as u32
    }

    fn next_u64(&mut self) -> u64 {
        self.state = self.state.wrapping_add(0x9e3779b97f4a7c15);
        let mut z = self.state;
        z = (z ^ (z >> 30)).wrapping_mul(0xbf58476d1ce4e5b9);
        z = (z ^ (z >> 27)).wrapping_mul(0x94d049bb133111eb);
        z ^ (z >> 31)
    }

    fn fill_bytes(&mut self, dest: &mut [u8]) {
        for chunk in dest.chunks_mut(8) {
            let bytes = self.next_u64().to_le_bytes();
            chunk.copy_from_slice(&bytes[..chunk.len()]);
        }
    }

    fn try_fill_bytes(&mut self, dest: &mut [u8]) -> Result<(), rand::Error> {
        self.fill_bytes(dest);
        Ok(())
    }
}

#[test]
fn fixed_draws_determinism() {
    let first = make(500, 1.2).unwrap();
    let second = make(500, 1.2).unwrap();
    let mut rng_a = SplitMix { state: 42 };
    let mut rng_b = SplitMix { state: 42 };
    for _ in 0..2000 {
        assert_eq!(sample(&first, &mut rng_a), sample(&second, &mut rng_b));
    }
}

#[test]
fn exponent_one_is_finite() {
    let d = make(1000, 1.0).unwrap();
    for bits in [
        d.h_integral_x1_bits,
        d.h_integral_num_elements_bits,
        d.s_threshold_bits,
    ] {
        let v = f64::from_bits(bits);
        assert!(v.is_finite(), "constant {v} is not finite");
        assert!(!v.is_nan(), "constant is NaN");
    }
    // at s = 1 the transform argument collapses to zero, which must
    // take the Taylor branch and stay exact
    assert!(zipf::within_taylor_threshold((0.0f64).to_bits()));
    assert!((h_integral(f64::exp(1.0), 1.0) - 1.0).abs() < 1e-12);
    let mut rng = rand::thread_rng();
    for _ in 0..2000 {
        let s = sample(&d, &mut rng);
        assert!(1 <= s && s <= 1000);
    }
}
