//! Affine transforms, pattern parameters, and the conversion from small
//! integers to their 32-bit float bit patterns.
//!
//! Scalars that the GPU reads as 32-bit floats are carried as `u32` bit
//! patterns everywhere in this crate. Arithmetic on such scalars is the
//! business of the callers and of the GPU kernels; the encoding only
//! stores, compares and relocates them. The one conversion the encoding
//! itself must perform is from a small stream index to the float with the
//! same value (dash-array bounds and image rectangles are written to the
//! streams in float form), and that conversion is exact for integers
//! below 2^24, where every integer is representable.

use vstd::arithmetic::power2::{
    lemma2_to64, lemma_pow2_adds, lemma_pow2_pos, lemma_pow2_strictly_increases, pow2,
};
use vstd::prelude::*;

verus! {

/// Bit pattern of `1.0f32`.
pub const F32_BITS_ONE: u32 = 0x3F80_0000;

/// Bit pattern of `-1.0f32`, the line-width sentinel for non-zero fills.
pub const F32_BITS_NEG_ONE: u32 = 0xBF80_0000;

/// Bit pattern of `-2.0f32`, the line-width sentinel for even-odd fills.
pub const F32_BITS_NEG_TWO: u32 = 0xC000_0000;

/// Integers strictly below this bound have an exact 32-bit float
/// representation (2^24).
pub const F32_EXACT_LIMIT: u32 = 0x100_0000;

/// An affine transformation, stored as the IEEE-754 bit patterns of its
/// six 32-bit float entries: a 2x2 linear part and a translation.
///
/// Two transforms are equal exactly when their bit patterns are equal;
/// the deduplication in the encoder compares representations, not
/// numeric float values.
#[derive(Clone, Copy, PartialEq, Eq, Structural, Debug)]
pub struct Transform {
    /// Bit pattern of the first column's x entry of the 2x2 matrix.
    pub m0: u32,
    /// Bit pattern of the first column's y entry of the 2x2 matrix.
    pub m1: u32,
    /// Bit pattern of the second column's x entry of the 2x2 matrix.
    pub m2: u32,
    /// Bit pattern of the second column's y entry of the 2x2 matrix.
    pub m3: u32,
    /// Bit pattern of the x translation.
    pub t0: u32,
    /// Bit pattern of the y translation.
    pub t1: u32,
}

impl Transform {
    /// The identity transform, as a spec value.
    pub open spec fn spec_identity() -> Transform {
        Transform { m0: F32_BITS_ONE, m1: 0, m2: 0, m3: F32_BITS_ONE, t0: 0, t1: 0 }
    }

    /// The identity transform.
    pub fn identity() -> (r: Transform)
        ensures
            r == Transform::spec_identity(),
    {
        Transform { m0: F32_BITS_ONE, m1: 0, m2: 0, m3: F32_BITS_ONE, t0: 0, t1: 0 }
    }
}

/// Parameters of one pattern bracket: pivot offset, per-axis box scale
/// and rotation, all as float bit patterns, plus the screen-space flag.
#[derive(Clone, Copy, PartialEq, Eq, Structural, Debug)]
pub struct PatternData {
    /// Bit pattern of the x pivot offset from the clip boundary.
    pub start_x: u32,
    /// Bit pattern of the y pivot offset from the clip boundary.
    pub start_y: u32,
    /// Bit pattern of the x box scale.
    pub box_scale_x: u32,
    /// Bit pattern of the y box scale.
    pub box_scale_y: u32,
    /// Bit pattern of the rotation, in radians, normalized to [0, 2*pi).
    pub rotate: u32,
    /// 1 when the pattern body renders in screen space, else 0.
    pub is_screen_space: u32,
}

/// Floor of the base-2 logarithm; 0 for inputs below 2.
pub open spec fn spec_ilog2(n: nat) -> nat
    decreases n,
{
    if n <= 1 {
        0
    } else {
        1 + spec_ilog2(n / 2)
    }
}

/// The defining property of `spec_ilog2`: it brackets `n` between two
/// consecutive powers of two.
pub proof fn lemma_ilog2_bounds(n: nat)
    requires
        n >= 1,
    ensures
        pow2(spec_ilog2(n)) <= n < pow2(spec_ilog2(n) + 1),
    decreases n,
{
    if n <= 1 {
        lemma2_to64();
    } else {
        lemma_ilog2_bounds(n / 2);
        let k = spec_ilog2(n / 2);
        lemma_pow2_adds(k, 1);
        lemma2_to64();
        assert(pow2(k + 1) == pow2(k) * 2);
        lemma_pow2_adds(k + 1, 1);
        assert(pow2(k + 2) == pow2(k + 1) * 2);
        assert(n / 2 >= pow2(k));
        assert(n >= 2 * (n / 2));
        assert(n < 2 * (n / 2) + 2);
        assert(n < 2 * pow2(k + 1));
    }
}

/// The IEEE-754 single-precision bit pattern whose float value equals
/// `n`, defined for integers with an exact representation. Zero maps to
/// the positive-zero pattern; a positive `n` is split into a biased
/// exponent of `127 + ilog2(n)` and a 23-bit mantissa.
pub open spec fn spec_f32_bits_of_small(n: nat) -> nat
    recommends
        n < F32_EXACT_LIMIT,
{
    if n == 0 {
        0
    } else {
        let k = spec_ilog2(n);
        ((127 + k) * 0x80_0000 + (n * pow2((23 - k) as nat) - 0x80_0000)) as nat
    }
}

/// Computes `pow2(e)` for exponents up to 23.
fn pow2_small(e: u32) -> (r: u32)
    requires
        e <= 23,
    ensures
        r == pow2(e as nat),
{
    let mut p: u32 = 1;
    let mut i: u32 = 0;
    proof {
        lemma2_to64();
    }
    while i < e
        invariant
            i <= e <= 23,
            p == pow2(i as nat),
        decreases e - i,
    {
        proof {
            lemma_pow2_adds(i as nat, 1);
            lemma2_to64();
            lemma_pow2_strictly_increases(i as nat, 24);
        }
        p = p * 2;
        i = i + 1;
    }
    p
}

/// Returns the bit pattern of the 32-bit float whose value is exactly
/// `n`. Exactness is why the input must stay below 2^24.
pub fn f32_bits_of_small(n: u32) -> (r: u32)
    requires
        n < F32_EXACT_LIMIT,
    ensures
        r == spec_f32_bits_of_small(n as nat),
{
    if n == 0 {
        return 0;
    }
    let mut k: u32 = 0;
    let mut m: u32 = n;
    while m > 1
        invariant
            1 <= m <= n,
            n < F32_EXACT_LIMIT,
            k <= 23,
            spec_ilog2(n as nat) == k + spec_ilog2(m as nat),
        decreases m,
    {
        proof {
            assert(spec_ilog2(m as nat) == 1 + spec_ilog2((m / 2) as nat));
            // k stays within the width of n: were it to reach 24, the
            // ilog2 bracket would push n past 2^24.
            if k + 1 > 23 && m / 2 > 1 {
                assert(spec_ilog2(n as nat) > 24);
                assert(false) by {
                    lemma_ilog2_bounds(n as nat);
                    lemma_pow2_strictly_increases(24, spec_ilog2(n as nat));
                    lemma2_to64();
                }
            }
            if k + 1 > 23 && m / 2 <= 1 {
                assert(spec_ilog2(n as nat) >= 24);
                assert(false) by {
                    lemma_ilog2_bounds(n as nat);
                    if spec_ilog2(n as nat) > 24 {
                        lemma_pow2_strictly_increases(24, spec_ilog2(n as nat));
                    }
                    lemma2_to64();
                }
            }
        }
        m = m / 2;
        k = k + 1;
    }
    proof {
        assert(spec_ilog2(1) == 0);
        assert(spec_ilog2(n as nat) == k);
        lemma_ilog2_bounds(n as nat);
    }
    let p = pow2_small(23 - k);
    proof {
        let kn = k as nat;
        lemma_pow2_adds(kn, (23 - kn) as nat);
        lemma2_to64();
        // Lower bound: n >= 2^k, so n * 2^(23-k) >= 2^23.
        assert((n as nat) * pow2((23 - kn) as nat) >= pow2(kn) * pow2((23 - kn) as nat))
            by (nonlinear_arith)
            requires
                n as nat >= pow2(kn),
        ;
        // Upper bound: n <= 2^(k+1) - 1, so the product stays below 2^24.
        lemma_pow2_adds(kn + 1, (23 - kn) as nat);
        assert((n as nat) * pow2((23 - kn) as nat) <= (pow2(kn + 1) - 1) * pow2(
            (23 - kn) as nat,
        )) by (nonlinear_arith)
            requires
                n as nat <= pow2(kn + 1) - 1,
        ;
        lemma_pow2_pos((23 - kn) as nat);
        assert((pow2(kn + 1) - 1) * pow2((23 - kn) as nat) == pow2(kn + 1) * pow2((23 - kn) as nat)
            - pow2((23 - kn) as nat)) by (nonlinear_arith);
        assert((n as nat) * (p as nat) < 0x100_0000);
    }
    let prod: u64 = (n as u64) * (p as u64);
    let mantissa: u32 = (prod - 0x80_0000) as u32;
    (127 + k) * 0x80_0000 + mantissa
}

} // verus!
