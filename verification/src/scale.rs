//! Exact multiplicative factors.
//!
//! Every multiplier in the engine is a rational number held as an explicit
//! numerator/denominator pair of per-mille (thousandth) units, so that the
//! incremental ratios handed out by the stacking resolvers compose exactly:
//! no factor is ever rounded. Two `Scale` values denote the same real factor
//! exactly when they cross-multiply equal.
use vstd::prelude::*;

verus! {

/// A multiplicative factor `num / den`. A desired multiplier of 1.17 is held
/// as `Scale { num: 1170, den: 1000 }`; the identity factor is `1 / 1`.
#[derive(Clone, Copy, Debug, PartialEq, Eq, Structural)]
pub struct Scale {
    pub num: u128,
    pub den: u128,
}

/// The identity factor.
pub open spec fn spec_one() -> Scale {
    Scale { num: 1, den: 1 }
}

/// Factors produced by a single computation stay within one order of
/// magnitude of the identity; this bound is what lets a whole calculation's
/// product be carried exactly in 128 bits.
pub open spec fn wf_unit(s: Scale) -> bool {
    &&& 1 <= s.num <= 6000
    &&& 1 <= s.den <= 6000
}

/// Upper bound for a product of `k` single-computation factors.
pub open spec fn unit_pow(k: nat) -> nat
    decreases k,
{
    if k == 0 {
        1
    } else {
        6000 * unit_pow((k - 1) as nat)
    }
}

pub proof fn lemma_unit_pow_mono(j: nat, k: nat)
    requires
        j <= k,
    ensures
        unit_pow(j) <= unit_pow(k),
        unit_pow(j) >= 1,
    decreases k,
{
    if k > 0 {
        if j == k {
            lemma_unit_pow_mono((j - 1) as nat, (k - 1) as nat);
        } else {
            lemma_unit_pow_mono(j, (k - 1) as nat);
        }
        assert(unit_pow(k) == 6000 * unit_pow((k - 1) as nat));
        assert(unit_pow((k - 1) as nat) <= 6000 * unit_pow((k - 1) as nat)) by (nonlinear_arith)
            requires
                unit_pow((k - 1) as nat) >= 0,
        ;
    }
}

/// Ten single-computation factors multiply out well inside 128 bits.
pub proof fn lemma_unit_pow_ten_fits()
    ensures
        unit_pow(10) < u128::MAX,
{
    assert(unit_pow(0) == 1);
    assert(unit_pow(1) == 6000);
    assert(unit_pow(2) == 36000000);
    assert(unit_pow(3) == 216000000000);
    assert(unit_pow(4) == 1296000000000000);
    assert(unit_pow(5) == 7776000000000000000);
    assert(unit_pow(6) == 46656000000000000000000);
    assert(unit_pow(7) == 279936000000000000000000000);
    assert(unit_pow(8) == 1679616000000000000000000000000);
    assert(unit_pow(9) == 10077696000000000000000000000000000);
    assert(unit_pow(10) == 60466176000000000000000000000000000000);
}

/// `a <= b` and `c <= d` multiply to `a * c <= b * d` for non-negatives.
pub proof fn lemma_mul_le(a: int, b: int, c: int, d: int)
    requires
        0 <= a <= b,
        0 <= c <= d,
    ensures
        a * c <= b * d,
{
    assert(a * c <= b * d) by (nonlinear_arith)
        requires
            0 <= a <= b,
            0 <= c <= d,
    ;
}

impl Scale {
    /// A factor of `v` thousandths, e.g. `thousandths(1170)` is 1.17.
    pub fn thousandths(v: u32) -> (r: Scale)
        ensures
            r == (Scale { num: v as u128, den: 1000 }),
    {
        Scale { num: v as u128, den: 1000 }
    }
}

/// Exact product of two factors.
pub fn scale_mul(a: Scale, b: Scale) -> (r: Scale)
    requires
        a.num * b.num <= u128::MAX,
        a.den * b.den <= u128::MAX,
    ensures
        r.num == a.num * b.num,
        r.den == a.den * b.den,
{
    Scale { num: a.num * b.num, den: a.den * b.den }
}

/// Multiplies a running product (bounded by `unit_pow(k)`) by one more
/// single-computation factor: the product stays exact and within bounds.
pub fn mul_unit(acc: Scale, f: Scale, Ghost(k): Ghost<nat>) -> (r: Scale)
    requires
        k <= 9,
        acc.num <= unit_pow(k),
        acc.den <= unit_pow(k),
        wf_unit(f),
    ensures
        r.num == acc.num * f.num,
        r.den == acc.den * f.den,
        r.num <= unit_pow(k + 1),
        r.den <= unit_pow(k + 1),
{
    proof {
        lemma_unit_pow_mono(k + 1, 10);
        lemma_unit_pow_ten_fits();
        lemma_mul_le(acc.num as int, unit_pow(k) as int, f.num as int, 6000);
        lemma_mul_le(acc.den as int, unit_pow(k) as int, f.den as int, 6000);
        assert(unit_pow(k + 1) == 6000 * unit_pow(k));
    }
    scale_mul(acc, f)
}

/// Clamps `v` into `[lo, hi]`.
pub open spec fn spec_clamp(v: u32, lo: u32, hi: u32) -> u32 {
    if v < lo {
        lo
    } else if v > hi {
        hi
    } else {
        v
    }
}

#[verifier::when_used_as_spec(spec_clamp)]
pub fn clamp(v: u32, lo: u32, hi: u32) -> (r: u32)
    ensures
        r == spec_clamp(v, lo, hi),
{
    if v < lo {
        lo
    } else if v > hi {
        hi
    } else {
        v
    }
}

} // verus!
