//! The placement transform of an embedded glyph component.
//!
//! A transform is a 2×3 affine matrix given by six coefficients
//! `(a, b, c, d, e, f)`, the row-major `[a b 0; c d 0; e f 1]` convention of
//! the exchange format. This core never computes with the coefficients: they
//! are produced by deterministic composition or parsing elsewhere and only
//! carried and compared here, so each is held as the 64-bit pattern of its
//! numeric value. Equality is bit-for-bit on each coefficient, with no
//! epsilon tolerance.

use vstd::prelude::*;

verus! {

/// Six affine coefficients, each held as the bit pattern of its numeric
/// value.
#[derive(Clone, Copy, PartialEq, Eq, Structural, Debug)]
pub struct Affine {
    pub a: u64,
    pub b: u64,
    pub c: u64,
    pub d: u64,
    pub e: u64,
    pub f: u64,
}

impl Affine {
    /// The coefficient tuple, in exchange-record order.
    pub open spec fn coeffs(self) -> (u64, u64, u64, u64, u64, u64) {
        (self.a, self.b, self.c, self.d, self.e, self.f)
    }
}

/// Bit-for-bit equality of all six coefficients.
pub fn affine_eq(left: &Affine, right: &Affine) -> (r: bool)
    ensures
        r == (*left == *right),
{
    *left == *right
}

/// Two transforms are equal exactly when their coefficient tuples are.
pub proof fn lemma_affine_eq_is_coeff_eq(x: Affine, y: Affine)
    ensures
        (x == y) == (x.coeffs() == y.coeffs()),
{
}

/// Transform equality is reflexive.
pub proof fn lemma_affine_eq_reflexive(x: Affine)
    ensures
        x.coeffs() == x.coeffs(),
        x == x,
{
}

/// Transform equality is symmetric.
pub proof fn lemma_affine_eq_symmetric(x: Affine, y: Affine)
    ensures
        (x.coeffs() == y.coeffs()) == (y.coeffs() == x.coeffs()),
        (x == y) == (y == x),
{
}

/// Transform equality is transitive.
pub proof fn lemma_affine_eq_transitive(x: Affine, y: Affine, z: Affine)
    requires
        x.coeffs() == y.coeffs(),
        y.coeffs() == z.coeffs(),
    ensures
        x.coeffs() == z.coeffs(),
        x == z,
{
}

} // verus!
