use rand::rngs::StdRng;
use vstd::prelude::*;

verus! {

/// The scalars of a cipher suite: the elements of a prime field.
///
/// A value of the implementing type stands for itself in contracts. Two
/// values may represent the same field element; `is_zero_spec` says which
/// values represent the additive identity.
pub trait Field: Sized {
    /// The additive identity.
    spec fn zero_spec() -> Self;

    /// The multiplicative identity.
    spec fn one_spec() -> Self;

    /// The field sum of two elements.
    spec fn sum_spec(self, rhs: Self) -> Self;

    /// The field product of two elements.
    spec fn product_spec(self, rhs: Self) -> Self;

    /// Whether the value represents the additive identity.
    spec fn is_zero_spec(self) -> bool;

    /// The additive identity represents zero.
    proof fn zero_is_zero()
        ensures
            Self::zero_spec().is_zero_spec(),
    ;

    /// Returns the additive identity.
    fn zero() -> (r: Self)
        ensures
            r == Self::zero_spec(),
    ;

    /// Returns the multiplicative identity.
    fn one() -> (r: Self)
        ensures
            r == Self::one_spec(),
    ;

    /// Returns the sum of the two elements.
    fn sum(&self, rhs: &Self) -> (r: Self)
        ensures
            r == self.sum_spec(*rhs),
    ;

    /// Returns the product of the two elements.
    fn product(&self, rhs: &Self) -> (r: Self)
        ensures
            r == self.product_spec(*rhs),
    ;

    /// Tells whether the element is zero.
    fn is_zero(&self) -> (r: bool)
        ensures
            r == self.is_zero_spec(),
    ;

    /// Draws an element from the generator. Any element may come back, so
    /// nothing is promised of it.
    fn random(rng: &mut StdRng) -> (r: Self);
}

} // verus!
