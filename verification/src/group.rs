use crate::field::Field;
use vstd::prelude::*;

verus! {

/// The group of a cipher suite: of prime order, with a fixed public
/// generator and the elements of a prime field as its scalars.
pub trait Group: Sized {
    /// The scalars of the group.
    type Scalar: Field;

    /// The commitment to a scalar: the generator raised to it.
    spec fn commit_spec(b: Self::Scalar) -> Self;

    /// Whether the value is the identity of the group.
    spec fn is_identity_spec(self) -> bool;

    /// The generator has the order of the field, so the only scalars that it
    /// takes to the identity are those that represent zero.
    proof fn commit_is_identity_iff_zero(b: Self::Scalar)
        ensures
            Self::commit_spec(b).is_identity_spec() <==> b.is_zero_spec(),
    ;

    /// Returns the commitment to the scalar.
    fn commit(b: &Self::Scalar) -> (r: Self)
        ensures
            r == Self::commit_spec(*b),
    ;

    /// Tells whether the element is the identity.
    fn is_identity(&self) -> (r: bool)
        ensures
            r == self.is_identity_spec(),
    ;
}

} // verus!
