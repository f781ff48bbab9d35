use crate::errors::Error;
use crate::field::Field;
use crate::group::Group;
use vstd::prelude::*;

verus! {

/// Shareholder identifier.
#[derive(Debug, Clone, Copy, PartialEq, Eq, Hash)]
pub struct Shareholder(pub [u8; 32]);

/// A cipher suite: the prime field of the polynomials, the group of the
/// commitments, and the encoding of shareholders as field elements.
pub trait Suite: Sized {
    /// The field of the polynomials' coefficients.
    type PrimeField: Field;

    /// The group of the commitments, with that field as its scalars.
    type Group: Group<Scalar = Self::PrimeField>;

    /// The field element that stands for a shareholder, where there is one.
    /// The encoding is a function of the identifier's bytes alone.
    spec fn encode_shareholder_spec(id: Seq<u8>) -> Option<Self::PrimeField>;

    /// Encodes a shareholder as a field element, and fails on exactly the
    /// identifiers that have no encoding.
    fn encode_shareholder(id: Shareholder) -> (r: Result<Self::PrimeField, Error>)
        ensures
            match r {
                Ok(v) => Self::encode_shareholder_spec(id.0@) == Some(v),
                Err(e) => Self::encode_shareholder_spec(id.0@).is_none()
                    && e == Error::ShareholderEncodingFailed,
            },
    ;
}

} // verus!
