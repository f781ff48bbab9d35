use crate::dealer::Dealer;
use crate::errors::Error;
use crate::field::Field;
use crate::group::Group;
use crate::rng::next_word;
use crate::suite::{Shareholder, Suite};
use rand::rngs::StdRng;
use vstd::prelude::*;

verus! {

/// The order of the plain suite's field: the Mersenne prime `2^61 - 1`.
pub const ORDER: u64 = 2305843009213693951;

/// The residue of `n` in the plain suite's field.
pub open spec fn residue(n: int) -> int {
    n % (ORDER as int)
}

/// An element of the field of order `2^61 - 1`. Every `u64` is a
/// representative; the element is its residue.
#[derive(Debug, Clone, Copy, PartialEq, Eq)]
pub struct PlainScalar {
    pub v: u64,
}

/// An element of the additive group of that field, held as its residue. The
/// generator is one, so the commitment to a scalar is the scalar's residue.
#[derive(Debug, Clone, Copy, PartialEq, Eq)]
pub struct PlainElement {
    pub v: u64,
}

/// A suite for exercising and demonstrating the dealer: a 61-bit field and,
/// as its group, the field's own additive group. It keeps every law that the
/// dealer relies on, but a commitment shows the scalar that it commits to:
/// it must not guard a real secret.
#[derive(Debug, Clone, Copy, PartialEq, Eq)]
pub struct PlainSuite;

/// Dealer over the plain suite.
pub type PlainDealer = Dealer<PlainSuite>;

impl Field for PlainScalar {
    open spec fn zero_spec() -> Self {
        PlainScalar { v: 0 }
    }

    open spec fn one_spec() -> Self {
        PlainScalar { v: 1 }
    }

    open spec fn sum_spec(self, rhs: Self) -> Self {
        PlainScalar { v: residue(residue(self.v as int) + residue(rhs.v as int)) as u64 }
    }

    open spec fn product_spec(self, rhs: Self) -> Self {
        PlainScalar { v: residue(residue(self.v as int) * residue(rhs.v as int)) as u64 }
    }

    open spec fn is_zero_spec(self) -> bool {
        residue(self.v as int) == 0
    }

    proof fn zero_is_zero() {
    }

    fn zero() -> (r: Self) {
        PlainScalar { v: 0 }
    }

    fn one() -> (r: Self) {
        PlainScalar { v: 1 }
    }

    fn sum(&self, rhs: &Self) -> (r: Self) {
        let s: u64 = self.v % ORDER + rhs.v % ORDER;
        PlainScalar { v: s % ORDER }
    }

    fn product(&self, rhs: &Self) -> (r: Self) {
        let a: u128 = (self.v % ORDER) as u128;
        let b: u128 = (rhs.v % ORDER) as u128;
        assert(a * b <= 2305843009213693951 * 2305843009213693951) by (nonlinear_arith)
            requires
                a <= 2305843009213693951,
                b <= 2305843009213693951,
        ;
        let p: u128 = a * b;
        PlainScalar { v: (p % (ORDER as u128)) as u64 }
    }

    fn is_zero(&self) -> (r: bool) {
        self.v % ORDER == 0
    }

    /// Draws one word from the generator and returns the element that it
    /// represents, in reduced form. Which element comes back depends on the
    /// generator alone; the residues of 64-bit words are uniform up to one
    /// part in `2^61`.
    fn random(rng: &mut StdRng) -> (r: Self)
        ensures
            r.is_reduced(),
    {
        let word: u64 = next_word(rng);
        PlainScalar::from_word(word)
    }
}

impl PlainScalar {
    /// Whether the representative is the residue itself.
    pub open spec fn is_reduced(self) -> bool {
        self.v < ORDER
    }

    /// The element that a 64-bit word represents, in reduced form.
    pub fn from_word(word: u64) -> (r: Self)
        ensures
            r.v == residue(word as int),
            r.is_reduced(),
    {
        PlainScalar { v: word % ORDER }
    }
}

impl Group for PlainElement {
    type Scalar = PlainScalar;

    open spec fn commit_spec(b: PlainScalar) -> Self {
        PlainElement { v: residue(b.v as int) as u64 }
    }

    open spec fn is_identity_spec(self) -> bool {
        self.v == 0
    }

    proof fn commit_is_identity_iff_zero(b: PlainScalar) {
    }

    fn commit(b: &PlainScalar) -> (r: Self) {
        PlainElement { v: b.v % ORDER }
    }

    fn is_identity(&self) -> (r: bool) {
        self.v == 0
    }
}

/// The residue of the first `n` bytes of `s`, read as a number with the
/// first byte as its most significant digit.
pub open spec fn bytes_residue(s: Seq<u8>, n: nat) -> int
    decreases n,
{
    if n == 0 {
        0
    } else {
        residue(bytes_residue(s, (n - 1) as nat) * 256 + s[n - 1])
    }
}

impl Suite for PlainSuite {
    type PrimeField = PlainScalar;

    type Group = PlainElement;

    /// The residue of the identifier, read as a number. Zero encodes nobody:
    /// a share at zero would be the secret itself.
    open spec fn encode_shareholder_spec(id: Seq<u8>) -> Option<PlainScalar> {
        let w = bytes_residue(id, id.len());
        if w == 0 {
            None
        } else {
            Some(PlainScalar { v: w as u64 })
        }
    }

    fn encode_shareholder(id: Shareholder) -> (r: Result<PlainScalar, Error>) {
        let mut acc: u64 = 0;
        let mut k: usize = 0;
        while k < 32
            invariant
                k <= 32,
                id.0@.len() == 32,
                acc < ORDER,
                acc == bytes_residue(id.0@, k as nat),
            decreases 32 - k,
        {
            let wide: u128 = (acc as u128) * 256 + (id.0[k] as u128);
            acc = (wide % (ORDER as u128)) as u64;
            k += 1;
        }
        if acc == 0 {
            Err(Error::ShareholderEncodingFailed)
        } else {
            Ok(PlainScalar { v: acc })
        }
    }
}

} // verus!
