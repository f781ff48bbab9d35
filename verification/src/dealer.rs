use crate::errors::Error;
use crate::field::Field;
use crate::handoff::HandoffKind;
use crate::matrix::{commitments, lemma_zero_hole_is_committed, VerificationMatrix};
use crate::polynomial::{fix_x, fix_y, BivariatePolynomial, Polynomial};
use crate::suite::{Shareholder, Suite};
use rand::rngs::StdRng;
use vstd::prelude::*;

verus! {

/// The coefficients of the share that a handoff of the given kind takes from
/// the table `b` for the field element `v`: `x` is fixed at `v`, but for a
/// changed committee, where `y` is.
pub open spec fn share_coefficients<F: Field>(b: Seq<Seq<F>>, v: F, kind: HandoffKind) -> Seq<F> {
    if kind.fixes_x() {
        fix_x(b, v)
    } else {
        fix_y(b, v)
    }
}

/// Dealer is responsible for generating a secret bivariate polynomial,
/// computing a verification matrix, and deriving secret shares for other
/// participants.
///
/// Shares must always be distributed over a secure channel and verified
/// against the matrix. Reconstructing the secret bivariate polynomial
/// requires obtaining more than a threshold number of shares from distinct
/// participants.
pub struct Dealer<S: Suite> {
    /// Secret bivariate polynomial.
    bp: BivariatePolynomial<S::PrimeField>,
    /// Verification matrix.
    vm: VerificationMatrix<S::Group>,
}

impl<S: Suite> Dealer<S> {
    /// The secret bivariate polynomial.
    pub closed spec fn polynomial(&self) -> BivariatePolynomial<S::PrimeField> {
        self.bp
    }

    /// The verification matrix.
    pub closed spec fn matrix(&self) -> VerificationMatrix<S::Group> {
        self.vm
    }

    /// Every dealer is well formed, from its construction on.
    #[verifier::type_invariant]
    closed spec fn inv(self) -> bool {
        self.wf()
    }

    /// The polynomial and the matrix are well formed, and the matrix commits
    /// to the polynomial.
    pub open spec fn wf(&self) -> bool {
        &&& self.polynomial().wf()
        &&& self.matrix().wf()
        &&& self.matrix().rows == self.polynomial().deg_x + 1
        &&& self.matrix().cols == self.polynomial().deg_y + 1
        &&& self.matrix()@ == commitments::<S::Group>(self.polynomial()@)
    }

    /// The share of the shareholder `id` for a handoff of the given kind,
    /// where the suite encodes `id`.
    pub open spec fn share_spec(&self, id: Shareholder, kind: HandoffKind) -> Option<
        Seq<S::PrimeField>,
    > {
        match S::encode_shareholder_spec(id.0@) {
            Some(v) => Some(share_coefficients(self.polynomial()@, v, kind)),
            None => None,
        }
    }

    /// Creates a new dealer for the given threshold: in the dealing phase
    /// with a random polynomial, else with a random zero-hole polynomial.
    pub fn new(threshold: u8, dealing_phase: bool, rng: &mut StdRng) -> (d: Self)
        ensures
            d.wf(),
            d.polynomial().deg_x == threshold,
            d.polynomial().deg_y == 2 * threshold,
            d.matrix().rows == threshold + 1,
            d.matrix().cols == 2 * threshold + 1,
            !dealing_phase ==> d.polynomial().is_zero_hole_spec(),
            !dealing_phase ==> d.matrix().is_zero_hole_spec(),
    {
        let dx: usize = threshold as usize;
        let dy: usize = 2 * dx;
        if dealing_phase {
            Self::random(dx, dy, rng)
        } else {
            Self::zero_hole(dx, dy, rng)
        }
    }

    /// Creates a new dealer with a random bivariate polynomial.
    pub fn random(dx: usize, dy: usize, rng: &mut StdRng) -> (d: Self)
        requires
            dx < usize::MAX,
            dy < usize::MAX,
        ensures
            d.wf(),
            d.polynomial().deg_x == dx,
            d.polynomial().deg_y == dy,
    {
        let bp = BivariatePolynomial::random(dx, dy, rng);
        Self::from(bp)
    }

    /// Creates a new dealer with a random zero-hole bivariate polynomial.
    pub fn zero_hole(dx: usize, dy: usize, rng: &mut StdRng) -> (d: Self)
        requires
            dx < usize::MAX,
            dy < usize::MAX,
        ensures
            d.wf(),
            d.polynomial().deg_x == dx,
            d.polynomial().deg_y == dy,
            d.polynomial().is_zero_hole_spec(),
            d.matrix().is_zero_hole_spec(),
    {
        let mut bp = BivariatePolynomial::random(dx, dy, rng);
        bp.to_zero_hole();
        proof {
            S::PrimeField::zero_is_zero();
        }
        Self::from(bp)
    }

    /// Creates a new dealer from the given bivariate polynomial.
    pub fn from(bp: BivariatePolynomial<S::PrimeField>) -> (d: Self)
        requires
            bp.wf(),
        ensures
            d.wf(),
            d.polynomial() == bp,
            d.matrix().is_zero_hole_spec() <==> bp.is_zero_hole_spec(),
    {
        let vm = VerificationMatrix::from(&bp);
        Dealer { bp, vm }
    }

    /// Returns the secret bivariate polynomial.
    pub fn bivariate_polynomial(&self) -> (bp: &BivariatePolynomial<S::PrimeField>)
        ensures
            *bp == self.polynomial(),
            self.wf(),
    {
        proof {
            use_type_invariant(self);
        }
        &self.bp
    }

    /// Returns the verification matrix.
    pub fn verification_matrix(&self) -> (vm: &VerificationMatrix<S::Group>)
        ensures
            *vm == self.matrix(),
            self.wf(),
    {
        proof {
            use_type_invariant(self);
        }
        &self.vm
    }

    /// Returns the share for the field element `v`: the polynomial that is
    /// left when the variable that the kind selects is fixed at `v`.
    pub fn share_at(&self, v: &S::PrimeField, kind: HandoffKind) -> (p: Polynomial<S::PrimeField>)
        ensures
            p@ == share_coefficients(self.polynomial()@, *v, kind),
            p@.len() == if kind.fixes_x() {
                self.polynomial().deg_y + 1
            } else {
                self.polynomial().deg_x + 1
            },
    {
        proof {
            use_type_invariant(self);
        }
        match kind {
            HandoffKind::DealingPhase => self.bp.eval_x(v),
            HandoffKind::CommitteeChanged => self.bp.eval_y(v),
            HandoffKind::CommitteeUnchanged => self.bp.eval_x(v),
        }
    }

    /// Returns a secret share for the given shareholder, and fails on
    /// exactly the shareholders that the suite does not encode.
    pub fn derive_bivariate_share(&self, id: Shareholder, kind: HandoffKind) -> (r: Result<
        Polynomial<S::PrimeField>,
        Error,
    >)
        ensures
            match r {
                Ok(p) => self.share_spec(id, kind) == Some(p@) && p@.len() == if kind.fixes_x() {
                    self.polynomial().deg_y + 1
                } else {
                    self.polynomial().deg_x + 1
                },
                Err(e) => self.share_spec(id, kind).is_none() && e
                    == Error::ShareholderEncodingFailed,
            },
    {
        match S::encode_shareholder(id) {
            Ok(v) => Ok(self.share_at(&v, kind)),
            Err(_) => Err(Error::ShareholderEncodingFailed),
        }
    }
}

/// The published matrix of a dealer shows a zero hole exactly when the
/// constant term of its secret polynomial is zero.
pub proof fn lemma_matrix_shows_zero_hole<S: Suite>(d: Dealer<S>)
    requires
        d.wf(),
    ensures
        d.matrix().is_zero_hole_spec() <==> d.polynomial().is_zero_hole_spec(),
{
    assert(d.polynomial()@[0].len() == d.polynomial().deg_y + 1);
    lemma_zero_hole_is_committed::<S::Group>(d.polynomial()@);
}

/// The dealing phase and an unchanged committee give a shareholder the same
/// share: both fix `x`.
pub proof fn lemma_unchanged_committee_shares_as_dealing<S: Suite>(d: Dealer<S>, id: Shareholder)
    ensures
        d.share_spec(id, HandoffKind::DealingPhase) == d.share_spec(
            id,
            HandoffKind::CommitteeUnchanged,
        ),
{
}

/// A share is a function of the polynomial, the shareholder and the kind of
/// handoff: dealers that hold the same coefficients derive the same share.
pub proof fn lemma_share_is_deterministic<S: Suite>(
    d1: Dealer<S>,
    d2: Dealer<S>,
    id: Shareholder,
    kind: HandoffKind,
)
    requires
        d1.polynomial()@ == d2.polynomial()@,
    ensures
        d1.share_spec(id, kind) == d2.share_spec(id, kind),
{
}

/// The size of a share: `deg_y + 1` coefficients where `x` is fixed, and
/// `deg_x + 1` for a changed committee.
pub proof fn lemma_share_size<S: Suite>(d: Dealer<S>, id: Shareholder, kind: HandoffKind)
    requires
        d.wf(),
        d.share_spec(id, kind).is_some(),
    ensures
        d.share_spec(id, kind).unwrap().len() == if kind == HandoffKind::CommitteeChanged {
            d.polynomial().deg_x + 1
        } else {
            d.polynomial().deg_y + 1
        },
{
}

} // verus!
