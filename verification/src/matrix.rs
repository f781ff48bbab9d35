use crate::field::Field;
use crate::group::Group;
use crate::polynomial::BivariatePolynomial;
use vstd::prelude::*;

verus! {

/// The commitments to a table of coefficients, entry by entry.
pub open spec fn commitments<G: Group>(b: Seq<Seq<G::Scalar>>) -> Seq<Seq<G>> {
    Seq::new(b.len(), |i: int| Seq::new(b[i].len(), |j: int| G::commit_spec(b[i][j])))
}

/// The public commitment to a bivariate polynomial: one group element for
/// each coefficient.
pub struct VerificationMatrix<G: Group> {
    /// The number of rows: one for each power of `x`.
    pub rows: usize,
    /// The number of columns: one for each power of `y`.
    pub cols: usize,
    /// The commitments, row by row.
    pub m: Vec<Vec<G>>,
}

impl<G: Group> View for VerificationMatrix<G> {
    type V = Seq<Seq<G>>;

    open spec fn view(&self) -> Seq<Seq<G>> {
        Seq::new(self.m@.len(), |i: int| self.m@[i]@)
    }
}

impl<G: Group> VerificationMatrix<G> {
    /// There are `rows` rows of `cols` entries each, and at least one entry.
    pub open spec fn wf(&self) -> bool {
        &&& self.rows > 0
        &&& self.cols > 0
        &&& self@.len() == self.rows
        &&& forall|i: int| 0 <= i < self@.len() ==> (#[trigger] self@[i]).len() == self.cols
    }

    /// Whether the entry for the constant term is the identity.
    pub open spec fn is_zero_hole_spec(&self) -> bool {
        self@[0][0].is_identity_spec()
    }

    /// Commits to every coefficient of the polynomial.
    pub fn from(bp: &BivariatePolynomial<G::Scalar>) -> (vm: Self)
        requires
            bp.wf(),
        ensures
            vm.wf(),
            vm.rows == bp.deg_x + 1,
            vm.cols == bp.deg_y + 1,
            vm@ == commitments::<G>(bp@),
            vm.is_zero_hole_spec() <==> bp.is_zero_hole_spec(),
    {
        proof {
            bp.lemma_wf_rows();
        }
        let mut m: Vec<Vec<G>> = Vec::new();
        let mut i: usize = 0;
        while i <= bp.deg_x
            invariant
                bp.wf(),
                i <= bp.deg_x + 1,
                m@.len() == i,
                forall|k: int| 0 <= k < i ==> (#[trigger] m@[k])@.len() == bp.deg_y + 1,
                forall|k: int, l: int|
                    0 <= k < i && 0 <= l <= bp.deg_y ==> (#[trigger] m@[k]@[l]) == G::commit_spec(
                        bp@[k][l],
                    ),
            decreases bp.deg_x + 1 - i,
        {
            let mut row: Vec<G> = Vec::new();
            let mut j: usize = 0;
            while j <= bp.deg_y
                invariant
                    bp.wf(),
                    i <= bp.deg_x,
                    j <= bp.deg_y + 1,
                    row@.len() == j,
                    forall|l: int|
                        0 <= l < j ==> (#[trigger] row@[l]) == G::commit_spec(bp@[i as int][l]),
                decreases bp.deg_y + 1 - j,
            {
                proof {
                    bp.lemma_wf_rows();
                }
                row.push(G::commit(&bp.b[i][j]));
                j += 1;
            }
            m.push(row);
            i += 1;
        }
        let vm = VerificationMatrix { rows: bp.deg_x + 1, cols: bp.deg_y + 1, m };
        proof {
            assert forall|k: int| 0 <= k < vm@.len() implies (#[trigger] vm@[k])
                =~= commitments::<G>(bp@)[k] by {
                assert(bp@[k].len() == bp.deg_y + 1);
            }
            assert(vm@ =~= commitments::<G>(bp@));
            lemma_zero_hole_is_committed::<G>(bp@);
        }
        vm
    }

    /// Whether the committed polynomial has a zero constant term: the entry
    /// at the top left is the identity.
    pub fn is_zero_hole(&self) -> (r: bool)
        requires
            self.wf(),
        ensures
            r == self.is_zero_hole_spec(),
    {
        assert(self@[0].len() == self.cols);
        self.m[0][0].is_identity()
    }
}

/// The commitment to the constant term is the identity exactly when the
/// constant term is zero.
pub proof fn lemma_zero_hole_is_committed<G: Group>(b: Seq<Seq<G::Scalar>>)
    requires
        b.len() > 0,
        b[0].len() > 0,
    ensures
        commitments::<G>(b)[0][0].is_identity_spec() <==> b[0][0].is_zero_spec(),
{
    G::commit_is_identity_iff_zero(b[0][0]);
}

} // verus!
