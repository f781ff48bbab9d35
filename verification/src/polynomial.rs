use crate::field::Field;
use rand::rngs::StdRng;
use vstd::prelude::*;

verus! {

/// `v` raised to the power `n`.
pub open spec fn power<F: Field>(v: F, n: nat) -> F
    decreases n,
{
    if n == 0 {
        F::one_spec()
    } else {
        power(v, (n - 1) as nat).product_spec(v)
    }
}

/// The sum of `c[k] * v^k` over `k < n`, taken in rising order of `k`.
pub open spec fn partial_value<F: Field>(c: Seq<F>, v: F, n: nat) -> F
    decreases n,
{
    if n == 0 {
        F::zero_spec()
    } else {
        partial_value(c, v, (n - 1) as nat).sum_spec(
            c[n - 1].product_spec(power(v, (n - 1) as nat)),
        )
    }
}

/// The value at `v` of the polynomial with the coefficients `c`, lowest
/// degree first.
pub open spec fn value_at<F: Field>(c: Seq<F>, v: F) -> F {
    partial_value(c, v, c.len())
}

/// The coefficients `b[i][j]` for a fixed `j`, by rising `i`.
pub open spec fn column<F: Field>(b: Seq<Seq<F>>, j: int) -> Seq<F> {
    Seq::new(b.len(), |i: int| b[i][j])
}

/// The coefficients, by rising power of `y`, of the polynomial that is left
/// when `x` is fixed at `v`.
pub open spec fn fix_x<F: Field>(b: Seq<Seq<F>>, v: F) -> Seq<F> {
    Seq::new(b[0].len(), |j: int| value_at(column(b, j), v))
}

/// The coefficients, by rising power of `x`, of the polynomial that is left
/// when `y` is fixed at `v`.
pub open spec fn fix_y<F: Field>(b: Seq<Seq<F>>, v: F) -> Seq<F> {
    Seq::new(b.len(), |i: int| value_at(b[i], v))
}

/// A polynomial in one variable: what a shareholder receives as a share.
pub struct Polynomial<F: Field> {
    a: Vec<F>,
}

impl<F: Field> View for Polynomial<F> {
    type V = Seq<F>;

    /// The coefficients, lowest degree first.
    closed spec fn view(&self) -> Seq<F> {
        self.a@
    }
}

impl<F: Field> Polynomial<F> {
    /// The polynomial with the given coefficients, lowest degree first.
    pub fn with_coefficients(a: Vec<F>) -> (p: Self)
        ensures
            p@ == a@,
    {
        Polynomial { a }
    }

    /// The number of coefficients.
    pub fn size(&self) -> (n: usize)
        ensures
            n == self@.len(),
    {
        self.a.len()
    }

    /// The highest power that has a coefficient; zero where there is none.
    pub fn degree(&self) -> (d: usize)
        ensures
            d == if self@.len() == 0 { 0 } else { self@.len() - 1 },
    {
        let n: usize = self.a.len();
        if n == 0 {
            0
        } else {
            n - 1
        }
    }

    /// The coefficient of the power `k`.
    pub fn coefficient(&self, k: usize) -> (c: &F)
        requires
            k < self@.len(),
        ensures
            *c == self@[k as int],
    {
        &self.a[k]
    }
}

/// A polynomial in `x` and `y` with the coefficient `b[i][j]` at
/// `x^i * y^j`, for `i` up to `deg_x` and `j` up to `deg_y`.
pub struct BivariatePolynomial<F: Field> {
    /// The highest power of `x`.
    pub deg_x: usize,
    /// The highest power of `y`.
    pub deg_y: usize,
    /// The coefficients, one row for each power of `x`.
    pub b: Vec<Vec<F>>,
}

impl<F: Field> View for BivariatePolynomial<F> {
    type V = Seq<Seq<F>>;

    /// The coefficients: one row for each power of `x`, and in it one entry
    /// for each power of `y`.
    open spec fn view(&self) -> Seq<Seq<F>> {
        Seq::new(self.b@.len(), |i: int| self.b@[i]@)
    }
}

impl<F: Field> BivariatePolynomial<F> {
    /// There are `deg_x + 1` rows of `deg_y + 1` coefficients each, and both
    /// counts fit in a `usize`.
    pub open spec fn wf(&self) -> bool {
        &&& self.deg_x < usize::MAX
        &&& self.deg_y < usize::MAX
        &&& self@.len() == self.deg_x + 1
        &&& forall|i: int| 0 <= i < self@.len() ==> (#[trigger] self@[i]).len() == self.deg_y + 1
    }

    /// In a well-formed polynomial every row of the coefficient table has
    /// its full length.
    pub proof fn lemma_wf_rows(&self)
        requires
            self.wf(),
        ensures
            self.b@.len() == self.deg_x + 1,
            forall|i: int| 0 <= i <= self.deg_x ==> (#[trigger] self.b@[i])@.len() == self.deg_y + 1,
    {
        assert forall|i: int| 0 <= i <= self.deg_x implies (#[trigger] self.b@[i])@.len()
            == self.deg_y + 1 by {
            assert(self@[i].len() == self.deg_y + 1);
        }
    }

    /// Whether the constant term represents zero.
    pub open spec fn is_zero_hole_spec(&self) -> bool {
        self@[0][0].is_zero_spec()
    }

    /// The polynomial of the given degrees whose coefficients are all zero.
    pub fn zero(deg_x: usize, deg_y: usize) -> (bp: Self)
        requires
            deg_x < usize::MAX,
            deg_y < usize::MAX,
        ensures
            bp.wf(),
            bp.deg_x == deg_x,
            bp.deg_y == deg_y,
            forall|i: int, j: int|
                0 <= i <= deg_x && 0 <= j <= deg_y ==> (#[trigger] bp@[i][j]) == F::zero_spec(),
    {
        let mut b: Vec<Vec<F>> = Vec::new();
        let mut i: usize = 0;
        while i <= deg_x
            invariant
                deg_x < usize::MAX,
                deg_y < usize::MAX,
                i <= deg_x + 1,
                b@.len() == i,
                forall|k: int| 0 <= k < i ==> (#[trigger] b@[k])@.len() == deg_y + 1,
                forall|k: int, j: int|
                    0 <= k < i && 0 <= j <= deg_y ==> (#[trigger] b@[k]@[j]) == F::zero_spec(),
            decreases deg_x + 1 - i,
        {
            let mut row: Vec<F> = Vec::new();
            let mut j: usize = 0;
            while j <= deg_y
                invariant
                    deg_y < usize::MAX,
                    j <= deg_y + 1,
                    row@.len() == j,
                    forall|k: int| 0 <= k < j ==> (#[trigger] row@[k]) == F::zero_spec(),
                decreases deg_y + 1 - j,
            {
                row.push(F::zero());
                j += 1;
            }
            b.push(row);
            i += 1;
        }
        BivariatePolynomial { deg_x, deg_y, b }
    }

    /// A polynomial of the given degrees with every coefficient drawn from
    /// the generator.
    pub fn random(deg_x: usize, deg_y: usize, rng: &mut StdRng) -> (bp: Self)
        requires
            deg_x < usize::MAX,
            deg_y < usize::MAX,
        ensures
            bp.wf(),
            bp.deg_x == deg_x,
            bp.deg_y == deg_y,
    {
        let mut b: Vec<Vec<F>> = Vec::new();
        let mut i: usize = 0;
        while i <= deg_x
            invariant
                deg_x < usize::MAX,
                deg_y < usize::MAX,
                i <= deg_x + 1,
                b@.len() == i,
                forall|k: int| 0 <= k < i ==> (#[trigger] b@[k])@.len() == deg_y + 1,
            decreases deg_x + 1 - i,
        {
            let mut row: Vec<F> = Vec::new();
            let mut j: usize = 0;
            while j <= deg_y
                invariant
                    deg_y < usize::MAX,
                    j <= deg_y + 1,
                    row@.len() == j,
                decreases deg_y + 1 - j,
            {
                row.push(F::random(rng));
                j += 1;
            }
            b.push(row);
            i += 1;
        }
        BivariatePolynomial { deg_x, deg_y, b }
    }

    /// Sets the constant term to zero and leaves every other coefficient as
    /// it was.
    pub fn to_zero_hole(&mut self)
        requires
            old(self).wf(),
        ensures
            final(self).wf(),
            final(self).deg_x == old(self).deg_x,
            final(self).deg_y == old(self).deg_y,
            final(self)@ == old(self)@.update(0, old(self)@[0].update(0, F::zero_spec())),
    {
        proof {
            self.lemma_wf_rows();
        }
        let mut row: Vec<F> = self.b.remove(0);
        row.set(0, F::zero());
        self.b.insert(0, row);
        assert(self@ =~~= old(self)@.update(0, old(self)@[0].update(0, F::zero_spec())));
    }

    /// The coefficient at `x^i * y^j`.
    pub fn coefficient(&self, i: usize, j: usize) -> (c: &F)
        requires
            self.wf(),
            i <= self.deg_x,
            j <= self.deg_y,
        ensures
            *c == self@[i as int][j as int],
    {
        proof {
            self.lemma_wf_rows();
        }
        &self.b[i][j]
    }

    /// Whether the constant term is zero.
    pub fn is_zero_hole(&self) -> (r: bool)
        requires
            self.wf(),
        ensures
            r == self.is_zero_hole_spec(),
    {
        proof {
            self.lemma_wf_rows();
        }
        self.b[0][0].is_zero()
    }

    /// Fixes `x` at `v`: the polynomial in `y`, of `deg_y + 1` coefficients,
    /// whose coefficient at `y^j` is the sum of `b[i][j] * v^i` over `i`.
    pub fn eval_x(&self, v: &F) -> (p: Polynomial<F>)
        requires
            self.wf(),
        ensures
            p@ == fix_x(self@, *v),
            p@.len() == self.deg_y + 1,
    {
        proof {
            self.lemma_wf_rows();
        }
        let mut a: Vec<F> = Vec::new();
        let mut j: usize = 0;
        while j <= self.deg_y
            invariant
                self.wf(),
                j <= self.deg_y + 1,
                a@.len() == j,
                forall|k: int| 0 <= k < j ==> (#[trigger] a@[k]) == value_at(column(self@, k), *v),
            decreases self.deg_y + 1 - j,
        {
            let ghost c = column(self@, j as int);
            let mut acc: F = F::zero();
            let mut vpow: F = F::one();
            let mut i: usize = 0;
            while i <= self.deg_x
                invariant
                    self.wf(),
                    j <= self.deg_y,
                    i <= self.deg_x + 1,
                    c == column(self@, j as int),
                    acc == partial_value(c, *v, i as nat),
                    vpow == power(*v, i as nat),
                decreases self.deg_x + 1 - i,
            {
                proof {
                    self.lemma_wf_rows();
                }
                assert(c[i as int] == self@[i as int][j as int]);
                let term: F = self.b[i][j].product(&vpow);
                acc = acc.sum(&term);
                vpow = vpow.product(v);
                i += 1;
            }
            a.push(acc);
            j += 1;
        }
        assert(self@[0].len() == self.deg_y + 1);
        assert(a@ =~= fix_x(self@, *v));
        Polynomial { a }
    }

    /// Fixes `y` at `v`: the polynomial in `x`, of `deg_x + 1` coefficients,
    /// whose coefficient at `x^i` is the sum of `b[i][j] * v^j` over `j`.
    pub fn eval_y(&self, v: &F) -> (p: Polynomial<F>)
        requires
            self.wf(),
        ensures
            p@ == fix_y(self@, *v),
            p@.len() == self.deg_x + 1,
    {
        proof {
            self.lemma_wf_rows();
        }
        let mut a: Vec<F> = Vec::new();
        let mut i: usize = 0;
        while i <= self.deg_x
            invariant
                self.wf(),
                i <= self.deg_x + 1,
                a@.len() == i,
                forall|k: int| 0 <= k < i ==> (#[trigger] a@[k]) == value_at(self@[k], *v),
            decreases self.deg_x + 1 - i,
        {
            assert(self@[i as int].len() == self.deg_y + 1);
            let mut acc: F = F::zero();
            let mut vpow: F = F::one();
            let mut j: usize = 0;
            while j <= self.deg_y
                invariant
                    self.wf(),
                    i <= self.deg_x,
                    j <= self.deg_y + 1,
                    self@[i as int].len() == self.deg_y + 1,
                    acc == partial_value(self@[i as int], *v, j as nat),
                    vpow == power(*v, j as nat),
                decreases self.deg_y + 1 - j,
            {
                proof {
                    self.lemma_wf_rows();
                }
                let term: F = self.b[i][j].product(&vpow);
                acc = acc.sum(&term);
                vpow = vpow.product(v);
                j += 1;
            }
            a.push(acc);
            i += 1;
        }
        assert(a@ =~= fix_y(self@, *v));
        Polynomial { a }
    }
}

} // verus!
