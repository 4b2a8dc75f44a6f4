//! Exact rational numbers, used for the coefficients of Runge-Kutta tables.
use vstd::prelude::*;

verus! {

/// A fraction `numer / denom` of machine integers; `denom` is nonzero in every value that the
/// library builds. Fractions are not reduced: `2/4` and `1/2` are different values that stand
/// for the same number (see [`Rational::same_value`]).
#[derive(Clone, Copy, Debug, PartialEq, Eq)]
pub struct Rational {
    pub numer: i64,
    pub denom: i64,
}

/// A rational number in the specifications: a fraction `n / d` of mathematical integers with a
/// nonzero denominator. Two fractions stand for the same number when [`q_eq`] holds of them.
pub ghost struct Q {
    pub n: int,
    pub d: int,
}

/// The rational number `n / d`.
pub open spec fn q(n: int, d: int) -> Q {
    Q { n, d }
}

/// The integer `n` as a rational number.
pub open spec fn q_int(n: int) -> Q {
    Q { n, d: 1 }
}

/// `x` has a nonzero denominator.
pub open spec fn q_valid(x: Q) -> bool {
    x.d != 0
}

/// `x` and `y` stand for the same rational number.
#[verifier::opaque]
pub open spec fn q_eq(x: Q, y: Q) -> bool {
    x.n * y.d == y.n * x.d
}

/// `x` is zero.
pub open spec fn q_is_zero(x: Q) -> bool {
    x.n == 0
}

/// Sum of two rational numbers.
#[verifier::opaque]
pub open spec fn q_add(x: Q, y: Q) -> Q {
    Q { n: x.n * y.d + y.n * x.d, d: x.d * y.d }
}

/// Product of two rational numbers.
#[verifier::opaque]
pub open spec fn q_mul(x: Q, y: Q) -> Q {
    Q { n: x.n * y.n, d: x.d * y.d }
}

/// The sum of the first `n` entries of `s`.
pub open spec fn q_sum_to(s: Seq<Q>, n: int) -> Q
    decreases n,
{
    if n <= 0 {
        q_int(0)
    } else {
        q_add(q_sum_to(s, n - 1), s[n - 1])
    }
}

/// The sum of the entries of `s`.
pub open spec fn q_total(s: Seq<Q>) -> Q {
    q_sum_to(s, s.len() as int)
}

/// The vector of `n` ones.
pub open spec fn q_ones(n: nat) -> Seq<Q> {
    Seq::new(n, |i: int| q_int(1))
}

/// The entrywise product of `x` and `y`.
pub open spec fn q_hadamard(x: Seq<Q>, y: Seq<Q>) -> Seq<Q> {
    Seq::new(x.len(), |i: int| q_mul(x[i], y[i]))
}

/// The dot product `sum_i x[i] * y[i]`.
pub open spec fn q_dot(x: Seq<Q>, y: Seq<Q>) -> Q {
    q_total(q_hadamard(x, y))
}

/// The matrix-vector product `a * v`.
pub open spec fn q_mat_vec(a: Seq<Seq<Q>>, v: Seq<Q>) -> Seq<Q> {
    Seq::new(a.len(), |i: int| q_dot(a[i], v))
}

/// Every entry of `x` has a nonzero denominator.
pub open spec fn q_vec_valid(x: Seq<Q>) -> bool {
    forall|i: int| 0 <= i < x.len() ==> q_valid(#[trigger] x[i])
}

/// `x` and `y` have the same length and stand for the same numbers entry by entry.
pub open spec fn q_vec_eq(x: Seq<Q>, y: Seq<Q>) -> bool {
    &&& x.len() == y.len()
    &&& q_vec_valid(x)
    &&& q_vec_valid(y)
    &&& forall|i: int| 0 <= i < x.len() ==> q_eq(#[trigger] x[i], y[i])
}

/// Every row of `a` has `n` entries with nonzero denominators.
pub open spec fn q_mat_valid(a: Seq<Seq<Q>>, n: nat) -> bool {
    forall|i: int| 0 <= i < a.len() ==> #[trigger] a[i].len() == n && q_vec_valid(a[i])
}

/// `q_eq` is transitive through a value with a nonzero denominator.
pub proof fn lemma_q_eq_trans(x: Q, y: Q, z: Q)
    requires
        q_valid(y),
        q_eq(x, y),
        q_eq(y, z),
    ensures
        q_eq(x, z),
{
    reveal(q_eq);
    assert(x.n * z.d * y.d == z.n * x.d * y.d) by (nonlinear_arith)
        requires
            x.n * y.d == y.n * x.d,
            y.n * z.d == z.n * y.d,
    ;
    assert(x.n * z.d == z.n * x.d) by (nonlinear_arith)
        requires
            x.n * z.d * y.d == z.n * x.d * y.d,
            y.d != 0,
    ;
}

/// `(a * b + c * d) * (e * f) == (a * e) * (b * f) + (c * f) * (d * e)`.
proof fn lemma_expand_cross_sum(a: int, b: int, c: int, d: int, e: int, f: int)
    ensures
        (a * b + c * d) * (e * f) == (a * e) * (b * f) + (c * f) * (d * e),
{
    assert((a * b + c * d) * (e * f) == (a * b) * (e * f) + (c * d) * (e * f)) by (nonlinear_arith);
    assert((a * b) * (e * f) == (a * e) * (b * f)) by (nonlinear_arith);
    assert((c * d) * (e * f) == (c * f) * (d * e)) by (nonlinear_arith);
}

/// `q_eq` is symmetric.
pub proof fn lemma_q_eq_symmetric(x: Q, y: Q)
    requires
        q_eq(x, y),
    ensures
        q_eq(y, x),
{
    reveal(q_eq);
}

/// Sums of numbers that stand for the same numbers stand for the same number.
pub proof fn lemma_q_add_congruent(x: Q, x2: Q, y: Q, y2: Q)
    requires
        q_valid(x),
        q_valid(x2),
        q_valid(y),
        q_valid(y2),
        q_eq(x, x2),
        q_eq(y, y2),
    ensures
        q_eq(q_add(x, y), q_add(x2, y2)),
        q_valid(q_add(x, y)),
{
    reveal(q_eq);
    reveal(q_add);
    lemma_expand_cross_sum(x.n, y.d, y.n, x.d, x2.d, y2.d);
    lemma_expand_cross_sum(x2.n, y2.d, y2.n, x2.d, x.d, y.d);
    assert(x.d * y.d != 0) by (nonlinear_arith)
        requires
            x.d != 0,
            y.d != 0,
    ;
}

/// Products of numbers that stand for the same numbers stand for the same number.
pub proof fn lemma_q_mul_congruent(x: Q, x2: Q, y: Q, y2: Q)
    requires
        q_valid(x),
        q_valid(y),
        q_eq(x, x2),
        q_eq(y, y2),
    ensures
        q_eq(q_mul(x, y), q_mul(x2, y2)),
        q_valid(q_mul(x, y)),
{
    reveal(q_eq);
    reveal(q_mul);
    assert((x.n * y.n) * (x2.d * y2.d) == (x2.n * y2.n) * (x.d * y.d)) by (nonlinear_arith)
        requires
            x.n * x2.d == x2.n * x.d,
            y.n * y2.d == y2.n * y.d,
    ;
    assert(x.d * y.d != 0) by (nonlinear_arith)
        requires
            x.d != 0,
            y.d != 0,
    ;
}

/// Partial sums of vectors that agree entrywise agree.
pub proof fn lemma_q_sum_to_congruent(x: Seq<Q>, y: Seq<Q>, n: int)
    requires
        q_vec_eq(x, y),
        0 <= n <= x.len(),
    ensures
        q_eq(q_sum_to(x, n), q_sum_to(y, n)),
        q_valid(q_sum_to(x, n)),
        q_valid(q_sum_to(y, n)),
    decreases n,
{
    reveal(q_eq);
    if n > 0 {
        lemma_q_sum_to_congruent(x, y, n - 1);
        lemma_q_add_congruent(q_sum_to(x, n - 1), q_sum_to(y, n - 1), x[n - 1], y[n - 1]);
        lemma_q_add_congruent(q_sum_to(y, n - 1), q_sum_to(y, n - 1), y[n - 1], y[n - 1]);
    }
}

/// Dot products with vectors that agree entrywise agree.
pub proof fn lemma_q_dot_congruent(w: Seq<Q>, x: Seq<Q>, y: Seq<Q>)
    requires
        q_vec_valid(w),
        w.len() == x.len(),
        q_vec_eq(x, y),
    ensures
        q_eq(q_dot(w, x), q_dot(w, y)),
        q_valid(q_dot(w, x)),
        q_valid(q_dot(w, y)),
{
    reveal(q_eq);
    assert forall|i: int|
        #![trigger q_hadamard(w, x)[i]]
        #![trigger q_hadamard(w, y)[i]]
        0 <= i < x.len() implies q_eq(q_hadamard(w, x)[i], q_hadamard(w, y)[i]) && q_valid(
            q_hadamard(w, x)[i],
        ) && q_valid(q_hadamard(w, y)[i]) by {
        lemma_q_mul_congruent(w[i], w[i], x[i], y[i]);
        lemma_q_mul_congruent(w[i], w[i], y[i], y[i]);
    }
    lemma_q_sum_to_congruent(q_hadamard(w, x), q_hadamard(w, y), w.len() as int);
}

/// Dot products of vectors that agree entrywise with the same vector agree.
pub proof fn lemma_q_dot_congruent_left(x: Seq<Q>, y: Seq<Q>, w: Seq<Q>)
    requires
        q_vec_eq(x, y),
        q_vec_valid(w),
        w.len() == x.len(),
    ensures
        q_eq(q_dot(x, w), q_dot(y, w)),
        q_valid(q_dot(x, w)),
        q_valid(q_dot(y, w)),
{
    reveal(q_eq);
    assert forall|i: int|
        #![trigger q_hadamard(x, w)[i]]
        #![trigger q_hadamard(y, w)[i]]
        0 <= i < x.len() implies q_eq(q_hadamard(x, w)[i], q_hadamard(y, w)[i]) && q_valid(
            q_hadamard(x, w)[i],
        ) && q_valid(q_hadamard(y, w)[i]) by {
        lemma_q_mul_congruent(x[i], y[i], w[i], w[i]);
        lemma_q_mul_congruent(y[i], y[i], w[i], w[i]);
    }
    lemma_q_sum_to_congruent(q_hadamard(x, w), q_hadamard(y, w), x.len() as int);
}

/// Partial sums of numbers that are all zero are zero.
proof fn lemma_q_sum_to_zero(s: Seq<Q>, n: int)
    requires
        0 <= n <= s.len(),
        forall|i: int| 0 <= i < s.len() ==> #[trigger] s[i].n == 0 && s[i].d != 0,
    ensures
        q_sum_to(s, n).n == 0,
        q_sum_to(s, n).d != 0,
    decreases n,
{
    reveal(q_add);
    if n > 0 {
        lemma_q_sum_to_zero(s, n - 1);
        let a = q_sum_to(s, n - 1);
        let e = s[n - 1];
        assert(a.n * e.d + e.n * a.d == 0) by (nonlinear_arith)
            requires
                a.n == 0,
                e.n == 0,
        ;
        assert(a.d * e.d != 0) by (nonlinear_arith)
            requires
                a.d != 0,
                e.d != 0,
        ;
    }
}

/// The dot product of a vector of zeros with any vector is zero.
pub proof fn lemma_q_dot_zero_left(x: Seq<Q>, w: Seq<Q>)
    requires
        forall|i: int| 0 <= i < x.len() ==> q_is_zero(#[trigger] x[i]) && q_valid(x[i]),
        q_vec_valid(w),
        w.len() == x.len(),
    ensures
        q_eq(q_dot(x, w), q(0, 1)),
        q_valid(q_dot(x, w)),
{
    reveal(q_eq);
    reveal(q_mul);
    let h = q_hadamard(x, w);
    assert forall|i: int| 0 <= i < h.len() implies #[trigger] h[i].n == 0 && h[i].d != 0 by {
        assert(x[i].n * w[i].n == 0) by (nonlinear_arith)
            requires
                x[i].n == 0,
        ;
        assert(x[i].d * w[i].d != 0) by (nonlinear_arith)
            requires
                x[i].d != 0,
                w[i].d != 0,
        ;
    }
    lemma_q_sum_to_zero(h, h.len() as int);
}

/// Multiplying a matrix with vectors that agree entrywise gives vectors that agree entrywise.
pub proof fn lemma_q_mat_vec_congruent(a: Seq<Seq<Q>>, x: Seq<Q>, y: Seq<Q>)
    requires
        q_mat_valid(a, x.len()),
        q_vec_eq(x, y),
    ensures
        q_vec_eq(q_mat_vec(a, x), q_mat_vec(a, y)),
{
    assert forall|i: int|
        #![trigger q_mat_vec(a, x)[i]]
        #![trigger q_mat_vec(a, y)[i]]
        0 <= i < a.len() implies q_eq(q_mat_vec(a, x)[i], q_mat_vec(a, y)[i]) && q_valid(
            q_mat_vec(a, x)[i],
        ) && q_valid(q_mat_vec(a, y)[i]) by {
        lemma_q_dot_congruent(a[i], x, y);
    }
}

/// Entrywise products of vectors that agree entrywise agree entrywise.
pub proof fn lemma_q_hadamard_congruent(x: Seq<Q>, x2: Seq<Q>, y: Seq<Q>, y2: Seq<Q>)
    requires
        q_vec_eq(x, x2),
        q_vec_eq(y, y2),
        x.len() == y.len(),
    ensures
        q_vec_eq(q_hadamard(x, y), q_hadamard(x2, y2)),
{
    reveal(q_eq);
    assert forall|i: int|
        #![trigger q_hadamard(x, y)[i]]
        #![trigger q_hadamard(x2, y2)[i]]
        0 <= i < x.len() implies q_eq(q_hadamard(x, y)[i], q_hadamard(x2, y2)[i]) && q_valid(
            q_hadamard(x, y)[i],
        ) && q_valid(q_hadamard(x2, y2)[i]) by {
        lemma_q_mul_congruent(x[i], x2[i], y[i], y2[i]);
        lemma_q_mul_congruent(x2[i], x2[i], y2[i], y2[i]);
    }
}

/// Entrywise agreement is transitive.
pub proof fn lemma_q_vec_eq_trans(x: Seq<Q>, y: Seq<Q>, z: Seq<Q>)
    requires
        q_vec_eq(x, y),
        q_vec_eq(y, z),
    ensures
        q_vec_eq(x, z),
{
    assert forall|i: int| 0 <= i < x.len() implies q_eq(#[trigger] x[i], z[i]) by {
        lemma_q_eq_trans(x[i], y[i], z[i]);
    }
}

/// The sum of two fractions, numerator and denominator computed.
pub proof fn lemma_q_add_value(a: int, b: int, c: int, d: int)
    ensures
        q_add(q(a, b), q(c, d)) == q(a * d + c * b, b * d),
{
    reveal(q_add);
}

/// When two fractions stand for the same number, by cross multiplication.
pub proof fn lemma_q_eq_value(a: int, b: int, c: int, d: int)
    ensures
        q_eq(q(a, b), q(c, d)) <==> a * d == c * b,
{
    reveal(q_eq);
}

/// The product of two fractions, numerator and denominator computed.
pub proof fn lemma_q_mul_value(a: int, b: int, c: int, d: int)
    ensures
        q_mul(q(a, b), q(c, d)) == q(a * c, b * d),
{
    reveal(q_mul);
}

/// One step of a running sum: when the first `j` entries of `s` add up to `an / ad` and entry
/// `j` is `en / ed`, the first `j + 1` entries add up to every fraction `rn / rd` that stands
/// for `(an * ed + en * ad) / (ad * ed)`.
pub proof fn lemma_q_sum_step(
    s: Seq<Q>,
    j: int,
    an: int,
    ad: int,
    en: int,
    ed: int,
    rn: int,
    rd: int,
)
    requires
        0 <= j < s.len(),
        ad != 0,
        ed != 0,
        rd != 0,
        q_valid(q_sum_to(s, j)),
        q_eq(q_sum_to(s, j), q(an, ad)),
        s[j] == q(en, ed),
        (an * ed + en * ad) * rd == rn * (ad * ed),
    ensures
        q_valid(q_sum_to(s, j + 1)),
        q_eq(q_sum_to(s, j + 1), q(rn, rd)),
{
    lemma_q_eq_value(en, ed, en, ed);
    lemma_q_add_congruent(q_sum_to(s, j), q(an, ad), s[j], s[j]);
    lemma_q_add_value(an, ad, en, ed);
    assert(ad * ed != 0) by (nonlinear_arith)
        requires
            ad != 0,
            ed != 0,
    ;
    lemma_q_eq_value(an * ed + en * ad, ad * ed, rn, rd);
    lemma_q_eq_trans(q_sum_to(s, j + 1), q(an * ed + en * ad, ad * ed), q(rn, rd));
}

/// An entry of the entrywise product of `x` and `y`, from the entries of `x` and `y`.
pub proof fn lemma_q_hadamard_entry(x: Seq<Q>, y: Seq<Q>, j: int, xn: int, xd: int, yn: int, yd: int)
    requires
        0 <= j < x.len(),
        x[j] == q(xn, xd),
        y[j] == q(yn, yd),
    ensures
        q_hadamard(x, y)[j] == q(xn * yn, xd * yd),
{
    lemma_q_mul_value(xn, xd, yn, yd);
}

/// The product of two `i64` values fits in an `i128`.
proof fn lemma_i64_product_fits_i128(x: i64, y: i64)
    ensures
        i128::MIN <= (x as int) * (y as int) <= i128::MAX,
{
    assert(-0x8000_0000_0000_0000 <= x <= 0x7fff_ffff_ffff_ffff);
    assert((x as int) * (y as int) <= 0x4000_0000_0000_0000_0000_0000_0000_0000) by (nonlinear_arith)
        requires
            -0x8000_0000_0000_0000 <= x <= 0x7fff_ffff_ffff_ffff,
            -0x8000_0000_0000_0000 <= y <= 0x7fff_ffff_ffff_ffff,
    ;
    assert((x as int) * (y as int) >= -0x4000_0000_0000_0000_0000_0000_0000_0000) by (nonlinear_arith)
        requires
            -0x8000_0000_0000_0000 <= x <= 0x7fff_ffff_ffff_ffff,
            -0x8000_0000_0000_0000 <= y <= 0x7fff_ffff_ffff_ffff,
    ;
}

impl Rational {
    /// The number that this fraction stands for.
    pub open spec fn value(self) -> Q {
        Q { n: self.numer as int, d: self.denom as int }
    }

    /// Numerator and denominator are at most `2^15` in absolute value.
    pub open spec fn is_small(self) -> bool {
        -32768 <= self.numer <= 32768 && -32768 <= self.denom <= 32768
    }

    /// The fraction `numer / denom`.
    pub fn new(numer: i64, denom: i64) -> (r: Rational)
        ensures
            r.numer == numer,
            r.denom == denom,
    {
        Rational { numer, denom }
    }

    /// The integer `n` as a fraction.
    pub fn from_integer(n: i64) -> (r: Rational)
        ensures
            r.numer == n,
            r.denom == 1,
    {
        Rational { numer: n, denom: 1 }
    }

    /// Whether the fraction stands for zero.
    pub fn is_zero(&self) -> (r: bool)
        ensures
            r == q_is_zero(self.value()),
    {
        self.numer == 0
    }

    /// Whether `self` and `other` stand for the same number.
    pub fn same_value(&self, other: &Rational) -> (r: bool)
        ensures
            r == q_eq(self.value(), other.value()),
    {
        proof {
            reveal(q_eq);
            lemma_i64_product_fits_i128(self.numer, other.denom);
            lemma_i64_product_fits_i128(other.numer, self.denom);
        }
        (self.numer as i128) * (other.denom as i128) == (other.numer as i128) * (self.denom as i128)
    }
}

} // verus!
