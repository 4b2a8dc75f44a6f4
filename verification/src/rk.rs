//! Butcher tables of explicit Runge-Kutta methods, with exact rational coefficients.
use crate::order_conditions::{
    interpolant_conditions, lemma_linear_interpolant, table_laws, TableauModel,
};
use crate::rational::Rational;
use crate::generic_tables::{
    generic_order_2_model, generic_order_3_first_case, generic_order_3_second_case,
    generic_order_3_third_case, lemma_generic_order_2_laws, lemma_generic_order_3_first_case_laws,
    lemma_generic_order_3_second_case_laws, lemma_generic_order_3_third_case_laws,
};
use crate::tables::{
    euler_model, lemma_euler_laws, lemma_rk43_dense_output, lemma_rk43_laws, lemma_rk4_laws,
    lemma_rktp64_dense_output, lemma_rktp64_laws,
    lemma_three_eights_laws, rk43_model, rk4_model, rktp64_model, three_eights_model,
};
use vstd::prelude::*;

verus! {

/// A Butcher table of an explicit Runge-Kutta method with `S` stages: the matrix `a`, the
/// weights `b`, the weights `b2` of an embedded method of lower order for error estimation,
/// the nodes `c`, and for each stage the `I` coefficients `bi[i][0..I]` of the interpolation
/// polynomial `theta -> sum_j bi[i][j] * theta^j` used for dense output.
#[derive(Clone, Copy, Debug)]
pub struct ButcherTableu<const S: usize, const I: usize> {
    pub order: usize,
    pub order_embedded: usize,
    pub order_interpolant: usize,
    pub a: [[Rational; S]; S],
    pub b: [Rational; S],
    pub b2: [Rational; S],
    pub c: [Rational; S],
    pub bi: [[Rational; I]; S],
}

impl<const S: usize, const I: usize> ButcherTableu<S, I> {
    /// The coefficients as rational numbers.
    pub open spec fn model(&self) -> TableauModel {
        TableauModel {
            a: Seq::new(S as nat, |i: int| Seq::new(S as nat, |j: int| self.a[i][j].value())),
            b: Seq::new(S as nat, |i: int| self.b[i].value()),
            b2: Seq::new(S as nat, |i: int| self.b2[i].value()),
            c: Seq::new(S as nat, |i: int| self.c[i].value()),
            bi: Seq::new(S as nat, |i: int| Seq::new(I as nat, |j: int| self.bi[i][j].value())),
        }
    }

    /// The table obeys [`table_laws`] for its declared orders, and its interpolant obeys the
    /// dense-output order conditions ([`interpolant_conditions`]) up to its declared order.
    pub open spec fn is_consistent(&self) -> bool {
        &&& table_laws(self.model(), S as nat, I as nat, self.order as nat, self.order_embedded as nat)
        &&& interpolant_conditions(self.model(), I as nat, self.order_interpolant as nat)
    }
}

impl ButcherTableu<1, 2> {
    /// Euler method (<https://en.wikipedia.org/wiki/Euler_method>), with linear interpolation.
    pub fn euler() -> (r: Self)
        ensures
            r.model() == euler_model(),
            r.order == 1,
            r.order_embedded == 0,
            r.order_interpolant == 1,
            r.is_consistent(),
    {
        let r = ButcherTableu {
            order: 1,
            order_embedded: 0,
            order_interpolant: 1,
            a: [[Rational::new(0, 1)]],
            b: [Rational::new(1, 1)],
            b2: [Rational::new(0, 1)],
            c: [Rational::new(0, 1)],
            bi: [[Rational::new(0, 1), Rational::new(1, 1)]],
        };
        proof {
            lemma_euler_laws();
            lemma_linear_interpolant(euler_model(), 1, 1, 0);
            assert(r.model().a =~~= euler_model().a);
            assert(r.model().b =~~= euler_model().b);
            assert(r.model().b2 =~~= euler_model().b2);
            assert(r.model().c =~~= euler_model().c);
            assert(r.model().bi =~~= euler_model().bi);
        }
        r
    }
}

impl ButcherTableu<4, 2> {
    /// "The" Runge-Kutta method of order 4, with linear interpolation.
    pub fn rk4() -> (r: Self)
        ensures
            r.model() == rk4_model(),
            r.order == 4,
            r.order_embedded == 2,
            r.order_interpolant == 1,
            r.is_consistent(),
    {
        let r = ButcherTableu {
            order: 4,
            order_embedded: 2,
            order_interpolant: 1,
            a: [[Rational::new(0, 1), Rational::new(0, 1), Rational::new(0, 1), Rational::new(0, 1)], [Rational::new(1, 2), Rational::new(0, 1), Rational::new(0, 1), Rational::new(0, 1)], [Rational::new(0, 1), Rational::new(1, 2), Rational::new(0, 1), Rational::new(0, 1)], [Rational::new(0, 1), Rational::new(0, 1), Rational::new(1, 1), Rational::new(0, 1)]],
            b: [Rational::new(1, 6), Rational::new(1, 3), Rational::new(1, 3), Rational::new(1, 6)],
            b2: [Rational::new(0, 1), Rational::new(1, 1), Rational::new(0, 1), Rational::new(0, 1)],
            c: [Rational::new(0, 1), Rational::new(1, 2), Rational::new(1, 2), Rational::new(1, 1)],
            bi: [[Rational::new(0, 1), Rational::new(1, 6)], [Rational::new(0, 1), Rational::new(1, 3)], [Rational::new(0, 1), Rational::new(1, 3)], [Rational::new(0, 1), Rational::new(1, 6)]],
        };
        proof {
            lemma_rk4_laws();
            lemma_linear_interpolant(rk4_model(), 4, 4, 2);
            assert(r.model().a =~~= rk4_model().a);
            assert(r.model().b =~~= rk4_model().b);
            assert(r.model().b2 =~~= rk4_model().b2);
            assert(r.model().c =~~= rk4_model().c);
            assert(r.model().bi =~~= rk4_model().bi);
        }
        r
    }

    /// The 3/8-rule method of order 4, with linear interpolation.
    pub fn three_eights() -> (r: Self)
        ensures
            r.model() == three_eights_model(),
            r.order == 4,
            r.order_embedded == 2,
            r.order_interpolant == 1,
            r.is_consistent(),
    {
        let r = ButcherTableu {
            order: 4,
            order_embedded: 2,
            order_interpolant: 1,
            a: [[Rational::new(0, 1), Rational::new(0, 1), Rational::new(0, 1), Rational::new(0, 1)], [Rational::new(1, 3), Rational::new(0, 1), Rational::new(0, 1), Rational::new(0, 1)], [Rational::new(-1, 3), Rational::new(1, 1), Rational::new(0, 1), Rational::new(0, 1)], [Rational::new(1, 1), Rational::new(-1, 1), Rational::new(1, 1), Rational::new(0, 1)]],
            b: [Rational::new(1, 8), Rational::new(3, 8), Rational::new(3, 8), Rational::new(1, 8)],
            b2: [Rational::new(-1, 2), Rational::new(3, 2), Rational::new(0, 1), Rational::new(0, 1)],
            c: [Rational::new(0, 1), Rational::new(1, 3), Rational::new(2, 3), Rational::new(1, 1)],
            bi: [[Rational::new(0, 1), Rational::new(1, 8)], [Rational::new(0, 1), Rational::new(3, 8)], [Rational::new(0, 1), Rational::new(3, 8)], [Rational::new(0, 1), Rational::new(1, 8)]],
        };
        proof {
            lemma_three_eights_laws();
            lemma_linear_interpolant(three_eights_model(), 4, 4, 2);
            assert(r.model().a =~~= three_eights_model().a);
            assert(r.model().b =~~= three_eights_model().b);
            assert(r.model().b2 =~~= three_eights_model().b2);
            assert(r.model().c =~~= three_eights_model().c);
            assert(r.model().bi =~~= three_eights_model().bi);
        }
        r
    }
}

impl ButcherTableu<5, 4> {
    /// The classic method of order 4 with an embedded method of order 3 and a cubic interpolant.
    pub fn rk43() -> (r: Self)
        ensures
            r.model() == rk43_model(),
            r.order == 4,
            r.order_embedded == 3,
            r.order_interpolant == 3,
            r.is_consistent(),
    {
        let r = ButcherTableu {
            order: 4,
            order_embedded: 3,
            order_interpolant: 3,
            a: [[Rational::new(0, 1), Rational::new(0, 1), Rational::new(0, 1), Rational::new(0, 1), Rational::new(0, 1)], [Rational::new(1, 2), Rational::new(0, 1), Rational::new(0, 1), Rational::new(0, 1), Rational::new(0, 1)], [Rational::new(0, 1), Rational::new(1, 2), Rational::new(0, 1), Rational::new(0, 1), Rational::new(0, 1)], [Rational::new(0, 1), Rational::new(0, 1), Rational::new(1, 1), Rational::new(0, 1), Rational::new(0, 1)], [Rational::new(5, 32), Rational::new(7, 32), Rational::new(13, 32), Rational::new(-1, 32), Rational::new(0, 1)]],
            b: [Rational::new(1, 6), Rational::new(1, 3), Rational::new(1, 3), Rational::new(1, 6), Rational::new(0, 1)],
            b2: [Rational::new(-1, 2), Rational::new(7, 3), Rational::new(7, 3), Rational::new(13, 6), Rational::new(-16, 3)],
            c: [Rational::new(0, 1), Rational::new(1, 2), Rational::new(1, 2), Rational::new(1, 1), Rational::new(3, 4)],
            bi: [[Rational::new(0, 1), Rational::new(1, 1), Rational::new(-3, 2), Rational::new(2, 3)], [Rational::new(0, 1), Rational::new(0, 1), Rational::new(1, 1), Rational::new(-2, 3)], [Rational::new(0, 1), Rational::new(0, 1), Rational::new(1, 1), Rational::new(-2, 3)], [Rational::new(0, 1), Rational::new(0, 1), Rational::new(-1, 2), Rational::new(2, 3)], [Rational::new(0, 1), Rational::new(0, 1), Rational::new(0, 1), Rational::new(0, 1)]],
        };
        proof {
            lemma_rk43_laws();
            lemma_rk43_dense_output();
            assert(r.model().a =~~= rk43_model().a);
            assert(r.model().b =~~= rk43_model().b);
            assert(r.model().b2 =~~= rk43_model().b2);
            assert(r.model().c =~~= rk43_model().c);
            assert(r.model().bi =~~= rk43_model().bi);
        }
        r
    }
}

impl ButcherTableu<7, 5> {
    /// A method of order 6 with an embedded method of order 4 and an interpolant of degree 4.
    pub fn rktp64() -> (r: Self)
        ensures
            r.model() == rktp64_model(),
            r.order == 6,
            r.order_embedded == 4,
            r.order_interpolant == 4,
            r.is_consistent(),
    {
        let r = ButcherTableu {
            order: 6,
            order_embedded: 4,
            order_interpolant: 4,
            a: [[Rational::new(0, 1), Rational::new(0, 1), Rational::new(0, 1), Rational::new(0, 1), Rational::new(0, 1), Rational::new(0, 1), Rational::new(0, 1)], [Rational::new(4, 27), Rational::new(0, 1), Rational::new(0, 1), Rational::new(0, 1), Rational::new(0, 1), Rational::new(0, 1), Rational::new(0, 1)], [Rational::new(1, 18), Rational::new(1, 6), Rational::new(0, 1), Rational::new(0, 1), Rational::new(0, 1), Rational::new(0, 1), Rational::new(0, 1)], [Rational::new(66, 343), Rational::new(-729, 1372), Rational::new(1053, 1372), Rational::new(0, 1), Rational::new(0, 1), Rational::new(0, 1), Rational::new(0, 1)], [Rational::new(13339, 49152), Rational::new(-4617, 16384), Rational::new(5427, 53248), Rational::new(95207, 159744), Rational::new(0, 1), Rational::new(0, 1), Rational::new(0, 1)], [Rational::new(-6935, 57122), Rational::new(23085, 48334), Rational::new(33363360, 273642941), Rational::new(972160, 118442467), Rational::new(172687360, 610434253), Rational::new(0, 1), Rational::new(0, 1)], [Rational::new(611, 1891), Rational::new(-4617, 7564), Rational::new(6041007, 13176488), Rational::new(12708836, 22100117), Rational::new(-35840000, 62461621), Rational::new(6597591, 7972456), Rational::new(0, 1)]],
            b: [Rational::new(131, 1800), Rational::new(0, 1), Rational::new(1121931, 3902080), Rational::new(319333, 1682928), Rational::new(262144, 2477325), Rational::new(4084223, 15177600), Rational::new(1891, 25200)],
            b2: [Rational::new(2694253, 26100360), Rational::new(0, 1), Rational::new(83647323, 535804360), Rational::new(691202281, 1789061040), Rational::new(-1275547648, 10565208225), Rational::new(2, 5), Rational::new(1891, 25200)],
            c: [Rational::new(0, 1), Rational::new(4, 27), Rational::new(2, 9), Rational::new(3, 7), Rational::new(11, 16), Rational::new(10, 13), Rational::new(1, 1)],
            bi: [[Rational::new(0, 1), Rational::new(1, 1), Rational::new(-287, 90), Rational::new(98, 27), Rational::new(-7387, 5400)], [Rational::new(0, 1), Rational::new(0, 1), Rational::new(0, 1), Rational::new(0, 1), Rational::new(0, 1)], [Rational::new(0, 1), Rational::new(0, 1), Rational::new(191241, 60970), Rational::new(-29727, 6097), Rational::new(7907787, 3902080)], [Rational::new(0, 1), Rational::new(0, 1), Rational::new(195853, 135720), Rational::new(-3773, 1404), Rational::new(36199877, 25243920)], [Rational::new(0, 1), Rational::new(0, 1), Rational::new(-268288, 145725), Rational::new(16384, 3015), Rational::new(-5183488, 1486395)], [Rational::new(0, 1), Rational::new(0, 1), Rational::new(0, 1), Rational::new(0, 1), Rational::new(4084223, 15177600)], [Rational::new(0, 1), Rational::new(0, 1), Rational::new(1891, 4200), Rational::new(-1891, 1260), Rational::new(1891, 1680)]],
        };
        proof {
            lemma_rktp64_laws();
            lemma_rktp64_dense_output();
            assert(r.model().a =~~= rktp64_model().a);
            assert(r.model().b =~~= rktp64_model().b);
            assert(r.model().b2 =~~= rktp64_model().b2);
            assert(r.model().c =~~= rktp64_model().c);
            assert(r.model().bi =~~= rktp64_model().bi);
        }
        r
    }
}

/// `-bx <= x <= bx` and `-by <= y <= by` bound the product `x * y` by `bx * by`.
proof fn lemma_product_bound(x: int, y: int, bx: int, by: int)
    requires
        -bx <= x <= bx,
        -by <= y <= by,
    ensures
        -(bx * by) <= x * y <= bx * by,
{
    assert(-(bx * by) <= x * y <= bx * by) by (nonlinear_arith)
        requires
            -bx <= x <= bx,
            -by <= y <= by,
    ;
}

impl ButcherTableu<2, 2> {
    /// The method of order two whose second node is `c2` (Butcher, "Numerical Methods for
    /// Ordinary Differential Equations", p. 185), with Euler's method embedded and a linear
    /// interpolant: `a21 = c2`, `b = [1 - 1 / (2 c2), 1 / (2 c2)]`.
    pub fn generic_order_2(c2: Rational) -> (r: Self)
        requires
            c2.numer != 0,
            c2.denom != 0,
            i64::MIN <= 2 * c2.numer <= i64::MAX,
            i64::MIN <= 2 * c2.numer - c2.denom <= i64::MAX,
        ensures
            r.model() == generic_order_2_model(c2.numer as int, c2.denom as int),
            r.order == 2,
            r.order_embedded == 1,
            r.order_interpolant == 1,
            r.is_consistent(),
    {
        let n = c2.numer;
        let d = c2.denom;
        let z = Rational::new(0, 1);
        let b0 = Rational::new(2 * n - d, 2 * n);
        let b1 = Rational::new(d, 2 * n);
        let r = ButcherTableu {
            order: 2,
            order_embedded: 1,
            order_interpolant: 1,
            a: [[z, z], [c2, z]],
            b: [b0, b1],
            b2: [Rational::new(1, 1), z],
            c: [z, c2],
            bi: [[z, b0], [z, b1]],
        };
        proof {
            let m = generic_order_2_model(n as int, d as int);
            lemma_generic_order_2_laws(n as int, d as int);
            lemma_linear_interpolant(m, 2, 2, 1);
            assert(r.model().a =~~= m.a);
            assert(r.model().b =~~= m.b);
            assert(r.model().b2 =~~= m.b2);
            assert(r.model().c =~~= m.c);
            assert(r.model().bi =~~= m.bi);
        }
        r
    }

    /// The explicit midpoint method: the method of order two with `c2 = 1/2`.
    pub fn midpoint() -> (r: Self)
        ensures
            r.model() == generic_order_2_model(1, 2),
            r.order == 2,
            r.order_embedded == 1,
            r.order_interpolant == 1,
            r.is_consistent(),
    {
        Self::generic_order_2(Rational::new(1, 2))
    }

    /// Heun's method: the method of order two with `c2 = 1`.
    pub fn heun2() -> (r: Self)
        ensures
            r.model() == generic_order_2_model(1, 1),
            r.order == 2,
            r.order_embedded == 1,
            r.order_interpolant == 1,
            r.is_consistent(),
    {
        Self::generic_order_2(Rational::new(1, 1))
    }

    /// Ralston's method of order two: the method of order two with `c2 = 2/3`.
    pub fn ralston2() -> (r: Self)
        ensures
            r.model() == generic_order_2_model(2, 3),
            r.order == 2,
            r.order_embedded == 1,
            r.order_interpolant == 1,
            r.is_consistent(),
    {
        Self::generic_order_2(Rational::new(2, 3))
    }
}

/// The inputs on which [`ButcherTableu::generic_order_3`] builds a method: nonzero
/// denominators, numerators and denominators of at most `2^15` in absolute value, and one of the
/// three cases in which the nodes `c2`, `c3` (and the last weight `b3`) determine a method of
/// order three:
/// - no `b3`, and `c2`, `c3` nonzero, `c2 != c3`, `c2 != 2/3`;
/// - `c2 = c3 = 2/3` and a nonzero `b3`;
/// - `c2 = 2/3`, `c3 = 0` and a nonzero `b3`.
pub open spec fn generic_order_3_accepts(c2: Rational, c3: Rational, b3: Option<Rational>) -> bool {
    let n = c2.numer as int;
    let d = c2.denom as int;
    let r = c3.numer as int;
    let s = c3.denom as int;
    &&& d != 0 && s != 0
    &&& c2.is_small() && c3.is_small()
    &&& match b3 {
        None => n != 0 && r != 0 && r * d != n * s && 3 * n != 2 * d,
        Some(w) => {
            &&& w.denom != 0 && w.numer != 0 && w.is_small()
            &&& 3 * n == 2 * d
            &&& (3 * r == 2 * s || r == 0)
        },
    }
}

/// The coefficients that [`ButcherTableu::generic_order_3`] builds, in each of its cases.
pub open spec fn generic_order_3_model(c2: Rational, c3: Rational, b3: Option<Rational>) -> TableauModel {
    let n = c2.numer as int;
    let d = c2.denom as int;
    let r = c3.numer as int;
    let s = c3.denom as int;
    match b3 {
        None => generic_order_3_first_case(n, d, r, s),
        Some(w) => if r == 0 {
            generic_order_3_third_case(n, d, r, s, w.numer as int, w.denom as int)
        } else {
            generic_order_3_second_case(n, d, r, s, w.numer as int, w.denom as int)
        },
    }
}

impl ButcherTableu<3, 2> {
    /// The method of order three with the nodes `c2`, `c3` (Butcher, "Numerical Methods for
    /// Ordinary Differential Equations", p. 186), with the method of order two of node `c2`
    /// embedded and a linear interpolant. Where the nodes leave the method undetermined
    /// (`c2 = 2/3` and `c3` is `2/3` or `0`), the last weight `b3` is given.
    pub fn generic_order_3(c2: Rational, c3: Rational, b3: Option<Rational>) -> (t: Self)
        requires
            generic_order_3_accepts(c2, c3, b3),
        ensures
            t.model() == generic_order_3_model(c2, c3, b3),
            t.order == 3,
            t.order_embedded == 2,
            t.order_interpolant == 1,
            t.is_consistent(),
    {
        let n = c2.numer;
        let d = c2.denom;
        let r = c3.numer;
        let s = c3.denom;
        let z = Rational::new(0, 1);
        let g = [Rational::new(2 * n - d, 2 * n), Rational::new(d, 2 * n), z];
        let (a31, a32, b): (Rational, Rational, [Rational; 3]) = match b3 {
            None => {
                proof {
                    lemma_product_bound(3 * n, s as int, 98304, 32768);
                    lemma_product_bound(3 * n * s, d - n, 3221225472, 65536);
                    lemma_product_bound(r as int, d as int, 32768, 32768);
                    lemma_product_bound(r * d, d as int, 1073741824, 32768);
                    lemma_product_bound(
                        r as int,
                        3 * n * s * (d - n) - r * d * d,
                        32768,
                        246290604621824,
                    );
                    lemma_product_bound(s as int, s as int, 32768, 32768);
                    lemma_product_bound(s * s, n as int, 1073741824, 32768);
                    lemma_product_bound(s * s * n, 2 * d - 3 * n, 35184372088832, 163840);
                    lemma_product_bound(n as int, s as int, 32768, 32768);
                    lemma_product_bound(r * d, r * d - n * s, 1073741824, 2147483648);
                    lemma_product_bound(6 * n, r as int, 196608, 32768);
                    lemma_product_bound(3 * n, s as int, 98304, 32768);
                    lemma_product_bound(3 * r, d as int, 98304, 32768);
                    lemma_product_bound(2 * d, s as int, 65536, 32768);
                    lemma_product_bound(3 * r - 2 * s, d as int, 163840, 32768);
                    lemma_product_bound((3 * r - 2 * s) * d, d as int, 5368709120, 32768);
                    lemma_product_bound(6 * n, r * d - n * s, 196608, 2147483648);
                    lemma_product_bound(2 * d - 3 * n, s as int, 163840, 32768);
                    lemma_product_bound((2 * d - 3 * n) * s, s as int, 5368709120, 32768);
                    lemma_product_bound(6 * r, r * d - n * s, 196608, 2147483648);
                }
                let f = 2 * d - 3 * n;
                let e = r * d - n * s;
                let ad = s * s * n * f;
                (
                    Rational::new(r * (3 * n * s * (d - n) - r * d * d), ad),
                    Rational::new(r * d * e, ad),
                    [
                        Rational::new(6 * n * r - 3 * n * s - 3 * r * d + 2 * d * s, 6 * n * r),
                        Rational::new((3 * r - 2 * s) * d * d, 6 * n * e),
                        Rational::new(f * s * s, 6 * r * e),
                    ],
                )
            },
            Some(w) => {
                let u = w.numer;
                let v = w.denom;
                if r == 0 {
                    (
                        Rational::new(-v, 4 * u),
                        Rational::new(v, 4 * u),
                        [Rational::new(v - 4 * u, 4 * v), Rational::new(3, 4), w],
                    )
                } else {
                    (
                        Rational::new(8 * u - 3 * v, 12 * u),
                        Rational::new(v, 4 * u),
                        [Rational::new(1, 4), Rational::new(3 * v - 4 * u, 4 * v), w],
                    )
                }
            },
        };
        let t = ButcherTableu {
            order: 3,
            order_embedded: 2,
            order_interpolant: 1,
            a: [[z, z, z], [c2, z, z], [a31, a32, z]],
            b: b,
            b2: g,
            c: [z, c2, c3],
            bi: [[z, b[0]], [z, b[1]], [z, b[2]]],
        };
        proof {
            let m = generic_order_3_model(c2, c3, b3);
            if b3.is_none() {
                lemma_generic_order_3_first_case_laws(n as int, d as int, r as int, s as int);
            }
            if let Some(w) = b3 {
                if r == 0 {
                    lemma_generic_order_3_third_case_laws(
                        n as int,
                        d as int,
                        r as int,
                        s as int,
                        w.numer as int,
                        w.denom as int,
                    );
                } else {
                    lemma_generic_order_3_second_case_laws(
                        n as int,
                        d as int,
                        r as int,
                        s as int,
                        w.numer as int,
                        w.denom as int,
                    );
                }
            }
            assert(t.model().a =~~= m.a);
            assert(t.model().b =~~= m.b);
            assert(t.model().b2 =~~= m.b2);
            assert(t.model().c =~~= m.c);
            assert(t.model().bi =~~= m.bi);
            lemma_linear_interpolant(m, 3, 3, 2);
        }
        t
    }

    /// Kutta's method of order three: `c2 = 1/2`, `c3 = 1`.
    pub fn kutta3() -> (t: Self)
        ensures
            t.model() == generic_order_3_first_case(1, 2, 1, 1),
            t.order == 3,
            t.order_embedded == 2,
            t.order_interpolant == 1,
            t.is_consistent(),
    {
        Self::generic_order_3(Rational::new(1, 2), Rational::new(1, 1), None)
    }

    /// Heun's method of order three: `c2 = 1/3`, `c3 = 2/3`.
    pub fn heun3() -> (t: Self)
        ensures
            t.model() == generic_order_3_first_case(1, 3, 2, 3),
            t.order == 3,
            t.order_embedded == 2,
            t.order_interpolant == 1,
            t.is_consistent(),
    {
        Self::generic_order_3(Rational::new(1, 3), Rational::new(2, 3), None)
    }

    /// Ralston's method of order three: `c2 = 1/2`, `c3 = 3/4` (the method embedded in Bogacki-Shampine).
    pub fn ralston3() -> (t: Self)
        ensures
            t.model() == generic_order_3_first_case(1, 2, 3, 4),
            t.order == 3,
            t.order_embedded == 2,
            t.order_interpolant == 1,
            t.is_consistent(),
    {
        Self::generic_order_3(Rational::new(1, 2), Rational::new(3, 4), None)
    }

    /// Wray's method of order three: `c2 = 8/15`, `c3 = 2/3`.
    pub fn wray3() -> (t: Self)
        ensures
            t.model() == generic_order_3_first_case(8, 15, 2, 3),
            t.order == 3,
            t.order_embedded == 2,
            t.order_interpolant == 1,
            t.is_consistent(),
    {
        Self::generic_order_3(Rational::new(8, 15), Rational::new(2, 3), None)
    }

    /// The strong-stability-preserving method of order three: `c2 = 1`, `c3 = 1/2`.
    pub fn ssp3() -> (t: Self)
        ensures
            t.model() == generic_order_3_first_case(1, 1, 1, 2),
            t.order == 3,
            t.order_embedded == 2,
            t.order_interpolant == 1,
            t.is_consistent(),
    {
        Self::generic_order_3(Rational::new(1, 1), Rational::new(1, 2), None)
    }
}

} // verus!
