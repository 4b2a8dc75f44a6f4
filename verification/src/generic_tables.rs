//! The families of Runge-Kutta methods of orders two and three with free nodes (Butcher,
//! "Numerical Methods for Ordinary Differential Equations", pp. 185-186), as functions of the
//! nodes, and the proofs that every member obeys the laws of its order.
use crate::order_conditions::{
    elementary_weights, interpolation_is_continuous, is_explicit, nodes_are_row_sums,
    order_conditions, table_laws, tree_order, well_shaped, TableauModel,
};
use crate::rational::{
    lemma_q_add_value, lemma_q_dot_congruent, lemma_q_eq_trans, lemma_q_mat_vec_congruent,
    lemma_q_mul_value, lemma_q_sum_to_congruent, q, q_add, q_dot, q_eq, q_hadamard, q_int,
    q_is_zero, q_mat_vec, q_mat_valid, q_mul, q_ones, q_sum_to, q_total, q_valid, q_vec_eq,
    q_vec_valid, Q,
};
use vstd::prelude::*;

verus! {

/// The sum of a sequence of two numbers, unfolded.
proof fn lemma_total_of_two(s: Seq<Q>)
    requires
        s.len() == 2,
    ensures
        q_total(s) == q_add_three(q_int(0), s[0], s[1]),
{
    reveal_with_fuel(q_sum_to, 3);
}

/// The sum of a sequence of three numbers, unfolded.
proof fn lemma_total_of_three(s: Seq<Q>)
    requires
        s.len() == 3,
    ensures
        q_total(s) == q_add(q_add_three(q_int(0), s[0], s[1]), s[2]),
{
    reveal_with_fuel(q_sum_to, 4);
}

/// `(x + y) + z`.
pub open spec fn q_add_three(x: Q, y: Q, z: Q) -> Q {
    q_add(q_add(x, y), z)
}

/// `q(a, b) + q(c, d) + q(e, f)`, written out.
proof fn lemma_add_three_value(a: int, b: int, c: int, d: int, e: int, f: int)
    ensures
        q_add_three(q(a, b), q(c, d), q(e, f)) == q((a * d + c * b) * f + e * (b * d), (b * d) * f),
{
    lemma_q_add_value(a, b, c, d);
    lemma_q_add_value(a * d + c * b, b * d, e, f);
}

/// The coefficients of the method of order two whose second node is `n / d`.
pub open spec fn generic_order_2_model(n: int, d: int) -> TableauModel {
    TableauModel {
        a: seq![seq![q(0, 1), q(0, 1)], seq![q(n, d), q(0, 1)]],
        b: seq![q(2 * n - d, 2 * n), q(d, 2 * n)],
        b2: seq![q(1, 1), q(0, 1)],
        c: seq![q(0, 1), q(n, d)],
        bi: seq![seq![q(0, 1), q(2 * n - d, 2 * n)], seq![q(0, 1), q(d, 2 * n)]],
    }
}

/// Every member of the family of order two, with a nonzero second node, obeys the laws of a
/// method of order two with an embedded method of order one.
pub proof fn lemma_generic_order_2_laws(n: int, d: int)
    requires
        n != 0,
        d != 0,
    ensures
        table_laws(generic_order_2_model(n, d), 2, 2, 2, 1),
{
    let m = generic_order_2_model(n, d);
    assert(2 * n != 0);
    assert(well_shaped(m, 2, 2));
    assert(is_explicit(m));
    // rows of `a`
    lemma_total_of_two(m.a[0]);
    lemma_add_three_value(0, 1, 0, 1, 0, 1);
    reveal(q_eq);
    lemma_total_of_two(m.a[1]);
    lemma_add_three_value(0, 1, n, d, 0, 1);
    assert(nodes_are_row_sums(m));
    lemma_total_of_two(m.bi[0]);
    lemma_add_three_value(0, 1, 0, 1, 2 * n - d, 2 * n);
    lemma_total_of_two(m.bi[1]);
    lemma_add_three_value(0, 1, 0, 1, d, 2 * n);
    assert(interpolation_is_continuous(m));
    // the weights of `b` and `b2` against the vector of ones
    let ones = q_ones(2);
    assert(elementary_weights(m.a, 0) == ones);
    assert(ones[0] == q(1, 1) && ones[1] == q(1, 1));
    assert(q_hadamard(m.b, ones)[0] == q_mul(q(2 * n - d, 2 * n), q(1, 1)));
    assert(q_hadamard(m.b, ones)[1] == q_mul(q(d, 2 * n), q(1, 1)));
    lemma_total_of_two(q_hadamard(m.b, ones));
    lemma_q_mul_value(2 * n - d, 2 * n, 1, 1);
    lemma_q_mul_value(d, 2 * n, 1, 1);
    lemma_add_three_value(0, 1, (2 * n - d) * 1, 2 * n * 1, d * 1, 2 * n * 1);
    assert(((0 * (2 * n * 1) + (2 * n - d) * 1 * 1) * (2 * n * 1) + d * 1 * (1 * (2 * n * 1)))
        == (1 * (2 * n * 1)) * (2 * n * 1)) by (nonlinear_arith);
    assert(q_total(q_hadamard(m.b, ones)) == q_add_three(
        q(0, 1),
        q((2 * n - d) * 1, 2 * n * 1),
        q(d * 1, 2 * n * 1),
    ));
    assert(q_dot(m.b, ones) == q(
        (0 * (2 * n * 1) + (2 * n - d) * 1 * 1) * (2 * n * 1) + d * 1 * (1 * (2 * n * 1)),
        (1 * (2 * n * 1)) * (2 * n * 1),
    ));
    let num = (0 * (2 * n * 1) + (2 * n - d) * 1 * 1) * (2 * n * 1) + d * 1 * (1 * (2 * n * 1));
    let den = (1 * (2 * n * 1)) * (2 * n * 1);
    assert(num == den) by (nonlinear_arith)
        requires
            num == (0 * (2 * n * 1) + (2 * n - d) * 1 * 1) * (2 * n * 1) + d * 1 * (1 * (2 * n
                * 1)),
            den == (1 * (2 * n * 1)) * (2 * n * 1),
    ;
    assert(num * 1 == 1 * den);
    assert(q_eq(q(num, den), q(1, 1)));
    assert(q_eq(q_dot(m.b, ones), q(1, 1)));
    lemma_total_of_two(q_hadamard(m.b2, ones));
    lemma_q_mul_value(1, 1, 1, 1);
    lemma_q_mul_value(0, 1, 1, 1);
    lemma_add_three_value(0, 1, 1, 1, 0, 1);
    assert(q_eq(q_dot(m.b2, ones), q(1, 1)));
    // the weights of `b` against the nodes
    let phi1 = q_mat_vec(m.a, ones);
    assert(elementary_weights(m.a, 1) == phi1);
    assert(phi1[0] == q_dot(m.a[0], ones));
    assert(phi1[1] == q_dot(m.a[1], ones));
    lemma_total_of_two(q_hadamard(m.a[0], ones));
    lemma_q_mul_value(0, 1, 1, 1);
    lemma_add_three_value(0, 1, 0int * 1, 1int * 1, 0int * 1, 1int * 1);
    lemma_total_of_two(q_hadamard(m.a[1], ones));
    lemma_q_mul_value(n, d, 1, 1);
    lemma_add_three_value(0, 1, n * 1, d * 1, 0int * 1, 1int * 1);
    assert(q_vec_eq(phi1, m.c));
    lemma_q_dot_congruent(m.b, phi1, m.c);
    lemma_total_of_two(q_hadamard(m.b, m.c));
    lemma_q_mul_value(2 * n - d, 2 * n, 0, 1);
    lemma_q_mul_value(d, 2 * n, n, d);
    lemma_add_three_value(0, 1, (2 * n - d) * 0, 2 * n * 1, d * n, 2 * n * d);
    assert(((0 * (2 * n * 1) + (2 * n - d) * 0 * 1) * (2 * n * d) + d * n * (1 * (2 * n * 1))) * 2
        == 1 * ((1 * (2 * n * 1)) * (2 * n * d))) by (nonlinear_arith);
    assert(q_valid(q_dot(m.b, m.c))) by (nonlinear_arith)
        requires
            q_dot(m.b, m.c) == q(
                (0 * (2 * n * 1) + (2 * n - d) * 0 * 1) * (2 * n * d) + d * n * (1 * (2 * n * 1)),
                (1 * (2 * n * 1)) * (2 * n * d),
            ),
            n != 0,
            d != 0,
    ;
    lemma_q_eq_trans(q_dot(m.b, phi1), q_dot(m.b, m.c), q(1, 2));
    assert forall|k: int|
        #![trigger elementary_weights(m.a, k)]
        0 <= k < 37 && tree_order(k) <= 2 implies q_eq(
        q_dot(m.b, elementary_weights(m.a, k)),
        q(1, crate::order_conditions::tree_density(k)),
    ) by {
        if k == 0 {
        } else {
            assert(k == 1);
        }
    }
    assert(order_conditions(m, m.b, 2));
    assert forall|k: int|
        #![trigger elementary_weights(m.a, k)]
        0 <= k < 37 && tree_order(k) <= 1 implies q_eq(
        q_dot(m.b2, elementary_weights(m.a, k)),
        q(1, crate::order_conditions::tree_density(k)),
    ) by {
        assert(k == 0);
    }
    assert(order_conditions(m, m.b2, 1));
}


/// A product of two fractions, checked by cross multiplication.
proof fn lemma_mul_is(xn: int, xd: int, yn: int, yd: int, zn: int, zd: int)
    requires
        xd != 0,
        yd != 0,
        zd != 0,
        xn * yn * zd == zn * (xd * yd),
    ensures
        q_eq(q_mul(q(xn, xd), q(yn, yd)), q(zn, zd)),
        q_valid(q_mul(q(xn, xd), q(yn, yd))),
{
    reveal(q_eq);
    lemma_q_mul_value(xn, xd, yn, yd);
    assert(xd * yd != 0) by (nonlinear_arith)
        requires
            xd != 0,
            yd != 0,
    ;
}

/// Two fractions stand for the same number, checked by cross multiplication.
proof fn lemma_eq_is(xn: int, xd: int, zn: int, zd: int)
    requires
        xn * zd == zn * xd,
    ensures
        q_eq(q(xn, xd), q(zn, zd)),
{
    reveal(q_eq);
}

/// The sum of three fractions with one denominator.
proof fn lemma_total_common(u0: int, u1: int, u2: int, e: int)
    requires
        e != 0,
    ensures
        q_eq(q_total(seq![q(u0, e), q(u1, e), q(u2, e)]), q(u0 + u1 + u2, e)),
        q_valid(q_total(seq![q(u0, e), q(u1, e), q(u2, e)])),
{
    let t = seq![q(u0, e), q(u1, e), q(u2, e)];
    lemma_total_of_three(t);
    lemma_add_three_value(0, 1, u0, e, u1, e);
    lemma_q_add_value((0 * e + u0 * 1) * e + u1 * (1 * e), (1 * e) * e, u2, e);
    reveal(q_eq);
    let x = (0 * e + u0 * 1) * e + u1 * (1 * e);
    let y = (1 * e) * e;
    assert((x * e + u2 * y) * e == (u0 + u1 + u2) * (y * e) && y * e != 0) by (nonlinear_arith)
        requires
            x == (0 * e + u0 * 1) * e + u1 * (1 * e),
            y == (1 * e) * e,
            e != 0,
    ;
}

/// The sum of a sequence of three numbers, from fractions with one denominator that they stand
/// for.
proof fn lemma_total_is(x: Seq<Q>, u0: int, u1: int, u2: int, e: int)
    requires
        x.len() == 3,
        e != 0,
        q_valid(x[0]),
        q_valid(x[1]),
        q_valid(x[2]),
        q_eq(x[0], q(u0, e)),
        q_eq(x[1], q(u1, e)),
        q_eq(x[2], q(u2, e)),
    ensures
        q_eq(q_total(x), q(u0 + u1 + u2, e)),
        q_valid(q_total(x)),
{
    let t = seq![q(u0, e), q(u1, e), q(u2, e)];
    assert(q_vec_eq(x, t));
    lemma_q_sum_to_congruent(x, t, 3);
    lemma_total_common(u0, u1, u2, e);
    lemma_q_eq_trans(q_total(x), q_total(t), q(u0 + u1 + u2, e));
}

/// The dot product of two sequences of three numbers, from fractions with one denominator that
/// the products stand for.
proof fn lemma_dot_is(w: Seq<Q>, v: Seq<Q>, u0: int, u1: int, u2: int, e: int)
    requires
        w.len() == 3,
        v.len() == 3,
        e != 0,
        q_valid(q_mul(w[0], v[0])),
        q_valid(q_mul(w[1], v[1])),
        q_valid(q_mul(w[2], v[2])),
        q_eq(q_mul(w[0], v[0]), q(u0, e)),
        q_eq(q_mul(w[1], v[1]), q(u1, e)),
        q_eq(q_mul(w[2], v[2]), q(u2, e)),
    ensures
        q_eq(q_dot(w, v), q(u0 + u1 + u2, e)),
        q_valid(q_dot(w, v)),
{
    let h = q_hadamard(w, v);
    assert(h[0] == q_mul(w[0], v[0]) && h[1] == q_mul(w[1], v[1]) && h[2] == q_mul(w[2], v[2]));
    lemma_total_is(h, u0, u1, u2, e);
}

/// A number given as a fraction stands for `tn / td`, when it is `sum / e`.
proof fn lemma_chain_to(x: Q, sum: int, e: int, tn: int, td: int)
    requires
        e != 0,
        q_eq(x, q(sum, e)),
        sum * td == tn * e,
    ensures
        q_eq(x, q(tn, td)),
{
    reveal(q_eq);
    lemma_q_eq_trans(x, q(sum, e), q(tn, td));
}

/// The coefficients of an explicit method with three stages and a linear interpolant.
pub open spec fn three_stage_model(
    a21: Q,
    a31: Q,
    a32: Q,
    b: Seq<Q>,
    g: Seq<Q>,
    c2: Q,
    c3: Q,
) -> TableauModel {
    TableauModel {
        a: seq![seq![q(0, 1), q(0, 1), q(0, 1)], seq![a21, q(0, 1), q(0, 1)], seq![a31, a32, q(0, 1)]],
        b: b,
        b2: g,
        c: seq![q(0, 1), c2, c3],
        bi: seq![seq![q(0, 1), b[0]], seq![q(0, 1), b[1]], seq![q(0, 1), b[2]]],
    }
}

/// The order conditions of a method with three stages, from its first elementary weights.
proof fn lemma_three_stage_laws(m: TableauModel, w3: Seq<Q>)
    requires
        well_shaped(m, 3, 2),
        is_explicit(m),
        nodes_are_row_sums(m),
        interpolation_is_continuous(m),
        q_vec_eq(q_mat_vec(m.a, q_ones(3)), m.c),
        q_vec_eq(q_mat_vec(m.a, m.c), w3),
        q_eq(q_dot(m.b, q_ones(3)), q(1, 1)),
        q_eq(q_dot(m.b, m.c), q(1, 2)),
        q_eq(q_dot(m.b, q_hadamard(m.c, m.c)), q(1, 3)),
        q_eq(q_dot(m.b, w3), q(1, 6)),
        q_eq(q_dot(m.b2, q_ones(3)), q(1, 1)),
        q_eq(q_dot(m.b2, m.c), q(1, 2)),
    ensures
        table_laws(m, 3, 2, 3, 2),
{
    let ones = q_ones(3);
    let phi1 = q_mat_vec(m.a, ones);
    assert forall|i: int| 0 <= i < 3 implies q_valid(#[trigger] m.b[i]) && q_valid(m.b2[i]) by {
        assert(q_valid(m.b[i]));
    }
    assert(q_vec_valid(m.b));
    assert forall|i: int| 0 <= i < 3 implies q_valid(#[trigger] m.b2[i]) by {
        assert(q_valid(m.b[i]));
    }
    assert forall|i: int| 0 <= i < 3 implies #[trigger] m.a[i].len() == 3 && q_vec_valid(m.a[i]) by {
        assert(m.a[i].len() == 3);
        assert forall|j: int| 0 <= j < 3 implies q_valid(#[trigger] m.a[i][j]) by {
            assert(q_valid(m.a[i][j]));
        }
    }
    // trees with two vertices
    lemma_q_dot_congruent(m.b, phi1, m.c);
    lemma_q_eq_trans(q_dot(m.b, phi1), q_dot(m.b, m.c), q(1, 2));
    lemma_q_dot_congruent(m.b2, phi1, m.c);
    lemma_q_eq_trans(q_dot(m.b2, phi1), q_dot(m.b2, m.c), q(1, 2));
    // the bushy tree with three vertices
    let phi2 = q_hadamard(phi1, phi1);
    crate::rational::lemma_q_hadamard_congruent(phi1, m.c, phi1, m.c);
    lemma_q_dot_congruent(m.b, phi2, q_hadamard(m.c, m.c));
    lemma_q_eq_trans(q_dot(m.b, phi2), q_dot(m.b, q_hadamard(m.c, m.c)), q(1, 3));
    // the tall tree with three vertices
    let phi3 = q_mat_vec(m.a, phi1);
    lemma_q_mat_vec_congruent(m.a, phi1, m.c);
    crate::rational::lemma_q_vec_eq_trans(phi3, q_mat_vec(m.a, m.c), w3);
    lemma_q_dot_congruent(m.b, phi3, w3);
    lemma_q_eq_trans(q_dot(m.b, phi3), q_dot(m.b, w3), q(1, 6));
    assert(elementary_weights(m.a, 0) == ones);
    assert(elementary_weights(m.a, 1) == phi1);
    assert(elementary_weights(m.a, 2) == phi2);
    assert(elementary_weights(m.a, 3) == phi3);
    assert forall|k: int|
        #![trigger elementary_weights(m.a, k)]
        0 <= k < 37 && tree_order(k) <= 3 implies q_eq(
        q_dot(m.b, elementary_weights(m.a, k)),
        q(1, crate::order_conditions::tree_density(k)),
    ) by {
        if k == 0 {
        } else if k == 1 {
        } else if k == 2 {
        } else {
            assert(k == 3);
        }
    }
    assert forall|k: int|
        #![trigger elementary_weights(m.a, k)]
        0 <= k < 37 && tree_order(k) <= 2 implies q_eq(
        q_dot(m.b2, elementary_weights(m.a, k)),
        q(1, crate::order_conditions::tree_density(k)),
    ) by {
        if k == 0 {
        } else {
            assert(k == 1);
        }
    }
}

/// A row of `a` sums to the node `cn / cd`, checked on fractions with one denominator.
proof fn lemma_row_is(x: Seq<Q>, cn: int, cd: int, u0: int, u1: int, u2: int, e: int)
    requires
        x.len() == 3,
        e != 0,
        cd != 0,
        q_valid(x[0]),
        q_valid(x[1]),
        q_valid(x[2]),
        q_eq(x[0], q(u0, e)),
        q_eq(x[1], q(u1, e)),
        q_eq(x[2], q(u2, e)),
        (u0 + u1 + u2) * cd == cn * e,
    ensures
        q_eq(q(cn, cd), q_total(x)),
{
    lemma_total_is(x, u0, u1, u2, e);
    lemma_chain_to(q_total(x), u0 + u1 + u2, e, cn, cd);
    crate::rational::lemma_q_eq_symmetric(q_total(x), q(cn, cd));
}

/// The interpolation polynomial `b * theta` sums to `b` at `theta = 1`.
proof fn lemma_linear_interpolant(bn: int, bd: int)
    requires
        bd != 0,
    ensures
        q_eq(q_total(seq![q(0, 1), q(bn, bd)]), q(bn, bd)),
{
    let t = seq![q(0, 1), q(bn, bd)];
    lemma_total_of_two(t);
    assert(t[0] == q(0, 1) && t[1] == q(bn, bd));
    lemma_add_three_value(0, 1, 0, 1, bn, bd);
    assert(q_total(t) == q((0 * 1 + 0 * 1) * bd + bn * (1 * 1), (1 * 1) * bd));
    lemma_eq_is((0 * 1 + 0 * 1) * bd + bn * (1 * 1), (1 * 1) * bd, bn, bd);
}

/// The coefficients of the method of order three with the nodes `c2 = n / d` and
/// `c3 = r / s`, in the case where they determine the method.
pub open spec fn generic_order_3_first_case(n: int, d: int, r: int, s: int) -> TableauModel {
    let e = r * d - n * s;
    let f = 2 * d - 3 * n;
    three_stage_model(
        q(n, d),
        q(r * (3 * n * s * (d - n) - r * d * d), s * s * n * f),
        q(r * d * e, s * s * n * f),
        seq![
            q(6 * n * r - 3 * n * s - 3 * r * d + 2 * d * s, 6 * n * r),
            q((3 * r - 2 * s) * d * d, 6 * n * e),
            q(f * s * s, 6 * r * e),
        ],
        seq![q(2 * n - d, 2 * n), q(d, 2 * n), q(0, 1)],
        q(n, d),
        q(r, s),
    )
}

/// The coefficients of the method of order three with the nodes `c2 = n / d = 2 / 3` and
/// `c3 = r / s = 2 / 3`, and the last weight `u / v`.
pub open spec fn generic_order_3_second_case(
    n: int,
    d: int,
    r: int,
    s: int,
    u: int,
    v: int,
) -> TableauModel {
    three_stage_model(
        q(n, d),
        q(8 * u - 3 * v, 12 * u),
        q(v, 4 * u),
        seq![q(1, 4), q(3 * v - 4 * u, 4 * v), q(u, v)],
        seq![q(2 * n - d, 2 * n), q(d, 2 * n), q(0, 1)],
        q(n, d),
        q(r, s),
    )
}

/// The coefficients of the method of order three with the nodes `c2 = n / d = 2 / 3` and
/// `c3 = r / s = 0`, and the last weight `u / v`.
pub open spec fn generic_order_3_third_case(
    n: int,
    d: int,
    r: int,
    s: int,
    u: int,
    v: int,
) -> TableauModel {
    three_stage_model(
        q(n, d),
        q(-v, 4 * u),
        q(v, 4 * u),
        seq![q(v - 4 * u, 4 * v), q(3, 4), q(u, v)],
        seq![q(2 * n - d, 2 * n), q(d, 2 * n), q(0, 1)],
        q(n, d),
        q(r, s),
    )
}

/// The weights of the embedded method of order two, whose second node is `n / d`, against the
/// vector of ones and against the nodes `0, n / d, rn / rd`.
proof fn lemma_embedded_order_2(g: Seq<Q>, c: Seq<Q>, n: int, d: int, rn: int, rd: int)
    requires
        n != 0,
        d != 0,
        rd != 0,
        g == seq![q(2 * n - d, 2 * n), q(d, 2 * n), q(0, 1)],
        c == seq![q(0, 1), q(n, d), q(rn, rd)],
    ensures
        q_eq(q_dot(g, q_ones(3)), q(1, 1)),
        q_eq(q_dot(g, c), q(1, 2)),
{
    let ones = q_ones(3);
    assert(ones[0] == q(1, 1) && ones[1] == q(1, 1) && ones[2] == q(1, 1));
    lemma_mul_is(2 * n - d, 2 * n, 1, 1, 2 * n - d, 2 * n);
    lemma_mul_is(d, 2 * n, 1, 1, d, 2 * n);
    lemma_mul_is(0, 1, 1, 1, 0, 2 * n);
    lemma_dot_is(g, ones, 2 * n - d, d, 0, 2 * n);
    lemma_chain_to(q_dot(g, ones), 2 * n - d + d + 0, 2 * n, 1, 1);
    lemma_mul_is(2 * n - d, 2 * n, 0, 1, 0, 2);
    assert(d * n * 2 == 1 * (2 * n * d)) by (nonlinear_arith);
    lemma_mul_is(d, 2 * n, n, d, 1, 2);
    lemma_mul_is(0, 1, rn, rd, 0, 2);
    lemma_dot_is(g, c, 0, 1, 0, 2);
    lemma_chain_to(q_dot(g, c), 0int + 1 + 0, 2, 1, 2);
}

/// The node `n / d = 2 / 3` written as `2 k / 3 k`.
proof fn lemma_two_thirds(n: int, d: int) -> (k: int)
    requires
        3 * n == 2 * d,
        d != 0,
    ensures
        n == 2 * k,
        d == 3 * k,
        k != 0,
        n * n == 4 * (k * k),
        d * d == 9 * (k * k),
{
    let k = n / 2;
    assert(n == 2 * k);
    assert(d == 3 * k);
    assert(n * n == 4 * (k * k)) by (nonlinear_arith)
        requires
            n == 2 * k,
    ;
    assert(d * d == 9 * (k * k)) by (nonlinear_arith)
        requires
            d == 3 * k,
    ;
    k
}

/// In the second case (`c2 = c3 = 2/3`, with a nonzero last weight `b3 = u / v`), every member
/// of the family obeys the laws of a method of order three with an embedded method of order two.
pub proof fn lemma_generic_order_3_second_case_laws(n: int, d: int, r: int, s: int, u: int, v: int)
    requires
        d != 0,
        s != 0,
        u != 0,
        v != 0,
        3 * n == 2 * d,
        3 * r == 2 * s,
    ensures
        table_laws(generic_order_3_second_case(n, d, r, s, u, v), 3, 2, 3, 2),
{
    let m = generic_order_3_second_case(n, d, r, s, u, v);
    let k = lemma_two_thirds(n, d);
    let j = lemma_two_thirds(r, s);
    let t = 3 * v - 4 * u;
    let kk = k * k;
    let jj = j * j;
    assert(4 * u != 0 && 12 * u != 0 && 4 * v != 0 && 2 * n != 0 && 6 * v != 0 && 9 * v != 0);
    assert(4 * u * d != 0 && d * d != 0 && s * s != 0) by (nonlinear_arith)
        requires
            u != 0,
            d != 0,
            s != 0,
    ;
    assert(well_shaped(m, 3, 2));
    assert(is_explicit(m));
    let ones = q_ones(3);
    assert(ones[0] == q(1, 1) && ones[1] == q(1, 1) && ones[2] == q(1, 1));
    // rows
    lemma_eq_is(0, 1, 0, 1);
    lemma_eq_is(0, 1, 0, d);
    lemma_eq_is(n, d, n, d);
    lemma_eq_is(8 * u - 3 * v, 12 * u, 8 * u - 3 * v, 12 * u);
    assert(v * (12 * u) == 3 * v * (4 * u)) by (nonlinear_arith);
    lemma_eq_is(v, 4 * u, 3 * v, 12 * u);
    lemma_eq_is(0, 1, 0, 12 * u);
    lemma_row_is(m.a[0], 0, 1, 0, 0, 0, 1);
    lemma_row_is(m.a[1], n, d, n, 0, 0, d);
    assert((8 * u - 3 * v + 3 * v + 0) * s == r * (12 * u)) by (nonlinear_arith)
        requires
            r == 2 * j,
            s == 3 * j,
    ;
    lemma_row_is(m.a[2], r, s, 8 * u - 3 * v, 3 * v, 0, 12 * u);
    assert(nodes_are_row_sums(m));
    lemma_linear_interpolant(1, 4);
    lemma_linear_interpolant(t, 4 * v);
    lemma_linear_interpolant(u, v);
    assert(interpolation_is_continuous(m));
    // the first elementary weights are the nodes
    let phi1 = q_mat_vec(m.a, ones);
    lemma_mul_is(0, 1, 1, 1, 0, 1);
    lemma_mul_is(0, 1, 1, 1, 0, d);
    lemma_mul_is(n, d, 1, 1, n, d);
    lemma_mul_is(8 * u - 3 * v, 12 * u, 1, 1, 8 * u - 3 * v, 12 * u);
    assert(v * 1 * (12 * u) == 3 * v * (4 * u * 1)) by (nonlinear_arith);
    lemma_mul_is(v, 4 * u, 1, 1, 3 * v, 12 * u);
    lemma_mul_is(0, 1, 1, 1, 0, 12 * u);
    lemma_dot_is(m.a[0], ones, 0, 0, 0, 1);
    lemma_dot_is(m.a[1], ones, n, 0, 0, d);
    lemma_dot_is(m.a[2], ones, 8 * u - 3 * v, 3 * v, 0, 12 * u);
    lemma_chain_to(phi1[0], 0int + 0 + 0, 1, 0, 1);
    lemma_chain_to(phi1[1], n + 0 + 0, d, n, d);
    lemma_chain_to(phi1[2], 8 * u - 3 * v + 3 * v + 0, 12 * u, r, s);
    assert(q_vec_eq(phi1, m.c));
    // the elementary weights of the tall tree
    let w3 = seq![q(0, 1), q(0, 1), q(v * n, 4 * u * d)];
    let ac = q_mat_vec(m.a, m.c);
    lemma_mul_is(0, 1, 0, 1, 0, 1);
    lemma_mul_is(0, 1, n, d, 0, 1);
    lemma_mul_is(0, 1, r, s, 0, 1);
    lemma_mul_is(n, d, 0, 1, 0, 1);
    lemma_mul_is(8 * u - 3 * v, 12 * u, 0, 1, 0, 4 * u * d);
    lemma_mul_is(v, 4 * u, n, d, v * n, 4 * u * d);
    lemma_mul_is(0, 1, r, s, 0, 4 * u * d);
    lemma_dot_is(m.a[0], m.c, 0, 0, 0, 1);
    lemma_dot_is(m.a[1], m.c, 0, 0, 0, 1);
    lemma_dot_is(m.a[2], m.c, 0, v * n, 0, 4 * u * d);
    lemma_chain_to(ac[0], 0int + 0 + 0, 1, 0, 1);
    lemma_chain_to(ac[1], 0int + 0 + 0, 1, 0, 1);
    lemma_chain_to(ac[2], 0 + v * n + 0, 4 * u * d, v * n, 4 * u * d);
    assert(q_vec_eq(ac, w3));
    // the order conditions of `b`
    lemma_mul_is(1, 4, 1, 1, v, 4 * v);
    lemma_mul_is(t, 4 * v, 1, 1, t, 4 * v);
    assert(u * 1 * (4 * v) == 4 * u * (v * 1)) by (nonlinear_arith);
    lemma_mul_is(u, v, 1, 1, 4 * u, 4 * v);
    lemma_dot_is(m.b, ones, v, t, 4 * u, 4 * v);
    lemma_chain_to(q_dot(m.b, ones), v + t + 4 * u, 4 * v, 1, 1);
    lemma_mul_is(1, 4, 0, 1, 0, 6 * v);
    assert(t * n * (6 * v) == t * (4 * v * d)) by (nonlinear_arith)
        requires
            n == 2 * k,
            d == 3 * k,
    ;
    lemma_mul_is(t, 4 * v, n, d, t, 6 * v);
    assert(u * r * (6 * v) == 4 * u * (v * s)) by (nonlinear_arith)
        requires
            r == 2 * j,
            s == 3 * j,
    ;
    lemma_mul_is(u, v, r, s, 4 * u, 6 * v);
    lemma_dot_is(m.b, m.c, 0, t, 4 * u, 6 * v);
    lemma_chain_to(q_dot(m.b, m.c), 0 + t + 4 * u, 6 * v, 1, 2);
    let cc = q_hadamard(m.c, m.c);
    lemma_q_mul_value(0, 1, 0, 1);
    lemma_q_mul_value(n, d, n, d);
    lemma_q_mul_value(r, s, r, s);
    assert(cc[0] == q(0int * 0, 1int * 1) && cc[1] == q(n * n, d * d) && cc[2] == q(r * r, s * s));
    lemma_mul_is(1, 4, 0int * 0, 1int * 1, 0, 9 * v);
    assert(t * (n * n) * (9 * v) == t * (4 * v * (d * d))) by (nonlinear_arith)
        requires
            n * n == 4 * kk,
            d * d == 9 * kk,
    ;
    lemma_mul_is(t, 4 * v, n * n, d * d, t, 9 * v);
    assert(u * (r * r) * (9 * v) == 4 * u * (v * (s * s))) by (nonlinear_arith)
        requires
            r * r == 4 * jj,
            s * s == 9 * jj,
    ;
    lemma_mul_is(u, v, r * r, s * s, 4 * u, 9 * v);
    lemma_dot_is(m.b, cc, 0, t, 4 * u, 9 * v);
    lemma_chain_to(q_dot(m.b, cc), 0 + t + 4 * u, 9 * v, 1, 3);
    lemma_mul_is(1, 4, 0, 1, 0, 6);
    lemma_mul_is(t, 4 * v, 0, 1, 0, 6);
    assert(u * (v * n) * 6 == 1 * (v * (4 * u * d))) by (nonlinear_arith)
        requires
            n == 2 * k,
            d == 3 * k,
    ;
    lemma_mul_is(u, v, v * n, 4 * u * d, 1, 6);
    lemma_dot_is(m.b, w3, 0, 0, 1, 6);
    lemma_chain_to(q_dot(m.b, w3), 0int + 0 + 1, 6, 1, 6);
    lemma_embedded_order_2(m.b2, m.c, n, d, r, s);
    lemma_three_stage_laws(m, w3);
}

/// In the third case (`c2 = 2/3`, `c3 = 0`, with a nonzero last weight `b3 = u / v`), every
/// member of the family obeys the laws of a method of order three with an embedded method of
/// order two.
pub proof fn lemma_generic_order_3_third_case_laws(n: int, d: int, r: int, s: int, u: int, v: int)
    requires
        d != 0,
        s != 0,
        u != 0,
        v != 0,
        3 * n == 2 * d,
        r == 0,
    ensures
        table_laws(generic_order_3_third_case(n, d, r, s, u, v), 3, 2, 3, 2),
{
    let m = generic_order_3_third_case(n, d, r, s, u, v);
    let k = lemma_two_thirds(n, d);
    let kk = k * k;
    assert(4 * u != 0 && 4 * v != 0 && 2 * n != 0);
    assert(4 * u * d != 0 && d * d != 0 && s * s != 0) by (nonlinear_arith)
        requires
            u != 0,
            d != 0,
            s != 0,
    ;
    assert((-v + v + 0) * s == r * (4 * u)) by (nonlinear_arith)
        requires
            r == 0,
    ;
    assert(well_shaped(m, 3, 2));
    assert(is_explicit(m));
    let ones = q_ones(3);
    assert(ones[0] == q(1, 1) && ones[1] == q(1, 1) && ones[2] == q(1, 1));
    // rows
    lemma_eq_is(0, 1, 0, 1);
    lemma_eq_is(0, 1, 0, d);
    lemma_eq_is(n, d, n, d);
    lemma_eq_is(-v, 4 * u, -v, 4 * u);
    lemma_eq_is(v, 4 * u, v, 4 * u);
    lemma_eq_is(0, 1, 0, 4 * u);
    lemma_row_is(m.a[0], 0, 1, 0, 0, 0, 1);
    lemma_row_is(m.a[1], n, d, n, 0, 0, d);
    lemma_row_is(m.a[2], r, s, -v, v, 0, 4 * u);
    assert(nodes_are_row_sums(m));
    lemma_linear_interpolant(v - 4 * u, 4 * v);
    lemma_linear_interpolant(3, 4);
    lemma_linear_interpolant(u, v);
    assert(interpolation_is_continuous(m));
    // the first elementary weights are the nodes
    let phi1 = q_mat_vec(m.a, ones);
    lemma_mul_is(0, 1, 1, 1, 0, 1);
    lemma_mul_is(0, 1, 1, 1, 0, d);
    lemma_mul_is(n, d, 1, 1, n, d);
    lemma_mul_is(-v, 4 * u, 1, 1, -v, 4 * u);
    lemma_mul_is(v, 4 * u, 1, 1, v, 4 * u);
    lemma_mul_is(0, 1, 1, 1, 0, 4 * u);
    lemma_dot_is(m.a[0], ones, 0, 0, 0, 1);
    lemma_dot_is(m.a[1], ones, n, 0, 0, d);
    lemma_dot_is(m.a[2], ones, -v, v, 0, 4 * u);
    lemma_chain_to(phi1[0], 0int + 0 + 0, 1, 0, 1);
    lemma_chain_to(phi1[1], n + 0 + 0, d, n, d);
    lemma_chain_to(phi1[2], -v + v + 0, 4 * u, r, s);
    assert(q_vec_eq(phi1, m.c));
    // the elementary weights of the tall tree
    let w3 = seq![q(0, 1), q(0, 1), q(v * n, 4 * u * d)];
    let ac = q_mat_vec(m.a, m.c);
    lemma_mul_is(0, 1, 0, 1, 0, 1);
    lemma_mul_is(0, 1, n, d, 0, 1);
    lemma_mul_is(0, 1, r, s, 0, 1);
    lemma_mul_is(n, d, 0, 1, 0, 1);
    lemma_mul_is(-v, 4 * u, 0, 1, 0, 4 * u * d);
    lemma_mul_is(v, 4 * u, n, d, v * n, 4 * u * d);
    lemma_mul_is(0, 1, r, s, 0, 4 * u * d);
    lemma_dot_is(m.a[0], m.c, 0, 0, 0, 1);
    lemma_dot_is(m.a[1], m.c, 0, 0, 0, 1);
    lemma_dot_is(m.a[2], m.c, 0, v * n, 0, 4 * u * d);
    lemma_chain_to(ac[0], 0int + 0 + 0, 1, 0, 1);
    lemma_chain_to(ac[1], 0int + 0 + 0, 1, 0, 1);
    lemma_chain_to(ac[2], 0 + v * n + 0, 4 * u * d, v * n, 4 * u * d);
    assert(q_vec_eq(ac, w3));
    // the order conditions of `b`
    lemma_mul_is(v - 4 * u, 4 * v, 1, 1, v - 4 * u, 4 * v);
    lemma_mul_is(3, 4, 1, 1, 3 * v, 4 * v);
    assert(u * 1 * (4 * v) == 4 * u * (v * 1)) by (nonlinear_arith);
    lemma_mul_is(u, v, 1, 1, 4 * u, 4 * v);
    lemma_dot_is(m.b, ones, v - 4 * u, 3 * v, 4 * u, 4 * v);
    lemma_chain_to(q_dot(m.b, ones), v - 4 * u + 3 * v + 4 * u, 4 * v, 1, 1);
    lemma_mul_is(v - 4 * u, 4 * v, 0, 1, 0, 2);
    assert(3 * n * 2 == 1 * (4 * d));
    lemma_mul_is(3, 4, n, d, 1, 2);
    lemma_mul_is(u, v, r, s, 0, 2);
    lemma_dot_is(m.b, m.c, 0, 1, 0, 2);
    lemma_chain_to(q_dot(m.b, m.c), 0int + 1 + 0, 2, 1, 2);
    let cc = q_hadamard(m.c, m.c);
    lemma_q_mul_value(0, 1, 0, 1);
    lemma_q_mul_value(n, d, n, d);
    lemma_q_mul_value(r, s, r, s);
    assert(cc[0] == q(0int * 0, 1int * 1) && cc[1] == q(n * n, d * d) && cc[2] == q(r * r, s * s));
    lemma_mul_is(v - 4 * u, 4 * v, 0int * 0, 1int * 1, 0, 3);
    assert(3 * (n * n) * 3 == 1 * (4 * (d * d))) by (nonlinear_arith)
        requires
            n * n == 4 * kk,
            d * d == 9 * kk,
    ;
    lemma_mul_is(3, 4, n * n, d * d, 1, 3);
    assert(r * r == 0);
    lemma_mul_is(u, v, r * r, s * s, 0, 3);
    lemma_dot_is(m.b, cc, 0, 1, 0, 3);
    lemma_chain_to(q_dot(m.b, cc), 0int + 1 + 0, 3, 1, 3);
    lemma_mul_is(v - 4 * u, 4 * v, 0, 1, 0, 6);
    lemma_mul_is(3, 4, 0, 1, 0, 6);
    assert(u * (v * n) * 6 == 1 * (v * (4 * u * d))) by (nonlinear_arith)
        requires
            n == 2 * k,
            d == 3 * k,
    ;
    lemma_mul_is(u, v, v * n, 4 * u * d, 1, 6);
    lemma_dot_is(m.b, w3, 0, 0, 1, 6);
    lemma_chain_to(q_dot(m.b, w3), 0int + 0 + 1, 6, 1, 6);
    lemma_embedded_order_2(m.b2, m.c, n, d, r, s);
    lemma_three_stage_laws(m, w3);
}

/// The last row of `a` in the first case sums to `c3`, cleared of denominators.
proof fn lemma_first_case_row_identity(n: int, d: int, r: int, s: int)
    ensures
        (r * (3 * n * s * (d - n) - r * d * d) + r * d * (r * d - n * s) + 0) * s == r * (s * s * n * (2 * d - 3 * n)),
{
    let m_r = r;
    let m_n = n;
    assert((3) * (1 * m_n) == (3 * m_n)) by (nonlinear_arith);
    assert(3 * n == (3 * m_n));
    let m_s = s;
    let m_ns = n * s;
    assert(m_n * m_s == m_ns) by (nonlinear_arith)
        requires
            m_n == n,
            m_s == s,
            m_ns == n * s,
    ;
    assert((3 * m_n) * (1 * m_s) == (3 * m_ns)) by (nonlinear_arith)
        requires
            m_n * m_s == m_ns,
    ;
    assert(3 * n * s == (3 * m_ns));
    let m_d = d;
    assert((d - n) == (1 * m_d + -1 * m_n));
    let m_dns = d * n * s;
    assert(m_ns * m_d == m_dns) by (nonlinear_arith)
        requires
            m_ns == n * s,
            m_d == d,
            m_dns == d * n * s,
    ;
    let m_nns = n * n * s;
    assert(m_ns * m_n == m_nns) by (nonlinear_arith)
        requires
            m_ns == n * s,
            m_n == n,
            m_nns == n * n * s,
    ;
    assert((3 * m_ns) * (1 * m_d + -1 * m_n) == (3 * m_dns + -3 * m_nns)) by (nonlinear_arith)
        requires
            m_ns * m_d == m_dns,
            m_ns * m_n == m_nns,
    ;
    assert(3 * n * s * (d - n) == (3 * m_dns + -3 * m_nns));
    let m_dr = d * r;
    assert(m_r * m_d == m_dr) by (nonlinear_arith)
        requires
            m_r == r,
            m_d == d,
            m_dr == d * r,
    ;
    assert((1 * m_r) * (1 * m_d) == (1 * m_dr)) by (nonlinear_arith)
        requires
            m_r * m_d == m_dr,
    ;
    assert(r * d == (1 * m_dr));
    let m_ddr = d * d * r;
    assert(m_dr * m_d == m_ddr) by (nonlinear_arith)
        requires
            m_dr == d * r,
            m_d == d,
            m_ddr == d * d * r,
    ;
    assert((1 * m_dr) * (1 * m_d) == (1 * m_ddr)) by (nonlinear_arith)
        requires
            m_dr * m_d == m_ddr,
    ;
    assert(r * d * d == (1 * m_ddr));
    assert((3 * n * s * (d - n) - r * d * d) == (3 * m_dns + -3 * m_nns + -1 * m_ddr));
    let m_dnrs = d * n * r * s;
    assert(m_r * m_dns == m_dnrs) by (nonlinear_arith)
        requires
            m_r == r,
            m_dns == d * n * s,
            m_dnrs == d * n * r * s,
    ;
    let m_nnrs = n * n * r * s;
    assert(m_r * m_nns == m_nnrs) by (nonlinear_arith)
        requires
            m_r == r,
            m_nns == n * n * s,
            m_nnrs == n * n * r * s,
    ;
    let m_ddrr = d * d * r * r;
    assert(m_r * m_ddr == m_ddrr) by (nonlinear_arith)
        requires
            m_r == r,
            m_ddr == d * d * r,
            m_ddrr == d * d * r * r,
    ;
    assert((1 * m_r) * (3 * m_dns + -3 * m_nns + -1 * m_ddr) == (3 * m_dnrs + -3 * m_nnrs + -1 * m_ddrr)) by (nonlinear_arith)
        requires
            m_r * m_dns == m_dnrs,
            m_r * m_nns == m_nnrs,
            m_r * m_ddr == m_ddrr,
    ;
    assert(r * (3 * n * s * (d - n) - r * d * d) == (3 * m_dnrs + -3 * m_nnrs + -1 * m_ddrr));
    assert((1 * m_n) * (1 * m_s) == (1 * m_ns)) by (nonlinear_arith)
        requires
            m_n * m_s == m_ns,
    ;
    assert(n * s == (1 * m_ns));
    assert((r * d - n * s) == (1 * m_dr + -1 * m_ns));
    assert(m_dr * m_dr == m_ddrr) by (nonlinear_arith)
        requires
            m_dr == d * r,
            m_dr == d * r,
            m_ddrr == d * d * r * r,
    ;
    assert(m_dr * m_ns == m_dnrs) by (nonlinear_arith)
        requires
            m_dr == d * r,
            m_ns == n * s,
            m_dnrs == d * n * r * s,
    ;
    assert((1 * m_dr) * (1 * m_dr + -1 * m_ns) == (1 * m_ddrr + -1 * m_dnrs)) by (nonlinear_arith)
        requires
            m_dr * m_dr == m_ddrr,
            m_dr * m_ns == m_dnrs,
    ;
    assert(r * d * (r * d - n * s) == (1 * m_ddrr + -1 * m_dnrs));
    assert((r * (3 * n * s * (d - n) - r * d * d) + r * d * (r * d - n * s) + 0) == (2 * m_dnrs + -3 * m_nnrs));
    let m_dnrss = d * n * r * s * s;
    assert(m_dnrs * m_s == m_dnrss) by (nonlinear_arith)
        requires
            m_dnrs == d * n * r * s,
            m_s == s,
            m_dnrss == d * n * r * s * s,
    ;
    let m_nnrss = n * n * r * s * s;
    assert(m_nnrs * m_s == m_nnrss) by (nonlinear_arith)
        requires
            m_nnrs == n * n * r * s,
            m_s == s,
            m_nnrss == n * n * r * s * s,
    ;
    assert((2 * m_dnrs + -3 * m_nnrs) * (1 * m_s) == (2 * m_dnrss + -3 * m_nnrss)) by (nonlinear_arith)
        requires
            m_dnrs * m_s == m_dnrss,
            m_nnrs * m_s == m_nnrss,
    ;
    assert((r * (3 * n * s * (d - n) - r * d * d) + r * d * (r * d - n * s) + 0) * s == (2 * m_dnrss + -3 * m_nnrss));
    let m_ss = s * s;
    assert(m_s * m_s == m_ss) by (nonlinear_arith)
        requires
            m_s == s,
            m_s == s,
            m_ss == s * s,
    ;
    assert((1 * m_s) * (1 * m_s) == (1 * m_ss)) by (nonlinear_arith)
        requires
            m_s * m_s == m_ss,
    ;
    assert(s * s == (1 * m_ss));
    let m_nss = n * s * s;
    assert(m_ss * m_n == m_nss) by (nonlinear_arith)
        requires
            m_ss == s * s,
            m_n == n,
            m_nss == n * s * s,
    ;
    assert((1 * m_ss) * (1 * m_n) == (1 * m_nss)) by (nonlinear_arith)
        requires
            m_ss * m_n == m_nss,
    ;
    assert(s * s * n == (1 * m_nss));
    assert((2) * (1 * m_d) == (2 * m_d)) by (nonlinear_arith);
    assert(2 * d == (2 * m_d));
    assert((2 * d - 3 * n) == (2 * m_d + -3 * m_n));
    let m_dnss = d * n * s * s;
    assert(m_nss * m_d == m_dnss) by (nonlinear_arith)
        requires
            m_nss == n * s * s,
            m_d == d,
            m_dnss == d * n * s * s,
    ;
    let m_nnss = n * n * s * s;
    assert(m_nss * m_n == m_nnss) by (nonlinear_arith)
        requires
            m_nss == n * s * s,
            m_n == n,
            m_nnss == n * n * s * s,
    ;
    assert((1 * m_nss) * (2 * m_d + -3 * m_n) == (2 * m_dnss + -3 * m_nnss)) by (nonlinear_arith)
        requires
            m_nss * m_d == m_dnss,
            m_nss * m_n == m_nnss,
    ;
    assert(s * s * n * (2 * d - 3 * n) == (2 * m_dnss + -3 * m_nnss));
    assert(m_r * m_dnss == m_dnrss) by (nonlinear_arith)
        requires
            m_r == r,
            m_dnss == d * n * s * s,
            m_dnrss == d * n * r * s * s,
    ;
    assert(m_r * m_nnss == m_nnrss) by (nonlinear_arith)
        requires
            m_r == r,
            m_nnss == n * n * s * s,
            m_nnrss == n * n * r * s * s,
    ;
    assert((1 * m_r) * (2 * m_dnss + -3 * m_nnss) == (2 * m_dnrss + -3 * m_nnrss)) by (nonlinear_arith)
        requires
            m_r * m_dnss == m_dnrss,
            m_r * m_nnss == m_nnrss,
    ;
    assert(r * (s * s * n * (2 * d - 3 * n)) == (2 * m_dnrss + -3 * m_nnrss));
    assert((r * (3 * n * s * (d - n) - r * d * d) + r * d * (r * d - n * s) + 0) * s == r * (s * s * n * (2 * d - 3 * n)));
}

/// The weights of the first case sum to one, cleared of denominators.
proof fn lemma_first_case_weights_identity(n: int, d: int, r: int, s: int)
    ensures
        ((6 * n * r - 3 * n * s - 3 * r * d + 2 * d * s) * (r * d - n * s) + (3 * r - 2 * s) * d * d * r + (2 * d - 3 * n) * s * s * n) * 1 == 1 * (6 * n * r * (r * d - n * s)),
{
    let m_n = n;
    assert((6) * (1 * m_n) == (6 * m_n)) by (nonlinear_arith);
    assert(6 * n == (6 * m_n));
    let m_r = r;
    let m_nr = n * r;
    assert(m_n * m_r == m_nr) by (nonlinear_arith)
        requires
            m_n == n,
            m_r == r,
            m_nr == n * r,
    ;
    assert((6 * m_n) * (1 * m_r) == (6 * m_nr)) by (nonlinear_arith)
        requires
            m_n * m_r == m_nr,
    ;
    assert(6 * n * r == (6 * m_nr));
    assert((3) * (1 * m_n) == (3 * m_n)) by (nonlinear_arith);
    assert(3 * n == (3 * m_n));
    let m_s = s;
    let m_ns = n * s;
    assert(m_n * m_s == m_ns) by (nonlinear_arith)
        requires
            m_n == n,
            m_s == s,
            m_ns == n * s,
    ;
    assert((3 * m_n) * (1 * m_s) == (3 * m_ns)) by (nonlinear_arith)
        requires
            m_n * m_s == m_ns,
    ;
    assert(3 * n * s == (3 * m_ns));
    assert((3) * (1 * m_r) == (3 * m_r)) by (nonlinear_arith);
    assert(3 * r == (3 * m_r));
    let m_d = d;
    let m_dr = d * r;
    assert(m_r * m_d == m_dr) by (nonlinear_arith)
        requires
            m_r == r,
            m_d == d,
            m_dr == d * r,
    ;
    assert((3 * m_r) * (1 * m_d) == (3 * m_dr)) by (nonlinear_arith)
        requires
            m_r * m_d == m_dr,
    ;
    assert(3 * r * d == (3 * m_dr));
    assert((2) * (1 * m_d) == (2 * m_d)) by (nonlinear_arith);
    assert(2 * d == (2 * m_d));
    let m_ds = d * s;
    assert(m_d * m_s == m_ds) by (nonlinear_arith)
        requires
            m_d == d,
            m_s == s,
            m_ds == d * s,
    ;
    assert((2 * m_d) * (1 * m_s) == (2 * m_ds)) by (nonlinear_arith)
        requires
            m_d * m_s == m_ds,
    ;
    assert(2 * d * s == (2 * m_ds));
    assert((6 * n * r - 3 * n * s - 3 * r * d + 2 * d * s) == (6 * m_nr + -3 * m_ns + -3 * m_dr + 2 * m_ds));
    assert((1 * m_r) * (1 * m_d) == (1 * m_dr)) by (nonlinear_arith)
        requires
            m_r * m_d == m_dr,
    ;
    assert(r * d == (1 * m_dr));
    assert((1 * m_n) * (1 * m_s) == (1 * m_ns)) by (nonlinear_arith)
        requires
            m_n * m_s == m_ns,
    ;
    assert(n * s == (1 * m_ns));
    assert((r * d - n * s) == (1 * m_dr + -1 * m_ns));
    let m_dnrr = d * n * r * r;
    assert(m_nr * m_dr == m_dnrr) by (nonlinear_arith)
        requires
            m_nr == n * r,
            m_dr == d * r,
            m_dnrr == d * n * r * r,
    ;
    let m_nnrs = n * n * r * s;
    assert(m_nr * m_ns == m_nnrs) by (nonlinear_arith)
        requires
            m_nr == n * r,
            m_ns == n * s,
            m_nnrs == n * n * r * s,
    ;
    let m_dnrs = d * n * r * s;
    assert(m_ns * m_dr == m_dnrs) by (nonlinear_arith)
        requires
            m_ns == n * s,
            m_dr == d * r,
            m_dnrs == d * n * r * s,
    ;
    let m_nnss = n * n * s * s;
    assert(m_ns * m_ns == m_nnss) by (nonlinear_arith)
        requires
            m_ns == n * s,
            m_ns == n * s,
            m_nnss == n * n * s * s,
    ;
    let m_ddrr = d * d * r * r;
    assert(m_dr * m_dr == m_ddrr) by (nonlinear_arith)
        requires
            m_dr == d * r,
            m_dr == d * r,
            m_ddrr == d * d * r * r,
    ;
    assert(m_dr * m_ns == m_dnrs) by (nonlinear_arith)
        requires
            m_dr == d * r,
            m_ns == n * s,
            m_dnrs == d * n * r * s,
    ;
    let m_ddrs = d * d * r * s;
    assert(m_ds * m_dr == m_ddrs) by (nonlinear_arith)
        requires
            m_ds == d * s,
            m_dr == d * r,
            m_ddrs == d * d * r * s,
    ;
    let m_dnss = d * n * s * s;
    assert(m_ds * m_ns == m_dnss) by (nonlinear_arith)
        requires
            m_ds == d * s,
            m_ns == n * s,
            m_dnss == d * n * s * s,
    ;
    assert((6 * m_nr + -3 * m_ns + -3 * m_dr + 2 * m_ds) * (1 * m_dr + -1 * m_ns) == (6 * m_dnrr + -6 * m_nnrs + 3 * m_nnss + -3 * m_ddrr + 2 * m_ddrs + -2 * m_dnss)) by (nonlinear_arith)
        requires
            m_nr * m_dr == m_dnrr,
            m_nr * m_ns == m_nnrs,
            m_ns * m_dr == m_dnrs,
            m_ns * m_ns == m_nnss,
            m_dr * m_dr == m_ddrr,
            m_dr * m_ns == m_dnrs,
            m_ds * m_dr == m_ddrs,
            m_ds * m_ns == m_dnss,
    ;
    assert((6 * n * r - 3 * n * s - 3 * r * d + 2 * d * s) * (r * d - n * s) == (6 * m_dnrr + -6 * m_nnrs + 3 * m_nnss + -3 * m_ddrr + 2 * m_ddrs + -2 * m_dnss));
    assert((2) * (1 * m_s) == (2 * m_s)) by (nonlinear_arith);
    assert(2 * s == (2 * m_s));
    assert((3 * r - 2 * s) == (3 * m_r + -2 * m_s));
    assert(m_s * m_d == m_ds) by (nonlinear_arith)
        requires
            m_s == s,
            m_d == d,
            m_ds == d * s,
    ;
    assert((3 * m_r + -2 * m_s) * (1 * m_d) == (3 * m_dr + -2 * m_ds)) by (nonlinear_arith)
        requires
            m_r * m_d == m_dr,
            m_s * m_d == m_ds,
    ;
    assert((3 * r - 2 * s) * d == (3 * m_dr + -2 * m_ds));
    let m_ddr = d * d * r;
    assert(m_dr * m_d == m_ddr) by (nonlinear_arith)
        requires
            m_dr == d * r,
            m_d == d,
            m_ddr == d * d * r,
    ;
    let m_dds = d * d * s;
    assert(m_ds * m_d == m_dds) by (nonlinear_arith)
        requires
            m_ds == d * s,
            m_d == d,
            m_dds == d * d * s,
    ;
    assert((3 * m_dr + -2 * m_ds) * (1 * m_d) == (3 * m_ddr + -2 * m_dds)) by (nonlinear_arith)
        requires
            m_dr * m_d == m_ddr,
            m_ds * m_d == m_dds,
    ;
    assert((3 * r - 2 * s) * d * d == (3 * m_ddr + -2 * m_dds));
    assert(m_ddr * m_r == m_ddrr) by (nonlinear_arith)
        requires
            m_ddr == d * d * r,
            m_r == r,
            m_ddrr == d * d * r * r,
    ;
    assert(m_dds * m_r == m_ddrs) by (nonlinear_arith)
        requires
            m_dds == d * d * s,
            m_r == r,
            m_ddrs == d * d * r * s,
    ;
    assert((3 * m_ddr + -2 * m_dds) * (1 * m_r) == (3 * m_ddrr + -2 * m_ddrs)) by (nonlinear_arith)
        requires
            m_ddr * m_r == m_ddrr,
            m_dds * m_r == m_ddrs,
    ;
    assert((3 * r - 2 * s) * d * d * r == (3 * m_ddrr + -2 * m_ddrs));
    assert((2 * d - 3 * n) == (2 * m_d + -3 * m_n));
    assert((2 * m_d + -3 * m_n) * (1 * m_s) == (2 * m_ds + -3 * m_ns)) by (nonlinear_arith)
        requires
            m_d * m_s == m_ds,
            m_n * m_s == m_ns,
    ;
    assert((2 * d - 3 * n) * s == (2 * m_ds + -3 * m_ns));
    let m_dss = d * s * s;
    assert(m_ds * m_s == m_dss) by (nonlinear_arith)
        requires
            m_ds == d * s,
            m_s == s,
            m_dss == d * s * s,
    ;
    let m_nss = n * s * s;
    assert(m_ns * m_s == m_nss) by (nonlinear_arith)
        requires
            m_ns == n * s,
            m_s == s,
            m_nss == n * s * s,
    ;
    assert((2 * m_ds + -3 * m_ns) * (1 * m_s) == (2 * m_dss + -3 * m_nss)) by (nonlinear_arith)
        requires
            m_ds * m_s == m_dss,
            m_ns * m_s == m_nss,
    ;
    assert((2 * d - 3 * n) * s * s == (2 * m_dss + -3 * m_nss));
    assert(m_dss * m_n == m_dnss) by (nonlinear_arith)
        requires
            m_dss == d * s * s,
            m_n == n,
            m_dnss == d * n * s * s,
    ;
    assert(m_nss * m_n == m_nnss) by (nonlinear_arith)
        requires
            m_nss == n * s * s,
            m_n == n,
            m_nnss == n * n * s * s,
    ;
    assert((2 * m_dss + -3 * m_nss) * (1 * m_n) == (2 * m_dnss + -3 * m_nnss)) by (nonlinear_arith)
        requires
            m_dss * m_n == m_dnss,
            m_nss * m_n == m_nnss,
    ;
    assert((2 * d - 3 * n) * s * s * n == (2 * m_dnss + -3 * m_nnss));
    assert(((6 * n * r - 3 * n * s - 3 * r * d + 2 * d * s) * (r * d - n * s) + (3 * r - 2 * s) * d * d * r + (2 * d - 3 * n) * s * s * n) == (6 * m_dnrr + -6 * m_nnrs));
    assert((6 * m_dnrr + -6 * m_nnrs) * (1) == (6 * m_dnrr + -6 * m_nnrs)) by (nonlinear_arith);
    assert(((6 * n * r - 3 * n * s - 3 * r * d + 2 * d * s) * (r * d - n * s) + (3 * r - 2 * s) * d * d * r + (2 * d - 3 * n) * s * s * n) * 1 == (6 * m_dnrr + -6 * m_nnrs));
    assert((6 * m_nr) * (1 * m_dr + -1 * m_ns) == (6 * m_dnrr + -6 * m_nnrs)) by (nonlinear_arith)
        requires
            m_nr * m_dr == m_dnrr,
            m_nr * m_ns == m_nnrs,
    ;
    assert(6 * n * r * (r * d - n * s) == (6 * m_dnrr + -6 * m_nnrs));
    assert((1) * (6 * m_dnrr + -6 * m_nnrs) == (6 * m_dnrr + -6 * m_nnrs)) by (nonlinear_arith);
    assert(1 * (6 * n * r * (r * d - n * s)) == (6 * m_dnrr + -6 * m_nnrs));
    assert(((6 * n * r - 3 * n * s - 3 * r * d + 2 * d * s) * (r * d - n * s) + (3 * r - 2 * s) * d * d * r + (2 * d - 3 * n) * s * s * n) * 1 == 1 * (6 * n * r * (r * d - n * s)));
}

/// The shape, the row sums and the interpolant of the first case, and its first elementary
/// weights.
proof fn lemma_first_case_rows(n: int, d: int, r: int, s: int)
    requires
        n != 0,
        d != 0,
        r != 0,
        s != 0,
        r * d != n * s,
        3 * n != 2 * d,
    ensures
        well_shaped(generic_order_3_first_case(n, d, r, s), 3, 2),
        is_explicit(generic_order_3_first_case(n, d, r, s)),
        nodes_are_row_sums(generic_order_3_first_case(n, d, r, s)),
        interpolation_is_continuous(generic_order_3_first_case(n, d, r, s)),
        q_vec_eq(
            q_mat_vec(generic_order_3_first_case(n, d, r, s).a, q_ones(3)),
            generic_order_3_first_case(n, d, r, s).c,
        ),
{
    let m = generic_order_3_first_case(n, d, r, s);
    let e = r * d - n * s;
    let f = 2 * d - 3 * n;
    let ad = s * s * n * f;
    let a31n = r * (3 * n * s * (d - n) - r * d * d);
    let a32n = r * d * e;
    assert(ad != 0 && 6 * n * r != 0 && 6 * n * e != 0 && 6 * r * e != 0) by (nonlinear_arith)
        requires
            ad == s * s * n * f,
            n != 0,
            r != 0,
            s != 0,
            e != 0,
            f != 0,
    ;
    assert(well_shaped(m, 3, 2));
    assert(is_explicit(m));
    let ones = q_ones(3);
    assert(ones[0] == q(1, 1) && ones[1] == q(1, 1) && ones[2] == q(1, 1));
    lemma_eq_is(0, 1, 0, 1);
    lemma_eq_is(0, 1, 0, d);
    lemma_eq_is(n, d, n, d);
    lemma_eq_is(a31n, ad, a31n, ad);
    lemma_eq_is(a32n, ad, a32n, ad);
    lemma_eq_is(0, 1, 0, ad);
    lemma_row_is(m.a[0], 0, 1, 0, 0, 0, 1);
    lemma_row_is(m.a[1], n, d, n, 0, 0, d);
    lemma_first_case_row_identity(n, d, r, s);
    lemma_row_is(m.a[2], r, s, a31n, a32n, 0, ad);
    assert(nodes_are_row_sums(m));
    lemma_linear_interpolant(6 * n * r - 3 * n * s - 3 * r * d + 2 * d * s, 6 * n * r);
    lemma_linear_interpolant((3 * r - 2 * s) * d * d, 6 * n * e);
    lemma_linear_interpolant(f * s * s, 6 * r * e);
    assert(interpolation_is_continuous(m));
    let phi1 = q_mat_vec(m.a, ones);
    lemma_mul_is(0, 1, 1, 1, 0, 1);
    lemma_mul_is(0, 1, 1, 1, 0, d);
    lemma_mul_is(n, d, 1, 1, n, d);
    lemma_mul_is(0, 1, 1, 1, 0, ad);
    lemma_mul_is(a31n, ad, 1, 1, a31n, ad);
    lemma_mul_is(a32n, ad, 1, 1, a32n, ad);
    lemma_dot_is(m.a[0], ones, 0, 0, 0, 1);
    lemma_dot_is(m.a[1], ones, n, 0, 0, d);
    lemma_dot_is(m.a[2], ones, a31n, a32n, 0, ad);
    lemma_chain_to(phi1[0], 0int + 0 + 0, 1, 0, 1);
    lemma_chain_to(phi1[1], n + 0 + 0, d, n, d);
    lemma_chain_to(phi1[2], a31n + a32n + 0, ad, r, s);
    assert(q_vec_eq(phi1, m.c));
}

/// The weights `b` of the first case against the vector of ones, the nodes, their squares and
/// the elementary weights of the tall tree.
proof fn lemma_first_case_weights(n: int, d: int, r: int, s: int)
    requires
        n != 0,
        d != 0,
        r != 0,
        s != 0,
        r * d != n * s,
        3 * n != 2 * d,
    ensures
        ({
            let m = generic_order_3_first_case(n, d, r, s);
            let w3 = seq![
                q(0, 1),
                q(0, 1),
                q(r * d * (r * d - n * s) * n, s * s * n * (2 * d - 3 * n) * d),
            ];
            &&& q_vec_eq(q_mat_vec(m.a, m.c), w3)
            &&& q_eq(q_dot(m.b, q_ones(3)), q(1, 1))
            &&& q_eq(q_dot(m.b, m.c), q(1, 2))
            &&& q_eq(q_dot(m.b, q_hadamard(m.c, m.c)), q(1, 3))
            &&& q_eq(q_dot(m.b, w3), q(1, 6))
        }),
{
    let m = generic_order_3_first_case(n, d, r, s);
    let e = r * d - n * s;
    let f = 2 * d - 3 * n;
    let ad = s * s * n * f;
    let a31n = r * (3 * n * s * (d - n) - r * d * d);
    let a32n = r * d * e;
    let b0n = 6 * n * r - 3 * n * s - 3 * r * d + 2 * d * s;
    let t1 = 3 * r - 2 * s;
    let b1n = t1 * d * d;
    let b2n = f * s * s;
    let e6 = 6 * n * r * e;
    assert(ad != 0 && ad * d != 0 && 6 * n * r != 0 && 6 * n * e != 0 && 6 * r * e != 0 && e6 != 0
        && d * d != 0 && s * s != 0) by (nonlinear_arith)
        requires
            ad == s * s * n * f,
            e6 == 6 * n * r * e,
            n != 0,
            d != 0,
            r != 0,
            s != 0,
            e != 0,
            f != 0,
    ;
    let ones = q_ones(3);
    assert(ones[0] == q(1, 1) && ones[1] == q(1, 1) && ones[2] == q(1, 1));
    // the elementary weights of the tall tree
    let w3 = seq![q(0, 1), q(0, 1), q(a32n * n, ad * d)];
    let ac = q_mat_vec(m.a, m.c);
    lemma_mul_is(0, 1, 0, 1, 0, 1);
    lemma_mul_is(0, 1, n, d, 0, 1);
    lemma_mul_is(0, 1, r, s, 0, 1);
    lemma_mul_is(n, d, 0, 1, 0, 1);
    lemma_mul_is(a31n, ad, 0, 1, 0, ad * d);
    lemma_mul_is(a32n, ad, n, d, a32n * n, ad * d);
    lemma_mul_is(0, 1, r, s, 0, ad * d);
    lemma_dot_is(m.a[0], m.c, 0, 0, 0, 1);
    lemma_dot_is(m.a[1], m.c, 0, 0, 0, 1);
    lemma_dot_is(m.a[2], m.c, 0, a32n * n, 0, ad * d);
    lemma_chain_to(ac[0], 0int + 0 + 0, 1, 0, 1);
    lemma_chain_to(ac[1], 0int + 0 + 0, 1, 0, 1);
    lemma_chain_to(ac[2], 0 + a32n * n + 0, ad * d, a32n * n, ad * d);
    assert(q_vec_eq(ac, w3));
    // weights against the vector of ones
    assert(b0n * 1 * e6 == b0n * e * (6 * n * r * 1)) by (nonlinear_arith)
        requires
            e6 == 6 * n * r * e,
    ;
    lemma_mul_is(b0n, 6 * n * r, 1, 1, b0n * e, e6);
    assert(b1n * 1 * e6 == b1n * r * (6 * n * e * 1)) by (nonlinear_arith)
        requires
            e6 == 6 * n * r * e,
    ;
    lemma_mul_is(b1n, 6 * n * e, 1, 1, b1n * r, e6);
    assert(b2n * 1 * e6 == b2n * n * (6 * r * e * 1)) by (nonlinear_arith)
        requires
            e6 == 6 * n * r * e,
    ;
    lemma_mul_is(b2n, 6 * r * e, 1, 1, b2n * n, e6);
    lemma_dot_is(m.b, ones, b0n * e, b1n * r, b2n * n, e6);
    lemma_first_case_weights_identity(n, d, r, s);
    lemma_chain_to(q_dot(m.b, ones), b0n * e + b1n * r + b2n * n, e6, 1, 1);
    // weights against the nodes
    lemma_mul_is(b0n, 6 * n * r, 0, 1, 0, 6 * e);
    assert(t1 * d * d * n * (6 * e) == t1 * d * (6 * n * e * d)) by (nonlinear_arith);
    lemma_mul_is(b1n, 6 * n * e, n, d, t1 * d, 6 * e);
    assert(f * s * s * r * (6 * e) == f * s * (6 * r * e * s)) by (nonlinear_arith);
    lemma_mul_is(b2n, 6 * r * e, r, s, f * s, 6 * e);
    lemma_dot_is(m.b, m.c, 0, t1 * d, f * s, 6 * e);
    assert((0 + (3 * r - 2 * s) * d + (2 * d - 3 * n) * s) * 2 == 1 * (6 * (r * d - n * s)))
        by (nonlinear_arith);
    lemma_chain_to(q_dot(m.b, m.c), 0 + t1 * d + f * s, 6 * e, 1, 2);
    // weights against the squares of the nodes
    let cc = q_hadamard(m.c, m.c);
    lemma_q_mul_value(0, 1, 0, 1);
    lemma_q_mul_value(n, d, n, d);
    lemma_q_mul_value(r, s, r, s);
    assert(cc[0] == q(0int * 0, 1int * 1) && cc[1] == q(n * n, d * d) && cc[2] == q(r * r, s * s));
    lemma_mul_is(b0n, 6 * n * r, 0int * 0, 1int * 1, 0, 6 * e);
    assert(t1 * d * d * (n * n) * (6 * e) == t1 * n * (6 * n * e * (d * d))) by (nonlinear_arith);
    lemma_mul_is(b1n, 6 * n * e, n * n, d * d, t1 * n, 6 * e);
    assert(f * s * s * (r * r) * (6 * e) == f * r * (6 * r * e * (s * s))) by (nonlinear_arith);
    lemma_mul_is(b2n, 6 * r * e, r * r, s * s, f * r, 6 * e);
    lemma_dot_is(m.b, cc, 0, t1 * n, f * r, 6 * e);
    assert((0 + (3 * r - 2 * s) * n + (2 * d - 3 * n) * r) * 3 == 1 * (6 * (r * d - n * s)))
        by (nonlinear_arith);
    lemma_chain_to(q_dot(m.b, cc), 0 + t1 * n + f * r, 6 * e, 1, 3);
    // weights against the elementary weights of the tall tree
    lemma_mul_is(b0n, 6 * n * r, 0, 1, 0, 6);
    lemma_mul_is(b1n, 6 * n * e, 0, 1, 0, 6);
    let ss = s * s;
    assert(f * s * s == f * ss && s * s * n * f == ss * n * f) by (nonlinear_arith)
        requires
            ss == s * s,
    ;
    assert(f * ss * (r * d * e * n) * 6 == 1 * (6 * r * e * (ss * n * f * d))) by (nonlinear_arith);
    lemma_mul_is(b2n, 6 * r * e, a32n * n, ad * d, 1, 6);
    lemma_dot_is(m.b, w3, 0, 0, 1, 6);
    lemma_chain_to(q_dot(m.b, w3), 0int + 0 + 1, 6, 1, 6);
}

/// In the first case (no `b3`, and nodes `c2 = n / d`, `c3 = r / s` that are nonzero, distinct,
/// and `c2 != 2/3`), every member of the family obeys the laws of a method of order three with an
/// embedded method of order two.
pub proof fn lemma_generic_order_3_first_case_laws(n: int, d: int, r: int, s: int)
    requires
        n != 0,
        d != 0,
        r != 0,
        s != 0,
        r * d != n * s,
        3 * n != 2 * d,
    ensures
        table_laws(generic_order_3_first_case(n, d, r, s), 3, 2, 3, 2),
{
    let m = generic_order_3_first_case(n, d, r, s);
    lemma_first_case_rows(n, d, r, s);
    lemma_first_case_weights(n, d, r, s);
    lemma_embedded_order_2(m.b2, m.c, n, d, r, s);
    let w3 = seq![
        q(0, 1),
        q(0, 1),
        q(r * d * (r * d - n * s) * n, s * s * n * (2 * d - 3 * n) * d),
    ];
    lemma_three_stage_laws(m, w3);
}

} // verus!
