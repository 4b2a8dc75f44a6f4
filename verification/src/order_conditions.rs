//! The laws of Butcher tables: shape, explicitness, nodes as row sums, continuity of the
//! interpolant, and the order conditions for the rooted trees with up to six vertices.
use crate::rational::{
    lemma_q_dot_congruent_left, lemma_q_dot_zero_left, lemma_q_eq_trans, q, q_add, q_dot, q_eq,
    q_hadamard, q_int, q_is_zero, q_mat_vec, q_ones, q_sum_to, q_total, q_valid, q_vec_eq,
    q_vec_valid, Q,
};
use vstd::prelude::*;

verus! {

/// The coefficients of a Butcher table as rational numbers.
pub struct TableauModel {
    pub a: Seq<Seq<Q>>,
    pub b: Seq<Q>,
    pub b2: Seq<Q>,
    pub c: Seq<Q>,
    pub bi: Seq<Seq<Q>>,
}

/// `m` has `s` stages and interpolation polynomials with `i` coefficients, and no zero
/// denominator.
pub open spec fn well_shaped(m: TableauModel, s: nat, i: nat) -> bool {
    &&& m.a.len() == s
    &&& m.b.len() == s
    &&& m.b2.len() == s
    &&& m.c.len() == s
    &&& m.bi.len() == s
    &&& forall|k: int| 0 <= k < s ==> #[trigger] m.a[k].len() == s
    &&& forall|k: int| 0 <= k < s ==> #[trigger] m.bi[k].len() == i
    &&& forall|k: int, l: int| 0 <= k < s && 0 <= l < s ==> q_valid(#[trigger] m.a[k][l])
    &&& forall|k: int, l: int| 0 <= k < s && 0 <= l < i ==> q_valid(#[trigger] m.bi[k][l])
    &&& forall|k: int|
        0 <= k < s ==> q_valid(#[trigger] m.b[k]) && q_valid(m.b2[k]) && q_valid(m.c[k])
}

/// The method is explicit: `a[i][j]` is zero for `j >= i`.
pub open spec fn is_explicit(m: TableauModel) -> bool {
    forall|i: int, j: int| 0 <= i <= j < m.b.len() ==> q_is_zero(#[trigger] m.a[i][j])
}

/// Each node `c[i]` is the sum of the row `a[i]`.
pub open spec fn nodes_are_row_sums(m: TableauModel) -> bool {
    forall|i: int| 0 <= i < m.b.len() ==> q_eq(#[trigger] m.c[i], q_total(m.a[i]))
}

/// Each interpolation polynomial `bi[i](theta) = sum_j bi[i][j] * theta^j` is zero at
/// `theta = 0` and equals the weight `b[i]` at `theta = 1`, so that the dense output is
/// continuous.
pub open spec fn interpolation_is_continuous(m: TableauModel) -> bool {
    forall|i: int|
        0 <= i < m.b.len() ==> q_is_zero(#[trigger] m.bi[i][0]) && q_eq(q_total(m.bi[i]), m.b[i])
}

/// The number of rooted trees with at most six vertices.
pub open spec fn num_trees() -> int {
    37
}

/// The rooted trees with at most six vertices, numbered by size: a tree is written as the
/// list of its root's subtrees (`*` is a single vertex), and tree `k` is:
/// - `0`: `*`
/// - `1`: `[*]`
/// - `2`: `[*,*]`
/// - `3`: `[[*]]`
/// - `4`: `[*,*,*]`
/// - `5`: `[*,[*]]`
/// - `6`: `[[*,*]]`
/// - `7`: `[[[*]]]`
/// - `8`: `[*,*,*,*]`
/// - `9`: `[*,*,[*]]`
/// - `10`: `[*,[*,*]]`
/// - `11`: `[*,[[*]]]`
/// - `12`: `[[*],[*]]`
/// - `13`: `[[*,*,*]]`
/// - `14`: `[[*,[*]]]`
/// - `15`: `[[[*,*]]]`
/// - `16`: `[[[[*]]]]`
/// - `17`: `[*,*,*,*,*]`
/// - `18`: `[*,*,*,[*]]`
/// - `19`: `[*,*,[*,*]]`
/// - `20`: `[*,*,[[*]]]`
/// - `21`: `[*,[*],[*]]`
/// - `22`: `[*,[*,*,*]]`
/// - `23`: `[*,[*,[*]]]`
/// - `24`: `[*,[[*,*]]]`
/// - `25`: `[*,[[[*]]]]`
/// - `26`: `[[*],[*,*]]`
/// - `27`: `[[*],[[*]]]`
/// - `28`: `[[*,*,*,*]]`
/// - `29`: `[[*,*,[*]]]`
/// - `30`: `[[*,[*,*]]]`
/// - `31`: `[[*,[[*]]]]`
/// - `32`: `[[[*],[*]]]`
/// - `33`: `[[[*,*,*]]]`
/// - `34`: `[[[*,[*]]]]`
/// - `35`: `[[[[*,*]]]]`
/// - `36`: `[[[[[*]]]]]`
///
/// `tree_order(k)` is the number of vertices of tree `k`.
pub open spec fn tree_order(k: int) -> nat {
    if k < 1 {
        1
    } else if k < 2 {
        2
    } else if k < 4 {
        3
    } else if k < 8 {
        4
    } else if k < 17 {
        5
    } else {
        6
    }
}

/// The density `gamma` of tree `k`: its order times the densities of the subtrees of its root.
pub open spec fn tree_density(k: int) -> int {
    if k == 0 {
        1
    } else if k == 1 {
        2
    } else if k == 2 {
        3
    } else if k == 3 {
        6
    } else if k == 4 {
        4
    } else if k == 5 {
        8
    } else if k == 6 {
        12
    } else if k == 7 {
        24
    } else if k == 8 {
        5
    } else if k == 9 {
        10
    } else if k == 10 {
        15
    } else if k == 11 {
        30
    } else if k == 12 {
        20
    } else if k == 13 {
        20
    } else if k == 14 {
        40
    } else if k == 15 {
        60
    } else if k == 16 {
        120
    } else if k == 17 {
        6
    } else if k == 18 {
        12
    } else if k == 19 {
        18
    } else if k == 20 {
        36
    } else if k == 21 {
        24
    } else if k == 22 {
        24
    } else if k == 23 {
        48
    } else if k == 24 {
        72
    } else if k == 25 {
        144
    } else if k == 26 {
        36
    } else if k == 27 {
        72
    } else if k == 28 {
        30
    } else if k == 29 {
        60
    } else if k == 30 {
        90
    } else if k == 31 {
        180
    } else if k == 32 {
        120
    } else if k == 33 {
        120
    } else if k == 34 {
        240
    } else if k == 35 {
        360
    } else {
        720
    }
}

/// The elementary weights `Phi(k)` of tree `k` for the matrix `a`: a single vertex gives the
/// vector of ones, and a tree whose root has the subtrees `t1, ..., tn` gives the entrywise
/// product of `a * Phi(t1), ..., a * Phi(tn)`. Below, `t<k>` is built from the first subtree of
/// the root of tree `k` and from the tree that the remaining subtrees form.
pub open spec fn elementary_weights(a: Seq<Seq<Q>>, k: int) -> Seq<Q> {
    let t0 = q_ones(a.len());
    let t1 = q_mat_vec(a, t0);
    let t2 = q_hadamard(q_mat_vec(a, t0), t1);
    let t3 = q_mat_vec(a, t1);
    let t4 = q_hadamard(q_mat_vec(a, t0), t2);
    let t5 = q_hadamard(q_mat_vec(a, t0), t3);
    let t6 = q_mat_vec(a, t2);
    let t7 = q_mat_vec(a, t3);
    let t8 = q_hadamard(q_mat_vec(a, t0), t4);
    let t9 = q_hadamard(q_mat_vec(a, t0), t5);
    let t10 = q_hadamard(q_mat_vec(a, t0), t6);
    let t11 = q_hadamard(q_mat_vec(a, t0), t7);
    let t12 = q_hadamard(q_mat_vec(a, t1), t3);
    let t13 = q_mat_vec(a, t4);
    let t14 = q_mat_vec(a, t5);
    let t15 = q_mat_vec(a, t6);
    let t16 = q_mat_vec(a, t7);
    let t17 = q_hadamard(q_mat_vec(a, t0), t8);
    let t18 = q_hadamard(q_mat_vec(a, t0), t9);
    let t19 = q_hadamard(q_mat_vec(a, t0), t10);
    let t20 = q_hadamard(q_mat_vec(a, t0), t11);
    let t21 = q_hadamard(q_mat_vec(a, t0), t12);
    let t22 = q_hadamard(q_mat_vec(a, t0), t13);
    let t23 = q_hadamard(q_mat_vec(a, t0), t14);
    let t24 = q_hadamard(q_mat_vec(a, t0), t15);
    let t25 = q_hadamard(q_mat_vec(a, t0), t16);
    let t26 = q_hadamard(q_mat_vec(a, t1), t6);
    let t27 = q_hadamard(q_mat_vec(a, t1), t7);
    let t28 = q_mat_vec(a, t8);
    let t29 = q_mat_vec(a, t9);
    let t30 = q_mat_vec(a, t10);
    let t31 = q_mat_vec(a, t11);
    let t32 = q_mat_vec(a, t12);
    let t33 = q_mat_vec(a, t13);
    let t34 = q_mat_vec(a, t14);
    let t35 = q_mat_vec(a, t15);
    let t36 = q_mat_vec(a, t16);
    if k == 0 {
        t0
    } else if k == 1 {
        t1
    } else if k == 2 {
        t2
    } else if k == 3 {
        t3
    } else if k == 4 {
        t4
    } else if k == 5 {
        t5
    } else if k == 6 {
        t6
    } else if k == 7 {
        t7
    } else if k == 8 {
        t8
    } else if k == 9 {
        t9
    } else if k == 10 {
        t10
    } else if k == 11 {
        t11
    } else if k == 12 {
        t12
    } else if k == 13 {
        t13
    } else if k == 14 {
        t14
    } else if k == 15 {
        t15
    } else if k == 16 {
        t16
    } else if k == 17 {
        t17
    } else if k == 18 {
        t18
    } else if k == 19 {
        t19
    } else if k == 20 {
        t20
    } else if k == 21 {
        t21
    } else if k == 22 {
        t22
    } else if k == 23 {
        t23
    } else if k == 24 {
        t24
    } else if k == 25 {
        t25
    } else if k == 26 {
        t26
    } else if k == 27 {
        t27
    } else if k == 28 {
        t28
    } else if k == 29 {
        t29
    } else if k == 30 {
        t30
    } else if k == 31 {
        t31
    } else if k == 32 {
        t32
    } else if k == 33 {
        t33
    } else if k == 34 {
        t34
    } else if k == 35 {
        t35
    } else {
        t36
    }
}

/// The order conditions (Hairer, Norsett, Wanner, "Solving ordinary differential equations I",
/// Section II.2) of the weights `w`: for every rooted tree `t` with at most `min(p, 6)`
/// vertices, `sum_i w[i] * Phi(t)[i] == 1 / gamma(t)`. A method with weights `w` that satisfies
/// them has order at least `min(p, 6)`.
pub open spec fn order_conditions(m: TableauModel, w: Seq<Q>, p: nat) -> bool {
    forall|k: int|
        #![trigger elementary_weights(m.a, k)]
        0 <= k < num_trees() && tree_order(k) <= p ==> q_eq(
            q_dot(w, elementary_weights(m.a, k)),
            q(1, tree_density(k)),
        )
}

/// All the laws of a table with `s` stages, `i` interpolation coefficients, and declared orders
/// `order` and `order_embedded`: it is well shaped and explicit, its nodes are the row sums of
/// `a`, its interpolant is continuous, and its weights `b` and `b2` satisfy the order conditions
/// up to the declared orders.
pub open spec fn table_laws(
    m: TableauModel,
    s: nat,
    i: nat,
    order: nat,
    order_embedded: nat,
) -> bool {
    &&& well_shaped(m, s, i)
    &&& is_explicit(m)
    &&& nodes_are_row_sums(m)
    &&& interpolation_is_continuous(m)
    &&& order_conditions(m, m.b, order)
    &&& order_conditions(m, m.b2, order_embedded)
}

/// Column `j` of the interpolation coefficients: the coefficient of `theta^j` in the
/// interpolation polynomial of every stage.
pub open spec fn bi_column(m: TableauModel, j: int) -> Seq<Q> {
    Seq::new(m.bi.len(), |i: int| m.bi[i][j])
}

/// The order conditions of the dense output (Hairer, Norsett, Wanner, "Solving ordinary
/// differential equations I", Section II.6) up to order `p`, for interpolation polynomials
/// with `i` coefficients: for every rooted tree `t` with at most `p` vertices and every
/// `theta`, `sum_s bi_s(theta) * Phi(t)[s] == theta^|t| / gamma(t)`; coefficient by
/// coefficient, the coefficient of `theta^j` is `1 / gamma(t)` for `j == |t|` and zero
/// otherwise. Order one says `sum_s bi_s(theta) == theta`; order two adds
/// `sum_s bi_s(theta) * c_s == theta^2 / 2`.
pub open spec fn interpolant_conditions(m: TableauModel, i: nat, p: nat) -> bool {
    forall|k: int, j: int|
        #![trigger elementary_weights(m.a, k), bi_column(m, j)]
        0 <= k < num_trees() && tree_order(k) <= p && 0 <= j < i ==> q_eq(
            q_dot(bi_column(m, j), elementary_weights(m.a, k)),
            if j == tree_order(k) {
                q(1, tree_density(k))
            } else {
                q(0, 1)
            },
        )
}

/// When `x` is zero, `0 + x + y` stands for `z` exactly when `y` does.
proof fn lemma_zero_then_coefficient(x: Q, y: Q, z: Q)
    requires
        x.n == 0,
        x.d != 0,
        q_eq(q_add(q_add(q_int(0), x), y), z),
    ensures
        q_eq(y, z),
{
    reveal(q_add);
    reveal(q_eq);
    assert((0 * x.d + x.n * 1) * y.d + y.n * (1 * x.d) == y.n * x.d) by (nonlinear_arith)
        requires
            x.n == 0,
    ;
    assert(y.n * z.d == z.n * y.d) by (nonlinear_arith)
        requires
            (y.n * x.d) * z.d == z.n * ((1 * x.d) * y.d),
            x.d != 0,
    ;
}

/// A continuous interpolant with two coefficients, `bi_s(theta) = bi[s][1] * theta`, of a
/// method of order at least one is a dense output of order one.
pub proof fn lemma_linear_interpolant(m: TableauModel, s: nat, order: nat, order_embedded: nat)
    requires
        table_laws(m, s, 2, order, order_embedded),
        order >= 1,
    ensures
        interpolant_conditions(m, 2, 1),
{
    let ones = elementary_weights(m.a, 0);
    assert(ones == q_ones(s));
    assert(q_vec_valid(ones));
    let col0 = bi_column(m, 0);
    let col1 = bi_column(m, 1);
    assert forall|i: int| 0 <= i < col0.len() implies q_is_zero(#[trigger] col0[i]) && q_valid(
        col0[i],
    ) by {
        assert(col0[i] == m.bi[i][0]);
    }
    lemma_q_dot_zero_left(col0, ones);
    assert forall|i: int| 0 <= i < col1.len() implies q_eq(#[trigger] col1[i], m.b[i]) by {
        let r = m.bi[i];
        assert(col1[i] == r[1]);
        assert(interpolation_is_continuous(m));
        assert(0 <= i < m.b.len());
        assert(q_is_zero(m.bi[i][0]) && q_eq(q_total(m.bi[i]), m.b[i]));
        assert(m.bi[i].len() == 2);
        assert(q_sum_to(r, 0) == q_int(0));
        assert(q_sum_to(r, 1) == q_add(q_int(0), r[0]));
        assert(q_sum_to(r, 2) == q_add(q_sum_to(r, 1), r[1]));
        assert(q_total(r) == q_add(q_add(q_int(0), r[0]), r[1]));
        lemma_zero_then_coefficient(r[0], r[1], m.b[i]);
    }
    assert(q_vec_eq(col1, m.b));
    lemma_q_dot_congruent_left(col1, m.b, ones);
    assert(q_eq(q_dot(m.b, ones), q(1, tree_density(0))));
    lemma_q_eq_trans(q_dot(col1, ones), q_dot(m.b, ones), q(1, 1));
    assert forall|k: int, j: int|
        #![trigger elementary_weights(m.a, k), bi_column(m, j)]
        0 <= k < num_trees() && tree_order(k) <= 1 && 0 <= j < 2 implies q_eq(
        q_dot(bi_column(m, j), elementary_weights(m.a, k)),
        if j == tree_order(k) {
            q(1, tree_density(k))
        } else {
            q(0, 1)
        },
    ) by {
        assert(k == 0);
    }
}

} // verus!
