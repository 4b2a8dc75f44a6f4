//! The coefficients of the Butcher tables of this library, and the proofs that they obey the
//! laws of consistent Runge-Kutta methods.
use crate::order_conditions::{
    bi_column, elementary_weights, interpolant_conditions, interpolation_is_continuous, is_explicit, nodes_are_row_sums, num_trees,
    table_laws, tree_density, tree_order, well_shaped, TableauModel,
};
use crate::rational::{
    lemma_q_dot_congruent, lemma_q_eq_symmetric, lemma_q_eq_trans, lemma_q_eq_value,
    lemma_q_hadamard_congruent, lemma_q_hadamard_entry, lemma_q_mat_vec_congruent,
    lemma_q_mul_value, lemma_q_sum_step, lemma_q_vec_eq_trans, q, q_dot, q_eq, q_hadamard,
    q_is_zero, q_mat_vec, q_sum_to, q_total, q_valid, q_vec_eq, q_vec_valid,
};
use vstd::prelude::*;

verus! {

/// The coefficients of [`crate::rk::ButcherTableu::euler`].
pub open spec fn euler_model() -> TableauModel {
    TableauModel {
        a: seq![seq![q(0, 1)]],
        b: seq![q(1, 1)],
        b2: seq![q(0, 1)],
        c: seq![q(0, 1)],
        bi: seq![seq![q(0, 1), q(1, 1)]],
    }
}

proof fn lemma_euler_sum_1()
    ensures
        q_eq(q_total(seq![q(0, 1)]), q(0, 1)),
        q_valid(q_total(seq![q(0, 1)])),
{
    let s = seq![q(0, 1)];
    assert(s.len() == 1);
    assert(q_sum_to(s, 0) == q(0, 1));
    lemma_q_eq_value(0, 1, 0, 1);
    lemma_q_sum_step(s, 0, 0, 1, 0, 1, 0, 1);
}

proof fn lemma_euler_sum_2()
    ensures
        q_eq(q_total(seq![q(0, 1), q(1, 1)]), q(1, 1)),
        q_valid(q_total(seq![q(0, 1), q(1, 1)])),
{
    let s = seq![q(0, 1), q(1, 1)];
    assert(s.len() == 2);
    assert(q_sum_to(s, 0) == q(0, 1));
    lemma_q_eq_value(0, 1, 0, 1);
    lemma_q_sum_step(s, 0, 0, 1, 0, 1, 0, 1);
    lemma_q_sum_step(s, 1, 0, 1, 1, 1, 1, 1);
}

proof fn lemma_euler_sum_3()
    ensures
        q_eq(q_dot(seq![q(1, 1)], seq![q(1, 1)]), q(1, 1)),
        q_valid(q_dot(seq![q(1, 1)], seq![q(1, 1)])),
{
    let x = seq![q(1, 1)];
    let y = seq![q(1, 1)];
    let s = q_hadamard(x, y);
    assert(s.len() == 1);
    lemma_q_hadamard_entry(x, y, 0, 1, 1, 1, 1);
    assert(q_sum_to(s, 0) == q(0, 1));
    lemma_q_eq_value(0, 1, 0, 1);
    lemma_q_sum_step(s, 0, 0, 1, 1, 1, 1, 1);
}

proof fn lemma_euler_shape()
    ensures
        well_shaped(euler_model(), 1, 2),
        is_explicit(euler_model()),
{
    let m = euler_model();
    assert forall|k: int, l: int| 0 <= k < 1 && 0 <= l < 1 implies q_valid(#[trigger] m.a[k][l]) && (k <= l ==> q_is_zero(m.a[k][l])) by {
        if k == 0 {
            if l == 0 {
            }
        }
    }
    assert forall|k: int, l: int| 0 <= k < 1 && 0 <= l < 2 implies q_valid(#[trigger] m.bi[k][l]) by {
        if k == 0 {
            if l == 0 {
            } else if l == 1 {
            }
        }
    }
    assert forall|k: int| 0 <= k < 1 implies #[trigger] m.a[k].len() == 1 && m.bi[k].len() == 2 && q_valid(m.b[k]) && q_valid(m.b2[k]) && q_valid(m.c[k]) by {
        if k == 0 {
        }
    }
}

proof fn lemma_euler_rows()
    ensures
        nodes_are_row_sums(euler_model()),
        interpolation_is_continuous(euler_model()),
{
    let m = euler_model();
    assert forall|i: int|
        #![trigger m.c[i]]
        #![trigger m.bi[i]]
        0 <= i < 1 implies q_eq(m.c[i], q_total(m.a[i])) && q_is_zero(m.bi[i][0]) && q_eq(q_total(m.bi[i]), m.b[i]) by {
        if i == 0 {
            assert(m.a[0] == seq![q(0, 1)] && m.bi[0] == seq![q(0, 1), q(1, 1)]);
            lemma_euler_sum_1();
            lemma_euler_sum_2();
            lemma_q_eq_symmetric(q_total(m.a[0]), q(0, 1));
            assert(m.c[0] == q(0, 1) && m.b[0] == q(1, 1));
        }
    }
}

proof fn lemma_euler_phi_0()
    ensures
        q_vec_eq(elementary_weights(euler_model().a, 0), seq![q(1, 1)]),
{
    let v = elementary_weights(euler_model().a, 0);
    let w = seq![q(1, 1)];
    assert(v.len() == 1);
    lemma_q_eq_value(1, 1, 1, 1);
    assert forall|i: int| 0 <= i < 1 implies q_eq(#[trigger] v[i], w[i]) && q_valid(v[i]) by {
        if i == 0 {
            assert(v[0] == q(1, 1) && w[0] == q(1, 1));
        }
    }
    assert forall|i: int| 0 <= i < 1 implies q_valid(#[trigger] w[i]) by {
        if i == 0 {
        }
    }
}

proof fn lemma_euler_b_tree_0()
    ensures
        q_eq(q_dot(euler_model().b, elementary_weights(euler_model().a, 0)), q(1, tree_density(0))),
{
    lemma_euler_shape();
    lemma_euler_phi_0();
    assert(q_vec_valid(euler_model().b));
    lemma_q_dot_congruent(euler_model().b, elementary_weights(euler_model().a, 0), seq![q(1, 1)]);
    assert(euler_model().b == seq![q(1, 1)]);
    lemma_euler_sum_3();
    assert(q_eq(q_dot(euler_model().b, seq![q(1, 1)]), q(1, 1)));
    lemma_q_eq_trans(q_dot(euler_model().b, elementary_weights(euler_model().a, 0)), q_dot(euler_model().b, seq![q(1, 1)]), q(1, 1));
}

pub(crate) proof fn lemma_euler_laws()
    ensures
        table_laws(euler_model(), 1, 2, 1, 0),
{
    let m = euler_model();
    lemma_euler_shape();
    lemma_euler_rows();
    assert forall|k: int| 0 <= k < num_trees() && tree_order(k) <= 1 implies q_eq(q_dot(m.b, #[trigger] elementary_weights(m.a, k)), q(1, tree_density(k))) by {
        if k == 0 {
            lemma_euler_b_tree_0();
        }
    }
    assert forall|k: int| 0 <= k < num_trees() && tree_order(k) <= 0 implies q_eq(q_dot(m.b2, #[trigger] elementary_weights(m.a, k)), q(1, tree_density(k))) by {
    }
}

/// The coefficients of [`crate::rk::ButcherTableu::rk4`].
pub open spec fn rk4_model() -> TableauModel {
    TableauModel {
        a: seq![seq![q(0, 1), q(0, 1), q(0, 1), q(0, 1)], seq![q(1, 2), q(0, 1), q(0, 1), q(0, 1)], seq![q(0, 1), q(1, 2), q(0, 1), q(0, 1)], seq![q(0, 1), q(0, 1), q(1, 1), q(0, 1)]],
        b: seq![q(1, 6), q(1, 3), q(1, 3), q(1, 6)],
        b2: seq![q(0, 1), q(1, 1), q(0, 1), q(0, 1)],
        c: seq![q(0, 1), q(1, 2), q(1, 2), q(1, 1)],
        bi: seq![seq![q(0, 1), q(1, 6)], seq![q(0, 1), q(1, 3)], seq![q(0, 1), q(1, 3)], seq![q(0, 1), q(1, 6)]],
    }
}

proof fn lemma_rk4_sum_1()
    ensures
        q_eq(q_total(seq![q(0, 1), q(0, 1), q(0, 1), q(0, 1)]), q(0, 1)),
        q_valid(q_total(seq![q(0, 1), q(0, 1), q(0, 1), q(0, 1)])),
{
    let s = seq![q(0, 1), q(0, 1), q(0, 1), q(0, 1)];
    assert(s.len() == 4);
    assert(q_sum_to(s, 0) == q(0, 1));
    lemma_q_eq_value(0, 1, 0, 1);
    lemma_q_sum_step(s, 0, 0, 1, 0, 1, 0, 1);
    lemma_q_sum_step(s, 1, 0, 1, 0, 1, 0, 1);
    lemma_q_sum_step(s, 2, 0, 1, 0, 1, 0, 1);
    lemma_q_sum_step(s, 3, 0, 1, 0, 1, 0, 1);
}

proof fn lemma_rk4_sum_2()
    ensures
        q_eq(q_total(seq![q(0, 1), q(1, 6)]), q(1, 6)),
        q_valid(q_total(seq![q(0, 1), q(1, 6)])),
{
    let s = seq![q(0, 1), q(1, 6)];
    assert(s.len() == 2);
    assert(q_sum_to(s, 0) == q(0, 1));
    lemma_q_eq_value(0, 1, 0, 1);
    lemma_q_sum_step(s, 0, 0, 1, 0, 1, 0, 1);
    lemma_q_sum_step(s, 1, 0, 1, 1, 6, 1, 6);
}

proof fn lemma_rk4_sum_3()
    ensures
        q_eq(q_total(seq![q(1, 2), q(0, 1), q(0, 1), q(0, 1)]), q(1, 2)),
        q_valid(q_total(seq![q(1, 2), q(0, 1), q(0, 1), q(0, 1)])),
{
    let s = seq![q(1, 2), q(0, 1), q(0, 1), q(0, 1)];
    assert(s.len() == 4);
    assert(q_sum_to(s, 0) == q(0, 1));
    lemma_q_eq_value(0, 1, 0, 1);
    lemma_q_sum_step(s, 0, 0, 1, 1, 2, 1, 2);
    lemma_q_sum_step(s, 1, 1, 2, 0, 1, 1, 2);
    lemma_q_sum_step(s, 2, 1, 2, 0, 1, 1, 2);
    lemma_q_sum_step(s, 3, 1, 2, 0, 1, 1, 2);
}

proof fn lemma_rk4_sum_4()
    ensures
        q_eq(q_total(seq![q(0, 1), q(1, 3)]), q(1, 3)),
        q_valid(q_total(seq![q(0, 1), q(1, 3)])),
{
    let s = seq![q(0, 1), q(1, 3)];
    assert(s.len() == 2);
    assert(q_sum_to(s, 0) == q(0, 1));
    lemma_q_eq_value(0, 1, 0, 1);
    lemma_q_sum_step(s, 0, 0, 1, 0, 1, 0, 1);
    lemma_q_sum_step(s, 1, 0, 1, 1, 3, 1, 3);
}

proof fn lemma_rk4_sum_5()
    ensures
        q_eq(q_total(seq![q(0, 1), q(1, 2), q(0, 1), q(0, 1)]), q(1, 2)),
        q_valid(q_total(seq![q(0, 1), q(1, 2), q(0, 1), q(0, 1)])),
{
    let s = seq![q(0, 1), q(1, 2), q(0, 1), q(0, 1)];
    assert(s.len() == 4);
    assert(q_sum_to(s, 0) == q(0, 1));
    lemma_q_eq_value(0, 1, 0, 1);
    lemma_q_sum_step(s, 0, 0, 1, 0, 1, 0, 1);
    lemma_q_sum_step(s, 1, 0, 1, 1, 2, 1, 2);
    lemma_q_sum_step(s, 2, 1, 2, 0, 1, 1, 2);
    lemma_q_sum_step(s, 3, 1, 2, 0, 1, 1, 2);
}

proof fn lemma_rk4_sum_6()
    ensures
        q_eq(q_total(seq![q(0, 1), q(0, 1), q(1, 1), q(0, 1)]), q(1, 1)),
        q_valid(q_total(seq![q(0, 1), q(0, 1), q(1, 1), q(0, 1)])),
{
    let s = seq![q(0, 1), q(0, 1), q(1, 1), q(0, 1)];
    assert(s.len() == 4);
    assert(q_sum_to(s, 0) == q(0, 1));
    lemma_q_eq_value(0, 1, 0, 1);
    lemma_q_sum_step(s, 0, 0, 1, 0, 1, 0, 1);
    lemma_q_sum_step(s, 1, 0, 1, 0, 1, 0, 1);
    lemma_q_sum_step(s, 2, 0, 1, 1, 1, 1, 1);
    lemma_q_sum_step(s, 3, 1, 1, 0, 1, 1, 1);
}

proof fn lemma_rk4_sum_7()
    ensures
        q_eq(q_dot(seq![q(0, 1), q(0, 1), q(0, 1), q(0, 1)], seq![q(1, 1), q(1, 1), q(1, 1), q(1, 1)]), q(0, 1)),
        q_valid(q_dot(seq![q(0, 1), q(0, 1), q(0, 1), q(0, 1)], seq![q(1, 1), q(1, 1), q(1, 1), q(1, 1)])),
{
    let x = seq![q(0, 1), q(0, 1), q(0, 1), q(0, 1)];
    let y = seq![q(1, 1), q(1, 1), q(1, 1), q(1, 1)];
    let s = q_hadamard(x, y);
    assert(s.len() == 4);
    lemma_q_hadamard_entry(x, y, 0, 0, 1, 1, 1);
    lemma_q_hadamard_entry(x, y, 1, 0, 1, 1, 1);
    lemma_q_hadamard_entry(x, y, 2, 0, 1, 1, 1);
    lemma_q_hadamard_entry(x, y, 3, 0, 1, 1, 1);
    assert(q_sum_to(s, 0) == q(0, 1));
    lemma_q_eq_value(0, 1, 0, 1);
    lemma_q_sum_step(s, 0, 0, 1, 0, 1, 0, 1);
    lemma_q_sum_step(s, 1, 0, 1, 0, 1, 0, 1);
    lemma_q_sum_step(s, 2, 0, 1, 0, 1, 0, 1);
    lemma_q_sum_step(s, 3, 0, 1, 0, 1, 0, 1);
}

proof fn lemma_rk4_sum_8()
    ensures
        q_eq(q_dot(seq![q(1, 2), q(0, 1), q(0, 1), q(0, 1)], seq![q(1, 1), q(1, 1), q(1, 1), q(1, 1)]), q(1, 2)),
        q_valid(q_dot(seq![q(1, 2), q(0, 1), q(0, 1), q(0, 1)], seq![q(1, 1), q(1, 1), q(1, 1), q(1, 1)])),
{
    let x = seq![q(1, 2), q(0, 1), q(0, 1), q(0, 1)];
    let y = seq![q(1, 1), q(1, 1), q(1, 1), q(1, 1)];
    let s = q_hadamard(x, y);
    assert(s.len() == 4);
    lemma_q_hadamard_entry(x, y, 0, 1, 2, 1, 1);
    lemma_q_hadamard_entry(x, y, 1, 0, 1, 1, 1);
    lemma_q_hadamard_entry(x, y, 2, 0, 1, 1, 1);
    lemma_q_hadamard_entry(x, y, 3, 0, 1, 1, 1);
    assert(q_sum_to(s, 0) == q(0, 1));
    lemma_q_eq_value(0, 1, 0, 1);
    lemma_q_sum_step(s, 0, 0, 1, 1, 2, 1, 2);
    lemma_q_sum_step(s, 1, 1, 2, 0, 1, 1, 2);
    lemma_q_sum_step(s, 2, 1, 2, 0, 1, 1, 2);
    lemma_q_sum_step(s, 3, 1, 2, 0, 1, 1, 2);
}

proof fn lemma_rk4_sum_9()
    ensures
        q_eq(q_dot(seq![q(0, 1), q(1, 2), q(0, 1), q(0, 1)], seq![q(1, 1), q(1, 1), q(1, 1), q(1, 1)]), q(1, 2)),
        q_valid(q_dot(seq![q(0, 1), q(1, 2), q(0, 1), q(0, 1)], seq![q(1, 1), q(1, 1), q(1, 1), q(1, 1)])),
{
    let x = seq![q(0, 1), q(1, 2), q(0, 1), q(0, 1)];
    let y = seq![q(1, 1), q(1, 1), q(1, 1), q(1, 1)];
    let s = q_hadamard(x, y);
    assert(s.len() == 4);
    lemma_q_hadamard_entry(x, y, 0, 0, 1, 1, 1);
    lemma_q_hadamard_entry(x, y, 1, 1, 2, 1, 1);
    lemma_q_hadamard_entry(x, y, 2, 0, 1, 1, 1);
    lemma_q_hadamard_entry(x, y, 3, 0, 1, 1, 1);
    assert(q_sum_to(s, 0) == q(0, 1));
    lemma_q_eq_value(0, 1, 0, 1);
    lemma_q_sum_step(s, 0, 0, 1, 0, 1, 0, 1);
    lemma_q_sum_step(s, 1, 0, 1, 1, 2, 1, 2);
    lemma_q_sum_step(s, 2, 1, 2, 0, 1, 1, 2);
    lemma_q_sum_step(s, 3, 1, 2, 0, 1, 1, 2);
}

proof fn lemma_rk4_sum_10()
    ensures
        q_eq(q_dot(seq![q(0, 1), q(0, 1), q(1, 1), q(0, 1)], seq![q(1, 1), q(1, 1), q(1, 1), q(1, 1)]), q(1, 1)),
        q_valid(q_dot(seq![q(0, 1), q(0, 1), q(1, 1), q(0, 1)], seq![q(1, 1), q(1, 1), q(1, 1), q(1, 1)])),
{
    let x = seq![q(0, 1), q(0, 1), q(1, 1), q(0, 1)];
    let y = seq![q(1, 1), q(1, 1), q(1, 1), q(1, 1)];
    let s = q_hadamard(x, y);
    assert(s.len() == 4);
    lemma_q_hadamard_entry(x, y, 0, 0, 1, 1, 1);
    lemma_q_hadamard_entry(x, y, 1, 0, 1, 1, 1);
    lemma_q_hadamard_entry(x, y, 2, 1, 1, 1, 1);
    lemma_q_hadamard_entry(x, y, 3, 0, 1, 1, 1);
    assert(q_sum_to(s, 0) == q(0, 1));
    lemma_q_eq_value(0, 1, 0, 1);
    lemma_q_sum_step(s, 0, 0, 1, 0, 1, 0, 1);
    lemma_q_sum_step(s, 1, 0, 1, 0, 1, 0, 1);
    lemma_q_sum_step(s, 2, 0, 1, 1, 1, 1, 1);
    lemma_q_sum_step(s, 3, 1, 1, 0, 1, 1, 1);
}

proof fn lemma_rk4_sum_11()
    ensures
        q_eq(q_dot(seq![q(0, 1), q(0, 1), q(0, 1), q(0, 1)], seq![q(0, 1), q(1, 2), q(1, 2), q(1, 1)]), q(0, 1)),
        q_valid(q_dot(seq![q(0, 1), q(0, 1), q(0, 1), q(0, 1)], seq![q(0, 1), q(1, 2), q(1, 2), q(1, 1)])),
{
    let x = seq![q(0, 1), q(0, 1), q(0, 1), q(0, 1)];
    let y = seq![q(0, 1), q(1, 2), q(1, 2), q(1, 1)];
    let s = q_hadamard(x, y);
    assert(s.len() == 4);
    lemma_q_hadamard_entry(x, y, 0, 0, 1, 0, 1);
    lemma_q_hadamard_entry(x, y, 1, 0, 1, 1, 2);
    lemma_q_hadamard_entry(x, y, 2, 0, 1, 1, 2);
    lemma_q_hadamard_entry(x, y, 3, 0, 1, 1, 1);
    assert(q_sum_to(s, 0) == q(0, 1));
    lemma_q_eq_value(0, 1, 0, 1);
    lemma_q_sum_step(s, 0, 0, 1, 0, 1, 0, 1);
    lemma_q_sum_step(s, 1, 0, 1, 0, 2, 0, 1);
    lemma_q_sum_step(s, 2, 0, 1, 0, 2, 0, 1);
    lemma_q_sum_step(s, 3, 0, 1, 0, 1, 0, 1);
}

proof fn lemma_rk4_sum_12()
    ensures
        q_eq(q_dot(seq![q(1, 2), q(0, 1), q(0, 1), q(0, 1)], seq![q(0, 1), q(1, 2), q(1, 2), q(1, 1)]), q(0, 1)),
        q_valid(q_dot(seq![q(1, 2), q(0, 1), q(0, 1), q(0, 1)], seq![q(0, 1), q(1, 2), q(1, 2), q(1, 1)])),
{
    let x = seq![q(1, 2), q(0, 1), q(0, 1), q(0, 1)];
    let y = seq![q(0, 1), q(1, 2), q(1, 2), q(1, 1)];
    let s = q_hadamard(x, y);
    assert(s.len() == 4);
    lemma_q_hadamard_entry(x, y, 0, 1, 2, 0, 1);
    lemma_q_hadamard_entry(x, y, 1, 0, 1, 1, 2);
    lemma_q_hadamard_entry(x, y, 2, 0, 1, 1, 2);
    lemma_q_hadamard_entry(x, y, 3, 0, 1, 1, 1);
    assert(q_sum_to(s, 0) == q(0, 1));
    lemma_q_eq_value(0, 1, 0, 1);
    lemma_q_sum_step(s, 0, 0, 1, 0, 2, 0, 1);
    lemma_q_sum_step(s, 1, 0, 1, 0, 2, 0, 1);
    lemma_q_sum_step(s, 2, 0, 1, 0, 2, 0, 1);
    lemma_q_sum_step(s, 3, 0, 1, 0, 1, 0, 1);
}

proof fn lemma_rk4_sum_13()
    ensures
        q_eq(q_dot(seq![q(0, 1), q(1, 2), q(0, 1), q(0, 1)], seq![q(0, 1), q(1, 2), q(1, 2), q(1, 1)]), q(1, 4)),
        q_valid(q_dot(seq![q(0, 1), q(1, 2), q(0, 1), q(0, 1)], seq![q(0, 1), q(1, 2), q(1, 2), q(1, 1)])),
{
    let x = seq![q(0, 1), q(1, 2), q(0, 1), q(0, 1)];
    let y = seq![q(0, 1), q(1, 2), q(1, 2), q(1, 1)];
    let s = q_hadamard(x, y);
    assert(s.len() == 4);
    lemma_q_hadamard_entry(x, y, 0, 0, 1, 0, 1);
    lemma_q_hadamard_entry(x, y, 1, 1, 2, 1, 2);
    lemma_q_hadamard_entry(x, y, 2, 0, 1, 1, 2);
    lemma_q_hadamard_entry(x, y, 3, 0, 1, 1, 1);
    assert(q_sum_to(s, 0) == q(0, 1));
    lemma_q_eq_value(0, 1, 0, 1);
    lemma_q_sum_step(s, 0, 0, 1, 0, 1, 0, 1);
    lemma_q_sum_step(s, 1, 0, 1, 1, 4, 1, 4);
    lemma_q_sum_step(s, 2, 1, 4, 0, 2, 1, 4);
    lemma_q_sum_step(s, 3, 1, 4, 0, 1, 1, 4);
}

proof fn lemma_rk4_sum_14()
    ensures
        q_eq(q_dot(seq![q(0, 1), q(0, 1), q(1, 1), q(0, 1)], seq![q(0, 1), q(1, 2), q(1, 2), q(1, 1)]), q(1, 2)),
        q_valid(q_dot(seq![q(0, 1), q(0, 1), q(1, 1), q(0, 1)], seq![q(0, 1), q(1, 2), q(1, 2), q(1, 1)])),
{
    let x = seq![q(0, 1), q(0, 1), q(1, 1), q(0, 1)];
    let y = seq![q(0, 1), q(1, 2), q(1, 2), q(1, 1)];
    let s = q_hadamard(x, y);
    assert(s.len() == 4);
    lemma_q_hadamard_entry(x, y, 0, 0, 1, 0, 1);
    lemma_q_hadamard_entry(x, y, 1, 0, 1, 1, 2);
    lemma_q_hadamard_entry(x, y, 2, 1, 1, 1, 2);
    lemma_q_hadamard_entry(x, y, 3, 0, 1, 1, 1);
    assert(q_sum_to(s, 0) == q(0, 1));
    lemma_q_eq_value(0, 1, 0, 1);
    lemma_q_sum_step(s, 0, 0, 1, 0, 1, 0, 1);
    lemma_q_sum_step(s, 1, 0, 1, 0, 2, 0, 1);
    lemma_q_sum_step(s, 2, 0, 1, 1, 2, 1, 2);
    lemma_q_sum_step(s, 3, 1, 2, 0, 1, 1, 2);
}

proof fn lemma_rk4_sum_15()
    ensures
        q_eq(q_dot(seq![q(0, 1), q(0, 1), q(0, 1), q(0, 1)], seq![q(0, 1), q(1, 4), q(1, 4), q(1, 1)]), q(0, 1)),
        q_valid(q_dot(seq![q(0, 1), q(0, 1), q(0, 1), q(0, 1)], seq![q(0, 1), q(1, 4), q(1, 4), q(1, 1)])),
{
    let x = seq![q(0, 1), q(0, 1), q(0, 1), q(0, 1)];
    let y = seq![q(0, 1), q(1, 4), q(1, 4), q(1, 1)];
    let s = q_hadamard(x, y);
    assert(s.len() == 4);
    lemma_q_hadamard_entry(x, y, 0, 0, 1, 0, 1);
    lemma_q_hadamard_entry(x, y, 1, 0, 1, 1, 4);
    lemma_q_hadamard_entry(x, y, 2, 0, 1, 1, 4);
    lemma_q_hadamard_entry(x, y, 3, 0, 1, 1, 1);
    assert(q_sum_to(s, 0) == q(0, 1));
    lemma_q_eq_value(0, 1, 0, 1);
    lemma_q_sum_step(s, 0, 0, 1, 0, 1, 0, 1);
    lemma_q_sum_step(s, 1, 0, 1, 0, 4, 0, 1);
    lemma_q_sum_step(s, 2, 0, 1, 0, 4, 0, 1);
    lemma_q_sum_step(s, 3, 0, 1, 0, 1, 0, 1);
}

proof fn lemma_rk4_sum_16()
    ensures
        q_eq(q_dot(seq![q(1, 2), q(0, 1), q(0, 1), q(0, 1)], seq![q(0, 1), q(1, 4), q(1, 4), q(1, 1)]), q(0, 1)),
        q_valid(q_dot(seq![q(1, 2), q(0, 1), q(0, 1), q(0, 1)], seq![q(0, 1), q(1, 4), q(1, 4), q(1, 1)])),
{
    let x = seq![q(1, 2), q(0, 1), q(0, 1), q(0, 1)];
    let y = seq![q(0, 1), q(1, 4), q(1, 4), q(1, 1)];
    let s = q_hadamard(x, y);
    assert(s.len() == 4);
    lemma_q_hadamard_entry(x, y, 0, 1, 2, 0, 1);
    lemma_q_hadamard_entry(x, y, 1, 0, 1, 1, 4);
    lemma_q_hadamard_entry(x, y, 2, 0, 1, 1, 4);
    lemma_q_hadamard_entry(x, y, 3, 0, 1, 1, 1);
    assert(q_sum_to(s, 0) == q(0, 1));
    lemma_q_eq_value(0, 1, 0, 1);
    lemma_q_sum_step(s, 0, 0, 1, 0, 2, 0, 1);
    lemma_q_sum_step(s, 1, 0, 1, 0, 4, 0, 1);
    lemma_q_sum_step(s, 2, 0, 1, 0, 4, 0, 1);
    lemma_q_sum_step(s, 3, 0, 1, 0, 1, 0, 1);
}

proof fn lemma_rk4_sum_17()
    ensures
        q_eq(q_dot(seq![q(0, 1), q(1, 2), q(0, 1), q(0, 1)], seq![q(0, 1), q(1, 4), q(1, 4), q(1, 1)]), q(1, 8)),
        q_valid(q_dot(seq![q(0, 1), q(1, 2), q(0, 1), q(0, 1)], seq![q(0, 1), q(1, 4), q(1, 4), q(1, 1)])),
{
    let x = seq![q(0, 1), q(1, 2), q(0, 1), q(0, 1)];
    let y = seq![q(0, 1), q(1, 4), q(1, 4), q(1, 1)];
    let s = q_hadamard(x, y);
    assert(s.len() == 4);
    lemma_q_hadamard_entry(x, y, 0, 0, 1, 0, 1);
    lemma_q_hadamard_entry(x, y, 1, 1, 2, 1, 4);
    lemma_q_hadamard_entry(x, y, 2, 0, 1, 1, 4);
    lemma_q_hadamard_entry(x, y, 3, 0, 1, 1, 1);
    assert(q_sum_to(s, 0) == q(0, 1));
    lemma_q_eq_value(0, 1, 0, 1);
    lemma_q_sum_step(s, 0, 0, 1, 0, 1, 0, 1);
    lemma_q_sum_step(s, 1, 0, 1, 1, 8, 1, 8);
    lemma_q_sum_step(s, 2, 1, 8, 0, 4, 1, 8);
    lemma_q_sum_step(s, 3, 1, 8, 0, 1, 1, 8);
}

proof fn lemma_rk4_sum_18()
    ensures
        q_eq(q_dot(seq![q(0, 1), q(0, 1), q(1, 1), q(0, 1)], seq![q(0, 1), q(1, 4), q(1, 4), q(1, 1)]), q(1, 4)),
        q_valid(q_dot(seq![q(0, 1), q(0, 1), q(1, 1), q(0, 1)], seq![q(0, 1), q(1, 4), q(1, 4), q(1, 1)])),
{
    let x = seq![q(0, 1), q(0, 1), q(1, 1), q(0, 1)];
    let y = seq![q(0, 1), q(1, 4), q(1, 4), q(1, 1)];
    let s = q_hadamard(x, y);
    assert(s.len() == 4);
    lemma_q_hadamard_entry(x, y, 0, 0, 1, 0, 1);
    lemma_q_hadamard_entry(x, y, 1, 0, 1, 1, 4);
    lemma_q_hadamard_entry(x, y, 2, 1, 1, 1, 4);
    lemma_q_hadamard_entry(x, y, 3, 0, 1, 1, 1);
    assert(q_sum_to(s, 0) == q(0, 1));
    lemma_q_eq_value(0, 1, 0, 1);
    lemma_q_sum_step(s, 0, 0, 1, 0, 1, 0, 1);
    lemma_q_sum_step(s, 1, 0, 1, 0, 4, 0, 1);
    lemma_q_sum_step(s, 2, 0, 1, 1, 4, 1, 4);
    lemma_q_sum_step(s, 3, 1, 4, 0, 1, 1, 4);
}

proof fn lemma_rk4_sum_19()
    ensures
        q_eq(q_dot(seq![q(0, 1), q(0, 1), q(0, 1), q(0, 1)], seq![q(0, 1), q(0, 1), q(1, 4), q(1, 2)]), q(0, 1)),
        q_valid(q_dot(seq![q(0, 1), q(0, 1), q(0, 1), q(0, 1)], seq![q(0, 1), q(0, 1), q(1, 4), q(1, 2)])),
{
    let x = seq![q(0, 1), q(0, 1), q(0, 1), q(0, 1)];
    let y = seq![q(0, 1), q(0, 1), q(1, 4), q(1, 2)];
    let s = q_hadamard(x, y);
    assert(s.len() == 4);
    lemma_q_hadamard_entry(x, y, 0, 0, 1, 0, 1);
    lemma_q_hadamard_entry(x, y, 1, 0, 1, 0, 1);
    lemma_q_hadamard_entry(x, y, 2, 0, 1, 1, 4);
    lemma_q_hadamard_entry(x, y, 3, 0, 1, 1, 2);
    assert(q_sum_to(s, 0) == q(0, 1));
    lemma_q_eq_value(0, 1, 0, 1);
    lemma_q_sum_step(s, 0, 0, 1, 0, 1, 0, 1);
    lemma_q_sum_step(s, 1, 0, 1, 0, 1, 0, 1);
    lemma_q_sum_step(s, 2, 0, 1, 0, 4, 0, 1);
    lemma_q_sum_step(s, 3, 0, 1, 0, 2, 0, 1);
}

proof fn lemma_rk4_sum_20()
    ensures
        q_eq(q_dot(seq![q(1, 2), q(0, 1), q(0, 1), q(0, 1)], seq![q(0, 1), q(0, 1), q(1, 4), q(1, 2)]), q(0, 1)),
        q_valid(q_dot(seq![q(1, 2), q(0, 1), q(0, 1), q(0, 1)], seq![q(0, 1), q(0, 1), q(1, 4), q(1, 2)])),
{
    let x = seq![q(1, 2), q(0, 1), q(0, 1), q(0, 1)];
    let y = seq![q(0, 1), q(0, 1), q(1, 4), q(1, 2)];
    let s = q_hadamard(x, y);
    assert(s.len() == 4);
    lemma_q_hadamard_entry(x, y, 0, 1, 2, 0, 1);
    lemma_q_hadamard_entry(x, y, 1, 0, 1, 0, 1);
    lemma_q_hadamard_entry(x, y, 2, 0, 1, 1, 4);
    lemma_q_hadamard_entry(x, y, 3, 0, 1, 1, 2);
    assert(q_sum_to(s, 0) == q(0, 1));
    lemma_q_eq_value(0, 1, 0, 1);
    lemma_q_sum_step(s, 0, 0, 1, 0, 2, 0, 1);
    lemma_q_sum_step(s, 1, 0, 1, 0, 1, 0, 1);
    lemma_q_sum_step(s, 2, 0, 1, 0, 4, 0, 1);
    lemma_q_sum_step(s, 3, 0, 1, 0, 2, 0, 1);
}

proof fn lemma_rk4_sum_21()
    ensures
        q_eq(q_dot(seq![q(0, 1), q(1, 2), q(0, 1), q(0, 1)], seq![q(0, 1), q(0, 1), q(1, 4), q(1, 2)]), q(0, 1)),
        q_valid(q_dot(seq![q(0, 1), q(1, 2), q(0, 1), q(0, 1)], seq![q(0, 1), q(0, 1), q(1, 4), q(1, 2)])),
{
    let x = seq![q(0, 1), q(1, 2), q(0, 1), q(0, 1)];
    let y = seq![q(0, 1), q(0, 1), q(1, 4), q(1, 2)];
    let s = q_hadamard(x, y);
    assert(s.len() == 4);
    lemma_q_hadamard_entry(x, y, 0, 0, 1, 0, 1);
    lemma_q_hadamard_entry(x, y, 1, 1, 2, 0, 1);
    lemma_q_hadamard_entry(x, y, 2, 0, 1, 1, 4);
    lemma_q_hadamard_entry(x, y, 3, 0, 1, 1, 2);
    assert(q_sum_to(s, 0) == q(0, 1));
    lemma_q_eq_value(0, 1, 0, 1);
    lemma_q_sum_step(s, 0, 0, 1, 0, 1, 0, 1);
    lemma_q_sum_step(s, 1, 0, 1, 0, 2, 0, 1);
    lemma_q_sum_step(s, 2, 0, 1, 0, 4, 0, 1);
    lemma_q_sum_step(s, 3, 0, 1, 0, 2, 0, 1);
}

proof fn lemma_rk4_sum_22()
    ensures
        q_eq(q_dot(seq![q(0, 1), q(0, 1), q(1, 1), q(0, 1)], seq![q(0, 1), q(0, 1), q(1, 4), q(1, 2)]), q(1, 4)),
        q_valid(q_dot(seq![q(0, 1), q(0, 1), q(1, 1), q(0, 1)], seq![q(0, 1), q(0, 1), q(1, 4), q(1, 2)])),
{
    let x = seq![q(0, 1), q(0, 1), q(1, 1), q(0, 1)];
    let y = seq![q(0, 1), q(0, 1), q(1, 4), q(1, 2)];
    let s = q_hadamard(x, y);
    assert(s.len() == 4);
    lemma_q_hadamard_entry(x, y, 0, 0, 1, 0, 1);
    lemma_q_hadamard_entry(x, y, 1, 0, 1, 0, 1);
    lemma_q_hadamard_entry(x, y, 2, 1, 1, 1, 4);
    lemma_q_hadamard_entry(x, y, 3, 0, 1, 1, 2);
    assert(q_sum_to(s, 0) == q(0, 1));
    lemma_q_eq_value(0, 1, 0, 1);
    lemma_q_sum_step(s, 0, 0, 1, 0, 1, 0, 1);
    lemma_q_sum_step(s, 1, 0, 1, 0, 1, 0, 1);
    lemma_q_sum_step(s, 2, 0, 1, 1, 4, 1, 4);
    lemma_q_sum_step(s, 3, 1, 4, 0, 2, 1, 4);
}

proof fn lemma_rk4_sum_23()
    ensures
        q_eq(q_dot(seq![q(1, 6), q(1, 3), q(1, 3), q(1, 6)], seq![q(1, 1), q(1, 1), q(1, 1), q(1, 1)]), q(1, 1)),
        q_valid(q_dot(seq![q(1, 6), q(1, 3), q(1, 3), q(1, 6)], seq![q(1, 1), q(1, 1), q(1, 1), q(1, 1)])),
{
    let x = seq![q(1, 6), q(1, 3), q(1, 3), q(1, 6)];
    let y = seq![q(1, 1), q(1, 1), q(1, 1), q(1, 1)];
    let s = q_hadamard(x, y);
    assert(s.len() == 4);
    lemma_q_hadamard_entry(x, y, 0, 1, 6, 1, 1);
    lemma_q_hadamard_entry(x, y, 1, 1, 3, 1, 1);
    lemma_q_hadamard_entry(x, y, 2, 1, 3, 1, 1);
    lemma_q_hadamard_entry(x, y, 3, 1, 6, 1, 1);
    assert(q_sum_to(s, 0) == q(0, 1));
    lemma_q_eq_value(0, 1, 0, 1);
    lemma_q_sum_step(s, 0, 0, 1, 1, 6, 1, 6);
    lemma_q_sum_step(s, 1, 1, 6, 1, 3, 1, 2);
    lemma_q_sum_step(s, 2, 1, 2, 1, 3, 5, 6);
    lemma_q_sum_step(s, 3, 5, 6, 1, 6, 1, 1);
}

proof fn lemma_rk4_sum_24()
    ensures
        q_eq(q_dot(seq![q(1, 6), q(1, 3), q(1, 3), q(1, 6)], seq![q(0, 1), q(1, 2), q(1, 2), q(1, 1)]), q(1, 2)),
        q_valid(q_dot(seq![q(1, 6), q(1, 3), q(1, 3), q(1, 6)], seq![q(0, 1), q(1, 2), q(1, 2), q(1, 1)])),
{
    let x = seq![q(1, 6), q(1, 3), q(1, 3), q(1, 6)];
    let y = seq![q(0, 1), q(1, 2), q(1, 2), q(1, 1)];
    let s = q_hadamard(x, y);
    assert(s.len() == 4);
    lemma_q_hadamard_entry(x, y, 0, 1, 6, 0, 1);
    lemma_q_hadamard_entry(x, y, 1, 1, 3, 1, 2);
    lemma_q_hadamard_entry(x, y, 2, 1, 3, 1, 2);
    lemma_q_hadamard_entry(x, y, 3, 1, 6, 1, 1);
    assert(q_sum_to(s, 0) == q(0, 1));
    lemma_q_eq_value(0, 1, 0, 1);
    lemma_q_sum_step(s, 0, 0, 1, 0, 6, 0, 1);
    lemma_q_sum_step(s, 1, 0, 1, 1, 6, 1, 6);
    lemma_q_sum_step(s, 2, 1, 6, 1, 6, 1, 3);
    lemma_q_sum_step(s, 3, 1, 3, 1, 6, 1, 2);
}

proof fn lemma_rk4_sum_25()
    ensures
        q_eq(q_dot(seq![q(1, 6), q(1, 3), q(1, 3), q(1, 6)], seq![q(0, 1), q(1, 4), q(1, 4), q(1, 1)]), q(1, 3)),
        q_valid(q_dot(seq![q(1, 6), q(1, 3), q(1, 3), q(1, 6)], seq![q(0, 1), q(1, 4), q(1, 4), q(1, 1)])),
{
    let x = seq![q(1, 6), q(1, 3), q(1, 3), q(1, 6)];
    let y = seq![q(0, 1), q(1, 4), q(1, 4), q(1, 1)];
    let s = q_hadamard(x, y);
    assert(s.len() == 4);
    lemma_q_hadamard_entry(x, y, 0, 1, 6, 0, 1);
    lemma_q_hadamard_entry(x, y, 1, 1, 3, 1, 4);
    lemma_q_hadamard_entry(x, y, 2, 1, 3, 1, 4);
    lemma_q_hadamard_entry(x, y, 3, 1, 6, 1, 1);
    assert(q_sum_to(s, 0) == q(0, 1));
    lemma_q_eq_value(0, 1, 0, 1);
    lemma_q_sum_step(s, 0, 0, 1, 0, 6, 0, 1);
    lemma_q_sum_step(s, 1, 0, 1, 1, 12, 1, 12);
    lemma_q_sum_step(s, 2, 1, 12, 1, 12, 1, 6);
    lemma_q_sum_step(s, 3, 1, 6, 1, 6, 1, 3);
}

proof fn lemma_rk4_sum_26()
    ensures
        q_eq(q_dot(seq![q(1, 6), q(1, 3), q(1, 3), q(1, 6)], seq![q(0, 1), q(0, 1), q(1, 4), q(1, 2)]), q(1, 6)),
        q_valid(q_dot(seq![q(1, 6), q(1, 3), q(1, 3), q(1, 6)], seq![q(0, 1), q(0, 1), q(1, 4), q(1, 2)])),
{
    let x = seq![q(1, 6), q(1, 3), q(1, 3), q(1, 6)];
    let y = seq![q(0, 1), q(0, 1), q(1, 4), q(1, 2)];
    let s = q_hadamard(x, y);
    assert(s.len() == 4);
    lemma_q_hadamard_entry(x, y, 0, 1, 6, 0, 1);
    lemma_q_hadamard_entry(x, y, 1, 1, 3, 0, 1);
    lemma_q_hadamard_entry(x, y, 2, 1, 3, 1, 4);
    lemma_q_hadamard_entry(x, y, 3, 1, 6, 1, 2);
    assert(q_sum_to(s, 0) == q(0, 1));
    lemma_q_eq_value(0, 1, 0, 1);
    lemma_q_sum_step(s, 0, 0, 1, 0, 6, 0, 1);
    lemma_q_sum_step(s, 1, 0, 1, 0, 3, 0, 1);
    lemma_q_sum_step(s, 2, 0, 1, 1, 12, 1, 12);
    lemma_q_sum_step(s, 3, 1, 12, 1, 12, 1, 6);
}

proof fn lemma_rk4_sum_27()
    ensures
        q_eq(q_dot(seq![q(1, 6), q(1, 3), q(1, 3), q(1, 6)], seq![q(0, 1), q(1, 8), q(1, 8), q(1, 1)]), q(1, 4)),
        q_valid(q_dot(seq![q(1, 6), q(1, 3), q(1, 3), q(1, 6)], seq![q(0, 1), q(1, 8), q(1, 8), q(1, 1)])),
{
    let x = seq![q(1, 6), q(1, 3), q(1, 3), q(1, 6)];
    let y = seq![q(0, 1), q(1, 8), q(1, 8), q(1, 1)];
    let s = q_hadamard(x, y);
    assert(s.len() == 4);
    lemma_q_hadamard_entry(x, y, 0, 1, 6, 0, 1);
    lemma_q_hadamard_entry(x, y, 1, 1, 3, 1, 8);
    lemma_q_hadamard_entry(x, y, 2, 1, 3, 1, 8);
    lemma_q_hadamard_entry(x, y, 3, 1, 6, 1, 1);
    assert(q_sum_to(s, 0) == q(0, 1));
    lemma_q_eq_value(0, 1, 0, 1);
    lemma_q_sum_step(s, 0, 0, 1, 0, 6, 0, 1);
    lemma_q_sum_step(s, 1, 0, 1, 1, 24, 1, 24);
    lemma_q_sum_step(s, 2, 1, 24, 1, 24, 1, 12);
    lemma_q_sum_step(s, 3, 1, 12, 1, 6, 1, 4);
}

proof fn lemma_rk4_sum_28()
    ensures
        q_eq(q_dot(seq![q(1, 6), q(1, 3), q(1, 3), q(1, 6)], seq![q(0, 1), q(0, 1), q(1, 8), q(1, 2)]), q(1, 8)),
        q_valid(q_dot(seq![q(1, 6), q(1, 3), q(1, 3), q(1, 6)], seq![q(0, 1), q(0, 1), q(1, 8), q(1, 2)])),
{
    let x = seq![q(1, 6), q(1, 3), q(1, 3), q(1, 6)];
    let y = seq![q(0, 1), q(0, 1), q(1, 8), q(1, 2)];
    let s = q_hadamard(x, y);
    assert(s.len() == 4);
    lemma_q_hadamard_entry(x, y, 0, 1, 6, 0, 1);
    lemma_q_hadamard_entry(x, y, 1, 1, 3, 0, 1);
    lemma_q_hadamard_entry(x, y, 2, 1, 3, 1, 8);
    lemma_q_hadamard_entry(x, y, 3, 1, 6, 1, 2);
    assert(q_sum_to(s, 0) == q(0, 1));
    lemma_q_eq_value(0, 1, 0, 1);
    lemma_q_sum_step(s, 0, 0, 1, 0, 6, 0, 1);
    lemma_q_sum_step(s, 1, 0, 1, 0, 3, 0, 1);
    lemma_q_sum_step(s, 2, 0, 1, 1, 24, 1, 24);
    lemma_q_sum_step(s, 3, 1, 24, 1, 12, 1, 8);
}

proof fn lemma_rk4_sum_29()
    ensures
        q_eq(q_dot(seq![q(1, 6), q(1, 3), q(1, 3), q(1, 6)], seq![q(0, 1), q(0, 1), q(1, 8), q(1, 4)]), q(1, 12)),
        q_valid(q_dot(seq![q(1, 6), q(1, 3), q(1, 3), q(1, 6)], seq![q(0, 1), q(0, 1), q(1, 8), q(1, 4)])),
{
    let x = seq![q(1, 6), q(1, 3), q(1, 3), q(1, 6)];
    let y = seq![q(0, 1), q(0, 1), q(1, 8), q(1, 4)];
    let s = q_hadamard(x, y);
    assert(s.len() == 4);
    lemma_q_hadamard_entry(x, y, 0, 1, 6, 0, 1);
    lemma_q_hadamard_entry(x, y, 1, 1, 3, 0, 1);
    lemma_q_hadamard_entry(x, y, 2, 1, 3, 1, 8);
    lemma_q_hadamard_entry(x, y, 3, 1, 6, 1, 4);
    assert(q_sum_to(s, 0) == q(0, 1));
    lemma_q_eq_value(0, 1, 0, 1);
    lemma_q_sum_step(s, 0, 0, 1, 0, 6, 0, 1);
    lemma_q_sum_step(s, 1, 0, 1, 0, 3, 0, 1);
    lemma_q_sum_step(s, 2, 0, 1, 1, 24, 1, 24);
    lemma_q_sum_step(s, 3, 1, 24, 1, 24, 1, 12);
}

proof fn lemma_rk4_sum_30()
    ensures
        q_eq(q_dot(seq![q(1, 6), q(1, 3), q(1, 3), q(1, 6)], seq![q(0, 1), q(0, 1), q(0, 1), q(1, 4)]), q(1, 24)),
        q_valid(q_dot(seq![q(1, 6), q(1, 3), q(1, 3), q(1, 6)], seq![q(0, 1), q(0, 1), q(0, 1), q(1, 4)])),
{
    let x = seq![q(1, 6), q(1, 3), q(1, 3), q(1, 6)];
    let y = seq![q(0, 1), q(0, 1), q(0, 1), q(1, 4)];
    let s = q_hadamard(x, y);
    assert(s.len() == 4);
    lemma_q_hadamard_entry(x, y, 0, 1, 6, 0, 1);
    lemma_q_hadamard_entry(x, y, 1, 1, 3, 0, 1);
    lemma_q_hadamard_entry(x, y, 2, 1, 3, 0, 1);
    lemma_q_hadamard_entry(x, y, 3, 1, 6, 1, 4);
    assert(q_sum_to(s, 0) == q(0, 1));
    lemma_q_eq_value(0, 1, 0, 1);
    lemma_q_sum_step(s, 0, 0, 1, 0, 6, 0, 1);
    lemma_q_sum_step(s, 1, 0, 1, 0, 3, 0, 1);
    lemma_q_sum_step(s, 2, 0, 1, 0, 3, 0, 1);
    lemma_q_sum_step(s, 3, 0, 1, 1, 24, 1, 24);
}

proof fn lemma_rk4_sum_31()
    ensures
        q_eq(q_dot(seq![q(0, 1), q(1, 1), q(0, 1), q(0, 1)], seq![q(1, 1), q(1, 1), q(1, 1), q(1, 1)]), q(1, 1)),
        q_valid(q_dot(seq![q(0, 1), q(1, 1), q(0, 1), q(0, 1)], seq![q(1, 1), q(1, 1), q(1, 1), q(1, 1)])),
{
    let x = seq![q(0, 1), q(1, 1), q(0, 1), q(0, 1)];
    let y = seq![q(1, 1), q(1, 1), q(1, 1), q(1, 1)];
    let s = q_hadamard(x, y);
    assert(s.len() == 4);
    lemma_q_hadamard_entry(x, y, 0, 0, 1, 1, 1);
    lemma_q_hadamard_entry(x, y, 1, 1, 1, 1, 1);
    lemma_q_hadamard_entry(x, y, 2, 0, 1, 1, 1);
    lemma_q_hadamard_entry(x, y, 3, 0, 1, 1, 1);
    assert(q_sum_to(s, 0) == q(0, 1));
    lemma_q_eq_value(0, 1, 0, 1);
    lemma_q_sum_step(s, 0, 0, 1, 0, 1, 0, 1);
    lemma_q_sum_step(s, 1, 0, 1, 1, 1, 1, 1);
    lemma_q_sum_step(s, 2, 1, 1, 0, 1, 1, 1);
    lemma_q_sum_step(s, 3, 1, 1, 0, 1, 1, 1);
}

proof fn lemma_rk4_sum_32()
    ensures
        q_eq(q_dot(seq![q(0, 1), q(1, 1), q(0, 1), q(0, 1)], seq![q(0, 1), q(1, 2), q(1, 2), q(1, 1)]), q(1, 2)),
        q_valid(q_dot(seq![q(0, 1), q(1, 1), q(0, 1), q(0, 1)], seq![q(0, 1), q(1, 2), q(1, 2), q(1, 1)])),
{
    let x = seq![q(0, 1), q(1, 1), q(0, 1), q(0, 1)];
    let y = seq![q(0, 1), q(1, 2), q(1, 2), q(1, 1)];
    let s = q_hadamard(x, y);
    assert(s.len() == 4);
    lemma_q_hadamard_entry(x, y, 0, 0, 1, 0, 1);
    lemma_q_hadamard_entry(x, y, 1, 1, 1, 1, 2);
    lemma_q_hadamard_entry(x, y, 2, 0, 1, 1, 2);
    lemma_q_hadamard_entry(x, y, 3, 0, 1, 1, 1);
    assert(q_sum_to(s, 0) == q(0, 1));
    lemma_q_eq_value(0, 1, 0, 1);
    lemma_q_sum_step(s, 0, 0, 1, 0, 1, 0, 1);
    lemma_q_sum_step(s, 1, 0, 1, 1, 2, 1, 2);
    lemma_q_sum_step(s, 2, 1, 2, 0, 2, 1, 2);
    lemma_q_sum_step(s, 3, 1, 2, 0, 1, 1, 2);
}

proof fn lemma_rk4_shape()
    ensures
        well_shaped(rk4_model(), 4, 2),
        is_explicit(rk4_model()),
{
    let m = rk4_model();
    assert forall|k: int, l: int| 0 <= k < 4 && 0 <= l < 4 implies q_valid(#[trigger] m.a[k][l]) && (k <= l ==> q_is_zero(m.a[k][l])) by {
        if k == 0 {
            if l == 0 {
            } else if l == 1 {
            } else if l == 2 {
            } else if l == 3 {
            }
        } else if k == 1 {
            if l == 0 {
            } else if l == 1 {
            } else if l == 2 {
            } else if l == 3 {
            }
        } else if k == 2 {
            if l == 0 {
            } else if l == 1 {
            } else if l == 2 {
            } else if l == 3 {
            }
        } else if k == 3 {
            if l == 0 {
            } else if l == 1 {
            } else if l == 2 {
            } else if l == 3 {
            }
        }
    }
    assert forall|k: int, l: int| 0 <= k < 4 && 0 <= l < 2 implies q_valid(#[trigger] m.bi[k][l]) by {
        if k == 0 {
            if l == 0 {
            } else if l == 1 {
            }
        } else if k == 1 {
            if l == 0 {
            } else if l == 1 {
            }
        } else if k == 2 {
            if l == 0 {
            } else if l == 1 {
            }
        } else if k == 3 {
            if l == 0 {
            } else if l == 1 {
            }
        }
    }
    assert forall|k: int| 0 <= k < 4 implies #[trigger] m.a[k].len() == 4 && m.bi[k].len() == 2 && q_valid(m.b[k]) && q_valid(m.b2[k]) && q_valid(m.c[k]) by {
        if k == 0 {
        } else if k == 1 {
        } else if k == 2 {
        } else if k == 3 {
        }
    }
}

proof fn lemma_rk4_rows()
    ensures
        nodes_are_row_sums(rk4_model()),
        interpolation_is_continuous(rk4_model()),
{
    let m = rk4_model();
    assert forall|i: int|
        #![trigger m.c[i]]
        #![trigger m.bi[i]]
        0 <= i < 4 implies q_eq(m.c[i], q_total(m.a[i])) && q_is_zero(m.bi[i][0]) && q_eq(q_total(m.bi[i]), m.b[i]) by {
        if i == 0 {
            assert(m.a[0] == seq![q(0, 1), q(0, 1), q(0, 1), q(0, 1)] && m.bi[0] == seq![q(0, 1), q(1, 6)]);
            lemma_rk4_sum_1();
            lemma_rk4_sum_2();
            lemma_q_eq_symmetric(q_total(m.a[0]), q(0, 1));
            assert(m.c[0] == q(0, 1) && m.b[0] == q(1, 6));
        } else if i == 1 {
            assert(m.a[1] == seq![q(1, 2), q(0, 1), q(0, 1), q(0, 1)] && m.bi[1] == seq![q(0, 1), q(1, 3)]);
            lemma_rk4_sum_3();
            lemma_rk4_sum_4();
            lemma_q_eq_symmetric(q_total(m.a[1]), q(1, 2));
            assert(m.c[1] == q(1, 2) && m.b[1] == q(1, 3));
        } else if i == 2 {
            assert(m.a[2] == seq![q(0, 1), q(1, 2), q(0, 1), q(0, 1)] && m.bi[2] == seq![q(0, 1), q(1, 3)]);
            lemma_rk4_sum_5();
            lemma_rk4_sum_4();
            lemma_q_eq_symmetric(q_total(m.a[2]), q(1, 2));
            assert(m.c[2] == q(1, 2) && m.b[2] == q(1, 3));
        } else if i == 3 {
            assert(m.a[3] == seq![q(0, 1), q(0, 1), q(1, 1), q(0, 1)] && m.bi[3] == seq![q(0, 1), q(1, 6)]);
            lemma_rk4_sum_6();
            lemma_rk4_sum_2();
            lemma_q_eq_symmetric(q_total(m.a[3]), q(1, 1));
            assert(m.c[3] == q(1, 1) && m.b[3] == q(1, 6));
        }
    }
}

proof fn lemma_rk4_phi_0()
    ensures
        q_vec_eq(elementary_weights(rk4_model().a, 0), seq![q(1, 1), q(1, 1), q(1, 1), q(1, 1)]),
{
    let v = elementary_weights(rk4_model().a, 0);
    let w = seq![q(1, 1), q(1, 1), q(1, 1), q(1, 1)];
    assert(v.len() == 4);
    lemma_q_eq_value(1, 1, 1, 1);
    assert forall|i: int| 0 <= i < 4 implies q_eq(#[trigger] v[i], w[i]) && q_valid(v[i]) by {
        if i == 0 {
            assert(v[0] == q(1, 1) && w[0] == q(1, 1));
        } else if i == 1 {
            assert(v[1] == q(1, 1) && w[1] == q(1, 1));
        } else if i == 2 {
            assert(v[2] == q(1, 1) && w[2] == q(1, 1));
        } else if i == 3 {
            assert(v[3] == q(1, 1) && w[3] == q(1, 1));
        }
    }
    assert forall|i: int| 0 <= i < 4 implies q_valid(#[trigger] w[i]) by {
        if i == 0 {
        } else if i == 1 {
        } else if i == 2 {
        } else if i == 3 {
        }
    }
}

proof fn lemma_rk4_eval_a_1()
    ensures
        q_vec_eq(q_mat_vec(rk4_model().a, seq![q(1, 1), q(1, 1), q(1, 1), q(1, 1)]), seq![q(0, 1), q(1, 2), q(1, 2), q(1, 1)]),
{
    let a = rk4_model().a;
    let v = q_mat_vec(a, seq![q(1, 1), q(1, 1), q(1, 1), q(1, 1)]);
    let w = seq![q(0, 1), q(1, 2), q(1, 2), q(1, 1)];
    assert forall|i: int|
        #![trigger v[i]]
        #![trigger w[i]]
        0 <= i < 4 implies q_eq(v[i], w[i]) && q_valid(v[i]) && q_valid(w[i]) by {
        if i == 0 {
            assert(a[0] == seq![q(0, 1), q(0, 1), q(0, 1), q(0, 1)]);
            lemma_rk4_sum_7();
            assert(w[0] == q(0, 1));
            lemma_q_eq_value(0, 1, 0, 1);
        } else if i == 1 {
            assert(a[1] == seq![q(1, 2), q(0, 1), q(0, 1), q(0, 1)]);
            lemma_rk4_sum_8();
            assert(w[1] == q(1, 2));
            lemma_q_eq_value(1, 2, 1, 2);
        } else if i == 2 {
            assert(a[2] == seq![q(0, 1), q(1, 2), q(0, 1), q(0, 1)]);
            lemma_rk4_sum_9();
            assert(w[2] == q(1, 2));
            lemma_q_eq_value(1, 2, 1, 2);
        } else if i == 3 {
            assert(a[3] == seq![q(0, 1), q(0, 1), q(1, 1), q(0, 1)]);
            lemma_rk4_sum_10();
            assert(w[3] == q(1, 1));
            lemma_q_eq_value(1, 1, 1, 1);
        }
    }
}

proof fn lemma_rk4_phi_1()
    ensures
        q_vec_eq(elementary_weights(rk4_model().a, 1), seq![q(0, 1), q(1, 2), q(1, 2), q(1, 1)]),
{
    let a = rk4_model().a;
    lemma_rk4_shape();
    lemma_rk4_phi_0();
    lemma_q_mat_vec_congruent(a, elementary_weights(a, 0), seq![q(1, 1), q(1, 1), q(1, 1), q(1, 1)]);
    lemma_rk4_eval_a_1();
    lemma_q_vec_eq_trans(q_mat_vec(a, elementary_weights(a, 0)), q_mat_vec(a, seq![q(1, 1), q(1, 1), q(1, 1), q(1, 1)]), seq![q(0, 1), q(1, 2), q(1, 2), q(1, 1)]);
}

proof fn lemma_rk4_eval_a_2()
    ensures
        q_vec_eq(q_mat_vec(rk4_model().a, seq![q(1, 1), q(1, 1), q(1, 1), q(1, 1)]), seq![q(0, 1), q(1, 2), q(1, 2), q(1, 1)]),
{
    let a = rk4_model().a;
    let v = q_mat_vec(a, seq![q(1, 1), q(1, 1), q(1, 1), q(1, 1)]);
    let w = seq![q(0, 1), q(1, 2), q(1, 2), q(1, 1)];
    assert forall|i: int|
        #![trigger v[i]]
        #![trigger w[i]]
        0 <= i < 4 implies q_eq(v[i], w[i]) && q_valid(v[i]) && q_valid(w[i]) by {
        if i == 0 {
            assert(a[0] == seq![q(0, 1), q(0, 1), q(0, 1), q(0, 1)]);
            lemma_rk4_sum_7();
            assert(w[0] == q(0, 1));
            lemma_q_eq_value(0, 1, 0, 1);
        } else if i == 1 {
            assert(a[1] == seq![q(1, 2), q(0, 1), q(0, 1), q(0, 1)]);
            lemma_rk4_sum_8();
            assert(w[1] == q(1, 2));
            lemma_q_eq_value(1, 2, 1, 2);
        } else if i == 2 {
            assert(a[2] == seq![q(0, 1), q(1, 2), q(0, 1), q(0, 1)]);
            lemma_rk4_sum_9();
            assert(w[2] == q(1, 2));
            lemma_q_eq_value(1, 2, 1, 2);
        } else if i == 3 {
            assert(a[3] == seq![q(0, 1), q(0, 1), q(1, 1), q(0, 1)]);
            lemma_rk4_sum_10();
            assert(w[3] == q(1, 1));
            lemma_q_eq_value(1, 1, 1, 1);
        }
    }
}

proof fn lemma_rk4_eval_h_2()
    ensures
        q_vec_eq(q_hadamard(seq![q(0, 1), q(1, 2), q(1, 2), q(1, 1)], seq![q(0, 1), q(1, 2), q(1, 2), q(1, 1)]), seq![q(0, 1), q(1, 4), q(1, 4), q(1, 1)]),
{
    let x = seq![q(0, 1), q(1, 2), q(1, 2), q(1, 1)];
    let y = seq![q(0, 1), q(1, 2), q(1, 2), q(1, 1)];
    let v = q_hadamard(x, y);
    let w = seq![q(0, 1), q(1, 4), q(1, 4), q(1, 1)];
    assert forall|i: int|
        #![trigger v[i]]
        #![trigger w[i]]
        0 <= i < 4 implies q_eq(v[i], w[i]) && q_valid(v[i]) && q_valid(w[i]) by {
        if i == 0 {
            lemma_q_mul_value(0, 1, 0, 1);
            assert(x[0] == q(0, 1) && y[0] == q(0, 1));
            lemma_q_eq_value(0, 1, 0, 1);
            assert(w[0] == q(0, 1));
        } else if i == 1 {
            lemma_q_mul_value(1, 2, 1, 2);
            assert(x[1] == q(1, 2) && y[1] == q(1, 2));
            lemma_q_eq_value(1, 4, 1, 4);
            assert(w[1] == q(1, 4));
        } else if i == 2 {
            lemma_q_mul_value(1, 2, 1, 2);
            assert(x[2] == q(1, 2) && y[2] == q(1, 2));
            lemma_q_eq_value(1, 4, 1, 4);
            assert(w[2] == q(1, 4));
        } else if i == 3 {
            lemma_q_mul_value(1, 1, 1, 1);
            assert(x[3] == q(1, 1) && y[3] == q(1, 1));
            lemma_q_eq_value(1, 1, 1, 1);
            assert(w[3] == q(1, 1));
        }
    }
}

proof fn lemma_rk4_phi_2()
    ensures
        q_vec_eq(elementary_weights(rk4_model().a, 2), seq![q(0, 1), q(1, 4), q(1, 4), q(1, 1)]),
{
    let a = rk4_model().a;
    lemma_rk4_shape();
    lemma_rk4_phi_0();
    lemma_q_mat_vec_congruent(a, elementary_weights(a, 0), seq![q(1, 1), q(1, 1), q(1, 1), q(1, 1)]);
    lemma_rk4_eval_a_2();
    lemma_q_vec_eq_trans(q_mat_vec(a, elementary_weights(a, 0)), q_mat_vec(a, seq![q(1, 1), q(1, 1), q(1, 1), q(1, 1)]), seq![q(0, 1), q(1, 2), q(1, 2), q(1, 1)]);
    lemma_rk4_phi_1();
    lemma_q_hadamard_congruent(q_mat_vec(a, elementary_weights(a, 0)), seq![q(0, 1), q(1, 2), q(1, 2), q(1, 1)], elementary_weights(a, 1), seq![q(0, 1), q(1, 2), q(1, 2), q(1, 1)]);
    lemma_rk4_eval_h_2();
    lemma_q_vec_eq_trans(q_hadamard(q_mat_vec(a, elementary_weights(a, 0)), elementary_weights(a, 1)), q_hadamard(seq![q(0, 1), q(1, 2), q(1, 2), q(1, 1)], seq![q(0, 1), q(1, 2), q(1, 2), q(1, 1)]), seq![q(0, 1), q(1, 4), q(1, 4), q(1, 1)]);
}

proof fn lemma_rk4_eval_a_3()
    ensures
        q_vec_eq(q_mat_vec(rk4_model().a, seq![q(0, 1), q(1, 2), q(1, 2), q(1, 1)]), seq![q(0, 1), q(0, 1), q(1, 4), q(1, 2)]),
{
    let a = rk4_model().a;
    let v = q_mat_vec(a, seq![q(0, 1), q(1, 2), q(1, 2), q(1, 1)]);
    let w = seq![q(0, 1), q(0, 1), q(1, 4), q(1, 2)];
    assert forall|i: int|
        #![trigger v[i]]
        #![trigger w[i]]
        0 <= i < 4 implies q_eq(v[i], w[i]) && q_valid(v[i]) && q_valid(w[i]) by {
        if i == 0 {
            assert(a[0] == seq![q(0, 1), q(0, 1), q(0, 1), q(0, 1)]);
            lemma_rk4_sum_11();
            assert(w[0] == q(0, 1));
            lemma_q_eq_value(0, 1, 0, 1);
        } else if i == 1 {
            assert(a[1] == seq![q(1, 2), q(0, 1), q(0, 1), q(0, 1)]);
            lemma_rk4_sum_12();
            assert(w[1] == q(0, 1));
            lemma_q_eq_value(0, 1, 0, 1);
        } else if i == 2 {
            assert(a[2] == seq![q(0, 1), q(1, 2), q(0, 1), q(0, 1)]);
            lemma_rk4_sum_13();
            assert(w[2] == q(1, 4));
            lemma_q_eq_value(1, 4, 1, 4);
        } else if i == 3 {
            assert(a[3] == seq![q(0, 1), q(0, 1), q(1, 1), q(0, 1)]);
            lemma_rk4_sum_14();
            assert(w[3] == q(1, 2));
            lemma_q_eq_value(1, 2, 1, 2);
        }
    }
}

proof fn lemma_rk4_phi_3()
    ensures
        q_vec_eq(elementary_weights(rk4_model().a, 3), seq![q(0, 1), q(0, 1), q(1, 4), q(1, 2)]),
{
    let a = rk4_model().a;
    lemma_rk4_shape();
    lemma_rk4_phi_1();
    lemma_q_mat_vec_congruent(a, elementary_weights(a, 1), seq![q(0, 1), q(1, 2), q(1, 2), q(1, 1)]);
    lemma_rk4_eval_a_3();
    lemma_q_vec_eq_trans(q_mat_vec(a, elementary_weights(a, 1)), q_mat_vec(a, seq![q(0, 1), q(1, 2), q(1, 2), q(1, 1)]), seq![q(0, 1), q(0, 1), q(1, 4), q(1, 2)]);
}

proof fn lemma_rk4_eval_a_4()
    ensures
        q_vec_eq(q_mat_vec(rk4_model().a, seq![q(1, 1), q(1, 1), q(1, 1), q(1, 1)]), seq![q(0, 1), q(1, 2), q(1, 2), q(1, 1)]),
{
    let a = rk4_model().a;
    let v = q_mat_vec(a, seq![q(1, 1), q(1, 1), q(1, 1), q(1, 1)]);
    let w = seq![q(0, 1), q(1, 2), q(1, 2), q(1, 1)];
    assert forall|i: int|
        #![trigger v[i]]
        #![trigger w[i]]
        0 <= i < 4 implies q_eq(v[i], w[i]) && q_valid(v[i]) && q_valid(w[i]) by {
        if i == 0 {
            assert(a[0] == seq![q(0, 1), q(0, 1), q(0, 1), q(0, 1)]);
            lemma_rk4_sum_7();
            assert(w[0] == q(0, 1));
            lemma_q_eq_value(0, 1, 0, 1);
        } else if i == 1 {
            assert(a[1] == seq![q(1, 2), q(0, 1), q(0, 1), q(0, 1)]);
            lemma_rk4_sum_8();
            assert(w[1] == q(1, 2));
            lemma_q_eq_value(1, 2, 1, 2);
        } else if i == 2 {
            assert(a[2] == seq![q(0, 1), q(1, 2), q(0, 1), q(0, 1)]);
            lemma_rk4_sum_9();
            assert(w[2] == q(1, 2));
            lemma_q_eq_value(1, 2, 1, 2);
        } else if i == 3 {
            assert(a[3] == seq![q(0, 1), q(0, 1), q(1, 1), q(0, 1)]);
            lemma_rk4_sum_10();
            assert(w[3] == q(1, 1));
            lemma_q_eq_value(1, 1, 1, 1);
        }
    }
}

proof fn lemma_rk4_eval_h_4()
    ensures
        q_vec_eq(q_hadamard(seq![q(0, 1), q(1, 2), q(1, 2), q(1, 1)], seq![q(0, 1), q(1, 4), q(1, 4), q(1, 1)]), seq![q(0, 1), q(1, 8), q(1, 8), q(1, 1)]),
{
    let x = seq![q(0, 1), q(1, 2), q(1, 2), q(1, 1)];
    let y = seq![q(0, 1), q(1, 4), q(1, 4), q(1, 1)];
    let v = q_hadamard(x, y);
    let w = seq![q(0, 1), q(1, 8), q(1, 8), q(1, 1)];
    assert forall|i: int|
        #![trigger v[i]]
        #![trigger w[i]]
        0 <= i < 4 implies q_eq(v[i], w[i]) && q_valid(v[i]) && q_valid(w[i]) by {
        if i == 0 {
            lemma_q_mul_value(0, 1, 0, 1);
            assert(x[0] == q(0, 1) && y[0] == q(0, 1));
            lemma_q_eq_value(0, 1, 0, 1);
            assert(w[0] == q(0, 1));
        } else if i == 1 {
            lemma_q_mul_value(1, 2, 1, 4);
            assert(x[1] == q(1, 2) && y[1] == q(1, 4));
            lemma_q_eq_value(1, 8, 1, 8);
            assert(w[1] == q(1, 8));
        } else if i == 2 {
            lemma_q_mul_value(1, 2, 1, 4);
            assert(x[2] == q(1, 2) && y[2] == q(1, 4));
            lemma_q_eq_value(1, 8, 1, 8);
            assert(w[2] == q(1, 8));
        } else if i == 3 {
            lemma_q_mul_value(1, 1, 1, 1);
            assert(x[3] == q(1, 1) && y[3] == q(1, 1));
            lemma_q_eq_value(1, 1, 1, 1);
            assert(w[3] == q(1, 1));
        }
    }
}

proof fn lemma_rk4_phi_4()
    ensures
        q_vec_eq(elementary_weights(rk4_model().a, 4), seq![q(0, 1), q(1, 8), q(1, 8), q(1, 1)]),
{
    let a = rk4_model().a;
    lemma_rk4_shape();
    lemma_rk4_phi_0();
    lemma_q_mat_vec_congruent(a, elementary_weights(a, 0), seq![q(1, 1), q(1, 1), q(1, 1), q(1, 1)]);
    lemma_rk4_eval_a_4();
    lemma_q_vec_eq_trans(q_mat_vec(a, elementary_weights(a, 0)), q_mat_vec(a, seq![q(1, 1), q(1, 1), q(1, 1), q(1, 1)]), seq![q(0, 1), q(1, 2), q(1, 2), q(1, 1)]);
    lemma_rk4_phi_2();
    lemma_q_hadamard_congruent(q_mat_vec(a, elementary_weights(a, 0)), seq![q(0, 1), q(1, 2), q(1, 2), q(1, 1)], elementary_weights(a, 2), seq![q(0, 1), q(1, 4), q(1, 4), q(1, 1)]);
    lemma_rk4_eval_h_4();
    lemma_q_vec_eq_trans(q_hadamard(q_mat_vec(a, elementary_weights(a, 0)), elementary_weights(a, 2)), q_hadamard(seq![q(0, 1), q(1, 2), q(1, 2), q(1, 1)], seq![q(0, 1), q(1, 4), q(1, 4), q(1, 1)]), seq![q(0, 1), q(1, 8), q(1, 8), q(1, 1)]);
}

proof fn lemma_rk4_eval_a_5()
    ensures
        q_vec_eq(q_mat_vec(rk4_model().a, seq![q(1, 1), q(1, 1), q(1, 1), q(1, 1)]), seq![q(0, 1), q(1, 2), q(1, 2), q(1, 1)]),
{
    let a = rk4_model().a;
    let v = q_mat_vec(a, seq![q(1, 1), q(1, 1), q(1, 1), q(1, 1)]);
    let w = seq![q(0, 1), q(1, 2), q(1, 2), q(1, 1)];
    assert forall|i: int|
        #![trigger v[i]]
        #![trigger w[i]]
        0 <= i < 4 implies q_eq(v[i], w[i]) && q_valid(v[i]) && q_valid(w[i]) by {
        if i == 0 {
            assert(a[0] == seq![q(0, 1), q(0, 1), q(0, 1), q(0, 1)]);
            lemma_rk4_sum_7();
            assert(w[0] == q(0, 1));
            lemma_q_eq_value(0, 1, 0, 1);
        } else if i == 1 {
            assert(a[1] == seq![q(1, 2), q(0, 1), q(0, 1), q(0, 1)]);
            lemma_rk4_sum_8();
            assert(w[1] == q(1, 2));
            lemma_q_eq_value(1, 2, 1, 2);
        } else if i == 2 {
            assert(a[2] == seq![q(0, 1), q(1, 2), q(0, 1), q(0, 1)]);
            lemma_rk4_sum_9();
            assert(w[2] == q(1, 2));
            lemma_q_eq_value(1, 2, 1, 2);
        } else if i == 3 {
            assert(a[3] == seq![q(0, 1), q(0, 1), q(1, 1), q(0, 1)]);
            lemma_rk4_sum_10();
            assert(w[3] == q(1, 1));
            lemma_q_eq_value(1, 1, 1, 1);
        }
    }
}

proof fn lemma_rk4_eval_h_5()
    ensures
        q_vec_eq(q_hadamard(seq![q(0, 1), q(1, 2), q(1, 2), q(1, 1)], seq![q(0, 1), q(0, 1), q(1, 4), q(1, 2)]), seq![q(0, 1), q(0, 1), q(1, 8), q(1, 2)]),
{
    let x = seq![q(0, 1), q(1, 2), q(1, 2), q(1, 1)];
    let y = seq![q(0, 1), q(0, 1), q(1, 4), q(1, 2)];
    let v = q_hadamard(x, y);
    let w = seq![q(0, 1), q(0, 1), q(1, 8), q(1, 2)];
    assert forall|i: int|
        #![trigger v[i]]
        #![trigger w[i]]
        0 <= i < 4 implies q_eq(v[i], w[i]) && q_valid(v[i]) && q_valid(w[i]) by {
        if i == 0 {
            lemma_q_mul_value(0, 1, 0, 1);
            assert(x[0] == q(0, 1) && y[0] == q(0, 1));
            lemma_q_eq_value(0, 1, 0, 1);
            assert(w[0] == q(0, 1));
        } else if i == 1 {
            lemma_q_mul_value(1, 2, 0, 1);
            assert(x[1] == q(1, 2) && y[1] == q(0, 1));
            lemma_q_eq_value(0, 2, 0, 1);
            assert(w[1] == q(0, 1));
        } else if i == 2 {
            lemma_q_mul_value(1, 2, 1, 4);
            assert(x[2] == q(1, 2) && y[2] == q(1, 4));
            lemma_q_eq_value(1, 8, 1, 8);
            assert(w[2] == q(1, 8));
        } else if i == 3 {
            lemma_q_mul_value(1, 1, 1, 2);
            assert(x[3] == q(1, 1) && y[3] == q(1, 2));
            lemma_q_eq_value(1, 2, 1, 2);
            assert(w[3] == q(1, 2));
        }
    }
}

proof fn lemma_rk4_phi_5()
    ensures
        q_vec_eq(elementary_weights(rk4_model().a, 5), seq![q(0, 1), q(0, 1), q(1, 8), q(1, 2)]),
{
    let a = rk4_model().a;
    lemma_rk4_shape();
    lemma_rk4_phi_0();
    lemma_q_mat_vec_congruent(a, elementary_weights(a, 0), seq![q(1, 1), q(1, 1), q(1, 1), q(1, 1)]);
    lemma_rk4_eval_a_5();
    lemma_q_vec_eq_trans(q_mat_vec(a, elementary_weights(a, 0)), q_mat_vec(a, seq![q(1, 1), q(1, 1), q(1, 1), q(1, 1)]), seq![q(0, 1), q(1, 2), q(1, 2), q(1, 1)]);
    lemma_rk4_phi_3();
    lemma_q_hadamard_congruent(q_mat_vec(a, elementary_weights(a, 0)), seq![q(0, 1), q(1, 2), q(1, 2), q(1, 1)], elementary_weights(a, 3), seq![q(0, 1), q(0, 1), q(1, 4), q(1, 2)]);
    lemma_rk4_eval_h_5();
    lemma_q_vec_eq_trans(q_hadamard(q_mat_vec(a, elementary_weights(a, 0)), elementary_weights(a, 3)), q_hadamard(seq![q(0, 1), q(1, 2), q(1, 2), q(1, 1)], seq![q(0, 1), q(0, 1), q(1, 4), q(1, 2)]), seq![q(0, 1), q(0, 1), q(1, 8), q(1, 2)]);
}

proof fn lemma_rk4_eval_a_6()
    ensures
        q_vec_eq(q_mat_vec(rk4_model().a, seq![q(0, 1), q(1, 4), q(1, 4), q(1, 1)]), seq![q(0, 1), q(0, 1), q(1, 8), q(1, 4)]),
{
    let a = rk4_model().a;
    let v = q_mat_vec(a, seq![q(0, 1), q(1, 4), q(1, 4), q(1, 1)]);
    let w = seq![q(0, 1), q(0, 1), q(1, 8), q(1, 4)];
    assert forall|i: int|
        #![trigger v[i]]
        #![trigger w[i]]
        0 <= i < 4 implies q_eq(v[i], w[i]) && q_valid(v[i]) && q_valid(w[i]) by {
        if i == 0 {
            assert(a[0] == seq![q(0, 1), q(0, 1), q(0, 1), q(0, 1)]);
            lemma_rk4_sum_15();
            assert(w[0] == q(0, 1));
            lemma_q_eq_value(0, 1, 0, 1);
        } else if i == 1 {
            assert(a[1] == seq![q(1, 2), q(0, 1), q(0, 1), q(0, 1)]);
            lemma_rk4_sum_16();
            assert(w[1] == q(0, 1));
            lemma_q_eq_value(0, 1, 0, 1);
        } else if i == 2 {
            assert(a[2] == seq![q(0, 1), q(1, 2), q(0, 1), q(0, 1)]);
            lemma_rk4_sum_17();
            assert(w[2] == q(1, 8));
            lemma_q_eq_value(1, 8, 1, 8);
        } else if i == 3 {
            assert(a[3] == seq![q(0, 1), q(0, 1), q(1, 1), q(0, 1)]);
            lemma_rk4_sum_18();
            assert(w[3] == q(1, 4));
            lemma_q_eq_value(1, 4, 1, 4);
        }
    }
}

proof fn lemma_rk4_phi_6()
    ensures
        q_vec_eq(elementary_weights(rk4_model().a, 6), seq![q(0, 1), q(0, 1), q(1, 8), q(1, 4)]),
{
    let a = rk4_model().a;
    lemma_rk4_shape();
    lemma_rk4_phi_2();
    lemma_q_mat_vec_congruent(a, elementary_weights(a, 2), seq![q(0, 1), q(1, 4), q(1, 4), q(1, 1)]);
    lemma_rk4_eval_a_6();
    lemma_q_vec_eq_trans(q_mat_vec(a, elementary_weights(a, 2)), q_mat_vec(a, seq![q(0, 1), q(1, 4), q(1, 4), q(1, 1)]), seq![q(0, 1), q(0, 1), q(1, 8), q(1, 4)]);
}

proof fn lemma_rk4_eval_a_7()
    ensures
        q_vec_eq(q_mat_vec(rk4_model().a, seq![q(0, 1), q(0, 1), q(1, 4), q(1, 2)]), seq![q(0, 1), q(0, 1), q(0, 1), q(1, 4)]),
{
    let a = rk4_model().a;
    let v = q_mat_vec(a, seq![q(0, 1), q(0, 1), q(1, 4), q(1, 2)]);
    let w = seq![q(0, 1), q(0, 1), q(0, 1), q(1, 4)];
    assert forall|i: int|
        #![trigger v[i]]
        #![trigger w[i]]
        0 <= i < 4 implies q_eq(v[i], w[i]) && q_valid(v[i]) && q_valid(w[i]) by {
        if i == 0 {
            assert(a[0] == seq![q(0, 1), q(0, 1), q(0, 1), q(0, 1)]);
            lemma_rk4_sum_19();
            assert(w[0] == q(0, 1));
            lemma_q_eq_value(0, 1, 0, 1);
        } else if i == 1 {
            assert(a[1] == seq![q(1, 2), q(0, 1), q(0, 1), q(0, 1)]);
            lemma_rk4_sum_20();
            assert(w[1] == q(0, 1));
            lemma_q_eq_value(0, 1, 0, 1);
        } else if i == 2 {
            assert(a[2] == seq![q(0, 1), q(1, 2), q(0, 1), q(0, 1)]);
            lemma_rk4_sum_21();
            assert(w[2] == q(0, 1));
            lemma_q_eq_value(0, 1, 0, 1);
        } else if i == 3 {
            assert(a[3] == seq![q(0, 1), q(0, 1), q(1, 1), q(0, 1)]);
            lemma_rk4_sum_22();
            assert(w[3] == q(1, 4));
            lemma_q_eq_value(1, 4, 1, 4);
        }
    }
}

proof fn lemma_rk4_phi_7()
    ensures
        q_vec_eq(elementary_weights(rk4_model().a, 7), seq![q(0, 1), q(0, 1), q(0, 1), q(1, 4)]),
{
    let a = rk4_model().a;
    lemma_rk4_shape();
    lemma_rk4_phi_3();
    lemma_q_mat_vec_congruent(a, elementary_weights(a, 3), seq![q(0, 1), q(0, 1), q(1, 4), q(1, 2)]);
    lemma_rk4_eval_a_7();
    lemma_q_vec_eq_trans(q_mat_vec(a, elementary_weights(a, 3)), q_mat_vec(a, seq![q(0, 1), q(0, 1), q(1, 4), q(1, 2)]), seq![q(0, 1), q(0, 1), q(0, 1), q(1, 4)]);
}

proof fn lemma_rk4_b_tree_0()
    ensures
        q_eq(q_dot(rk4_model().b, elementary_weights(rk4_model().a, 0)), q(1, tree_density(0))),
{
    lemma_rk4_shape();
    lemma_rk4_phi_0();
    assert(q_vec_valid(rk4_model().b));
    lemma_q_dot_congruent(rk4_model().b, elementary_weights(rk4_model().a, 0), seq![q(1, 1), q(1, 1), q(1, 1), q(1, 1)]);
    assert(rk4_model().b == seq![q(1, 6), q(1, 3), q(1, 3), q(1, 6)]);
    lemma_rk4_sum_23();
    assert(q_eq(q_dot(rk4_model().b, seq![q(1, 1), q(1, 1), q(1, 1), q(1, 1)]), q(1, 1)));
    lemma_q_eq_trans(q_dot(rk4_model().b, elementary_weights(rk4_model().a, 0)), q_dot(rk4_model().b, seq![q(1, 1), q(1, 1), q(1, 1), q(1, 1)]), q(1, 1));
}

proof fn lemma_rk4_b_tree_1()
    ensures
        q_eq(q_dot(rk4_model().b, elementary_weights(rk4_model().a, 1)), q(1, tree_density(1))),
{
    lemma_rk4_shape();
    lemma_rk4_phi_1();
    assert(q_vec_valid(rk4_model().b));
    lemma_q_dot_congruent(rk4_model().b, elementary_weights(rk4_model().a, 1), seq![q(0, 1), q(1, 2), q(1, 2), q(1, 1)]);
    assert(rk4_model().b == seq![q(1, 6), q(1, 3), q(1, 3), q(1, 6)]);
    lemma_rk4_sum_24();
    assert(q_eq(q_dot(rk4_model().b, seq![q(0, 1), q(1, 2), q(1, 2), q(1, 1)]), q(1, 2)));
    lemma_q_eq_trans(q_dot(rk4_model().b, elementary_weights(rk4_model().a, 1)), q_dot(rk4_model().b, seq![q(0, 1), q(1, 2), q(1, 2), q(1, 1)]), q(1, 2));
}

proof fn lemma_rk4_b_tree_2()
    ensures
        q_eq(q_dot(rk4_model().b, elementary_weights(rk4_model().a, 2)), q(1, tree_density(2))),
{
    lemma_rk4_shape();
    lemma_rk4_phi_2();
    assert(q_vec_valid(rk4_model().b));
    lemma_q_dot_congruent(rk4_model().b, elementary_weights(rk4_model().a, 2), seq![q(0, 1), q(1, 4), q(1, 4), q(1, 1)]);
    assert(rk4_model().b == seq![q(1, 6), q(1, 3), q(1, 3), q(1, 6)]);
    lemma_rk4_sum_25();
    assert(q_eq(q_dot(rk4_model().b, seq![q(0, 1), q(1, 4), q(1, 4), q(1, 1)]), q(1, 3)));
    lemma_q_eq_trans(q_dot(rk4_model().b, elementary_weights(rk4_model().a, 2)), q_dot(rk4_model().b, seq![q(0, 1), q(1, 4), q(1, 4), q(1, 1)]), q(1, 3));
}

proof fn lemma_rk4_b_tree_3()
    ensures
        q_eq(q_dot(rk4_model().b, elementary_weights(rk4_model().a, 3)), q(1, tree_density(3))),
{
    lemma_rk4_shape();
    lemma_rk4_phi_3();
    assert(q_vec_valid(rk4_model().b));
    lemma_q_dot_congruent(rk4_model().b, elementary_weights(rk4_model().a, 3), seq![q(0, 1), q(0, 1), q(1, 4), q(1, 2)]);
    assert(rk4_model().b == seq![q(1, 6), q(1, 3), q(1, 3), q(1, 6)]);
    lemma_rk4_sum_26();
    assert(q_eq(q_dot(rk4_model().b, seq![q(0, 1), q(0, 1), q(1, 4), q(1, 2)]), q(1, 6)));
    lemma_q_eq_trans(q_dot(rk4_model().b, elementary_weights(rk4_model().a, 3)), q_dot(rk4_model().b, seq![q(0, 1), q(0, 1), q(1, 4), q(1, 2)]), q(1, 6));
}

proof fn lemma_rk4_b_tree_4()
    ensures
        q_eq(q_dot(rk4_model().b, elementary_weights(rk4_model().a, 4)), q(1, tree_density(4))),
{
    lemma_rk4_shape();
    lemma_rk4_phi_4();
    assert(q_vec_valid(rk4_model().b));
    lemma_q_dot_congruent(rk4_model().b, elementary_weights(rk4_model().a, 4), seq![q(0, 1), q(1, 8), q(1, 8), q(1, 1)]);
    assert(rk4_model().b == seq![q(1, 6), q(1, 3), q(1, 3), q(1, 6)]);
    lemma_rk4_sum_27();
    assert(q_eq(q_dot(rk4_model().b, seq![q(0, 1), q(1, 8), q(1, 8), q(1, 1)]), q(1, 4)));
    lemma_q_eq_trans(q_dot(rk4_model().b, elementary_weights(rk4_model().a, 4)), q_dot(rk4_model().b, seq![q(0, 1), q(1, 8), q(1, 8), q(1, 1)]), q(1, 4));
}

proof fn lemma_rk4_b_tree_5()
    ensures
        q_eq(q_dot(rk4_model().b, elementary_weights(rk4_model().a, 5)), q(1, tree_density(5))),
{
    lemma_rk4_shape();
    lemma_rk4_phi_5();
    assert(q_vec_valid(rk4_model().b));
    lemma_q_dot_congruent(rk4_model().b, elementary_weights(rk4_model().a, 5), seq![q(0, 1), q(0, 1), q(1, 8), q(1, 2)]);
    assert(rk4_model().b == seq![q(1, 6), q(1, 3), q(1, 3), q(1, 6)]);
    lemma_rk4_sum_28();
    assert(q_eq(q_dot(rk4_model().b, seq![q(0, 1), q(0, 1), q(1, 8), q(1, 2)]), q(1, 8)));
    lemma_q_eq_trans(q_dot(rk4_model().b, elementary_weights(rk4_model().a, 5)), q_dot(rk4_model().b, seq![q(0, 1), q(0, 1), q(1, 8), q(1, 2)]), q(1, 8));
}

proof fn lemma_rk4_b_tree_6()
    ensures
        q_eq(q_dot(rk4_model().b, elementary_weights(rk4_model().a, 6)), q(1, tree_density(6))),
{
    lemma_rk4_shape();
    lemma_rk4_phi_6();
    assert(q_vec_valid(rk4_model().b));
    lemma_q_dot_congruent(rk4_model().b, elementary_weights(rk4_model().a, 6), seq![q(0, 1), q(0, 1), q(1, 8), q(1, 4)]);
    assert(rk4_model().b == seq![q(1, 6), q(1, 3), q(1, 3), q(1, 6)]);
    lemma_rk4_sum_29();
    assert(q_eq(q_dot(rk4_model().b, seq![q(0, 1), q(0, 1), q(1, 8), q(1, 4)]), q(1, 12)));
    lemma_q_eq_trans(q_dot(rk4_model().b, elementary_weights(rk4_model().a, 6)), q_dot(rk4_model().b, seq![q(0, 1), q(0, 1), q(1, 8), q(1, 4)]), q(1, 12));
}

proof fn lemma_rk4_b_tree_7()
    ensures
        q_eq(q_dot(rk4_model().b, elementary_weights(rk4_model().a, 7)), q(1, tree_density(7))),
{
    lemma_rk4_shape();
    lemma_rk4_phi_7();
    assert(q_vec_valid(rk4_model().b));
    lemma_q_dot_congruent(rk4_model().b, elementary_weights(rk4_model().a, 7), seq![q(0, 1), q(0, 1), q(0, 1), q(1, 4)]);
    assert(rk4_model().b == seq![q(1, 6), q(1, 3), q(1, 3), q(1, 6)]);
    lemma_rk4_sum_30();
    assert(q_eq(q_dot(rk4_model().b, seq![q(0, 1), q(0, 1), q(0, 1), q(1, 4)]), q(1, 24)));
    lemma_q_eq_trans(q_dot(rk4_model().b, elementary_weights(rk4_model().a, 7)), q_dot(rk4_model().b, seq![q(0, 1), q(0, 1), q(0, 1), q(1, 4)]), q(1, 24));
}

proof fn lemma_rk4_b2_tree_0()
    ensures
        q_eq(q_dot(rk4_model().b2, elementary_weights(rk4_model().a, 0)), q(1, tree_density(0))),
{
    lemma_rk4_shape();
    lemma_rk4_phi_0();
    assert(q_vec_valid(rk4_model().b2));
    lemma_q_dot_congruent(rk4_model().b2, elementary_weights(rk4_model().a, 0), seq![q(1, 1), q(1, 1), q(1, 1), q(1, 1)]);
    assert(rk4_model().b2 == seq![q(0, 1), q(1, 1), q(0, 1), q(0, 1)]);
    lemma_rk4_sum_31();
    assert(q_eq(q_dot(rk4_model().b2, seq![q(1, 1), q(1, 1), q(1, 1), q(1, 1)]), q(1, 1)));
    lemma_q_eq_trans(q_dot(rk4_model().b2, elementary_weights(rk4_model().a, 0)), q_dot(rk4_model().b2, seq![q(1, 1), q(1, 1), q(1, 1), q(1, 1)]), q(1, 1));
}

proof fn lemma_rk4_b2_tree_1()
    ensures
        q_eq(q_dot(rk4_model().b2, elementary_weights(rk4_model().a, 1)), q(1, tree_density(1))),
{
    lemma_rk4_shape();
    lemma_rk4_phi_1();
    assert(q_vec_valid(rk4_model().b2));
    lemma_q_dot_congruent(rk4_model().b2, elementary_weights(rk4_model().a, 1), seq![q(0, 1), q(1, 2), q(1, 2), q(1, 1)]);
    assert(rk4_model().b2 == seq![q(0, 1), q(1, 1), q(0, 1), q(0, 1)]);
    lemma_rk4_sum_32();
    assert(q_eq(q_dot(rk4_model().b2, seq![q(0, 1), q(1, 2), q(1, 2), q(1, 1)]), q(1, 2)));
    lemma_q_eq_trans(q_dot(rk4_model().b2, elementary_weights(rk4_model().a, 1)), q_dot(rk4_model().b2, seq![q(0, 1), q(1, 2), q(1, 2), q(1, 1)]), q(1, 2));
}

pub(crate) proof fn lemma_rk4_laws()
    ensures
        table_laws(rk4_model(), 4, 2, 4, 2),
{
    let m = rk4_model();
    lemma_rk4_shape();
    lemma_rk4_rows();
    assert forall|k: int| 0 <= k < num_trees() && tree_order(k) <= 4 implies q_eq(q_dot(m.b, #[trigger] elementary_weights(m.a, k)), q(1, tree_density(k))) by {
        if k == 0 {
            lemma_rk4_b_tree_0();
        } else if k == 1 {
            lemma_rk4_b_tree_1();
        } else if k == 2 {
            lemma_rk4_b_tree_2();
        } else if k == 3 {
            lemma_rk4_b_tree_3();
        } else if k == 4 {
            lemma_rk4_b_tree_4();
        } else if k == 5 {
            lemma_rk4_b_tree_5();
        } else if k == 6 {
            lemma_rk4_b_tree_6();
        } else if k == 7 {
            lemma_rk4_b_tree_7();
        }
    }
    assert forall|k: int| 0 <= k < num_trees() && tree_order(k) <= 2 implies q_eq(q_dot(m.b2, #[trigger] elementary_weights(m.a, k)), q(1, tree_density(k))) by {
        if k == 0 {
            lemma_rk4_b2_tree_0();
        } else if k == 1 {
            lemma_rk4_b2_tree_1();
        }
    }
}

/// The coefficients of [`crate::rk::ButcherTableu::three_eights`].
pub open spec fn three_eights_model() -> TableauModel {
    TableauModel {
        a: seq![seq![q(0, 1), q(0, 1), q(0, 1), q(0, 1)], seq![q(1, 3), q(0, 1), q(0, 1), q(0, 1)], seq![q(-1, 3), q(1, 1), q(0, 1), q(0, 1)], seq![q(1, 1), q(-1, 1), q(1, 1), q(0, 1)]],
        b: seq![q(1, 8), q(3, 8), q(3, 8), q(1, 8)],
        b2: seq![q(-1, 2), q(3, 2), q(0, 1), q(0, 1)],
        c: seq![q(0, 1), q(1, 3), q(2, 3), q(1, 1)],
        bi: seq![seq![q(0, 1), q(1, 8)], seq![q(0, 1), q(3, 8)], seq![q(0, 1), q(3, 8)], seq![q(0, 1), q(1, 8)]],
    }
}

proof fn lemma_three_eights_sum_1()
    ensures
        q_eq(q_total(seq![q(0, 1), q(0, 1), q(0, 1), q(0, 1)]), q(0, 1)),
        q_valid(q_total(seq![q(0, 1), q(0, 1), q(0, 1), q(0, 1)])),
{
    let s = seq![q(0, 1), q(0, 1), q(0, 1), q(0, 1)];
    assert(s.len() == 4);
    assert(q_sum_to(s, 0) == q(0, 1));
    lemma_q_eq_value(0, 1, 0, 1);
    lemma_q_sum_step(s, 0, 0, 1, 0, 1, 0, 1);
    lemma_q_sum_step(s, 1, 0, 1, 0, 1, 0, 1);
    lemma_q_sum_step(s, 2, 0, 1, 0, 1, 0, 1);
    lemma_q_sum_step(s, 3, 0, 1, 0, 1, 0, 1);
}

proof fn lemma_three_eights_sum_2()
    ensures
        q_eq(q_total(seq![q(0, 1), q(1, 8)]), q(1, 8)),
        q_valid(q_total(seq![q(0, 1), q(1, 8)])),
{
    let s = seq![q(0, 1), q(1, 8)];
    assert(s.len() == 2);
    assert(q_sum_to(s, 0) == q(0, 1));
    lemma_q_eq_value(0, 1, 0, 1);
    lemma_q_sum_step(s, 0, 0, 1, 0, 1, 0, 1);
    lemma_q_sum_step(s, 1, 0, 1, 1, 8, 1, 8);
}

proof fn lemma_three_eights_sum_3()
    ensures
        q_eq(q_total(seq![q(1, 3), q(0, 1), q(0, 1), q(0, 1)]), q(1, 3)),
        q_valid(q_total(seq![q(1, 3), q(0, 1), q(0, 1), q(0, 1)])),
{
    let s = seq![q(1, 3), q(0, 1), q(0, 1), q(0, 1)];
    assert(s.len() == 4);
    assert(q_sum_to(s, 0) == q(0, 1));
    lemma_q_eq_value(0, 1, 0, 1);
    lemma_q_sum_step(s, 0, 0, 1, 1, 3, 1, 3);
    lemma_q_sum_step(s, 1, 1, 3, 0, 1, 1, 3);
    lemma_q_sum_step(s, 2, 1, 3, 0, 1, 1, 3);
    lemma_q_sum_step(s, 3, 1, 3, 0, 1, 1, 3);
}

proof fn lemma_three_eights_sum_4()
    ensures
        q_eq(q_total(seq![q(0, 1), q(3, 8)]), q(3, 8)),
        q_valid(q_total(seq![q(0, 1), q(3, 8)])),
{
    let s = seq![q(0, 1), q(3, 8)];
    assert(s.len() == 2);
    assert(q_sum_to(s, 0) == q(0, 1));
    lemma_q_eq_value(0, 1, 0, 1);
    lemma_q_sum_step(s, 0, 0, 1, 0, 1, 0, 1);
    lemma_q_sum_step(s, 1, 0, 1, 3, 8, 3, 8);
}

proof fn lemma_three_eights_sum_5()
    ensures
        q_eq(q_total(seq![q(-1, 3), q(1, 1), q(0, 1), q(0, 1)]), q(2, 3)),
        q_valid(q_total(seq![q(-1, 3), q(1, 1), q(0, 1), q(0, 1)])),
{
    let s = seq![q(-1, 3), q(1, 1), q(0, 1), q(0, 1)];
    assert(s.len() == 4);
    assert(q_sum_to(s, 0) == q(0, 1));
    lemma_q_eq_value(0, 1, 0, 1);
    lemma_q_sum_step(s, 0, 0, 1, -1, 3, -1, 3);
    lemma_q_sum_step(s, 1, -1, 3, 1, 1, 2, 3);
    lemma_q_sum_step(s, 2, 2, 3, 0, 1, 2, 3);
    lemma_q_sum_step(s, 3, 2, 3, 0, 1, 2, 3);
}

proof fn lemma_three_eights_sum_6()
    ensures
        q_eq(q_total(seq![q(1, 1), q(-1, 1), q(1, 1), q(0, 1)]), q(1, 1)),
        q_valid(q_total(seq![q(1, 1), q(-1, 1), q(1, 1), q(0, 1)])),
{
    let s = seq![q(1, 1), q(-1, 1), q(1, 1), q(0, 1)];
    assert(s.len() == 4);
    assert(q_sum_to(s, 0) == q(0, 1));
    lemma_q_eq_value(0, 1, 0, 1);
    lemma_q_sum_step(s, 0, 0, 1, 1, 1, 1, 1);
    lemma_q_sum_step(s, 1, 1, 1, -1, 1, 0, 1);
    lemma_q_sum_step(s, 2, 0, 1, 1, 1, 1, 1);
    lemma_q_sum_step(s, 3, 1, 1, 0, 1, 1, 1);
}

proof fn lemma_three_eights_sum_7()
    ensures
        q_eq(q_dot(seq![q(0, 1), q(0, 1), q(0, 1), q(0, 1)], seq![q(1, 1), q(1, 1), q(1, 1), q(1, 1)]), q(0, 1)),
        q_valid(q_dot(seq![q(0, 1), q(0, 1), q(0, 1), q(0, 1)], seq![q(1, 1), q(1, 1), q(1, 1), q(1, 1)])),
{
    let x = seq![q(0, 1), q(0, 1), q(0, 1), q(0, 1)];
    let y = seq![q(1, 1), q(1, 1), q(1, 1), q(1, 1)];
    let s = q_hadamard(x, y);
    assert(s.len() == 4);
    lemma_q_hadamard_entry(x, y, 0, 0, 1, 1, 1);
    lemma_q_hadamard_entry(x, y, 1, 0, 1, 1, 1);
    lemma_q_hadamard_entry(x, y, 2, 0, 1, 1, 1);
    lemma_q_hadamard_entry(x, y, 3, 0, 1, 1, 1);
    assert(q_sum_to(s, 0) == q(0, 1));
    lemma_q_eq_value(0, 1, 0, 1);
    lemma_q_sum_step(s, 0, 0, 1, 0, 1, 0, 1);
    lemma_q_sum_step(s, 1, 0, 1, 0, 1, 0, 1);
    lemma_q_sum_step(s, 2, 0, 1, 0, 1, 0, 1);
    lemma_q_sum_step(s, 3, 0, 1, 0, 1, 0, 1);
}

proof fn lemma_three_eights_sum_8()
    ensures
        q_eq(q_dot(seq![q(1, 3), q(0, 1), q(0, 1), q(0, 1)], seq![q(1, 1), q(1, 1), q(1, 1), q(1, 1)]), q(1, 3)),
        q_valid(q_dot(seq![q(1, 3), q(0, 1), q(0, 1), q(0, 1)], seq![q(1, 1), q(1, 1), q(1, 1), q(1, 1)])),
{
    let x = seq![q(1, 3), q(0, 1), q(0, 1), q(0, 1)];
    let y = seq![q(1, 1), q(1, 1), q(1, 1), q(1, 1)];
    let s = q_hadamard(x, y);
    assert(s.len() == 4);
    lemma_q_hadamard_entry(x, y, 0, 1, 3, 1, 1);
    lemma_q_hadamard_entry(x, y, 1, 0, 1, 1, 1);
    lemma_q_hadamard_entry(x, y, 2, 0, 1, 1, 1);
    lemma_q_hadamard_entry(x, y, 3, 0, 1, 1, 1);
    assert(q_sum_to(s, 0) == q(0, 1));
    lemma_q_eq_value(0, 1, 0, 1);
    lemma_q_sum_step(s, 0, 0, 1, 1, 3, 1, 3);
    lemma_q_sum_step(s, 1, 1, 3, 0, 1, 1, 3);
    lemma_q_sum_step(s, 2, 1, 3, 0, 1, 1, 3);
    lemma_q_sum_step(s, 3, 1, 3, 0, 1, 1, 3);
}

proof fn lemma_three_eights_sum_9()
    ensures
        q_eq(q_dot(seq![q(-1, 3), q(1, 1), q(0, 1), q(0, 1)], seq![q(1, 1), q(1, 1), q(1, 1), q(1, 1)]), q(2, 3)),
        q_valid(q_dot(seq![q(-1, 3), q(1, 1), q(0, 1), q(0, 1)], seq![q(1, 1), q(1, 1), q(1, 1), q(1, 1)])),
{
    let x = seq![q(-1, 3), q(1, 1), q(0, 1), q(0, 1)];
    let y = seq![q(1, 1), q(1, 1), q(1, 1), q(1, 1)];
    let s = q_hadamard(x, y);
    assert(s.len() == 4);
    lemma_q_hadamard_entry(x, y, 0, -1, 3, 1, 1);
    lemma_q_hadamard_entry(x, y, 1, 1, 1, 1, 1);
    lemma_q_hadamard_entry(x, y, 2, 0, 1, 1, 1);
    lemma_q_hadamard_entry(x, y, 3, 0, 1, 1, 1);
    assert(q_sum_to(s, 0) == q(0, 1));
    lemma_q_eq_value(0, 1, 0, 1);
    lemma_q_sum_step(s, 0, 0, 1, -1, 3, -1, 3);
    lemma_q_sum_step(s, 1, -1, 3, 1, 1, 2, 3);
    lemma_q_sum_step(s, 2, 2, 3, 0, 1, 2, 3);
    lemma_q_sum_step(s, 3, 2, 3, 0, 1, 2, 3);
}

proof fn lemma_three_eights_sum_10()
    ensures
        q_eq(q_dot(seq![q(1, 1), q(-1, 1), q(1, 1), q(0, 1)], seq![q(1, 1), q(1, 1), q(1, 1), q(1, 1)]), q(1, 1)),
        q_valid(q_dot(seq![q(1, 1), q(-1, 1), q(1, 1), q(0, 1)], seq![q(1, 1), q(1, 1), q(1, 1), q(1, 1)])),
{
    let x = seq![q(1, 1), q(-1, 1), q(1, 1), q(0, 1)];
    let y = seq![q(1, 1), q(1, 1), q(1, 1), q(1, 1)];
    let s = q_hadamard(x, y);
    assert(s.len() == 4);
    lemma_q_hadamard_entry(x, y, 0, 1, 1, 1, 1);
    lemma_q_hadamard_entry(x, y, 1, -1, 1, 1, 1);
    lemma_q_hadamard_entry(x, y, 2, 1, 1, 1, 1);
    lemma_q_hadamard_entry(x, y, 3, 0, 1, 1, 1);
    assert(q_sum_to(s, 0) == q(0, 1));
    lemma_q_eq_value(0, 1, 0, 1);
    lemma_q_sum_step(s, 0, 0, 1, 1, 1, 1, 1);
    lemma_q_sum_step(s, 1, 1, 1, -1, 1, 0, 1);
    lemma_q_sum_step(s, 2, 0, 1, 1, 1, 1, 1);
    lemma_q_sum_step(s, 3, 1, 1, 0, 1, 1, 1);
}

proof fn lemma_three_eights_sum_11()
    ensures
        q_eq(q_dot(seq![q(0, 1), q(0, 1), q(0, 1), q(0, 1)], seq![q(0, 1), q(1, 3), q(2, 3), q(1, 1)]), q(0, 1)),
        q_valid(q_dot(seq![q(0, 1), q(0, 1), q(0, 1), q(0, 1)], seq![q(0, 1), q(1, 3), q(2, 3), q(1, 1)])),
{
    let x = seq![q(0, 1), q(0, 1), q(0, 1), q(0, 1)];
    let y = seq![q(0, 1), q(1, 3), q(2, 3), q(1, 1)];
    let s = q_hadamard(x, y);
    assert(s.len() == 4);
    lemma_q_hadamard_entry(x, y, 0, 0, 1, 0, 1);
    lemma_q_hadamard_entry(x, y, 1, 0, 1, 1, 3);
    lemma_q_hadamard_entry(x, y, 2, 0, 1, 2, 3);
    lemma_q_hadamard_entry(x, y, 3, 0, 1, 1, 1);
    assert(q_sum_to(s, 0) == q(0, 1));
    lemma_q_eq_value(0, 1, 0, 1);
    lemma_q_sum_step(s, 0, 0, 1, 0, 1, 0, 1);
    lemma_q_sum_step(s, 1, 0, 1, 0, 3, 0, 1);
    lemma_q_sum_step(s, 2, 0, 1, 0, 3, 0, 1);
    lemma_q_sum_step(s, 3, 0, 1, 0, 1, 0, 1);
}

proof fn lemma_three_eights_sum_12()
    ensures
        q_eq(q_dot(seq![q(1, 3), q(0, 1), q(0, 1), q(0, 1)], seq![q(0, 1), q(1, 3), q(2, 3), q(1, 1)]), q(0, 1)),
        q_valid(q_dot(seq![q(1, 3), q(0, 1), q(0, 1), q(0, 1)], seq![q(0, 1), q(1, 3), q(2, 3), q(1, 1)])),
{
    let x = seq![q(1, 3), q(0, 1), q(0, 1), q(0, 1)];
    let y = seq![q(0, 1), q(1, 3), q(2, 3), q(1, 1)];
    let s = q_hadamard(x, y);
    assert(s.len() == 4);
    lemma_q_hadamard_entry(x, y, 0, 1, 3, 0, 1);
    lemma_q_hadamard_entry(x, y, 1, 0, 1, 1, 3);
    lemma_q_hadamard_entry(x, y, 2, 0, 1, 2, 3);
    lemma_q_hadamard_entry(x, y, 3, 0, 1, 1, 1);
    assert(q_sum_to(s, 0) == q(0, 1));
    lemma_q_eq_value(0, 1, 0, 1);
    lemma_q_sum_step(s, 0, 0, 1, 0, 3, 0, 1);
    lemma_q_sum_step(s, 1, 0, 1, 0, 3, 0, 1);
    lemma_q_sum_step(s, 2, 0, 1, 0, 3, 0, 1);
    lemma_q_sum_step(s, 3, 0, 1, 0, 1, 0, 1);
}

proof fn lemma_three_eights_sum_13()
    ensures
        q_eq(q_dot(seq![q(-1, 3), q(1, 1), q(0, 1), q(0, 1)], seq![q(0, 1), q(1, 3), q(2, 3), q(1, 1)]), q(1, 3)),
        q_valid(q_dot(seq![q(-1, 3), q(1, 1), q(0, 1), q(0, 1)], seq![q(0, 1), q(1, 3), q(2, 3), q(1, 1)])),
{
    let x = seq![q(-1, 3), q(1, 1), q(0, 1), q(0, 1)];
    let y = seq![q(0, 1), q(1, 3), q(2, 3), q(1, 1)];
    let s = q_hadamard(x, y);
    assert(s.len() == 4);
    lemma_q_hadamard_entry(x, y, 0, -1, 3, 0, 1);
    lemma_q_hadamard_entry(x, y, 1, 1, 1, 1, 3);
    lemma_q_hadamard_entry(x, y, 2, 0, 1, 2, 3);
    lemma_q_hadamard_entry(x, y, 3, 0, 1, 1, 1);
    assert(q_sum_to(s, 0) == q(0, 1));
    lemma_q_eq_value(0, 1, 0, 1);
    lemma_q_sum_step(s, 0, 0, 1, 0, 3, 0, 1);
    lemma_q_sum_step(s, 1, 0, 1, 1, 3, 1, 3);
    lemma_q_sum_step(s, 2, 1, 3, 0, 3, 1, 3);
    lemma_q_sum_step(s, 3, 1, 3, 0, 1, 1, 3);
}

proof fn lemma_three_eights_sum_14()
    ensures
        q_eq(q_dot(seq![q(1, 1), q(-1, 1), q(1, 1), q(0, 1)], seq![q(0, 1), q(1, 3), q(2, 3), q(1, 1)]), q(1, 3)),
        q_valid(q_dot(seq![q(1, 1), q(-1, 1), q(1, 1), q(0, 1)], seq![q(0, 1), q(1, 3), q(2, 3), q(1, 1)])),
{
    let x = seq![q(1, 1), q(-1, 1), q(1, 1), q(0, 1)];
    let y = seq![q(0, 1), q(1, 3), q(2, 3), q(1, 1)];
    let s = q_hadamard(x, y);
    assert(s.len() == 4);
    lemma_q_hadamard_entry(x, y, 0, 1, 1, 0, 1);
    lemma_q_hadamard_entry(x, y, 1, -1, 1, 1, 3);
    lemma_q_hadamard_entry(x, y, 2, 1, 1, 2, 3);
    lemma_q_hadamard_entry(x, y, 3, 0, 1, 1, 1);
    assert(q_sum_to(s, 0) == q(0, 1));
    lemma_q_eq_value(0, 1, 0, 1);
    lemma_q_sum_step(s, 0, 0, 1, 0, 1, 0, 1);
    lemma_q_sum_step(s, 1, 0, 1, -1, 3, -1, 3);
    lemma_q_sum_step(s, 2, -1, 3, 2, 3, 1, 3);
    lemma_q_sum_step(s, 3, 1, 3, 0, 1, 1, 3);
}

proof fn lemma_three_eights_sum_15()
    ensures
        q_eq(q_dot(seq![q(0, 1), q(0, 1), q(0, 1), q(0, 1)], seq![q(0, 1), q(1, 9), q(4, 9), q(1, 1)]), q(0, 1)),
        q_valid(q_dot(seq![q(0, 1), q(0, 1), q(0, 1), q(0, 1)], seq![q(0, 1), q(1, 9), q(4, 9), q(1, 1)])),
{
    let x = seq![q(0, 1), q(0, 1), q(0, 1), q(0, 1)];
    let y = seq![q(0, 1), q(1, 9), q(4, 9), q(1, 1)];
    let s = q_hadamard(x, y);
    assert(s.len() == 4);
    lemma_q_hadamard_entry(x, y, 0, 0, 1, 0, 1);
    lemma_q_hadamard_entry(x, y, 1, 0, 1, 1, 9);
    lemma_q_hadamard_entry(x, y, 2, 0, 1, 4, 9);
    lemma_q_hadamard_entry(x, y, 3, 0, 1, 1, 1);
    assert(q_sum_to(s, 0) == q(0, 1));
    lemma_q_eq_value(0, 1, 0, 1);
    lemma_q_sum_step(s, 0, 0, 1, 0, 1, 0, 1);
    lemma_q_sum_step(s, 1, 0, 1, 0, 9, 0, 1);
    lemma_q_sum_step(s, 2, 0, 1, 0, 9, 0, 1);
    lemma_q_sum_step(s, 3, 0, 1, 0, 1, 0, 1);
}

proof fn lemma_three_eights_sum_16()
    ensures
        q_eq(q_dot(seq![q(1, 3), q(0, 1), q(0, 1), q(0, 1)], seq![q(0, 1), q(1, 9), q(4, 9), q(1, 1)]), q(0, 1)),
        q_valid(q_dot(seq![q(1, 3), q(0, 1), q(0, 1), q(0, 1)], seq![q(0, 1), q(1, 9), q(4, 9), q(1, 1)])),
{
    let x = seq![q(1, 3), q(0, 1), q(0, 1), q(0, 1)];
    let y = seq![q(0, 1), q(1, 9), q(4, 9), q(1, 1)];
    let s = q_hadamard(x, y);
    assert(s.len() == 4);
    lemma_q_hadamard_entry(x, y, 0, 1, 3, 0, 1);
    lemma_q_hadamard_entry(x, y, 1, 0, 1, 1, 9);
    lemma_q_hadamard_entry(x, y, 2, 0, 1, 4, 9);
    lemma_q_hadamard_entry(x, y, 3, 0, 1, 1, 1);
    assert(q_sum_to(s, 0) == q(0, 1));
    lemma_q_eq_value(0, 1, 0, 1);
    lemma_q_sum_step(s, 0, 0, 1, 0, 3, 0, 1);
    lemma_q_sum_step(s, 1, 0, 1, 0, 9, 0, 1);
    lemma_q_sum_step(s, 2, 0, 1, 0, 9, 0, 1);
    lemma_q_sum_step(s, 3, 0, 1, 0, 1, 0, 1);
}

proof fn lemma_three_eights_sum_17()
    ensures
        q_eq(q_dot(seq![q(-1, 3), q(1, 1), q(0, 1), q(0, 1)], seq![q(0, 1), q(1, 9), q(4, 9), q(1, 1)]), q(1, 9)),
        q_valid(q_dot(seq![q(-1, 3), q(1, 1), q(0, 1), q(0, 1)], seq![q(0, 1), q(1, 9), q(4, 9), q(1, 1)])),
{
    let x = seq![q(-1, 3), q(1, 1), q(0, 1), q(0, 1)];
    let y = seq![q(0, 1), q(1, 9), q(4, 9), q(1, 1)];
    let s = q_hadamard(x, y);
    assert(s.len() == 4);
    lemma_q_hadamard_entry(x, y, 0, -1, 3, 0, 1);
    lemma_q_hadamard_entry(x, y, 1, 1, 1, 1, 9);
    lemma_q_hadamard_entry(x, y, 2, 0, 1, 4, 9);
    lemma_q_hadamard_entry(x, y, 3, 0, 1, 1, 1);
    assert(q_sum_to(s, 0) == q(0, 1));
    lemma_q_eq_value(0, 1, 0, 1);
    lemma_q_sum_step(s, 0, 0, 1, 0, 3, 0, 1);
    lemma_q_sum_step(s, 1, 0, 1, 1, 9, 1, 9);
    lemma_q_sum_step(s, 2, 1, 9, 0, 9, 1, 9);
    lemma_q_sum_step(s, 3, 1, 9, 0, 1, 1, 9);
}

proof fn lemma_three_eights_sum_18()
    ensures
        q_eq(q_dot(seq![q(1, 1), q(-1, 1), q(1, 1), q(0, 1)], seq![q(0, 1), q(1, 9), q(4, 9), q(1, 1)]), q(1, 3)),
        q_valid(q_dot(seq![q(1, 1), q(-1, 1), q(1, 1), q(0, 1)], seq![q(0, 1), q(1, 9), q(4, 9), q(1, 1)])),
{
    let x = seq![q(1, 1), q(-1, 1), q(1, 1), q(0, 1)];
    let y = seq![q(0, 1), q(1, 9), q(4, 9), q(1, 1)];
    let s = q_hadamard(x, y);
    assert(s.len() == 4);
    lemma_q_hadamard_entry(x, y, 0, 1, 1, 0, 1);
    lemma_q_hadamard_entry(x, y, 1, -1, 1, 1, 9);
    lemma_q_hadamard_entry(x, y, 2, 1, 1, 4, 9);
    lemma_q_hadamard_entry(x, y, 3, 0, 1, 1, 1);
    assert(q_sum_to(s, 0) == q(0, 1));
    lemma_q_eq_value(0, 1, 0, 1);
    lemma_q_sum_step(s, 0, 0, 1, 0, 1, 0, 1);
    lemma_q_sum_step(s, 1, 0, 1, -1, 9, -1, 9);
    lemma_q_sum_step(s, 2, -1, 9, 4, 9, 1, 3);
    lemma_q_sum_step(s, 3, 1, 3, 0, 1, 1, 3);
}

proof fn lemma_three_eights_sum_19()
    ensures
        q_eq(q_dot(seq![q(0, 1), q(0, 1), q(0, 1), q(0, 1)], seq![q(0, 1), q(0, 1), q(1, 3), q(1, 3)]), q(0, 1)),
        q_valid(q_dot(seq![q(0, 1), q(0, 1), q(0, 1), q(0, 1)], seq![q(0, 1), q(0, 1), q(1, 3), q(1, 3)])),
{
    let x = seq![q(0, 1), q(0, 1), q(0, 1), q(0, 1)];
    let y = seq![q(0, 1), q(0, 1), q(1, 3), q(1, 3)];
    let s = q_hadamard(x, y);
    assert(s.len() == 4);
    lemma_q_hadamard_entry(x, y, 0, 0, 1, 0, 1);
    lemma_q_hadamard_entry(x, y, 1, 0, 1, 0, 1);
    lemma_q_hadamard_entry(x, y, 2, 0, 1, 1, 3);
    lemma_q_hadamard_entry(x, y, 3, 0, 1, 1, 3);
    assert(q_sum_to(s, 0) == q(0, 1));
    lemma_q_eq_value(0, 1, 0, 1);
    lemma_q_sum_step(s, 0, 0, 1, 0, 1, 0, 1);
    lemma_q_sum_step(s, 1, 0, 1, 0, 1, 0, 1);
    lemma_q_sum_step(s, 2, 0, 1, 0, 3, 0, 1);
    lemma_q_sum_step(s, 3, 0, 1, 0, 3, 0, 1);
}

proof fn lemma_three_eights_sum_20()
    ensures
        q_eq(q_dot(seq![q(1, 3), q(0, 1), q(0, 1), q(0, 1)], seq![q(0, 1), q(0, 1), q(1, 3), q(1, 3)]), q(0, 1)),
        q_valid(q_dot(seq![q(1, 3), q(0, 1), q(0, 1), q(0, 1)], seq![q(0, 1), q(0, 1), q(1, 3), q(1, 3)])),
{
    let x = seq![q(1, 3), q(0, 1), q(0, 1), q(0, 1)];
    let y = seq![q(0, 1), q(0, 1), q(1, 3), q(1, 3)];
    let s = q_hadamard(x, y);
    assert(s.len() == 4);
    lemma_q_hadamard_entry(x, y, 0, 1, 3, 0, 1);
    lemma_q_hadamard_entry(x, y, 1, 0, 1, 0, 1);
    lemma_q_hadamard_entry(x, y, 2, 0, 1, 1, 3);
    lemma_q_hadamard_entry(x, y, 3, 0, 1, 1, 3);
    assert(q_sum_to(s, 0) == q(0, 1));
    lemma_q_eq_value(0, 1, 0, 1);
    lemma_q_sum_step(s, 0, 0, 1, 0, 3, 0, 1);
    lemma_q_sum_step(s, 1, 0, 1, 0, 1, 0, 1);
    lemma_q_sum_step(s, 2, 0, 1, 0, 3, 0, 1);
    lemma_q_sum_step(s, 3, 0, 1, 0, 3, 0, 1);
}

proof fn lemma_three_eights_sum_21()
    ensures
        q_eq(q_dot(seq![q(-1, 3), q(1, 1), q(0, 1), q(0, 1)], seq![q(0, 1), q(0, 1), q(1, 3), q(1, 3)]), q(0, 1)),
        q_valid(q_dot(seq![q(-1, 3), q(1, 1), q(0, 1), q(0, 1)], seq![q(0, 1), q(0, 1), q(1, 3), q(1, 3)])),
{
    let x = seq![q(-1, 3), q(1, 1), q(0, 1), q(0, 1)];
    let y = seq![q(0, 1), q(0, 1), q(1, 3), q(1, 3)];
    let s = q_hadamard(x, y);
    assert(s.len() == 4);
    lemma_q_hadamard_entry(x, y, 0, -1, 3, 0, 1);
    lemma_q_hadamard_entry(x, y, 1, 1, 1, 0, 1);
    lemma_q_hadamard_entry(x, y, 2, 0, 1, 1, 3);
    lemma_q_hadamard_entry(x, y, 3, 0, 1, 1, 3);
    assert(q_sum_to(s, 0) == q(0, 1));
    lemma_q_eq_value(0, 1, 0, 1);
    lemma_q_sum_step(s, 0, 0, 1, 0, 3, 0, 1);
    lemma_q_sum_step(s, 1, 0, 1, 0, 1, 0, 1);
    lemma_q_sum_step(s, 2, 0, 1, 0, 3, 0, 1);
    lemma_q_sum_step(s, 3, 0, 1, 0, 3, 0, 1);
}

proof fn lemma_three_eights_sum_22()
    ensures
        q_eq(q_dot(seq![q(1, 1), q(-1, 1), q(1, 1), q(0, 1)], seq![q(0, 1), q(0, 1), q(1, 3), q(1, 3)]), q(1, 3)),
        q_valid(q_dot(seq![q(1, 1), q(-1, 1), q(1, 1), q(0, 1)], seq![q(0, 1), q(0, 1), q(1, 3), q(1, 3)])),
{
    let x = seq![q(1, 1), q(-1, 1), q(1, 1), q(0, 1)];
    let y = seq![q(0, 1), q(0, 1), q(1, 3), q(1, 3)];
    let s = q_hadamard(x, y);
    assert(s.len() == 4);
    lemma_q_hadamard_entry(x, y, 0, 1, 1, 0, 1);
    lemma_q_hadamard_entry(x, y, 1, -1, 1, 0, 1);
    lemma_q_hadamard_entry(x, y, 2, 1, 1, 1, 3);
    lemma_q_hadamard_entry(x, y, 3, 0, 1, 1, 3);
    assert(q_sum_to(s, 0) == q(0, 1));
    lemma_q_eq_value(0, 1, 0, 1);
    lemma_q_sum_step(s, 0, 0, 1, 0, 1, 0, 1);
    lemma_q_sum_step(s, 1, 0, 1, 0, 1, 0, 1);
    lemma_q_sum_step(s, 2, 0, 1, 1, 3, 1, 3);
    lemma_q_sum_step(s, 3, 1, 3, 0, 3, 1, 3);
}

proof fn lemma_three_eights_sum_23()
    ensures
        q_eq(q_dot(seq![q(1, 8), q(3, 8), q(3, 8), q(1, 8)], seq![q(1, 1), q(1, 1), q(1, 1), q(1, 1)]), q(1, 1)),
        q_valid(q_dot(seq![q(1, 8), q(3, 8), q(3, 8), q(1, 8)], seq![q(1, 1), q(1, 1), q(1, 1), q(1, 1)])),
{
    let x = seq![q(1, 8), q(3, 8), q(3, 8), q(1, 8)];
    let y = seq![q(1, 1), q(1, 1), q(1, 1), q(1, 1)];
    let s = q_hadamard(x, y);
    assert(s.len() == 4);
    lemma_q_hadamard_entry(x, y, 0, 1, 8, 1, 1);
    lemma_q_hadamard_entry(x, y, 1, 3, 8, 1, 1);
    lemma_q_hadamard_entry(x, y, 2, 3, 8, 1, 1);
    lemma_q_hadamard_entry(x, y, 3, 1, 8, 1, 1);
    assert(q_sum_to(s, 0) == q(0, 1));
    lemma_q_eq_value(0, 1, 0, 1);
    lemma_q_sum_step(s, 0, 0, 1, 1, 8, 1, 8);
    lemma_q_sum_step(s, 1, 1, 8, 3, 8, 1, 2);
    lemma_q_sum_step(s, 2, 1, 2, 3, 8, 7, 8);
    lemma_q_sum_step(s, 3, 7, 8, 1, 8, 1, 1);
}

proof fn lemma_three_eights_sum_24()
    ensures
        q_eq(q_dot(seq![q(1, 8), q(3, 8), q(3, 8), q(1, 8)], seq![q(0, 1), q(1, 3), q(2, 3), q(1, 1)]), q(1, 2)),
        q_valid(q_dot(seq![q(1, 8), q(3, 8), q(3, 8), q(1, 8)], seq![q(0, 1), q(1, 3), q(2, 3), q(1, 1)])),
{
    let x = seq![q(1, 8), q(3, 8), q(3, 8), q(1, 8)];
    let y = seq![q(0, 1), q(1, 3), q(2, 3), q(1, 1)];
    let s = q_hadamard(x, y);
    assert(s.len() == 4);
    lemma_q_hadamard_entry(x, y, 0, 1, 8, 0, 1);
    lemma_q_hadamard_entry(x, y, 1, 3, 8, 1, 3);
    lemma_q_hadamard_entry(x, y, 2, 3, 8, 2, 3);
    lemma_q_hadamard_entry(x, y, 3, 1, 8, 1, 1);
    assert(q_sum_to(s, 0) == q(0, 1));
    lemma_q_eq_value(0, 1, 0, 1);
    lemma_q_sum_step(s, 0, 0, 1, 0, 8, 0, 1);
    lemma_q_sum_step(s, 1, 0, 1, 3, 24, 1, 8);
    lemma_q_sum_step(s, 2, 1, 8, 6, 24, 3, 8);
    lemma_q_sum_step(s, 3, 3, 8, 1, 8, 1, 2);
}

proof fn lemma_three_eights_sum_25()
    ensures
        q_eq(q_dot(seq![q(1, 8), q(3, 8), q(3, 8), q(1, 8)], seq![q(0, 1), q(1, 9), q(4, 9), q(1, 1)]), q(1, 3)),
        q_valid(q_dot(seq![q(1, 8), q(3, 8), q(3, 8), q(1, 8)], seq![q(0, 1), q(1, 9), q(4, 9), q(1, 1)])),
{
    let x = seq![q(1, 8), q(3, 8), q(3, 8), q(1, 8)];
    let y = seq![q(0, 1), q(1, 9), q(4, 9), q(1, 1)];
    let s = q_hadamard(x, y);
    assert(s.len() == 4);
    lemma_q_hadamard_entry(x, y, 0, 1, 8, 0, 1);
    lemma_q_hadamard_entry(x, y, 1, 3, 8, 1, 9);
    lemma_q_hadamard_entry(x, y, 2, 3, 8, 4, 9);
    lemma_q_hadamard_entry(x, y, 3, 1, 8, 1, 1);
    assert(q_sum_to(s, 0) == q(0, 1));
    lemma_q_eq_value(0, 1, 0, 1);
    lemma_q_sum_step(s, 0, 0, 1, 0, 8, 0, 1);
    lemma_q_sum_step(s, 1, 0, 1, 3, 72, 1, 24);
    lemma_q_sum_step(s, 2, 1, 24, 12, 72, 5, 24);
    lemma_q_sum_step(s, 3, 5, 24, 1, 8, 1, 3);
}

proof fn lemma_three_eights_sum_26()
    ensures
        q_eq(q_dot(seq![q(1, 8), q(3, 8), q(3, 8), q(1, 8)], seq![q(0, 1), q(0, 1), q(1, 3), q(1, 3)]), q(1, 6)),
        q_valid(q_dot(seq![q(1, 8), q(3, 8), q(3, 8), q(1, 8)], seq![q(0, 1), q(0, 1), q(1, 3), q(1, 3)])),
{
    let x = seq![q(1, 8), q(3, 8), q(3, 8), q(1, 8)];
    let y = seq![q(0, 1), q(0, 1), q(1, 3), q(1, 3)];
    let s = q_hadamard(x, y);
    assert(s.len() == 4);
    lemma_q_hadamard_entry(x, y, 0, 1, 8, 0, 1);
    lemma_q_hadamard_entry(x, y, 1, 3, 8, 0, 1);
    lemma_q_hadamard_entry(x, y, 2, 3, 8, 1, 3);
    lemma_q_hadamard_entry(x, y, 3, 1, 8, 1, 3);
    assert(q_sum_to(s, 0) == q(0, 1));
    lemma_q_eq_value(0, 1, 0, 1);
    lemma_q_sum_step(s, 0, 0, 1, 0, 8, 0, 1);
    lemma_q_sum_step(s, 1, 0, 1, 0, 8, 0, 1);
    lemma_q_sum_step(s, 2, 0, 1, 3, 24, 1, 8);
    lemma_q_sum_step(s, 3, 1, 8, 1, 24, 1, 6);
}

proof fn lemma_three_eights_sum_27()
    ensures
        q_eq(q_dot(seq![q(1, 8), q(3, 8), q(3, 8), q(1, 8)], seq![q(0, 1), q(1, 27), q(8, 27), q(1, 1)]), q(1, 4)),
        q_valid(q_dot(seq![q(1, 8), q(3, 8), q(3, 8), q(1, 8)], seq![q(0, 1), q(1, 27), q(8, 27), q(1, 1)])),
{
    let x = seq![q(1, 8), q(3, 8), q(3, 8), q(1, 8)];
    let y = seq![q(0, 1), q(1, 27), q(8, 27), q(1, 1)];
    let s = q_hadamard(x, y);
    assert(s.len() == 4);
    lemma_q_hadamard_entry(x, y, 0, 1, 8, 0, 1);
    lemma_q_hadamard_entry(x, y, 1, 3, 8, 1, 27);
    lemma_q_hadamard_entry(x, y, 2, 3, 8, 8, 27);
    lemma_q_hadamard_entry(x, y, 3, 1, 8, 1, 1);
    assert(q_sum_to(s, 0) == q(0, 1));
    lemma_q_eq_value(0, 1, 0, 1);
    lemma_q_sum_step(s, 0, 0, 1, 0, 8, 0, 1);
    lemma_q_sum_step(s, 1, 0, 1, 3, 216, 1, 72);
    lemma_q_sum_step(s, 2, 1, 72, 24, 216, 1, 8);
    lemma_q_sum_step(s, 3, 1, 8, 1, 8, 1, 4);
}

proof fn lemma_three_eights_sum_28()
    ensures
        q_eq(q_dot(seq![q(1, 8), q(3, 8), q(3, 8), q(1, 8)], seq![q(0, 1), q(0, 1), q(2, 9), q(1, 3)]), q(1, 8)),
        q_valid(q_dot(seq![q(1, 8), q(3, 8), q(3, 8), q(1, 8)], seq![q(0, 1), q(0, 1), q(2, 9), q(1, 3)])),
{
    let x = seq![q(1, 8), q(3, 8), q(3, 8), q(1, 8)];
    let y = seq![q(0, 1), q(0, 1), q(2, 9), q(1, 3)];
    let s = q_hadamard(x, y);
    assert(s.len() == 4);
    lemma_q_hadamard_entry(x, y, 0, 1, 8, 0, 1);
    lemma_q_hadamard_entry(x, y, 1, 3, 8, 0, 1);
    lemma_q_hadamard_entry(x, y, 2, 3, 8, 2, 9);
    lemma_q_hadamard_entry(x, y, 3, 1, 8, 1, 3);
    assert(q_sum_to(s, 0) == q(0, 1));
    lemma_q_eq_value(0, 1, 0, 1);
    lemma_q_sum_step(s, 0, 0, 1, 0, 8, 0, 1);
    lemma_q_sum_step(s, 1, 0, 1, 0, 8, 0, 1);
    lemma_q_sum_step(s, 2, 0, 1, 6, 72, 1, 12);
    lemma_q_sum_step(s, 3, 1, 12, 1, 24, 1, 8);
}

proof fn lemma_three_eights_sum_29()
    ensures
        q_eq(q_dot(seq![q(1, 8), q(3, 8), q(3, 8), q(1, 8)], seq![q(0, 1), q(0, 1), q(1, 9), q(1, 3)]), q(1, 12)),
        q_valid(q_dot(seq![q(1, 8), q(3, 8), q(3, 8), q(1, 8)], seq![q(0, 1), q(0, 1), q(1, 9), q(1, 3)])),
{
    let x = seq![q(1, 8), q(3, 8), q(3, 8), q(1, 8)];
    let y = seq![q(0, 1), q(0, 1), q(1, 9), q(1, 3)];
    let s = q_hadamard(x, y);
    assert(s.len() == 4);
    lemma_q_hadamard_entry(x, y, 0, 1, 8, 0, 1);
    lemma_q_hadamard_entry(x, y, 1, 3, 8, 0, 1);
    lemma_q_hadamard_entry(x, y, 2, 3, 8, 1, 9);
    lemma_q_hadamard_entry(x, y, 3, 1, 8, 1, 3);
    assert(q_sum_to(s, 0) == q(0, 1));
    lemma_q_eq_value(0, 1, 0, 1);
    lemma_q_sum_step(s, 0, 0, 1, 0, 8, 0, 1);
    lemma_q_sum_step(s, 1, 0, 1, 0, 8, 0, 1);
    lemma_q_sum_step(s, 2, 0, 1, 3, 72, 1, 24);
    lemma_q_sum_step(s, 3, 1, 24, 1, 24, 1, 12);
}

proof fn lemma_three_eights_sum_30()
    ensures
        q_eq(q_dot(seq![q(1, 8), q(3, 8), q(3, 8), q(1, 8)], seq![q(0, 1), q(0, 1), q(0, 1), q(1, 3)]), q(1, 24)),
        q_valid(q_dot(seq![q(1, 8), q(3, 8), q(3, 8), q(1, 8)], seq![q(0, 1), q(0, 1), q(0, 1), q(1, 3)])),
{
    let x = seq![q(1, 8), q(3, 8), q(3, 8), q(1, 8)];
    let y = seq![q(0, 1), q(0, 1), q(0, 1), q(1, 3)];
    let s = q_hadamard(x, y);
    assert(s.len() == 4);
    lemma_q_hadamard_entry(x, y, 0, 1, 8, 0, 1);
    lemma_q_hadamard_entry(x, y, 1, 3, 8, 0, 1);
    lemma_q_hadamard_entry(x, y, 2, 3, 8, 0, 1);
    lemma_q_hadamard_entry(x, y, 3, 1, 8, 1, 3);
    assert(q_sum_to(s, 0) == q(0, 1));
    lemma_q_eq_value(0, 1, 0, 1);
    lemma_q_sum_step(s, 0, 0, 1, 0, 8, 0, 1);
    lemma_q_sum_step(s, 1, 0, 1, 0, 8, 0, 1);
    lemma_q_sum_step(s, 2, 0, 1, 0, 8, 0, 1);
    lemma_q_sum_step(s, 3, 0, 1, 1, 24, 1, 24);
}

proof fn lemma_three_eights_sum_31()
    ensures
        q_eq(q_dot(seq![q(-1, 2), q(3, 2), q(0, 1), q(0, 1)], seq![q(1, 1), q(1, 1), q(1, 1), q(1, 1)]), q(1, 1)),
        q_valid(q_dot(seq![q(-1, 2), q(3, 2), q(0, 1), q(0, 1)], seq![q(1, 1), q(1, 1), q(1, 1), q(1, 1)])),
{
    let x = seq![q(-1, 2), q(3, 2), q(0, 1), q(0, 1)];
    let y = seq![q(1, 1), q(1, 1), q(1, 1), q(1, 1)];
    let s = q_hadamard(x, y);
    assert(s.len() == 4);
    lemma_q_hadamard_entry(x, y, 0, -1, 2, 1, 1);
    lemma_q_hadamard_entry(x, y, 1, 3, 2, 1, 1);
    lemma_q_hadamard_entry(x, y, 2, 0, 1, 1, 1);
    lemma_q_hadamard_entry(x, y, 3, 0, 1, 1, 1);
    assert(q_sum_to(s, 0) == q(0, 1));
    lemma_q_eq_value(0, 1, 0, 1);
    lemma_q_sum_step(s, 0, 0, 1, -1, 2, -1, 2);
    lemma_q_sum_step(s, 1, -1, 2, 3, 2, 1, 1);
    lemma_q_sum_step(s, 2, 1, 1, 0, 1, 1, 1);
    lemma_q_sum_step(s, 3, 1, 1, 0, 1, 1, 1);
}

proof fn lemma_three_eights_sum_32()
    ensures
        q_eq(q_dot(seq![q(-1, 2), q(3, 2), q(0, 1), q(0, 1)], seq![q(0, 1), q(1, 3), q(2, 3), q(1, 1)]), q(1, 2)),
        q_valid(q_dot(seq![q(-1, 2), q(3, 2), q(0, 1), q(0, 1)], seq![q(0, 1), q(1, 3), q(2, 3), q(1, 1)])),
{
    let x = seq![q(-1, 2), q(3, 2), q(0, 1), q(0, 1)];
    let y = seq![q(0, 1), q(1, 3), q(2, 3), q(1, 1)];
    let s = q_hadamard(x, y);
    assert(s.len() == 4);
    lemma_q_hadamard_entry(x, y, 0, -1, 2, 0, 1);
    lemma_q_hadamard_entry(x, y, 1, 3, 2, 1, 3);
    lemma_q_hadamard_entry(x, y, 2, 0, 1, 2, 3);
    lemma_q_hadamard_entry(x, y, 3, 0, 1, 1, 1);
    assert(q_sum_to(s, 0) == q(0, 1));
    lemma_q_eq_value(0, 1, 0, 1);
    lemma_q_sum_step(s, 0, 0, 1, 0, 2, 0, 1);
    lemma_q_sum_step(s, 1, 0, 1, 3, 6, 1, 2);
    lemma_q_sum_step(s, 2, 1, 2, 0, 3, 1, 2);
    lemma_q_sum_step(s, 3, 1, 2, 0, 1, 1, 2);
}

proof fn lemma_three_eights_shape()
    ensures
        well_shaped(three_eights_model(), 4, 2),
        is_explicit(three_eights_model()),
{
    let m = three_eights_model();
    assert forall|k: int, l: int| 0 <= k < 4 && 0 <= l < 4 implies q_valid(#[trigger] m.a[k][l]) && (k <= l ==> q_is_zero(m.a[k][l])) by {
        if k == 0 {
            if l == 0 {
            } else if l == 1 {
            } else if l == 2 {
            } else if l == 3 {
            }
        } else if k == 1 {
            if l == 0 {
            } else if l == 1 {
            } else if l == 2 {
            } else if l == 3 {
            }
        } else if k == 2 {
            if l == 0 {
            } else if l == 1 {
            } else if l == 2 {
            } else if l == 3 {
            }
        } else if k == 3 {
            if l == 0 {
            } else if l == 1 {
            } else if l == 2 {
            } else if l == 3 {
            }
        }
    }
    assert forall|k: int, l: int| 0 <= k < 4 && 0 <= l < 2 implies q_valid(#[trigger] m.bi[k][l]) by {
        if k == 0 {
            if l == 0 {
            } else if l == 1 {
            }
        } else if k == 1 {
            if l == 0 {
            } else if l == 1 {
            }
        } else if k == 2 {
            if l == 0 {
            } else if l == 1 {
            }
        } else if k == 3 {
            if l == 0 {
            } else if l == 1 {
            }
        }
    }
    assert forall|k: int| 0 <= k < 4 implies #[trigger] m.a[k].len() == 4 && m.bi[k].len() == 2 && q_valid(m.b[k]) && q_valid(m.b2[k]) && q_valid(m.c[k]) by {
        if k == 0 {
        } else if k == 1 {
        } else if k == 2 {
        } else if k == 3 {
        }
    }
}

proof fn lemma_three_eights_rows()
    ensures
        nodes_are_row_sums(three_eights_model()),
        interpolation_is_continuous(three_eights_model()),
{
    let m = three_eights_model();
    assert forall|i: int|
        #![trigger m.c[i]]
        #![trigger m.bi[i]]
        0 <= i < 4 implies q_eq(m.c[i], q_total(m.a[i])) && q_is_zero(m.bi[i][0]) && q_eq(q_total(m.bi[i]), m.b[i]) by {
        if i == 0 {
            assert(m.a[0] == seq![q(0, 1), q(0, 1), q(0, 1), q(0, 1)] && m.bi[0] == seq![q(0, 1), q(1, 8)]);
            lemma_three_eights_sum_1();
            lemma_three_eights_sum_2();
            lemma_q_eq_symmetric(q_total(m.a[0]), q(0, 1));
            assert(m.c[0] == q(0, 1) && m.b[0] == q(1, 8));
        } else if i == 1 {
            assert(m.a[1] == seq![q(1, 3), q(0, 1), q(0, 1), q(0, 1)] && m.bi[1] == seq![q(0, 1), q(3, 8)]);
            lemma_three_eights_sum_3();
            lemma_three_eights_sum_4();
            lemma_q_eq_symmetric(q_total(m.a[1]), q(1, 3));
            assert(m.c[1] == q(1, 3) && m.b[1] == q(3, 8));
        } else if i == 2 {
            assert(m.a[2] == seq![q(-1, 3), q(1, 1), q(0, 1), q(0, 1)] && m.bi[2] == seq![q(0, 1), q(3, 8)]);
            lemma_three_eights_sum_5();
            lemma_three_eights_sum_4();
            lemma_q_eq_symmetric(q_total(m.a[2]), q(2, 3));
            assert(m.c[2] == q(2, 3) && m.b[2] == q(3, 8));
        } else if i == 3 {
            assert(m.a[3] == seq![q(1, 1), q(-1, 1), q(1, 1), q(0, 1)] && m.bi[3] == seq![q(0, 1), q(1, 8)]);
            lemma_three_eights_sum_6();
            lemma_three_eights_sum_2();
            lemma_q_eq_symmetric(q_total(m.a[3]), q(1, 1));
            assert(m.c[3] == q(1, 1) && m.b[3] == q(1, 8));
        }
    }
}

proof fn lemma_three_eights_phi_0()
    ensures
        q_vec_eq(elementary_weights(three_eights_model().a, 0), seq![q(1, 1), q(1, 1), q(1, 1), q(1, 1)]),
{
    let v = elementary_weights(three_eights_model().a, 0);
    let w = seq![q(1, 1), q(1, 1), q(1, 1), q(1, 1)];
    assert(v.len() == 4);
    lemma_q_eq_value(1, 1, 1, 1);
    assert forall|i: int| 0 <= i < 4 implies q_eq(#[trigger] v[i], w[i]) && q_valid(v[i]) by {
        if i == 0 {
            assert(v[0] == q(1, 1) && w[0] == q(1, 1));
        } else if i == 1 {
            assert(v[1] == q(1, 1) && w[1] == q(1, 1));
        } else if i == 2 {
            assert(v[2] == q(1, 1) && w[2] == q(1, 1));
        } else if i == 3 {
            assert(v[3] == q(1, 1) && w[3] == q(1, 1));
        }
    }
    assert forall|i: int| 0 <= i < 4 implies q_valid(#[trigger] w[i]) by {
        if i == 0 {
        } else if i == 1 {
        } else if i == 2 {
        } else if i == 3 {
        }
    }
}

proof fn lemma_three_eights_eval_a_1()
    ensures
        q_vec_eq(q_mat_vec(three_eights_model().a, seq![q(1, 1), q(1, 1), q(1, 1), q(1, 1)]), seq![q(0, 1), q(1, 3), q(2, 3), q(1, 1)]),
{
    let a = three_eights_model().a;
    let v = q_mat_vec(a, seq![q(1, 1), q(1, 1), q(1, 1), q(1, 1)]);
    let w = seq![q(0, 1), q(1, 3), q(2, 3), q(1, 1)];
    assert forall|i: int|
        #![trigger v[i]]
        #![trigger w[i]]
        0 <= i < 4 implies q_eq(v[i], w[i]) && q_valid(v[i]) && q_valid(w[i]) by {
        if i == 0 {
            assert(a[0] == seq![q(0, 1), q(0, 1), q(0, 1), q(0, 1)]);
            lemma_three_eights_sum_7();
            assert(w[0] == q(0, 1));
            lemma_q_eq_value(0, 1, 0, 1);
        } else if i == 1 {
            assert(a[1] == seq![q(1, 3), q(0, 1), q(0, 1), q(0, 1)]);
            lemma_three_eights_sum_8();
            assert(w[1] == q(1, 3));
            lemma_q_eq_value(1, 3, 1, 3);
        } else if i == 2 {
            assert(a[2] == seq![q(-1, 3), q(1, 1), q(0, 1), q(0, 1)]);
            lemma_three_eights_sum_9();
            assert(w[2] == q(2, 3));
            lemma_q_eq_value(2, 3, 2, 3);
        } else if i == 3 {
            assert(a[3] == seq![q(1, 1), q(-1, 1), q(1, 1), q(0, 1)]);
            lemma_three_eights_sum_10();
            assert(w[3] == q(1, 1));
            lemma_q_eq_value(1, 1, 1, 1);
        }
    }
}

proof fn lemma_three_eights_phi_1()
    ensures
        q_vec_eq(elementary_weights(three_eights_model().a, 1), seq![q(0, 1), q(1, 3), q(2, 3), q(1, 1)]),
{
    let a = three_eights_model().a;
    lemma_three_eights_shape();
    lemma_three_eights_phi_0();
    lemma_q_mat_vec_congruent(a, elementary_weights(a, 0), seq![q(1, 1), q(1, 1), q(1, 1), q(1, 1)]);
    lemma_three_eights_eval_a_1();
    lemma_q_vec_eq_trans(q_mat_vec(a, elementary_weights(a, 0)), q_mat_vec(a, seq![q(1, 1), q(1, 1), q(1, 1), q(1, 1)]), seq![q(0, 1), q(1, 3), q(2, 3), q(1, 1)]);
}

proof fn lemma_three_eights_eval_a_2()
    ensures
        q_vec_eq(q_mat_vec(three_eights_model().a, seq![q(1, 1), q(1, 1), q(1, 1), q(1, 1)]), seq![q(0, 1), q(1, 3), q(2, 3), q(1, 1)]),
{
    let a = three_eights_model().a;
    let v = q_mat_vec(a, seq![q(1, 1), q(1, 1), q(1, 1), q(1, 1)]);
    let w = seq![q(0, 1), q(1, 3), q(2, 3), q(1, 1)];
    assert forall|i: int|
        #![trigger v[i]]
        #![trigger w[i]]
        0 <= i < 4 implies q_eq(v[i], w[i]) && q_valid(v[i]) && q_valid(w[i]) by {
        if i == 0 {
            assert(a[0] == seq![q(0, 1), q(0, 1), q(0, 1), q(0, 1)]);
            lemma_three_eights_sum_7();
            assert(w[0] == q(0, 1));
            lemma_q_eq_value(0, 1, 0, 1);
        } else if i == 1 {
            assert(a[1] == seq![q(1, 3), q(0, 1), q(0, 1), q(0, 1)]);
            lemma_three_eights_sum_8();
            assert(w[1] == q(1, 3));
            lemma_q_eq_value(1, 3, 1, 3);
        } else if i == 2 {
            assert(a[2] == seq![q(-1, 3), q(1, 1), q(0, 1), q(0, 1)]);
            lemma_three_eights_sum_9();
            assert(w[2] == q(2, 3));
            lemma_q_eq_value(2, 3, 2, 3);
        } else if i == 3 {
            assert(a[3] == seq![q(1, 1), q(-1, 1), q(1, 1), q(0, 1)]);
            lemma_three_eights_sum_10();
            assert(w[3] == q(1, 1));
            lemma_q_eq_value(1, 1, 1, 1);
        }
    }
}

proof fn lemma_three_eights_eval_h_2()
    ensures
        q_vec_eq(q_hadamard(seq![q(0, 1), q(1, 3), q(2, 3), q(1, 1)], seq![q(0, 1), q(1, 3), q(2, 3), q(1, 1)]), seq![q(0, 1), q(1, 9), q(4, 9), q(1, 1)]),
{
    let x = seq![q(0, 1), q(1, 3), q(2, 3), q(1, 1)];
    let y = seq![q(0, 1), q(1, 3), q(2, 3), q(1, 1)];
    let v = q_hadamard(x, y);
    let w = seq![q(0, 1), q(1, 9), q(4, 9), q(1, 1)];
    assert forall|i: int|
        #![trigger v[i]]
        #![trigger w[i]]
        0 <= i < 4 implies q_eq(v[i], w[i]) && q_valid(v[i]) && q_valid(w[i]) by {
        if i == 0 {
            lemma_q_mul_value(0, 1, 0, 1);
            assert(x[0] == q(0, 1) && y[0] == q(0, 1));
            lemma_q_eq_value(0, 1, 0, 1);
            assert(w[0] == q(0, 1));
        } else if i == 1 {
            lemma_q_mul_value(1, 3, 1, 3);
            assert(x[1] == q(1, 3) && y[1] == q(1, 3));
            lemma_q_eq_value(1, 9, 1, 9);
            assert(w[1] == q(1, 9));
        } else if i == 2 {
            lemma_q_mul_value(2, 3, 2, 3);
            assert(x[2] == q(2, 3) && y[2] == q(2, 3));
            lemma_q_eq_value(4, 9, 4, 9);
            assert(w[2] == q(4, 9));
        } else if i == 3 {
            lemma_q_mul_value(1, 1, 1, 1);
            assert(x[3] == q(1, 1) && y[3] == q(1, 1));
            lemma_q_eq_value(1, 1, 1, 1);
            assert(w[3] == q(1, 1));
        }
    }
}

proof fn lemma_three_eights_phi_2()
    ensures
        q_vec_eq(elementary_weights(three_eights_model().a, 2), seq![q(0, 1), q(1, 9), q(4, 9), q(1, 1)]),
{
    let a = three_eights_model().a;
    lemma_three_eights_shape();
    lemma_three_eights_phi_0();
    lemma_q_mat_vec_congruent(a, elementary_weights(a, 0), seq![q(1, 1), q(1, 1), q(1, 1), q(1, 1)]);
    lemma_three_eights_eval_a_2();
    lemma_q_vec_eq_trans(q_mat_vec(a, elementary_weights(a, 0)), q_mat_vec(a, seq![q(1, 1), q(1, 1), q(1, 1), q(1, 1)]), seq![q(0, 1), q(1, 3), q(2, 3), q(1, 1)]);
    lemma_three_eights_phi_1();
    lemma_q_hadamard_congruent(q_mat_vec(a, elementary_weights(a, 0)), seq![q(0, 1), q(1, 3), q(2, 3), q(1, 1)], elementary_weights(a, 1), seq![q(0, 1), q(1, 3), q(2, 3), q(1, 1)]);
    lemma_three_eights_eval_h_2();
    lemma_q_vec_eq_trans(q_hadamard(q_mat_vec(a, elementary_weights(a, 0)), elementary_weights(a, 1)), q_hadamard(seq![q(0, 1), q(1, 3), q(2, 3), q(1, 1)], seq![q(0, 1), q(1, 3), q(2, 3), q(1, 1)]), seq![q(0, 1), q(1, 9), q(4, 9), q(1, 1)]);
}

proof fn lemma_three_eights_eval_a_3()
    ensures
        q_vec_eq(q_mat_vec(three_eights_model().a, seq![q(0, 1), q(1, 3), q(2, 3), q(1, 1)]), seq![q(0, 1), q(0, 1), q(1, 3), q(1, 3)]),
{
    let a = three_eights_model().a;
    let v = q_mat_vec(a, seq![q(0, 1), q(1, 3), q(2, 3), q(1, 1)]);
    let w = seq![q(0, 1), q(0, 1), q(1, 3), q(1, 3)];
    assert forall|i: int|
        #![trigger v[i]]
        #![trigger w[i]]
        0 <= i < 4 implies q_eq(v[i], w[i]) && q_valid(v[i]) && q_valid(w[i]) by {
        if i == 0 {
            assert(a[0] == seq![q(0, 1), q(0, 1), q(0, 1), q(0, 1)]);
            lemma_three_eights_sum_11();
            assert(w[0] == q(0, 1));
            lemma_q_eq_value(0, 1, 0, 1);
        } else if i == 1 {
            assert(a[1] == seq![q(1, 3), q(0, 1), q(0, 1), q(0, 1)]);
            lemma_three_eights_sum_12();
            assert(w[1] == q(0, 1));
            lemma_q_eq_value(0, 1, 0, 1);
        } else if i == 2 {
            assert(a[2] == seq![q(-1, 3), q(1, 1), q(0, 1), q(0, 1)]);
            lemma_three_eights_sum_13();
            assert(w[2] == q(1, 3));
            lemma_q_eq_value(1, 3, 1, 3);
        } else if i == 3 {
            assert(a[3] == seq![q(1, 1), q(-1, 1), q(1, 1), q(0, 1)]);
            lemma_three_eights_sum_14();
            assert(w[3] == q(1, 3));
            lemma_q_eq_value(1, 3, 1, 3);
        }
    }
}

proof fn lemma_three_eights_phi_3()
    ensures
        q_vec_eq(elementary_weights(three_eights_model().a, 3), seq![q(0, 1), q(0, 1), q(1, 3), q(1, 3)]),
{
    let a = three_eights_model().a;
    lemma_three_eights_shape();
    lemma_three_eights_phi_1();
    lemma_q_mat_vec_congruent(a, elementary_weights(a, 1), seq![q(0, 1), q(1, 3), q(2, 3), q(1, 1)]);
    lemma_three_eights_eval_a_3();
    lemma_q_vec_eq_trans(q_mat_vec(a, elementary_weights(a, 1)), q_mat_vec(a, seq![q(0, 1), q(1, 3), q(2, 3), q(1, 1)]), seq![q(0, 1), q(0, 1), q(1, 3), q(1, 3)]);
}

proof fn lemma_three_eights_eval_a_4()
    ensures
        q_vec_eq(q_mat_vec(three_eights_model().a, seq![q(1, 1), q(1, 1), q(1, 1), q(1, 1)]), seq![q(0, 1), q(1, 3), q(2, 3), q(1, 1)]),
{
    let a = three_eights_model().a;
    let v = q_mat_vec(a, seq![q(1, 1), q(1, 1), q(1, 1), q(1, 1)]);
    let w = seq![q(0, 1), q(1, 3), q(2, 3), q(1, 1)];
    assert forall|i: int|
        #![trigger v[i]]
        #![trigger w[i]]
        0 <= i < 4 implies q_eq(v[i], w[i]) && q_valid(v[i]) && q_valid(w[i]) by {
        if i == 0 {
            assert(a[0] == seq![q(0, 1), q(0, 1), q(0, 1), q(0, 1)]);
            lemma_three_eights_sum_7();
            assert(w[0] == q(0, 1));
            lemma_q_eq_value(0, 1, 0, 1);
        } else if i == 1 {
            assert(a[1] == seq![q(1, 3), q(0, 1), q(0, 1), q(0, 1)]);
            lemma_three_eights_sum_8();
            assert(w[1] == q(1, 3));
            lemma_q_eq_value(1, 3, 1, 3);
        } else if i == 2 {
            assert(a[2] == seq![q(-1, 3), q(1, 1), q(0, 1), q(0, 1)]);
            lemma_three_eights_sum_9();
            assert(w[2] == q(2, 3));
            lemma_q_eq_value(2, 3, 2, 3);
        } else if i == 3 {
            assert(a[3] == seq![q(1, 1), q(-1, 1), q(1, 1), q(0, 1)]);
            lemma_three_eights_sum_10();
            assert(w[3] == q(1, 1));
            lemma_q_eq_value(1, 1, 1, 1);
        }
    }
}

proof fn lemma_three_eights_eval_h_4()
    ensures
        q_vec_eq(q_hadamard(seq![q(0, 1), q(1, 3), q(2, 3), q(1, 1)], seq![q(0, 1), q(1, 9), q(4, 9), q(1, 1)]), seq![q(0, 1), q(1, 27), q(8, 27), q(1, 1)]),
{
    let x = seq![q(0, 1), q(1, 3), q(2, 3), q(1, 1)];
    let y = seq![q(0, 1), q(1, 9), q(4, 9), q(1, 1)];
    let v = q_hadamard(x, y);
    let w = seq![q(0, 1), q(1, 27), q(8, 27), q(1, 1)];
    assert forall|i: int|
        #![trigger v[i]]
        #![trigger w[i]]
        0 <= i < 4 implies q_eq(v[i], w[i]) && q_valid(v[i]) && q_valid(w[i]) by {
        if i == 0 {
            lemma_q_mul_value(0, 1, 0, 1);
            assert(x[0] == q(0, 1) && y[0] == q(0, 1));
            lemma_q_eq_value(0, 1, 0, 1);
            assert(w[0] == q(0, 1));
        } else if i == 1 {
            lemma_q_mul_value(1, 3, 1, 9);
            assert(x[1] == q(1, 3) && y[1] == q(1, 9));
            lemma_q_eq_value(1, 27, 1, 27);
            assert(w[1] == q(1, 27));
        } else if i == 2 {
            lemma_q_mul_value(2, 3, 4, 9);
            assert(x[2] == q(2, 3) && y[2] == q(4, 9));
            lemma_q_eq_value(8, 27, 8, 27);
            assert(w[2] == q(8, 27));
        } else if i == 3 {
            lemma_q_mul_value(1, 1, 1, 1);
            assert(x[3] == q(1, 1) && y[3] == q(1, 1));
            lemma_q_eq_value(1, 1, 1, 1);
            assert(w[3] == q(1, 1));
        }
    }
}

proof fn lemma_three_eights_phi_4()
    ensures
        q_vec_eq(elementary_weights(three_eights_model().a, 4), seq![q(0, 1), q(1, 27), q(8, 27), q(1, 1)]),
{
    let a = three_eights_model().a;
    lemma_three_eights_shape();
    lemma_three_eights_phi_0();
    lemma_q_mat_vec_congruent(a, elementary_weights(a, 0), seq![q(1, 1), q(1, 1), q(1, 1), q(1, 1)]);
    lemma_three_eights_eval_a_4();
    lemma_q_vec_eq_trans(q_mat_vec(a, elementary_weights(a, 0)), q_mat_vec(a, seq![q(1, 1), q(1, 1), q(1, 1), q(1, 1)]), seq![q(0, 1), q(1, 3), q(2, 3), q(1, 1)]);
    lemma_three_eights_phi_2();
    lemma_q_hadamard_congruent(q_mat_vec(a, elementary_weights(a, 0)), seq![q(0, 1), q(1, 3), q(2, 3), q(1, 1)], elementary_weights(a, 2), seq![q(0, 1), q(1, 9), q(4, 9), q(1, 1)]);
    lemma_three_eights_eval_h_4();
    lemma_q_vec_eq_trans(q_hadamard(q_mat_vec(a, elementary_weights(a, 0)), elementary_weights(a, 2)), q_hadamard(seq![q(0, 1), q(1, 3), q(2, 3), q(1, 1)], seq![q(0, 1), q(1, 9), q(4, 9), q(1, 1)]), seq![q(0, 1), q(1, 27), q(8, 27), q(1, 1)]);
}

proof fn lemma_three_eights_eval_a_5()
    ensures
        q_vec_eq(q_mat_vec(three_eights_model().a, seq![q(1, 1), q(1, 1), q(1, 1), q(1, 1)]), seq![q(0, 1), q(1, 3), q(2, 3), q(1, 1)]),
{
    let a = three_eights_model().a;
    let v = q_mat_vec(a, seq![q(1, 1), q(1, 1), q(1, 1), q(1, 1)]);
    let w = seq![q(0, 1), q(1, 3), q(2, 3), q(1, 1)];
    assert forall|i: int|
        #![trigger v[i]]
        #![trigger w[i]]
        0 <= i < 4 implies q_eq(v[i], w[i]) && q_valid(v[i]) && q_valid(w[i]) by {
        if i == 0 {
            assert(a[0] == seq![q(0, 1), q(0, 1), q(0, 1), q(0, 1)]);
            lemma_three_eights_sum_7();
            assert(w[0] == q(0, 1));
            lemma_q_eq_value(0, 1, 0, 1);
        } else if i == 1 {
            assert(a[1] == seq![q(1, 3), q(0, 1), q(0, 1), q(0, 1)]);
            lemma_three_eights_sum_8();
            assert(w[1] == q(1, 3));
            lemma_q_eq_value(1, 3, 1, 3);
        } else if i == 2 {
            assert(a[2] == seq![q(-1, 3), q(1, 1), q(0, 1), q(0, 1)]);
            lemma_three_eights_sum_9();
            assert(w[2] == q(2, 3));
            lemma_q_eq_value(2, 3, 2, 3);
        } else if i == 3 {
            assert(a[3] == seq![q(1, 1), q(-1, 1), q(1, 1), q(0, 1)]);
            lemma_three_eights_sum_10();
            assert(w[3] == q(1, 1));
            lemma_q_eq_value(1, 1, 1, 1);
        }
    }
}

proof fn lemma_three_eights_eval_h_5()
    ensures
        q_vec_eq(q_hadamard(seq![q(0, 1), q(1, 3), q(2, 3), q(1, 1)], seq![q(0, 1), q(0, 1), q(1, 3), q(1, 3)]), seq![q(0, 1), q(0, 1), q(2, 9), q(1, 3)]),
{
    let x = seq![q(0, 1), q(1, 3), q(2, 3), q(1, 1)];
    let y = seq![q(0, 1), q(0, 1), q(1, 3), q(1, 3)];
    let v = q_hadamard(x, y);
    let w = seq![q(0, 1), q(0, 1), q(2, 9), q(1, 3)];
    assert forall|i: int|
        #![trigger v[i]]
        #![trigger w[i]]
        0 <= i < 4 implies q_eq(v[i], w[i]) && q_valid(v[i]) && q_valid(w[i]) by {
        if i == 0 {
            lemma_q_mul_value(0, 1, 0, 1);
            assert(x[0] == q(0, 1) && y[0] == q(0, 1));
            lemma_q_eq_value(0, 1, 0, 1);
            assert(w[0] == q(0, 1));
        } else if i == 1 {
            lemma_q_mul_value(1, 3, 0, 1);
            assert(x[1] == q(1, 3) && y[1] == q(0, 1));
            lemma_q_eq_value(0, 3, 0, 1);
            assert(w[1] == q(0, 1));
        } else if i == 2 {
            lemma_q_mul_value(2, 3, 1, 3);
            assert(x[2] == q(2, 3) && y[2] == q(1, 3));
            lemma_q_eq_value(2, 9, 2, 9);
            assert(w[2] == q(2, 9));
        } else if i == 3 {
            lemma_q_mul_value(1, 1, 1, 3);
            assert(x[3] == q(1, 1) && y[3] == q(1, 3));
            lemma_q_eq_value(1, 3, 1, 3);
            assert(w[3] == q(1, 3));
        }
    }
}

proof fn lemma_three_eights_phi_5()
    ensures
        q_vec_eq(elementary_weights(three_eights_model().a, 5), seq![q(0, 1), q(0, 1), q(2, 9), q(1, 3)]),
{
    let a = three_eights_model().a;
    lemma_three_eights_shape();
    lemma_three_eights_phi_0();
    lemma_q_mat_vec_congruent(a, elementary_weights(a, 0), seq![q(1, 1), q(1, 1), q(1, 1), q(1, 1)]);
    lemma_three_eights_eval_a_5();
    lemma_q_vec_eq_trans(q_mat_vec(a, elementary_weights(a, 0)), q_mat_vec(a, seq![q(1, 1), q(1, 1), q(1, 1), q(1, 1)]), seq![q(0, 1), q(1, 3), q(2, 3), q(1, 1)]);
    lemma_three_eights_phi_3();
    lemma_q_hadamard_congruent(q_mat_vec(a, elementary_weights(a, 0)), seq![q(0, 1), q(1, 3), q(2, 3), q(1, 1)], elementary_weights(a, 3), seq![q(0, 1), q(0, 1), q(1, 3), q(1, 3)]);
    lemma_three_eights_eval_h_5();
    lemma_q_vec_eq_trans(q_hadamard(q_mat_vec(a, elementary_weights(a, 0)), elementary_weights(a, 3)), q_hadamard(seq![q(0, 1), q(1, 3), q(2, 3), q(1, 1)], seq![q(0, 1), q(0, 1), q(1, 3), q(1, 3)]), seq![q(0, 1), q(0, 1), q(2, 9), q(1, 3)]);
}

proof fn lemma_three_eights_eval_a_6()
    ensures
        q_vec_eq(q_mat_vec(three_eights_model().a, seq![q(0, 1), q(1, 9), q(4, 9), q(1, 1)]), seq![q(0, 1), q(0, 1), q(1, 9), q(1, 3)]),
{
    let a = three_eights_model().a;
    let v = q_mat_vec(a, seq![q(0, 1), q(1, 9), q(4, 9), q(1, 1)]);
    let w = seq![q(0, 1), q(0, 1), q(1, 9), q(1, 3)];
    assert forall|i: int|
        #![trigger v[i]]
        #![trigger w[i]]
        0 <= i < 4 implies q_eq(v[i], w[i]) && q_valid(v[i]) && q_valid(w[i]) by {
        if i == 0 {
            assert(a[0] == seq![q(0, 1), q(0, 1), q(0, 1), q(0, 1)]);
            lemma_three_eights_sum_15();
            assert(w[0] == q(0, 1));
            lemma_q_eq_value(0, 1, 0, 1);
        } else if i == 1 {
            assert(a[1] == seq![q(1, 3), q(0, 1), q(0, 1), q(0, 1)]);
            lemma_three_eights_sum_16();
            assert(w[1] == q(0, 1));
            lemma_q_eq_value(0, 1, 0, 1);
        } else if i == 2 {
            assert(a[2] == seq![q(-1, 3), q(1, 1), q(0, 1), q(0, 1)]);
            lemma_three_eights_sum_17();
            assert(w[2] == q(1, 9));
            lemma_q_eq_value(1, 9, 1, 9);
        } else if i == 3 {
            assert(a[3] == seq![q(1, 1), q(-1, 1), q(1, 1), q(0, 1)]);
            lemma_three_eights_sum_18();
            assert(w[3] == q(1, 3));
            lemma_q_eq_value(1, 3, 1, 3);
        }
    }
}

proof fn lemma_three_eights_phi_6()
    ensures
        q_vec_eq(elementary_weights(three_eights_model().a, 6), seq![q(0, 1), q(0, 1), q(1, 9), q(1, 3)]),
{
    let a = three_eights_model().a;
    lemma_three_eights_shape();
    lemma_three_eights_phi_2();
    lemma_q_mat_vec_congruent(a, elementary_weights(a, 2), seq![q(0, 1), q(1, 9), q(4, 9), q(1, 1)]);
    lemma_three_eights_eval_a_6();
    lemma_q_vec_eq_trans(q_mat_vec(a, elementary_weights(a, 2)), q_mat_vec(a, seq![q(0, 1), q(1, 9), q(4, 9), q(1, 1)]), seq![q(0, 1), q(0, 1), q(1, 9), q(1, 3)]);
}

proof fn lemma_three_eights_eval_a_7()
    ensures
        q_vec_eq(q_mat_vec(three_eights_model().a, seq![q(0, 1), q(0, 1), q(1, 3), q(1, 3)]), seq![q(0, 1), q(0, 1), q(0, 1), q(1, 3)]),
{
    let a = three_eights_model().a;
    let v = q_mat_vec(a, seq![q(0, 1), q(0, 1), q(1, 3), q(1, 3)]);
    let w = seq![q(0, 1), q(0, 1), q(0, 1), q(1, 3)];
    assert forall|i: int|
        #![trigger v[i]]
        #![trigger w[i]]
        0 <= i < 4 implies q_eq(v[i], w[i]) && q_valid(v[i]) && q_valid(w[i]) by {
        if i == 0 {
            assert(a[0] == seq![q(0, 1), q(0, 1), q(0, 1), q(0, 1)]);
            lemma_three_eights_sum_19();
            assert(w[0] == q(0, 1));
            lemma_q_eq_value(0, 1, 0, 1);
        } else if i == 1 {
            assert(a[1] == seq![q(1, 3), q(0, 1), q(0, 1), q(0, 1)]);
            lemma_three_eights_sum_20();
            assert(w[1] == q(0, 1));
            lemma_q_eq_value(0, 1, 0, 1);
        } else if i == 2 {
            assert(a[2] == seq![q(-1, 3), q(1, 1), q(0, 1), q(0, 1)]);
            lemma_three_eights_sum_21();
            assert(w[2] == q(0, 1));
            lemma_q_eq_value(0, 1, 0, 1);
        } else if i == 3 {
            assert(a[3] == seq![q(1, 1), q(-1, 1), q(1, 1), q(0, 1)]);
            lemma_three_eights_sum_22();
            assert(w[3] == q(1, 3));
            lemma_q_eq_value(1, 3, 1, 3);
        }
    }
}

proof fn lemma_three_eights_phi_7()
    ensures
        q_vec_eq(elementary_weights(three_eights_model().a, 7), seq![q(0, 1), q(0, 1), q(0, 1), q(1, 3)]),
{
    let a = three_eights_model().a;
    lemma_three_eights_shape();
    lemma_three_eights_phi_3();
    lemma_q_mat_vec_congruent(a, elementary_weights(a, 3), seq![q(0, 1), q(0, 1), q(1, 3), q(1, 3)]);
    lemma_three_eights_eval_a_7();
    lemma_q_vec_eq_trans(q_mat_vec(a, elementary_weights(a, 3)), q_mat_vec(a, seq![q(0, 1), q(0, 1), q(1, 3), q(1, 3)]), seq![q(0, 1), q(0, 1), q(0, 1), q(1, 3)]);
}

proof fn lemma_three_eights_b_tree_0()
    ensures
        q_eq(q_dot(three_eights_model().b, elementary_weights(three_eights_model().a, 0)), q(1, tree_density(0))),
{
    lemma_three_eights_shape();
    lemma_three_eights_phi_0();
    assert(q_vec_valid(three_eights_model().b));
    lemma_q_dot_congruent(three_eights_model().b, elementary_weights(three_eights_model().a, 0), seq![q(1, 1), q(1, 1), q(1, 1), q(1, 1)]);
    assert(three_eights_model().b == seq![q(1, 8), q(3, 8), q(3, 8), q(1, 8)]);
    lemma_three_eights_sum_23();
    assert(q_eq(q_dot(three_eights_model().b, seq![q(1, 1), q(1, 1), q(1, 1), q(1, 1)]), q(1, 1)));
    lemma_q_eq_trans(q_dot(three_eights_model().b, elementary_weights(three_eights_model().a, 0)), q_dot(three_eights_model().b, seq![q(1, 1), q(1, 1), q(1, 1), q(1, 1)]), q(1, 1));
}

proof fn lemma_three_eights_b_tree_1()
    ensures
        q_eq(q_dot(three_eights_model().b, elementary_weights(three_eights_model().a, 1)), q(1, tree_density(1))),
{
    lemma_three_eights_shape();
    lemma_three_eights_phi_1();
    assert(q_vec_valid(three_eights_model().b));
    lemma_q_dot_congruent(three_eights_model().b, elementary_weights(three_eights_model().a, 1), seq![q(0, 1), q(1, 3), q(2, 3), q(1, 1)]);
    assert(three_eights_model().b == seq![q(1, 8), q(3, 8), q(3, 8), q(1, 8)]);
    lemma_three_eights_sum_24();
    assert(q_eq(q_dot(three_eights_model().b, seq![q(0, 1), q(1, 3), q(2, 3), q(1, 1)]), q(1, 2)));
    lemma_q_eq_trans(q_dot(three_eights_model().b, elementary_weights(three_eights_model().a, 1)), q_dot(three_eights_model().b, seq![q(0, 1), q(1, 3), q(2, 3), q(1, 1)]), q(1, 2));
}

proof fn lemma_three_eights_b_tree_2()
    ensures
        q_eq(q_dot(three_eights_model().b, elementary_weights(three_eights_model().a, 2)), q(1, tree_density(2))),
{
    lemma_three_eights_shape();
    lemma_three_eights_phi_2();
    assert(q_vec_valid(three_eights_model().b));
    lemma_q_dot_congruent(three_eights_model().b, elementary_weights(three_eights_model().a, 2), seq![q(0, 1), q(1, 9), q(4, 9), q(1, 1)]);
    assert(three_eights_model().b == seq![q(1, 8), q(3, 8), q(3, 8), q(1, 8)]);
    lemma_three_eights_sum_25();
    assert(q_eq(q_dot(three_eights_model().b, seq![q(0, 1), q(1, 9), q(4, 9), q(1, 1)]), q(1, 3)));
    lemma_q_eq_trans(q_dot(three_eights_model().b, elementary_weights(three_eights_model().a, 2)), q_dot(three_eights_model().b, seq![q(0, 1), q(1, 9), q(4, 9), q(1, 1)]), q(1, 3));
}

proof fn lemma_three_eights_b_tree_3()
    ensures
        q_eq(q_dot(three_eights_model().b, elementary_weights(three_eights_model().a, 3)), q(1, tree_density(3))),
{
    lemma_three_eights_shape();
    lemma_three_eights_phi_3();
    assert(q_vec_valid(three_eights_model().b));
    lemma_q_dot_congruent(three_eights_model().b, elementary_weights(three_eights_model().a, 3), seq![q(0, 1), q(0, 1), q(1, 3), q(1, 3)]);
    assert(three_eights_model().b == seq![q(1, 8), q(3, 8), q(3, 8), q(1, 8)]);
    lemma_three_eights_sum_26();
    assert(q_eq(q_dot(three_eights_model().b, seq![q(0, 1), q(0, 1), q(1, 3), q(1, 3)]), q(1, 6)));
    lemma_q_eq_trans(q_dot(three_eights_model().b, elementary_weights(three_eights_model().a, 3)), q_dot(three_eights_model().b, seq![q(0, 1), q(0, 1), q(1, 3), q(1, 3)]), q(1, 6));
}

proof fn lemma_three_eights_b_tree_4()
    ensures
        q_eq(q_dot(three_eights_model().b, elementary_weights(three_eights_model().a, 4)), q(1, tree_density(4))),
{
    lemma_three_eights_shape();
    lemma_three_eights_phi_4();
    assert(q_vec_valid(three_eights_model().b));
    lemma_q_dot_congruent(three_eights_model().b, elementary_weights(three_eights_model().a, 4), seq![q(0, 1), q(1, 27), q(8, 27), q(1, 1)]);
    assert(three_eights_model().b == seq![q(1, 8), q(3, 8), q(3, 8), q(1, 8)]);
    lemma_three_eights_sum_27();
    assert(q_eq(q_dot(three_eights_model().b, seq![q(0, 1), q(1, 27), q(8, 27), q(1, 1)]), q(1, 4)));
    lemma_q_eq_trans(q_dot(three_eights_model().b, elementary_weights(three_eights_model().a, 4)), q_dot(three_eights_model().b, seq![q(0, 1), q(1, 27), q(8, 27), q(1, 1)]), q(1, 4));
}

proof fn lemma_three_eights_b_tree_5()
    ensures
        q_eq(q_dot(three_eights_model().b, elementary_weights(three_eights_model().a, 5)), q(1, tree_density(5))),
{
    lemma_three_eights_shape();
    lemma_three_eights_phi_5();
    assert(q_vec_valid(three_eights_model().b));
    lemma_q_dot_congruent(three_eights_model().b, elementary_weights(three_eights_model().a, 5), seq![q(0, 1), q(0, 1), q(2, 9), q(1, 3)]);
    assert(three_eights_model().b == seq![q(1, 8), q(3, 8), q(3, 8), q(1, 8)]);
    lemma_three_eights_sum_28();
    assert(q_eq(q_dot(three_eights_model().b, seq![q(0, 1), q(0, 1), q(2, 9), q(1, 3)]), q(1, 8)));
    lemma_q_eq_trans(q_dot(three_eights_model().b, elementary_weights(three_eights_model().a, 5)), q_dot(three_eights_model().b, seq![q(0, 1), q(0, 1), q(2, 9), q(1, 3)]), q(1, 8));
}

proof fn lemma_three_eights_b_tree_6()
    ensures
        q_eq(q_dot(three_eights_model().b, elementary_weights(three_eights_model().a, 6)), q(1, tree_density(6))),
{
    lemma_three_eights_shape();
    lemma_three_eights_phi_6();
    assert(q_vec_valid(three_eights_model().b));
    lemma_q_dot_congruent(three_eights_model().b, elementary_weights(three_eights_model().a, 6), seq![q(0, 1), q(0, 1), q(1, 9), q(1, 3)]);
    assert(three_eights_model().b == seq![q(1, 8), q(3, 8), q(3, 8), q(1, 8)]);
    lemma_three_eights_sum_29();
    assert(q_eq(q_dot(three_eights_model().b, seq![q(0, 1), q(0, 1), q(1, 9), q(1, 3)]), q(1, 12)));
    lemma_q_eq_trans(q_dot(three_eights_model().b, elementary_weights(three_eights_model().a, 6)), q_dot(three_eights_model().b, seq![q(0, 1), q(0, 1), q(1, 9), q(1, 3)]), q(1, 12));
}

proof fn lemma_three_eights_b_tree_7()
    ensures
        q_eq(q_dot(three_eights_model().b, elementary_weights(three_eights_model().a, 7)), q(1, tree_density(7))),
{
    lemma_three_eights_shape();
    lemma_three_eights_phi_7();
    assert(q_vec_valid(three_eights_model().b));
    lemma_q_dot_congruent(three_eights_model().b, elementary_weights(three_eights_model().a, 7), seq![q(0, 1), q(0, 1), q(0, 1), q(1, 3)]);
    assert(three_eights_model().b == seq![q(1, 8), q(3, 8), q(3, 8), q(1, 8)]);
    lemma_three_eights_sum_30();
    assert(q_eq(q_dot(three_eights_model().b, seq![q(0, 1), q(0, 1), q(0, 1), q(1, 3)]), q(1, 24)));
    lemma_q_eq_trans(q_dot(three_eights_model().b, elementary_weights(three_eights_model().a, 7)), q_dot(three_eights_model().b, seq![q(0, 1), q(0, 1), q(0, 1), q(1, 3)]), q(1, 24));
}

proof fn lemma_three_eights_b2_tree_0()
    ensures
        q_eq(q_dot(three_eights_model().b2, elementary_weights(three_eights_model().a, 0)), q(1, tree_density(0))),
{
    lemma_three_eights_shape();
    lemma_three_eights_phi_0();
    assert(q_vec_valid(three_eights_model().b2));
    lemma_q_dot_congruent(three_eights_model().b2, elementary_weights(three_eights_model().a, 0), seq![q(1, 1), q(1, 1), q(1, 1), q(1, 1)]);
    assert(three_eights_model().b2 == seq![q(-1, 2), q(3, 2), q(0, 1), q(0, 1)]);
    lemma_three_eights_sum_31();
    assert(q_eq(q_dot(three_eights_model().b2, seq![q(1, 1), q(1, 1), q(1, 1), q(1, 1)]), q(1, 1)));
    lemma_q_eq_trans(q_dot(three_eights_model().b2, elementary_weights(three_eights_model().a, 0)), q_dot(three_eights_model().b2, seq![q(1, 1), q(1, 1), q(1, 1), q(1, 1)]), q(1, 1));
}

proof fn lemma_three_eights_b2_tree_1()
    ensures
        q_eq(q_dot(three_eights_model().b2, elementary_weights(three_eights_model().a, 1)), q(1, tree_density(1))),
{
    lemma_three_eights_shape();
    lemma_three_eights_phi_1();
    assert(q_vec_valid(three_eights_model().b2));
    lemma_q_dot_congruent(three_eights_model().b2, elementary_weights(three_eights_model().a, 1), seq![q(0, 1), q(1, 3), q(2, 3), q(1, 1)]);
    assert(three_eights_model().b2 == seq![q(-1, 2), q(3, 2), q(0, 1), q(0, 1)]);
    lemma_three_eights_sum_32();
    assert(q_eq(q_dot(three_eights_model().b2, seq![q(0, 1), q(1, 3), q(2, 3), q(1, 1)]), q(1, 2)));
    lemma_q_eq_trans(q_dot(three_eights_model().b2, elementary_weights(three_eights_model().a, 1)), q_dot(three_eights_model().b2, seq![q(0, 1), q(1, 3), q(2, 3), q(1, 1)]), q(1, 2));
}

pub(crate) proof fn lemma_three_eights_laws()
    ensures
        table_laws(three_eights_model(), 4, 2, 4, 2),
{
    let m = three_eights_model();
    lemma_three_eights_shape();
    lemma_three_eights_rows();
    assert forall|k: int| 0 <= k < num_trees() && tree_order(k) <= 4 implies q_eq(q_dot(m.b, #[trigger] elementary_weights(m.a, k)), q(1, tree_density(k))) by {
        if k == 0 {
            lemma_three_eights_b_tree_0();
        } else if k == 1 {
            lemma_three_eights_b_tree_1();
        } else if k == 2 {
            lemma_three_eights_b_tree_2();
        } else if k == 3 {
            lemma_three_eights_b_tree_3();
        } else if k == 4 {
            lemma_three_eights_b_tree_4();
        } else if k == 5 {
            lemma_three_eights_b_tree_5();
        } else if k == 6 {
            lemma_three_eights_b_tree_6();
        } else if k == 7 {
            lemma_three_eights_b_tree_7();
        }
    }
    assert forall|k: int| 0 <= k < num_trees() && tree_order(k) <= 2 implies q_eq(q_dot(m.b2, #[trigger] elementary_weights(m.a, k)), q(1, tree_density(k))) by {
        if k == 0 {
            lemma_three_eights_b2_tree_0();
        } else if k == 1 {
            lemma_three_eights_b2_tree_1();
        }
    }
}

/// The coefficients of [`crate::rk::ButcherTableu::rk43`].
pub open spec fn rk43_model() -> TableauModel {
    TableauModel {
        a: seq![seq![q(0, 1), q(0, 1), q(0, 1), q(0, 1), q(0, 1)], seq![q(1, 2), q(0, 1), q(0, 1), q(0, 1), q(0, 1)], seq![q(0, 1), q(1, 2), q(0, 1), q(0, 1), q(0, 1)], seq![q(0, 1), q(0, 1), q(1, 1), q(0, 1), q(0, 1)], seq![q(5, 32), q(7, 32), q(13, 32), q(-1, 32), q(0, 1)]],
        b: seq![q(1, 6), q(1, 3), q(1, 3), q(1, 6), q(0, 1)],
        b2: seq![q(-1, 2), q(7, 3), q(7, 3), q(13, 6), q(-16, 3)],
        c: seq![q(0, 1), q(1, 2), q(1, 2), q(1, 1), q(3, 4)],
        bi: seq![seq![q(0, 1), q(1, 1), q(-3, 2), q(2, 3)], seq![q(0, 1), q(0, 1), q(1, 1), q(-2, 3)], seq![q(0, 1), q(0, 1), q(1, 1), q(-2, 3)], seq![q(0, 1), q(0, 1), q(-1, 2), q(2, 3)], seq![q(0, 1), q(0, 1), q(0, 1), q(0, 1)]],
    }
}

proof fn lemma_rk43_sum_1()
    ensures
        q_eq(q_total(seq![q(0, 1), q(0, 1), q(0, 1), q(0, 1), q(0, 1)]), q(0, 1)),
        q_valid(q_total(seq![q(0, 1), q(0, 1), q(0, 1), q(0, 1), q(0, 1)])),
{
    let s = seq![q(0, 1), q(0, 1), q(0, 1), q(0, 1), q(0, 1)];
    assert(s.len() == 5);
    assert(q_sum_to(s, 0) == q(0, 1));
    lemma_q_eq_value(0, 1, 0, 1);
    lemma_q_sum_step(s, 0, 0, 1, 0, 1, 0, 1);
    lemma_q_sum_step(s, 1, 0, 1, 0, 1, 0, 1);
    lemma_q_sum_step(s, 2, 0, 1, 0, 1, 0, 1);
    lemma_q_sum_step(s, 3, 0, 1, 0, 1, 0, 1);
    lemma_q_sum_step(s, 4, 0, 1, 0, 1, 0, 1);
}

proof fn lemma_rk43_sum_2()
    ensures
        q_eq(q_total(seq![q(0, 1), q(1, 1), q(-3, 2), q(2, 3)]), q(1, 6)),
        q_valid(q_total(seq![q(0, 1), q(1, 1), q(-3, 2), q(2, 3)])),
{
    let s = seq![q(0, 1), q(1, 1), q(-3, 2), q(2, 3)];
    assert(s.len() == 4);
    assert(q_sum_to(s, 0) == q(0, 1));
    lemma_q_eq_value(0, 1, 0, 1);
    lemma_q_sum_step(s, 0, 0, 1, 0, 1, 0, 1);
    lemma_q_sum_step(s, 1, 0, 1, 1, 1, 1, 1);
    lemma_q_sum_step(s, 2, 1, 1, -3, 2, -1, 2);
    lemma_q_sum_step(s, 3, -1, 2, 2, 3, 1, 6);
}

proof fn lemma_rk43_sum_3()
    ensures
        q_eq(q_total(seq![q(1, 2), q(0, 1), q(0, 1), q(0, 1), q(0, 1)]), q(1, 2)),
        q_valid(q_total(seq![q(1, 2), q(0, 1), q(0, 1), q(0, 1), q(0, 1)])),
{
    let s = seq![q(1, 2), q(0, 1), q(0, 1), q(0, 1), q(0, 1)];
    assert(s.len() == 5);
    assert(q_sum_to(s, 0) == q(0, 1));
    lemma_q_eq_value(0, 1, 0, 1);
    lemma_q_sum_step(s, 0, 0, 1, 1, 2, 1, 2);
    lemma_q_sum_step(s, 1, 1, 2, 0, 1, 1, 2);
    lemma_q_sum_step(s, 2, 1, 2, 0, 1, 1, 2);
    lemma_q_sum_step(s, 3, 1, 2, 0, 1, 1, 2);
    lemma_q_sum_step(s, 4, 1, 2, 0, 1, 1, 2);
}

proof fn lemma_rk43_sum_4()
    ensures
        q_eq(q_total(seq![q(0, 1), q(0, 1), q(1, 1), q(-2, 3)]), q(1, 3)),
        q_valid(q_total(seq![q(0, 1), q(0, 1), q(1, 1), q(-2, 3)])),
{
    let s = seq![q(0, 1), q(0, 1), q(1, 1), q(-2, 3)];
    assert(s.len() == 4);
    assert(q_sum_to(s, 0) == q(0, 1));
    lemma_q_eq_value(0, 1, 0, 1);
    lemma_q_sum_step(s, 0, 0, 1, 0, 1, 0, 1);
    lemma_q_sum_step(s, 1, 0, 1, 0, 1, 0, 1);
    lemma_q_sum_step(s, 2, 0, 1, 1, 1, 1, 1);
    lemma_q_sum_step(s, 3, 1, 1, -2, 3, 1, 3);
}

proof fn lemma_rk43_sum_5()
    ensures
        q_eq(q_total(seq![q(0, 1), q(1, 2), q(0, 1), q(0, 1), q(0, 1)]), q(1, 2)),
        q_valid(q_total(seq![q(0, 1), q(1, 2), q(0, 1), q(0, 1), q(0, 1)])),
{
    let s = seq![q(0, 1), q(1, 2), q(0, 1), q(0, 1), q(0, 1)];
    assert(s.len() == 5);
    assert(q_sum_to(s, 0) == q(0, 1));
    lemma_q_eq_value(0, 1, 0, 1);
    lemma_q_sum_step(s, 0, 0, 1, 0, 1, 0, 1);
    lemma_q_sum_step(s, 1, 0, 1, 1, 2, 1, 2);
    lemma_q_sum_step(s, 2, 1, 2, 0, 1, 1, 2);
    lemma_q_sum_step(s, 3, 1, 2, 0, 1, 1, 2);
    lemma_q_sum_step(s, 4, 1, 2, 0, 1, 1, 2);
}

proof fn lemma_rk43_sum_6()
    ensures
        q_eq(q_total(seq![q(0, 1), q(0, 1), q(1, 1), q(0, 1), q(0, 1)]), q(1, 1)),
        q_valid(q_total(seq![q(0, 1), q(0, 1), q(1, 1), q(0, 1), q(0, 1)])),
{
    let s = seq![q(0, 1), q(0, 1), q(1, 1), q(0, 1), q(0, 1)];
    assert(s.len() == 5);
    assert(q_sum_to(s, 0) == q(0, 1));
    lemma_q_eq_value(0, 1, 0, 1);
    lemma_q_sum_step(s, 0, 0, 1, 0, 1, 0, 1);
    lemma_q_sum_step(s, 1, 0, 1, 0, 1, 0, 1);
    lemma_q_sum_step(s, 2, 0, 1, 1, 1, 1, 1);
    lemma_q_sum_step(s, 3, 1, 1, 0, 1, 1, 1);
    lemma_q_sum_step(s, 4, 1, 1, 0, 1, 1, 1);
}

proof fn lemma_rk43_sum_7()
    ensures
        q_eq(q_total(seq![q(0, 1), q(0, 1), q(-1, 2), q(2, 3)]), q(1, 6)),
        q_valid(q_total(seq![q(0, 1), q(0, 1), q(-1, 2), q(2, 3)])),
{
    let s = seq![q(0, 1), q(0, 1), q(-1, 2), q(2, 3)];
    assert(s.len() == 4);
    assert(q_sum_to(s, 0) == q(0, 1));
    lemma_q_eq_value(0, 1, 0, 1);
    lemma_q_sum_step(s, 0, 0, 1, 0, 1, 0, 1);
    lemma_q_sum_step(s, 1, 0, 1, 0, 1, 0, 1);
    lemma_q_sum_step(s, 2, 0, 1, -1, 2, -1, 2);
    lemma_q_sum_step(s, 3, -1, 2, 2, 3, 1, 6);
}

proof fn lemma_rk43_sum_8()
    ensures
        q_eq(q_total(seq![q(5, 32), q(7, 32), q(13, 32), q(-1, 32), q(0, 1)]), q(3, 4)),
        q_valid(q_total(seq![q(5, 32), q(7, 32), q(13, 32), q(-1, 32), q(0, 1)])),
{
    let s = seq![q(5, 32), q(7, 32), q(13, 32), q(-1, 32), q(0, 1)];
    assert(s.len() == 5);
    assert(q_sum_to(s, 0) == q(0, 1));
    lemma_q_eq_value(0, 1, 0, 1);
    lemma_q_sum_step(s, 0, 0, 1, 5, 32, 5, 32);
    lemma_q_sum_step(s, 1, 5, 32, 7, 32, 3, 8);
    lemma_q_sum_step(s, 2, 3, 8, 13, 32, 25, 32);
    lemma_q_sum_step(s, 3, 25, 32, -1, 32, 3, 4);
    lemma_q_sum_step(s, 4, 3, 4, 0, 1, 3, 4);
}

proof fn lemma_rk43_sum_9()
    ensures
        q_eq(q_total(seq![q(0, 1), q(0, 1), q(0, 1), q(0, 1)]), q(0, 1)),
        q_valid(q_total(seq![q(0, 1), q(0, 1), q(0, 1), q(0, 1)])),
{
    let s = seq![q(0, 1), q(0, 1), q(0, 1), q(0, 1)];
    assert(s.len() == 4);
    assert(q_sum_to(s, 0) == q(0, 1));
    lemma_q_eq_value(0, 1, 0, 1);
    lemma_q_sum_step(s, 0, 0, 1, 0, 1, 0, 1);
    lemma_q_sum_step(s, 1, 0, 1, 0, 1, 0, 1);
    lemma_q_sum_step(s, 2, 0, 1, 0, 1, 0, 1);
    lemma_q_sum_step(s, 3, 0, 1, 0, 1, 0, 1);
}

proof fn lemma_rk43_sum_10()
    ensures
        q_eq(q_dot(seq![q(0, 1), q(0, 1), q(0, 1), q(0, 1), q(0, 1)], seq![q(1, 1), q(1, 1), q(1, 1), q(1, 1), q(1, 1)]), q(0, 1)),
        q_valid(q_dot(seq![q(0, 1), q(0, 1), q(0, 1), q(0, 1), q(0, 1)], seq![q(1, 1), q(1, 1), q(1, 1), q(1, 1), q(1, 1)])),
{
    let x = seq![q(0, 1), q(0, 1), q(0, 1), q(0, 1), q(0, 1)];
    let y = seq![q(1, 1), q(1, 1), q(1, 1), q(1, 1), q(1, 1)];
    let s = q_hadamard(x, y);
    assert(s.len() == 5);
    lemma_q_hadamard_entry(x, y, 0, 0, 1, 1, 1);
    lemma_q_hadamard_entry(x, y, 1, 0, 1, 1, 1);
    lemma_q_hadamard_entry(x, y, 2, 0, 1, 1, 1);
    lemma_q_hadamard_entry(x, y, 3, 0, 1, 1, 1);
    lemma_q_hadamard_entry(x, y, 4, 0, 1, 1, 1);
    assert(q_sum_to(s, 0) == q(0, 1));
    lemma_q_eq_value(0, 1, 0, 1);
    lemma_q_sum_step(s, 0, 0, 1, 0, 1, 0, 1);
    lemma_q_sum_step(s, 1, 0, 1, 0, 1, 0, 1);
    lemma_q_sum_step(s, 2, 0, 1, 0, 1, 0, 1);
    lemma_q_sum_step(s, 3, 0, 1, 0, 1, 0, 1);
    lemma_q_sum_step(s, 4, 0, 1, 0, 1, 0, 1);
}

proof fn lemma_rk43_sum_11()
    ensures
        q_eq(q_dot(seq![q(1, 2), q(0, 1), q(0, 1), q(0, 1), q(0, 1)], seq![q(1, 1), q(1, 1), q(1, 1), q(1, 1), q(1, 1)]), q(1, 2)),
        q_valid(q_dot(seq![q(1, 2), q(0, 1), q(0, 1), q(0, 1), q(0, 1)], seq![q(1, 1), q(1, 1), q(1, 1), q(1, 1), q(1, 1)])),
{
    let x = seq![q(1, 2), q(0, 1), q(0, 1), q(0, 1), q(0, 1)];
    let y = seq![q(1, 1), q(1, 1), q(1, 1), q(1, 1), q(1, 1)];
    let s = q_hadamard(x, y);
    assert(s.len() == 5);
    lemma_q_hadamard_entry(x, y, 0, 1, 2, 1, 1);
    lemma_q_hadamard_entry(x, y, 1, 0, 1, 1, 1);
    lemma_q_hadamard_entry(x, y, 2, 0, 1, 1, 1);
    lemma_q_hadamard_entry(x, y, 3, 0, 1, 1, 1);
    lemma_q_hadamard_entry(x, y, 4, 0, 1, 1, 1);
    assert(q_sum_to(s, 0) == q(0, 1));
    lemma_q_eq_value(0, 1, 0, 1);
    lemma_q_sum_step(s, 0, 0, 1, 1, 2, 1, 2);
    lemma_q_sum_step(s, 1, 1, 2, 0, 1, 1, 2);
    lemma_q_sum_step(s, 2, 1, 2, 0, 1, 1, 2);
    lemma_q_sum_step(s, 3, 1, 2, 0, 1, 1, 2);
    lemma_q_sum_step(s, 4, 1, 2, 0, 1, 1, 2);
}

proof fn lemma_rk43_sum_12()
    ensures
        q_eq(q_dot(seq![q(0, 1), q(1, 2), q(0, 1), q(0, 1), q(0, 1)], seq![q(1, 1), q(1, 1), q(1, 1), q(1, 1), q(1, 1)]), q(1, 2)),
        q_valid(q_dot(seq![q(0, 1), q(1, 2), q(0, 1), q(0, 1), q(0, 1)], seq![q(1, 1), q(1, 1), q(1, 1), q(1, 1), q(1, 1)])),
{
    let x = seq![q(0, 1), q(1, 2), q(0, 1), q(0, 1), q(0, 1)];
    let y = seq![q(1, 1), q(1, 1), q(1, 1), q(1, 1), q(1, 1)];
    let s = q_hadamard(x, y);
    assert(s.len() == 5);
    lemma_q_hadamard_entry(x, y, 0, 0, 1, 1, 1);
    lemma_q_hadamard_entry(x, y, 1, 1, 2, 1, 1);
    lemma_q_hadamard_entry(x, y, 2, 0, 1, 1, 1);
    lemma_q_hadamard_entry(x, y, 3, 0, 1, 1, 1);
    lemma_q_hadamard_entry(x, y, 4, 0, 1, 1, 1);
    assert(q_sum_to(s, 0) == q(0, 1));
    lemma_q_eq_value(0, 1, 0, 1);
    lemma_q_sum_step(s, 0, 0, 1, 0, 1, 0, 1);
    lemma_q_sum_step(s, 1, 0, 1, 1, 2, 1, 2);
    lemma_q_sum_step(s, 2, 1, 2, 0, 1, 1, 2);
    lemma_q_sum_step(s, 3, 1, 2, 0, 1, 1, 2);
    lemma_q_sum_step(s, 4, 1, 2, 0, 1, 1, 2);
}

proof fn lemma_rk43_sum_13()
    ensures
        q_eq(q_dot(seq![q(0, 1), q(0, 1), q(1, 1), q(0, 1), q(0, 1)], seq![q(1, 1), q(1, 1), q(1, 1), q(1, 1), q(1, 1)]), q(1, 1)),
        q_valid(q_dot(seq![q(0, 1), q(0, 1), q(1, 1), q(0, 1), q(0, 1)], seq![q(1, 1), q(1, 1), q(1, 1), q(1, 1), q(1, 1)])),
{
    let x = seq![q(0, 1), q(0, 1), q(1, 1), q(0, 1), q(0, 1)];
    let y = seq![q(1, 1), q(1, 1), q(1, 1), q(1, 1), q(1, 1)];
    let s = q_hadamard(x, y);
    assert(s.len() == 5);
    lemma_q_hadamard_entry(x, y, 0, 0, 1, 1, 1);
    lemma_q_hadamard_entry(x, y, 1, 0, 1, 1, 1);
    lemma_q_hadamard_entry(x, y, 2, 1, 1, 1, 1);
    lemma_q_hadamard_entry(x, y, 3, 0, 1, 1, 1);
    lemma_q_hadamard_entry(x, y, 4, 0, 1, 1, 1);
    assert(q_sum_to(s, 0) == q(0, 1));
    lemma_q_eq_value(0, 1, 0, 1);
    lemma_q_sum_step(s, 0, 0, 1, 0, 1, 0, 1);
    lemma_q_sum_step(s, 1, 0, 1, 0, 1, 0, 1);
    lemma_q_sum_step(s, 2, 0, 1, 1, 1, 1, 1);
    lemma_q_sum_step(s, 3, 1, 1, 0, 1, 1, 1);
    lemma_q_sum_step(s, 4, 1, 1, 0, 1, 1, 1);
}

proof fn lemma_rk43_sum_14()
    ensures
        q_eq(q_dot(seq![q(5, 32), q(7, 32), q(13, 32), q(-1, 32), q(0, 1)], seq![q(1, 1), q(1, 1), q(1, 1), q(1, 1), q(1, 1)]), q(3, 4)),
        q_valid(q_dot(seq![q(5, 32), q(7, 32), q(13, 32), q(-1, 32), q(0, 1)], seq![q(1, 1), q(1, 1), q(1, 1), q(1, 1), q(1, 1)])),
{
    let x = seq![q(5, 32), q(7, 32), q(13, 32), q(-1, 32), q(0, 1)];
    let y = seq![q(1, 1), q(1, 1), q(1, 1), q(1, 1), q(1, 1)];
    let s = q_hadamard(x, y);
    assert(s.len() == 5);
    lemma_q_hadamard_entry(x, y, 0, 5, 32, 1, 1);
    lemma_q_hadamard_entry(x, y, 1, 7, 32, 1, 1);
    lemma_q_hadamard_entry(x, y, 2, 13, 32, 1, 1);
    lemma_q_hadamard_entry(x, y, 3, -1, 32, 1, 1);
    lemma_q_hadamard_entry(x, y, 4, 0, 1, 1, 1);
    assert(q_sum_to(s, 0) == q(0, 1));
    lemma_q_eq_value(0, 1, 0, 1);
    lemma_q_sum_step(s, 0, 0, 1, 5, 32, 5, 32);
    lemma_q_sum_step(s, 1, 5, 32, 7, 32, 3, 8);
    lemma_q_sum_step(s, 2, 3, 8, 13, 32, 25, 32);
    lemma_q_sum_step(s, 3, 25, 32, -1, 32, 3, 4);
    lemma_q_sum_step(s, 4, 3, 4, 0, 1, 3, 4);
}

proof fn lemma_rk43_sum_15()
    ensures
        q_eq(q_dot(seq![q(0, 1), q(0, 1), q(0, 1), q(0, 1), q(0, 1)], seq![q(0, 1), q(1, 2), q(1, 2), q(1, 1), q(3, 4)]), q(0, 1)),
        q_valid(q_dot(seq![q(0, 1), q(0, 1), q(0, 1), q(0, 1), q(0, 1)], seq![q(0, 1), q(1, 2), q(1, 2), q(1, 1), q(3, 4)])),
{
    let x = seq![q(0, 1), q(0, 1), q(0, 1), q(0, 1), q(0, 1)];
    let y = seq![q(0, 1), q(1, 2), q(1, 2), q(1, 1), q(3, 4)];
    let s = q_hadamard(x, y);
    assert(s.len() == 5);
    lemma_q_hadamard_entry(x, y, 0, 0, 1, 0, 1);
    lemma_q_hadamard_entry(x, y, 1, 0, 1, 1, 2);
    lemma_q_hadamard_entry(x, y, 2, 0, 1, 1, 2);
    lemma_q_hadamard_entry(x, y, 3, 0, 1, 1, 1);
    lemma_q_hadamard_entry(x, y, 4, 0, 1, 3, 4);
    assert(q_sum_to(s, 0) == q(0, 1));
    lemma_q_eq_value(0, 1, 0, 1);
    lemma_q_sum_step(s, 0, 0, 1, 0, 1, 0, 1);
    lemma_q_sum_step(s, 1, 0, 1, 0, 2, 0, 1);
    lemma_q_sum_step(s, 2, 0, 1, 0, 2, 0, 1);
    lemma_q_sum_step(s, 3, 0, 1, 0, 1, 0, 1);
    lemma_q_sum_step(s, 4, 0, 1, 0, 4, 0, 1);
}

proof fn lemma_rk43_sum_16()
    ensures
        q_eq(q_dot(seq![q(1, 2), q(0, 1), q(0, 1), q(0, 1), q(0, 1)], seq![q(0, 1), q(1, 2), q(1, 2), q(1, 1), q(3, 4)]), q(0, 1)),
        q_valid(q_dot(seq![q(1, 2), q(0, 1), q(0, 1), q(0, 1), q(0, 1)], seq![q(0, 1), q(1, 2), q(1, 2), q(1, 1), q(3, 4)])),
{
    let x = seq![q(1, 2), q(0, 1), q(0, 1), q(0, 1), q(0, 1)];
    let y = seq![q(0, 1), q(1, 2), q(1, 2), q(1, 1), q(3, 4)];
    let s = q_hadamard(x, y);
    assert(s.len() == 5);
    lemma_q_hadamard_entry(x, y, 0, 1, 2, 0, 1);
    lemma_q_hadamard_entry(x, y, 1, 0, 1, 1, 2);
    lemma_q_hadamard_entry(x, y, 2, 0, 1, 1, 2);
    lemma_q_hadamard_entry(x, y, 3, 0, 1, 1, 1);
    lemma_q_hadamard_entry(x, y, 4, 0, 1, 3, 4);
    assert(q_sum_to(s, 0) == q(0, 1));
    lemma_q_eq_value(0, 1, 0, 1);
    lemma_q_sum_step(s, 0, 0, 1, 0, 2, 0, 1);
    lemma_q_sum_step(s, 1, 0, 1, 0, 2, 0, 1);
    lemma_q_sum_step(s, 2, 0, 1, 0, 2, 0, 1);
    lemma_q_sum_step(s, 3, 0, 1, 0, 1, 0, 1);
    lemma_q_sum_step(s, 4, 0, 1, 0, 4, 0, 1);
}

proof fn lemma_rk43_sum_17()
    ensures
        q_eq(q_dot(seq![q(0, 1), q(1, 2), q(0, 1), q(0, 1), q(0, 1)], seq![q(0, 1), q(1, 2), q(1, 2), q(1, 1), q(3, 4)]), q(1, 4)),
        q_valid(q_dot(seq![q(0, 1), q(1, 2), q(0, 1), q(0, 1), q(0, 1)], seq![q(0, 1), q(1, 2), q(1, 2), q(1, 1), q(3, 4)])),
{
    let x = seq![q(0, 1), q(1, 2), q(0, 1), q(0, 1), q(0, 1)];
    let y = seq![q(0, 1), q(1, 2), q(1, 2), q(1, 1), q(3, 4)];
    let s = q_hadamard(x, y);
    assert(s.len() == 5);
    lemma_q_hadamard_entry(x, y, 0, 0, 1, 0, 1);
    lemma_q_hadamard_entry(x, y, 1, 1, 2, 1, 2);
    lemma_q_hadamard_entry(x, y, 2, 0, 1, 1, 2);
    lemma_q_hadamard_entry(x, y, 3, 0, 1, 1, 1);
    lemma_q_hadamard_entry(x, y, 4, 0, 1, 3, 4);
    assert(q_sum_to(s, 0) == q(0, 1));
    lemma_q_eq_value(0, 1, 0, 1);
    lemma_q_sum_step(s, 0, 0, 1, 0, 1, 0, 1);
    lemma_q_sum_step(s, 1, 0, 1, 1, 4, 1, 4);
    lemma_q_sum_step(s, 2, 1, 4, 0, 2, 1, 4);
    lemma_q_sum_step(s, 3, 1, 4, 0, 1, 1, 4);
    lemma_q_sum_step(s, 4, 1, 4, 0, 4, 1, 4);
}

proof fn lemma_rk43_sum_18()
    ensures
        q_eq(q_dot(seq![q(0, 1), q(0, 1), q(1, 1), q(0, 1), q(0, 1)], seq![q(0, 1), q(1, 2), q(1, 2), q(1, 1), q(3, 4)]), q(1, 2)),
        q_valid(q_dot(seq![q(0, 1), q(0, 1), q(1, 1), q(0, 1), q(0, 1)], seq![q(0, 1), q(1, 2), q(1, 2), q(1, 1), q(3, 4)])),
{
    let x = seq![q(0, 1), q(0, 1), q(1, 1), q(0, 1), q(0, 1)];
    let y = seq![q(0, 1), q(1, 2), q(1, 2), q(1, 1), q(3, 4)];
    let s = q_hadamard(x, y);
    assert(s.len() == 5);
    lemma_q_hadamard_entry(x, y, 0, 0, 1, 0, 1);
    lemma_q_hadamard_entry(x, y, 1, 0, 1, 1, 2);
    lemma_q_hadamard_entry(x, y, 2, 1, 1, 1, 2);
    lemma_q_hadamard_entry(x, y, 3, 0, 1, 1, 1);
    lemma_q_hadamard_entry(x, y, 4, 0, 1, 3, 4);
    assert(q_sum_to(s, 0) == q(0, 1));
    lemma_q_eq_value(0, 1, 0, 1);
    lemma_q_sum_step(s, 0, 0, 1, 0, 1, 0, 1);
    lemma_q_sum_step(s, 1, 0, 1, 0, 2, 0, 1);
    lemma_q_sum_step(s, 2, 0, 1, 1, 2, 1, 2);
    lemma_q_sum_step(s, 3, 1, 2, 0, 1, 1, 2);
    lemma_q_sum_step(s, 4, 1, 2, 0, 4, 1, 2);
}

proof fn lemma_rk43_sum_19()
    ensures
        q_eq(q_dot(seq![q(5, 32), q(7, 32), q(13, 32), q(-1, 32), q(0, 1)], seq![q(0, 1), q(1, 2), q(1, 2), q(1, 1), q(3, 4)]), q(9, 32)),
        q_valid(q_dot(seq![q(5, 32), q(7, 32), q(13, 32), q(-1, 32), q(0, 1)], seq![q(0, 1), q(1, 2), q(1, 2), q(1, 1), q(3, 4)])),
{
    let x = seq![q(5, 32), q(7, 32), q(13, 32), q(-1, 32), q(0, 1)];
    let y = seq![q(0, 1), q(1, 2), q(1, 2), q(1, 1), q(3, 4)];
    let s = q_hadamard(x, y);
    assert(s.len() == 5);
    lemma_q_hadamard_entry(x, y, 0, 5, 32, 0, 1);
    lemma_q_hadamard_entry(x, y, 1, 7, 32, 1, 2);
    lemma_q_hadamard_entry(x, y, 2, 13, 32, 1, 2);
    lemma_q_hadamard_entry(x, y, 3, -1, 32, 1, 1);
    lemma_q_hadamard_entry(x, y, 4, 0, 1, 3, 4);
    assert(q_sum_to(s, 0) == q(0, 1));
    lemma_q_eq_value(0, 1, 0, 1);
    lemma_q_sum_step(s, 0, 0, 1, 0, 32, 0, 1);
    lemma_q_sum_step(s, 1, 0, 1, 7, 64, 7, 64);
    lemma_q_sum_step(s, 2, 7, 64, 13, 64, 5, 16);
    lemma_q_sum_step(s, 3, 5, 16, -1, 32, 9, 32);
    lemma_q_sum_step(s, 4, 9, 32, 0, 4, 9, 32);
}

proof fn lemma_rk43_sum_20()
    ensures
        q_eq(q_dot(seq![q(0, 1), q(0, 1), q(0, 1), q(0, 1), q(0, 1)], seq![q(0, 1), q(1, 4), q(1, 4), q(1, 1), q(9, 16)]), q(0, 1)),
        q_valid(q_dot(seq![q(0, 1), q(0, 1), q(0, 1), q(0, 1), q(0, 1)], seq![q(0, 1), q(1, 4), q(1, 4), q(1, 1), q(9, 16)])),
{
    let x = seq![q(0, 1), q(0, 1), q(0, 1), q(0, 1), q(0, 1)];
    let y = seq![q(0, 1), q(1, 4), q(1, 4), q(1, 1), q(9, 16)];
    let s = q_hadamard(x, y);
    assert(s.len() == 5);
    lemma_q_hadamard_entry(x, y, 0, 0, 1, 0, 1);
    lemma_q_hadamard_entry(x, y, 1, 0, 1, 1, 4);
    lemma_q_hadamard_entry(x, y, 2, 0, 1, 1, 4);
    lemma_q_hadamard_entry(x, y, 3, 0, 1, 1, 1);
    lemma_q_hadamard_entry(x, y, 4, 0, 1, 9, 16);
    assert(q_sum_to(s, 0) == q(0, 1));
    lemma_q_eq_value(0, 1, 0, 1);
    lemma_q_sum_step(s, 0, 0, 1, 0, 1, 0, 1);
    lemma_q_sum_step(s, 1, 0, 1, 0, 4, 0, 1);
    lemma_q_sum_step(s, 2, 0, 1, 0, 4, 0, 1);
    lemma_q_sum_step(s, 3, 0, 1, 0, 1, 0, 1);
    lemma_q_sum_step(s, 4, 0, 1, 0, 16, 0, 1);
}

proof fn lemma_rk43_sum_21()
    ensures
        q_eq(q_dot(seq![q(1, 2), q(0, 1), q(0, 1), q(0, 1), q(0, 1)], seq![q(0, 1), q(1, 4), q(1, 4), q(1, 1), q(9, 16)]), q(0, 1)),
        q_valid(q_dot(seq![q(1, 2), q(0, 1), q(0, 1), q(0, 1), q(0, 1)], seq![q(0, 1), q(1, 4), q(1, 4), q(1, 1), q(9, 16)])),
{
    let x = seq![q(1, 2), q(0, 1), q(0, 1), q(0, 1), q(0, 1)];
    let y = seq![q(0, 1), q(1, 4), q(1, 4), q(1, 1), q(9, 16)];
    let s = q_hadamard(x, y);
    assert(s.len() == 5);
    lemma_q_hadamard_entry(x, y, 0, 1, 2, 0, 1);
    lemma_q_hadamard_entry(x, y, 1, 0, 1, 1, 4);
    lemma_q_hadamard_entry(x, y, 2, 0, 1, 1, 4);
    lemma_q_hadamard_entry(x, y, 3, 0, 1, 1, 1);
    lemma_q_hadamard_entry(x, y, 4, 0, 1, 9, 16);
    assert(q_sum_to(s, 0) == q(0, 1));
    lemma_q_eq_value(0, 1, 0, 1);
    lemma_q_sum_step(s, 0, 0, 1, 0, 2, 0, 1);
    lemma_q_sum_step(s, 1, 0, 1, 0, 4, 0, 1);
    lemma_q_sum_step(s, 2, 0, 1, 0, 4, 0, 1);
    lemma_q_sum_step(s, 3, 0, 1, 0, 1, 0, 1);
    lemma_q_sum_step(s, 4, 0, 1, 0, 16, 0, 1);
}

proof fn lemma_rk43_sum_22()
    ensures
        q_eq(q_dot(seq![q(0, 1), q(1, 2), q(0, 1), q(0, 1), q(0, 1)], seq![q(0, 1), q(1, 4), q(1, 4), q(1, 1), q(9, 16)]), q(1, 8)),
        q_valid(q_dot(seq![q(0, 1), q(1, 2), q(0, 1), q(0, 1), q(0, 1)], seq![q(0, 1), q(1, 4), q(1, 4), q(1, 1), q(9, 16)])),
{
    let x = seq![q(0, 1), q(1, 2), q(0, 1), q(0, 1), q(0, 1)];
    let y = seq![q(0, 1), q(1, 4), q(1, 4), q(1, 1), q(9, 16)];
    let s = q_hadamard(x, y);
    assert(s.len() == 5);
    lemma_q_hadamard_entry(x, y, 0, 0, 1, 0, 1);
    lemma_q_hadamard_entry(x, y, 1, 1, 2, 1, 4);
    lemma_q_hadamard_entry(x, y, 2, 0, 1, 1, 4);
    lemma_q_hadamard_entry(x, y, 3, 0, 1, 1, 1);
    lemma_q_hadamard_entry(x, y, 4, 0, 1, 9, 16);
    assert(q_sum_to(s, 0) == q(0, 1));
    lemma_q_eq_value(0, 1, 0, 1);
    lemma_q_sum_step(s, 0, 0, 1, 0, 1, 0, 1);
    lemma_q_sum_step(s, 1, 0, 1, 1, 8, 1, 8);
    lemma_q_sum_step(s, 2, 1, 8, 0, 4, 1, 8);
    lemma_q_sum_step(s, 3, 1, 8, 0, 1, 1, 8);
    lemma_q_sum_step(s, 4, 1, 8, 0, 16, 1, 8);
}

proof fn lemma_rk43_sum_23()
    ensures
        q_eq(q_dot(seq![q(0, 1), q(0, 1), q(1, 1), q(0, 1), q(0, 1)], seq![q(0, 1), q(1, 4), q(1, 4), q(1, 1), q(9, 16)]), q(1, 4)),
        q_valid(q_dot(seq![q(0, 1), q(0, 1), q(1, 1), q(0, 1), q(0, 1)], seq![q(0, 1), q(1, 4), q(1, 4), q(1, 1), q(9, 16)])),
{
    let x = seq![q(0, 1), q(0, 1), q(1, 1), q(0, 1), q(0, 1)];
    let y = seq![q(0, 1), q(1, 4), q(1, 4), q(1, 1), q(9, 16)];
    let s = q_hadamard(x, y);
    assert(s.len() == 5);
    lemma_q_hadamard_entry(x, y, 0, 0, 1, 0, 1);
    lemma_q_hadamard_entry(x, y, 1, 0, 1, 1, 4);
    lemma_q_hadamard_entry(x, y, 2, 1, 1, 1, 4);
    lemma_q_hadamard_entry(x, y, 3, 0, 1, 1, 1);
    lemma_q_hadamard_entry(x, y, 4, 0, 1, 9, 16);
    assert(q_sum_to(s, 0) == q(0, 1));
    lemma_q_eq_value(0, 1, 0, 1);
    lemma_q_sum_step(s, 0, 0, 1, 0, 1, 0, 1);
    lemma_q_sum_step(s, 1, 0, 1, 0, 4, 0, 1);
    lemma_q_sum_step(s, 2, 0, 1, 1, 4, 1, 4);
    lemma_q_sum_step(s, 3, 1, 4, 0, 1, 1, 4);
    lemma_q_sum_step(s, 4, 1, 4, 0, 16, 1, 4);
}

proof fn lemma_rk43_sum_24()
    ensures
        q_eq(q_dot(seq![q(5, 32), q(7, 32), q(13, 32), q(-1, 32), q(0, 1)], seq![q(0, 1), q(1, 4), q(1, 4), q(1, 1), q(9, 16)]), q(1, 8)),
        q_valid(q_dot(seq![q(5, 32), q(7, 32), q(13, 32), q(-1, 32), q(0, 1)], seq![q(0, 1), q(1, 4), q(1, 4), q(1, 1), q(9, 16)])),
{
    let x = seq![q(5, 32), q(7, 32), q(13, 32), q(-1, 32), q(0, 1)];
    let y = seq![q(0, 1), q(1, 4), q(1, 4), q(1, 1), q(9, 16)];
    let s = q_hadamard(x, y);
    assert(s.len() == 5);
    lemma_q_hadamard_entry(x, y, 0, 5, 32, 0, 1);
    lemma_q_hadamard_entry(x, y, 1, 7, 32, 1, 4);
    lemma_q_hadamard_entry(x, y, 2, 13, 32, 1, 4);
    lemma_q_hadamard_entry(x, y, 3, -1, 32, 1, 1);
    lemma_q_hadamard_entry(x, y, 4, 0, 1, 9, 16);
    assert(q_sum_to(s, 0) == q(0, 1));
    lemma_q_eq_value(0, 1, 0, 1);
    lemma_q_sum_step(s, 0, 0, 1, 0, 32, 0, 1);
    lemma_q_sum_step(s, 1, 0, 1, 7, 128, 7, 128);
    lemma_q_sum_step(s, 2, 7, 128, 13, 128, 5, 32);
    lemma_q_sum_step(s, 3, 5, 32, -1, 32, 1, 8);
    lemma_q_sum_step(s, 4, 1, 8, 0, 16, 1, 8);
}

proof fn lemma_rk43_sum_25()
    ensures
        q_eq(q_dot(seq![q(0, 1), q(0, 1), q(0, 1), q(0, 1), q(0, 1)], seq![q(0, 1), q(0, 1), q(1, 4), q(1, 2), q(9, 32)]), q(0, 1)),
        q_valid(q_dot(seq![q(0, 1), q(0, 1), q(0, 1), q(0, 1), q(0, 1)], seq![q(0, 1), q(0, 1), q(1, 4), q(1, 2), q(9, 32)])),
{
    let x = seq![q(0, 1), q(0, 1), q(0, 1), q(0, 1), q(0, 1)];
    let y = seq![q(0, 1), q(0, 1), q(1, 4), q(1, 2), q(9, 32)];
    let s = q_hadamard(x, y);
    assert(s.len() == 5);
    lemma_q_hadamard_entry(x, y, 0, 0, 1, 0, 1);
    lemma_q_hadamard_entry(x, y, 1, 0, 1, 0, 1);
    lemma_q_hadamard_entry(x, y, 2, 0, 1, 1, 4);
    lemma_q_hadamard_entry(x, y, 3, 0, 1, 1, 2);
    lemma_q_hadamard_entry(x, y, 4, 0, 1, 9, 32);
    assert(q_sum_to(s, 0) == q(0, 1));
    lemma_q_eq_value(0, 1, 0, 1);
    lemma_q_sum_step(s, 0, 0, 1, 0, 1, 0, 1);
    lemma_q_sum_step(s, 1, 0, 1, 0, 1, 0, 1);
    lemma_q_sum_step(s, 2, 0, 1, 0, 4, 0, 1);
    lemma_q_sum_step(s, 3, 0, 1, 0, 2, 0, 1);
    lemma_q_sum_step(s, 4, 0, 1, 0, 32, 0, 1);
}

proof fn lemma_rk43_sum_26()
    ensures
        q_eq(q_dot(seq![q(1, 2), q(0, 1), q(0, 1), q(0, 1), q(0, 1)], seq![q(0, 1), q(0, 1), q(1, 4), q(1, 2), q(9, 32)]), q(0, 1)),
        q_valid(q_dot(seq![q(1, 2), q(0, 1), q(0, 1), q(0, 1), q(0, 1)], seq![q(0, 1), q(0, 1), q(1, 4), q(1, 2), q(9, 32)])),
{
    let x = seq![q(1, 2), q(0, 1), q(0, 1), q(0, 1), q(0, 1)];
    let y = seq![q(0, 1), q(0, 1), q(1, 4), q(1, 2), q(9, 32)];
    let s = q_hadamard(x, y);
    assert(s.len() == 5);
    lemma_q_hadamard_entry(x, y, 0, 1, 2, 0, 1);
    lemma_q_hadamard_entry(x, y, 1, 0, 1, 0, 1);
    lemma_q_hadamard_entry(x, y, 2, 0, 1, 1, 4);
    lemma_q_hadamard_entry(x, y, 3, 0, 1, 1, 2);
    lemma_q_hadamard_entry(x, y, 4, 0, 1, 9, 32);
    assert(q_sum_to(s, 0) == q(0, 1));
    lemma_q_eq_value(0, 1, 0, 1);
    lemma_q_sum_step(s, 0, 0, 1, 0, 2, 0, 1);
    lemma_q_sum_step(s, 1, 0, 1, 0, 1, 0, 1);
    lemma_q_sum_step(s, 2, 0, 1, 0, 4, 0, 1);
    lemma_q_sum_step(s, 3, 0, 1, 0, 2, 0, 1);
    lemma_q_sum_step(s, 4, 0, 1, 0, 32, 0, 1);
}

proof fn lemma_rk43_sum_27()
    ensures
        q_eq(q_dot(seq![q(0, 1), q(1, 2), q(0, 1), q(0, 1), q(0, 1)], seq![q(0, 1), q(0, 1), q(1, 4), q(1, 2), q(9, 32)]), q(0, 1)),
        q_valid(q_dot(seq![q(0, 1), q(1, 2), q(0, 1), q(0, 1), q(0, 1)], seq![q(0, 1), q(0, 1), q(1, 4), q(1, 2), q(9, 32)])),
{
    let x = seq![q(0, 1), q(1, 2), q(0, 1), q(0, 1), q(0, 1)];
    let y = seq![q(0, 1), q(0, 1), q(1, 4), q(1, 2), q(9, 32)];
    let s = q_hadamard(x, y);
    assert(s.len() == 5);
    lemma_q_hadamard_entry(x, y, 0, 0, 1, 0, 1);
    lemma_q_hadamard_entry(x, y, 1, 1, 2, 0, 1);
    lemma_q_hadamard_entry(x, y, 2, 0, 1, 1, 4);
    lemma_q_hadamard_entry(x, y, 3, 0, 1, 1, 2);
    lemma_q_hadamard_entry(x, y, 4, 0, 1, 9, 32);
    assert(q_sum_to(s, 0) == q(0, 1));
    lemma_q_eq_value(0, 1, 0, 1);
    lemma_q_sum_step(s, 0, 0, 1, 0, 1, 0, 1);
    lemma_q_sum_step(s, 1, 0, 1, 0, 2, 0, 1);
    lemma_q_sum_step(s, 2, 0, 1, 0, 4, 0, 1);
    lemma_q_sum_step(s, 3, 0, 1, 0, 2, 0, 1);
    lemma_q_sum_step(s, 4, 0, 1, 0, 32, 0, 1);
}

proof fn lemma_rk43_sum_28()
    ensures
        q_eq(q_dot(seq![q(0, 1), q(0, 1), q(1, 1), q(0, 1), q(0, 1)], seq![q(0, 1), q(0, 1), q(1, 4), q(1, 2), q(9, 32)]), q(1, 4)),
        q_valid(q_dot(seq![q(0, 1), q(0, 1), q(1, 1), q(0, 1), q(0, 1)], seq![q(0, 1), q(0, 1), q(1, 4), q(1, 2), q(9, 32)])),
{
    let x = seq![q(0, 1), q(0, 1), q(1, 1), q(0, 1), q(0, 1)];
    let y = seq![q(0, 1), q(0, 1), q(1, 4), q(1, 2), q(9, 32)];
    let s = q_hadamard(x, y);
    assert(s.len() == 5);
    lemma_q_hadamard_entry(x, y, 0, 0, 1, 0, 1);
    lemma_q_hadamard_entry(x, y, 1, 0, 1, 0, 1);
    lemma_q_hadamard_entry(x, y, 2, 1, 1, 1, 4);
    lemma_q_hadamard_entry(x, y, 3, 0, 1, 1, 2);
    lemma_q_hadamard_entry(x, y, 4, 0, 1, 9, 32);
    assert(q_sum_to(s, 0) == q(0, 1));
    lemma_q_eq_value(0, 1, 0, 1);
    lemma_q_sum_step(s, 0, 0, 1, 0, 1, 0, 1);
    lemma_q_sum_step(s, 1, 0, 1, 0, 1, 0, 1);
    lemma_q_sum_step(s, 2, 0, 1, 1, 4, 1, 4);
    lemma_q_sum_step(s, 3, 1, 4, 0, 2, 1, 4);
    lemma_q_sum_step(s, 4, 1, 4, 0, 32, 1, 4);
}

proof fn lemma_rk43_sum_29()
    ensures
        q_eq(q_dot(seq![q(5, 32), q(7, 32), q(13, 32), q(-1, 32), q(0, 1)], seq![q(0, 1), q(0, 1), q(1, 4), q(1, 2), q(9, 32)]), q(11, 128)),
        q_valid(q_dot(seq![q(5, 32), q(7, 32), q(13, 32), q(-1, 32), q(0, 1)], seq![q(0, 1), q(0, 1), q(1, 4), q(1, 2), q(9, 32)])),
{
    let x = seq![q(5, 32), q(7, 32), q(13, 32), q(-1, 32), q(0, 1)];
    let y = seq![q(0, 1), q(0, 1), q(1, 4), q(1, 2), q(9, 32)];
    let s = q_hadamard(x, y);
    assert(s.len() == 5);
    lemma_q_hadamard_entry(x, y, 0, 5, 32, 0, 1);
    lemma_q_hadamard_entry(x, y, 1, 7, 32, 0, 1);
    lemma_q_hadamard_entry(x, y, 2, 13, 32, 1, 4);
    lemma_q_hadamard_entry(x, y, 3, -1, 32, 1, 2);
    lemma_q_hadamard_entry(x, y, 4, 0, 1, 9, 32);
    assert(q_sum_to(s, 0) == q(0, 1));
    lemma_q_eq_value(0, 1, 0, 1);
    lemma_q_sum_step(s, 0, 0, 1, 0, 32, 0, 1);
    lemma_q_sum_step(s, 1, 0, 1, 0, 32, 0, 1);
    lemma_q_sum_step(s, 2, 0, 1, 13, 128, 13, 128);
    lemma_q_sum_step(s, 3, 13, 128, -1, 64, 11, 128);
    lemma_q_sum_step(s, 4, 11, 128, 0, 32, 11, 128);
}

proof fn lemma_rk43_sum_30()
    ensures
        q_eq(q_dot(seq![q(1, 6), q(1, 3), q(1, 3), q(1, 6), q(0, 1)], seq![q(1, 1), q(1, 1), q(1, 1), q(1, 1), q(1, 1)]), q(1, 1)),
        q_valid(q_dot(seq![q(1, 6), q(1, 3), q(1, 3), q(1, 6), q(0, 1)], seq![q(1, 1), q(1, 1), q(1, 1), q(1, 1), q(1, 1)])),
{
    let x = seq![q(1, 6), q(1, 3), q(1, 3), q(1, 6), q(0, 1)];
    let y = seq![q(1, 1), q(1, 1), q(1, 1), q(1, 1), q(1, 1)];
    let s = q_hadamard(x, y);
    assert(s.len() == 5);
    lemma_q_hadamard_entry(x, y, 0, 1, 6, 1, 1);
    lemma_q_hadamard_entry(x, y, 1, 1, 3, 1, 1);
    lemma_q_hadamard_entry(x, y, 2, 1, 3, 1, 1);
    lemma_q_hadamard_entry(x, y, 3, 1, 6, 1, 1);
    lemma_q_hadamard_entry(x, y, 4, 0, 1, 1, 1);
    assert(q_sum_to(s, 0) == q(0, 1));
    lemma_q_eq_value(0, 1, 0, 1);
    lemma_q_sum_step(s, 0, 0, 1, 1, 6, 1, 6);
    lemma_q_sum_step(s, 1, 1, 6, 1, 3, 1, 2);
    lemma_q_sum_step(s, 2, 1, 2, 1, 3, 5, 6);
    lemma_q_sum_step(s, 3, 5, 6, 1, 6, 1, 1);
    lemma_q_sum_step(s, 4, 1, 1, 0, 1, 1, 1);
}

proof fn lemma_rk43_sum_31()
    ensures
        q_eq(q_dot(seq![q(1, 6), q(1, 3), q(1, 3), q(1, 6), q(0, 1)], seq![q(0, 1), q(1, 2), q(1, 2), q(1, 1), q(3, 4)]), q(1, 2)),
        q_valid(q_dot(seq![q(1, 6), q(1, 3), q(1, 3), q(1, 6), q(0, 1)], seq![q(0, 1), q(1, 2), q(1, 2), q(1, 1), q(3, 4)])),
{
    let x = seq![q(1, 6), q(1, 3), q(1, 3), q(1, 6), q(0, 1)];
    let y = seq![q(0, 1), q(1, 2), q(1, 2), q(1, 1), q(3, 4)];
    let s = q_hadamard(x, y);
    assert(s.len() == 5);
    lemma_q_hadamard_entry(x, y, 0, 1, 6, 0, 1);
    lemma_q_hadamard_entry(x, y, 1, 1, 3, 1, 2);
    lemma_q_hadamard_entry(x, y, 2, 1, 3, 1, 2);
    lemma_q_hadamard_entry(x, y, 3, 1, 6, 1, 1);
    lemma_q_hadamard_entry(x, y, 4, 0, 1, 3, 4);
    assert(q_sum_to(s, 0) == q(0, 1));
    lemma_q_eq_value(0, 1, 0, 1);
    lemma_q_sum_step(s, 0, 0, 1, 0, 6, 0, 1);
    lemma_q_sum_step(s, 1, 0, 1, 1, 6, 1, 6);
    lemma_q_sum_step(s, 2, 1, 6, 1, 6, 1, 3);
    lemma_q_sum_step(s, 3, 1, 3, 1, 6, 1, 2);
    lemma_q_sum_step(s, 4, 1, 2, 0, 4, 1, 2);
}

proof fn lemma_rk43_sum_32()
    ensures
        q_eq(q_dot(seq![q(1, 6), q(1, 3), q(1, 3), q(1, 6), q(0, 1)], seq![q(0, 1), q(1, 4), q(1, 4), q(1, 1), q(9, 16)]), q(1, 3)),
        q_valid(q_dot(seq![q(1, 6), q(1, 3), q(1, 3), q(1, 6), q(0, 1)], seq![q(0, 1), q(1, 4), q(1, 4), q(1, 1), q(9, 16)])),
{
    let x = seq![q(1, 6), q(1, 3), q(1, 3), q(1, 6), q(0, 1)];
    let y = seq![q(0, 1), q(1, 4), q(1, 4), q(1, 1), q(9, 16)];
    let s = q_hadamard(x, y);
    assert(s.len() == 5);
    lemma_q_hadamard_entry(x, y, 0, 1, 6, 0, 1);
    lemma_q_hadamard_entry(x, y, 1, 1, 3, 1, 4);
    lemma_q_hadamard_entry(x, y, 2, 1, 3, 1, 4);
    lemma_q_hadamard_entry(x, y, 3, 1, 6, 1, 1);
    lemma_q_hadamard_entry(x, y, 4, 0, 1, 9, 16);
    assert(q_sum_to(s, 0) == q(0, 1));
    lemma_q_eq_value(0, 1, 0, 1);
    lemma_q_sum_step(s, 0, 0, 1, 0, 6, 0, 1);
    lemma_q_sum_step(s, 1, 0, 1, 1, 12, 1, 12);
    lemma_q_sum_step(s, 2, 1, 12, 1, 12, 1, 6);
    lemma_q_sum_step(s, 3, 1, 6, 1, 6, 1, 3);
    lemma_q_sum_step(s, 4, 1, 3, 0, 16, 1, 3);
}

proof fn lemma_rk43_sum_33()
    ensures
        q_eq(q_dot(seq![q(1, 6), q(1, 3), q(1, 3), q(1, 6), q(0, 1)], seq![q(0, 1), q(0, 1), q(1, 4), q(1, 2), q(9, 32)]), q(1, 6)),
        q_valid(q_dot(seq![q(1, 6), q(1, 3), q(1, 3), q(1, 6), q(0, 1)], seq![q(0, 1), q(0, 1), q(1, 4), q(1, 2), q(9, 32)])),
{
    let x = seq![q(1, 6), q(1, 3), q(1, 3), q(1, 6), q(0, 1)];
    let y = seq![q(0, 1), q(0, 1), q(1, 4), q(1, 2), q(9, 32)];
    let s = q_hadamard(x, y);
    assert(s.len() == 5);
    lemma_q_hadamard_entry(x, y, 0, 1, 6, 0, 1);
    lemma_q_hadamard_entry(x, y, 1, 1, 3, 0, 1);
    lemma_q_hadamard_entry(x, y, 2, 1, 3, 1, 4);
    lemma_q_hadamard_entry(x, y, 3, 1, 6, 1, 2);
    lemma_q_hadamard_entry(x, y, 4, 0, 1, 9, 32);
    assert(q_sum_to(s, 0) == q(0, 1));
    lemma_q_eq_value(0, 1, 0, 1);
    lemma_q_sum_step(s, 0, 0, 1, 0, 6, 0, 1);
    lemma_q_sum_step(s, 1, 0, 1, 0, 3, 0, 1);
    lemma_q_sum_step(s, 2, 0, 1, 1, 12, 1, 12);
    lemma_q_sum_step(s, 3, 1, 12, 1, 12, 1, 6);
    lemma_q_sum_step(s, 4, 1, 6, 0, 32, 1, 6);
}

proof fn lemma_rk43_sum_34()
    ensures
        q_eq(q_dot(seq![q(1, 6), q(1, 3), q(1, 3), q(1, 6), q(0, 1)], seq![q(0, 1), q(1, 8), q(1, 8), q(1, 1), q(27, 64)]), q(1, 4)),
        q_valid(q_dot(seq![q(1, 6), q(1, 3), q(1, 3), q(1, 6), q(0, 1)], seq![q(0, 1), q(1, 8), q(1, 8), q(1, 1), q(27, 64)])),
{
    let x = seq![q(1, 6), q(1, 3), q(1, 3), q(1, 6), q(0, 1)];
    let y = seq![q(0, 1), q(1, 8), q(1, 8), q(1, 1), q(27, 64)];
    let s = q_hadamard(x, y);
    assert(s.len() == 5);
    lemma_q_hadamard_entry(x, y, 0, 1, 6, 0, 1);
    lemma_q_hadamard_entry(x, y, 1, 1, 3, 1, 8);
    lemma_q_hadamard_entry(x, y, 2, 1, 3, 1, 8);
    lemma_q_hadamard_entry(x, y, 3, 1, 6, 1, 1);
    lemma_q_hadamard_entry(x, y, 4, 0, 1, 27, 64);
    assert(q_sum_to(s, 0) == q(0, 1));
    lemma_q_eq_value(0, 1, 0, 1);
    lemma_q_sum_step(s, 0, 0, 1, 0, 6, 0, 1);
    lemma_q_sum_step(s, 1, 0, 1, 1, 24, 1, 24);
    lemma_q_sum_step(s, 2, 1, 24, 1, 24, 1, 12);
    lemma_q_sum_step(s, 3, 1, 12, 1, 6, 1, 4);
    lemma_q_sum_step(s, 4, 1, 4, 0, 64, 1, 4);
}

proof fn lemma_rk43_sum_35()
    ensures
        q_eq(q_dot(seq![q(1, 6), q(1, 3), q(1, 3), q(1, 6), q(0, 1)], seq![q(0, 1), q(0, 1), q(1, 8), q(1, 2), q(27, 128)]), q(1, 8)),
        q_valid(q_dot(seq![q(1, 6), q(1, 3), q(1, 3), q(1, 6), q(0, 1)], seq![q(0, 1), q(0, 1), q(1, 8), q(1, 2), q(27, 128)])),
{
    let x = seq![q(1, 6), q(1, 3), q(1, 3), q(1, 6), q(0, 1)];
    let y = seq![q(0, 1), q(0, 1), q(1, 8), q(1, 2), q(27, 128)];
    let s = q_hadamard(x, y);
    assert(s.len() == 5);
    lemma_q_hadamard_entry(x, y, 0, 1, 6, 0, 1);
    lemma_q_hadamard_entry(x, y, 1, 1, 3, 0, 1);
    lemma_q_hadamard_entry(x, y, 2, 1, 3, 1, 8);
    lemma_q_hadamard_entry(x, y, 3, 1, 6, 1, 2);
    lemma_q_hadamard_entry(x, y, 4, 0, 1, 27, 128);
    assert(q_sum_to(s, 0) == q(0, 1));
    lemma_q_eq_value(0, 1, 0, 1);
    lemma_q_sum_step(s, 0, 0, 1, 0, 6, 0, 1);
    lemma_q_sum_step(s, 1, 0, 1, 0, 3, 0, 1);
    lemma_q_sum_step(s, 2, 0, 1, 1, 24, 1, 24);
    lemma_q_sum_step(s, 3, 1, 24, 1, 12, 1, 8);
    lemma_q_sum_step(s, 4, 1, 8, 0, 128, 1, 8);
}

proof fn lemma_rk43_sum_36()
    ensures
        q_eq(q_dot(seq![q(1, 6), q(1, 3), q(1, 3), q(1, 6), q(0, 1)], seq![q(0, 1), q(0, 1), q(1, 8), q(1, 4), q(1, 8)]), q(1, 12)),
        q_valid(q_dot(seq![q(1, 6), q(1, 3), q(1, 3), q(1, 6), q(0, 1)], seq![q(0, 1), q(0, 1), q(1, 8), q(1, 4), q(1, 8)])),
{
    let x = seq![q(1, 6), q(1, 3), q(1, 3), q(1, 6), q(0, 1)];
    let y = seq![q(0, 1), q(0, 1), q(1, 8), q(1, 4), q(1, 8)];
    let s = q_hadamard(x, y);
    assert(s.len() == 5);
    lemma_q_hadamard_entry(x, y, 0, 1, 6, 0, 1);
    lemma_q_hadamard_entry(x, y, 1, 1, 3, 0, 1);
    lemma_q_hadamard_entry(x, y, 2, 1, 3, 1, 8);
    lemma_q_hadamard_entry(x, y, 3, 1, 6, 1, 4);
    lemma_q_hadamard_entry(x, y, 4, 0, 1, 1, 8);
    assert(q_sum_to(s, 0) == q(0, 1));
    lemma_q_eq_value(0, 1, 0, 1);
    lemma_q_sum_step(s, 0, 0, 1, 0, 6, 0, 1);
    lemma_q_sum_step(s, 1, 0, 1, 0, 3, 0, 1);
    lemma_q_sum_step(s, 2, 0, 1, 1, 24, 1, 24);
    lemma_q_sum_step(s, 3, 1, 24, 1, 24, 1, 12);
    lemma_q_sum_step(s, 4, 1, 12, 0, 8, 1, 12);
}

proof fn lemma_rk43_sum_37()
    ensures
        q_eq(q_dot(seq![q(1, 6), q(1, 3), q(1, 3), q(1, 6), q(0, 1)], seq![q(0, 1), q(0, 1), q(0, 1), q(1, 4), q(11, 128)]), q(1, 24)),
        q_valid(q_dot(seq![q(1, 6), q(1, 3), q(1, 3), q(1, 6), q(0, 1)], seq![q(0, 1), q(0, 1), q(0, 1), q(1, 4), q(11, 128)])),
{
    let x = seq![q(1, 6), q(1, 3), q(1, 3), q(1, 6), q(0, 1)];
    let y = seq![q(0, 1), q(0, 1), q(0, 1), q(1, 4), q(11, 128)];
    let s = q_hadamard(x, y);
    assert(s.len() == 5);
    lemma_q_hadamard_entry(x, y, 0, 1, 6, 0, 1);
    lemma_q_hadamard_entry(x, y, 1, 1, 3, 0, 1);
    lemma_q_hadamard_entry(x, y, 2, 1, 3, 0, 1);
    lemma_q_hadamard_entry(x, y, 3, 1, 6, 1, 4);
    lemma_q_hadamard_entry(x, y, 4, 0, 1, 11, 128);
    assert(q_sum_to(s, 0) == q(0, 1));
    lemma_q_eq_value(0, 1, 0, 1);
    lemma_q_sum_step(s, 0, 0, 1, 0, 6, 0, 1);
    lemma_q_sum_step(s, 1, 0, 1, 0, 3, 0, 1);
    lemma_q_sum_step(s, 2, 0, 1, 0, 3, 0, 1);
    lemma_q_sum_step(s, 3, 0, 1, 1, 24, 1, 24);
    lemma_q_sum_step(s, 4, 1, 24, 0, 128, 1, 24);
}

proof fn lemma_rk43_sum_38()
    ensures
        q_eq(q_dot(seq![q(-1, 2), q(7, 3), q(7, 3), q(13, 6), q(-16, 3)], seq![q(1, 1), q(1, 1), q(1, 1), q(1, 1), q(1, 1)]), q(1, 1)),
        q_valid(q_dot(seq![q(-1, 2), q(7, 3), q(7, 3), q(13, 6), q(-16, 3)], seq![q(1, 1), q(1, 1), q(1, 1), q(1, 1), q(1, 1)])),
{
    let x = seq![q(-1, 2), q(7, 3), q(7, 3), q(13, 6), q(-16, 3)];
    let y = seq![q(1, 1), q(1, 1), q(1, 1), q(1, 1), q(1, 1)];
    let s = q_hadamard(x, y);
    assert(s.len() == 5);
    lemma_q_hadamard_entry(x, y, 0, -1, 2, 1, 1);
    lemma_q_hadamard_entry(x, y, 1, 7, 3, 1, 1);
    lemma_q_hadamard_entry(x, y, 2, 7, 3, 1, 1);
    lemma_q_hadamard_entry(x, y, 3, 13, 6, 1, 1);
    lemma_q_hadamard_entry(x, y, 4, -16, 3, 1, 1);
    assert(q_sum_to(s, 0) == q(0, 1));
    lemma_q_eq_value(0, 1, 0, 1);
    lemma_q_sum_step(s, 0, 0, 1, -1, 2, -1, 2);
    lemma_q_sum_step(s, 1, -1, 2, 7, 3, 11, 6);
    lemma_q_sum_step(s, 2, 11, 6, 7, 3, 25, 6);
    lemma_q_sum_step(s, 3, 25, 6, 13, 6, 19, 3);
    lemma_q_sum_step(s, 4, 19, 3, -16, 3, 1, 1);
}

proof fn lemma_rk43_sum_39()
    ensures
        q_eq(q_dot(seq![q(-1, 2), q(7, 3), q(7, 3), q(13, 6), q(-16, 3)], seq![q(0, 1), q(1, 2), q(1, 2), q(1, 1), q(3, 4)]), q(1, 2)),
        q_valid(q_dot(seq![q(-1, 2), q(7, 3), q(7, 3), q(13, 6), q(-16, 3)], seq![q(0, 1), q(1, 2), q(1, 2), q(1, 1), q(3, 4)])),
{
    let x = seq![q(-1, 2), q(7, 3), q(7, 3), q(13, 6), q(-16, 3)];
    let y = seq![q(0, 1), q(1, 2), q(1, 2), q(1, 1), q(3, 4)];
    let s = q_hadamard(x, y);
    assert(s.len() == 5);
    lemma_q_hadamard_entry(x, y, 0, -1, 2, 0, 1);
    lemma_q_hadamard_entry(x, y, 1, 7, 3, 1, 2);
    lemma_q_hadamard_entry(x, y, 2, 7, 3, 1, 2);
    lemma_q_hadamard_entry(x, y, 3, 13, 6, 1, 1);
    lemma_q_hadamard_entry(x, y, 4, -16, 3, 3, 4);
    assert(q_sum_to(s, 0) == q(0, 1));
    lemma_q_eq_value(0, 1, 0, 1);
    lemma_q_sum_step(s, 0, 0, 1, 0, 2, 0, 1);
    lemma_q_sum_step(s, 1, 0, 1, 7, 6, 7, 6);
    lemma_q_sum_step(s, 2, 7, 6, 7, 6, 7, 3);
    lemma_q_sum_step(s, 3, 7, 3, 13, 6, 9, 2);
    lemma_q_sum_step(s, 4, 9, 2, -48, 12, 1, 2);
}

proof fn lemma_rk43_sum_40()
    ensures
        q_eq(q_dot(seq![q(-1, 2), q(7, 3), q(7, 3), q(13, 6), q(-16, 3)], seq![q(0, 1), q(1, 4), q(1, 4), q(1, 1), q(9, 16)]), q(1, 3)),
        q_valid(q_dot(seq![q(-1, 2), q(7, 3), q(7, 3), q(13, 6), q(-16, 3)], seq![q(0, 1), q(1, 4), q(1, 4), q(1, 1), q(9, 16)])),
{
    let x = seq![q(-1, 2), q(7, 3), q(7, 3), q(13, 6), q(-16, 3)];
    let y = seq![q(0, 1), q(1, 4), q(1, 4), q(1, 1), q(9, 16)];
    let s = q_hadamard(x, y);
    assert(s.len() == 5);
    lemma_q_hadamard_entry(x, y, 0, -1, 2, 0, 1);
    lemma_q_hadamard_entry(x, y, 1, 7, 3, 1, 4);
    lemma_q_hadamard_entry(x, y, 2, 7, 3, 1, 4);
    lemma_q_hadamard_entry(x, y, 3, 13, 6, 1, 1);
    lemma_q_hadamard_entry(x, y, 4, -16, 3, 9, 16);
    assert(q_sum_to(s, 0) == q(0, 1));
    lemma_q_eq_value(0, 1, 0, 1);
    lemma_q_sum_step(s, 0, 0, 1, 0, 2, 0, 1);
    lemma_q_sum_step(s, 1, 0, 1, 7, 12, 7, 12);
    lemma_q_sum_step(s, 2, 7, 12, 7, 12, 7, 6);
    lemma_q_sum_step(s, 3, 7, 6, 13, 6, 10, 3);
    lemma_q_sum_step(s, 4, 10, 3, -144, 48, 1, 3);
}

proof fn lemma_rk43_sum_41()
    ensures
        q_eq(q_dot(seq![q(-1, 2), q(7, 3), q(7, 3), q(13, 6), q(-16, 3)], seq![q(0, 1), q(0, 1), q(1, 4), q(1, 2), q(9, 32)]), q(1, 6)),
        q_valid(q_dot(seq![q(-1, 2), q(7, 3), q(7, 3), q(13, 6), q(-16, 3)], seq![q(0, 1), q(0, 1), q(1, 4), q(1, 2), q(9, 32)])),
{
    let x = seq![q(-1, 2), q(7, 3), q(7, 3), q(13, 6), q(-16, 3)];
    let y = seq![q(0, 1), q(0, 1), q(1, 4), q(1, 2), q(9, 32)];
    let s = q_hadamard(x, y);
    assert(s.len() == 5);
    lemma_q_hadamard_entry(x, y, 0, -1, 2, 0, 1);
    lemma_q_hadamard_entry(x, y, 1, 7, 3, 0, 1);
    lemma_q_hadamard_entry(x, y, 2, 7, 3, 1, 4);
    lemma_q_hadamard_entry(x, y, 3, 13, 6, 1, 2);
    lemma_q_hadamard_entry(x, y, 4, -16, 3, 9, 32);
    assert(q_sum_to(s, 0) == q(0, 1));
    lemma_q_eq_value(0, 1, 0, 1);
    lemma_q_sum_step(s, 0, 0, 1, 0, 2, 0, 1);
    lemma_q_sum_step(s, 1, 0, 1, 0, 3, 0, 1);
    lemma_q_sum_step(s, 2, 0, 1, 7, 12, 7, 12);
    lemma_q_sum_step(s, 3, 7, 12, 13, 12, 5, 3);
    lemma_q_sum_step(s, 4, 5, 3, -144, 96, 1, 6);
}

proof fn lemma_rk43_shape()
    ensures
        well_shaped(rk43_model(), 5, 4),
        is_explicit(rk43_model()),
{
    let m = rk43_model();
    assert forall|k: int, l: int| 0 <= k < 5 && 0 <= l < 5 implies q_valid(#[trigger] m.a[k][l]) && (k <= l ==> q_is_zero(m.a[k][l])) by {
        if k == 0 {
            if l == 0 {
            } else if l == 1 {
            } else if l == 2 {
            } else if l == 3 {
            } else if l == 4 {
            }
        } else if k == 1 {
            if l == 0 {
            } else if l == 1 {
            } else if l == 2 {
            } else if l == 3 {
            } else if l == 4 {
            }
        } else if k == 2 {
            if l == 0 {
            } else if l == 1 {
            } else if l == 2 {
            } else if l == 3 {
            } else if l == 4 {
            }
        } else if k == 3 {
            if l == 0 {
            } else if l == 1 {
            } else if l == 2 {
            } else if l == 3 {
            } else if l == 4 {
            }
        } else if k == 4 {
            if l == 0 {
            } else if l == 1 {
            } else if l == 2 {
            } else if l == 3 {
            } else if l == 4 {
            }
        }
    }
    assert forall|k: int, l: int| 0 <= k < 5 && 0 <= l < 4 implies q_valid(#[trigger] m.bi[k][l]) by {
        if k == 0 {
            if l == 0 {
            } else if l == 1 {
            } else if l == 2 {
            } else if l == 3 {
            }
        } else if k == 1 {
            if l == 0 {
            } else if l == 1 {
            } else if l == 2 {
            } else if l == 3 {
            }
        } else if k == 2 {
            if l == 0 {
            } else if l == 1 {
            } else if l == 2 {
            } else if l == 3 {
            }
        } else if k == 3 {
            if l == 0 {
            } else if l == 1 {
            } else if l == 2 {
            } else if l == 3 {
            }
        } else if k == 4 {
            if l == 0 {
            } else if l == 1 {
            } else if l == 2 {
            } else if l == 3 {
            }
        }
    }
    assert forall|k: int| 0 <= k < 5 implies #[trigger] m.a[k].len() == 5 && m.bi[k].len() == 4 && q_valid(m.b[k]) && q_valid(m.b2[k]) && q_valid(m.c[k]) by {
        if k == 0 {
        } else if k == 1 {
        } else if k == 2 {
        } else if k == 3 {
        } else if k == 4 {
        }
    }
}

proof fn lemma_rk43_rows()
    ensures
        nodes_are_row_sums(rk43_model()),
        interpolation_is_continuous(rk43_model()),
{
    let m = rk43_model();
    assert forall|i: int|
        #![trigger m.c[i]]
        #![trigger m.bi[i]]
        0 <= i < 5 implies q_eq(m.c[i], q_total(m.a[i])) && q_is_zero(m.bi[i][0]) && q_eq(q_total(m.bi[i]), m.b[i]) by {
        if i == 0 {
            assert(m.a[0] == seq![q(0, 1), q(0, 1), q(0, 1), q(0, 1), q(0, 1)] && m.bi[0] == seq![q(0, 1), q(1, 1), q(-3, 2), q(2, 3)]);
            lemma_rk43_sum_1();
            lemma_rk43_sum_2();
            lemma_q_eq_symmetric(q_total(m.a[0]), q(0, 1));
            assert(m.c[0] == q(0, 1) && m.b[0] == q(1, 6));
        } else if i == 1 {
            assert(m.a[1] == seq![q(1, 2), q(0, 1), q(0, 1), q(0, 1), q(0, 1)] && m.bi[1] == seq![q(0, 1), q(0, 1), q(1, 1), q(-2, 3)]);
            lemma_rk43_sum_3();
            lemma_rk43_sum_4();
            lemma_q_eq_symmetric(q_total(m.a[1]), q(1, 2));
            assert(m.c[1] == q(1, 2) && m.b[1] == q(1, 3));
        } else if i == 2 {
            assert(m.a[2] == seq![q(0, 1), q(1, 2), q(0, 1), q(0, 1), q(0, 1)] && m.bi[2] == seq![q(0, 1), q(0, 1), q(1, 1), q(-2, 3)]);
            lemma_rk43_sum_5();
            lemma_rk43_sum_4();
            lemma_q_eq_symmetric(q_total(m.a[2]), q(1, 2));
            assert(m.c[2] == q(1, 2) && m.b[2] == q(1, 3));
        } else if i == 3 {
            assert(m.a[3] == seq![q(0, 1), q(0, 1), q(1, 1), q(0, 1), q(0, 1)] && m.bi[3] == seq![q(0, 1), q(0, 1), q(-1, 2), q(2, 3)]);
            lemma_rk43_sum_6();
            lemma_rk43_sum_7();
            lemma_q_eq_symmetric(q_total(m.a[3]), q(1, 1));
            assert(m.c[3] == q(1, 1) && m.b[3] == q(1, 6));
        } else if i == 4 {
            assert(m.a[4] == seq![q(5, 32), q(7, 32), q(13, 32), q(-1, 32), q(0, 1)] && m.bi[4] == seq![q(0, 1), q(0, 1), q(0, 1), q(0, 1)]);
            lemma_rk43_sum_8();
            lemma_rk43_sum_9();
            lemma_q_eq_symmetric(q_total(m.a[4]), q(3, 4));
            assert(m.c[4] == q(3, 4) && m.b[4] == q(0, 1));
        }
    }
}

proof fn lemma_rk43_phi_0()
    ensures
        q_vec_eq(elementary_weights(rk43_model().a, 0), seq![q(1, 1), q(1, 1), q(1, 1), q(1, 1), q(1, 1)]),
{
    let v = elementary_weights(rk43_model().a, 0);
    let w = seq![q(1, 1), q(1, 1), q(1, 1), q(1, 1), q(1, 1)];
    assert(v.len() == 5);
    lemma_q_eq_value(1, 1, 1, 1);
    assert forall|i: int| 0 <= i < 5 implies q_eq(#[trigger] v[i], w[i]) && q_valid(v[i]) by {
        if i == 0 {
            assert(v[0] == q(1, 1) && w[0] == q(1, 1));
        } else if i == 1 {
            assert(v[1] == q(1, 1) && w[1] == q(1, 1));
        } else if i == 2 {
            assert(v[2] == q(1, 1) && w[2] == q(1, 1));
        } else if i == 3 {
            assert(v[3] == q(1, 1) && w[3] == q(1, 1));
        } else if i == 4 {
            assert(v[4] == q(1, 1) && w[4] == q(1, 1));
        }
    }
    assert forall|i: int| 0 <= i < 5 implies q_valid(#[trigger] w[i]) by {
        if i == 0 {
        } else if i == 1 {
        } else if i == 2 {
        } else if i == 3 {
        } else if i == 4 {
        }
    }
}

proof fn lemma_rk43_eval_a_1()
    ensures
        q_vec_eq(q_mat_vec(rk43_model().a, seq![q(1, 1), q(1, 1), q(1, 1), q(1, 1), q(1, 1)]), seq![q(0, 1), q(1, 2), q(1, 2), q(1, 1), q(3, 4)]),
{
    let a = rk43_model().a;
    let v = q_mat_vec(a, seq![q(1, 1), q(1, 1), q(1, 1), q(1, 1), q(1, 1)]);
    let w = seq![q(0, 1), q(1, 2), q(1, 2), q(1, 1), q(3, 4)];
    assert forall|i: int|
        #![trigger v[i]]
        #![trigger w[i]]
        0 <= i < 5 implies q_eq(v[i], w[i]) && q_valid(v[i]) && q_valid(w[i]) by {
        if i == 0 {
            assert(a[0] == seq![q(0, 1), q(0, 1), q(0, 1), q(0, 1), q(0, 1)]);
            lemma_rk43_sum_10();
            assert(w[0] == q(0, 1));
            lemma_q_eq_value(0, 1, 0, 1);
        } else if i == 1 {
            assert(a[1] == seq![q(1, 2), q(0, 1), q(0, 1), q(0, 1), q(0, 1)]);
            lemma_rk43_sum_11();
            assert(w[1] == q(1, 2));
            lemma_q_eq_value(1, 2, 1, 2);
        } else if i == 2 {
            assert(a[2] == seq![q(0, 1), q(1, 2), q(0, 1), q(0, 1), q(0, 1)]);
            lemma_rk43_sum_12();
            assert(w[2] == q(1, 2));
            lemma_q_eq_value(1, 2, 1, 2);
        } else if i == 3 {
            assert(a[3] == seq![q(0, 1), q(0, 1), q(1, 1), q(0, 1), q(0, 1)]);
            lemma_rk43_sum_13();
            assert(w[3] == q(1, 1));
            lemma_q_eq_value(1, 1, 1, 1);
        } else if i == 4 {
            assert(a[4] == seq![q(5, 32), q(7, 32), q(13, 32), q(-1, 32), q(0, 1)]);
            lemma_rk43_sum_14();
            assert(w[4] == q(3, 4));
            lemma_q_eq_value(3, 4, 3, 4);
        }
    }
}

proof fn lemma_rk43_phi_1()
    ensures
        q_vec_eq(elementary_weights(rk43_model().a, 1), seq![q(0, 1), q(1, 2), q(1, 2), q(1, 1), q(3, 4)]),
{
    let a = rk43_model().a;
    lemma_rk43_shape();
    lemma_rk43_phi_0();
    lemma_q_mat_vec_congruent(a, elementary_weights(a, 0), seq![q(1, 1), q(1, 1), q(1, 1), q(1, 1), q(1, 1)]);
    lemma_rk43_eval_a_1();
    lemma_q_vec_eq_trans(q_mat_vec(a, elementary_weights(a, 0)), q_mat_vec(a, seq![q(1, 1), q(1, 1), q(1, 1), q(1, 1), q(1, 1)]), seq![q(0, 1), q(1, 2), q(1, 2), q(1, 1), q(3, 4)]);
}

proof fn lemma_rk43_eval_a_2()
    ensures
        q_vec_eq(q_mat_vec(rk43_model().a, seq![q(1, 1), q(1, 1), q(1, 1), q(1, 1), q(1, 1)]), seq![q(0, 1), q(1, 2), q(1, 2), q(1, 1), q(3, 4)]),
{
    let a = rk43_model().a;
    let v = q_mat_vec(a, seq![q(1, 1), q(1, 1), q(1, 1), q(1, 1), q(1, 1)]);
    let w = seq![q(0, 1), q(1, 2), q(1, 2), q(1, 1), q(3, 4)];
    assert forall|i: int|
        #![trigger v[i]]
        #![trigger w[i]]
        0 <= i < 5 implies q_eq(v[i], w[i]) && q_valid(v[i]) && q_valid(w[i]) by {
        if i == 0 {
            assert(a[0] == seq![q(0, 1), q(0, 1), q(0, 1), q(0, 1), q(0, 1)]);
            lemma_rk43_sum_10();
            assert(w[0] == q(0, 1));
            lemma_q_eq_value(0, 1, 0, 1);
        } else if i == 1 {
            assert(a[1] == seq![q(1, 2), q(0, 1), q(0, 1), q(0, 1), q(0, 1)]);
            lemma_rk43_sum_11();
            assert(w[1] == q(1, 2));
            lemma_q_eq_value(1, 2, 1, 2);
        } else if i == 2 {
            assert(a[2] == seq![q(0, 1), q(1, 2), q(0, 1), q(0, 1), q(0, 1)]);
            lemma_rk43_sum_12();
            assert(w[2] == q(1, 2));
            lemma_q_eq_value(1, 2, 1, 2);
        } else if i == 3 {
            assert(a[3] == seq![q(0, 1), q(0, 1), q(1, 1), q(0, 1), q(0, 1)]);
            lemma_rk43_sum_13();
            assert(w[3] == q(1, 1));
            lemma_q_eq_value(1, 1, 1, 1);
        } else if i == 4 {
            assert(a[4] == seq![q(5, 32), q(7, 32), q(13, 32), q(-1, 32), q(0, 1)]);
            lemma_rk43_sum_14();
            assert(w[4] == q(3, 4));
            lemma_q_eq_value(3, 4, 3, 4);
        }
    }
}

proof fn lemma_rk43_eval_h_2()
    ensures
        q_vec_eq(q_hadamard(seq![q(0, 1), q(1, 2), q(1, 2), q(1, 1), q(3, 4)], seq![q(0, 1), q(1, 2), q(1, 2), q(1, 1), q(3, 4)]), seq![q(0, 1), q(1, 4), q(1, 4), q(1, 1), q(9, 16)]),
{
    let x = seq![q(0, 1), q(1, 2), q(1, 2), q(1, 1), q(3, 4)];
    let y = seq![q(0, 1), q(1, 2), q(1, 2), q(1, 1), q(3, 4)];
    let v = q_hadamard(x, y);
    let w = seq![q(0, 1), q(1, 4), q(1, 4), q(1, 1), q(9, 16)];
    assert forall|i: int|
        #![trigger v[i]]
        #![trigger w[i]]
        0 <= i < 5 implies q_eq(v[i], w[i]) && q_valid(v[i]) && q_valid(w[i]) by {
        if i == 0 {
            lemma_q_mul_value(0, 1, 0, 1);
            assert(x[0] == q(0, 1) && y[0] == q(0, 1));
            lemma_q_eq_value(0, 1, 0, 1);
            assert(w[0] == q(0, 1));
        } else if i == 1 {
            lemma_q_mul_value(1, 2, 1, 2);
            assert(x[1] == q(1, 2) && y[1] == q(1, 2));
            lemma_q_eq_value(1, 4, 1, 4);
            assert(w[1] == q(1, 4));
        } else if i == 2 {
            lemma_q_mul_value(1, 2, 1, 2);
            assert(x[2] == q(1, 2) && y[2] == q(1, 2));
            lemma_q_eq_value(1, 4, 1, 4);
            assert(w[2] == q(1, 4));
        } else if i == 3 {
            lemma_q_mul_value(1, 1, 1, 1);
            assert(x[3] == q(1, 1) && y[3] == q(1, 1));
            lemma_q_eq_value(1, 1, 1, 1);
            assert(w[3] == q(1, 1));
        } else if i == 4 {
            lemma_q_mul_value(3, 4, 3, 4);
            assert(x[4] == q(3, 4) && y[4] == q(3, 4));
            lemma_q_eq_value(9, 16, 9, 16);
            assert(w[4] == q(9, 16));
        }
    }
}

proof fn lemma_rk43_phi_2()
    ensures
        q_vec_eq(elementary_weights(rk43_model().a, 2), seq![q(0, 1), q(1, 4), q(1, 4), q(1, 1), q(9, 16)]),
{
    let a = rk43_model().a;
    lemma_rk43_shape();
    lemma_rk43_phi_0();
    lemma_q_mat_vec_congruent(a, elementary_weights(a, 0), seq![q(1, 1), q(1, 1), q(1, 1), q(1, 1), q(1, 1)]);
    lemma_rk43_eval_a_2();
    lemma_q_vec_eq_trans(q_mat_vec(a, elementary_weights(a, 0)), q_mat_vec(a, seq![q(1, 1), q(1, 1), q(1, 1), q(1, 1), q(1, 1)]), seq![q(0, 1), q(1, 2), q(1, 2), q(1, 1), q(3, 4)]);
    lemma_rk43_phi_1();
    lemma_q_hadamard_congruent(q_mat_vec(a, elementary_weights(a, 0)), seq![q(0, 1), q(1, 2), q(1, 2), q(1, 1), q(3, 4)], elementary_weights(a, 1), seq![q(0, 1), q(1, 2), q(1, 2), q(1, 1), q(3, 4)]);
    lemma_rk43_eval_h_2();
    lemma_q_vec_eq_trans(q_hadamard(q_mat_vec(a, elementary_weights(a, 0)), elementary_weights(a, 1)), q_hadamard(seq![q(0, 1), q(1, 2), q(1, 2), q(1, 1), q(3, 4)], seq![q(0, 1), q(1, 2), q(1, 2), q(1, 1), q(3, 4)]), seq![q(0, 1), q(1, 4), q(1, 4), q(1, 1), q(9, 16)]);
}

proof fn lemma_rk43_eval_a_3()
    ensures
        q_vec_eq(q_mat_vec(rk43_model().a, seq![q(0, 1), q(1, 2), q(1, 2), q(1, 1), q(3, 4)]), seq![q(0, 1), q(0, 1), q(1, 4), q(1, 2), q(9, 32)]),
{
    let a = rk43_model().a;
    let v = q_mat_vec(a, seq![q(0, 1), q(1, 2), q(1, 2), q(1, 1), q(3, 4)]);
    let w = seq![q(0, 1), q(0, 1), q(1, 4), q(1, 2), q(9, 32)];
    assert forall|i: int|
        #![trigger v[i]]
        #![trigger w[i]]
        0 <= i < 5 implies q_eq(v[i], w[i]) && q_valid(v[i]) && q_valid(w[i]) by {
        if i == 0 {
            assert(a[0] == seq![q(0, 1), q(0, 1), q(0, 1), q(0, 1), q(0, 1)]);
            lemma_rk43_sum_15();
            assert(w[0] == q(0, 1));
            lemma_q_eq_value(0, 1, 0, 1);
        } else if i == 1 {
            assert(a[1] == seq![q(1, 2), q(0, 1), q(0, 1), q(0, 1), q(0, 1)]);
            lemma_rk43_sum_16();
            assert(w[1] == q(0, 1));
            lemma_q_eq_value(0, 1, 0, 1);
        } else if i == 2 {
            assert(a[2] == seq![q(0, 1), q(1, 2), q(0, 1), q(0, 1), q(0, 1)]);
            lemma_rk43_sum_17();
            assert(w[2] == q(1, 4));
            lemma_q_eq_value(1, 4, 1, 4);
        } else if i == 3 {
            assert(a[3] == seq![q(0, 1), q(0, 1), q(1, 1), q(0, 1), q(0, 1)]);
            lemma_rk43_sum_18();
            assert(w[3] == q(1, 2));
            lemma_q_eq_value(1, 2, 1, 2);
        } else if i == 4 {
            assert(a[4] == seq![q(5, 32), q(7, 32), q(13, 32), q(-1, 32), q(0, 1)]);
            lemma_rk43_sum_19();
            assert(w[4] == q(9, 32));
            lemma_q_eq_value(9, 32, 9, 32);
        }
    }
}

proof fn lemma_rk43_phi_3()
    ensures
        q_vec_eq(elementary_weights(rk43_model().a, 3), seq![q(0, 1), q(0, 1), q(1, 4), q(1, 2), q(9, 32)]),
{
    let a = rk43_model().a;
    lemma_rk43_shape();
    lemma_rk43_phi_1();
    lemma_q_mat_vec_congruent(a, elementary_weights(a, 1), seq![q(0, 1), q(1, 2), q(1, 2), q(1, 1), q(3, 4)]);
    lemma_rk43_eval_a_3();
    lemma_q_vec_eq_trans(q_mat_vec(a, elementary_weights(a, 1)), q_mat_vec(a, seq![q(0, 1), q(1, 2), q(1, 2), q(1, 1), q(3, 4)]), seq![q(0, 1), q(0, 1), q(1, 4), q(1, 2), q(9, 32)]);
}

proof fn lemma_rk43_eval_a_4()
    ensures
        q_vec_eq(q_mat_vec(rk43_model().a, seq![q(1, 1), q(1, 1), q(1, 1), q(1, 1), q(1, 1)]), seq![q(0, 1), q(1, 2), q(1, 2), q(1, 1), q(3, 4)]),
{
    let a = rk43_model().a;
    let v = q_mat_vec(a, seq![q(1, 1), q(1, 1), q(1, 1), q(1, 1), q(1, 1)]);
    let w = seq![q(0, 1), q(1, 2), q(1, 2), q(1, 1), q(3, 4)];
    assert forall|i: int|
        #![trigger v[i]]
        #![trigger w[i]]
        0 <= i < 5 implies q_eq(v[i], w[i]) && q_valid(v[i]) && q_valid(w[i]) by {
        if i == 0 {
            assert(a[0] == seq![q(0, 1), q(0, 1), q(0, 1), q(0, 1), q(0, 1)]);
            lemma_rk43_sum_10();
            assert(w[0] == q(0, 1));
            lemma_q_eq_value(0, 1, 0, 1);
        } else if i == 1 {
            assert(a[1] == seq![q(1, 2), q(0, 1), q(0, 1), q(0, 1), q(0, 1)]);
            lemma_rk43_sum_11();
            assert(w[1] == q(1, 2));
            lemma_q_eq_value(1, 2, 1, 2);
        } else if i == 2 {
            assert(a[2] == seq![q(0, 1), q(1, 2), q(0, 1), q(0, 1), q(0, 1)]);
            lemma_rk43_sum_12();
            assert(w[2] == q(1, 2));
            lemma_q_eq_value(1, 2, 1, 2);
        } else if i == 3 {
            assert(a[3] == seq![q(0, 1), q(0, 1), q(1, 1), q(0, 1), q(0, 1)]);
            lemma_rk43_sum_13();
            assert(w[3] == q(1, 1));
            lemma_q_eq_value(1, 1, 1, 1);
        } else if i == 4 {
            assert(a[4] == seq![q(5, 32), q(7, 32), q(13, 32), q(-1, 32), q(0, 1)]);
            lemma_rk43_sum_14();
            assert(w[4] == q(3, 4));
            lemma_q_eq_value(3, 4, 3, 4);
        }
    }
}

proof fn lemma_rk43_eval_h_4()
    ensures
        q_vec_eq(q_hadamard(seq![q(0, 1), q(1, 2), q(1, 2), q(1, 1), q(3, 4)], seq![q(0, 1), q(1, 4), q(1, 4), q(1, 1), q(9, 16)]), seq![q(0, 1), q(1, 8), q(1, 8), q(1, 1), q(27, 64)]),
{
    let x = seq![q(0, 1), q(1, 2), q(1, 2), q(1, 1), q(3, 4)];
    let y = seq![q(0, 1), q(1, 4), q(1, 4), q(1, 1), q(9, 16)];
    let v = q_hadamard(x, y);
    let w = seq![q(0, 1), q(1, 8), q(1, 8), q(1, 1), q(27, 64)];
    assert forall|i: int|
        #![trigger v[i]]
        #![trigger w[i]]
        0 <= i < 5 implies q_eq(v[i], w[i]) && q_valid(v[i]) && q_valid(w[i]) by {
        if i == 0 {
            lemma_q_mul_value(0, 1, 0, 1);
            assert(x[0] == q(0, 1) && y[0] == q(0, 1));
            lemma_q_eq_value(0, 1, 0, 1);
            assert(w[0] == q(0, 1));
        } else if i == 1 {
            lemma_q_mul_value(1, 2, 1, 4);
            assert(x[1] == q(1, 2) && y[1] == q(1, 4));
            lemma_q_eq_value(1, 8, 1, 8);
            assert(w[1] == q(1, 8));
        } else if i == 2 {
            lemma_q_mul_value(1, 2, 1, 4);
            assert(x[2] == q(1, 2) && y[2] == q(1, 4));
            lemma_q_eq_value(1, 8, 1, 8);
            assert(w[2] == q(1, 8));
        } else if i == 3 {
            lemma_q_mul_value(1, 1, 1, 1);
            assert(x[3] == q(1, 1) && y[3] == q(1, 1));
            lemma_q_eq_value(1, 1, 1, 1);
            assert(w[3] == q(1, 1));
        } else if i == 4 {
            lemma_q_mul_value(3, 4, 9, 16);
            assert(x[4] == q(3, 4) && y[4] == q(9, 16));
            lemma_q_eq_value(27, 64, 27, 64);
            assert(w[4] == q(27, 64));
        }
    }
}

proof fn lemma_rk43_phi_4()
    ensures
        q_vec_eq(elementary_weights(rk43_model().a, 4), seq![q(0, 1), q(1, 8), q(1, 8), q(1, 1), q(27, 64)]),
{
    let a = rk43_model().a;
    lemma_rk43_shape();
    lemma_rk43_phi_0();
    lemma_q_mat_vec_congruent(a, elementary_weights(a, 0), seq![q(1, 1), q(1, 1), q(1, 1), q(1, 1), q(1, 1)]);
    lemma_rk43_eval_a_4();
    lemma_q_vec_eq_trans(q_mat_vec(a, elementary_weights(a, 0)), q_mat_vec(a, seq![q(1, 1), q(1, 1), q(1, 1), q(1, 1), q(1, 1)]), seq![q(0, 1), q(1, 2), q(1, 2), q(1, 1), q(3, 4)]);
    lemma_rk43_phi_2();
    lemma_q_hadamard_congruent(q_mat_vec(a, elementary_weights(a, 0)), seq![q(0, 1), q(1, 2), q(1, 2), q(1, 1), q(3, 4)], elementary_weights(a, 2), seq![q(0, 1), q(1, 4), q(1, 4), q(1, 1), q(9, 16)]);
    lemma_rk43_eval_h_4();
    lemma_q_vec_eq_trans(q_hadamard(q_mat_vec(a, elementary_weights(a, 0)), elementary_weights(a, 2)), q_hadamard(seq![q(0, 1), q(1, 2), q(1, 2), q(1, 1), q(3, 4)], seq![q(0, 1), q(1, 4), q(1, 4), q(1, 1), q(9, 16)]), seq![q(0, 1), q(1, 8), q(1, 8), q(1, 1), q(27, 64)]);
}

proof fn lemma_rk43_eval_a_5()
    ensures
        q_vec_eq(q_mat_vec(rk43_model().a, seq![q(1, 1), q(1, 1), q(1, 1), q(1, 1), q(1, 1)]), seq![q(0, 1), q(1, 2), q(1, 2), q(1, 1), q(3, 4)]),
{
    let a = rk43_model().a;
    let v = q_mat_vec(a, seq![q(1, 1), q(1, 1), q(1, 1), q(1, 1), q(1, 1)]);
    let w = seq![q(0, 1), q(1, 2), q(1, 2), q(1, 1), q(3, 4)];
    assert forall|i: int|
        #![trigger v[i]]
        #![trigger w[i]]
        0 <= i < 5 implies q_eq(v[i], w[i]) && q_valid(v[i]) && q_valid(w[i]) by {
        if i == 0 {
            assert(a[0] == seq![q(0, 1), q(0, 1), q(0, 1), q(0, 1), q(0, 1)]);
            lemma_rk43_sum_10();
            assert(w[0] == q(0, 1));
            lemma_q_eq_value(0, 1, 0, 1);
        } else if i == 1 {
            assert(a[1] == seq![q(1, 2), q(0, 1), q(0, 1), q(0, 1), q(0, 1)]);
            lemma_rk43_sum_11();
            assert(w[1] == q(1, 2));
            lemma_q_eq_value(1, 2, 1, 2);
        } else if i == 2 {
            assert(a[2] == seq![q(0, 1), q(1, 2), q(0, 1), q(0, 1), q(0, 1)]);
            lemma_rk43_sum_12();
            assert(w[2] == q(1, 2));
            lemma_q_eq_value(1, 2, 1, 2);
        } else if i == 3 {
            assert(a[3] == seq![q(0, 1), q(0, 1), q(1, 1), q(0, 1), q(0, 1)]);
            lemma_rk43_sum_13();
            assert(w[3] == q(1, 1));
            lemma_q_eq_value(1, 1, 1, 1);
        } else if i == 4 {
            assert(a[4] == seq![q(5, 32), q(7, 32), q(13, 32), q(-1, 32), q(0, 1)]);
            lemma_rk43_sum_14();
            assert(w[4] == q(3, 4));
            lemma_q_eq_value(3, 4, 3, 4);
        }
    }
}

proof fn lemma_rk43_eval_h_5()
    ensures
        q_vec_eq(q_hadamard(seq![q(0, 1), q(1, 2), q(1, 2), q(1, 1), q(3, 4)], seq![q(0, 1), q(0, 1), q(1, 4), q(1, 2), q(9, 32)]), seq![q(0, 1), q(0, 1), q(1, 8), q(1, 2), q(27, 128)]),
{
    let x = seq![q(0, 1), q(1, 2), q(1, 2), q(1, 1), q(3, 4)];
    let y = seq![q(0, 1), q(0, 1), q(1, 4), q(1, 2), q(9, 32)];
    let v = q_hadamard(x, y);
    let w = seq![q(0, 1), q(0, 1), q(1, 8), q(1, 2), q(27, 128)];
    assert forall|i: int|
        #![trigger v[i]]
        #![trigger w[i]]
        0 <= i < 5 implies q_eq(v[i], w[i]) && q_valid(v[i]) && q_valid(w[i]) by {
        if i == 0 {
            lemma_q_mul_value(0, 1, 0, 1);
            assert(x[0] == q(0, 1) && y[0] == q(0, 1));
            lemma_q_eq_value(0, 1, 0, 1);
            assert(w[0] == q(0, 1));
        } else if i == 1 {
            lemma_q_mul_value(1, 2, 0, 1);
            assert(x[1] == q(1, 2) && y[1] == q(0, 1));
            lemma_q_eq_value(0, 2, 0, 1);
            assert(w[1] == q(0, 1));
        } else if i == 2 {
            lemma_q_mul_value(1, 2, 1, 4);
            assert(x[2] == q(1, 2) && y[2] == q(1, 4));
            lemma_q_eq_value(1, 8, 1, 8);
            assert(w[2] == q(1, 8));
        } else if i == 3 {
            lemma_q_mul_value(1, 1, 1, 2);
            assert(x[3] == q(1, 1) && y[3] == q(1, 2));
            lemma_q_eq_value(1, 2, 1, 2);
            assert(w[3] == q(1, 2));
        } else if i == 4 {
            lemma_q_mul_value(3, 4, 9, 32);
            assert(x[4] == q(3, 4) && y[4] == q(9, 32));
            lemma_q_eq_value(27, 128, 27, 128);
            assert(w[4] == q(27, 128));
        }
    }
}

proof fn lemma_rk43_phi_5()
    ensures
        q_vec_eq(elementary_weights(rk43_model().a, 5), seq![q(0, 1), q(0, 1), q(1, 8), q(1, 2), q(27, 128)]),
{
    let a = rk43_model().a;
    lemma_rk43_shape();
    lemma_rk43_phi_0();
    lemma_q_mat_vec_congruent(a, elementary_weights(a, 0), seq![q(1, 1), q(1, 1), q(1, 1), q(1, 1), q(1, 1)]);
    lemma_rk43_eval_a_5();
    lemma_q_vec_eq_trans(q_mat_vec(a, elementary_weights(a, 0)), q_mat_vec(a, seq![q(1, 1), q(1, 1), q(1, 1), q(1, 1), q(1, 1)]), seq![q(0, 1), q(1, 2), q(1, 2), q(1, 1), q(3, 4)]);
    lemma_rk43_phi_3();
    lemma_q_hadamard_congruent(q_mat_vec(a, elementary_weights(a, 0)), seq![q(0, 1), q(1, 2), q(1, 2), q(1, 1), q(3, 4)], elementary_weights(a, 3), seq![q(0, 1), q(0, 1), q(1, 4), q(1, 2), q(9, 32)]);
    lemma_rk43_eval_h_5();
    lemma_q_vec_eq_trans(q_hadamard(q_mat_vec(a, elementary_weights(a, 0)), elementary_weights(a, 3)), q_hadamard(seq![q(0, 1), q(1, 2), q(1, 2), q(1, 1), q(3, 4)], seq![q(0, 1), q(0, 1), q(1, 4), q(1, 2), q(9, 32)]), seq![q(0, 1), q(0, 1), q(1, 8), q(1, 2), q(27, 128)]);
}

proof fn lemma_rk43_eval_a_6()
    ensures
        q_vec_eq(q_mat_vec(rk43_model().a, seq![q(0, 1), q(1, 4), q(1, 4), q(1, 1), q(9, 16)]), seq![q(0, 1), q(0, 1), q(1, 8), q(1, 4), q(1, 8)]),
{
    let a = rk43_model().a;
    let v = q_mat_vec(a, seq![q(0, 1), q(1, 4), q(1, 4), q(1, 1), q(9, 16)]);
    let w = seq![q(0, 1), q(0, 1), q(1, 8), q(1, 4), q(1, 8)];
    assert forall|i: int|
        #![trigger v[i]]
        #![trigger w[i]]
        0 <= i < 5 implies q_eq(v[i], w[i]) && q_valid(v[i]) && q_valid(w[i]) by {
        if i == 0 {
            assert(a[0] == seq![q(0, 1), q(0, 1), q(0, 1), q(0, 1), q(0, 1)]);
            lemma_rk43_sum_20();
            assert(w[0] == q(0, 1));
            lemma_q_eq_value(0, 1, 0, 1);
        } else if i == 1 {
            assert(a[1] == seq![q(1, 2), q(0, 1), q(0, 1), q(0, 1), q(0, 1)]);
            lemma_rk43_sum_21();
            assert(w[1] == q(0, 1));
            lemma_q_eq_value(0, 1, 0, 1);
        } else if i == 2 {
            assert(a[2] == seq![q(0, 1), q(1, 2), q(0, 1), q(0, 1), q(0, 1)]);
            lemma_rk43_sum_22();
            assert(w[2] == q(1, 8));
            lemma_q_eq_value(1, 8, 1, 8);
        } else if i == 3 {
            assert(a[3] == seq![q(0, 1), q(0, 1), q(1, 1), q(0, 1), q(0, 1)]);
            lemma_rk43_sum_23();
            assert(w[3] == q(1, 4));
            lemma_q_eq_value(1, 4, 1, 4);
        } else if i == 4 {
            assert(a[4] == seq![q(5, 32), q(7, 32), q(13, 32), q(-1, 32), q(0, 1)]);
            lemma_rk43_sum_24();
            assert(w[4] == q(1, 8));
            lemma_q_eq_value(1, 8, 1, 8);
        }
    }
}

proof fn lemma_rk43_phi_6()
    ensures
        q_vec_eq(elementary_weights(rk43_model().a, 6), seq![q(0, 1), q(0, 1), q(1, 8), q(1, 4), q(1, 8)]),
{
    let a = rk43_model().a;
    lemma_rk43_shape();
    lemma_rk43_phi_2();
    lemma_q_mat_vec_congruent(a, elementary_weights(a, 2), seq![q(0, 1), q(1, 4), q(1, 4), q(1, 1), q(9, 16)]);
    lemma_rk43_eval_a_6();
    lemma_q_vec_eq_trans(q_mat_vec(a, elementary_weights(a, 2)), q_mat_vec(a, seq![q(0, 1), q(1, 4), q(1, 4), q(1, 1), q(9, 16)]), seq![q(0, 1), q(0, 1), q(1, 8), q(1, 4), q(1, 8)]);
}

proof fn lemma_rk43_eval_a_7()
    ensures
        q_vec_eq(q_mat_vec(rk43_model().a, seq![q(0, 1), q(0, 1), q(1, 4), q(1, 2), q(9, 32)]), seq![q(0, 1), q(0, 1), q(0, 1), q(1, 4), q(11, 128)]),
{
    let a = rk43_model().a;
    let v = q_mat_vec(a, seq![q(0, 1), q(0, 1), q(1, 4), q(1, 2), q(9, 32)]);
    let w = seq![q(0, 1), q(0, 1), q(0, 1), q(1, 4), q(11, 128)];
    assert forall|i: int|
        #![trigger v[i]]
        #![trigger w[i]]
        0 <= i < 5 implies q_eq(v[i], w[i]) && q_valid(v[i]) && q_valid(w[i]) by {
        if i == 0 {
            assert(a[0] == seq![q(0, 1), q(0, 1), q(0, 1), q(0, 1), q(0, 1)]);
            lemma_rk43_sum_25();
            assert(w[0] == q(0, 1));
            lemma_q_eq_value(0, 1, 0, 1);
        } else if i == 1 {
            assert(a[1] == seq![q(1, 2), q(0, 1), q(0, 1), q(0, 1), q(0, 1)]);
            lemma_rk43_sum_26();
            assert(w[1] == q(0, 1));
            lemma_q_eq_value(0, 1, 0, 1);
        } else if i == 2 {
            assert(a[2] == seq![q(0, 1), q(1, 2), q(0, 1), q(0, 1), q(0, 1)]);
            lemma_rk43_sum_27();
            assert(w[2] == q(0, 1));
            lemma_q_eq_value(0, 1, 0, 1);
        } else if i == 3 {
            assert(a[3] == seq![q(0, 1), q(0, 1), q(1, 1), q(0, 1), q(0, 1)]);
            lemma_rk43_sum_28();
            assert(w[3] == q(1, 4));
            lemma_q_eq_value(1, 4, 1, 4);
        } else if i == 4 {
            assert(a[4] == seq![q(5, 32), q(7, 32), q(13, 32), q(-1, 32), q(0, 1)]);
            lemma_rk43_sum_29();
            assert(w[4] == q(11, 128));
            lemma_q_eq_value(11, 128, 11, 128);
        }
    }
}

proof fn lemma_rk43_phi_7()
    ensures
        q_vec_eq(elementary_weights(rk43_model().a, 7), seq![q(0, 1), q(0, 1), q(0, 1), q(1, 4), q(11, 128)]),
{
    let a = rk43_model().a;
    lemma_rk43_shape();
    lemma_rk43_phi_3();
    lemma_q_mat_vec_congruent(a, elementary_weights(a, 3), seq![q(0, 1), q(0, 1), q(1, 4), q(1, 2), q(9, 32)]);
    lemma_rk43_eval_a_7();
    lemma_q_vec_eq_trans(q_mat_vec(a, elementary_weights(a, 3)), q_mat_vec(a, seq![q(0, 1), q(0, 1), q(1, 4), q(1, 2), q(9, 32)]), seq![q(0, 1), q(0, 1), q(0, 1), q(1, 4), q(11, 128)]);
}

proof fn lemma_rk43_b_tree_0()
    ensures
        q_eq(q_dot(rk43_model().b, elementary_weights(rk43_model().a, 0)), q(1, tree_density(0))),
{
    lemma_rk43_shape();
    lemma_rk43_phi_0();
    assert(q_vec_valid(rk43_model().b));
    lemma_q_dot_congruent(rk43_model().b, elementary_weights(rk43_model().a, 0), seq![q(1, 1), q(1, 1), q(1, 1), q(1, 1), q(1, 1)]);
    assert(rk43_model().b == seq![q(1, 6), q(1, 3), q(1, 3), q(1, 6), q(0, 1)]);
    lemma_rk43_sum_30();
    assert(q_eq(q_dot(rk43_model().b, seq![q(1, 1), q(1, 1), q(1, 1), q(1, 1), q(1, 1)]), q(1, 1)));
    lemma_q_eq_trans(q_dot(rk43_model().b, elementary_weights(rk43_model().a, 0)), q_dot(rk43_model().b, seq![q(1, 1), q(1, 1), q(1, 1), q(1, 1), q(1, 1)]), q(1, 1));
}

proof fn lemma_rk43_b_tree_1()
    ensures
        q_eq(q_dot(rk43_model().b, elementary_weights(rk43_model().a, 1)), q(1, tree_density(1))),
{
    lemma_rk43_shape();
    lemma_rk43_phi_1();
    assert(q_vec_valid(rk43_model().b));
    lemma_q_dot_congruent(rk43_model().b, elementary_weights(rk43_model().a, 1), seq![q(0, 1), q(1, 2), q(1, 2), q(1, 1), q(3, 4)]);
    assert(rk43_model().b == seq![q(1, 6), q(1, 3), q(1, 3), q(1, 6), q(0, 1)]);
    lemma_rk43_sum_31();
    assert(q_eq(q_dot(rk43_model().b, seq![q(0, 1), q(1, 2), q(1, 2), q(1, 1), q(3, 4)]), q(1, 2)));
    lemma_q_eq_trans(q_dot(rk43_model().b, elementary_weights(rk43_model().a, 1)), q_dot(rk43_model().b, seq![q(0, 1), q(1, 2), q(1, 2), q(1, 1), q(3, 4)]), q(1, 2));
}

proof fn lemma_rk43_b_tree_2()
    ensures
        q_eq(q_dot(rk43_model().b, elementary_weights(rk43_model().a, 2)), q(1, tree_density(2))),
{
    lemma_rk43_shape();
    lemma_rk43_phi_2();
    assert(q_vec_valid(rk43_model().b));
    lemma_q_dot_congruent(rk43_model().b, elementary_weights(rk43_model().a, 2), seq![q(0, 1), q(1, 4), q(1, 4), q(1, 1), q(9, 16)]);
    assert(rk43_model().b == seq![q(1, 6), q(1, 3), q(1, 3), q(1, 6), q(0, 1)]);
    lemma_rk43_sum_32();
    assert(q_eq(q_dot(rk43_model().b, seq![q(0, 1), q(1, 4), q(1, 4), q(1, 1), q(9, 16)]), q(1, 3)));
    lemma_q_eq_trans(q_dot(rk43_model().b, elementary_weights(rk43_model().a, 2)), q_dot(rk43_model().b, seq![q(0, 1), q(1, 4), q(1, 4), q(1, 1), q(9, 16)]), q(1, 3));
}

proof fn lemma_rk43_b_tree_3()
    ensures
        q_eq(q_dot(rk43_model().b, elementary_weights(rk43_model().a, 3)), q(1, tree_density(3))),
{
    lemma_rk43_shape();
    lemma_rk43_phi_3();
    assert(q_vec_valid(rk43_model().b));
    lemma_q_dot_congruent(rk43_model().b, elementary_weights(rk43_model().a, 3), seq![q(0, 1), q(0, 1), q(1, 4), q(1, 2), q(9, 32)]);
    assert(rk43_model().b == seq![q(1, 6), q(1, 3), q(1, 3), q(1, 6), q(0, 1)]);
    lemma_rk43_sum_33();
    assert(q_eq(q_dot(rk43_model().b, seq![q(0, 1), q(0, 1), q(1, 4), q(1, 2), q(9, 32)]), q(1, 6)));
    lemma_q_eq_trans(q_dot(rk43_model().b, elementary_weights(rk43_model().a, 3)), q_dot(rk43_model().b, seq![q(0, 1), q(0, 1), q(1, 4), q(1, 2), q(9, 32)]), q(1, 6));
}

proof fn lemma_rk43_b_tree_4()
    ensures
        q_eq(q_dot(rk43_model().b, elementary_weights(rk43_model().a, 4)), q(1, tree_density(4))),
{
    lemma_rk43_shape();
    lemma_rk43_phi_4();
    assert(q_vec_valid(rk43_model().b));
    lemma_q_dot_congruent(rk43_model().b, elementary_weights(rk43_model().a, 4), seq![q(0, 1), q(1, 8), q(1, 8), q(1, 1), q(27, 64)]);
    assert(rk43_model().b == seq![q(1, 6), q(1, 3), q(1, 3), q(1, 6), q(0, 1)]);
    lemma_rk43_sum_34();
    assert(q_eq(q_dot(rk43_model().b, seq![q(0, 1), q(1, 8), q(1, 8), q(1, 1), q(27, 64)]), q(1, 4)));
    lemma_q_eq_trans(q_dot(rk43_model().b, elementary_weights(rk43_model().a, 4)), q_dot(rk43_model().b, seq![q(0, 1), q(1, 8), q(1, 8), q(1, 1), q(27, 64)]), q(1, 4));
}

proof fn lemma_rk43_b_tree_5()
    ensures
        q_eq(q_dot(rk43_model().b, elementary_weights(rk43_model().a, 5)), q(1, tree_density(5))),
{
    lemma_rk43_shape();
    lemma_rk43_phi_5();
    assert(q_vec_valid(rk43_model().b));
    lemma_q_dot_congruent(rk43_model().b, elementary_weights(rk43_model().a, 5), seq![q(0, 1), q(0, 1), q(1, 8), q(1, 2), q(27, 128)]);
    assert(rk43_model().b == seq![q(1, 6), q(1, 3), q(1, 3), q(1, 6), q(0, 1)]);
    lemma_rk43_sum_35();
    assert(q_eq(q_dot(rk43_model().b, seq![q(0, 1), q(0, 1), q(1, 8), q(1, 2), q(27, 128)]), q(1, 8)));
    lemma_q_eq_trans(q_dot(rk43_model().b, elementary_weights(rk43_model().a, 5)), q_dot(rk43_model().b, seq![q(0, 1), q(0, 1), q(1, 8), q(1, 2), q(27, 128)]), q(1, 8));
}

proof fn lemma_rk43_b_tree_6()
    ensures
        q_eq(q_dot(rk43_model().b, elementary_weights(rk43_model().a, 6)), q(1, tree_density(6))),
{
    lemma_rk43_shape();
    lemma_rk43_phi_6();
    assert(q_vec_valid(rk43_model().b));
    lemma_q_dot_congruent(rk43_model().b, elementary_weights(rk43_model().a, 6), seq![q(0, 1), q(0, 1), q(1, 8), q(1, 4), q(1, 8)]);
    assert(rk43_model().b == seq![q(1, 6), q(1, 3), q(1, 3), q(1, 6), q(0, 1)]);
    lemma_rk43_sum_36();
    assert(q_eq(q_dot(rk43_model().b, seq![q(0, 1), q(0, 1), q(1, 8), q(1, 4), q(1, 8)]), q(1, 12)));
    lemma_q_eq_trans(q_dot(rk43_model().b, elementary_weights(rk43_model().a, 6)), q_dot(rk43_model().b, seq![q(0, 1), q(0, 1), q(1, 8), q(1, 4), q(1, 8)]), q(1, 12));
}

proof fn lemma_rk43_b_tree_7()
    ensures
        q_eq(q_dot(rk43_model().b, elementary_weights(rk43_model().a, 7)), q(1, tree_density(7))),
{
    lemma_rk43_shape();
    lemma_rk43_phi_7();
    assert(q_vec_valid(rk43_model().b));
    lemma_q_dot_congruent(rk43_model().b, elementary_weights(rk43_model().a, 7), seq![q(0, 1), q(0, 1), q(0, 1), q(1, 4), q(11, 128)]);
    assert(rk43_model().b == seq![q(1, 6), q(1, 3), q(1, 3), q(1, 6), q(0, 1)]);
    lemma_rk43_sum_37();
    assert(q_eq(q_dot(rk43_model().b, seq![q(0, 1), q(0, 1), q(0, 1), q(1, 4), q(11, 128)]), q(1, 24)));
    lemma_q_eq_trans(q_dot(rk43_model().b, elementary_weights(rk43_model().a, 7)), q_dot(rk43_model().b, seq![q(0, 1), q(0, 1), q(0, 1), q(1, 4), q(11, 128)]), q(1, 24));
}

proof fn lemma_rk43_b2_tree_0()
    ensures
        q_eq(q_dot(rk43_model().b2, elementary_weights(rk43_model().a, 0)), q(1, tree_density(0))),
{
    lemma_rk43_shape();
    lemma_rk43_phi_0();
    assert(q_vec_valid(rk43_model().b2));
    lemma_q_dot_congruent(rk43_model().b2, elementary_weights(rk43_model().a, 0), seq![q(1, 1), q(1, 1), q(1, 1), q(1, 1), q(1, 1)]);
    assert(rk43_model().b2 == seq![q(-1, 2), q(7, 3), q(7, 3), q(13, 6), q(-16, 3)]);
    lemma_rk43_sum_38();
    assert(q_eq(q_dot(rk43_model().b2, seq![q(1, 1), q(1, 1), q(1, 1), q(1, 1), q(1, 1)]), q(1, 1)));
    lemma_q_eq_trans(q_dot(rk43_model().b2, elementary_weights(rk43_model().a, 0)), q_dot(rk43_model().b2, seq![q(1, 1), q(1, 1), q(1, 1), q(1, 1), q(1, 1)]), q(1, 1));
}

proof fn lemma_rk43_b2_tree_1()
    ensures
        q_eq(q_dot(rk43_model().b2, elementary_weights(rk43_model().a, 1)), q(1, tree_density(1))),
{
    lemma_rk43_shape();
    lemma_rk43_phi_1();
    assert(q_vec_valid(rk43_model().b2));
    lemma_q_dot_congruent(rk43_model().b2, elementary_weights(rk43_model().a, 1), seq![q(0, 1), q(1, 2), q(1, 2), q(1, 1), q(3, 4)]);
    assert(rk43_model().b2 == seq![q(-1, 2), q(7, 3), q(7, 3), q(13, 6), q(-16, 3)]);
    lemma_rk43_sum_39();
    assert(q_eq(q_dot(rk43_model().b2, seq![q(0, 1), q(1, 2), q(1, 2), q(1, 1), q(3, 4)]), q(1, 2)));
    lemma_q_eq_trans(q_dot(rk43_model().b2, elementary_weights(rk43_model().a, 1)), q_dot(rk43_model().b2, seq![q(0, 1), q(1, 2), q(1, 2), q(1, 1), q(3, 4)]), q(1, 2));
}

proof fn lemma_rk43_b2_tree_2()
    ensures
        q_eq(q_dot(rk43_model().b2, elementary_weights(rk43_model().a, 2)), q(1, tree_density(2))),
{
    lemma_rk43_shape();
    lemma_rk43_phi_2();
    assert(q_vec_valid(rk43_model().b2));
    lemma_q_dot_congruent(rk43_model().b2, elementary_weights(rk43_model().a, 2), seq![q(0, 1), q(1, 4), q(1, 4), q(1, 1), q(9, 16)]);
    assert(rk43_model().b2 == seq![q(-1, 2), q(7, 3), q(7, 3), q(13, 6), q(-16, 3)]);
    lemma_rk43_sum_40();
    assert(q_eq(q_dot(rk43_model().b2, seq![q(0, 1), q(1, 4), q(1, 4), q(1, 1), q(9, 16)]), q(1, 3)));
    lemma_q_eq_trans(q_dot(rk43_model().b2, elementary_weights(rk43_model().a, 2)), q_dot(rk43_model().b2, seq![q(0, 1), q(1, 4), q(1, 4), q(1, 1), q(9, 16)]), q(1, 3));
}

proof fn lemma_rk43_b2_tree_3()
    ensures
        q_eq(q_dot(rk43_model().b2, elementary_weights(rk43_model().a, 3)), q(1, tree_density(3))),
{
    lemma_rk43_shape();
    lemma_rk43_phi_3();
    assert(q_vec_valid(rk43_model().b2));
    lemma_q_dot_congruent(rk43_model().b2, elementary_weights(rk43_model().a, 3), seq![q(0, 1), q(0, 1), q(1, 4), q(1, 2), q(9, 32)]);
    assert(rk43_model().b2 == seq![q(-1, 2), q(7, 3), q(7, 3), q(13, 6), q(-16, 3)]);
    lemma_rk43_sum_41();
    assert(q_eq(q_dot(rk43_model().b2, seq![q(0, 1), q(0, 1), q(1, 4), q(1, 2), q(9, 32)]), q(1, 6)));
    lemma_q_eq_trans(q_dot(rk43_model().b2, elementary_weights(rk43_model().a, 3)), q_dot(rk43_model().b2, seq![q(0, 1), q(0, 1), q(1, 4), q(1, 2), q(9, 32)]), q(1, 6));
}

pub(crate) proof fn lemma_rk43_laws()
    ensures
        table_laws(rk43_model(), 5, 4, 4, 3),
{
    let m = rk43_model();
    lemma_rk43_shape();
    lemma_rk43_rows();
    assert forall|k: int| 0 <= k < num_trees() && tree_order(k) <= 4 implies q_eq(q_dot(m.b, #[trigger] elementary_weights(m.a, k)), q(1, tree_density(k))) by {
        if k == 0 {
            lemma_rk43_b_tree_0();
        } else if k == 1 {
            lemma_rk43_b_tree_1();
        } else if k == 2 {
            lemma_rk43_b_tree_2();
        } else if k == 3 {
            lemma_rk43_b_tree_3();
        } else if k == 4 {
            lemma_rk43_b_tree_4();
        } else if k == 5 {
            lemma_rk43_b_tree_5();
        } else if k == 6 {
            lemma_rk43_b_tree_6();
        } else if k == 7 {
            lemma_rk43_b_tree_7();
        }
    }
    assert forall|k: int| 0 <= k < num_trees() && tree_order(k) <= 3 implies q_eq(q_dot(m.b2, #[trigger] elementary_weights(m.a, k)), q(1, tree_density(k))) by {
        if k == 0 {
            lemma_rk43_b2_tree_0();
        } else if k == 1 {
            lemma_rk43_b2_tree_1();
        } else if k == 2 {
            lemma_rk43_b2_tree_2();
        } else if k == 3 {
            lemma_rk43_b2_tree_3();
        }
    }
}

/// The coefficients of [`crate::rk::ButcherTableu::rktp64`].
pub open spec fn rktp64_model() -> TableauModel {
    TableauModel {
        a: seq![seq![q(0, 1), q(0, 1), q(0, 1), q(0, 1), q(0, 1), q(0, 1), q(0, 1)], seq![q(4, 27), q(0, 1), q(0, 1), q(0, 1), q(0, 1), q(0, 1), q(0, 1)], seq![q(1, 18), q(1, 6), q(0, 1), q(0, 1), q(0, 1), q(0, 1), q(0, 1)], seq![q(66, 343), q(-729, 1372), q(1053, 1372), q(0, 1), q(0, 1), q(0, 1), q(0, 1)], seq![q(13339, 49152), q(-4617, 16384), q(5427, 53248), q(95207, 159744), q(0, 1), q(0, 1), q(0, 1)], seq![q(-6935, 57122), q(23085, 48334), q(33363360, 273642941), q(972160, 118442467), q(172687360, 610434253), q(0, 1), q(0, 1)], seq![q(611, 1891), q(-4617, 7564), q(6041007, 13176488), q(12708836, 22100117), q(-35840000, 62461621), q(6597591, 7972456), q(0, 1)]],
        b: seq![q(131, 1800), q(0, 1), q(1121931, 3902080), q(319333, 1682928), q(262144, 2477325), q(4084223, 15177600), q(1891, 25200)],
        b2: seq![q(2694253, 26100360), q(0, 1), q(83647323, 535804360), q(691202281, 1789061040), q(-1275547648, 10565208225), q(2, 5), q(1891, 25200)],
        c: seq![q(0, 1), q(4, 27), q(2, 9), q(3, 7), q(11, 16), q(10, 13), q(1, 1)],
        bi: seq![seq![q(0, 1), q(1, 1), q(-287, 90), q(98, 27), q(-7387, 5400)], seq![q(0, 1), q(0, 1), q(0, 1), q(0, 1), q(0, 1)], seq![q(0, 1), q(0, 1), q(191241, 60970), q(-29727, 6097), q(7907787, 3902080)], seq![q(0, 1), q(0, 1), q(195853, 135720), q(-3773, 1404), q(36199877, 25243920)], seq![q(0, 1), q(0, 1), q(-268288, 145725), q(16384, 3015), q(-5183488, 1486395)], seq![q(0, 1), q(0, 1), q(0, 1), q(0, 1), q(4084223, 15177600)], seq![q(0, 1), q(0, 1), q(1891, 4200), q(-1891, 1260), q(1891, 1680)]],
    }
}

proof fn lemma_rktp64_sum_1()
    ensures
        q_eq(q_total(seq![q(0, 1), q(0, 1), q(0, 1), q(0, 1), q(0, 1), q(0, 1), q(0, 1)]), q(0, 1)),
        q_valid(q_total(seq![q(0, 1), q(0, 1), q(0, 1), q(0, 1), q(0, 1), q(0, 1), q(0, 1)])),
{
    let s = seq![q(0, 1), q(0, 1), q(0, 1), q(0, 1), q(0, 1), q(0, 1), q(0, 1)];
    assert(s.len() == 7);
    assert(q_sum_to(s, 0) == q(0, 1));
    lemma_q_eq_value(0, 1, 0, 1);
    lemma_q_sum_step(s, 0, 0, 1, 0, 1, 0, 1);
    lemma_q_sum_step(s, 1, 0, 1, 0, 1, 0, 1);
    lemma_q_sum_step(s, 2, 0, 1, 0, 1, 0, 1);
    lemma_q_sum_step(s, 3, 0, 1, 0, 1, 0, 1);
    lemma_q_sum_step(s, 4, 0, 1, 0, 1, 0, 1);
    lemma_q_sum_step(s, 5, 0, 1, 0, 1, 0, 1);
    lemma_q_sum_step(s, 6, 0, 1, 0, 1, 0, 1);
}

proof fn lemma_rktp64_sum_2()
    ensures
        q_eq(q_total(seq![q(0, 1), q(1, 1), q(-287, 90), q(98, 27), q(-7387, 5400)]), q(131, 1800)),
        q_valid(q_total(seq![q(0, 1), q(1, 1), q(-287, 90), q(98, 27), q(-7387, 5400)])),
{
    let s = seq![q(0, 1), q(1, 1), q(-287, 90), q(98, 27), q(-7387, 5400)];
    assert(s.len() == 5);
    assert(q_sum_to(s, 0) == q(0, 1));
    lemma_q_eq_value(0, 1, 0, 1);
    lemma_q_sum_step(s, 0, 0, 1, 0, 1, 0, 1);
    lemma_q_sum_step(s, 1, 0, 1, 1, 1, 1, 1);
    lemma_q_sum_step(s, 2, 1, 1, -287, 90, -197, 90);
    lemma_q_sum_step(s, 3, -197, 90, 98, 27, 389, 270);
    lemma_q_sum_step(s, 4, 389, 270, -7387, 5400, 131, 1800);
}

proof fn lemma_rktp64_sum_3()
    ensures
        q_eq(q_total(seq![q(4, 27), q(0, 1), q(0, 1), q(0, 1), q(0, 1), q(0, 1), q(0, 1)]), q(4, 27)),
        q_valid(q_total(seq![q(4, 27), q(0, 1), q(0, 1), q(0, 1), q(0, 1), q(0, 1), q(0, 1)])),
{
    let s = seq![q(4, 27), q(0, 1), q(0, 1), q(0, 1), q(0, 1), q(0, 1), q(0, 1)];
    assert(s.len() == 7);
    assert(q_sum_to(s, 0) == q(0, 1));
    lemma_q_eq_value(0, 1, 0, 1);
    lemma_q_sum_step(s, 0, 0, 1, 4, 27, 4, 27);
    lemma_q_sum_step(s, 1, 4, 27, 0, 1, 4, 27);
    lemma_q_sum_step(s, 2, 4, 27, 0, 1, 4, 27);
    lemma_q_sum_step(s, 3, 4, 27, 0, 1, 4, 27);
    lemma_q_sum_step(s, 4, 4, 27, 0, 1, 4, 27);
    lemma_q_sum_step(s, 5, 4, 27, 0, 1, 4, 27);
    lemma_q_sum_step(s, 6, 4, 27, 0, 1, 4, 27);
}

proof fn lemma_rktp64_sum_4()
    ensures
        q_eq(q_total(seq![q(0, 1), q(0, 1), q(0, 1), q(0, 1), q(0, 1)]), q(0, 1)),
        q_valid(q_total(seq![q(0, 1), q(0, 1), q(0, 1), q(0, 1), q(0, 1)])),
{
    let s = seq![q(0, 1), q(0, 1), q(0, 1), q(0, 1), q(0, 1)];
    assert(s.len() == 5);
    assert(q_sum_to(s, 0) == q(0, 1));
    lemma_q_eq_value(0, 1, 0, 1);
    lemma_q_sum_step(s, 0, 0, 1, 0, 1, 0, 1);
    lemma_q_sum_step(s, 1, 0, 1, 0, 1, 0, 1);
    lemma_q_sum_step(s, 2, 0, 1, 0, 1, 0, 1);
    lemma_q_sum_step(s, 3, 0, 1, 0, 1, 0, 1);
    lemma_q_sum_step(s, 4, 0, 1, 0, 1, 0, 1);
}

proof fn lemma_rktp64_sum_5()
    ensures
        q_eq(q_total(seq![q(1, 18), q(1, 6), q(0, 1), q(0, 1), q(0, 1), q(0, 1), q(0, 1)]), q(2, 9)),
        q_valid(q_total(seq![q(1, 18), q(1, 6), q(0, 1), q(0, 1), q(0, 1), q(0, 1), q(0, 1)])),
{
    let s = seq![q(1, 18), q(1, 6), q(0, 1), q(0, 1), q(0, 1), q(0, 1), q(0, 1)];
    assert(s.len() == 7);
    assert(q_sum_to(s, 0) == q(0, 1));
    lemma_q_eq_value(0, 1, 0, 1);
    lemma_q_sum_step(s, 0, 0, 1, 1, 18, 1, 18);
    lemma_q_sum_step(s, 1, 1, 18, 1, 6, 2, 9);
    lemma_q_sum_step(s, 2, 2, 9, 0, 1, 2, 9);
    lemma_q_sum_step(s, 3, 2, 9, 0, 1, 2, 9);
    lemma_q_sum_step(s, 4, 2, 9, 0, 1, 2, 9);
    lemma_q_sum_step(s, 5, 2, 9, 0, 1, 2, 9);
    lemma_q_sum_step(s, 6, 2, 9, 0, 1, 2, 9);
}

proof fn lemma_rktp64_sum_6()
    ensures
        q_eq(q_total(seq![q(0, 1), q(0, 1), q(191241, 60970), q(-29727, 6097), q(7907787, 3902080)]), q(1121931, 3902080)),
        q_valid(q_total(seq![q(0, 1), q(0, 1), q(191241, 60970), q(-29727, 6097), q(7907787, 3902080)])),
{
    let s = seq![q(0, 1), q(0, 1), q(191241, 60970), q(-29727, 6097), q(7907787, 3902080)];
    assert(s.len() == 5);
    assert(q_sum_to(s, 0) == q(0, 1));
    lemma_q_eq_value(0, 1, 0, 1);
    lemma_q_sum_step(s, 0, 0, 1, 0, 1, 0, 1);
    lemma_q_sum_step(s, 1, 0, 1, 0, 1, 0, 1);
    lemma_q_sum_step(s, 2, 0, 1, 191241, 60970, 191241, 60970);
    lemma_q_sum_step(s, 3, 191241, 60970, -29727, 6097, -15147, 8710);
    lemma_q_sum_step(s, 4, -15147, 8710, 7907787, 3902080, 1121931, 3902080);
}

proof fn lemma_rktp64_sum_7()
    ensures
        q_eq(q_total(seq![q(66, 343), q(-729, 1372), q(1053, 1372), q(0, 1), q(0, 1), q(0, 1), q(0, 1)]), q(3, 7)),
        q_valid(q_total(seq![q(66, 343), q(-729, 1372), q(1053, 1372), q(0, 1), q(0, 1), q(0, 1), q(0, 1)])),
{
    let s = seq![q(66, 343), q(-729, 1372), q(1053, 1372), q(0, 1), q(0, 1), q(0, 1), q(0, 1)];
    assert(s.len() == 7);
    assert(q_sum_to(s, 0) == q(0, 1));
    lemma_q_eq_value(0, 1, 0, 1);
    lemma_q_sum_step(s, 0, 0, 1, 66, 343, 66, 343);
    lemma_q_sum_step(s, 1, 66, 343, -729, 1372, -465, 1372);
    lemma_q_sum_step(s, 2, -465, 1372, 1053, 1372, 3, 7);
    lemma_q_sum_step(s, 3, 3, 7, 0, 1, 3, 7);
    lemma_q_sum_step(s, 4, 3, 7, 0, 1, 3, 7);
    lemma_q_sum_step(s, 5, 3, 7, 0, 1, 3, 7);
    lemma_q_sum_step(s, 6, 3, 7, 0, 1, 3, 7);
}

proof fn lemma_rktp64_sum_8()
    ensures
        q_eq(q_total(seq![q(0, 1), q(0, 1), q(195853, 135720), q(-3773, 1404), q(36199877, 25243920)]), q(319333, 1682928)),
        q_valid(q_total(seq![q(0, 1), q(0, 1), q(195853, 135720), q(-3773, 1404), q(36199877, 25243920)])),
{
    let s = seq![q(0, 1), q(0, 1), q(195853, 135720), q(-3773, 1404), q(36199877, 25243920)];
    assert(s.len() == 5);
    assert(q_sum_to(s, 0) == q(0, 1));
    lemma_q_eq_value(0, 1, 0, 1);
    lemma_q_sum_step(s, 0, 0, 1, 0, 1, 0, 1);
    lemma_q_sum_step(s, 1, 0, 1, 0, 1, 0, 1);
    lemma_q_sum_step(s, 2, 0, 1, 195853, 135720, 195853, 135720);
    lemma_q_sum_step(s, 3, 195853, 135720, -3773, 1404, -506611, 407160);
    lemma_q_sum_step(s, 4, -506611, 407160, 36199877, 25243920, 319333, 1682928);
}

proof fn lemma_rktp64_sum_9()
    ensures
        q_eq(q_total(seq![q(13339, 49152), q(-4617, 16384), q(5427, 53248), q(95207, 159744), q(0, 1), q(0, 1), q(0, 1)]), q(11, 16)),
        q_valid(q_total(seq![q(13339, 49152), q(-4617, 16384), q(5427, 53248), q(95207, 159744), q(0, 1), q(0, 1), q(0, 1)])),
{
    let s = seq![q(13339, 49152), q(-4617, 16384), q(5427, 53248), q(95207, 159744), q(0, 1), q(0, 1), q(0, 1)];
    assert(s.len() == 7);
    assert(q_sum_to(s, 0) == q(0, 1));
    lemma_q_eq_value(0, 1, 0, 1);
    lemma_q_sum_step(s, 0, 0, 1, 13339, 49152, 13339, 49152);
    lemma_q_sum_step(s, 1, 13339, 49152, -4617, 16384, -1, 96);
    lemma_q_sum_step(s, 2, -1, 96, 5427, 53248, 14617, 159744);
    lemma_q_sum_step(s, 3, 14617, 159744, 95207, 159744, 11, 16);
    lemma_q_sum_step(s, 4, 11, 16, 0, 1, 11, 16);
    lemma_q_sum_step(s, 5, 11, 16, 0, 1, 11, 16);
    lemma_q_sum_step(s, 6, 11, 16, 0, 1, 11, 16);
}

proof fn lemma_rktp64_sum_10()
    ensures
        q_eq(q_total(seq![q(0, 1), q(0, 1), q(-268288, 145725), q(16384, 3015), q(-5183488, 1486395)]), q(262144, 2477325)),
        q_valid(q_total(seq![q(0, 1), q(0, 1), q(-268288, 145725), q(16384, 3015), q(-5183488, 1486395)])),
{
    let s = seq![q(0, 1), q(0, 1), q(-268288, 145725), q(16384, 3015), q(-5183488, 1486395)];
    assert(s.len() == 5);
    assert(q_sum_to(s, 0) == q(0, 1));
    lemma_q_eq_value(0, 1, 0, 1);
    lemma_q_sum_step(s, 0, 0, 1, 0, 1, 0, 1);
    lemma_q_sum_step(s, 1, 0, 1, 0, 1, 0, 1);
    lemma_q_sum_step(s, 2, 0, 1, -268288, 145725, -268288, 145725);
    lemma_q_sum_step(s, 3, -268288, 145725, 16384, 3015, 1570816, 437175);
    lemma_q_sum_step(s, 4, 1570816, 437175, -5183488, 1486395, 262144, 2477325);
}

proof fn lemma_rktp64_sum_11()
    ensures
        q_eq(q_total(seq![q(-6935, 57122), q(23085, 48334), q(33363360, 273642941), q(972160, 118442467), q(172687360, 610434253), q(0, 1), q(0, 1)]), q(10, 13)),
        q_valid(q_total(seq![q(-6935, 57122), q(23085, 48334), q(33363360, 273642941), q(972160, 118442467), q(172687360, 610434253), q(0, 1), q(0, 1)])),
{
    let s = seq![q(-6935, 57122), q(23085, 48334), q(33363360, 273642941), q(972160, 118442467), q(172687360, 610434253), q(0, 1), q(0, 1)];
    assert(s.len() == 7);
    assert(q_sum_to(s, 0) == q(0, 1));
    lemma_q_eq_value(0, 1, 0, 1);
    lemma_q_sum_step(s, 0, 0, 1, -6935, 57122, -6935, 57122);
    lemma_q_sum_step(s, 1, -6935, 57122, 23085, 48334, 111910, 314171);
    lemma_q_sum_step(s, 2, 111910, 314171, 33363360, 273642941, 11894270, 24876631);
    lemma_q_sum_step(s, 3, 11894270, 24876631, 972160, 118442467, 296877450, 610434253);
    lemma_q_sum_step(s, 4, 296877450, 610434253, 172687360, 610434253, 10, 13);
    lemma_q_sum_step(s, 5, 10, 13, 0, 1, 10, 13);
    lemma_q_sum_step(s, 6, 10, 13, 0, 1, 10, 13);
}

proof fn lemma_rktp64_sum_12()
    ensures
        q_eq(q_total(seq![q(0, 1), q(0, 1), q(0, 1), q(0, 1), q(4084223, 15177600)]), q(4084223, 15177600)),
        q_valid(q_total(seq![q(0, 1), q(0, 1), q(0, 1), q(0, 1), q(4084223, 15177600)])),
{
    let s = seq![q(0, 1), q(0, 1), q(0, 1), q(0, 1), q(4084223, 15177600)];
    assert(s.len() == 5);
    assert(q_sum_to(s, 0) == q(0, 1));
    lemma_q_eq_value(0, 1, 0, 1);
    lemma_q_sum_step(s, 0, 0, 1, 0, 1, 0, 1);
    lemma_q_sum_step(s, 1, 0, 1, 0, 1, 0, 1);
    lemma_q_sum_step(s, 2, 0, 1, 0, 1, 0, 1);
    lemma_q_sum_step(s, 3, 0, 1, 0, 1, 0, 1);
    lemma_q_sum_step(s, 4, 0, 1, 4084223, 15177600, 4084223, 15177600);
}

proof fn lemma_rktp64_sum_13()
    ensures
        q_eq(q_total(seq![q(611, 1891), q(-4617, 7564), q(6041007, 13176488), q(12708836, 22100117), q(-35840000, 62461621), q(6597591, 7972456), q(0, 1)]), q(1, 1)),
        q_valid(q_total(seq![q(611, 1891), q(-4617, 7564), q(6041007, 13176488), q(12708836, 22100117), q(-35840000, 62461621), q(6597591, 7972456), q(0, 1)])),
{
    let s = seq![q(611, 1891), q(-4617, 7564), q(6041007, 13176488), q(12708836, 22100117), q(-35840000, 62461621), q(6597591, 7972456), q(0, 1)];
    assert(s.len() == 7);
    assert(q_sum_to(s, 0) == q(0, 1));
    lemma_q_eq_value(0, 1, 0, 1);
    lemma_q_sum_step(s, 0, 0, 1, 611, 1891, 611, 1891);
    lemma_q_sum_step(s, 1, 611, 1891, -4617, 7564, -2173, 7564);
    lemma_q_sum_step(s, 2, -2173, 7564, 6041007, 13176488, 2255641, 13176488);
    lemma_q_sum_step(s, 3, 2255641, 13176488, 12708836, 22100117, 11147235, 14937784);
    lemma_q_sum_step(s, 4, 11147235, 14937784, -35840000, 62461621, 1374865, 7972456);
    lemma_q_sum_step(s, 5, 1374865, 7972456, 6597591, 7972456, 1, 1);
    lemma_q_sum_step(s, 6, 1, 1, 0, 1, 1, 1);
}

proof fn lemma_rktp64_sum_14()
    ensures
        q_eq(q_total(seq![q(0, 1), q(0, 1), q(1891, 4200), q(-1891, 1260), q(1891, 1680)]), q(1891, 25200)),
        q_valid(q_total(seq![q(0, 1), q(0, 1), q(1891, 4200), q(-1891, 1260), q(1891, 1680)])),
{
    let s = seq![q(0, 1), q(0, 1), q(1891, 4200), q(-1891, 1260), q(1891, 1680)];
    assert(s.len() == 5);
    assert(q_sum_to(s, 0) == q(0, 1));
    lemma_q_eq_value(0, 1, 0, 1);
    lemma_q_sum_step(s, 0, 0, 1, 0, 1, 0, 1);
    lemma_q_sum_step(s, 1, 0, 1, 0, 1, 0, 1);
    lemma_q_sum_step(s, 2, 0, 1, 1891, 4200, 1891, 4200);
    lemma_q_sum_step(s, 3, 1891, 4200, -1891, 1260, -1891, 1800);
    lemma_q_sum_step(s, 4, -1891, 1800, 1891, 1680, 1891, 25200);
}

proof fn lemma_rktp64_sum_15()
    ensures
        q_eq(q_dot(seq![q(0, 1), q(0, 1), q(0, 1), q(0, 1), q(0, 1), q(0, 1), q(0, 1)], seq![q(1, 1), q(1, 1), q(1, 1), q(1, 1), q(1, 1), q(1, 1), q(1, 1)]), q(0, 1)),
        q_valid(q_dot(seq![q(0, 1), q(0, 1), q(0, 1), q(0, 1), q(0, 1), q(0, 1), q(0, 1)], seq![q(1, 1), q(1, 1), q(1, 1), q(1, 1), q(1, 1), q(1, 1), q(1, 1)])),
{
    let x = seq![q(0, 1), q(0, 1), q(0, 1), q(0, 1), q(0, 1), q(0, 1), q(0, 1)];
    let y = seq![q(1, 1), q(1, 1), q(1, 1), q(1, 1), q(1, 1), q(1, 1), q(1, 1)];
    let s = q_hadamard(x, y);
    assert(s.len() == 7);
    lemma_q_hadamard_entry(x, y, 0, 0, 1, 1, 1);
    lemma_q_hadamard_entry(x, y, 1, 0, 1, 1, 1);
    lemma_q_hadamard_entry(x, y, 2, 0, 1, 1, 1);
    lemma_q_hadamard_entry(x, y, 3, 0, 1, 1, 1);
    lemma_q_hadamard_entry(x, y, 4, 0, 1, 1, 1);
    lemma_q_hadamard_entry(x, y, 5, 0, 1, 1, 1);
    lemma_q_hadamard_entry(x, y, 6, 0, 1, 1, 1);
    assert(q_sum_to(s, 0) == q(0, 1));
    lemma_q_eq_value(0, 1, 0, 1);
    lemma_q_sum_step(s, 0, 0, 1, 0, 1, 0, 1);
    lemma_q_sum_step(s, 1, 0, 1, 0, 1, 0, 1);
    lemma_q_sum_step(s, 2, 0, 1, 0, 1, 0, 1);
    lemma_q_sum_step(s, 3, 0, 1, 0, 1, 0, 1);
    lemma_q_sum_step(s, 4, 0, 1, 0, 1, 0, 1);
    lemma_q_sum_step(s, 5, 0, 1, 0, 1, 0, 1);
    lemma_q_sum_step(s, 6, 0, 1, 0, 1, 0, 1);
}

proof fn lemma_rktp64_sum_16()
    ensures
        q_eq(q_dot(seq![q(4, 27), q(0, 1), q(0, 1), q(0, 1), q(0, 1), q(0, 1), q(0, 1)], seq![q(1, 1), q(1, 1), q(1, 1), q(1, 1), q(1, 1), q(1, 1), q(1, 1)]), q(4, 27)),
        q_valid(q_dot(seq![q(4, 27), q(0, 1), q(0, 1), q(0, 1), q(0, 1), q(0, 1), q(0, 1)], seq![q(1, 1), q(1, 1), q(1, 1), q(1, 1), q(1, 1), q(1, 1), q(1, 1)])),
{
    let x = seq![q(4, 27), q(0, 1), q(0, 1), q(0, 1), q(0, 1), q(0, 1), q(0, 1)];
    let y = seq![q(1, 1), q(1, 1), q(1, 1), q(1, 1), q(1, 1), q(1, 1), q(1, 1)];
    let s = q_hadamard(x, y);
    assert(s.len() == 7);
    lemma_q_hadamard_entry(x, y, 0, 4, 27, 1, 1);
    lemma_q_hadamard_entry(x, y, 1, 0, 1, 1, 1);
    lemma_q_hadamard_entry(x, y, 2, 0, 1, 1, 1);
    lemma_q_hadamard_entry(x, y, 3, 0, 1, 1, 1);
    lemma_q_hadamard_entry(x, y, 4, 0, 1, 1, 1);
    lemma_q_hadamard_entry(x, y, 5, 0, 1, 1, 1);
    lemma_q_hadamard_entry(x, y, 6, 0, 1, 1, 1);
    assert(q_sum_to(s, 0) == q(0, 1));
    lemma_q_eq_value(0, 1, 0, 1);
    lemma_q_sum_step(s, 0, 0, 1, 4, 27, 4, 27);
    lemma_q_sum_step(s, 1, 4, 27, 0, 1, 4, 27);
    lemma_q_sum_step(s, 2, 4, 27, 0, 1, 4, 27);
    lemma_q_sum_step(s, 3, 4, 27, 0, 1, 4, 27);
    lemma_q_sum_step(s, 4, 4, 27, 0, 1, 4, 27);
    lemma_q_sum_step(s, 5, 4, 27, 0, 1, 4, 27);
    lemma_q_sum_step(s, 6, 4, 27, 0, 1, 4, 27);
}

proof fn lemma_rktp64_sum_17()
    ensures
        q_eq(q_dot(seq![q(1, 18), q(1, 6), q(0, 1), q(0, 1), q(0, 1), q(0, 1), q(0, 1)], seq![q(1, 1), q(1, 1), q(1, 1), q(1, 1), q(1, 1), q(1, 1), q(1, 1)]), q(2, 9)),
        q_valid(q_dot(seq![q(1, 18), q(1, 6), q(0, 1), q(0, 1), q(0, 1), q(0, 1), q(0, 1)], seq![q(1, 1), q(1, 1), q(1, 1), q(1, 1), q(1, 1), q(1, 1), q(1, 1)])),
{
    let x = seq![q(1, 18), q(1, 6), q(0, 1), q(0, 1), q(0, 1), q(0, 1), q(0, 1)];
    let y = seq![q(1, 1), q(1, 1), q(1, 1), q(1, 1), q(1, 1), q(1, 1), q(1, 1)];
    let s = q_hadamard(x, y);
    assert(s.len() == 7);
    lemma_q_hadamard_entry(x, y, 0, 1, 18, 1, 1);
    lemma_q_hadamard_entry(x, y, 1, 1, 6, 1, 1);
    lemma_q_hadamard_entry(x, y, 2, 0, 1, 1, 1);
    lemma_q_hadamard_entry(x, y, 3, 0, 1, 1, 1);
    lemma_q_hadamard_entry(x, y, 4, 0, 1, 1, 1);
    lemma_q_hadamard_entry(x, y, 5, 0, 1, 1, 1);
    lemma_q_hadamard_entry(x, y, 6, 0, 1, 1, 1);
    assert(q_sum_to(s, 0) == q(0, 1));
    lemma_q_eq_value(0, 1, 0, 1);
    lemma_q_sum_step(s, 0, 0, 1, 1, 18, 1, 18);
    lemma_q_sum_step(s, 1, 1, 18, 1, 6, 2, 9);
    lemma_q_sum_step(s, 2, 2, 9, 0, 1, 2, 9);
    lemma_q_sum_step(s, 3, 2, 9, 0, 1, 2, 9);
    lemma_q_sum_step(s, 4, 2, 9, 0, 1, 2, 9);
    lemma_q_sum_step(s, 5, 2, 9, 0, 1, 2, 9);
    lemma_q_sum_step(s, 6, 2, 9, 0, 1, 2, 9);
}

proof fn lemma_rktp64_sum_18()
    ensures
        q_eq(q_dot(seq![q(66, 343), q(-729, 1372), q(1053, 1372), q(0, 1), q(0, 1), q(0, 1), q(0, 1)], seq![q(1, 1), q(1, 1), q(1, 1), q(1, 1), q(1, 1), q(1, 1), q(1, 1)]), q(3, 7)),
        q_valid(q_dot(seq![q(66, 343), q(-729, 1372), q(1053, 1372), q(0, 1), q(0, 1), q(0, 1), q(0, 1)], seq![q(1, 1), q(1, 1), q(1, 1), q(1, 1), q(1, 1), q(1, 1), q(1, 1)])),
{
    let x = seq![q(66, 343), q(-729, 1372), q(1053, 1372), q(0, 1), q(0, 1), q(0, 1), q(0, 1)];
    let y = seq![q(1, 1), q(1, 1), q(1, 1), q(1, 1), q(1, 1), q(1, 1), q(1, 1)];
    let s = q_hadamard(x, y);
    assert(s.len() == 7);
    lemma_q_hadamard_entry(x, y, 0, 66, 343, 1, 1);
    lemma_q_hadamard_entry(x, y, 1, -729, 1372, 1, 1);
    lemma_q_hadamard_entry(x, y, 2, 1053, 1372, 1, 1);
    lemma_q_hadamard_entry(x, y, 3, 0, 1, 1, 1);
    lemma_q_hadamard_entry(x, y, 4, 0, 1, 1, 1);
    lemma_q_hadamard_entry(x, y, 5, 0, 1, 1, 1);
    lemma_q_hadamard_entry(x, y, 6, 0, 1, 1, 1);
    assert(q_sum_to(s, 0) == q(0, 1));
    lemma_q_eq_value(0, 1, 0, 1);
    lemma_q_sum_step(s, 0, 0, 1, 66, 343, 66, 343);
    lemma_q_sum_step(s, 1, 66, 343, -729, 1372, -465, 1372);
    lemma_q_sum_step(s, 2, -465, 1372, 1053, 1372, 3, 7);
    lemma_q_sum_step(s, 3, 3, 7, 0, 1, 3, 7);
    lemma_q_sum_step(s, 4, 3, 7, 0, 1, 3, 7);
    lemma_q_sum_step(s, 5, 3, 7, 0, 1, 3, 7);
    lemma_q_sum_step(s, 6, 3, 7, 0, 1, 3, 7);
}

proof fn lemma_rktp64_sum_19()
    ensures
        q_eq(q_dot(seq![q(13339, 49152), q(-4617, 16384), q(5427, 53248), q(95207, 159744), q(0, 1), q(0, 1), q(0, 1)], seq![q(1, 1), q(1, 1), q(1, 1), q(1, 1), q(1, 1), q(1, 1), q(1, 1)]), q(11, 16)),
        q_valid(q_dot(seq![q(13339, 49152), q(-4617, 16384), q(5427, 53248), q(95207, 159744), q(0, 1), q(0, 1), q(0, 1)], seq![q(1, 1), q(1, 1), q(1, 1), q(1, 1), q(1, 1), q(1, 1), q(1, 1)])),
{
    let x = seq![q(13339, 49152), q(-4617, 16384), q(5427, 53248), q(95207, 159744), q(0, 1), q(0, 1), q(0, 1)];
    let y = seq![q(1, 1), q(1, 1), q(1, 1), q(1, 1), q(1, 1), q(1, 1), q(1, 1)];
    let s = q_hadamard(x, y);
    assert(s.len() == 7);
    lemma_q_hadamard_entry(x, y, 0, 13339, 49152, 1, 1);
    lemma_q_hadamard_entry(x, y, 1, -4617, 16384, 1, 1);
    lemma_q_hadamard_entry(x, y, 2, 5427, 53248, 1, 1);
    lemma_q_hadamard_entry(x, y, 3, 95207, 159744, 1, 1);
    lemma_q_hadamard_entry(x, y, 4, 0, 1, 1, 1);
    lemma_q_hadamard_entry(x, y, 5, 0, 1, 1, 1);
    lemma_q_hadamard_entry(x, y, 6, 0, 1, 1, 1);
    assert(q_sum_to(s, 0) == q(0, 1));
    lemma_q_eq_value(0, 1, 0, 1);
    lemma_q_sum_step(s, 0, 0, 1, 13339, 49152, 13339, 49152);
    lemma_q_sum_step(s, 1, 13339, 49152, -4617, 16384, -1, 96);
    lemma_q_sum_step(s, 2, -1, 96, 5427, 53248, 14617, 159744);
    lemma_q_sum_step(s, 3, 14617, 159744, 95207, 159744, 11, 16);
    lemma_q_sum_step(s, 4, 11, 16, 0, 1, 11, 16);
    lemma_q_sum_step(s, 5, 11, 16, 0, 1, 11, 16);
    lemma_q_sum_step(s, 6, 11, 16, 0, 1, 11, 16);
}

proof fn lemma_rktp64_sum_20()
    ensures
        q_eq(q_dot(seq![q(-6935, 57122), q(23085, 48334), q(33363360, 273642941), q(972160, 118442467), q(172687360, 610434253), q(0, 1), q(0, 1)], seq![q(1, 1), q(1, 1), q(1, 1), q(1, 1), q(1, 1), q(1, 1), q(1, 1)]), q(10, 13)),
        q_valid(q_dot(seq![q(-6935, 57122), q(23085, 48334), q(33363360, 273642941), q(972160, 118442467), q(172687360, 610434253), q(0, 1), q(0, 1)], seq![q(1, 1), q(1, 1), q(1, 1), q(1, 1), q(1, 1), q(1, 1), q(1, 1)])),
{
    let x = seq![q(-6935, 57122), q(23085, 48334), q(33363360, 273642941), q(972160, 118442467), q(172687360, 610434253), q(0, 1), q(0, 1)];
    let y = seq![q(1, 1), q(1, 1), q(1, 1), q(1, 1), q(1, 1), q(1, 1), q(1, 1)];
    let s = q_hadamard(x, y);
    assert(s.len() == 7);
    lemma_q_hadamard_entry(x, y, 0, -6935, 57122, 1, 1);
    lemma_q_hadamard_entry(x, y, 1, 23085, 48334, 1, 1);
    lemma_q_hadamard_entry(x, y, 2, 33363360, 273642941, 1, 1);
    lemma_q_hadamard_entry(x, y, 3, 972160, 118442467, 1, 1);
    lemma_q_hadamard_entry(x, y, 4, 172687360, 610434253, 1, 1);
    lemma_q_hadamard_entry(x, y, 5, 0, 1, 1, 1);
    lemma_q_hadamard_entry(x, y, 6, 0, 1, 1, 1);
    assert(q_sum_to(s, 0) == q(0, 1));
    lemma_q_eq_value(0, 1, 0, 1);
    lemma_q_sum_step(s, 0, 0, 1, -6935, 57122, -6935, 57122);
    lemma_q_sum_step(s, 1, -6935, 57122, 23085, 48334, 111910, 314171);
    lemma_q_sum_step(s, 2, 111910, 314171, 33363360, 273642941, 11894270, 24876631);
    lemma_q_sum_step(s, 3, 11894270, 24876631, 972160, 118442467, 296877450, 610434253);
    lemma_q_sum_step(s, 4, 296877450, 610434253, 172687360, 610434253, 10, 13);
    lemma_q_sum_step(s, 5, 10, 13, 0, 1, 10, 13);
    lemma_q_sum_step(s, 6, 10, 13, 0, 1, 10, 13);
}

proof fn lemma_rktp64_sum_21()
    ensures
        q_eq(q_dot(seq![q(611, 1891), q(-4617, 7564), q(6041007, 13176488), q(12708836, 22100117), q(-35840000, 62461621), q(6597591, 7972456), q(0, 1)], seq![q(1, 1), q(1, 1), q(1, 1), q(1, 1), q(1, 1), q(1, 1), q(1, 1)]), q(1, 1)),
        q_valid(q_dot(seq![q(611, 1891), q(-4617, 7564), q(6041007, 13176488), q(12708836, 22100117), q(-35840000, 62461621), q(6597591, 7972456), q(0, 1)], seq![q(1, 1), q(1, 1), q(1, 1), q(1, 1), q(1, 1), q(1, 1), q(1, 1)])),
{
    let x = seq![q(611, 1891), q(-4617, 7564), q(6041007, 13176488), q(12708836, 22100117), q(-35840000, 62461621), q(6597591, 7972456), q(0, 1)];
    let y = seq![q(1, 1), q(1, 1), q(1, 1), q(1, 1), q(1, 1), q(1, 1), q(1, 1)];
    let s = q_hadamard(x, y);
    assert(s.len() == 7);
    lemma_q_hadamard_entry(x, y, 0, 611, 1891, 1, 1);
    lemma_q_hadamard_entry(x, y, 1, -4617, 7564, 1, 1);
    lemma_q_hadamard_entry(x, y, 2, 6041007, 13176488, 1, 1);
    lemma_q_hadamard_entry(x, y, 3, 12708836, 22100117, 1, 1);
    lemma_q_hadamard_entry(x, y, 4, -35840000, 62461621, 1, 1);
    lemma_q_hadamard_entry(x, y, 5, 6597591, 7972456, 1, 1);
    lemma_q_hadamard_entry(x, y, 6, 0, 1, 1, 1);
    assert(q_sum_to(s, 0) == q(0, 1));
    lemma_q_eq_value(0, 1, 0, 1);
    lemma_q_sum_step(s, 0, 0, 1, 611, 1891, 611, 1891);
    lemma_q_sum_step(s, 1, 611, 1891, -4617, 7564, -2173, 7564);
    lemma_q_sum_step(s, 2, -2173, 7564, 6041007, 13176488, 2255641, 13176488);
    lemma_q_sum_step(s, 3, 2255641, 13176488, 12708836, 22100117, 11147235, 14937784);
    lemma_q_sum_step(s, 4, 11147235, 14937784, -35840000, 62461621, 1374865, 7972456);
    lemma_q_sum_step(s, 5, 1374865, 7972456, 6597591, 7972456, 1, 1);
    lemma_q_sum_step(s, 6, 1, 1, 0, 1, 1, 1);
}

proof fn lemma_rktp64_sum_22()
    ensures
        q_eq(q_dot(seq![q(0, 1), q(0, 1), q(0, 1), q(0, 1), q(0, 1), q(0, 1), q(0, 1)], seq![q(0, 1), q(4, 27), q(2, 9), q(3, 7), q(11, 16), q(10, 13), q(1, 1)]), q(0, 1)),
        q_valid(q_dot(seq![q(0, 1), q(0, 1), q(0, 1), q(0, 1), q(0, 1), q(0, 1), q(0, 1)], seq![q(0, 1), q(4, 27), q(2, 9), q(3, 7), q(11, 16), q(10, 13), q(1, 1)])),
{
    let x = seq![q(0, 1), q(0, 1), q(0, 1), q(0, 1), q(0, 1), q(0, 1), q(0, 1)];
    let y = seq![q(0, 1), q(4, 27), q(2, 9), q(3, 7), q(11, 16), q(10, 13), q(1, 1)];
    let s = q_hadamard(x, y);
    assert(s.len() == 7);
    lemma_q_hadamard_entry(x, y, 0, 0, 1, 0, 1);
    lemma_q_hadamard_entry(x, y, 1, 0, 1, 4, 27);
    lemma_q_hadamard_entry(x, y, 2, 0, 1, 2, 9);
    lemma_q_hadamard_entry(x, y, 3, 0, 1, 3, 7);
    lemma_q_hadamard_entry(x, y, 4, 0, 1, 11, 16);
    lemma_q_hadamard_entry(x, y, 5, 0, 1, 10, 13);
    lemma_q_hadamard_entry(x, y, 6, 0, 1, 1, 1);
    assert(q_sum_to(s, 0) == q(0, 1));
    lemma_q_eq_value(0, 1, 0, 1);
    lemma_q_sum_step(s, 0, 0, 1, 0, 1, 0, 1);
    lemma_q_sum_step(s, 1, 0, 1, 0, 27, 0, 1);
    lemma_q_sum_step(s, 2, 0, 1, 0, 9, 0, 1);
    lemma_q_sum_step(s, 3, 0, 1, 0, 7, 0, 1);
    lemma_q_sum_step(s, 4, 0, 1, 0, 16, 0, 1);
    lemma_q_sum_step(s, 5, 0, 1, 0, 13, 0, 1);
    lemma_q_sum_step(s, 6, 0, 1, 0, 1, 0, 1);
}

proof fn lemma_rktp64_sum_23()
    ensures
        q_eq(q_dot(seq![q(4, 27), q(0, 1), q(0, 1), q(0, 1), q(0, 1), q(0, 1), q(0, 1)], seq![q(0, 1), q(4, 27), q(2, 9), q(3, 7), q(11, 16), q(10, 13), q(1, 1)]), q(0, 1)),
        q_valid(q_dot(seq![q(4, 27), q(0, 1), q(0, 1), q(0, 1), q(0, 1), q(0, 1), q(0, 1)], seq![q(0, 1), q(4, 27), q(2, 9), q(3, 7), q(11, 16), q(10, 13), q(1, 1)])),
{
    let x = seq![q(4, 27), q(0, 1), q(0, 1), q(0, 1), q(0, 1), q(0, 1), q(0, 1)];
    let y = seq![q(0, 1), q(4, 27), q(2, 9), q(3, 7), q(11, 16), q(10, 13), q(1, 1)];
    let s = q_hadamard(x, y);
    assert(s.len() == 7);
    lemma_q_hadamard_entry(x, y, 0, 4, 27, 0, 1);
    lemma_q_hadamard_entry(x, y, 1, 0, 1, 4, 27);
    lemma_q_hadamard_entry(x, y, 2, 0, 1, 2, 9);
    lemma_q_hadamard_entry(x, y, 3, 0, 1, 3, 7);
    lemma_q_hadamard_entry(x, y, 4, 0, 1, 11, 16);
    lemma_q_hadamard_entry(x, y, 5, 0, 1, 10, 13);
    lemma_q_hadamard_entry(x, y, 6, 0, 1, 1, 1);
    assert(q_sum_to(s, 0) == q(0, 1));
    lemma_q_eq_value(0, 1, 0, 1);
    lemma_q_sum_step(s, 0, 0, 1, 0, 27, 0, 1);
    lemma_q_sum_step(s, 1, 0, 1, 0, 27, 0, 1);
    lemma_q_sum_step(s, 2, 0, 1, 0, 9, 0, 1);
    lemma_q_sum_step(s, 3, 0, 1, 0, 7, 0, 1);
    lemma_q_sum_step(s, 4, 0, 1, 0, 16, 0, 1);
    lemma_q_sum_step(s, 5, 0, 1, 0, 13, 0, 1);
    lemma_q_sum_step(s, 6, 0, 1, 0, 1, 0, 1);
}

proof fn lemma_rktp64_sum_24()
    ensures
        q_eq(q_dot(seq![q(1, 18), q(1, 6), q(0, 1), q(0, 1), q(0, 1), q(0, 1), q(0, 1)], seq![q(0, 1), q(4, 27), q(2, 9), q(3, 7), q(11, 16), q(10, 13), q(1, 1)]), q(2, 81)),
        q_valid(q_dot(seq![q(1, 18), q(1, 6), q(0, 1), q(0, 1), q(0, 1), q(0, 1), q(0, 1)], seq![q(0, 1), q(4, 27), q(2, 9), q(3, 7), q(11, 16), q(10, 13), q(1, 1)])),
{
    let x = seq![q(1, 18), q(1, 6), q(0, 1), q(0, 1), q(0, 1), q(0, 1), q(0, 1)];
    let y = seq![q(0, 1), q(4, 27), q(2, 9), q(3, 7), q(11, 16), q(10, 13), q(1, 1)];
    let s = q_hadamard(x, y);
    assert(s.len() == 7);
    lemma_q_hadamard_entry(x, y, 0, 1, 18, 0, 1);
    lemma_q_hadamard_entry(x, y, 1, 1, 6, 4, 27);
    lemma_q_hadamard_entry(x, y, 2, 0, 1, 2, 9);
    lemma_q_hadamard_entry(x, y, 3, 0, 1, 3, 7);
    lemma_q_hadamard_entry(x, y, 4, 0, 1, 11, 16);
    lemma_q_hadamard_entry(x, y, 5, 0, 1, 10, 13);
    lemma_q_hadamard_entry(x, y, 6, 0, 1, 1, 1);
    assert(q_sum_to(s, 0) == q(0, 1));
    lemma_q_eq_value(0, 1, 0, 1);
    lemma_q_sum_step(s, 0, 0, 1, 0, 18, 0, 1);
    lemma_q_sum_step(s, 1, 0, 1, 4, 162, 2, 81);
    lemma_q_sum_step(s, 2, 2, 81, 0, 9, 2, 81);
    lemma_q_sum_step(s, 3, 2, 81, 0, 7, 2, 81);
    lemma_q_sum_step(s, 4, 2, 81, 0, 16, 2, 81);
    lemma_q_sum_step(s, 5, 2, 81, 0, 13, 2, 81);
    lemma_q_sum_step(s, 6, 2, 81, 0, 1, 2, 81);
}

proof fn lemma_rktp64_sum_25()
    ensures
        q_eq(q_dot(seq![q(66, 343), q(-729, 1372), q(1053, 1372), q(0, 1), q(0, 1), q(0, 1), q(0, 1)], seq![q(0, 1), q(4, 27), q(2, 9), q(3, 7), q(11, 16), q(10, 13), q(1, 1)]), q(9, 98)),
        q_valid(q_dot(seq![q(66, 343), q(-729, 1372), q(1053, 1372), q(0, 1), q(0, 1), q(0, 1), q(0, 1)], seq![q(0, 1), q(4, 27), q(2, 9), q(3, 7), q(11, 16), q(10, 13), q(1, 1)])),
{
    let x = seq![q(66, 343), q(-729, 1372), q(1053, 1372), q(0, 1), q(0, 1), q(0, 1), q(0, 1)];
    let y = seq![q(0, 1), q(4, 27), q(2, 9), q(3, 7), q(11, 16), q(10, 13), q(1, 1)];
    let s = q_hadamard(x, y);
    assert(s.len() == 7);
    lemma_q_hadamard_entry(x, y, 0, 66, 343, 0, 1);
    lemma_q_hadamard_entry(x, y, 1, -729, 1372, 4, 27);
    lemma_q_hadamard_entry(x, y, 2, 1053, 1372, 2, 9);
    lemma_q_hadamard_entry(x, y, 3, 0, 1, 3, 7);
    lemma_q_hadamard_entry(x, y, 4, 0, 1, 11, 16);
    lemma_q_hadamard_entry(x, y, 5, 0, 1, 10, 13);
    lemma_q_hadamard_entry(x, y, 6, 0, 1, 1, 1);
    assert(q_sum_to(s, 0) == q(0, 1));
    lemma_q_eq_value(0, 1, 0, 1);
    lemma_q_sum_step(s, 0, 0, 1, 0, 343, 0, 1);
    lemma_q_sum_step(s, 1, 0, 1, -2916, 37044, -27, 343);
    lemma_q_sum_step(s, 2, -27, 343, 2106, 12348, 9, 98);
    lemma_q_sum_step(s, 3, 9, 98, 0, 7, 9, 98);
    lemma_q_sum_step(s, 4, 9, 98, 0, 16, 9, 98);
    lemma_q_sum_step(s, 5, 9, 98, 0, 13, 9, 98);
    lemma_q_sum_step(s, 6, 9, 98, 0, 1, 9, 98);
}

proof fn lemma_rktp64_sum_26()
    ensures
        q_eq(q_dot(seq![q(13339, 49152), q(-4617, 16384), q(5427, 53248), q(95207, 159744), q(0, 1), q(0, 1), q(0, 1)], seq![q(0, 1), q(4, 27), q(2, 9), q(3, 7), q(11, 16), q(10, 13), q(1, 1)]), q(121, 512)),
        q_valid(q_dot(seq![q(13339, 49152), q(-4617, 16384), q(5427, 53248), q(95207, 159744), q(0, 1), q(0, 1), q(0, 1)], seq![q(0, 1), q(4, 27), q(2, 9), q(3, 7), q(11, 16), q(10, 13), q(1, 1)])),
{
    let x = seq![q(13339, 49152), q(-4617, 16384), q(5427, 53248), q(95207, 159744), q(0, 1), q(0, 1), q(0, 1)];
    let y = seq![q(0, 1), q(4, 27), q(2, 9), q(3, 7), q(11, 16), q(10, 13), q(1, 1)];
    let s = q_hadamard(x, y);
    assert(s.len() == 7);
    lemma_q_hadamard_entry(x, y, 0, 13339, 49152, 0, 1);
    lemma_q_hadamard_entry(x, y, 1, -4617, 16384, 4, 27);
    lemma_q_hadamard_entry(x, y, 2, 5427, 53248, 2, 9);
    lemma_q_hadamard_entry(x, y, 3, 95207, 159744, 3, 7);
    lemma_q_hadamard_entry(x, y, 4, 0, 1, 11, 16);
    lemma_q_hadamard_entry(x, y, 5, 0, 1, 10, 13);
    lemma_q_hadamard_entry(x, y, 6, 0, 1, 1, 1);
    assert(q_sum_to(s, 0) == q(0, 1));
    lemma_q_eq_value(0, 1, 0, 1);
    lemma_q_sum_step(s, 0, 0, 1, 0, 49152, 0, 1);
    lemma_q_sum_step(s, 1, 0, 1, -18468, 442368, -171, 4096);
    lemma_q_sum_step(s, 2, -171, 4096, 10854, 479232, -1017, 53248);
    lemma_q_sum_step(s, 3, -1017, 53248, 285621, 1118208, 121, 512);
    lemma_q_sum_step(s, 4, 121, 512, 0, 16, 121, 512);
    lemma_q_sum_step(s, 5, 121, 512, 0, 13, 121, 512);
    lemma_q_sum_step(s, 6, 121, 512, 0, 1, 121, 512);
}

proof fn lemma_rktp64_sum_27()
    ensures
        q_eq(q_dot(seq![q(-6935, 57122), q(23085, 48334), q(33363360, 273642941), q(972160, 118442467), q(172687360, 610434253), q(0, 1), q(0, 1)], seq![q(0, 1), q(4, 27), q(2, 9), q(3, 7), q(11, 16), q(10, 13), q(1, 1)]), q(50, 169)),
        q_valid(q_dot(seq![q(-6935, 57122), q(23085, 48334), q(33363360, 273642941), q(972160, 118442467), q(172687360, 610434253), q(0, 1), q(0, 1)], seq![q(0, 1), q(4, 27), q(2, 9), q(3, 7), q(11, 16), q(10, 13), q(1, 1)])),
{
    let x = seq![q(-6935, 57122), q(23085, 48334), q(33363360, 273642941), q(972160, 118442467), q(172687360, 610434253), q(0, 1), q(0, 1)];
    let y = seq![q(0, 1), q(4, 27), q(2, 9), q(3, 7), q(11, 16), q(10, 13), q(1, 1)];
    let s = q_hadamard(x, y);
    assert(s.len() == 7);
    lemma_q_hadamard_entry(x, y, 0, -6935, 57122, 0, 1);
    lemma_q_hadamard_entry(x, y, 1, 23085, 48334, 4, 27);
    lemma_q_hadamard_entry(x, y, 2, 33363360, 273642941, 2, 9);
    lemma_q_hadamard_entry(x, y, 3, 972160, 118442467, 3, 7);
    lemma_q_hadamard_entry(x, y, 4, 172687360, 610434253, 11, 16);
    lemma_q_hadamard_entry(x, y, 5, 0, 1, 10, 13);
    lemma_q_hadamard_entry(x, y, 6, 0, 1, 1, 1);
    assert(q_sum_to(s, 0) == q(0, 1));
    lemma_q_eq_value(0, 1, 0, 1);
    lemma_q_sum_step(s, 0, 0, 1, 0, 57122, 0, 1);
    lemma_q_sum_step(s, 1, 0, 1, 92340, 1305018, 1710, 24167);
    lemma_q_sum_step(s, 2, 1710, 24167, 66726720, 2462786469, 26776410, 273642941);
    lemma_q_sum_step(s, 3, 26776410, 273642941, 2916480, 829097269, 5625390, 55494023);
    lemma_q_sum_step(s, 4, 5625390, 55494023, 1899560960, 9766948048, 50, 169);
    lemma_q_sum_step(s, 5, 50, 169, 0, 13, 50, 169);
    lemma_q_sum_step(s, 6, 50, 169, 0, 1, 50, 169);
}

proof fn lemma_rktp64_sum_28()
    ensures
        q_eq(q_dot(seq![q(611, 1891), q(-4617, 7564), q(6041007, 13176488), q(12708836, 22100117), q(-35840000, 62461621), q(6597591, 7972456), q(0, 1)], seq![q(0, 1), q(4, 27), q(2, 9), q(3, 7), q(11, 16), q(10, 13), q(1, 1)]), q(1, 2)),
        q_valid(q_dot(seq![q(611, 1891), q(-4617, 7564), q(6041007, 13176488), q(12708836, 22100117), q(-35840000, 62461621), q(6597591, 7972456), q(0, 1)], seq![q(0, 1), q(4, 27), q(2, 9), q(3, 7), q(11, 16), q(10, 13), q(1, 1)])),
{
    let x = seq![q(611, 1891), q(-4617, 7564), q(6041007, 13176488), q(12708836, 22100117), q(-35840000, 62461621), q(6597591, 7972456), q(0, 1)];
    let y = seq![q(0, 1), q(4, 27), q(2, 9), q(3, 7), q(11, 16), q(10, 13), q(1, 1)];
    let s = q_hadamard(x, y);
    assert(s.len() == 7);
    lemma_q_hadamard_entry(x, y, 0, 611, 1891, 0, 1);
    lemma_q_hadamard_entry(x, y, 1, -4617, 7564, 4, 27);
    lemma_q_hadamard_entry(x, y, 2, 6041007, 13176488, 2, 9);
    lemma_q_hadamard_entry(x, y, 3, 12708836, 22100117, 3, 7);
    lemma_q_hadamard_entry(x, y, 4, -35840000, 62461621, 11, 16);
    lemma_q_hadamard_entry(x, y, 5, 6597591, 7972456, 10, 13);
    lemma_q_hadamard_entry(x, y, 6, 0, 1, 1, 1);
    assert(q_sum_to(s, 0) == q(0, 1));
    lemma_q_eq_value(0, 1, 0, 1);
    lemma_q_sum_step(s, 0, 0, 1, 0, 1891, 0, 1);
    lemma_q_sum_step(s, 1, 0, 1, -18468, 204228, -171, 1891);
    lemma_q_sum_step(s, 2, -171, 1891, 12082014, 118588392, 75459, 6588244);
    lemma_q_sum_step(s, 3, 75459, 6588244, 38126508, 154700819, 117502941, 455602412);
    lemma_q_sum_step(s, 4, 117502941, 455602412, -394240000, 999385936, -544421, 3986228);
    lemma_q_sum_step(s, 5, -544421, 3986228, 65975910, 103641928, 1, 2);
    lemma_q_sum_step(s, 6, 1, 2, 0, 1, 1, 2);
}

proof fn lemma_rktp64_sum_29()
    ensures
        q_eq(q_dot(seq![q(0, 1), q(0, 1), q(0, 1), q(0, 1), q(0, 1), q(0, 1), q(0, 1)], seq![q(0, 1), q(16, 729), q(4, 81), q(9, 49), q(121, 256), q(100, 169), q(1, 1)]), q(0, 1)),
        q_valid(q_dot(seq![q(0, 1), q(0, 1), q(0, 1), q(0, 1), q(0, 1), q(0, 1), q(0, 1)], seq![q(0, 1), q(16, 729), q(4, 81), q(9, 49), q(121, 256), q(100, 169), q(1, 1)])),
{
    let x = seq![q(0, 1), q(0, 1), q(0, 1), q(0, 1), q(0, 1), q(0, 1), q(0, 1)];
    let y = seq![q(0, 1), q(16, 729), q(4, 81), q(9, 49), q(121, 256), q(100, 169), q(1, 1)];
    let s = q_hadamard(x, y);
    assert(s.len() == 7);
    lemma_q_hadamard_entry(x, y, 0, 0, 1, 0, 1);
    lemma_q_hadamard_entry(x, y, 1, 0, 1, 16, 729);
    lemma_q_hadamard_entry(x, y, 2, 0, 1, 4, 81);
    lemma_q_hadamard_entry(x, y, 3, 0, 1, 9, 49);
    lemma_q_hadamard_entry(x, y, 4, 0, 1, 121, 256);
    lemma_q_hadamard_entry(x, y, 5, 0, 1, 100, 169);
    lemma_q_hadamard_entry(x, y, 6, 0, 1, 1, 1);
    assert(q_sum_to(s, 0) == q(0, 1));
    lemma_q_eq_value(0, 1, 0, 1);
    lemma_q_sum_step(s, 0, 0, 1, 0, 1, 0, 1);
    lemma_q_sum_step(s, 1, 0, 1, 0, 729, 0, 1);
    lemma_q_sum_step(s, 2, 0, 1, 0, 81, 0, 1);
    lemma_q_sum_step(s, 3, 0, 1, 0, 49, 0, 1);
    lemma_q_sum_step(s, 4, 0, 1, 0, 256, 0, 1);
    lemma_q_sum_step(s, 5, 0, 1, 0, 169, 0, 1);
    lemma_q_sum_step(s, 6, 0, 1, 0, 1, 0, 1);
}

proof fn lemma_rktp64_sum_30()
    ensures
        q_eq(q_dot(seq![q(4, 27), q(0, 1), q(0, 1), q(0, 1), q(0, 1), q(0, 1), q(0, 1)], seq![q(0, 1), q(16, 729), q(4, 81), q(9, 49), q(121, 256), q(100, 169), q(1, 1)]), q(0, 1)),
        q_valid(q_dot(seq![q(4, 27), q(0, 1), q(0, 1), q(0, 1), q(0, 1), q(0, 1), q(0, 1)], seq![q(0, 1), q(16, 729), q(4, 81), q(9, 49), q(121, 256), q(100, 169), q(1, 1)])),
{
    let x = seq![q(4, 27), q(0, 1), q(0, 1), q(0, 1), q(0, 1), q(0, 1), q(0, 1)];
    let y = seq![q(0, 1), q(16, 729), q(4, 81), q(9, 49), q(121, 256), q(100, 169), q(1, 1)];
    let s = q_hadamard(x, y);
    assert(s.len() == 7);
    lemma_q_hadamard_entry(x, y, 0, 4, 27, 0, 1);
    lemma_q_hadamard_entry(x, y, 1, 0, 1, 16, 729);
    lemma_q_hadamard_entry(x, y, 2, 0, 1, 4, 81);
    lemma_q_hadamard_entry(x, y, 3, 0, 1, 9, 49);
    lemma_q_hadamard_entry(x, y, 4, 0, 1, 121, 256);
    lemma_q_hadamard_entry(x, y, 5, 0, 1, 100, 169);
    lemma_q_hadamard_entry(x, y, 6, 0, 1, 1, 1);
    assert(q_sum_to(s, 0) == q(0, 1));
    lemma_q_eq_value(0, 1, 0, 1);
    lemma_q_sum_step(s, 0, 0, 1, 0, 27, 0, 1);
    lemma_q_sum_step(s, 1, 0, 1, 0, 729, 0, 1);
    lemma_q_sum_step(s, 2, 0, 1, 0, 81, 0, 1);
    lemma_q_sum_step(s, 3, 0, 1, 0, 49, 0, 1);
    lemma_q_sum_step(s, 4, 0, 1, 0, 256, 0, 1);
    lemma_q_sum_step(s, 5, 0, 1, 0, 169, 0, 1);
    lemma_q_sum_step(s, 6, 0, 1, 0, 1, 0, 1);
}

proof fn lemma_rktp64_sum_31()
    ensures
        q_eq(q_dot(seq![q(1, 18), q(1, 6), q(0, 1), q(0, 1), q(0, 1), q(0, 1), q(0, 1)], seq![q(0, 1), q(16, 729), q(4, 81), q(9, 49), q(121, 256), q(100, 169), q(1, 1)]), q(8, 2187)),
        q_valid(q_dot(seq![q(1, 18), q(1, 6), q(0, 1), q(0, 1), q(0, 1), q(0, 1), q(0, 1)], seq![q(0, 1), q(16, 729), q(4, 81), q(9, 49), q(121, 256), q(100, 169), q(1, 1)])),
{
    let x = seq![q(1, 18), q(1, 6), q(0, 1), q(0, 1), q(0, 1), q(0, 1), q(0, 1)];
    let y = seq![q(0, 1), q(16, 729), q(4, 81), q(9, 49), q(121, 256), q(100, 169), q(1, 1)];
    let s = q_hadamard(x, y);
    assert(s.len() == 7);
    lemma_q_hadamard_entry(x, y, 0, 1, 18, 0, 1);
    lemma_q_hadamard_entry(x, y, 1, 1, 6, 16, 729);
    lemma_q_hadamard_entry(x, y, 2, 0, 1, 4, 81);
    lemma_q_hadamard_entry(x, y, 3, 0, 1, 9, 49);
    lemma_q_hadamard_entry(x, y, 4, 0, 1, 121, 256);
    lemma_q_hadamard_entry(x, y, 5, 0, 1, 100, 169);
    lemma_q_hadamard_entry(x, y, 6, 0, 1, 1, 1);
    assert(q_sum_to(s, 0) == q(0, 1));
    lemma_q_eq_value(0, 1, 0, 1);
    lemma_q_sum_step(s, 0, 0, 1, 0, 18, 0, 1);
    lemma_q_sum_step(s, 1, 0, 1, 16, 4374, 8, 2187);
    lemma_q_sum_step(s, 2, 8, 2187, 0, 81, 8, 2187);
    lemma_q_sum_step(s, 3, 8, 2187, 0, 49, 8, 2187);
    lemma_q_sum_step(s, 4, 8, 2187, 0, 256, 8, 2187);
    lemma_q_sum_step(s, 5, 8, 2187, 0, 169, 8, 2187);
    lemma_q_sum_step(s, 6, 8, 2187, 0, 1, 8, 2187);
}

proof fn lemma_rktp64_sum_32()
    ensures
        q_eq(q_dot(seq![q(66, 343), q(-729, 1372), q(1053, 1372), q(0, 1), q(0, 1), q(0, 1), q(0, 1)], seq![q(0, 1), q(16, 729), q(4, 81), q(9, 49), q(121, 256), q(100, 169), q(1, 1)]), q(9, 343)),
        q_valid(q_dot(seq![q(66, 343), q(-729, 1372), q(1053, 1372), q(0, 1), q(0, 1), q(0, 1), q(0, 1)], seq![q(0, 1), q(16, 729), q(4, 81), q(9, 49), q(121, 256), q(100, 169), q(1, 1)])),
{
    let x = seq![q(66, 343), q(-729, 1372), q(1053, 1372), q(0, 1), q(0, 1), q(0, 1), q(0, 1)];
    let y = seq![q(0, 1), q(16, 729), q(4, 81), q(9, 49), q(121, 256), q(100, 169), q(1, 1)];
    let s = q_hadamard(x, y);
    assert(s.len() == 7);
    lemma_q_hadamard_entry(x, y, 0, 66, 343, 0, 1);
    lemma_q_hadamard_entry(x, y, 1, -729, 1372, 16, 729);
    lemma_q_hadamard_entry(x, y, 2, 1053, 1372, 4, 81);
    lemma_q_hadamard_entry(x, y, 3, 0, 1, 9, 49);
    lemma_q_hadamard_entry(x, y, 4, 0, 1, 121, 256);
    lemma_q_hadamard_entry(x, y, 5, 0, 1, 100, 169);
    lemma_q_hadamard_entry(x, y, 6, 0, 1, 1, 1);
    assert(q_sum_to(s, 0) == q(0, 1));
    lemma_q_eq_value(0, 1, 0, 1);
    lemma_q_sum_step(s, 0, 0, 1, 0, 343, 0, 1);
    lemma_q_sum_step(s, 1, 0, 1, -11664, 1000188, -4, 343);
    lemma_q_sum_step(s, 2, -4, 343, 4212, 111132, 9, 343);
    lemma_q_sum_step(s, 3, 9, 343, 0, 49, 9, 343);
    lemma_q_sum_step(s, 4, 9, 343, 0, 256, 9, 343);
    lemma_q_sum_step(s, 5, 9, 343, 0, 169, 9, 343);
    lemma_q_sum_step(s, 6, 9, 343, 0, 1, 9, 343);
}

proof fn lemma_rktp64_sum_33()
    ensures
        q_eq(q_dot(seq![q(13339, 49152), q(-4617, 16384), q(5427, 53248), q(95207, 159744), q(0, 1), q(0, 1), q(0, 1)], seq![q(0, 1), q(16, 729), q(4, 81), q(9, 49), q(121, 256), q(100, 169), q(1, 1)]), q(1331, 12288)),
        q_valid(q_dot(seq![q(13339, 49152), q(-4617, 16384), q(5427, 53248), q(95207, 159744), q(0, 1), q(0, 1), q(0, 1)], seq![q(0, 1), q(16, 729), q(4, 81), q(9, 49), q(121, 256), q(100, 169), q(1, 1)])),
{
    let x = seq![q(13339, 49152), q(-4617, 16384), q(5427, 53248), q(95207, 159744), q(0, 1), q(0, 1), q(0, 1)];
    let y = seq![q(0, 1), q(16, 729), q(4, 81), q(9, 49), q(121, 256), q(100, 169), q(1, 1)];
    let s = q_hadamard(x, y);
    assert(s.len() == 7);
    lemma_q_hadamard_entry(x, y, 0, 13339, 49152, 0, 1);
    lemma_q_hadamard_entry(x, y, 1, -4617, 16384, 16, 729);
    lemma_q_hadamard_entry(x, y, 2, 5427, 53248, 4, 81);
    lemma_q_hadamard_entry(x, y, 3, 95207, 159744, 9, 49);
    lemma_q_hadamard_entry(x, y, 4, 0, 1, 121, 256);
    lemma_q_hadamard_entry(x, y, 5, 0, 1, 100, 169);
    lemma_q_hadamard_entry(x, y, 6, 0, 1, 1, 1);
    assert(q_sum_to(s, 0) == q(0, 1));
    lemma_q_eq_value(0, 1, 0, 1);
    lemma_q_sum_step(s, 0, 0, 1, 0, 49152, 0, 1);
    lemma_q_sum_step(s, 1, 0, 1, -73872, 11943936, -19, 3072);
    lemma_q_sum_step(s, 2, -19, 3072, 21708, 4313088, -23, 19968);
    lemma_q_sum_step(s, 3, -23, 19968, 856863, 7827456, 1331, 12288);
    lemma_q_sum_step(s, 4, 1331, 12288, 0, 256, 1331, 12288);
    lemma_q_sum_step(s, 5, 1331, 12288, 0, 169, 1331, 12288);
    lemma_q_sum_step(s, 6, 1331, 12288, 0, 1, 1331, 12288);
}

proof fn lemma_rktp64_sum_34()
    ensures
        q_eq(q_dot(seq![q(-6935, 57122), q(23085, 48334), q(33363360, 273642941), q(972160, 118442467), q(172687360, 610434253), q(0, 1), q(0, 1)], seq![q(0, 1), q(16, 729), q(4, 81), q(9, 49), q(121, 256), q(100, 169), q(1, 1)]), q(1000, 6591)),
        q_valid(q_dot(seq![q(-6935, 57122), q(23085, 48334), q(33363360, 273642941), q(972160, 118442467), q(172687360, 610434253), q(0, 1), q(0, 1)], seq![q(0, 1), q(16, 729), q(4, 81), q(9, 49), q(121, 256), q(100, 169), q(1, 1)])),
{
    let x = seq![q(-6935, 57122), q(23085, 48334), q(33363360, 273642941), q(972160, 118442467), q(172687360, 610434253), q(0, 1), q(0, 1)];
    let y = seq![q(0, 1), q(16, 729), q(4, 81), q(9, 49), q(121, 256), q(100, 169), q(1, 1)];
    let s = q_hadamard(x, y);
    assert(s.len() == 7);
    lemma_q_hadamard_entry(x, y, 0, -6935, 57122, 0, 1);
    lemma_q_hadamard_entry(x, y, 1, 23085, 48334, 16, 729);
    lemma_q_hadamard_entry(x, y, 2, 33363360, 273642941, 4, 81);
    lemma_q_hadamard_entry(x, y, 3, 972160, 118442467, 9, 49);
    lemma_q_hadamard_entry(x, y, 4, 172687360, 610434253, 121, 256);
    lemma_q_hadamard_entry(x, y, 5, 0, 1, 100, 169);
    lemma_q_hadamard_entry(x, y, 6, 0, 1, 1, 1);
    assert(q_sum_to(s, 0) == q(0, 1));
    lemma_q_eq_value(0, 1, 0, 1);
    lemma_q_sum_step(s, 0, 0, 1, 0, 57122, 0, 1);
    lemma_q_sum_step(s, 1, 0, 1, 369360, 35235486, 760, 72501);
    lemma_q_sum_step(s, 2, 760, 72501, 133453440, 22165078221, 13548200, 820928823);
    lemma_q_sum_step(s, 3, 13548200, 820928823, 8749440, 5803680883, 2998520, 166482069);
    lemma_q_sum_step(s, 4, 2998520, 166482069, 20895170560, 156271168768, 1000, 6591);
    lemma_q_sum_step(s, 5, 1000, 6591, 0, 169, 1000, 6591);
    lemma_q_sum_step(s, 6, 1000, 6591, 0, 1, 1000, 6591);
}

proof fn lemma_rktp64_sum_35()
    ensures
        q_eq(q_dot(seq![q(611, 1891), q(-4617, 7564), q(6041007, 13176488), q(12708836, 22100117), q(-35840000, 62461621), q(6597591, 7972456), q(0, 1)], seq![q(0, 1), q(16, 729), q(4, 81), q(9, 49), q(121, 256), q(100, 169), q(1, 1)]), q(1, 3)),
        q_valid(q_dot(seq![q(611, 1891), q(-4617, 7564), q(6041007, 13176488), q(12708836, 22100117), q(-35840000, 62461621), q(6597591, 7972456), q(0, 1)], seq![q(0, 1), q(16, 729), q(4, 81), q(9, 49), q(121, 256), q(100, 169), q(1, 1)])),
{
    let x = seq![q(611, 1891), q(-4617, 7564), q(6041007, 13176488), q(12708836, 22100117), q(-35840000, 62461621), q(6597591, 7972456), q(0, 1)];
    let y = seq![q(0, 1), q(16, 729), q(4, 81), q(9, 49), q(121, 256), q(100, 169), q(1, 1)];
    let s = q_hadamard(x, y);
    assert(s.len() == 7);
    lemma_q_hadamard_entry(x, y, 0, 611, 1891, 0, 1);
    lemma_q_hadamard_entry(x, y, 1, -4617, 7564, 16, 729);
    lemma_q_hadamard_entry(x, y, 2, 6041007, 13176488, 4, 81);
    lemma_q_hadamard_entry(x, y, 3, 12708836, 22100117, 9, 49);
    lemma_q_hadamard_entry(x, y, 4, -35840000, 62461621, 121, 256);
    lemma_q_hadamard_entry(x, y, 5, 6597591, 7972456, 100, 169);
    lemma_q_hadamard_entry(x, y, 6, 0, 1, 1, 1);
    assert(q_sum_to(s, 0) == q(0, 1));
    lemma_q_eq_value(0, 1, 0, 1);
    lemma_q_sum_step(s, 0, 0, 1, 0, 1891, 0, 1);
    lemma_q_sum_step(s, 1, 0, 1, -73872, 5514156, -76, 5673);
    lemma_q_sum_step(s, 2, -76, 5673, 24164028, 1067295528, 91349, 9882366);
    lemma_q_sum_step(s, 3, 91349, 9882366, 114379524, 1082905733, 78500131, 683403618);
    lemma_q_sum_step(s, 4, 78500131, 683403618, -4336640000, 15990174976, -934811, 5979342);
    lemma_q_sum_step(s, 5, -934811, 5979342, 659759100, 1347345064, 1, 3);
    lemma_q_sum_step(s, 6, 1, 3, 0, 1, 1, 3);
}

proof fn lemma_rktp64_sum_36()
    ensures
        q_eq(q_dot(seq![q(0, 1), q(0, 1), q(0, 1), q(0, 1), q(0, 1), q(0, 1), q(0, 1)], seq![q(0, 1), q(0, 1), q(2, 81), q(9, 98), q(121, 512), q(50, 169), q(1, 2)]), q(0, 1)),
        q_valid(q_dot(seq![q(0, 1), q(0, 1), q(0, 1), q(0, 1), q(0, 1), q(0, 1), q(0, 1)], seq![q(0, 1), q(0, 1), q(2, 81), q(9, 98), q(121, 512), q(50, 169), q(1, 2)])),
{
    let x = seq![q(0, 1), q(0, 1), q(0, 1), q(0, 1), q(0, 1), q(0, 1), q(0, 1)];
    let y = seq![q(0, 1), q(0, 1), q(2, 81), q(9, 98), q(121, 512), q(50, 169), q(1, 2)];
    let s = q_hadamard(x, y);
    assert(s.len() == 7);
    lemma_q_hadamard_entry(x, y, 0, 0, 1, 0, 1);
    lemma_q_hadamard_entry(x, y, 1, 0, 1, 0, 1);
    lemma_q_hadamard_entry(x, y, 2, 0, 1, 2, 81);
    lemma_q_hadamard_entry(x, y, 3, 0, 1, 9, 98);
    lemma_q_hadamard_entry(x, y, 4, 0, 1, 121, 512);
    lemma_q_hadamard_entry(x, y, 5, 0, 1, 50, 169);
    lemma_q_hadamard_entry(x, y, 6, 0, 1, 1, 2);
    assert(q_sum_to(s, 0) == q(0, 1));
    lemma_q_eq_value(0, 1, 0, 1);
    lemma_q_sum_step(s, 0, 0, 1, 0, 1, 0, 1);
    lemma_q_sum_step(s, 1, 0, 1, 0, 1, 0, 1);
    lemma_q_sum_step(s, 2, 0, 1, 0, 81, 0, 1);
    lemma_q_sum_step(s, 3, 0, 1, 0, 98, 0, 1);
    lemma_q_sum_step(s, 4, 0, 1, 0, 512, 0, 1);
    lemma_q_sum_step(s, 5, 0, 1, 0, 169, 0, 1);
    lemma_q_sum_step(s, 6, 0, 1, 0, 2, 0, 1);
}

proof fn lemma_rktp64_sum_37()
    ensures
        q_eq(q_dot(seq![q(4, 27), q(0, 1), q(0, 1), q(0, 1), q(0, 1), q(0, 1), q(0, 1)], seq![q(0, 1), q(0, 1), q(2, 81), q(9, 98), q(121, 512), q(50, 169), q(1, 2)]), q(0, 1)),
        q_valid(q_dot(seq![q(4, 27), q(0, 1), q(0, 1), q(0, 1), q(0, 1), q(0, 1), q(0, 1)], seq![q(0, 1), q(0, 1), q(2, 81), q(9, 98), q(121, 512), q(50, 169), q(1, 2)])),
{
    let x = seq![q(4, 27), q(0, 1), q(0, 1), q(0, 1), q(0, 1), q(0, 1), q(0, 1)];
    let y = seq![q(0, 1), q(0, 1), q(2, 81), q(9, 98), q(121, 512), q(50, 169), q(1, 2)];
    let s = q_hadamard(x, y);
    assert(s.len() == 7);
    lemma_q_hadamard_entry(x, y, 0, 4, 27, 0, 1);
    lemma_q_hadamard_entry(x, y, 1, 0, 1, 0, 1);
    lemma_q_hadamard_entry(x, y, 2, 0, 1, 2, 81);
    lemma_q_hadamard_entry(x, y, 3, 0, 1, 9, 98);
    lemma_q_hadamard_entry(x, y, 4, 0, 1, 121, 512);
    lemma_q_hadamard_entry(x, y, 5, 0, 1, 50, 169);
    lemma_q_hadamard_entry(x, y, 6, 0, 1, 1, 2);
    assert(q_sum_to(s, 0) == q(0, 1));
    lemma_q_eq_value(0, 1, 0, 1);
    lemma_q_sum_step(s, 0, 0, 1, 0, 27, 0, 1);
    lemma_q_sum_step(s, 1, 0, 1, 0, 1, 0, 1);
    lemma_q_sum_step(s, 2, 0, 1, 0, 81, 0, 1);
    lemma_q_sum_step(s, 3, 0, 1, 0, 98, 0, 1);
    lemma_q_sum_step(s, 4, 0, 1, 0, 512, 0, 1);
    lemma_q_sum_step(s, 5, 0, 1, 0, 169, 0, 1);
    lemma_q_sum_step(s, 6, 0, 1, 0, 2, 0, 1);
}

proof fn lemma_rktp64_sum_38()
    ensures
        q_eq(q_dot(seq![q(1, 18), q(1, 6), q(0, 1), q(0, 1), q(0, 1), q(0, 1), q(0, 1)], seq![q(0, 1), q(0, 1), q(2, 81), q(9, 98), q(121, 512), q(50, 169), q(1, 2)]), q(0, 1)),
        q_valid(q_dot(seq![q(1, 18), q(1, 6), q(0, 1), q(0, 1), q(0, 1), q(0, 1), q(0, 1)], seq![q(0, 1), q(0, 1), q(2, 81), q(9, 98), q(121, 512), q(50, 169), q(1, 2)])),
{
    let x = seq![q(1, 18), q(1, 6), q(0, 1), q(0, 1), q(0, 1), q(0, 1), q(0, 1)];
    let y = seq![q(0, 1), q(0, 1), q(2, 81), q(9, 98), q(121, 512), q(50, 169), q(1, 2)];
    let s = q_hadamard(x, y);
    assert(s.len() == 7);
    lemma_q_hadamard_entry(x, y, 0, 1, 18, 0, 1);
    lemma_q_hadamard_entry(x, y, 1, 1, 6, 0, 1);
    lemma_q_hadamard_entry(x, y, 2, 0, 1, 2, 81);
    lemma_q_hadamard_entry(x, y, 3, 0, 1, 9, 98);
    lemma_q_hadamard_entry(x, y, 4, 0, 1, 121, 512);
    lemma_q_hadamard_entry(x, y, 5, 0, 1, 50, 169);
    lemma_q_hadamard_entry(x, y, 6, 0, 1, 1, 2);
    assert(q_sum_to(s, 0) == q(0, 1));
    lemma_q_eq_value(0, 1, 0, 1);
    lemma_q_sum_step(s, 0, 0, 1, 0, 18, 0, 1);
    lemma_q_sum_step(s, 1, 0, 1, 0, 6, 0, 1);
    lemma_q_sum_step(s, 2, 0, 1, 0, 81, 0, 1);
    lemma_q_sum_step(s, 3, 0, 1, 0, 98, 0, 1);
    lemma_q_sum_step(s, 4, 0, 1, 0, 512, 0, 1);
    lemma_q_sum_step(s, 5, 0, 1, 0, 169, 0, 1);
    lemma_q_sum_step(s, 6, 0, 1, 0, 2, 0, 1);
}

proof fn lemma_rktp64_sum_39()
    ensures
        q_eq(q_dot(seq![q(66, 343), q(-729, 1372), q(1053, 1372), q(0, 1), q(0, 1), q(0, 1), q(0, 1)], seq![q(0, 1), q(0, 1), q(2, 81), q(9, 98), q(121, 512), q(50, 169), q(1, 2)]), q(13, 686)),
        q_valid(q_dot(seq![q(66, 343), q(-729, 1372), q(1053, 1372), q(0, 1), q(0, 1), q(0, 1), q(0, 1)], seq![q(0, 1), q(0, 1), q(2, 81), q(9, 98), q(121, 512), q(50, 169), q(1, 2)])),
{
    let x = seq![q(66, 343), q(-729, 1372), q(1053, 1372), q(0, 1), q(0, 1), q(0, 1), q(0, 1)];
    let y = seq![q(0, 1), q(0, 1), q(2, 81), q(9, 98), q(121, 512), q(50, 169), q(1, 2)];
    let s = q_hadamard(x, y);
    assert(s.len() == 7);
    lemma_q_hadamard_entry(x, y, 0, 66, 343, 0, 1);
    lemma_q_hadamard_entry(x, y, 1, -729, 1372, 0, 1);
    lemma_q_hadamard_entry(x, y, 2, 1053, 1372, 2, 81);
    lemma_q_hadamard_entry(x, y, 3, 0, 1, 9, 98);
    lemma_q_hadamard_entry(x, y, 4, 0, 1, 121, 512);
    lemma_q_hadamard_entry(x, y, 5, 0, 1, 50, 169);
    lemma_q_hadamard_entry(x, y, 6, 0, 1, 1, 2);
    assert(q_sum_to(s, 0) == q(0, 1));
    lemma_q_eq_value(0, 1, 0, 1);
    lemma_q_sum_step(s, 0, 0, 1, 0, 343, 0, 1);
    lemma_q_sum_step(s, 1, 0, 1, 0, 1372, 0, 1);
    lemma_q_sum_step(s, 2, 0, 1, 2106, 111132, 13, 686);
    lemma_q_sum_step(s, 3, 13, 686, 0, 98, 13, 686);
    lemma_q_sum_step(s, 4, 13, 686, 0, 512, 13, 686);
    lemma_q_sum_step(s, 5, 13, 686, 0, 169, 13, 686);
    lemma_q_sum_step(s, 6, 13, 686, 0, 2, 13, 686);
}

proof fn lemma_rktp64_sum_40()
    ensures
        q_eq(q_dot(seq![q(13339, 49152), q(-4617, 16384), q(5427, 53248), q(95207, 159744), q(0, 1), q(0, 1), q(0, 1)], seq![q(0, 1), q(0, 1), q(2, 81), q(9, 98), q(121, 512), q(50, 169), q(1, 2)]), q(469, 8192)),
        q_valid(q_dot(seq![q(13339, 49152), q(-4617, 16384), q(5427, 53248), q(95207, 159744), q(0, 1), q(0, 1), q(0, 1)], seq![q(0, 1), q(0, 1), q(2, 81), q(9, 98), q(121, 512), q(50, 169), q(1, 2)])),
{
    let x = seq![q(13339, 49152), q(-4617, 16384), q(5427, 53248), q(95207, 159744), q(0, 1), q(0, 1), q(0, 1)];
    let y = seq![q(0, 1), q(0, 1), q(2, 81), q(9, 98), q(121, 512), q(50, 169), q(1, 2)];
    let s = q_hadamard(x, y);
    assert(s.len() == 7);
    lemma_q_hadamard_entry(x, y, 0, 13339, 49152, 0, 1);
    lemma_q_hadamard_entry(x, y, 1, -4617, 16384, 0, 1);
    lemma_q_hadamard_entry(x, y, 2, 5427, 53248, 2, 81);
    lemma_q_hadamard_entry(x, y, 3, 95207, 159744, 9, 98);
    lemma_q_hadamard_entry(x, y, 4, 0, 1, 121, 512);
    lemma_q_hadamard_entry(x, y, 5, 0, 1, 50, 169);
    lemma_q_hadamard_entry(x, y, 6, 0, 1, 1, 2);
    assert(q_sum_to(s, 0) == q(0, 1));
    lemma_q_eq_value(0, 1, 0, 1);
    lemma_q_sum_step(s, 0, 0, 1, 0, 49152, 0, 1);
    lemma_q_sum_step(s, 1, 0, 1, 0, 16384, 0, 1);
    lemma_q_sum_step(s, 2, 0, 1, 10854, 4313088, 67, 26624);
    lemma_q_sum_step(s, 3, 67, 26624, 856863, 15654912, 469, 8192);
    lemma_q_sum_step(s, 4, 469, 8192, 0, 512, 469, 8192);
    lemma_q_sum_step(s, 5, 469, 8192, 0, 169, 469, 8192);
    lemma_q_sum_step(s, 6, 469, 8192, 0, 2, 469, 8192);
}

proof fn lemma_rktp64_sum_41()
    ensures
        q_eq(q_dot(seq![q(-6935, 57122), q(23085, 48334), q(33363360, 273642941), q(972160, 118442467), q(172687360, 610434253), q(0, 1), q(0, 1)], seq![q(0, 1), q(0, 1), q(2, 81), q(9, 98), q(121, 512), q(50, 169), q(1, 2)]), q(5120, 72501)),
        q_valid(q_dot(seq![q(-6935, 57122), q(23085, 48334), q(33363360, 273642941), q(972160, 118442467), q(172687360, 610434253), q(0, 1), q(0, 1)], seq![q(0, 1), q(0, 1), q(2, 81), q(9, 98), q(121, 512), q(50, 169), q(1, 2)])),
{
    let x = seq![q(-6935, 57122), q(23085, 48334), q(33363360, 273642941), q(972160, 118442467), q(172687360, 610434253), q(0, 1), q(0, 1)];
    let y = seq![q(0, 1), q(0, 1), q(2, 81), q(9, 98), q(121, 512), q(50, 169), q(1, 2)];
    let s = q_hadamard(x, y);
    assert(s.len() == 7);
    lemma_q_hadamard_entry(x, y, 0, -6935, 57122, 0, 1);
    lemma_q_hadamard_entry(x, y, 1, 23085, 48334, 0, 1);
    lemma_q_hadamard_entry(x, y, 2, 33363360, 273642941, 2, 81);
    lemma_q_hadamard_entry(x, y, 3, 972160, 118442467, 9, 98);
    lemma_q_hadamard_entry(x, y, 4, 172687360, 610434253, 121, 512);
    lemma_q_hadamard_entry(x, y, 5, 0, 1, 50, 169);
    lemma_q_hadamard_entry(x, y, 6, 0, 1, 1, 2);
    assert(q_sum_to(s, 0) == q(0, 1));
    lemma_q_eq_value(0, 1, 0, 1);
    lemma_q_sum_step(s, 0, 0, 1, 0, 57122, 0, 1);
    lemma_q_sum_step(s, 1, 0, 1, 0, 48334, 0, 1);
    lemma_q_sum_step(s, 2, 0, 1, 66726720, 22165078221, 2471360, 820928823);
    lemma_q_sum_step(s, 3, 2471360, 820928823, 8749440, 11607361766, 6893440, 1831302759);
    lemma_q_sum_step(s, 4, 6893440, 1831302759, 20895170560, 312542337536, 5120, 72501);
    lemma_q_sum_step(s, 5, 5120, 72501, 0, 169, 5120, 72501);
    lemma_q_sum_step(s, 6, 5120, 72501, 0, 2, 5120, 72501);
}

proof fn lemma_rktp64_sum_42()
    ensures
        q_eq(q_dot(seq![q(611, 1891), q(-4617, 7564), q(6041007, 13176488), q(12708836, 22100117), q(-35840000, 62461621), q(6597591, 7972456), q(0, 1)], seq![q(0, 1), q(0, 1), q(2, 81), q(9, 98), q(121, 512), q(50, 169), q(1, 2)]), q(1967, 11346)),
        q_valid(q_dot(seq![q(611, 1891), q(-4617, 7564), q(6041007, 13176488), q(12708836, 22100117), q(-35840000, 62461621), q(6597591, 7972456), q(0, 1)], seq![q(0, 1), q(0, 1), q(2, 81), q(9, 98), q(121, 512), q(50, 169), q(1, 2)])),
{
    let x = seq![q(611, 1891), q(-4617, 7564), q(6041007, 13176488), q(12708836, 22100117), q(-35840000, 62461621), q(6597591, 7972456), q(0, 1)];
    let y = seq![q(0, 1), q(0, 1), q(2, 81), q(9, 98), q(121, 512), q(50, 169), q(1, 2)];
    let s = q_hadamard(x, y);
    assert(s.len() == 7);
    lemma_q_hadamard_entry(x, y, 0, 611, 1891, 0, 1);
    lemma_q_hadamard_entry(x, y, 1, -4617, 7564, 0, 1);
    lemma_q_hadamard_entry(x, y, 2, 6041007, 13176488, 2, 81);
    lemma_q_hadamard_entry(x, y, 3, 12708836, 22100117, 9, 98);
    lemma_q_hadamard_entry(x, y, 4, -35840000, 62461621, 121, 512);
    lemma_q_hadamard_entry(x, y, 5, 6597591, 7972456, 50, 169);
    lemma_q_hadamard_entry(x, y, 6, 0, 1, 1, 2);
    assert(q_sum_to(s, 0) == q(0, 1));
    lemma_q_eq_value(0, 1, 0, 1);
    lemma_q_sum_step(s, 0, 0, 1, 0, 1891, 0, 1);
    lemma_q_sum_step(s, 1, 0, 1, 0, 7564, 0, 1);
    lemma_q_sum_step(s, 2, 0, 1, 12082014, 1067295528, 223741, 19764732);
    lemma_q_sum_step(s, 3, 223741, 19764732, 114379524, 2165811466, 87655547, 1366807236);
    lemma_q_sum_step(s, 4, 87655547, 1366807236, -4336640000, 31980349952, -854707, 11958684);
    lemma_q_sum_step(s, 5, -854707, 11958684, 329879550, 1347345064, 1967, 11346);
    lemma_q_sum_step(s, 6, 1967, 11346, 0, 2, 1967, 11346);
}

proof fn lemma_rktp64_sum_43()
    ensures
        q_eq(q_dot(seq![q(0, 1), q(0, 1), q(0, 1), q(0, 1), q(0, 1), q(0, 1), q(0, 1)], seq![q(0, 1), q(64, 19683), q(8, 729), q(27, 343), q(1331, 4096), q(1000, 2197), q(1, 1)]), q(0, 1)),
        q_valid(q_dot(seq![q(0, 1), q(0, 1), q(0, 1), q(0, 1), q(0, 1), q(0, 1), q(0, 1)], seq![q(0, 1), q(64, 19683), q(8, 729), q(27, 343), q(1331, 4096), q(1000, 2197), q(1, 1)])),
{
    let x = seq![q(0, 1), q(0, 1), q(0, 1), q(0, 1), q(0, 1), q(0, 1), q(0, 1)];
    let y = seq![q(0, 1), q(64, 19683), q(8, 729), q(27, 343), q(1331, 4096), q(1000, 2197), q(1, 1)];
    let s = q_hadamard(x, y);
    assert(s.len() == 7);
    lemma_q_hadamard_entry(x, y, 0, 0, 1, 0, 1);
    lemma_q_hadamard_entry(x, y, 1, 0, 1, 64, 19683);
    lemma_q_hadamard_entry(x, y, 2, 0, 1, 8, 729);
    lemma_q_hadamard_entry(x, y, 3, 0, 1, 27, 343);
    lemma_q_hadamard_entry(x, y, 4, 0, 1, 1331, 4096);
    lemma_q_hadamard_entry(x, y, 5, 0, 1, 1000, 2197);
    lemma_q_hadamard_entry(x, y, 6, 0, 1, 1, 1);
    assert(q_sum_to(s, 0) == q(0, 1));
    lemma_q_eq_value(0, 1, 0, 1);
    lemma_q_sum_step(s, 0, 0, 1, 0, 1, 0, 1);
    lemma_q_sum_step(s, 1, 0, 1, 0, 19683, 0, 1);
    lemma_q_sum_step(s, 2, 0, 1, 0, 729, 0, 1);
    lemma_q_sum_step(s, 3, 0, 1, 0, 343, 0, 1);
    lemma_q_sum_step(s, 4, 0, 1, 0, 4096, 0, 1);
    lemma_q_sum_step(s, 5, 0, 1, 0, 2197, 0, 1);
    lemma_q_sum_step(s, 6, 0, 1, 0, 1, 0, 1);
}

proof fn lemma_rktp64_sum_44()
    ensures
        q_eq(q_dot(seq![q(4, 27), q(0, 1), q(0, 1), q(0, 1), q(0, 1), q(0, 1), q(0, 1)], seq![q(0, 1), q(64, 19683), q(8, 729), q(27, 343), q(1331, 4096), q(1000, 2197), q(1, 1)]), q(0, 1)),
        q_valid(q_dot(seq![q(4, 27), q(0, 1), q(0, 1), q(0, 1), q(0, 1), q(0, 1), q(0, 1)], seq![q(0, 1), q(64, 19683), q(8, 729), q(27, 343), q(1331, 4096), q(1000, 2197), q(1, 1)])),
{
    let x = seq![q(4, 27), q(0, 1), q(0, 1), q(0, 1), q(0, 1), q(0, 1), q(0, 1)];
    let y = seq![q(0, 1), q(64, 19683), q(8, 729), q(27, 343), q(1331, 4096), q(1000, 2197), q(1, 1)];
    let s = q_hadamard(x, y);
    assert(s.len() == 7);
    lemma_q_hadamard_entry(x, y, 0, 4, 27, 0, 1);
    lemma_q_hadamard_entry(x, y, 1, 0, 1, 64, 19683);
    lemma_q_hadamard_entry(x, y, 2, 0, 1, 8, 729);
    lemma_q_hadamard_entry(x, y, 3, 0, 1, 27, 343);
    lemma_q_hadamard_entry(x, y, 4, 0, 1, 1331, 4096);
    lemma_q_hadamard_entry(x, y, 5, 0, 1, 1000, 2197);
    lemma_q_hadamard_entry(x, y, 6, 0, 1, 1, 1);
    assert(q_sum_to(s, 0) == q(0, 1));
    lemma_q_eq_value(0, 1, 0, 1);
    lemma_q_sum_step(s, 0, 0, 1, 0, 27, 0, 1);
    lemma_q_sum_step(s, 1, 0, 1, 0, 19683, 0, 1);
    lemma_q_sum_step(s, 2, 0, 1, 0, 729, 0, 1);
    lemma_q_sum_step(s, 3, 0, 1, 0, 343, 0, 1);
    lemma_q_sum_step(s, 4, 0, 1, 0, 4096, 0, 1);
    lemma_q_sum_step(s, 5, 0, 1, 0, 2197, 0, 1);
    lemma_q_sum_step(s, 6, 0, 1, 0, 1, 0, 1);
}

proof fn lemma_rktp64_sum_45()
    ensures
        q_eq(q_dot(seq![q(1, 18), q(1, 6), q(0, 1), q(0, 1), q(0, 1), q(0, 1), q(0, 1)], seq![q(0, 1), q(64, 19683), q(8, 729), q(27, 343), q(1331, 4096), q(1000, 2197), q(1, 1)]), q(32, 59049)),
        q_valid(q_dot(seq![q(1, 18), q(1, 6), q(0, 1), q(0, 1), q(0, 1), q(0, 1), q(0, 1)], seq![q(0, 1), q(64, 19683), q(8, 729), q(27, 343), q(1331, 4096), q(1000, 2197), q(1, 1)])),
{
    let x = seq![q(1, 18), q(1, 6), q(0, 1), q(0, 1), q(0, 1), q(0, 1), q(0, 1)];
    let y = seq![q(0, 1), q(64, 19683), q(8, 729), q(27, 343), q(1331, 4096), q(1000, 2197), q(1, 1)];
    let s = q_hadamard(x, y);
    assert(s.len() == 7);
    lemma_q_hadamard_entry(x, y, 0, 1, 18, 0, 1);
    lemma_q_hadamard_entry(x, y, 1, 1, 6, 64, 19683);
    lemma_q_hadamard_entry(x, y, 2, 0, 1, 8, 729);
    lemma_q_hadamard_entry(x, y, 3, 0, 1, 27, 343);
    lemma_q_hadamard_entry(x, y, 4, 0, 1, 1331, 4096);
    lemma_q_hadamard_entry(x, y, 5, 0, 1, 1000, 2197);
    lemma_q_hadamard_entry(x, y, 6, 0, 1, 1, 1);
    assert(q_sum_to(s, 0) == q(0, 1));
    lemma_q_eq_value(0, 1, 0, 1);
    lemma_q_sum_step(s, 0, 0, 1, 0, 18, 0, 1);
    lemma_q_sum_step(s, 1, 0, 1, 64, 118098, 32, 59049);
    lemma_q_sum_step(s, 2, 32, 59049, 0, 729, 32, 59049);
    lemma_q_sum_step(s, 3, 32, 59049, 0, 343, 32, 59049);
    lemma_q_sum_step(s, 4, 32, 59049, 0, 4096, 32, 59049);
    lemma_q_sum_step(s, 5, 32, 59049, 0, 2197, 32, 59049);
    lemma_q_sum_step(s, 6, 32, 59049, 0, 1, 32, 59049);
}

proof fn lemma_rktp64_sum_46()
    ensures
        q_eq(q_dot(seq![q(66, 343), q(-729, 1372), q(1053, 1372), q(0, 1), q(0, 1), q(0, 1), q(0, 1)], seq![q(0, 1), q(64, 19683), q(8, 729), q(27, 343), q(1331, 4096), q(1000, 2197), q(1, 1)]), q(62, 9261)),
        q_valid(q_dot(seq![q(66, 343), q(-729, 1372), q(1053, 1372), q(0, 1), q(0, 1), q(0, 1), q(0, 1)], seq![q(0, 1), q(64, 19683), q(8, 729), q(27, 343), q(1331, 4096), q(1000, 2197), q(1, 1)])),
{
    let x = seq![q(66, 343), q(-729, 1372), q(1053, 1372), q(0, 1), q(0, 1), q(0, 1), q(0, 1)];
    let y = seq![q(0, 1), q(64, 19683), q(8, 729), q(27, 343), q(1331, 4096), q(1000, 2197), q(1, 1)];
    let s = q_hadamard(x, y);
    assert(s.len() == 7);
    lemma_q_hadamard_entry(x, y, 0, 66, 343, 0, 1);
    lemma_q_hadamard_entry(x, y, 1, -729, 1372, 64, 19683);
    lemma_q_hadamard_entry(x, y, 2, 1053, 1372, 8, 729);
    lemma_q_hadamard_entry(x, y, 3, 0, 1, 27, 343);
    lemma_q_hadamard_entry(x, y, 4, 0, 1, 1331, 4096);
    lemma_q_hadamard_entry(x, y, 5, 0, 1, 1000, 2197);
    lemma_q_hadamard_entry(x, y, 6, 0, 1, 1, 1);
    assert(q_sum_to(s, 0) == q(0, 1));
    lemma_q_eq_value(0, 1, 0, 1);
    lemma_q_sum_step(s, 0, 0, 1, 0, 343, 0, 1);
    lemma_q_sum_step(s, 1, 0, 1, -46656, 27005076, -16, 9261);
    lemma_q_sum_step(s, 2, -16, 9261, 8424, 1000188, 62, 9261);
    lemma_q_sum_step(s, 3, 62, 9261, 0, 343, 62, 9261);
    lemma_q_sum_step(s, 4, 62, 9261, 0, 4096, 62, 9261);
    lemma_q_sum_step(s, 5, 62, 9261, 0, 2197, 62, 9261);
    lemma_q_sum_step(s, 6, 62, 9261, 0, 1, 62, 9261);
}

proof fn lemma_rktp64_sum_47()
    ensures
        q_eq(q_dot(seq![q(13339, 49152), q(-4617, 16384), q(5427, 53248), q(95207, 159744), q(0, 1), q(0, 1), q(0, 1)], seq![q(0, 1), q(64, 19683), q(8, 729), q(27, 343), q(1331, 4096), q(1000, 2197), q(1, 1)]), q(109427, 2322432)),
        q_valid(q_dot(seq![q(13339, 49152), q(-4617, 16384), q(5427, 53248), q(95207, 159744), q(0, 1), q(0, 1), q(0, 1)], seq![q(0, 1), q(64, 19683), q(8, 729), q(27, 343), q(1331, 4096), q(1000, 2197), q(1, 1)])),
{
    let x = seq![q(13339, 49152), q(-4617, 16384), q(5427, 53248), q(95207, 159744), q(0, 1), q(0, 1), q(0, 1)];
    let y = seq![q(0, 1), q(64, 19683), q(8, 729), q(27, 343), q(1331, 4096), q(1000, 2197), q(1, 1)];
    let s = q_hadamard(x, y);
    assert(s.len() == 7);
    lemma_q_hadamard_entry(x, y, 0, 13339, 49152, 0, 1);
    lemma_q_hadamard_entry(x, y, 1, -4617, 16384, 64, 19683);
    lemma_q_hadamard_entry(x, y, 2, 5427, 53248, 8, 729);
    lemma_q_hadamard_entry(x, y, 3, 95207, 159744, 27, 343);
    lemma_q_hadamard_entry(x, y, 4, 0, 1, 1331, 4096);
    lemma_q_hadamard_entry(x, y, 5, 0, 1, 1000, 2197);
    lemma_q_hadamard_entry(x, y, 6, 0, 1, 1, 1);
    assert(q_sum_to(s, 0) == q(0, 1));
    lemma_q_eq_value(0, 1, 0, 1);
    lemma_q_sum_step(s, 0, 0, 1, 0, 49152, 0, 1);
    lemma_q_sum_step(s, 1, 0, 1, -295488, 322486272, -19, 20736);
    lemma_q_sum_step(s, 2, -19, 20736, 43416, 38817792, 109, 539136);
    lemma_q_sum_step(s, 3, 109, 539136, 2570589, 54792192, 109427, 2322432);
    lemma_q_sum_step(s, 4, 109427, 2322432, 0, 4096, 109427, 2322432);
    lemma_q_sum_step(s, 5, 109427, 2322432, 0, 2197, 109427, 2322432);
    lemma_q_sum_step(s, 6, 109427, 2322432, 0, 1, 109427, 2322432);
}

proof fn lemma_rktp64_sum_48()
    ensures
        q_eq(q_dot(seq![q(-6935, 57122), q(23085, 48334), q(33363360, 273642941), q(972160, 118442467), q(172687360, 610434253), q(0, 1), q(0, 1)], seq![q(0, 1), q(64, 19683), q(8, 729), q(27, 343), q(1331, 4096), q(1000, 2197), q(1, 1)]), q(17005360, 178134957)),
        q_valid(q_dot(seq![q(-6935, 57122), q(23085, 48334), q(33363360, 273642941), q(972160, 118442467), q(172687360, 610434253), q(0, 1), q(0, 1)], seq![q(0, 1), q(64, 19683), q(8, 729), q(27, 343), q(1331, 4096), q(1000, 2197), q(1, 1)])),
{
    let x = seq![q(-6935, 57122), q(23085, 48334), q(33363360, 273642941), q(972160, 118442467), q(172687360, 610434253), q(0, 1), q(0, 1)];
    let y = seq![q(0, 1), q(64, 19683), q(8, 729), q(27, 343), q(1331, 4096), q(1000, 2197), q(1, 1)];
    let s = q_hadamard(x, y);
    assert(s.len() == 7);
    lemma_q_hadamard_entry(x, y, 0, -6935, 57122, 0, 1);
    lemma_q_hadamard_entry(x, y, 1, 23085, 48334, 64, 19683);
    lemma_q_hadamard_entry(x, y, 2, 33363360, 273642941, 8, 729);
    lemma_q_hadamard_entry(x, y, 3, 972160, 118442467, 27, 343);
    lemma_q_hadamard_entry(x, y, 4, 172687360, 610434253, 1331, 4096);
    lemma_q_hadamard_entry(x, y, 5, 0, 1, 1000, 2197);
    lemma_q_hadamard_entry(x, y, 6, 0, 1, 1, 1);
    assert(q_sum_to(s, 0) == q(0, 1));
    lemma_q_eq_value(0, 1, 0, 1);
    lemma_q_sum_step(s, 0, 0, 1, 0, 57122, 0, 1);
    lemma_q_sum_step(s, 1, 0, 1, 1477440, 951358122, 3040, 1957527);
    lemma_q_sum_step(s, 2, 3040, 1957527, 266906880, 199485703989, 64078240, 22165078221);
    lemma_q_sum_step(s, 3, 64078240, 22165078221, 26248320, 40625766181, 1224232160, 346116221451);
    lemma_q_sum_step(s, 4, 1224232160, 346116221451, 229846876160, 2500338700288, 17005360, 178134957);
    lemma_q_sum_step(s, 5, 17005360, 178134957, 0, 2197, 17005360, 178134957);
    lemma_q_sum_step(s, 6, 17005360, 178134957, 0, 1, 17005360, 178134957);
}

proof fn lemma_rktp64_sum_49()
    ensures
        q_eq(q_dot(seq![q(611, 1891), q(-4617, 7564), q(6041007, 13176488), q(12708836, 22100117), q(-35840000, 62461621), q(6597591, 7972456), q(0, 1)], seq![q(0, 1), q(64, 19683), q(8, 729), q(27, 343), q(1331, 4096), q(1000, 2197), q(1, 1)]), q(36536, 153171)),
        q_valid(q_dot(seq![q(611, 1891), q(-4617, 7564), q(6041007, 13176488), q(12708836, 22100117), q(-35840000, 62461621), q(6597591, 7972456), q(0, 1)], seq![q(0, 1), q(64, 19683), q(8, 729), q(27, 343), q(1331, 4096), q(1000, 2197), q(1, 1)])),
{
    let x = seq![q(611, 1891), q(-4617, 7564), q(6041007, 13176488), q(12708836, 22100117), q(-35840000, 62461621), q(6597591, 7972456), q(0, 1)];
    let y = seq![q(0, 1), q(64, 19683), q(8, 729), q(27, 343), q(1331, 4096), q(1000, 2197), q(1, 1)];
    let s = q_hadamard(x, y);
    assert(s.len() == 7);
    lemma_q_hadamard_entry(x, y, 0, 611, 1891, 0, 1);
    lemma_q_hadamard_entry(x, y, 1, -4617, 7564, 64, 19683);
    lemma_q_hadamard_entry(x, y, 2, 6041007, 13176488, 8, 729);
    lemma_q_hadamard_entry(x, y, 3, 12708836, 22100117, 27, 343);
    lemma_q_hadamard_entry(x, y, 4, -35840000, 62461621, 1331, 4096);
    lemma_q_hadamard_entry(x, y, 5, 6597591, 7972456, 1000, 2197);
    lemma_q_hadamard_entry(x, y, 6, 0, 1, 1, 1);
    assert(q_sum_to(s, 0) == q(0, 1));
    lemma_q_eq_value(0, 1, 0, 1);
    lemma_q_sum_step(s, 0, 0, 1, 0, 1891, 0, 1);
    lemma_q_sum_step(s, 1, 0, 1, -295488, 148882212, -304, 153171);
    lemma_q_sum_step(s, 2, -304, 153171, 48328056, 9605659752, 406439, 133411941);
    lemma_q_sum_step(s, 3, 406439, 133411941, 343138572, 7580340131, 445737013, 9225948843);
    lemma_q_sum_step(s, 4, 445737013, 9225948843, -47703040000, 255842799616, -11150903, 80721117);
    lemma_q_sum_step(s, 5, -11150903, 80721117, 6597591000, 17515485832, 36536, 153171);
    lemma_q_sum_step(s, 6, 36536, 153171, 0, 1, 36536, 153171);
}

proof fn lemma_rktp64_sum_50()
    ensures
        q_eq(q_dot(seq![q(0, 1), q(0, 1), q(0, 1), q(0, 1), q(0, 1), q(0, 1), q(0, 1)], seq![q(0, 1), q(0, 1), q(4, 729), q(27, 686), q(1331, 8192), q(500, 2197), q(1, 2)]), q(0, 1)),
        q_valid(q_dot(seq![q(0, 1), q(0, 1), q(0, 1), q(0, 1), q(0, 1), q(0, 1), q(0, 1)], seq![q(0, 1), q(0, 1), q(4, 729), q(27, 686), q(1331, 8192), q(500, 2197), q(1, 2)])),
{
    let x = seq![q(0, 1), q(0, 1), q(0, 1), q(0, 1), q(0, 1), q(0, 1), q(0, 1)];
    let y = seq![q(0, 1), q(0, 1), q(4, 729), q(27, 686), q(1331, 8192), q(500, 2197), q(1, 2)];
    let s = q_hadamard(x, y);
    assert(s.len() == 7);
    lemma_q_hadamard_entry(x, y, 0, 0, 1, 0, 1);
    lemma_q_hadamard_entry(x, y, 1, 0, 1, 0, 1);
    lemma_q_hadamard_entry(x, y, 2, 0, 1, 4, 729);
    lemma_q_hadamard_entry(x, y, 3, 0, 1, 27, 686);
    lemma_q_hadamard_entry(x, y, 4, 0, 1, 1331, 8192);
    lemma_q_hadamard_entry(x, y, 5, 0, 1, 500, 2197);
    lemma_q_hadamard_entry(x, y, 6, 0, 1, 1, 2);
    assert(q_sum_to(s, 0) == q(0, 1));
    lemma_q_eq_value(0, 1, 0, 1);
    lemma_q_sum_step(s, 0, 0, 1, 0, 1, 0, 1);
    lemma_q_sum_step(s, 1, 0, 1, 0, 1, 0, 1);
    lemma_q_sum_step(s, 2, 0, 1, 0, 729, 0, 1);
    lemma_q_sum_step(s, 3, 0, 1, 0, 686, 0, 1);
    lemma_q_sum_step(s, 4, 0, 1, 0, 8192, 0, 1);
    lemma_q_sum_step(s, 5, 0, 1, 0, 2197, 0, 1);
    lemma_q_sum_step(s, 6, 0, 1, 0, 2, 0, 1);
}

proof fn lemma_rktp64_sum_51()
    ensures
        q_eq(q_dot(seq![q(4, 27), q(0, 1), q(0, 1), q(0, 1), q(0, 1), q(0, 1), q(0, 1)], seq![q(0, 1), q(0, 1), q(4, 729), q(27, 686), q(1331, 8192), q(500, 2197), q(1, 2)]), q(0, 1)),
        q_valid(q_dot(seq![q(4, 27), q(0, 1), q(0, 1), q(0, 1), q(0, 1), q(0, 1), q(0, 1)], seq![q(0, 1), q(0, 1), q(4, 729), q(27, 686), q(1331, 8192), q(500, 2197), q(1, 2)])),
{
    let x = seq![q(4, 27), q(0, 1), q(0, 1), q(0, 1), q(0, 1), q(0, 1), q(0, 1)];
    let y = seq![q(0, 1), q(0, 1), q(4, 729), q(27, 686), q(1331, 8192), q(500, 2197), q(1, 2)];
    let s = q_hadamard(x, y);
    assert(s.len() == 7);
    lemma_q_hadamard_entry(x, y, 0, 4, 27, 0, 1);
    lemma_q_hadamard_entry(x, y, 1, 0, 1, 0, 1);
    lemma_q_hadamard_entry(x, y, 2, 0, 1, 4, 729);
    lemma_q_hadamard_entry(x, y, 3, 0, 1, 27, 686);
    lemma_q_hadamard_entry(x, y, 4, 0, 1, 1331, 8192);
    lemma_q_hadamard_entry(x, y, 5, 0, 1, 500, 2197);
    lemma_q_hadamard_entry(x, y, 6, 0, 1, 1, 2);
    assert(q_sum_to(s, 0) == q(0, 1));
    lemma_q_eq_value(0, 1, 0, 1);
    lemma_q_sum_step(s, 0, 0, 1, 0, 27, 0, 1);
    lemma_q_sum_step(s, 1, 0, 1, 0, 1, 0, 1);
    lemma_q_sum_step(s, 2, 0, 1, 0, 729, 0, 1);
    lemma_q_sum_step(s, 3, 0, 1, 0, 686, 0, 1);
    lemma_q_sum_step(s, 4, 0, 1, 0, 8192, 0, 1);
    lemma_q_sum_step(s, 5, 0, 1, 0, 2197, 0, 1);
    lemma_q_sum_step(s, 6, 0, 1, 0, 2, 0, 1);
}

proof fn lemma_rktp64_sum_52()
    ensures
        q_eq(q_dot(seq![q(1, 18), q(1, 6), q(0, 1), q(0, 1), q(0, 1), q(0, 1), q(0, 1)], seq![q(0, 1), q(0, 1), q(4, 729), q(27, 686), q(1331, 8192), q(500, 2197), q(1, 2)]), q(0, 1)),
        q_valid(q_dot(seq![q(1, 18), q(1, 6), q(0, 1), q(0, 1), q(0, 1), q(0, 1), q(0, 1)], seq![q(0, 1), q(0, 1), q(4, 729), q(27, 686), q(1331, 8192), q(500, 2197), q(1, 2)])),
{
    let x = seq![q(1, 18), q(1, 6), q(0, 1), q(0, 1), q(0, 1), q(0, 1), q(0, 1)];
    let y = seq![q(0, 1), q(0, 1), q(4, 729), q(27, 686), q(1331, 8192), q(500, 2197), q(1, 2)];
    let s = q_hadamard(x, y);
    assert(s.len() == 7);
    lemma_q_hadamard_entry(x, y, 0, 1, 18, 0, 1);
    lemma_q_hadamard_entry(x, y, 1, 1, 6, 0, 1);
    lemma_q_hadamard_entry(x, y, 2, 0, 1, 4, 729);
    lemma_q_hadamard_entry(x, y, 3, 0, 1, 27, 686);
    lemma_q_hadamard_entry(x, y, 4, 0, 1, 1331, 8192);
    lemma_q_hadamard_entry(x, y, 5, 0, 1, 500, 2197);
    lemma_q_hadamard_entry(x, y, 6, 0, 1, 1, 2);
    assert(q_sum_to(s, 0) == q(0, 1));
    lemma_q_eq_value(0, 1, 0, 1);
    lemma_q_sum_step(s, 0, 0, 1, 0, 18, 0, 1);
    lemma_q_sum_step(s, 1, 0, 1, 0, 6, 0, 1);
    lemma_q_sum_step(s, 2, 0, 1, 0, 729, 0, 1);
    lemma_q_sum_step(s, 3, 0, 1, 0, 686, 0, 1);
    lemma_q_sum_step(s, 4, 0, 1, 0, 8192, 0, 1);
    lemma_q_sum_step(s, 5, 0, 1, 0, 2197, 0, 1);
    lemma_q_sum_step(s, 6, 0, 1, 0, 2, 0, 1);
}

proof fn lemma_rktp64_sum_53()
    ensures
        q_eq(q_dot(seq![q(66, 343), q(-729, 1372), q(1053, 1372), q(0, 1), q(0, 1), q(0, 1), q(0, 1)], seq![q(0, 1), q(0, 1), q(4, 729), q(27, 686), q(1331, 8192), q(500, 2197), q(1, 2)]), q(13, 3087)),
        q_valid(q_dot(seq![q(66, 343), q(-729, 1372), q(1053, 1372), q(0, 1), q(0, 1), q(0, 1), q(0, 1)], seq![q(0, 1), q(0, 1), q(4, 729), q(27, 686), q(1331, 8192), q(500, 2197), q(1, 2)])),
{
    let x = seq![q(66, 343), q(-729, 1372), q(1053, 1372), q(0, 1), q(0, 1), q(0, 1), q(0, 1)];
    let y = seq![q(0, 1), q(0, 1), q(4, 729), q(27, 686), q(1331, 8192), q(500, 2197), q(1, 2)];
    let s = q_hadamard(x, y);
    assert(s.len() == 7);
    lemma_q_hadamard_entry(x, y, 0, 66, 343, 0, 1);
    lemma_q_hadamard_entry(x, y, 1, -729, 1372, 0, 1);
    lemma_q_hadamard_entry(x, y, 2, 1053, 1372, 4, 729);
    lemma_q_hadamard_entry(x, y, 3, 0, 1, 27, 686);
    lemma_q_hadamard_entry(x, y, 4, 0, 1, 1331, 8192);
    lemma_q_hadamard_entry(x, y, 5, 0, 1, 500, 2197);
    lemma_q_hadamard_entry(x, y, 6, 0, 1, 1, 2);
    assert(q_sum_to(s, 0) == q(0, 1));
    lemma_q_eq_value(0, 1, 0, 1);
    lemma_q_sum_step(s, 0, 0, 1, 0, 343, 0, 1);
    lemma_q_sum_step(s, 1, 0, 1, 0, 1372, 0, 1);
    lemma_q_sum_step(s, 2, 0, 1, 4212, 1000188, 13, 3087);
    lemma_q_sum_step(s, 3, 13, 3087, 0, 686, 13, 3087);
    lemma_q_sum_step(s, 4, 13, 3087, 0, 8192, 13, 3087);
    lemma_q_sum_step(s, 5, 13, 3087, 0, 2197, 13, 3087);
    lemma_q_sum_step(s, 6, 13, 3087, 0, 2, 13, 3087);
}

proof fn lemma_rktp64_sum_54()
    ensures
        q_eq(q_dot(seq![q(13339, 49152), q(-4617, 16384), q(5427, 53248), q(95207, 159744), q(0, 1), q(0, 1), q(0, 1)], seq![q(0, 1), q(0, 1), q(4, 729), q(27, 686), q(1331, 8192), q(500, 2197), q(1, 2)]), q(12395, 516096)),
        q_valid(q_dot(seq![q(13339, 49152), q(-4617, 16384), q(5427, 53248), q(95207, 159744), q(0, 1), q(0, 1), q(0, 1)], seq![q(0, 1), q(0, 1), q(4, 729), q(27, 686), q(1331, 8192), q(500, 2197), q(1, 2)])),
{
    let x = seq![q(13339, 49152), q(-4617, 16384), q(5427, 53248), q(95207, 159744), q(0, 1), q(0, 1), q(0, 1)];
    let y = seq![q(0, 1), q(0, 1), q(4, 729), q(27, 686), q(1331, 8192), q(500, 2197), q(1, 2)];
    let s = q_hadamard(x, y);
    assert(s.len() == 7);
    lemma_q_hadamard_entry(x, y, 0, 13339, 49152, 0, 1);
    lemma_q_hadamard_entry(x, y, 1, -4617, 16384, 0, 1);
    lemma_q_hadamard_entry(x, y, 2, 5427, 53248, 4, 729);
    lemma_q_hadamard_entry(x, y, 3, 95207, 159744, 27, 686);
    lemma_q_hadamard_entry(x, y, 4, 0, 1, 1331, 8192);
    lemma_q_hadamard_entry(x, y, 5, 0, 1, 500, 2197);
    lemma_q_hadamard_entry(x, y, 6, 0, 1, 1, 2);
    assert(q_sum_to(s, 0) == q(0, 1));
    lemma_q_eq_value(0, 1, 0, 1);
    lemma_q_sum_step(s, 0, 0, 1, 0, 49152, 0, 1);
    lemma_q_sum_step(s, 1, 0, 1, 0, 16384, 0, 1);
    lemma_q_sum_step(s, 2, 0, 1, 21708, 38817792, 67, 119808);
    lemma_q_sum_step(s, 3, 67, 119808, 2570589, 109584384, 12395, 516096);
    lemma_q_sum_step(s, 4, 12395, 516096, 0, 8192, 12395, 516096);
    lemma_q_sum_step(s, 5, 12395, 516096, 0, 2197, 12395, 516096);
    lemma_q_sum_step(s, 6, 12395, 516096, 0, 2, 12395, 516096);
}

proof fn lemma_rktp64_sum_55()
    ensures
        q_eq(q_dot(seq![q(-6935, 57122), q(23085, 48334), q(33363360, 273642941), q(972160, 118442467), q(172687360, 610434253), q(0, 1), q(0, 1)], seq![q(0, 1), q(0, 1), q(4, 729), q(27, 686), q(1331, 8192), q(500, 2197), q(1, 2)]), q(2788120, 59378319)),
        q_valid(q_dot(seq![q(-6935, 57122), q(23085, 48334), q(33363360, 273642941), q(972160, 118442467), q(172687360, 610434253), q(0, 1), q(0, 1)], seq![q(0, 1), q(0, 1), q(4, 729), q(27, 686), q(1331, 8192), q(500, 2197), q(1, 2)])),
{
    let x = seq![q(-6935, 57122), q(23085, 48334), q(33363360, 273642941), q(972160, 118442467), q(172687360, 610434253), q(0, 1), q(0, 1)];
    let y = seq![q(0, 1), q(0, 1), q(4, 729), q(27, 686), q(1331, 8192), q(500, 2197), q(1, 2)];
    let s = q_hadamard(x, y);
    assert(s.len() == 7);
    lemma_q_hadamard_entry(x, y, 0, -6935, 57122, 0, 1);
    lemma_q_hadamard_entry(x, y, 1, 23085, 48334, 0, 1);
    lemma_q_hadamard_entry(x, y, 2, 33363360, 273642941, 4, 729);
    lemma_q_hadamard_entry(x, y, 3, 972160, 118442467, 27, 686);
    lemma_q_hadamard_entry(x, y, 4, 172687360, 610434253, 1331, 8192);
    lemma_q_hadamard_entry(x, y, 5, 0, 1, 500, 2197);
    lemma_q_hadamard_entry(x, y, 6, 0, 1, 1, 2);
    assert(q_sum_to(s, 0) == q(0, 1));
    lemma_q_eq_value(0, 1, 0, 1);
    lemma_q_sum_step(s, 0, 0, 1, 0, 57122, 0, 1);
    lemma_q_sum_step(s, 1, 0, 1, 0, 48334, 0, 1);
    lemma_q_sum_step(s, 2, 0, 1, 133453440, 199485703989, 4942720, 7388359407);
    lemma_q_sum_step(s, 3, 4942720, 7388359407, 26248320, 81251532362, 114453440, 115372073817);
    lemma_q_sum_step(s, 4, 114453440, 115372073817, 229846876160, 5000677400576, 2788120, 59378319);
    lemma_q_sum_step(s, 5, 2788120, 59378319, 0, 2197, 2788120, 59378319);
    lemma_q_sum_step(s, 6, 2788120, 59378319, 0, 2, 2788120, 59378319);
}

proof fn lemma_rktp64_sum_56()
    ensures
        q_eq(q_dot(seq![q(611, 1891), q(-4617, 7564), q(6041007, 13176488), q(12708836, 22100117), q(-35840000, 62461621), q(6597591, 7972456), q(0, 1)], seq![q(0, 1), q(0, 1), q(4, 729), q(27, 686), q(1331, 8192), q(500, 2197), q(1, 2)]), q(6140, 51057)),
        q_valid(q_dot(seq![q(611, 1891), q(-4617, 7564), q(6041007, 13176488), q(12708836, 22100117), q(-35840000, 62461621), q(6597591, 7972456), q(0, 1)], seq![q(0, 1), q(0, 1), q(4, 729), q(27, 686), q(1331, 8192), q(500, 2197), q(1, 2)])),
{
    let x = seq![q(611, 1891), q(-4617, 7564), q(6041007, 13176488), q(12708836, 22100117), q(-35840000, 62461621), q(6597591, 7972456), q(0, 1)];
    let y = seq![q(0, 1), q(0, 1), q(4, 729), q(27, 686), q(1331, 8192), q(500, 2197), q(1, 2)];
    let s = q_hadamard(x, y);
    assert(s.len() == 7);
    lemma_q_hadamard_entry(x, y, 0, 611, 1891, 0, 1);
    lemma_q_hadamard_entry(x, y, 1, -4617, 7564, 0, 1);
    lemma_q_hadamard_entry(x, y, 2, 6041007, 13176488, 4, 729);
    lemma_q_hadamard_entry(x, y, 3, 12708836, 22100117, 27, 686);
    lemma_q_hadamard_entry(x, y, 4, -35840000, 62461621, 1331, 8192);
    lemma_q_hadamard_entry(x, y, 5, 6597591, 7972456, 500, 2197);
    lemma_q_hadamard_entry(x, y, 6, 0, 1, 1, 2);
    assert(q_sum_to(s, 0) == q(0, 1));
    lemma_q_eq_value(0, 1, 0, 1);
    lemma_q_sum_step(s, 0, 0, 1, 0, 1891, 0, 1);
    lemma_q_sum_step(s, 1, 0, 1, 0, 7564, 0, 1);
    lemma_q_sum_step(s, 2, 0, 1, 24164028, 9605659752, 223741, 88941294);
    lemma_q_sum_step(s, 3, 223741, 88941294, 343138572, 15160680262, 154682615, 6150632562);
    lemma_q_sum_step(s, 4, 154682615, 6150632562, -47703040000, 511685599232, -3663565, 53814078);
    lemma_q_sum_step(s, 5, -3663565, 53814078, 3298795500, 17515485832, 6140, 51057);
    lemma_q_sum_step(s, 6, 6140, 51057, 0, 2, 6140, 51057);
}

proof fn lemma_rktp64_sum_57()
    ensures
        q_eq(q_dot(seq![q(0, 1), q(0, 1), q(0, 1), q(0, 1), q(0, 1), q(0, 1), q(0, 1)], seq![q(0, 1), q(0, 1), q(8, 2187), q(9, 343), q(1331, 12288), q(1000, 6591), q(1, 3)]), q(0, 1)),
        q_valid(q_dot(seq![q(0, 1), q(0, 1), q(0, 1), q(0, 1), q(0, 1), q(0, 1), q(0, 1)], seq![q(0, 1), q(0, 1), q(8, 2187), q(9, 343), q(1331, 12288), q(1000, 6591), q(1, 3)])),
{
    let x = seq![q(0, 1), q(0, 1), q(0, 1), q(0, 1), q(0, 1), q(0, 1), q(0, 1)];
    let y = seq![q(0, 1), q(0, 1), q(8, 2187), q(9, 343), q(1331, 12288), q(1000, 6591), q(1, 3)];
    let s = q_hadamard(x, y);
    assert(s.len() == 7);
    lemma_q_hadamard_entry(x, y, 0, 0, 1, 0, 1);
    lemma_q_hadamard_entry(x, y, 1, 0, 1, 0, 1);
    lemma_q_hadamard_entry(x, y, 2, 0, 1, 8, 2187);
    lemma_q_hadamard_entry(x, y, 3, 0, 1, 9, 343);
    lemma_q_hadamard_entry(x, y, 4, 0, 1, 1331, 12288);
    lemma_q_hadamard_entry(x, y, 5, 0, 1, 1000, 6591);
    lemma_q_hadamard_entry(x, y, 6, 0, 1, 1, 3);
    assert(q_sum_to(s, 0) == q(0, 1));
    lemma_q_eq_value(0, 1, 0, 1);
    lemma_q_sum_step(s, 0, 0, 1, 0, 1, 0, 1);
    lemma_q_sum_step(s, 1, 0, 1, 0, 1, 0, 1);
    lemma_q_sum_step(s, 2, 0, 1, 0, 2187, 0, 1);
    lemma_q_sum_step(s, 3, 0, 1, 0, 343, 0, 1);
    lemma_q_sum_step(s, 4, 0, 1, 0, 12288, 0, 1);
    lemma_q_sum_step(s, 5, 0, 1, 0, 6591, 0, 1);
    lemma_q_sum_step(s, 6, 0, 1, 0, 3, 0, 1);
}

proof fn lemma_rktp64_sum_58()
    ensures
        q_eq(q_dot(seq![q(4, 27), q(0, 1), q(0, 1), q(0, 1), q(0, 1), q(0, 1), q(0, 1)], seq![q(0, 1), q(0, 1), q(8, 2187), q(9, 343), q(1331, 12288), q(1000, 6591), q(1, 3)]), q(0, 1)),
        q_valid(q_dot(seq![q(4, 27), q(0, 1), q(0, 1), q(0, 1), q(0, 1), q(0, 1), q(0, 1)], seq![q(0, 1), q(0, 1), q(8, 2187), q(9, 343), q(1331, 12288), q(1000, 6591), q(1, 3)])),
{
    let x = seq![q(4, 27), q(0, 1), q(0, 1), q(0, 1), q(0, 1), q(0, 1), q(0, 1)];
    let y = seq![q(0, 1), q(0, 1), q(8, 2187), q(9, 343), q(1331, 12288), q(1000, 6591), q(1, 3)];
    let s = q_hadamard(x, y);
    assert(s.len() == 7);
    lemma_q_hadamard_entry(x, y, 0, 4, 27, 0, 1);
    lemma_q_hadamard_entry(x, y, 1, 0, 1, 0, 1);
    lemma_q_hadamard_entry(x, y, 2, 0, 1, 8, 2187);
    lemma_q_hadamard_entry(x, y, 3, 0, 1, 9, 343);
    lemma_q_hadamard_entry(x, y, 4, 0, 1, 1331, 12288);
    lemma_q_hadamard_entry(x, y, 5, 0, 1, 1000, 6591);
    lemma_q_hadamard_entry(x, y, 6, 0, 1, 1, 3);
    assert(q_sum_to(s, 0) == q(0, 1));
    lemma_q_eq_value(0, 1, 0, 1);
    lemma_q_sum_step(s, 0, 0, 1, 0, 27, 0, 1);
    lemma_q_sum_step(s, 1, 0, 1, 0, 1, 0, 1);
    lemma_q_sum_step(s, 2, 0, 1, 0, 2187, 0, 1);
    lemma_q_sum_step(s, 3, 0, 1, 0, 343, 0, 1);
    lemma_q_sum_step(s, 4, 0, 1, 0, 12288, 0, 1);
    lemma_q_sum_step(s, 5, 0, 1, 0, 6591, 0, 1);
    lemma_q_sum_step(s, 6, 0, 1, 0, 3, 0, 1);
}

proof fn lemma_rktp64_sum_59()
    ensures
        q_eq(q_dot(seq![q(1, 18), q(1, 6), q(0, 1), q(0, 1), q(0, 1), q(0, 1), q(0, 1)], seq![q(0, 1), q(0, 1), q(8, 2187), q(9, 343), q(1331, 12288), q(1000, 6591), q(1, 3)]), q(0, 1)),
        q_valid(q_dot(seq![q(1, 18), q(1, 6), q(0, 1), q(0, 1), q(0, 1), q(0, 1), q(0, 1)], seq![q(0, 1), q(0, 1), q(8, 2187), q(9, 343), q(1331, 12288), q(1000, 6591), q(1, 3)])),
{
    let x = seq![q(1, 18), q(1, 6), q(0, 1), q(0, 1), q(0, 1), q(0, 1), q(0, 1)];
    let y = seq![q(0, 1), q(0, 1), q(8, 2187), q(9, 343), q(1331, 12288), q(1000, 6591), q(1, 3)];
    let s = q_hadamard(x, y);
    assert(s.len() == 7);
    lemma_q_hadamard_entry(x, y, 0, 1, 18, 0, 1);
    lemma_q_hadamard_entry(x, y, 1, 1, 6, 0, 1);
    lemma_q_hadamard_entry(x, y, 2, 0, 1, 8, 2187);
    lemma_q_hadamard_entry(x, y, 3, 0, 1, 9, 343);
    lemma_q_hadamard_entry(x, y, 4, 0, 1, 1331, 12288);
    lemma_q_hadamard_entry(x, y, 5, 0, 1, 1000, 6591);
    lemma_q_hadamard_entry(x, y, 6, 0, 1, 1, 3);
    assert(q_sum_to(s, 0) == q(0, 1));
    lemma_q_eq_value(0, 1, 0, 1);
    lemma_q_sum_step(s, 0, 0, 1, 0, 18, 0, 1);
    lemma_q_sum_step(s, 1, 0, 1, 0, 6, 0, 1);
    lemma_q_sum_step(s, 2, 0, 1, 0, 2187, 0, 1);
    lemma_q_sum_step(s, 3, 0, 1, 0, 343, 0, 1);
    lemma_q_sum_step(s, 4, 0, 1, 0, 12288, 0, 1);
    lemma_q_sum_step(s, 5, 0, 1, 0, 6591, 0, 1);
    lemma_q_sum_step(s, 6, 0, 1, 0, 3, 0, 1);
}

proof fn lemma_rktp64_sum_60()
    ensures
        q_eq(q_dot(seq![q(66, 343), q(-729, 1372), q(1053, 1372), q(0, 1), q(0, 1), q(0, 1), q(0, 1)], seq![q(0, 1), q(0, 1), q(8, 2187), q(9, 343), q(1331, 12288), q(1000, 6591), q(1, 3)]), q(26, 9261)),
        q_valid(q_dot(seq![q(66, 343), q(-729, 1372), q(1053, 1372), q(0, 1), q(0, 1), q(0, 1), q(0, 1)], seq![q(0, 1), q(0, 1), q(8, 2187), q(9, 343), q(1331, 12288), q(1000, 6591), q(1, 3)])),
{
    let x = seq![q(66, 343), q(-729, 1372), q(1053, 1372), q(0, 1), q(0, 1), q(0, 1), q(0, 1)];
    let y = seq![q(0, 1), q(0, 1), q(8, 2187), q(9, 343), q(1331, 12288), q(1000, 6591), q(1, 3)];
    let s = q_hadamard(x, y);
    assert(s.len() == 7);
    lemma_q_hadamard_entry(x, y, 0, 66, 343, 0, 1);
    lemma_q_hadamard_entry(x, y, 1, -729, 1372, 0, 1);
    lemma_q_hadamard_entry(x, y, 2, 1053, 1372, 8, 2187);
    lemma_q_hadamard_entry(x, y, 3, 0, 1, 9, 343);
    lemma_q_hadamard_entry(x, y, 4, 0, 1, 1331, 12288);
    lemma_q_hadamard_entry(x, y, 5, 0, 1, 1000, 6591);
    lemma_q_hadamard_entry(x, y, 6, 0, 1, 1, 3);
    assert(q_sum_to(s, 0) == q(0, 1));
    lemma_q_eq_value(0, 1, 0, 1);
    lemma_q_sum_step(s, 0, 0, 1, 0, 343, 0, 1);
    lemma_q_sum_step(s, 1, 0, 1, 0, 1372, 0, 1);
    lemma_q_sum_step(s, 2, 0, 1, 8424, 3000564, 26, 9261);
    lemma_q_sum_step(s, 3, 26, 9261, 0, 343, 26, 9261);
    lemma_q_sum_step(s, 4, 26, 9261, 0, 12288, 26, 9261);
    lemma_q_sum_step(s, 5, 26, 9261, 0, 6591, 26, 9261);
    lemma_q_sum_step(s, 6, 26, 9261, 0, 3, 26, 9261);
}

proof fn lemma_rktp64_sum_61()
    ensures
        q_eq(q_dot(seq![q(13339, 49152), q(-4617, 16384), q(5427, 53248), q(95207, 159744), q(0, 1), q(0, 1), q(0, 1)], seq![q(0, 1), q(0, 1), q(8, 2187), q(9, 343), q(1331, 12288), q(1000, 6591), q(1, 3)]), q(12395, 774144)),
        q_valid(q_dot(seq![q(13339, 49152), q(-4617, 16384), q(5427, 53248), q(95207, 159744), q(0, 1), q(0, 1), q(0, 1)], seq![q(0, 1), q(0, 1), q(8, 2187), q(9, 343), q(1331, 12288), q(1000, 6591), q(1, 3)])),
{
    let x = seq![q(13339, 49152), q(-4617, 16384), q(5427, 53248), q(95207, 159744), q(0, 1), q(0, 1), q(0, 1)];
    let y = seq![q(0, 1), q(0, 1), q(8, 2187), q(9, 343), q(1331, 12288), q(1000, 6591), q(1, 3)];
    let s = q_hadamard(x, y);
    assert(s.len() == 7);
    lemma_q_hadamard_entry(x, y, 0, 13339, 49152, 0, 1);
    lemma_q_hadamard_entry(x, y, 1, -4617, 16384, 0, 1);
    lemma_q_hadamard_entry(x, y, 2, 5427, 53248, 8, 2187);
    lemma_q_hadamard_entry(x, y, 3, 95207, 159744, 9, 343);
    lemma_q_hadamard_entry(x, y, 4, 0, 1, 1331, 12288);
    lemma_q_hadamard_entry(x, y, 5, 0, 1, 1000, 6591);
    lemma_q_hadamard_entry(x, y, 6, 0, 1, 1, 3);
    assert(q_sum_to(s, 0) == q(0, 1));
    lemma_q_eq_value(0, 1, 0, 1);
    lemma_q_sum_step(s, 0, 0, 1, 0, 49152, 0, 1);
    lemma_q_sum_step(s, 1, 0, 1, 0, 16384, 0, 1);
    lemma_q_sum_step(s, 2, 0, 1, 43416, 116453376, 67, 179712);
    lemma_q_sum_step(s, 3, 67, 179712, 856863, 54792192, 12395, 774144);
    lemma_q_sum_step(s, 4, 12395, 774144, 0, 12288, 12395, 774144);
    lemma_q_sum_step(s, 5, 12395, 774144, 0, 6591, 12395, 774144);
    lemma_q_sum_step(s, 6, 12395, 774144, 0, 3, 12395, 774144);
}

proof fn lemma_rktp64_sum_62()
    ensures
        q_eq(q_dot(seq![q(-6935, 57122), q(23085, 48334), q(33363360, 273642941), q(972160, 118442467), q(172687360, 610434253), q(0, 1), q(0, 1)], seq![q(0, 1), q(0, 1), q(8, 2187), q(9, 343), q(1331, 12288), q(1000, 6591), q(1, 3)]), q(5576240, 178134957)),
        q_valid(q_dot(seq![q(-6935, 57122), q(23085, 48334), q(33363360, 273642941), q(972160, 118442467), q(172687360, 610434253), q(0, 1), q(0, 1)], seq![q(0, 1), q(0, 1), q(8, 2187), q(9, 343), q(1331, 12288), q(1000, 6591), q(1, 3)])),
{
    let x = seq![q(-6935, 57122), q(23085, 48334), q(33363360, 273642941), q(972160, 118442467), q(172687360, 610434253), q(0, 1), q(0, 1)];
    let y = seq![q(0, 1), q(0, 1), q(8, 2187), q(9, 343), q(1331, 12288), q(1000, 6591), q(1, 3)];
    let s = q_hadamard(x, y);
    assert(s.len() == 7);
    lemma_q_hadamard_entry(x, y, 0, -6935, 57122, 0, 1);
    lemma_q_hadamard_entry(x, y, 1, 23085, 48334, 0, 1);
    lemma_q_hadamard_entry(x, y, 2, 33363360, 273642941, 8, 2187);
    lemma_q_hadamard_entry(x, y, 3, 972160, 118442467, 9, 343);
    lemma_q_hadamard_entry(x, y, 4, 172687360, 610434253, 1331, 12288);
    lemma_q_hadamard_entry(x, y, 5, 0, 1, 1000, 6591);
    lemma_q_hadamard_entry(x, y, 6, 0, 1, 1, 3);
    assert(q_sum_to(s, 0) == q(0, 1));
    lemma_q_eq_value(0, 1, 0, 1);
    lemma_q_sum_step(s, 0, 0, 1, 0, 57122, 0, 1);
    lemma_q_sum_step(s, 1, 0, 1, 0, 48334, 0, 1);
    lemma_q_sum_step(s, 2, 0, 1, 266906880, 598457111967, 9885440, 22165078221);
    lemma_q_sum_step(s, 3, 9885440, 22165078221, 8749440, 40625766181, 228906880, 346116221451);
    lemma_q_sum_step(s, 4, 228906880, 346116221451, 229846876160, 7501016100864, 5576240, 178134957);
    lemma_q_sum_step(s, 5, 5576240, 178134957, 0, 6591, 5576240, 178134957);
    lemma_q_sum_step(s, 6, 5576240, 178134957, 0, 3, 5576240, 178134957);
}

proof fn lemma_rktp64_sum_63()
    ensures
        q_eq(q_dot(seq![q(611, 1891), q(-4617, 7564), q(6041007, 13176488), q(12708836, 22100117), q(-35840000, 62461621), q(6597591, 7972456), q(0, 1)], seq![q(0, 1), q(0, 1), q(8, 2187), q(9, 343), q(1331, 12288), q(1000, 6591), q(1, 3)]), q(12280, 153171)),
        q_valid(q_dot(seq![q(611, 1891), q(-4617, 7564), q(6041007, 13176488), q(12708836, 22100117), q(-35840000, 62461621), q(6597591, 7972456), q(0, 1)], seq![q(0, 1), q(0, 1), q(8, 2187), q(9, 343), q(1331, 12288), q(1000, 6591), q(1, 3)])),
{
    let x = seq![q(611, 1891), q(-4617, 7564), q(6041007, 13176488), q(12708836, 22100117), q(-35840000, 62461621), q(6597591, 7972456), q(0, 1)];
    let y = seq![q(0, 1), q(0, 1), q(8, 2187), q(9, 343), q(1331, 12288), q(1000, 6591), q(1, 3)];
    let s = q_hadamard(x, y);
    assert(s.len() == 7);
    lemma_q_hadamard_entry(x, y, 0, 611, 1891, 0, 1);
    lemma_q_hadamard_entry(x, y, 1, -4617, 7564, 0, 1);
    lemma_q_hadamard_entry(x, y, 2, 6041007, 13176488, 8, 2187);
    lemma_q_hadamard_entry(x, y, 3, 12708836, 22100117, 9, 343);
    lemma_q_hadamard_entry(x, y, 4, -35840000, 62461621, 1331, 12288);
    lemma_q_hadamard_entry(x, y, 5, 6597591, 7972456, 1000, 6591);
    lemma_q_hadamard_entry(x, y, 6, 0, 1, 1, 3);
    assert(q_sum_to(s, 0) == q(0, 1));
    lemma_q_eq_value(0, 1, 0, 1);
    lemma_q_sum_step(s, 0, 0, 1, 0, 1891, 0, 1);
    lemma_q_sum_step(s, 1, 0, 1, 0, 7564, 0, 1);
    lemma_q_sum_step(s, 2, 0, 1, 48328056, 28816979256, 223741, 133411941);
    lemma_q_sum_step(s, 3, 223741, 133411941, 114379524, 7580340131, 154682615, 9225948843);
    lemma_q_sum_step(s, 4, 154682615, 9225948843, -47703040000, 767528398848, -3663565, 80721117);
    lemma_q_sum_step(s, 5, -3663565, 80721117, 6597591000, 52546457496, 12280, 153171);
    lemma_q_sum_step(s, 6, 12280, 153171, 0, 3, 12280, 153171);
}

proof fn lemma_rktp64_sum_64()
    ensures
        q_eq(q_dot(seq![q(0, 1), q(0, 1), q(0, 1), q(0, 1), q(0, 1), q(0, 1), q(0, 1)], seq![q(0, 1), q(0, 1), q(0, 1), q(13, 686), q(469, 8192), q(5120, 72501), q(1967, 11346)]), q(0, 1)),
        q_valid(q_dot(seq![q(0, 1), q(0, 1), q(0, 1), q(0, 1), q(0, 1), q(0, 1), q(0, 1)], seq![q(0, 1), q(0, 1), q(0, 1), q(13, 686), q(469, 8192), q(5120, 72501), q(1967, 11346)])),
{
    let x = seq![q(0, 1), q(0, 1), q(0, 1), q(0, 1), q(0, 1), q(0, 1), q(0, 1)];
    let y = seq![q(0, 1), q(0, 1), q(0, 1), q(13, 686), q(469, 8192), q(5120, 72501), q(1967, 11346)];
    let s = q_hadamard(x, y);
    assert(s.len() == 7);
    lemma_q_hadamard_entry(x, y, 0, 0, 1, 0, 1);
    lemma_q_hadamard_entry(x, y, 1, 0, 1, 0, 1);
    lemma_q_hadamard_entry(x, y, 2, 0, 1, 0, 1);
    lemma_q_hadamard_entry(x, y, 3, 0, 1, 13, 686);
    lemma_q_hadamard_entry(x, y, 4, 0, 1, 469, 8192);
    lemma_q_hadamard_entry(x, y, 5, 0, 1, 5120, 72501);
    lemma_q_hadamard_entry(x, y, 6, 0, 1, 1967, 11346);
    assert(q_sum_to(s, 0) == q(0, 1));
    lemma_q_eq_value(0, 1, 0, 1);
    lemma_q_sum_step(s, 0, 0, 1, 0, 1, 0, 1);
    lemma_q_sum_step(s, 1, 0, 1, 0, 1, 0, 1);
    lemma_q_sum_step(s, 2, 0, 1, 0, 1, 0, 1);
    lemma_q_sum_step(s, 3, 0, 1, 0, 686, 0, 1);
    lemma_q_sum_step(s, 4, 0, 1, 0, 8192, 0, 1);
    lemma_q_sum_step(s, 5, 0, 1, 0, 72501, 0, 1);
    lemma_q_sum_step(s, 6, 0, 1, 0, 11346, 0, 1);
}

proof fn lemma_rktp64_sum_65()
    ensures
        q_eq(q_dot(seq![q(4, 27), q(0, 1), q(0, 1), q(0, 1), q(0, 1), q(0, 1), q(0, 1)], seq![q(0, 1), q(0, 1), q(0, 1), q(13, 686), q(469, 8192), q(5120, 72501), q(1967, 11346)]), q(0, 1)),
        q_valid(q_dot(seq![q(4, 27), q(0, 1), q(0, 1), q(0, 1), q(0, 1), q(0, 1), q(0, 1)], seq![q(0, 1), q(0, 1), q(0, 1), q(13, 686), q(469, 8192), q(5120, 72501), q(1967, 11346)])),
{
    let x = seq![q(4, 27), q(0, 1), q(0, 1), q(0, 1), q(0, 1), q(0, 1), q(0, 1)];
    let y = seq![q(0, 1), q(0, 1), q(0, 1), q(13, 686), q(469, 8192), q(5120, 72501), q(1967, 11346)];
    let s = q_hadamard(x, y);
    assert(s.len() == 7);
    lemma_q_hadamard_entry(x, y, 0, 4, 27, 0, 1);
    lemma_q_hadamard_entry(x, y, 1, 0, 1, 0, 1);
    lemma_q_hadamard_entry(x, y, 2, 0, 1, 0, 1);
    lemma_q_hadamard_entry(x, y, 3, 0, 1, 13, 686);
    lemma_q_hadamard_entry(x, y, 4, 0, 1, 469, 8192);
    lemma_q_hadamard_entry(x, y, 5, 0, 1, 5120, 72501);
    lemma_q_hadamard_entry(x, y, 6, 0, 1, 1967, 11346);
    assert(q_sum_to(s, 0) == q(0, 1));
    lemma_q_eq_value(0, 1, 0, 1);
    lemma_q_sum_step(s, 0, 0, 1, 0, 27, 0, 1);
    lemma_q_sum_step(s, 1, 0, 1, 0, 1, 0, 1);
    lemma_q_sum_step(s, 2, 0, 1, 0, 1, 0, 1);
    lemma_q_sum_step(s, 3, 0, 1, 0, 686, 0, 1);
    lemma_q_sum_step(s, 4, 0, 1, 0, 8192, 0, 1);
    lemma_q_sum_step(s, 5, 0, 1, 0, 72501, 0, 1);
    lemma_q_sum_step(s, 6, 0, 1, 0, 11346, 0, 1);
}

proof fn lemma_rktp64_sum_66()
    ensures
        q_eq(q_dot(seq![q(1, 18), q(1, 6), q(0, 1), q(0, 1), q(0, 1), q(0, 1), q(0, 1)], seq![q(0, 1), q(0, 1), q(0, 1), q(13, 686), q(469, 8192), q(5120, 72501), q(1967, 11346)]), q(0, 1)),
        q_valid(q_dot(seq![q(1, 18), q(1, 6), q(0, 1), q(0, 1), q(0, 1), q(0, 1), q(0, 1)], seq![q(0, 1), q(0, 1), q(0, 1), q(13, 686), q(469, 8192), q(5120, 72501), q(1967, 11346)])),
{
    let x = seq![q(1, 18), q(1, 6), q(0, 1), q(0, 1), q(0, 1), q(0, 1), q(0, 1)];
    let y = seq![q(0, 1), q(0, 1), q(0, 1), q(13, 686), q(469, 8192), q(5120, 72501), q(1967, 11346)];
    let s = q_hadamard(x, y);
    assert(s.len() == 7);
    lemma_q_hadamard_entry(x, y, 0, 1, 18, 0, 1);
    lemma_q_hadamard_entry(x, y, 1, 1, 6, 0, 1);
    lemma_q_hadamard_entry(x, y, 2, 0, 1, 0, 1);
    lemma_q_hadamard_entry(x, y, 3, 0, 1, 13, 686);
    lemma_q_hadamard_entry(x, y, 4, 0, 1, 469, 8192);
    lemma_q_hadamard_entry(x, y, 5, 0, 1, 5120, 72501);
    lemma_q_hadamard_entry(x, y, 6, 0, 1, 1967, 11346);
    assert(q_sum_to(s, 0) == q(0, 1));
    lemma_q_eq_value(0, 1, 0, 1);
    lemma_q_sum_step(s, 0, 0, 1, 0, 18, 0, 1);
    lemma_q_sum_step(s, 1, 0, 1, 0, 6, 0, 1);
    lemma_q_sum_step(s, 2, 0, 1, 0, 1, 0, 1);
    lemma_q_sum_step(s, 3, 0, 1, 0, 686, 0, 1);
    lemma_q_sum_step(s, 4, 0, 1, 0, 8192, 0, 1);
    lemma_q_sum_step(s, 5, 0, 1, 0, 72501, 0, 1);
    lemma_q_sum_step(s, 6, 0, 1, 0, 11346, 0, 1);
}

proof fn lemma_rktp64_sum_67()
    ensures
        q_eq(q_dot(seq![q(66, 343), q(-729, 1372), q(1053, 1372), q(0, 1), q(0, 1), q(0, 1), q(0, 1)], seq![q(0, 1), q(0, 1), q(0, 1), q(13, 686), q(469, 8192), q(5120, 72501), q(1967, 11346)]), q(0, 1)),
        q_valid(q_dot(seq![q(66, 343), q(-729, 1372), q(1053, 1372), q(0, 1), q(0, 1), q(0, 1), q(0, 1)], seq![q(0, 1), q(0, 1), q(0, 1), q(13, 686), q(469, 8192), q(5120, 72501), q(1967, 11346)])),
{
    let x = seq![q(66, 343), q(-729, 1372), q(1053, 1372), q(0, 1), q(0, 1), q(0, 1), q(0, 1)];
    let y = seq![q(0, 1), q(0, 1), q(0, 1), q(13, 686), q(469, 8192), q(5120, 72501), q(1967, 11346)];
    let s = q_hadamard(x, y);
    assert(s.len() == 7);
    lemma_q_hadamard_entry(x, y, 0, 66, 343, 0, 1);
    lemma_q_hadamard_entry(x, y, 1, -729, 1372, 0, 1);
    lemma_q_hadamard_entry(x, y, 2, 1053, 1372, 0, 1);
    lemma_q_hadamard_entry(x, y, 3, 0, 1, 13, 686);
    lemma_q_hadamard_entry(x, y, 4, 0, 1, 469, 8192);
    lemma_q_hadamard_entry(x, y, 5, 0, 1, 5120, 72501);
    lemma_q_hadamard_entry(x, y, 6, 0, 1, 1967, 11346);
    assert(q_sum_to(s, 0) == q(0, 1));
    lemma_q_eq_value(0, 1, 0, 1);
    lemma_q_sum_step(s, 0, 0, 1, 0, 343, 0, 1);
    lemma_q_sum_step(s, 1, 0, 1, 0, 1372, 0, 1);
    lemma_q_sum_step(s, 2, 0, 1, 0, 1372, 0, 1);
    lemma_q_sum_step(s, 3, 0, 1, 0, 686, 0, 1);
    lemma_q_sum_step(s, 4, 0, 1, 0, 8192, 0, 1);
    lemma_q_sum_step(s, 5, 0, 1, 0, 72501, 0, 1);
    lemma_q_sum_step(s, 6, 0, 1, 0, 11346, 0, 1);
}

proof fn lemma_rktp64_sum_68()
    ensures
        q_eq(q_dot(seq![q(13339, 49152), q(-4617, 16384), q(5427, 53248), q(95207, 159744), q(0, 1), q(0, 1), q(0, 1)], seq![q(0, 1), q(0, 1), q(0, 1), q(13, 686), q(469, 8192), q(5120, 72501), q(1967, 11346)]), q(1943, 172032)),
        q_valid(q_dot(seq![q(13339, 49152), q(-4617, 16384), q(5427, 53248), q(95207, 159744), q(0, 1), q(0, 1), q(0, 1)], seq![q(0, 1), q(0, 1), q(0, 1), q(13, 686), q(469, 8192), q(5120, 72501), q(1967, 11346)])),
{
    let x = seq![q(13339, 49152), q(-4617, 16384), q(5427, 53248), q(95207, 159744), q(0, 1), q(0, 1), q(0, 1)];
    let y = seq![q(0, 1), q(0, 1), q(0, 1), q(13, 686), q(469, 8192), q(5120, 72501), q(1967, 11346)];
    let s = q_hadamard(x, y);
    assert(s.len() == 7);
    lemma_q_hadamard_entry(x, y, 0, 13339, 49152, 0, 1);
    lemma_q_hadamard_entry(x, y, 1, -4617, 16384, 0, 1);
    lemma_q_hadamard_entry(x, y, 2, 5427, 53248, 0, 1);
    lemma_q_hadamard_entry(x, y, 3, 95207, 159744, 13, 686);
    lemma_q_hadamard_entry(x, y, 4, 0, 1, 469, 8192);
    lemma_q_hadamard_entry(x, y, 5, 0, 1, 5120, 72501);
    lemma_q_hadamard_entry(x, y, 6, 0, 1, 1967, 11346);
    assert(q_sum_to(s, 0) == q(0, 1));
    lemma_q_eq_value(0, 1, 0, 1);
    lemma_q_sum_step(s, 0, 0, 1, 0, 49152, 0, 1);
    lemma_q_sum_step(s, 1, 0, 1, 0, 16384, 0, 1);
    lemma_q_sum_step(s, 2, 0, 1, 0, 53248, 0, 1);
    lemma_q_sum_step(s, 3, 0, 1, 1237691, 109584384, 1943, 172032);
    lemma_q_sum_step(s, 4, 1943, 172032, 0, 8192, 1943, 172032);
    lemma_q_sum_step(s, 5, 1943, 172032, 0, 72501, 1943, 172032);
    lemma_q_sum_step(s, 6, 1943, 172032, 0, 11346, 1943, 172032);
}

proof fn lemma_rktp64_sum_69()
    ensures
        q_eq(q_dot(seq![q(-6935, 57122), q(23085, 48334), q(33363360, 273642941), q(972160, 118442467), q(172687360, 610434253), q(0, 1), q(0, 1)], seq![q(0, 1), q(0, 1), q(0, 1), q(13, 686), q(469, 8192), q(5120, 72501), q(1967, 11346)]), q(35960, 2199197)),
        q_valid(q_dot(seq![q(-6935, 57122), q(23085, 48334), q(33363360, 273642941), q(972160, 118442467), q(172687360, 610434253), q(0, 1), q(0, 1)], seq![q(0, 1), q(0, 1), q(0, 1), q(13, 686), q(469, 8192), q(5120, 72501), q(1967, 11346)])),
{
    let x = seq![q(-6935, 57122), q(23085, 48334), q(33363360, 273642941), q(972160, 118442467), q(172687360, 610434253), q(0, 1), q(0, 1)];
    let y = seq![q(0, 1), q(0, 1), q(0, 1), q(13, 686), q(469, 8192), q(5120, 72501), q(1967, 11346)];
    let s = q_hadamard(x, y);
    assert(s.len() == 7);
    lemma_q_hadamard_entry(x, y, 0, -6935, 57122, 0, 1);
    lemma_q_hadamard_entry(x, y, 1, 23085, 48334, 0, 1);
    lemma_q_hadamard_entry(x, y, 2, 33363360, 273642941, 0, 1);
    lemma_q_hadamard_entry(x, y, 3, 972160, 118442467, 13, 686);
    lemma_q_hadamard_entry(x, y, 4, 172687360, 610434253, 469, 8192);
    lemma_q_hadamard_entry(x, y, 5, 0, 1, 5120, 72501);
    lemma_q_hadamard_entry(x, y, 6, 0, 1, 1967, 11346);
    assert(q_sum_to(s, 0) == q(0, 1));
    lemma_q_eq_value(0, 1, 0, 1);
    lemma_q_sum_step(s, 0, 0, 1, 0, 57122, 0, 1);
    lemma_q_sum_step(s, 1, 0, 1, 0, 48334, 0, 1);
    lemma_q_sum_step(s, 2, 0, 1, 0, 273642941, 0, 1);
    lemma_q_sum_step(s, 3, 0, 1, 12638080, 81251532362, 9920, 63776713);
    lemma_q_sum_step(s, 4, 9920, 63776713, 80990371840, 5000677400576, 35960, 2199197);
    lemma_q_sum_step(s, 5, 35960, 2199197, 0, 72501, 35960, 2199197);
    lemma_q_sum_step(s, 6, 35960, 2199197, 0, 11346, 35960, 2199197);
}

proof fn lemma_rktp64_sum_70()
    ensures
        q_eq(q_dot(seq![q(611, 1891), q(-4617, 7564), q(6041007, 13176488), q(12708836, 22100117), q(-35840000, 62461621), q(6597591, 7972456), q(0, 1)], seq![q(0, 1), q(0, 1), q(0, 1), q(13, 686), q(469, 8192), q(5120, 72501), q(1967, 11346)]), q(69, 1891)),
        q_valid(q_dot(seq![q(611, 1891), q(-4617, 7564), q(6041007, 13176488), q(12708836, 22100117), q(-35840000, 62461621), q(6597591, 7972456), q(0, 1)], seq![q(0, 1), q(0, 1), q(0, 1), q(13, 686), q(469, 8192), q(5120, 72501), q(1967, 11346)])),
{
    let x = seq![q(611, 1891), q(-4617, 7564), q(6041007, 13176488), q(12708836, 22100117), q(-35840000, 62461621), q(6597591, 7972456), q(0, 1)];
    let y = seq![q(0, 1), q(0, 1), q(0, 1), q(13, 686), q(469, 8192), q(5120, 72501), q(1967, 11346)];
    let s = q_hadamard(x, y);
    assert(s.len() == 7);
    lemma_q_hadamard_entry(x, y, 0, 611, 1891, 0, 1);
    lemma_q_hadamard_entry(x, y, 1, -4617, 7564, 0, 1);
    lemma_q_hadamard_entry(x, y, 2, 6041007, 13176488, 0, 1);
    lemma_q_hadamard_entry(x, y, 3, 12708836, 22100117, 13, 686);
    lemma_q_hadamard_entry(x, y, 4, -35840000, 62461621, 469, 8192);
    lemma_q_hadamard_entry(x, y, 5, 6597591, 7972456, 5120, 72501);
    lemma_q_hadamard_entry(x, y, 6, 0, 1, 1967, 11346);
    assert(q_sum_to(s, 0) == q(0, 1));
    lemma_q_eq_value(0, 1, 0, 1);
    lemma_q_sum_step(s, 0, 0, 1, 0, 1891, 0, 1);
    lemma_q_sum_step(s, 1, 0, 1, 0, 7564, 0, 1);
    lemma_q_sum_step(s, 2, 0, 1, 0, 13176488, 0, 1);
    lemma_q_sum_step(s, 3, 0, 1, 165214868, 15160680262, 18526, 1700009);
    lemma_q_sum_step(s, 4, 18526, 1700009, -16808960000, 511685599232, -21877, 996557);
    lemma_q_sum_step(s, 5, -21877, 996557, 33779665920, 578011032456, 69, 1891);
    lemma_q_sum_step(s, 6, 69, 1891, 0, 11346, 69, 1891);
}

proof fn lemma_rktp64_sum_71()
    ensures
        q_eq(q_dot(seq![q(0, 1), q(0, 1), q(0, 1), q(0, 1), q(0, 1), q(0, 1), q(0, 1)], seq![q(0, 1), q(256, 531441), q(16, 6561), q(81, 2401), q(14641, 65536), q(10000, 28561), q(1, 1)]), q(0, 1)),
        q_valid(q_dot(seq![q(0, 1), q(0, 1), q(0, 1), q(0, 1), q(0, 1), q(0, 1), q(0, 1)], seq![q(0, 1), q(256, 531441), q(16, 6561), q(81, 2401), q(14641, 65536), q(10000, 28561), q(1, 1)])),
{
    let x = seq![q(0, 1), q(0, 1), q(0, 1), q(0, 1), q(0, 1), q(0, 1), q(0, 1)];
    let y = seq![q(0, 1), q(256, 531441), q(16, 6561), q(81, 2401), q(14641, 65536), q(10000, 28561), q(1, 1)];
    let s = q_hadamard(x, y);
    assert(s.len() == 7);
    lemma_q_hadamard_entry(x, y, 0, 0, 1, 0, 1);
    lemma_q_hadamard_entry(x, y, 1, 0, 1, 256, 531441);
    lemma_q_hadamard_entry(x, y, 2, 0, 1, 16, 6561);
    lemma_q_hadamard_entry(x, y, 3, 0, 1, 81, 2401);
    lemma_q_hadamard_entry(x, y, 4, 0, 1, 14641, 65536);
    lemma_q_hadamard_entry(x, y, 5, 0, 1, 10000, 28561);
    lemma_q_hadamard_entry(x, y, 6, 0, 1, 1, 1);
    assert(q_sum_to(s, 0) == q(0, 1));
    lemma_q_eq_value(0, 1, 0, 1);
    lemma_q_sum_step(s, 0, 0, 1, 0, 1, 0, 1);
    lemma_q_sum_step(s, 1, 0, 1, 0, 531441, 0, 1);
    lemma_q_sum_step(s, 2, 0, 1, 0, 6561, 0, 1);
    lemma_q_sum_step(s, 3, 0, 1, 0, 2401, 0, 1);
    lemma_q_sum_step(s, 4, 0, 1, 0, 65536, 0, 1);
    lemma_q_sum_step(s, 5, 0, 1, 0, 28561, 0, 1);
    lemma_q_sum_step(s, 6, 0, 1, 0, 1, 0, 1);
}

proof fn lemma_rktp64_sum_72()
    ensures
        q_eq(q_dot(seq![q(4, 27), q(0, 1), q(0, 1), q(0, 1), q(0, 1), q(0, 1), q(0, 1)], seq![q(0, 1), q(256, 531441), q(16, 6561), q(81, 2401), q(14641, 65536), q(10000, 28561), q(1, 1)]), q(0, 1)),
        q_valid(q_dot(seq![q(4, 27), q(0, 1), q(0, 1), q(0, 1), q(0, 1), q(0, 1), q(0, 1)], seq![q(0, 1), q(256, 531441), q(16, 6561), q(81, 2401), q(14641, 65536), q(10000, 28561), q(1, 1)])),
{
    let x = seq![q(4, 27), q(0, 1), q(0, 1), q(0, 1), q(0, 1), q(0, 1), q(0, 1)];
    let y = seq![q(0, 1), q(256, 531441), q(16, 6561), q(81, 2401), q(14641, 65536), q(10000, 28561), q(1, 1)];
    let s = q_hadamard(x, y);
    assert(s.len() == 7);
    lemma_q_hadamard_entry(x, y, 0, 4, 27, 0, 1);
    lemma_q_hadamard_entry(x, y, 1, 0, 1, 256, 531441);
    lemma_q_hadamard_entry(x, y, 2, 0, 1, 16, 6561);
    lemma_q_hadamard_entry(x, y, 3, 0, 1, 81, 2401);
    lemma_q_hadamard_entry(x, y, 4, 0, 1, 14641, 65536);
    lemma_q_hadamard_entry(x, y, 5, 0, 1, 10000, 28561);
    lemma_q_hadamard_entry(x, y, 6, 0, 1, 1, 1);
    assert(q_sum_to(s, 0) == q(0, 1));
    lemma_q_eq_value(0, 1, 0, 1);
    lemma_q_sum_step(s, 0, 0, 1, 0, 27, 0, 1);
    lemma_q_sum_step(s, 1, 0, 1, 0, 531441, 0, 1);
    lemma_q_sum_step(s, 2, 0, 1, 0, 6561, 0, 1);
    lemma_q_sum_step(s, 3, 0, 1, 0, 2401, 0, 1);
    lemma_q_sum_step(s, 4, 0, 1, 0, 65536, 0, 1);
    lemma_q_sum_step(s, 5, 0, 1, 0, 28561, 0, 1);
    lemma_q_sum_step(s, 6, 0, 1, 0, 1, 0, 1);
}

proof fn lemma_rktp64_sum_73()
    ensures
        q_eq(q_dot(seq![q(1, 18), q(1, 6), q(0, 1), q(0, 1), q(0, 1), q(0, 1), q(0, 1)], seq![q(0, 1), q(256, 531441), q(16, 6561), q(81, 2401), q(14641, 65536), q(10000, 28561), q(1, 1)]), q(128, 1594323)),
        q_valid(q_dot(seq![q(1, 18), q(1, 6), q(0, 1), q(0, 1), q(0, 1), q(0, 1), q(0, 1)], seq![q(0, 1), q(256, 531441), q(16, 6561), q(81, 2401), q(14641, 65536), q(10000, 28561), q(1, 1)])),
{
    let x = seq![q(1, 18), q(1, 6), q(0, 1), q(0, 1), q(0, 1), q(0, 1), q(0, 1)];
    let y = seq![q(0, 1), q(256, 531441), q(16, 6561), q(81, 2401), q(14641, 65536), q(10000, 28561), q(1, 1)];
    let s = q_hadamard(x, y);
    assert(s.len() == 7);
    lemma_q_hadamard_entry(x, y, 0, 1, 18, 0, 1);
    lemma_q_hadamard_entry(x, y, 1, 1, 6, 256, 531441);
    lemma_q_hadamard_entry(x, y, 2, 0, 1, 16, 6561);
    lemma_q_hadamard_entry(x, y, 3, 0, 1, 81, 2401);
    lemma_q_hadamard_entry(x, y, 4, 0, 1, 14641, 65536);
    lemma_q_hadamard_entry(x, y, 5, 0, 1, 10000, 28561);
    lemma_q_hadamard_entry(x, y, 6, 0, 1, 1, 1);
    assert(q_sum_to(s, 0) == q(0, 1));
    lemma_q_eq_value(0, 1, 0, 1);
    lemma_q_sum_step(s, 0, 0, 1, 0, 18, 0, 1);
    lemma_q_sum_step(s, 1, 0, 1, 256, 3188646, 128, 1594323);
    lemma_q_sum_step(s, 2, 128, 1594323, 0, 6561, 128, 1594323);
    lemma_q_sum_step(s, 3, 128, 1594323, 0, 2401, 128, 1594323);
    lemma_q_sum_step(s, 4, 128, 1594323, 0, 65536, 128, 1594323);
    lemma_q_sum_step(s, 5, 128, 1594323, 0, 28561, 128, 1594323);
    lemma_q_sum_step(s, 6, 128, 1594323, 0, 1, 128, 1594323);
}

proof fn lemma_rktp64_sum_74()
    ensures
        q_eq(q_dot(seq![q(66, 343), q(-729, 1372), q(1053, 1372), q(0, 1), q(0, 1), q(0, 1), q(0, 1)], seq![q(0, 1), q(256, 531441), q(16, 6561), q(81, 2401), q(14641, 65536), q(10000, 28561), q(1, 1)]), q(404, 250047)),
        q_valid(q_dot(seq![q(66, 343), q(-729, 1372), q(1053, 1372), q(0, 1), q(0, 1), q(0, 1), q(0, 1)], seq![q(0, 1), q(256, 531441), q(16, 6561), q(81, 2401), q(14641, 65536), q(10000, 28561), q(1, 1)])),
{
    let x = seq![q(66, 343), q(-729, 1372), q(1053, 1372), q(0, 1), q(0, 1), q(0, 1), q(0, 1)];
    let y = seq![q(0, 1), q(256, 531441), q(16, 6561), q(81, 2401), q(14641, 65536), q(10000, 28561), q(1, 1)];
    let s = q_hadamard(x, y);
    assert(s.len() == 7);
    lemma_q_hadamard_entry(x, y, 0, 66, 343, 0, 1);
    lemma_q_hadamard_entry(x, y, 1, -729, 1372, 256, 531441);
    lemma_q_hadamard_entry(x, y, 2, 1053, 1372, 16, 6561);
    lemma_q_hadamard_entry(x, y, 3, 0, 1, 81, 2401);
    lemma_q_hadamard_entry(x, y, 4, 0, 1, 14641, 65536);
    lemma_q_hadamard_entry(x, y, 5, 0, 1, 10000, 28561);
    lemma_q_hadamard_entry(x, y, 6, 0, 1, 1, 1);
    assert(q_sum_to(s, 0) == q(0, 1));
    lemma_q_eq_value(0, 1, 0, 1);
    lemma_q_sum_step(s, 0, 0, 1, 0, 343, 0, 1);
    lemma_q_sum_step(s, 1, 0, 1, -186624, 729137052, -64, 250047);
    lemma_q_sum_step(s, 2, -64, 250047, 16848, 9001692, 404, 250047);
    lemma_q_sum_step(s, 3, 404, 250047, 0, 2401, 404, 250047);
    lemma_q_sum_step(s, 4, 404, 250047, 0, 65536, 404, 250047);
    lemma_q_sum_step(s, 5, 404, 250047, 0, 28561, 404, 250047);
    lemma_q_sum_step(s, 6, 404, 250047, 0, 1, 404, 250047);
}

proof fn lemma_rktp64_sum_75()
    ensures
        q_eq(q_dot(seq![q(13339, 49152), q(-4617, 16384), q(5427, 53248), q(95207, 159744), q(0, 1), q(0, 1), q(0, 1)], seq![q(0, 1), q(256, 531441), q(16, 6561), q(81, 2401), q(14641, 65536), q(10000, 28561), q(1, 1)]), q(8875067, 438939648)),
        q_valid(q_dot(seq![q(13339, 49152), q(-4617, 16384), q(5427, 53248), q(95207, 159744), q(0, 1), q(0, 1), q(0, 1)], seq![q(0, 1), q(256, 531441), q(16, 6561), q(81, 2401), q(14641, 65536), q(10000, 28561), q(1, 1)])),
{
    let x = seq![q(13339, 49152), q(-4617, 16384), q(5427, 53248), q(95207, 159744), q(0, 1), q(0, 1), q(0, 1)];
    let y = seq![q(0, 1), q(256, 531441), q(16, 6561), q(81, 2401), q(14641, 65536), q(10000, 28561), q(1, 1)];
    let s = q_hadamard(x, y);
    assert(s.len() == 7);
    lemma_q_hadamard_entry(x, y, 0, 13339, 49152, 0, 1);
    lemma_q_hadamard_entry(x, y, 1, -4617, 16384, 256, 531441);
    lemma_q_hadamard_entry(x, y, 2, 5427, 53248, 16, 6561);
    lemma_q_hadamard_entry(x, y, 3, 95207, 159744, 81, 2401);
    lemma_q_hadamard_entry(x, y, 4, 0, 1, 14641, 65536);
    lemma_q_hadamard_entry(x, y, 5, 0, 1, 10000, 28561);
    lemma_q_hadamard_entry(x, y, 6, 0, 1, 1, 1);
    assert(q_sum_to(s, 0) == q(0, 1));
    lemma_q_eq_value(0, 1, 0, 1);
    lemma_q_sum_step(s, 0, 0, 1, 0, 49152, 0, 1);
    lemma_q_sum_step(s, 1, 0, 1, -1181952, 8707129344, -19, 139968);
    lemma_q_sum_step(s, 2, -19, 139968, 86832, 349360128, 821, 7278336);
    lemma_q_sum_step(s, 3, 821, 7278336, 7711767, 383545344, 8875067, 438939648);
    lemma_q_sum_step(s, 4, 8875067, 438939648, 0, 65536, 8875067, 438939648);
    lemma_q_sum_step(s, 5, 8875067, 438939648, 0, 28561, 8875067, 438939648);
    lemma_q_sum_step(s, 6, 8875067, 438939648, 0, 1, 8875067, 438939648);
}

proof fn lemma_rktp64_sum_76()
    ensures
        q_eq(q_dot(seq![q(-6935, 57122), q(23085, 48334), q(33363360, 273642941), q(972160, 118442467), q(172687360, 610434253), q(0, 1), q(0, 1)], seq![q(0, 1), q(256, 531441), q(16, 6561), q(81, 2401), q(14641, 65536), q(10000, 28561), q(1, 1)]), q(2154842575, 33667506873)),
        q_valid(q_dot(seq![q(-6935, 57122), q(23085, 48334), q(33363360, 273642941), q(972160, 118442467), q(172687360, 610434253), q(0, 1), q(0, 1)], seq![q(0, 1), q(256, 531441), q(16, 6561), q(81, 2401), q(14641, 65536), q(10000, 28561), q(1, 1)])),
{
    let x = seq![q(-6935, 57122), q(23085, 48334), q(33363360, 273642941), q(972160, 118442467), q(172687360, 610434253), q(0, 1), q(0, 1)];
    let y = seq![q(0, 1), q(256, 531441), q(16, 6561), q(81, 2401), q(14641, 65536), q(10000, 28561), q(1, 1)];
    let s = q_hadamard(x, y);
    assert(s.len() == 7);
    lemma_q_hadamard_entry(x, y, 0, -6935, 57122, 0, 1);
    lemma_q_hadamard_entry(x, y, 1, 23085, 48334, 256, 531441);
    lemma_q_hadamard_entry(x, y, 2, 33363360, 273642941, 16, 6561);
    lemma_q_hadamard_entry(x, y, 3, 972160, 118442467, 81, 2401);
    lemma_q_hadamard_entry(x, y, 4, 172687360, 610434253, 14641, 65536);
    lemma_q_hadamard_entry(x, y, 5, 0, 1, 10000, 28561);
    lemma_q_hadamard_entry(x, y, 6, 0, 1, 1, 1);
    assert(q_sum_to(s, 0) == q(0, 1));
    lemma_q_eq_value(0, 1, 0, 1);
    lemma_q_sum_step(s, 0, 0, 1, 0, 57122, 0, 1);
    lemma_q_sum_step(s, 1, 0, 1, 5909760, 25686669294, 12160, 52853229);
    lemma_q_sum_step(s, 2, 12160, 52853229, 533813760, 1795371335901, 315625600, 598457111967);
    lemma_q_sum_step(s, 3, 315625600, 598457111967, 78744960, 284380363267, 52613995520, 65415965854239);
    lemma_q_sum_step(s, 4, 52613995520, 65415965854239, 2528315637760, 40005419204608, 2154842575, 33667506873);
    lemma_q_sum_step(s, 5, 2154842575, 33667506873, 0, 28561, 2154842575, 33667506873);
    lemma_q_sum_step(s, 6, 2154842575, 33667506873, 0, 1, 2154842575, 33667506873);
}

proof fn lemma_rktp64_sum_77()
    ensures
        q_eq(q_dot(seq![q(611, 1891), q(-4617, 7564), q(6041007, 13176488), q(12708836, 22100117), q(-35840000, 62461621), q(6597591, 7972456), q(0, 1)], seq![q(0, 1), q(256, 531441), q(16, 6561), q(81, 2401), q(14641, 65536), q(10000, 28561), q(1, 1)]), q(42100243, 231594552)),
        q_valid(q_dot(seq![q(611, 1891), q(-4617, 7564), q(6041007, 13176488), q(12708836, 22100117), q(-35840000, 62461621), q(6597591, 7972456), q(0, 1)], seq![q(0, 1), q(256, 531441), q(16, 6561), q(81, 2401), q(14641, 65536), q(10000, 28561), q(1, 1)])),
{
    let x = seq![q(611, 1891), q(-4617, 7564), q(6041007, 13176488), q(12708836, 22100117), q(-35840000, 62461621), q(6597591, 7972456), q(0, 1)];
    let y = seq![q(0, 1), q(256, 531441), q(16, 6561), q(81, 2401), q(14641, 65536), q(10000, 28561), q(1, 1)];
    let s = q_hadamard(x, y);
    assert(s.len() == 7);
    lemma_q_hadamard_entry(x, y, 0, 611, 1891, 0, 1);
    lemma_q_hadamard_entry(x, y, 1, -4617, 7564, 256, 531441);
    lemma_q_hadamard_entry(x, y, 2, 6041007, 13176488, 16, 6561);
    lemma_q_hadamard_entry(x, y, 3, 12708836, 22100117, 81, 2401);
    lemma_q_hadamard_entry(x, y, 4, -35840000, 62461621, 14641, 65536);
    lemma_q_hadamard_entry(x, y, 5, 6597591, 7972456, 10000, 28561);
    lemma_q_hadamard_entry(x, y, 6, 0, 1, 1, 1);
    assert(q_sum_to(s, 0) == q(0, 1));
    lemma_q_eq_value(0, 1, 0, 1);
    lemma_q_sum_step(s, 0, 0, 1, 0, 1891, 0, 1);
    lemma_q_sum_step(s, 1, 0, 1, -1181952, 4019819724, -1216, 4135617);
    lemma_q_sum_step(s, 2, -1216, 4135617, 96656112, 86450937768, 2968202, 3602122407);
    lemma_q_sum_step(s, 3, 2968202, 3602122407, 1029415716, 53062380917, 35264883718, 1743704331327);
    lemma_q_sum_step(s, 4, 35264883718, 1743704331327, -524733440000, 4093484793856, -13176961939, 122050328904);
    lemma_q_sum_step(s, 5, -13176961939, 122050328904, 65975910000, 227701315816, 42100243, 231594552);
    lemma_q_sum_step(s, 6, 42100243, 231594552, 0, 1, 42100243, 231594552);
}

proof fn lemma_rktp64_sum_78()
    ensures
        q_eq(q_dot(seq![q(0, 1), q(0, 1), q(0, 1), q(0, 1), q(0, 1), q(0, 1), q(0, 1)], seq![q(0, 1), q(0, 1), q(8, 6561), q(81, 4802), q(14641, 131072), q(5000, 28561), q(1, 2)]), q(0, 1)),
        q_valid(q_dot(seq![q(0, 1), q(0, 1), q(0, 1), q(0, 1), q(0, 1), q(0, 1), q(0, 1)], seq![q(0, 1), q(0, 1), q(8, 6561), q(81, 4802), q(14641, 131072), q(5000, 28561), q(1, 2)])),
{
    let x = seq![q(0, 1), q(0, 1), q(0, 1), q(0, 1), q(0, 1), q(0, 1), q(0, 1)];
    let y = seq![q(0, 1), q(0, 1), q(8, 6561), q(81, 4802), q(14641, 131072), q(5000, 28561), q(1, 2)];
    let s = q_hadamard(x, y);
    assert(s.len() == 7);
    lemma_q_hadamard_entry(x, y, 0, 0, 1, 0, 1);
    lemma_q_hadamard_entry(x, y, 1, 0, 1, 0, 1);
    lemma_q_hadamard_entry(x, y, 2, 0, 1, 8, 6561);
    lemma_q_hadamard_entry(x, y, 3, 0, 1, 81, 4802);
    lemma_q_hadamard_entry(x, y, 4, 0, 1, 14641, 131072);
    lemma_q_hadamard_entry(x, y, 5, 0, 1, 5000, 28561);
    lemma_q_hadamard_entry(x, y, 6, 0, 1, 1, 2);
    assert(q_sum_to(s, 0) == q(0, 1));
    lemma_q_eq_value(0, 1, 0, 1);
    lemma_q_sum_step(s, 0, 0, 1, 0, 1, 0, 1);
    lemma_q_sum_step(s, 1, 0, 1, 0, 1, 0, 1);
    lemma_q_sum_step(s, 2, 0, 1, 0, 6561, 0, 1);
    lemma_q_sum_step(s, 3, 0, 1, 0, 4802, 0, 1);
    lemma_q_sum_step(s, 4, 0, 1, 0, 131072, 0, 1);
    lemma_q_sum_step(s, 5, 0, 1, 0, 28561, 0, 1);
    lemma_q_sum_step(s, 6, 0, 1, 0, 2, 0, 1);
}

proof fn lemma_rktp64_sum_79()
    ensures
        q_eq(q_dot(seq![q(4, 27), q(0, 1), q(0, 1), q(0, 1), q(0, 1), q(0, 1), q(0, 1)], seq![q(0, 1), q(0, 1), q(8, 6561), q(81, 4802), q(14641, 131072), q(5000, 28561), q(1, 2)]), q(0, 1)),
        q_valid(q_dot(seq![q(4, 27), q(0, 1), q(0, 1), q(0, 1), q(0, 1), q(0, 1), q(0, 1)], seq![q(0, 1), q(0, 1), q(8, 6561), q(81, 4802), q(14641, 131072), q(5000, 28561), q(1, 2)])),
{
    let x = seq![q(4, 27), q(0, 1), q(0, 1), q(0, 1), q(0, 1), q(0, 1), q(0, 1)];
    let y = seq![q(0, 1), q(0, 1), q(8, 6561), q(81, 4802), q(14641, 131072), q(5000, 28561), q(1, 2)];
    let s = q_hadamard(x, y);
    assert(s.len() == 7);
    lemma_q_hadamard_entry(x, y, 0, 4, 27, 0, 1);
    lemma_q_hadamard_entry(x, y, 1, 0, 1, 0, 1);
    lemma_q_hadamard_entry(x, y, 2, 0, 1, 8, 6561);
    lemma_q_hadamard_entry(x, y, 3, 0, 1, 81, 4802);
    lemma_q_hadamard_entry(x, y, 4, 0, 1, 14641, 131072);
    lemma_q_hadamard_entry(x, y, 5, 0, 1, 5000, 28561);
    lemma_q_hadamard_entry(x, y, 6, 0, 1, 1, 2);
    assert(q_sum_to(s, 0) == q(0, 1));
    lemma_q_eq_value(0, 1, 0, 1);
    lemma_q_sum_step(s, 0, 0, 1, 0, 27, 0, 1);
    lemma_q_sum_step(s, 1, 0, 1, 0, 1, 0, 1);
    lemma_q_sum_step(s, 2, 0, 1, 0, 6561, 0, 1);
    lemma_q_sum_step(s, 3, 0, 1, 0, 4802, 0, 1);
    lemma_q_sum_step(s, 4, 0, 1, 0, 131072, 0, 1);
    lemma_q_sum_step(s, 5, 0, 1, 0, 28561, 0, 1);
    lemma_q_sum_step(s, 6, 0, 1, 0, 2, 0, 1);
}

proof fn lemma_rktp64_sum_80()
    ensures
        q_eq(q_dot(seq![q(1, 18), q(1, 6), q(0, 1), q(0, 1), q(0, 1), q(0, 1), q(0, 1)], seq![q(0, 1), q(0, 1), q(8, 6561), q(81, 4802), q(14641, 131072), q(5000, 28561), q(1, 2)]), q(0, 1)),
        q_valid(q_dot(seq![q(1, 18), q(1, 6), q(0, 1), q(0, 1), q(0, 1), q(0, 1), q(0, 1)], seq![q(0, 1), q(0, 1), q(8, 6561), q(81, 4802), q(14641, 131072), q(5000, 28561), q(1, 2)])),
{
    let x = seq![q(1, 18), q(1, 6), q(0, 1), q(0, 1), q(0, 1), q(0, 1), q(0, 1)];
    let y = seq![q(0, 1), q(0, 1), q(8, 6561), q(81, 4802), q(14641, 131072), q(5000, 28561), q(1, 2)];
    let s = q_hadamard(x, y);
    assert(s.len() == 7);
    lemma_q_hadamard_entry(x, y, 0, 1, 18, 0, 1);
    lemma_q_hadamard_entry(x, y, 1, 1, 6, 0, 1);
    lemma_q_hadamard_entry(x, y, 2, 0, 1, 8, 6561);
    lemma_q_hadamard_entry(x, y, 3, 0, 1, 81, 4802);
    lemma_q_hadamard_entry(x, y, 4, 0, 1, 14641, 131072);
    lemma_q_hadamard_entry(x, y, 5, 0, 1, 5000, 28561);
    lemma_q_hadamard_entry(x, y, 6, 0, 1, 1, 2);
    assert(q_sum_to(s, 0) == q(0, 1));
    lemma_q_eq_value(0, 1, 0, 1);
    lemma_q_sum_step(s, 0, 0, 1, 0, 18, 0, 1);
    lemma_q_sum_step(s, 1, 0, 1, 0, 6, 0, 1);
    lemma_q_sum_step(s, 2, 0, 1, 0, 6561, 0, 1);
    lemma_q_sum_step(s, 3, 0, 1, 0, 4802, 0, 1);
    lemma_q_sum_step(s, 4, 0, 1, 0, 131072, 0, 1);
    lemma_q_sum_step(s, 5, 0, 1, 0, 28561, 0, 1);
    lemma_q_sum_step(s, 6, 0, 1, 0, 2, 0, 1);
}

proof fn lemma_rktp64_sum_81()
    ensures
        q_eq(q_dot(seq![q(66, 343), q(-729, 1372), q(1053, 1372), q(0, 1), q(0, 1), q(0, 1), q(0, 1)], seq![q(0, 1), q(0, 1), q(8, 6561), q(81, 4802), q(14641, 131072), q(5000, 28561), q(1, 2)]), q(26, 27783)),
        q_valid(q_dot(seq![q(66, 343), q(-729, 1372), q(1053, 1372), q(0, 1), q(0, 1), q(0, 1), q(0, 1)], seq![q(0, 1), q(0, 1), q(8, 6561), q(81, 4802), q(14641, 131072), q(5000, 28561), q(1, 2)])),
{
    let x = seq![q(66, 343), q(-729, 1372), q(1053, 1372), q(0, 1), q(0, 1), q(0, 1), q(0, 1)];
    let y = seq![q(0, 1), q(0, 1), q(8, 6561), q(81, 4802), q(14641, 131072), q(5000, 28561), q(1, 2)];
    let s = q_hadamard(x, y);
    assert(s.len() == 7);
    lemma_q_hadamard_entry(x, y, 0, 66, 343, 0, 1);
    lemma_q_hadamard_entry(x, y, 1, -729, 1372, 0, 1);
    lemma_q_hadamard_entry(x, y, 2, 1053, 1372, 8, 6561);
    lemma_q_hadamard_entry(x, y, 3, 0, 1, 81, 4802);
    lemma_q_hadamard_entry(x, y, 4, 0, 1, 14641, 131072);
    lemma_q_hadamard_entry(x, y, 5, 0, 1, 5000, 28561);
    lemma_q_hadamard_entry(x, y, 6, 0, 1, 1, 2);
    assert(q_sum_to(s, 0) == q(0, 1));
    lemma_q_eq_value(0, 1, 0, 1);
    lemma_q_sum_step(s, 0, 0, 1, 0, 343, 0, 1);
    lemma_q_sum_step(s, 1, 0, 1, 0, 1372, 0, 1);
    lemma_q_sum_step(s, 2, 0, 1, 8424, 9001692, 26, 27783);
    lemma_q_sum_step(s, 3, 26, 27783, 0, 4802, 26, 27783);
    lemma_q_sum_step(s, 4, 26, 27783, 0, 131072, 26, 27783);
    lemma_q_sum_step(s, 5, 26, 27783, 0, 28561, 26, 27783);
    lemma_q_sum_step(s, 6, 26, 27783, 0, 2, 26, 27783);
}

proof fn lemma_rktp64_sum_82()
    ensures
        q_eq(q_dot(seq![q(13339, 49152), q(-4617, 16384), q(5427, 53248), q(95207, 159744), q(0, 1), q(0, 1), q(0, 1)], seq![q(0, 1), q(0, 1), q(8, 6561), q(81, 4802), q(14641, 131072), q(5000, 28561), q(1, 2)]), q(330913, 32514048)),
        q_valid(q_dot(seq![q(13339, 49152), q(-4617, 16384), q(5427, 53248), q(95207, 159744), q(0, 1), q(0, 1), q(0, 1)], seq![q(0, 1), q(0, 1), q(8, 6561), q(81, 4802), q(14641, 131072), q(5000, 28561), q(1, 2)])),
{
    let x = seq![q(13339, 49152), q(-4617, 16384), q(5427, 53248), q(95207, 159744), q(0, 1), q(0, 1), q(0, 1)];
    let y = seq![q(0, 1), q(0, 1), q(8, 6561), q(81, 4802), q(14641, 131072), q(5000, 28561), q(1, 2)];
    let s = q_hadamard(x, y);
    assert(s.len() == 7);
    lemma_q_hadamard_entry(x, y, 0, 13339, 49152, 0, 1);
    lemma_q_hadamard_entry(x, y, 1, -4617, 16384, 0, 1);
    lemma_q_hadamard_entry(x, y, 2, 5427, 53248, 8, 6561);
    lemma_q_hadamard_entry(x, y, 3, 95207, 159744, 81, 4802);
    lemma_q_hadamard_entry(x, y, 4, 0, 1, 14641, 131072);
    lemma_q_hadamard_entry(x, y, 5, 0, 1, 5000, 28561);
    lemma_q_hadamard_entry(x, y, 6, 0, 1, 1, 2);
    assert(q_sum_to(s, 0) == q(0, 1));
    lemma_q_eq_value(0, 1, 0, 1);
    lemma_q_sum_step(s, 0, 0, 1, 0, 49152, 0, 1);
    lemma_q_sum_step(s, 1, 0, 1, 0, 16384, 0, 1);
    lemma_q_sum_step(s, 2, 0, 1, 43416, 349360128, 67, 539136);
    lemma_q_sum_step(s, 3, 67, 539136, 7711767, 767090688, 330913, 32514048);
    lemma_q_sum_step(s, 4, 330913, 32514048, 0, 131072, 330913, 32514048);
    lemma_q_sum_step(s, 5, 330913, 32514048, 0, 28561, 330913, 32514048);
    lemma_q_sum_step(s, 6, 330913, 32514048, 0, 2, 330913, 32514048);
}

proof fn lemma_rktp64_sum_83()
    ensures
        q_eq(q_dot(seq![q(-6935, 57122), q(23085, 48334), q(33363360, 273642941), q(972160, 118442467), q(172687360, 610434253), q(0, 1), q(0, 1)], seq![q(0, 1), q(0, 1), q(8, 6561), q(81, 4802), q(14641, 131072), q(5000, 28561), q(1, 2)]), q(21687845, 680151654)),
        q_valid(q_dot(seq![q(-6935, 57122), q(23085, 48334), q(33363360, 273642941), q(972160, 118442467), q(172687360, 610434253), q(0, 1), q(0, 1)], seq![q(0, 1), q(0, 1), q(8, 6561), q(81, 4802), q(14641, 131072), q(5000, 28561), q(1, 2)])),
{
    let x = seq![q(-6935, 57122), q(23085, 48334), q(33363360, 273642941), q(972160, 118442467), q(172687360, 610434253), q(0, 1), q(0, 1)];
    let y = seq![q(0, 1), q(0, 1), q(8, 6561), q(81, 4802), q(14641, 131072), q(5000, 28561), q(1, 2)];
    let s = q_hadamard(x, y);
    assert(s.len() == 7);
    lemma_q_hadamard_entry(x, y, 0, -6935, 57122, 0, 1);
    lemma_q_hadamard_entry(x, y, 1, 23085, 48334, 0, 1);
    lemma_q_hadamard_entry(x, y, 2, 33363360, 273642941, 8, 6561);
    lemma_q_hadamard_entry(x, y, 3, 972160, 118442467, 81, 4802);
    lemma_q_hadamard_entry(x, y, 4, 172687360, 610434253, 14641, 131072);
    lemma_q_hadamard_entry(x, y, 5, 0, 1, 5000, 28561);
    lemma_q_hadamard_entry(x, y, 6, 0, 1, 1, 2);
    assert(q_sum_to(s, 0) == q(0, 1));
    lemma_q_eq_value(0, 1, 0, 1);
    lemma_q_sum_step(s, 0, 0, 1, 0, 57122, 0, 1);
    lemma_q_sum_step(s, 1, 0, 1, 0, 48334, 0, 1);
    lemma_q_sum_step(s, 2, 0, 1, 266906880, 1795371335901, 9885440, 66495234663);
    lemma_q_sum_step(s, 3, 9885440, 66495234663, 78744960, 568760726534, 189715520, 660767331861);
    lemma_q_sum_step(s, 4, 189715520, 660767331861, 2528315637760, 80010838409216, 21687845, 680151654);
    lemma_q_sum_step(s, 5, 21687845, 680151654, 0, 28561, 21687845, 680151654);
    lemma_q_sum_step(s, 6, 21687845, 680151654, 0, 2, 21687845, 680151654);
}

proof fn lemma_rktp64_sum_84()
    ensures
        q_eq(q_dot(seq![q(611, 1891), q(-4617, 7564), q(6041007, 13176488), q(12708836, 22100117), q(-35840000, 62461621), q(6597591, 7972456), q(0, 1)], seq![q(0, 1), q(0, 1), q(8, 6561), q(81, 4802), q(14641, 131072), q(5000, 28561), q(1, 2)]), q(151141, 1660176)),
        q_valid(q_dot(seq![q(611, 1891), q(-4617, 7564), q(6041007, 13176488), q(12708836, 22100117), q(-35840000, 62461621), q(6597591, 7972456), q(0, 1)], seq![q(0, 1), q(0, 1), q(8, 6561), q(81, 4802), q(14641, 131072), q(5000, 28561), q(1, 2)])),
{
    let x = seq![q(611, 1891), q(-4617, 7564), q(6041007, 13176488), q(12708836, 22100117), q(-35840000, 62461621), q(6597591, 7972456), q(0, 1)];
    let y = seq![q(0, 1), q(0, 1), q(8, 6561), q(81, 4802), q(14641, 131072), q(5000, 28561), q(1, 2)];
    let s = q_hadamard(x, y);
    assert(s.len() == 7);
    lemma_q_hadamard_entry(x, y, 0, 611, 1891, 0, 1);
    lemma_q_hadamard_entry(x, y, 1, -4617, 7564, 0, 1);
    lemma_q_hadamard_entry(x, y, 2, 6041007, 13176488, 8, 6561);
    lemma_q_hadamard_entry(x, y, 3, 12708836, 22100117, 81, 4802);
    lemma_q_hadamard_entry(x, y, 4, -35840000, 62461621, 14641, 131072);
    lemma_q_hadamard_entry(x, y, 5, 6597591, 7972456, 5000, 28561);
    lemma_q_hadamard_entry(x, y, 6, 0, 1, 1, 2);
    assert(q_sum_to(s, 0) == q(0, 1));
    lemma_q_eq_value(0, 1, 0, 1);
    lemma_q_sum_step(s, 0, 0, 1, 0, 1891, 0, 1);
    lemma_q_sum_step(s, 1, 0, 1, 0, 7564, 0, 1);
    lemma_q_sum_step(s, 2, 0, 1, 48328056, 86450937768, 223741, 400235823);
    lemma_q_sum_step(s, 3, 223741, 400235823, 1029415716, 106124761834, 1987643723, 193744925703);
    lemma_q_sum_step(s, 4, 1987643723, 193744925703, -524733440000, 8186969587712, -1460119483, 27122295312);
    lemma_q_sum_step(s, 5, -1460119483, 27122295312, 32987955000, 227701315816, 151141, 1660176);
    lemma_q_sum_step(s, 6, 151141, 1660176, 0, 2, 151141, 1660176);
}

proof fn lemma_rktp64_sum_85()
    ensures
        q_eq(q_dot(seq![q(0, 1), q(0, 1), q(0, 1), q(0, 1), q(0, 1), q(0, 1), q(0, 1)], seq![q(0, 1), q(0, 1), q(16, 19683), q(27, 2401), q(14641, 196608), q(10000, 85683), q(1, 3)]), q(0, 1)),
        q_valid(q_dot(seq![q(0, 1), q(0, 1), q(0, 1), q(0, 1), q(0, 1), q(0, 1), q(0, 1)], seq![q(0, 1), q(0, 1), q(16, 19683), q(27, 2401), q(14641, 196608), q(10000, 85683), q(1, 3)])),
{
    let x = seq![q(0, 1), q(0, 1), q(0, 1), q(0, 1), q(0, 1), q(0, 1), q(0, 1)];
    let y = seq![q(0, 1), q(0, 1), q(16, 19683), q(27, 2401), q(14641, 196608), q(10000, 85683), q(1, 3)];
    let s = q_hadamard(x, y);
    assert(s.len() == 7);
    lemma_q_hadamard_entry(x, y, 0, 0, 1, 0, 1);
    lemma_q_hadamard_entry(x, y, 1, 0, 1, 0, 1);
    lemma_q_hadamard_entry(x, y, 2, 0, 1, 16, 19683);
    lemma_q_hadamard_entry(x, y, 3, 0, 1, 27, 2401);
    lemma_q_hadamard_entry(x, y, 4, 0, 1, 14641, 196608);
    lemma_q_hadamard_entry(x, y, 5, 0, 1, 10000, 85683);
    lemma_q_hadamard_entry(x, y, 6, 0, 1, 1, 3);
    assert(q_sum_to(s, 0) == q(0, 1));
    lemma_q_eq_value(0, 1, 0, 1);
    lemma_q_sum_step(s, 0, 0, 1, 0, 1, 0, 1);
    lemma_q_sum_step(s, 1, 0, 1, 0, 1, 0, 1);
    lemma_q_sum_step(s, 2, 0, 1, 0, 19683, 0, 1);
    lemma_q_sum_step(s, 3, 0, 1, 0, 2401, 0, 1);
    lemma_q_sum_step(s, 4, 0, 1, 0, 196608, 0, 1);
    lemma_q_sum_step(s, 5, 0, 1, 0, 85683, 0, 1);
    lemma_q_sum_step(s, 6, 0, 1, 0, 3, 0, 1);
}

proof fn lemma_rktp64_sum_86()
    ensures
        q_eq(q_dot(seq![q(4, 27), q(0, 1), q(0, 1), q(0, 1), q(0, 1), q(0, 1), q(0, 1)], seq![q(0, 1), q(0, 1), q(16, 19683), q(27, 2401), q(14641, 196608), q(10000, 85683), q(1, 3)]), q(0, 1)),
        q_valid(q_dot(seq![q(4, 27), q(0, 1), q(0, 1), q(0, 1), q(0, 1), q(0, 1), q(0, 1)], seq![q(0, 1), q(0, 1), q(16, 19683), q(27, 2401), q(14641, 196608), q(10000, 85683), q(1, 3)])),
{
    let x = seq![q(4, 27), q(0, 1), q(0, 1), q(0, 1), q(0, 1), q(0, 1), q(0, 1)];
    let y = seq![q(0, 1), q(0, 1), q(16, 19683), q(27, 2401), q(14641, 196608), q(10000, 85683), q(1, 3)];
    let s = q_hadamard(x, y);
    assert(s.len() == 7);
    lemma_q_hadamard_entry(x, y, 0, 4, 27, 0, 1);
    lemma_q_hadamard_entry(x, y, 1, 0, 1, 0, 1);
    lemma_q_hadamard_entry(x, y, 2, 0, 1, 16, 19683);
    lemma_q_hadamard_entry(x, y, 3, 0, 1, 27, 2401);
    lemma_q_hadamard_entry(x, y, 4, 0, 1, 14641, 196608);
    lemma_q_hadamard_entry(x, y, 5, 0, 1, 10000, 85683);
    lemma_q_hadamard_entry(x, y, 6, 0, 1, 1, 3);
    assert(q_sum_to(s, 0) == q(0, 1));
    lemma_q_eq_value(0, 1, 0, 1);
    lemma_q_sum_step(s, 0, 0, 1, 0, 27, 0, 1);
    lemma_q_sum_step(s, 1, 0, 1, 0, 1, 0, 1);
    lemma_q_sum_step(s, 2, 0, 1, 0, 19683, 0, 1);
    lemma_q_sum_step(s, 3, 0, 1, 0, 2401, 0, 1);
    lemma_q_sum_step(s, 4, 0, 1, 0, 196608, 0, 1);
    lemma_q_sum_step(s, 5, 0, 1, 0, 85683, 0, 1);
    lemma_q_sum_step(s, 6, 0, 1, 0, 3, 0, 1);
}

proof fn lemma_rktp64_sum_87()
    ensures
        q_eq(q_dot(seq![q(1, 18), q(1, 6), q(0, 1), q(0, 1), q(0, 1), q(0, 1), q(0, 1)], seq![q(0, 1), q(0, 1), q(16, 19683), q(27, 2401), q(14641, 196608), q(10000, 85683), q(1, 3)]), q(0, 1)),
        q_valid(q_dot(seq![q(1, 18), q(1, 6), q(0, 1), q(0, 1), q(0, 1), q(0, 1), q(0, 1)], seq![q(0, 1), q(0, 1), q(16, 19683), q(27, 2401), q(14641, 196608), q(10000, 85683), q(1, 3)])),
{
    let x = seq![q(1, 18), q(1, 6), q(0, 1), q(0, 1), q(0, 1), q(0, 1), q(0, 1)];
    let y = seq![q(0, 1), q(0, 1), q(16, 19683), q(27, 2401), q(14641, 196608), q(10000, 85683), q(1, 3)];
    let s = q_hadamard(x, y);
    assert(s.len() == 7);
    lemma_q_hadamard_entry(x, y, 0, 1, 18, 0, 1);
    lemma_q_hadamard_entry(x, y, 1, 1, 6, 0, 1);
    lemma_q_hadamard_entry(x, y, 2, 0, 1, 16, 19683);
    lemma_q_hadamard_entry(x, y, 3, 0, 1, 27, 2401);
    lemma_q_hadamard_entry(x, y, 4, 0, 1, 14641, 196608);
    lemma_q_hadamard_entry(x, y, 5, 0, 1, 10000, 85683);
    lemma_q_hadamard_entry(x, y, 6, 0, 1, 1, 3);
    assert(q_sum_to(s, 0) == q(0, 1));
    lemma_q_eq_value(0, 1, 0, 1);
    lemma_q_sum_step(s, 0, 0, 1, 0, 18, 0, 1);
    lemma_q_sum_step(s, 1, 0, 1, 0, 6, 0, 1);
    lemma_q_sum_step(s, 2, 0, 1, 0, 19683, 0, 1);
    lemma_q_sum_step(s, 3, 0, 1, 0, 2401, 0, 1);
    lemma_q_sum_step(s, 4, 0, 1, 0, 196608, 0, 1);
    lemma_q_sum_step(s, 5, 0, 1, 0, 85683, 0, 1);
    lemma_q_sum_step(s, 6, 0, 1, 0, 3, 0, 1);
}

proof fn lemma_rktp64_sum_88()
    ensures
        q_eq(q_dot(seq![q(66, 343), q(-729, 1372), q(1053, 1372), q(0, 1), q(0, 1), q(0, 1), q(0, 1)], seq![q(0, 1), q(0, 1), q(16, 19683), q(27, 2401), q(14641, 196608), q(10000, 85683), q(1, 3)]), q(52, 83349)),
        q_valid(q_dot(seq![q(66, 343), q(-729, 1372), q(1053, 1372), q(0, 1), q(0, 1), q(0, 1), q(0, 1)], seq![q(0, 1), q(0, 1), q(16, 19683), q(27, 2401), q(14641, 196608), q(10000, 85683), q(1, 3)])),
{
    let x = seq![q(66, 343), q(-729, 1372), q(1053, 1372), q(0, 1), q(0, 1), q(0, 1), q(0, 1)];
    let y = seq![q(0, 1), q(0, 1), q(16, 19683), q(27, 2401), q(14641, 196608), q(10000, 85683), q(1, 3)];
    let s = q_hadamard(x, y);
    assert(s.len() == 7);
    lemma_q_hadamard_entry(x, y, 0, 66, 343, 0, 1);
    lemma_q_hadamard_entry(x, y, 1, -729, 1372, 0, 1);
    lemma_q_hadamard_entry(x, y, 2, 1053, 1372, 16, 19683);
    lemma_q_hadamard_entry(x, y, 3, 0, 1, 27, 2401);
    lemma_q_hadamard_entry(x, y, 4, 0, 1, 14641, 196608);
    lemma_q_hadamard_entry(x, y, 5, 0, 1, 10000, 85683);
    lemma_q_hadamard_entry(x, y, 6, 0, 1, 1, 3);
    assert(q_sum_to(s, 0) == q(0, 1));
    lemma_q_eq_value(0, 1, 0, 1);
    lemma_q_sum_step(s, 0, 0, 1, 0, 343, 0, 1);
    lemma_q_sum_step(s, 1, 0, 1, 0, 1372, 0, 1);
    lemma_q_sum_step(s, 2, 0, 1, 16848, 27005076, 52, 83349);
    lemma_q_sum_step(s, 3, 52, 83349, 0, 2401, 52, 83349);
    lemma_q_sum_step(s, 4, 52, 83349, 0, 196608, 52, 83349);
    lemma_q_sum_step(s, 5, 52, 83349, 0, 85683, 52, 83349);
    lemma_q_sum_step(s, 6, 52, 83349, 0, 3, 52, 83349);
}

proof fn lemma_rktp64_sum_89()
    ensures
        q_eq(q_dot(seq![q(13339, 49152), q(-4617, 16384), q(5427, 53248), q(95207, 159744), q(0, 1), q(0, 1), q(0, 1)], seq![q(0, 1), q(0, 1), q(16, 19683), q(27, 2401), q(14641, 196608), q(10000, 85683), q(1, 3)]), q(330913, 48771072)),
        q_valid(q_dot(seq![q(13339, 49152), q(-4617, 16384), q(5427, 53248), q(95207, 159744), q(0, 1), q(0, 1), q(0, 1)], seq![q(0, 1), q(0, 1), q(16, 19683), q(27, 2401), q(14641, 196608), q(10000, 85683), q(1, 3)])),
{
    let x = seq![q(13339, 49152), q(-4617, 16384), q(5427, 53248), q(95207, 159744), q(0, 1), q(0, 1), q(0, 1)];
    let y = seq![q(0, 1), q(0, 1), q(16, 19683), q(27, 2401), q(14641, 196608), q(10000, 85683), q(1, 3)];
    let s = q_hadamard(x, y);
    assert(s.len() == 7);
    lemma_q_hadamard_entry(x, y, 0, 13339, 49152, 0, 1);
    lemma_q_hadamard_entry(x, y, 1, -4617, 16384, 0, 1);
    lemma_q_hadamard_entry(x, y, 2, 5427, 53248, 16, 19683);
    lemma_q_hadamard_entry(x, y, 3, 95207, 159744, 27, 2401);
    lemma_q_hadamard_entry(x, y, 4, 0, 1, 14641, 196608);
    lemma_q_hadamard_entry(x, y, 5, 0, 1, 10000, 85683);
    lemma_q_hadamard_entry(x, y, 6, 0, 1, 1, 3);
    assert(q_sum_to(s, 0) == q(0, 1));
    lemma_q_eq_value(0, 1, 0, 1);
    lemma_q_sum_step(s, 0, 0, 1, 0, 49152, 0, 1);
    lemma_q_sum_step(s, 1, 0, 1, 0, 16384, 0, 1);
    lemma_q_sum_step(s, 2, 0, 1, 86832, 1048080384, 67, 808704);
    lemma_q_sum_step(s, 3, 67, 808704, 2570589, 383545344, 330913, 48771072);
    lemma_q_sum_step(s, 4, 330913, 48771072, 0, 196608, 330913, 48771072);
    lemma_q_sum_step(s, 5, 330913, 48771072, 0, 85683, 330913, 48771072);
    lemma_q_sum_step(s, 6, 330913, 48771072, 0, 3, 330913, 48771072);
}

proof fn lemma_rktp64_sum_90()
    ensures
        q_eq(q_dot(seq![q(-6935, 57122), q(23085, 48334), q(33363360, 273642941), q(972160, 118442467), q(172687360, 610434253), q(0, 1), q(0, 1)], seq![q(0, 1), q(0, 1), q(16, 19683), q(27, 2401), q(14641, 196608), q(10000, 85683), q(1, 3)]), q(21687845, 1020227481)),
        q_valid(q_dot(seq![q(-6935, 57122), q(23085, 48334), q(33363360, 273642941), q(972160, 118442467), q(172687360, 610434253), q(0, 1), q(0, 1)], seq![q(0, 1), q(0, 1), q(16, 19683), q(27, 2401), q(14641, 196608), q(10000, 85683), q(1, 3)])),
{
    let x = seq![q(-6935, 57122), q(23085, 48334), q(33363360, 273642941), q(972160, 118442467), q(172687360, 610434253), q(0, 1), q(0, 1)];
    let y = seq![q(0, 1), q(0, 1), q(16, 19683), q(27, 2401), q(14641, 196608), q(10000, 85683), q(1, 3)];
    let s = q_hadamard(x, y);
    assert(s.len() == 7);
    lemma_q_hadamard_entry(x, y, 0, -6935, 57122, 0, 1);
    lemma_q_hadamard_entry(x, y, 1, 23085, 48334, 0, 1);
    lemma_q_hadamard_entry(x, y, 2, 33363360, 273642941, 16, 19683);
    lemma_q_hadamard_entry(x, y, 3, 972160, 118442467, 27, 2401);
    lemma_q_hadamard_entry(x, y, 4, 172687360, 610434253, 14641, 196608);
    lemma_q_hadamard_entry(x, y, 5, 0, 1, 10000, 85683);
    lemma_q_hadamard_entry(x, y, 6, 0, 1, 1, 3);
    assert(q_sum_to(s, 0) == q(0, 1));
    lemma_q_eq_value(0, 1, 0, 1);
    lemma_q_sum_step(s, 0, 0, 1, 0, 57122, 0, 1);
    lemma_q_sum_step(s, 1, 0, 1, 0, 48334, 0, 1);
    lemma_q_sum_step(s, 2, 0, 1, 533813760, 5386114007703, 19770880, 199485703989);
    lemma_q_sum_step(s, 3, 19770880, 199485703989, 26248320, 284380363267, 379431040, 1982301995583);
    lemma_q_sum_step(s, 4, 379431040, 1982301995583, 2528315637760, 120016257613824, 21687845, 1020227481);
    lemma_q_sum_step(s, 5, 21687845, 1020227481, 0, 85683, 21687845, 1020227481);
    lemma_q_sum_step(s, 6, 21687845, 1020227481, 0, 3, 21687845, 1020227481);
}

proof fn lemma_rktp64_sum_91()
    ensures
        q_eq(q_dot(seq![q(611, 1891), q(-4617, 7564), q(6041007, 13176488), q(12708836, 22100117), q(-35840000, 62461621), q(6597591, 7972456), q(0, 1)], seq![q(0, 1), q(0, 1), q(16, 19683), q(27, 2401), q(14641, 196608), q(10000, 85683), q(1, 3)]), q(151141, 2490264)),
        q_valid(q_dot(seq![q(611, 1891), q(-4617, 7564), q(6041007, 13176488), q(12708836, 22100117), q(-35840000, 62461621), q(6597591, 7972456), q(0, 1)], seq![q(0, 1), q(0, 1), q(16, 19683), q(27, 2401), q(14641, 196608), q(10000, 85683), q(1, 3)])),
{
    let x = seq![q(611, 1891), q(-4617, 7564), q(6041007, 13176488), q(12708836, 22100117), q(-35840000, 62461621), q(6597591, 7972456), q(0, 1)];
    let y = seq![q(0, 1), q(0, 1), q(16, 19683), q(27, 2401), q(14641, 196608), q(10000, 85683), q(1, 3)];
    let s = q_hadamard(x, y);
    assert(s.len() == 7);
    lemma_q_hadamard_entry(x, y, 0, 611, 1891, 0, 1);
    lemma_q_hadamard_entry(x, y, 1, -4617, 7564, 0, 1);
    lemma_q_hadamard_entry(x, y, 2, 6041007, 13176488, 16, 19683);
    lemma_q_hadamard_entry(x, y, 3, 12708836, 22100117, 27, 2401);
    lemma_q_hadamard_entry(x, y, 4, -35840000, 62461621, 14641, 196608);
    lemma_q_hadamard_entry(x, y, 5, 6597591, 7972456, 10000, 85683);
    lemma_q_hadamard_entry(x, y, 6, 0, 1, 1, 3);
    assert(q_sum_to(s, 0) == q(0, 1));
    lemma_q_eq_value(0, 1, 0, 1);
    lemma_q_sum_step(s, 0, 0, 1, 0, 1891, 0, 1);
    lemma_q_sum_step(s, 1, 0, 1, 0, 7564, 0, 1);
    lemma_q_sum_step(s, 2, 0, 1, 96656112, 259352813304, 447482, 1200707469);
    lemma_q_sum_step(s, 3, 447482, 1200707469, 343138572, 53062380917, 3975287446, 581234777109);
    lemma_q_sum_step(s, 4, 3975287446, 581234777109, -524733440000, 12280454381568, -1460119483, 40683442968);
    lemma_q_sum_step(s, 5, -1460119483, 40683442968, 65975910000, 683103947448, 151141, 2490264);
    lemma_q_sum_step(s, 6, 151141, 2490264, 0, 3, 151141, 2490264);
}

proof fn lemma_rktp64_sum_92()
    ensures
        q_eq(q_dot(seq![q(0, 1), q(0, 1), q(0, 1), q(0, 1), q(0, 1), q(0, 1), q(0, 1)], seq![q(0, 1), q(0, 1), q(0, 1), q(39, 4802), q(5159, 131072), q(51200, 942513), q(1967, 11346)]), q(0, 1)),
        q_valid(q_dot(seq![q(0, 1), q(0, 1), q(0, 1), q(0, 1), q(0, 1), q(0, 1), q(0, 1)], seq![q(0, 1), q(0, 1), q(0, 1), q(39, 4802), q(5159, 131072), q(51200, 942513), q(1967, 11346)])),
{
    let x = seq![q(0, 1), q(0, 1), q(0, 1), q(0, 1), q(0, 1), q(0, 1), q(0, 1)];
    let y = seq![q(0, 1), q(0, 1), q(0, 1), q(39, 4802), q(5159, 131072), q(51200, 942513), q(1967, 11346)];
    let s = q_hadamard(x, y);
    assert(s.len() == 7);
    lemma_q_hadamard_entry(x, y, 0, 0, 1, 0, 1);
    lemma_q_hadamard_entry(x, y, 1, 0, 1, 0, 1);
    lemma_q_hadamard_entry(x, y, 2, 0, 1, 0, 1);
    lemma_q_hadamard_entry(x, y, 3, 0, 1, 39, 4802);
    lemma_q_hadamard_entry(x, y, 4, 0, 1, 5159, 131072);
    lemma_q_hadamard_entry(x, y, 5, 0, 1, 51200, 942513);
    lemma_q_hadamard_entry(x, y, 6, 0, 1, 1967, 11346);
    assert(q_sum_to(s, 0) == q(0, 1));
    lemma_q_eq_value(0, 1, 0, 1);
    lemma_q_sum_step(s, 0, 0, 1, 0, 1, 0, 1);
    lemma_q_sum_step(s, 1, 0, 1, 0, 1, 0, 1);
    lemma_q_sum_step(s, 2, 0, 1, 0, 1, 0, 1);
    lemma_q_sum_step(s, 3, 0, 1, 0, 4802, 0, 1);
    lemma_q_sum_step(s, 4, 0, 1, 0, 131072, 0, 1);
    lemma_q_sum_step(s, 5, 0, 1, 0, 942513, 0, 1);
    lemma_q_sum_step(s, 6, 0, 1, 0, 11346, 0, 1);
}

proof fn lemma_rktp64_sum_93()
    ensures
        q_eq(q_dot(seq![q(4, 27), q(0, 1), q(0, 1), q(0, 1), q(0, 1), q(0, 1), q(0, 1)], seq![q(0, 1), q(0, 1), q(0, 1), q(39, 4802), q(5159, 131072), q(51200, 942513), q(1967, 11346)]), q(0, 1)),
        q_valid(q_dot(seq![q(4, 27), q(0, 1), q(0, 1), q(0, 1), q(0, 1), q(0, 1), q(0, 1)], seq![q(0, 1), q(0, 1), q(0, 1), q(39, 4802), q(5159, 131072), q(51200, 942513), q(1967, 11346)])),
{
    let x = seq![q(4, 27), q(0, 1), q(0, 1), q(0, 1), q(0, 1), q(0, 1), q(0, 1)];
    let y = seq![q(0, 1), q(0, 1), q(0, 1), q(39, 4802), q(5159, 131072), q(51200, 942513), q(1967, 11346)];
    let s = q_hadamard(x, y);
    assert(s.len() == 7);
    lemma_q_hadamard_entry(x, y, 0, 4, 27, 0, 1);
    lemma_q_hadamard_entry(x, y, 1, 0, 1, 0, 1);
    lemma_q_hadamard_entry(x, y, 2, 0, 1, 0, 1);
    lemma_q_hadamard_entry(x, y, 3, 0, 1, 39, 4802);
    lemma_q_hadamard_entry(x, y, 4, 0, 1, 5159, 131072);
    lemma_q_hadamard_entry(x, y, 5, 0, 1, 51200, 942513);
    lemma_q_hadamard_entry(x, y, 6, 0, 1, 1967, 11346);
    assert(q_sum_to(s, 0) == q(0, 1));
    lemma_q_eq_value(0, 1, 0, 1);
    lemma_q_sum_step(s, 0, 0, 1, 0, 27, 0, 1);
    lemma_q_sum_step(s, 1, 0, 1, 0, 1, 0, 1);
    lemma_q_sum_step(s, 2, 0, 1, 0, 1, 0, 1);
    lemma_q_sum_step(s, 3, 0, 1, 0, 4802, 0, 1);
    lemma_q_sum_step(s, 4, 0, 1, 0, 131072, 0, 1);
    lemma_q_sum_step(s, 5, 0, 1, 0, 942513, 0, 1);
    lemma_q_sum_step(s, 6, 0, 1, 0, 11346, 0, 1);
}

proof fn lemma_rktp64_sum_94()
    ensures
        q_eq(q_dot(seq![q(1, 18), q(1, 6), q(0, 1), q(0, 1), q(0, 1), q(0, 1), q(0, 1)], seq![q(0, 1), q(0, 1), q(0, 1), q(39, 4802), q(5159, 131072), q(51200, 942513), q(1967, 11346)]), q(0, 1)),
        q_valid(q_dot(seq![q(1, 18), q(1, 6), q(0, 1), q(0, 1), q(0, 1), q(0, 1), q(0, 1)], seq![q(0, 1), q(0, 1), q(0, 1), q(39, 4802), q(5159, 131072), q(51200, 942513), q(1967, 11346)])),
{
    let x = seq![q(1, 18), q(1, 6), q(0, 1), q(0, 1), q(0, 1), q(0, 1), q(0, 1)];
    let y = seq![q(0, 1), q(0, 1), q(0, 1), q(39, 4802), q(5159, 131072), q(51200, 942513), q(1967, 11346)];
    let s = q_hadamard(x, y);
    assert(s.len() == 7);
    lemma_q_hadamard_entry(x, y, 0, 1, 18, 0, 1);
    lemma_q_hadamard_entry(x, y, 1, 1, 6, 0, 1);
    lemma_q_hadamard_entry(x, y, 2, 0, 1, 0, 1);
    lemma_q_hadamard_entry(x, y, 3, 0, 1, 39, 4802);
    lemma_q_hadamard_entry(x, y, 4, 0, 1, 5159, 131072);
    lemma_q_hadamard_entry(x, y, 5, 0, 1, 51200, 942513);
    lemma_q_hadamard_entry(x, y, 6, 0, 1, 1967, 11346);
    assert(q_sum_to(s, 0) == q(0, 1));
    lemma_q_eq_value(0, 1, 0, 1);
    lemma_q_sum_step(s, 0, 0, 1, 0, 18, 0, 1);
    lemma_q_sum_step(s, 1, 0, 1, 0, 6, 0, 1);
    lemma_q_sum_step(s, 2, 0, 1, 0, 1, 0, 1);
    lemma_q_sum_step(s, 3, 0, 1, 0, 4802, 0, 1);
    lemma_q_sum_step(s, 4, 0, 1, 0, 131072, 0, 1);
    lemma_q_sum_step(s, 5, 0, 1, 0, 942513, 0, 1);
    lemma_q_sum_step(s, 6, 0, 1, 0, 11346, 0, 1);
}

proof fn lemma_rktp64_sum_95()
    ensures
        q_eq(q_dot(seq![q(66, 343), q(-729, 1372), q(1053, 1372), q(0, 1), q(0, 1), q(0, 1), q(0, 1)], seq![q(0, 1), q(0, 1), q(0, 1), q(39, 4802), q(5159, 131072), q(51200, 942513), q(1967, 11346)]), q(0, 1)),
        q_valid(q_dot(seq![q(66, 343), q(-729, 1372), q(1053, 1372), q(0, 1), q(0, 1), q(0, 1), q(0, 1)], seq![q(0, 1), q(0, 1), q(0, 1), q(39, 4802), q(5159, 131072), q(51200, 942513), q(1967, 11346)])),
{
    let x = seq![q(66, 343), q(-729, 1372), q(1053, 1372), q(0, 1), q(0, 1), q(0, 1), q(0, 1)];
    let y = seq![q(0, 1), q(0, 1), q(0, 1), q(39, 4802), q(5159, 131072), q(51200, 942513), q(1967, 11346)];
    let s = q_hadamard(x, y);
    assert(s.len() == 7);
    lemma_q_hadamard_entry(x, y, 0, 66, 343, 0, 1);
    lemma_q_hadamard_entry(x, y, 1, -729, 1372, 0, 1);
    lemma_q_hadamard_entry(x, y, 2, 1053, 1372, 0, 1);
    lemma_q_hadamard_entry(x, y, 3, 0, 1, 39, 4802);
    lemma_q_hadamard_entry(x, y, 4, 0, 1, 5159, 131072);
    lemma_q_hadamard_entry(x, y, 5, 0, 1, 51200, 942513);
    lemma_q_hadamard_entry(x, y, 6, 0, 1, 1967, 11346);
    assert(q_sum_to(s, 0) == q(0, 1));
    lemma_q_eq_value(0, 1, 0, 1);
    lemma_q_sum_step(s, 0, 0, 1, 0, 343, 0, 1);
    lemma_q_sum_step(s, 1, 0, 1, 0, 1372, 0, 1);
    lemma_q_sum_step(s, 2, 0, 1, 0, 1372, 0, 1);
    lemma_q_sum_step(s, 3, 0, 1, 0, 4802, 0, 1);
    lemma_q_sum_step(s, 4, 0, 1, 0, 131072, 0, 1);
    lemma_q_sum_step(s, 5, 0, 1, 0, 942513, 0, 1);
    lemma_q_sum_step(s, 6, 0, 1, 0, 11346, 0, 1);
}

proof fn lemma_rktp64_sum_96()
    ensures
        q_eq(q_dot(seq![q(13339, 49152), q(-4617, 16384), q(5427, 53248), q(95207, 159744), q(0, 1), q(0, 1), q(0, 1)], seq![q(0, 1), q(0, 1), q(0, 1), q(39, 4802), q(5159, 131072), q(51200, 942513), q(1967, 11346)]), q(1943, 401408)),
        q_valid(q_dot(seq![q(13339, 49152), q(-4617, 16384), q(5427, 53248), q(95207, 159744), q(0, 1), q(0, 1), q(0, 1)], seq![q(0, 1), q(0, 1), q(0, 1), q(39, 4802), q(5159, 131072), q(51200, 942513), q(1967, 11346)])),
{
    let x = seq![q(13339, 49152), q(-4617, 16384), q(5427, 53248), q(95207, 159744), q(0, 1), q(0, 1), q(0, 1)];
    let y = seq![q(0, 1), q(0, 1), q(0, 1), q(39, 4802), q(5159, 131072), q(51200, 942513), q(1967, 11346)];
    let s = q_hadamard(x, y);
    assert(s.len() == 7);
    lemma_q_hadamard_entry(x, y, 0, 13339, 49152, 0, 1);
    lemma_q_hadamard_entry(x, y, 1, -4617, 16384, 0, 1);
    lemma_q_hadamard_entry(x, y, 2, 5427, 53248, 0, 1);
    lemma_q_hadamard_entry(x, y, 3, 95207, 159744, 39, 4802);
    lemma_q_hadamard_entry(x, y, 4, 0, 1, 5159, 131072);
    lemma_q_hadamard_entry(x, y, 5, 0, 1, 51200, 942513);
    lemma_q_hadamard_entry(x, y, 6, 0, 1, 1967, 11346);
    assert(q_sum_to(s, 0) == q(0, 1));
    lemma_q_eq_value(0, 1, 0, 1);
    lemma_q_sum_step(s, 0, 0, 1, 0, 49152, 0, 1);
    lemma_q_sum_step(s, 1, 0, 1, 0, 16384, 0, 1);
    lemma_q_sum_step(s, 2, 0, 1, 0, 53248, 0, 1);
    lemma_q_sum_step(s, 3, 0, 1, 3713073, 767090688, 1943, 401408);
    lemma_q_sum_step(s, 4, 1943, 401408, 0, 131072, 1943, 401408);
    lemma_q_sum_step(s, 5, 1943, 401408, 0, 942513, 1943, 401408);
    lemma_q_sum_step(s, 6, 1943, 401408, 0, 11346, 1943, 401408);
}

proof fn lemma_rktp64_sum_97()
    ensures
        q_eq(q_dot(seq![q(-6935, 57122), q(23085, 48334), q(33363360, 273642941), q(972160, 118442467), q(172687360, 610434253), q(0, 1), q(0, 1)], seq![q(0, 1), q(0, 1), q(0, 1), q(39, 4802), q(5159, 131072), q(51200, 942513), q(1967, 11346)]), q(344875, 30788758)),
        q_valid(q_dot(seq![q(-6935, 57122), q(23085, 48334), q(33363360, 273642941), q(972160, 118442467), q(172687360, 610434253), q(0, 1), q(0, 1)], seq![q(0, 1), q(0, 1), q(0, 1), q(39, 4802), q(5159, 131072), q(51200, 942513), q(1967, 11346)])),
{
    let x = seq![q(-6935, 57122), q(23085, 48334), q(33363360, 273642941), q(972160, 118442467), q(172687360, 610434253), q(0, 1), q(0, 1)];
    let y = seq![q(0, 1), q(0, 1), q(0, 1), q(39, 4802), q(5159, 131072), q(51200, 942513), q(1967, 11346)];
    let s = q_hadamard(x, y);
    assert(s.len() == 7);
    lemma_q_hadamard_entry(x, y, 0, -6935, 57122, 0, 1);
    lemma_q_hadamard_entry(x, y, 1, 23085, 48334, 0, 1);
    lemma_q_hadamard_entry(x, y, 2, 33363360, 273642941, 0, 1);
    lemma_q_hadamard_entry(x, y, 3, 972160, 118442467, 39, 4802);
    lemma_q_hadamard_entry(x, y, 4, 172687360, 610434253, 5159, 131072);
    lemma_q_hadamard_entry(x, y, 5, 0, 1, 51200, 942513);
    lemma_q_hadamard_entry(x, y, 6, 0, 1, 1967, 11346);
    assert(q_sum_to(s, 0) == q(0, 1));
    lemma_q_eq_value(0, 1, 0, 1);
    lemma_q_sum_step(s, 0, 0, 1, 0, 57122, 0, 1);
    lemma_q_sum_step(s, 1, 0, 1, 0, 48334, 0, 1);
    lemma_q_sum_step(s, 2, 0, 1, 0, 273642941, 0, 1);
    lemma_q_sum_step(s, 3, 0, 1, 37914240, 568760726534, 29760, 446436991);
    lemma_q_sum_step(s, 4, 29760, 446436991, 890894090240, 80010838409216, 344875, 30788758);
    lemma_q_sum_step(s, 5, 344875, 30788758, 0, 942513, 344875, 30788758);
    lemma_q_sum_step(s, 6, 344875, 30788758, 0, 11346, 344875, 30788758);
}

proof fn lemma_rktp64_sum_98()
    ensures
        q_eq(q_dot(seq![q(611, 1891), q(-4617, 7564), q(6041007, 13176488), q(12708836, 22100117), q(-35840000, 62461621), q(6597591, 7972456), q(0, 1)], seq![q(0, 1), q(0, 1), q(0, 1), q(39, 4802), q(5159, 131072), q(51200, 942513), q(1967, 11346)]), q(5727, 211792)),
        q_valid(q_dot(seq![q(611, 1891), q(-4617, 7564), q(6041007, 13176488), q(12708836, 22100117), q(-35840000, 62461621), q(6597591, 7972456), q(0, 1)], seq![q(0, 1), q(0, 1), q(0, 1), q(39, 4802), q(5159, 131072), q(51200, 942513), q(1967, 11346)])),
{
    let x = seq![q(611, 1891), q(-4617, 7564), q(6041007, 13176488), q(12708836, 22100117), q(-35840000, 62461621), q(6597591, 7972456), q(0, 1)];
    let y = seq![q(0, 1), q(0, 1), q(0, 1), q(39, 4802), q(5159, 131072), q(51200, 942513), q(1967, 11346)];
    let s = q_hadamard(x, y);
    assert(s.len() == 7);
    lemma_q_hadamard_entry(x, y, 0, 611, 1891, 0, 1);
    lemma_q_hadamard_entry(x, y, 1, -4617, 7564, 0, 1);
    lemma_q_hadamard_entry(x, y, 2, 6041007, 13176488, 0, 1);
    lemma_q_hadamard_entry(x, y, 3, 12708836, 22100117, 39, 4802);
    lemma_q_hadamard_entry(x, y, 4, -35840000, 62461621, 5159, 131072);
    lemma_q_hadamard_entry(x, y, 5, 6597591, 7972456, 51200, 942513);
    lemma_q_hadamard_entry(x, y, 6, 0, 1, 1967, 11346);
    assert(q_sum_to(s, 0) == q(0, 1));
    lemma_q_eq_value(0, 1, 0, 1);
    lemma_q_sum_step(s, 0, 0, 1, 0, 1891, 0, 1);
    lemma_q_sum_step(s, 1, 0, 1, 0, 7564, 0, 1);
    lemma_q_sum_step(s, 2, 0, 1, 0, 13176488, 0, 1);
    lemma_q_sum_step(s, 3, 0, 1, 495644604, 106124761834, 55578, 11900063);
    lemma_q_sum_step(s, 4, 55578, 11900063, -184898560000, 8186969587712, -1999471, 111614384);
    lemma_q_sum_step(s, 5, -1999471, 111614384, 337796659200, 7514143421928, 5727, 211792);
    lemma_q_sum_step(s, 6, 5727, 211792, 0, 11346, 5727, 211792);
}

proof fn lemma_rktp64_sum_99()
    ensures
        q_eq(q_dot(seq![q(0, 1), q(0, 1), q(0, 1), q(0, 1), q(0, 1), q(0, 1), q(0, 1)], seq![q(0, 1), q(0, 1), q(4, 6561), q(81, 9604), q(14641, 262144), q(2500, 28561), q(1, 4)]), q(0, 1)),
        q_valid(q_dot(seq![q(0, 1), q(0, 1), q(0, 1), q(0, 1), q(0, 1), q(0, 1), q(0, 1)], seq![q(0, 1), q(0, 1), q(4, 6561), q(81, 9604), q(14641, 262144), q(2500, 28561), q(1, 4)])),
{
    let x = seq![q(0, 1), q(0, 1), q(0, 1), q(0, 1), q(0, 1), q(0, 1), q(0, 1)];
    let y = seq![q(0, 1), q(0, 1), q(4, 6561), q(81, 9604), q(14641, 262144), q(2500, 28561), q(1, 4)];
    let s = q_hadamard(x, y);
    assert(s.len() == 7);
    lemma_q_hadamard_entry(x, y, 0, 0, 1, 0, 1);
    lemma_q_hadamard_entry(x, y, 1, 0, 1, 0, 1);
    lemma_q_hadamard_entry(x, y, 2, 0, 1, 4, 6561);
    lemma_q_hadamard_entry(x, y, 3, 0, 1, 81, 9604);
    lemma_q_hadamard_entry(x, y, 4, 0, 1, 14641, 262144);
    lemma_q_hadamard_entry(x, y, 5, 0, 1, 2500, 28561);
    lemma_q_hadamard_entry(x, y, 6, 0, 1, 1, 4);
    assert(q_sum_to(s, 0) == q(0, 1));
    lemma_q_eq_value(0, 1, 0, 1);
    lemma_q_sum_step(s, 0, 0, 1, 0, 1, 0, 1);
    lemma_q_sum_step(s, 1, 0, 1, 0, 1, 0, 1);
    lemma_q_sum_step(s, 2, 0, 1, 0, 6561, 0, 1);
    lemma_q_sum_step(s, 3, 0, 1, 0, 9604, 0, 1);
    lemma_q_sum_step(s, 4, 0, 1, 0, 262144, 0, 1);
    lemma_q_sum_step(s, 5, 0, 1, 0, 28561, 0, 1);
    lemma_q_sum_step(s, 6, 0, 1, 0, 4, 0, 1);
}

proof fn lemma_rktp64_sum_100()
    ensures
        q_eq(q_dot(seq![q(4, 27), q(0, 1), q(0, 1), q(0, 1), q(0, 1), q(0, 1), q(0, 1)], seq![q(0, 1), q(0, 1), q(4, 6561), q(81, 9604), q(14641, 262144), q(2500, 28561), q(1, 4)]), q(0, 1)),
        q_valid(q_dot(seq![q(4, 27), q(0, 1), q(0, 1), q(0, 1), q(0, 1), q(0, 1), q(0, 1)], seq![q(0, 1), q(0, 1), q(4, 6561), q(81, 9604), q(14641, 262144), q(2500, 28561), q(1, 4)])),
{
    let x = seq![q(4, 27), q(0, 1), q(0, 1), q(0, 1), q(0, 1), q(0, 1), q(0, 1)];
    let y = seq![q(0, 1), q(0, 1), q(4, 6561), q(81, 9604), q(14641, 262144), q(2500, 28561), q(1, 4)];
    let s = q_hadamard(x, y);
    assert(s.len() == 7);
    lemma_q_hadamard_entry(x, y, 0, 4, 27, 0, 1);
    lemma_q_hadamard_entry(x, y, 1, 0, 1, 0, 1);
    lemma_q_hadamard_entry(x, y, 2, 0, 1, 4, 6561);
    lemma_q_hadamard_entry(x, y, 3, 0, 1, 81, 9604);
    lemma_q_hadamard_entry(x, y, 4, 0, 1, 14641, 262144);
    lemma_q_hadamard_entry(x, y, 5, 0, 1, 2500, 28561);
    lemma_q_hadamard_entry(x, y, 6, 0, 1, 1, 4);
    assert(q_sum_to(s, 0) == q(0, 1));
    lemma_q_eq_value(0, 1, 0, 1);
    lemma_q_sum_step(s, 0, 0, 1, 0, 27, 0, 1);
    lemma_q_sum_step(s, 1, 0, 1, 0, 1, 0, 1);
    lemma_q_sum_step(s, 2, 0, 1, 0, 6561, 0, 1);
    lemma_q_sum_step(s, 3, 0, 1, 0, 9604, 0, 1);
    lemma_q_sum_step(s, 4, 0, 1, 0, 262144, 0, 1);
    lemma_q_sum_step(s, 5, 0, 1, 0, 28561, 0, 1);
    lemma_q_sum_step(s, 6, 0, 1, 0, 4, 0, 1);
}

proof fn lemma_rktp64_sum_101()
    ensures
        q_eq(q_dot(seq![q(1, 18), q(1, 6), q(0, 1), q(0, 1), q(0, 1), q(0, 1), q(0, 1)], seq![q(0, 1), q(0, 1), q(4, 6561), q(81, 9604), q(14641, 262144), q(2500, 28561), q(1, 4)]), q(0, 1)),
        q_valid(q_dot(seq![q(1, 18), q(1, 6), q(0, 1), q(0, 1), q(0, 1), q(0, 1), q(0, 1)], seq![q(0, 1), q(0, 1), q(4, 6561), q(81, 9604), q(14641, 262144), q(2500, 28561), q(1, 4)])),
{
    let x = seq![q(1, 18), q(1, 6), q(0, 1), q(0, 1), q(0, 1), q(0, 1), q(0, 1)];
    let y = seq![q(0, 1), q(0, 1), q(4, 6561), q(81, 9604), q(14641, 262144), q(2500, 28561), q(1, 4)];
    let s = q_hadamard(x, y);
    assert(s.len() == 7);
    lemma_q_hadamard_entry(x, y, 0, 1, 18, 0, 1);
    lemma_q_hadamard_entry(x, y, 1, 1, 6, 0, 1);
    lemma_q_hadamard_entry(x, y, 2, 0, 1, 4, 6561);
    lemma_q_hadamard_entry(x, y, 3, 0, 1, 81, 9604);
    lemma_q_hadamard_entry(x, y, 4, 0, 1, 14641, 262144);
    lemma_q_hadamard_entry(x, y, 5, 0, 1, 2500, 28561);
    lemma_q_hadamard_entry(x, y, 6, 0, 1, 1, 4);
    assert(q_sum_to(s, 0) == q(0, 1));
    lemma_q_eq_value(0, 1, 0, 1);
    lemma_q_sum_step(s, 0, 0, 1, 0, 18, 0, 1);
    lemma_q_sum_step(s, 1, 0, 1, 0, 6, 0, 1);
    lemma_q_sum_step(s, 2, 0, 1, 0, 6561, 0, 1);
    lemma_q_sum_step(s, 3, 0, 1, 0, 9604, 0, 1);
    lemma_q_sum_step(s, 4, 0, 1, 0, 262144, 0, 1);
    lemma_q_sum_step(s, 5, 0, 1, 0, 28561, 0, 1);
    lemma_q_sum_step(s, 6, 0, 1, 0, 4, 0, 1);
}

proof fn lemma_rktp64_sum_102()
    ensures
        q_eq(q_dot(seq![q(66, 343), q(-729, 1372), q(1053, 1372), q(0, 1), q(0, 1), q(0, 1), q(0, 1)], seq![q(0, 1), q(0, 1), q(4, 6561), q(81, 9604), q(14641, 262144), q(2500, 28561), q(1, 4)]), q(13, 27783)),
        q_valid(q_dot(seq![q(66, 343), q(-729, 1372), q(1053, 1372), q(0, 1), q(0, 1), q(0, 1), q(0, 1)], seq![q(0, 1), q(0, 1), q(4, 6561), q(81, 9604), q(14641, 262144), q(2500, 28561), q(1, 4)])),
{
    let x = seq![q(66, 343), q(-729, 1372), q(1053, 1372), q(0, 1), q(0, 1), q(0, 1), q(0, 1)];
    let y = seq![q(0, 1), q(0, 1), q(4, 6561), q(81, 9604), q(14641, 262144), q(2500, 28561), q(1, 4)];
    let s = q_hadamard(x, y);
    assert(s.len() == 7);
    lemma_q_hadamard_entry(x, y, 0, 66, 343, 0, 1);
    lemma_q_hadamard_entry(x, y, 1, -729, 1372, 0, 1);
    lemma_q_hadamard_entry(x, y, 2, 1053, 1372, 4, 6561);
    lemma_q_hadamard_entry(x, y, 3, 0, 1, 81, 9604);
    lemma_q_hadamard_entry(x, y, 4, 0, 1, 14641, 262144);
    lemma_q_hadamard_entry(x, y, 5, 0, 1, 2500, 28561);
    lemma_q_hadamard_entry(x, y, 6, 0, 1, 1, 4);
    assert(q_sum_to(s, 0) == q(0, 1));
    lemma_q_eq_value(0, 1, 0, 1);
    lemma_q_sum_step(s, 0, 0, 1, 0, 343, 0, 1);
    lemma_q_sum_step(s, 1, 0, 1, 0, 1372, 0, 1);
    lemma_q_sum_step(s, 2, 0, 1, 4212, 9001692, 13, 27783);
    lemma_q_sum_step(s, 3, 13, 27783, 0, 9604, 13, 27783);
    lemma_q_sum_step(s, 4, 13, 27783, 0, 262144, 13, 27783);
    lemma_q_sum_step(s, 5, 13, 27783, 0, 28561, 13, 27783);
    lemma_q_sum_step(s, 6, 13, 27783, 0, 4, 13, 27783);
}

proof fn lemma_rktp64_sum_103()
    ensures
        q_eq(q_dot(seq![q(13339, 49152), q(-4617, 16384), q(5427, 53248), q(95207, 159744), q(0, 1), q(0, 1), q(0, 1)], seq![q(0, 1), q(0, 1), q(4, 6561), q(81, 9604), q(14641, 262144), q(2500, 28561), q(1, 4)]), q(330913, 65028096)),
        q_valid(q_dot(seq![q(13339, 49152), q(-4617, 16384), q(5427, 53248), q(95207, 159744), q(0, 1), q(0, 1), q(0, 1)], seq![q(0, 1), q(0, 1), q(4, 6561), q(81, 9604), q(14641, 262144), q(2500, 28561), q(1, 4)])),
{
    let x = seq![q(13339, 49152), q(-4617, 16384), q(5427, 53248), q(95207, 159744), q(0, 1), q(0, 1), q(0, 1)];
    let y = seq![q(0, 1), q(0, 1), q(4, 6561), q(81, 9604), q(14641, 262144), q(2500, 28561), q(1, 4)];
    let s = q_hadamard(x, y);
    assert(s.len() == 7);
    lemma_q_hadamard_entry(x, y, 0, 13339, 49152, 0, 1);
    lemma_q_hadamard_entry(x, y, 1, -4617, 16384, 0, 1);
    lemma_q_hadamard_entry(x, y, 2, 5427, 53248, 4, 6561);
    lemma_q_hadamard_entry(x, y, 3, 95207, 159744, 81, 9604);
    lemma_q_hadamard_entry(x, y, 4, 0, 1, 14641, 262144);
    lemma_q_hadamard_entry(x, y, 5, 0, 1, 2500, 28561);
    lemma_q_hadamard_entry(x, y, 6, 0, 1, 1, 4);
    assert(q_sum_to(s, 0) == q(0, 1));
    lemma_q_eq_value(0, 1, 0, 1);
    lemma_q_sum_step(s, 0, 0, 1, 0, 49152, 0, 1);
    lemma_q_sum_step(s, 1, 0, 1, 0, 16384, 0, 1);
    lemma_q_sum_step(s, 2, 0, 1, 21708, 349360128, 67, 1078272);
    lemma_q_sum_step(s, 3, 67, 1078272, 7711767, 1534181376, 330913, 65028096);
    lemma_q_sum_step(s, 4, 330913, 65028096, 0, 262144, 330913, 65028096);
    lemma_q_sum_step(s, 5, 330913, 65028096, 0, 28561, 330913, 65028096);
    lemma_q_sum_step(s, 6, 330913, 65028096, 0, 4, 330913, 65028096);
}

proof fn lemma_rktp64_sum_104()
    ensures
        q_eq(q_dot(seq![q(-6935, 57122), q(23085, 48334), q(33363360, 273642941), q(972160, 118442467), q(172687360, 610434253), q(0, 1), q(0, 1)], seq![q(0, 1), q(0, 1), q(4, 6561), q(81, 9604), q(14641, 262144), q(2500, 28561), q(1, 4)]), q(21687845, 1360303308)),
        q_valid(q_dot(seq![q(-6935, 57122), q(23085, 48334), q(33363360, 273642941), q(972160, 118442467), q(172687360, 610434253), q(0, 1), q(0, 1)], seq![q(0, 1), q(0, 1), q(4, 6561), q(81, 9604), q(14641, 262144), q(2500, 28561), q(1, 4)])),
{
    let x = seq![q(-6935, 57122), q(23085, 48334), q(33363360, 273642941), q(972160, 118442467), q(172687360, 610434253), q(0, 1), q(0, 1)];
    let y = seq![q(0, 1), q(0, 1), q(4, 6561), q(81, 9604), q(14641, 262144), q(2500, 28561), q(1, 4)];
    let s = q_hadamard(x, y);
    assert(s.len() == 7);
    lemma_q_hadamard_entry(x, y, 0, -6935, 57122, 0, 1);
    lemma_q_hadamard_entry(x, y, 1, 23085, 48334, 0, 1);
    lemma_q_hadamard_entry(x, y, 2, 33363360, 273642941, 4, 6561);
    lemma_q_hadamard_entry(x, y, 3, 972160, 118442467, 81, 9604);
    lemma_q_hadamard_entry(x, y, 4, 172687360, 610434253, 14641, 262144);
    lemma_q_hadamard_entry(x, y, 5, 0, 1, 2500, 28561);
    lemma_q_hadamard_entry(x, y, 6, 0, 1, 1, 4);
    assert(q_sum_to(s, 0) == q(0, 1));
    lemma_q_eq_value(0, 1, 0, 1);
    lemma_q_sum_step(s, 0, 0, 1, 0, 57122, 0, 1);
    lemma_q_sum_step(s, 1, 0, 1, 0, 48334, 0, 1);
    lemma_q_sum_step(s, 2, 0, 1, 133453440, 1795371335901, 4942720, 66495234663);
    lemma_q_sum_step(s, 3, 4942720, 66495234663, 78744960, 1137521453068, 94857760, 660767331861);
    lemma_q_sum_step(s, 4, 94857760, 660767331861, 2528315637760, 160021676818432, 21687845, 1360303308);
    lemma_q_sum_step(s, 5, 21687845, 1360303308, 0, 28561, 21687845, 1360303308);
    lemma_q_sum_step(s, 6, 21687845, 1360303308, 0, 4, 21687845, 1360303308);
}

proof fn lemma_rktp64_sum_105()
    ensures
        q_eq(q_dot(seq![q(611, 1891), q(-4617, 7564), q(6041007, 13176488), q(12708836, 22100117), q(-35840000, 62461621), q(6597591, 7972456), q(0, 1)], seq![q(0, 1), q(0, 1), q(4, 6561), q(81, 9604), q(14641, 262144), q(2500, 28561), q(1, 4)]), q(151141, 3320352)),
        q_valid(q_dot(seq![q(611, 1891), q(-4617, 7564), q(6041007, 13176488), q(12708836, 22100117), q(-35840000, 62461621), q(6597591, 7972456), q(0, 1)], seq![q(0, 1), q(0, 1), q(4, 6561), q(81, 9604), q(14641, 262144), q(2500, 28561), q(1, 4)])),
{
    let x = seq![q(611, 1891), q(-4617, 7564), q(6041007, 13176488), q(12708836, 22100117), q(-35840000, 62461621), q(6597591, 7972456), q(0, 1)];
    let y = seq![q(0, 1), q(0, 1), q(4, 6561), q(81, 9604), q(14641, 262144), q(2500, 28561), q(1, 4)];
    let s = q_hadamard(x, y);
    assert(s.len() == 7);
    lemma_q_hadamard_entry(x, y, 0, 611, 1891, 0, 1);
    lemma_q_hadamard_entry(x, y, 1, -4617, 7564, 0, 1);
    lemma_q_hadamard_entry(x, y, 2, 6041007, 13176488, 4, 6561);
    lemma_q_hadamard_entry(x, y, 3, 12708836, 22100117, 81, 9604);
    lemma_q_hadamard_entry(x, y, 4, -35840000, 62461621, 14641, 262144);
    lemma_q_hadamard_entry(x, y, 5, 6597591, 7972456, 2500, 28561);
    lemma_q_hadamard_entry(x, y, 6, 0, 1, 1, 4);
    assert(q_sum_to(s, 0) == q(0, 1));
    lemma_q_eq_value(0, 1, 0, 1);
    lemma_q_sum_step(s, 0, 0, 1, 0, 1891, 0, 1);
    lemma_q_sum_step(s, 1, 0, 1, 0, 7564, 0, 1);
    lemma_q_sum_step(s, 2, 0, 1, 24164028, 86450937768, 223741, 800471646);
    lemma_q_sum_step(s, 3, 223741, 800471646, 1029415716, 212249523668, 1987643723, 387489851406);
    lemma_q_sum_step(s, 4, 1987643723, 387489851406, -524733440000, 16373939175424, -1460119483, 54244590624);
    lemma_q_sum_step(s, 5, -1460119483, 54244590624, 16493977500, 227701315816, 151141, 3320352);
    lemma_q_sum_step(s, 6, 151141, 3320352, 0, 4, 151141, 3320352);
}

proof fn lemma_rktp64_sum_106()
    ensures
        q_eq(q_dot(seq![q(0, 1), q(0, 1), q(0, 1), q(0, 1), q(0, 1), q(0, 1), q(0, 1)], seq![q(0, 1), q(0, 1), q(32, 59049), q(62, 9261), q(109427, 2322432), q(17005360, 178134957), q(36536, 153171)]), q(0, 1)),
        q_valid(q_dot(seq![q(0, 1), q(0, 1), q(0, 1), q(0, 1), q(0, 1), q(0, 1), q(0, 1)], seq![q(0, 1), q(0, 1), q(32, 59049), q(62, 9261), q(109427, 2322432), q(17005360, 178134957), q(36536, 153171)])),
{
    let x = seq![q(0, 1), q(0, 1), q(0, 1), q(0, 1), q(0, 1), q(0, 1), q(0, 1)];
    let y = seq![q(0, 1), q(0, 1), q(32, 59049), q(62, 9261), q(109427, 2322432), q(17005360, 178134957), q(36536, 153171)];
    let s = q_hadamard(x, y);
    assert(s.len() == 7);
    lemma_q_hadamard_entry(x, y, 0, 0, 1, 0, 1);
    lemma_q_hadamard_entry(x, y, 1, 0, 1, 0, 1);
    lemma_q_hadamard_entry(x, y, 2, 0, 1, 32, 59049);
    lemma_q_hadamard_entry(x, y, 3, 0, 1, 62, 9261);
    lemma_q_hadamard_entry(x, y, 4, 0, 1, 109427, 2322432);
    lemma_q_hadamard_entry(x, y, 5, 0, 1, 17005360, 178134957);
    lemma_q_hadamard_entry(x, y, 6, 0, 1, 36536, 153171);
    assert(q_sum_to(s, 0) == q(0, 1));
    lemma_q_eq_value(0, 1, 0, 1);
    lemma_q_sum_step(s, 0, 0, 1, 0, 1, 0, 1);
    lemma_q_sum_step(s, 1, 0, 1, 0, 1, 0, 1);
    lemma_q_sum_step(s, 2, 0, 1, 0, 59049, 0, 1);
    lemma_q_sum_step(s, 3, 0, 1, 0, 9261, 0, 1);
    lemma_q_sum_step(s, 4, 0, 1, 0, 2322432, 0, 1);
    lemma_q_sum_step(s, 5, 0, 1, 0, 178134957, 0, 1);
    lemma_q_sum_step(s, 6, 0, 1, 0, 153171, 0, 1);
}

proof fn lemma_rktp64_sum_107()
    ensures
        q_eq(q_dot(seq![q(4, 27), q(0, 1), q(0, 1), q(0, 1), q(0, 1), q(0, 1), q(0, 1)], seq![q(0, 1), q(0, 1), q(32, 59049), q(62, 9261), q(109427, 2322432), q(17005360, 178134957), q(36536, 153171)]), q(0, 1)),
        q_valid(q_dot(seq![q(4, 27), q(0, 1), q(0, 1), q(0, 1), q(0, 1), q(0, 1), q(0, 1)], seq![q(0, 1), q(0, 1), q(32, 59049), q(62, 9261), q(109427, 2322432), q(17005360, 178134957), q(36536, 153171)])),
{
    let x = seq![q(4, 27), q(0, 1), q(0, 1), q(0, 1), q(0, 1), q(0, 1), q(0, 1)];
    let y = seq![q(0, 1), q(0, 1), q(32, 59049), q(62, 9261), q(109427, 2322432), q(17005360, 178134957), q(36536, 153171)];
    let s = q_hadamard(x, y);
    assert(s.len() == 7);
    lemma_q_hadamard_entry(x, y, 0, 4, 27, 0, 1);
    lemma_q_hadamard_entry(x, y, 1, 0, 1, 0, 1);
    lemma_q_hadamard_entry(x, y, 2, 0, 1, 32, 59049);
    lemma_q_hadamard_entry(x, y, 3, 0, 1, 62, 9261);
    lemma_q_hadamard_entry(x, y, 4, 0, 1, 109427, 2322432);
    lemma_q_hadamard_entry(x, y, 5, 0, 1, 17005360, 178134957);
    lemma_q_hadamard_entry(x, y, 6, 0, 1, 36536, 153171);
    assert(q_sum_to(s, 0) == q(0, 1));
    lemma_q_eq_value(0, 1, 0, 1);
    lemma_q_sum_step(s, 0, 0, 1, 0, 27, 0, 1);
    lemma_q_sum_step(s, 1, 0, 1, 0, 1, 0, 1);
    lemma_q_sum_step(s, 2, 0, 1, 0, 59049, 0, 1);
    lemma_q_sum_step(s, 3, 0, 1, 0, 9261, 0, 1);
    lemma_q_sum_step(s, 4, 0, 1, 0, 2322432, 0, 1);
    lemma_q_sum_step(s, 5, 0, 1, 0, 178134957, 0, 1);
    lemma_q_sum_step(s, 6, 0, 1, 0, 153171, 0, 1);
}

proof fn lemma_rktp64_sum_108()
    ensures
        q_eq(q_dot(seq![q(1, 18), q(1, 6), q(0, 1), q(0, 1), q(0, 1), q(0, 1), q(0, 1)], seq![q(0, 1), q(0, 1), q(32, 59049), q(62, 9261), q(109427, 2322432), q(17005360, 178134957), q(36536, 153171)]), q(0, 1)),
        q_valid(q_dot(seq![q(1, 18), q(1, 6), q(0, 1), q(0, 1), q(0, 1), q(0, 1), q(0, 1)], seq![q(0, 1), q(0, 1), q(32, 59049), q(62, 9261), q(109427, 2322432), q(17005360, 178134957), q(36536, 153171)])),
{
    let x = seq![q(1, 18), q(1, 6), q(0, 1), q(0, 1), q(0, 1), q(0, 1), q(0, 1)];
    let y = seq![q(0, 1), q(0, 1), q(32, 59049), q(62, 9261), q(109427, 2322432), q(17005360, 178134957), q(36536, 153171)];
    let s = q_hadamard(x, y);
    assert(s.len() == 7);
    lemma_q_hadamard_entry(x, y, 0, 1, 18, 0, 1);
    lemma_q_hadamard_entry(x, y, 1, 1, 6, 0, 1);
    lemma_q_hadamard_entry(x, y, 2, 0, 1, 32, 59049);
    lemma_q_hadamard_entry(x, y, 3, 0, 1, 62, 9261);
    lemma_q_hadamard_entry(x, y, 4, 0, 1, 109427, 2322432);
    lemma_q_hadamard_entry(x, y, 5, 0, 1, 17005360, 178134957);
    lemma_q_hadamard_entry(x, y, 6, 0, 1, 36536, 153171);
    assert(q_sum_to(s, 0) == q(0, 1));
    lemma_q_eq_value(0, 1, 0, 1);
    lemma_q_sum_step(s, 0, 0, 1, 0, 18, 0, 1);
    lemma_q_sum_step(s, 1, 0, 1, 0, 6, 0, 1);
    lemma_q_sum_step(s, 2, 0, 1, 0, 59049, 0, 1);
    lemma_q_sum_step(s, 3, 0, 1, 0, 9261, 0, 1);
    lemma_q_sum_step(s, 4, 0, 1, 0, 2322432, 0, 1);
    lemma_q_sum_step(s, 5, 0, 1, 0, 178134957, 0, 1);
    lemma_q_sum_step(s, 6, 0, 1, 0, 153171, 0, 1);
}

proof fn lemma_rktp64_sum_109()
    ensures
        q_eq(q_dot(seq![q(66, 343), q(-729, 1372), q(1053, 1372), q(0, 1), q(0, 1), q(0, 1), q(0, 1)], seq![q(0, 1), q(0, 1), q(32, 59049), q(62, 9261), q(109427, 2322432), q(17005360, 178134957), q(36536, 153171)]), q(104, 250047)),
        q_valid(q_dot(seq![q(66, 343), q(-729, 1372), q(1053, 1372), q(0, 1), q(0, 1), q(0, 1), q(0, 1)], seq![q(0, 1), q(0, 1), q(32, 59049), q(62, 9261), q(109427, 2322432), q(17005360, 178134957), q(36536, 153171)])),
{
    let x = seq![q(66, 343), q(-729, 1372), q(1053, 1372), q(0, 1), q(0, 1), q(0, 1), q(0, 1)];
    let y = seq![q(0, 1), q(0, 1), q(32, 59049), q(62, 9261), q(109427, 2322432), q(17005360, 178134957), q(36536, 153171)];
    let s = q_hadamard(x, y);
    assert(s.len() == 7);
    lemma_q_hadamard_entry(x, y, 0, 66, 343, 0, 1);
    lemma_q_hadamard_entry(x, y, 1, -729, 1372, 0, 1);
    lemma_q_hadamard_entry(x, y, 2, 1053, 1372, 32, 59049);
    lemma_q_hadamard_entry(x, y, 3, 0, 1, 62, 9261);
    lemma_q_hadamard_entry(x, y, 4, 0, 1, 109427, 2322432);
    lemma_q_hadamard_entry(x, y, 5, 0, 1, 17005360, 178134957);
    lemma_q_hadamard_entry(x, y, 6, 0, 1, 36536, 153171);
    assert(q_sum_to(s, 0) == q(0, 1));
    lemma_q_eq_value(0, 1, 0, 1);
    lemma_q_sum_step(s, 0, 0, 1, 0, 343, 0, 1);
    lemma_q_sum_step(s, 1, 0, 1, 0, 1372, 0, 1);
    lemma_q_sum_step(s, 2, 0, 1, 33696, 81015228, 104, 250047);
    lemma_q_sum_step(s, 3, 104, 250047, 0, 9261, 104, 250047);
    lemma_q_sum_step(s, 4, 104, 250047, 0, 2322432, 104, 250047);
    lemma_q_sum_step(s, 5, 104, 250047, 0, 178134957, 104, 250047);
    lemma_q_sum_step(s, 6, 104, 250047, 0, 153171, 104, 250047);
}

proof fn lemma_rktp64_sum_110()
    ensures
        q_eq(q_dot(seq![q(13339, 49152), q(-4617, 16384), q(5427, 53248), q(95207, 159744), q(0, 1), q(0, 1), q(0, 1)], seq![q(0, 1), q(0, 1), q(32, 59049), q(62, 9261), q(109427, 2322432), q(17005360, 178134957), q(36536, 153171)]), q(42277, 10450944)),
        q_valid(q_dot(seq![q(13339, 49152), q(-4617, 16384), q(5427, 53248), q(95207, 159744), q(0, 1), q(0, 1), q(0, 1)], seq![q(0, 1), q(0, 1), q(32, 59049), q(62, 9261), q(109427, 2322432), q(17005360, 178134957), q(36536, 153171)])),
{
    let x = seq![q(13339, 49152), q(-4617, 16384), q(5427, 53248), q(95207, 159744), q(0, 1), q(0, 1), q(0, 1)];
    let y = seq![q(0, 1), q(0, 1), q(32, 59049), q(62, 9261), q(109427, 2322432), q(17005360, 178134957), q(36536, 153171)];
    let s = q_hadamard(x, y);
    assert(s.len() == 7);
    lemma_q_hadamard_entry(x, y, 0, 13339, 49152, 0, 1);
    lemma_q_hadamard_entry(x, y, 1, -4617, 16384, 0, 1);
    lemma_q_hadamard_entry(x, y, 2, 5427, 53248, 32, 59049);
    lemma_q_hadamard_entry(x, y, 3, 95207, 159744, 62, 9261);
    lemma_q_hadamard_entry(x, y, 4, 0, 1, 109427, 2322432);
    lemma_q_hadamard_entry(x, y, 5, 0, 1, 17005360, 178134957);
    lemma_q_hadamard_entry(x, y, 6, 0, 1, 36536, 153171);
    assert(q_sum_to(s, 0) == q(0, 1));
    lemma_q_eq_value(0, 1, 0, 1);
    lemma_q_sum_step(s, 0, 0, 1, 0, 49152, 0, 1);
    lemma_q_sum_step(s, 1, 0, 1, 0, 16384, 0, 1);
    lemma_q_sum_step(s, 2, 0, 1, 173664, 3144241152, 67, 1213056);
    lemma_q_sum_step(s, 3, 67, 1213056, 5902834, 1479389184, 42277, 10450944);
    lemma_q_sum_step(s, 4, 42277, 10450944, 0, 2322432, 42277, 10450944);
    lemma_q_sum_step(s, 5, 42277, 10450944, 0, 178134957, 42277, 10450944);
    lemma_q_sum_step(s, 6, 42277, 10450944, 0, 153171, 42277, 10450944);
}

proof fn lemma_rktp64_sum_111()
    ensures
        q_eq(q_dot(seq![q(-6935, 57122), q(23085, 48334), q(33363360, 273642941), q(972160, 118442467), q(172687360, 610434253), q(0, 1), q(0, 1)], seq![q(0, 1), q(0, 1), q(32, 59049), q(62, 9261), q(109427, 2322432), q(17005360, 178134957), q(36536, 153171)]), q(9241520, 687091977)),
        q_valid(q_dot(seq![q(-6935, 57122), q(23085, 48334), q(33363360, 273642941), q(972160, 118442467), q(172687360, 610434253), q(0, 1), q(0, 1)], seq![q(0, 1), q(0, 1), q(32, 59049), q(62, 9261), q(109427, 2322432), q(17005360, 178134957), q(36536, 153171)])),
{
    let x = seq![q(-6935, 57122), q(23085, 48334), q(33363360, 273642941), q(972160, 118442467), q(172687360, 610434253), q(0, 1), q(0, 1)];
    let y = seq![q(0, 1), q(0, 1), q(32, 59049), q(62, 9261), q(109427, 2322432), q(17005360, 178134957), q(36536, 153171)];
    let s = q_hadamard(x, y);
    assert(s.len() == 7);
    lemma_q_hadamard_entry(x, y, 0, -6935, 57122, 0, 1);
    lemma_q_hadamard_entry(x, y, 1, 23085, 48334, 0, 1);
    lemma_q_hadamard_entry(x, y, 2, 33363360, 273642941, 32, 59049);
    lemma_q_hadamard_entry(x, y, 3, 972160, 118442467, 62, 9261);
    lemma_q_hadamard_entry(x, y, 4, 172687360, 610434253, 109427, 2322432);
    lemma_q_hadamard_entry(x, y, 5, 0, 1, 17005360, 178134957);
    lemma_q_hadamard_entry(x, y, 6, 0, 1, 36536, 153171);
    assert(q_sum_to(s, 0) == q(0, 1));
    lemma_q_eq_value(0, 1, 0, 1);
    lemma_q_sum_step(s, 0, 0, 1, 0, 57122, 0, 1);
    lemma_q_sum_step(s, 1, 0, 1, 0, 48334, 0, 1);
    lemma_q_sum_step(s, 2, 0, 1, 1067627520, 16158342023109, 39541760, 598457111967);
    lemma_q_sum_step(s, 3, 39541760, 598457111967, 60273920, 1096895686887, 86997760, 718856767629);
    lemma_q_sum_step(s, 4, 86997760, 718856767629, 18896659742720, 1417692043063296, 9241520, 687091977);
    lemma_q_sum_step(s, 5, 9241520, 687091977, 0, 178134957, 9241520, 687091977);
    lemma_q_sum_step(s, 6, 9241520, 687091977, 0, 153171, 9241520, 687091977);
}

proof fn lemma_rktp64_sum_112()
    ensures
        q_eq(q_dot(seq![q(611, 1891), q(-4617, 7564), q(6041007, 13176488), q(12708836, 22100117), q(-35840000, 62461621), q(6597591, 7972456), q(0, 1)], seq![q(0, 1), q(0, 1), q(32, 59049), q(62, 9261), q(109427, 2322432), q(17005360, 178134957), q(36536, 153171)]), q(231856, 4135617)),
        q_valid(q_dot(seq![q(611, 1891), q(-4617, 7564), q(6041007, 13176488), q(12708836, 22100117), q(-35840000, 62461621), q(6597591, 7972456), q(0, 1)], seq![q(0, 1), q(0, 1), q(32, 59049), q(62, 9261), q(109427, 2322432), q(17005360, 178134957), q(36536, 153171)])),
{
    let x = seq![q(611, 1891), q(-4617, 7564), q(6041007, 13176488), q(12708836, 22100117), q(-35840000, 62461621), q(6597591, 7972456), q(0, 1)];
    let y = seq![q(0, 1), q(0, 1), q(32, 59049), q(62, 9261), q(109427, 2322432), q(17005360, 178134957), q(36536, 153171)];
    let s = q_hadamard(x, y);
    assert(s.len() == 7);
    lemma_q_hadamard_entry(x, y, 0, 611, 1891, 0, 1);
    lemma_q_hadamard_entry(x, y, 1, -4617, 7564, 0, 1);
    lemma_q_hadamard_entry(x, y, 2, 6041007, 13176488, 32, 59049);
    lemma_q_hadamard_entry(x, y, 3, 12708836, 22100117, 62, 9261);
    lemma_q_hadamard_entry(x, y, 4, -35840000, 62461621, 109427, 2322432);
    lemma_q_hadamard_entry(x, y, 5, 6597591, 7972456, 17005360, 178134957);
    lemma_q_hadamard_entry(x, y, 6, 0, 1, 36536, 153171);
    assert(q_sum_to(s, 0) == q(0, 1));
    lemma_q_eq_value(0, 1, 0, 1);
    lemma_q_sum_step(s, 0, 0, 1, 0, 1891, 0, 1);
    lemma_q_sum_step(s, 1, 0, 1, 0, 7564, 0, 1);
    lemma_q_sum_step(s, 2, 0, 1, 193312224, 778058439912, 894964, 3602122407);
    lemma_q_sum_step(s, 3, 894964, 3602122407, 787947832, 204669183537, 32932028, 8035503831);
    lemma_q_sum_step(s, 4, 32932028, 8035503831, -3921863680000, 145062867382272, -1612618, 70305489);
    lemma_q_sum_step(s, 5, -1612618, 70305489, 112194410087760, 1420173106744392, 231856, 4135617);
    lemma_q_sum_step(s, 6, 231856, 4135617, 0, 153171, 231856, 4135617);
}

proof fn lemma_rktp64_sum_113()
    ensures
        q_eq(q_dot(seq![q(0, 1), q(0, 1), q(0, 1), q(0, 1), q(0, 1), q(0, 1), q(0, 1)], seq![q(0, 1), q(0, 1), q(0, 1), q(13, 3087), q(12395, 516096), q(2788120, 59378319), q(6140, 51057)]), q(0, 1)),
        q_valid(q_dot(seq![q(0, 1), q(0, 1), q(0, 1), q(0, 1), q(0, 1), q(0, 1), q(0, 1)], seq![q(0, 1), q(0, 1), q(0, 1), q(13, 3087), q(12395, 516096), q(2788120, 59378319), q(6140, 51057)])),
{
    let x = seq![q(0, 1), q(0, 1), q(0, 1), q(0, 1), q(0, 1), q(0, 1), q(0, 1)];
    let y = seq![q(0, 1), q(0, 1), q(0, 1), q(13, 3087), q(12395, 516096), q(2788120, 59378319), q(6140, 51057)];
    let s = q_hadamard(x, y);
    assert(s.len() == 7);
    lemma_q_hadamard_entry(x, y, 0, 0, 1, 0, 1);
    lemma_q_hadamard_entry(x, y, 1, 0, 1, 0, 1);
    lemma_q_hadamard_entry(x, y, 2, 0, 1, 0, 1);
    lemma_q_hadamard_entry(x, y, 3, 0, 1, 13, 3087);
    lemma_q_hadamard_entry(x, y, 4, 0, 1, 12395, 516096);
    lemma_q_hadamard_entry(x, y, 5, 0, 1, 2788120, 59378319);
    lemma_q_hadamard_entry(x, y, 6, 0, 1, 6140, 51057);
    assert(q_sum_to(s, 0) == q(0, 1));
    lemma_q_eq_value(0, 1, 0, 1);
    lemma_q_sum_step(s, 0, 0, 1, 0, 1, 0, 1);
    lemma_q_sum_step(s, 1, 0, 1, 0, 1, 0, 1);
    lemma_q_sum_step(s, 2, 0, 1, 0, 1, 0, 1);
    lemma_q_sum_step(s, 3, 0, 1, 0, 3087, 0, 1);
    lemma_q_sum_step(s, 4, 0, 1, 0, 516096, 0, 1);
    lemma_q_sum_step(s, 5, 0, 1, 0, 59378319, 0, 1);
    lemma_q_sum_step(s, 6, 0, 1, 0, 51057, 0, 1);
}

proof fn lemma_rktp64_sum_114()
    ensures
        q_eq(q_dot(seq![q(4, 27), q(0, 1), q(0, 1), q(0, 1), q(0, 1), q(0, 1), q(0, 1)], seq![q(0, 1), q(0, 1), q(0, 1), q(13, 3087), q(12395, 516096), q(2788120, 59378319), q(6140, 51057)]), q(0, 1)),
        q_valid(q_dot(seq![q(4, 27), q(0, 1), q(0, 1), q(0, 1), q(0, 1), q(0, 1), q(0, 1)], seq![q(0, 1), q(0, 1), q(0, 1), q(13, 3087), q(12395, 516096), q(2788120, 59378319), q(6140, 51057)])),
{
    let x = seq![q(4, 27), q(0, 1), q(0, 1), q(0, 1), q(0, 1), q(0, 1), q(0, 1)];
    let y = seq![q(0, 1), q(0, 1), q(0, 1), q(13, 3087), q(12395, 516096), q(2788120, 59378319), q(6140, 51057)];
    let s = q_hadamard(x, y);
    assert(s.len() == 7);
    lemma_q_hadamard_entry(x, y, 0, 4, 27, 0, 1);
    lemma_q_hadamard_entry(x, y, 1, 0, 1, 0, 1);
    lemma_q_hadamard_entry(x, y, 2, 0, 1, 0, 1);
    lemma_q_hadamard_entry(x, y, 3, 0, 1, 13, 3087);
    lemma_q_hadamard_entry(x, y, 4, 0, 1, 12395, 516096);
    lemma_q_hadamard_entry(x, y, 5, 0, 1, 2788120, 59378319);
    lemma_q_hadamard_entry(x, y, 6, 0, 1, 6140, 51057);
    assert(q_sum_to(s, 0) == q(0, 1));
    lemma_q_eq_value(0, 1, 0, 1);
    lemma_q_sum_step(s, 0, 0, 1, 0, 27, 0, 1);
    lemma_q_sum_step(s, 1, 0, 1, 0, 1, 0, 1);
    lemma_q_sum_step(s, 2, 0, 1, 0, 1, 0, 1);
    lemma_q_sum_step(s, 3, 0, 1, 0, 3087, 0, 1);
    lemma_q_sum_step(s, 4, 0, 1, 0, 516096, 0, 1);
    lemma_q_sum_step(s, 5, 0, 1, 0, 59378319, 0, 1);
    lemma_q_sum_step(s, 6, 0, 1, 0, 51057, 0, 1);
}

proof fn lemma_rktp64_sum_115()
    ensures
        q_eq(q_dot(seq![q(1, 18), q(1, 6), q(0, 1), q(0, 1), q(0, 1), q(0, 1), q(0, 1)], seq![q(0, 1), q(0, 1), q(0, 1), q(13, 3087), q(12395, 516096), q(2788120, 59378319), q(6140, 51057)]), q(0, 1)),
        q_valid(q_dot(seq![q(1, 18), q(1, 6), q(0, 1), q(0, 1), q(0, 1), q(0, 1), q(0, 1)], seq![q(0, 1), q(0, 1), q(0, 1), q(13, 3087), q(12395, 516096), q(2788120, 59378319), q(6140, 51057)])),
{
    let x = seq![q(1, 18), q(1, 6), q(0, 1), q(0, 1), q(0, 1), q(0, 1), q(0, 1)];
    let y = seq![q(0, 1), q(0, 1), q(0, 1), q(13, 3087), q(12395, 516096), q(2788120, 59378319), q(6140, 51057)];
    let s = q_hadamard(x, y);
    assert(s.len() == 7);
    lemma_q_hadamard_entry(x, y, 0, 1, 18, 0, 1);
    lemma_q_hadamard_entry(x, y, 1, 1, 6, 0, 1);
    lemma_q_hadamard_entry(x, y, 2, 0, 1, 0, 1);
    lemma_q_hadamard_entry(x, y, 3, 0, 1, 13, 3087);
    lemma_q_hadamard_entry(x, y, 4, 0, 1, 12395, 516096);
    lemma_q_hadamard_entry(x, y, 5, 0, 1, 2788120, 59378319);
    lemma_q_hadamard_entry(x, y, 6, 0, 1, 6140, 51057);
    assert(q_sum_to(s, 0) == q(0, 1));
    lemma_q_eq_value(0, 1, 0, 1);
    lemma_q_sum_step(s, 0, 0, 1, 0, 18, 0, 1);
    lemma_q_sum_step(s, 1, 0, 1, 0, 6, 0, 1);
    lemma_q_sum_step(s, 2, 0, 1, 0, 1, 0, 1);
    lemma_q_sum_step(s, 3, 0, 1, 0, 3087, 0, 1);
    lemma_q_sum_step(s, 4, 0, 1, 0, 516096, 0, 1);
    lemma_q_sum_step(s, 5, 0, 1, 0, 59378319, 0, 1);
    lemma_q_sum_step(s, 6, 0, 1, 0, 51057, 0, 1);
}

proof fn lemma_rktp64_sum_116()
    ensures
        q_eq(q_dot(seq![q(66, 343), q(-729, 1372), q(1053, 1372), q(0, 1), q(0, 1), q(0, 1), q(0, 1)], seq![q(0, 1), q(0, 1), q(0, 1), q(13, 3087), q(12395, 516096), q(2788120, 59378319), q(6140, 51057)]), q(0, 1)),
        q_valid(q_dot(seq![q(66, 343), q(-729, 1372), q(1053, 1372), q(0, 1), q(0, 1), q(0, 1), q(0, 1)], seq![q(0, 1), q(0, 1), q(0, 1), q(13, 3087), q(12395, 516096), q(2788120, 59378319), q(6140, 51057)])),
{
    let x = seq![q(66, 343), q(-729, 1372), q(1053, 1372), q(0, 1), q(0, 1), q(0, 1), q(0, 1)];
    let y = seq![q(0, 1), q(0, 1), q(0, 1), q(13, 3087), q(12395, 516096), q(2788120, 59378319), q(6140, 51057)];
    let s = q_hadamard(x, y);
    assert(s.len() == 7);
    lemma_q_hadamard_entry(x, y, 0, 66, 343, 0, 1);
    lemma_q_hadamard_entry(x, y, 1, -729, 1372, 0, 1);
    lemma_q_hadamard_entry(x, y, 2, 1053, 1372, 0, 1);
    lemma_q_hadamard_entry(x, y, 3, 0, 1, 13, 3087);
    lemma_q_hadamard_entry(x, y, 4, 0, 1, 12395, 516096);
    lemma_q_hadamard_entry(x, y, 5, 0, 1, 2788120, 59378319);
    lemma_q_hadamard_entry(x, y, 6, 0, 1, 6140, 51057);
    assert(q_sum_to(s, 0) == q(0, 1));
    lemma_q_eq_value(0, 1, 0, 1);
    lemma_q_sum_step(s, 0, 0, 1, 0, 343, 0, 1);
    lemma_q_sum_step(s, 1, 0, 1, 0, 1372, 0, 1);
    lemma_q_sum_step(s, 2, 0, 1, 0, 1372, 0, 1);
    lemma_q_sum_step(s, 3, 0, 1, 0, 3087, 0, 1);
    lemma_q_sum_step(s, 4, 0, 1, 0, 516096, 0, 1);
    lemma_q_sum_step(s, 5, 0, 1, 0, 59378319, 0, 1);
    lemma_q_sum_step(s, 6, 0, 1, 0, 51057, 0, 1);
}

proof fn lemma_rktp64_sum_117()
    ensures
        q_eq(q_dot(seq![q(13339, 49152), q(-4617, 16384), q(5427, 53248), q(95207, 159744), q(0, 1), q(0, 1), q(0, 1)], seq![q(0, 1), q(0, 1), q(0, 1), q(13, 3087), q(12395, 516096), q(2788120, 59378319), q(6140, 51057)]), q(1943, 774144)),
        q_valid(q_dot(seq![q(13339, 49152), q(-4617, 16384), q(5427, 53248), q(95207, 159744), q(0, 1), q(0, 1), q(0, 1)], seq![q(0, 1), q(0, 1), q(0, 1), q(13, 3087), q(12395, 516096), q(2788120, 59378319), q(6140, 51057)])),
{
    let x = seq![q(13339, 49152), q(-4617, 16384), q(5427, 53248), q(95207, 159744), q(0, 1), q(0, 1), q(0, 1)];
    let y = seq![q(0, 1), q(0, 1), q(0, 1), q(13, 3087), q(12395, 516096), q(2788120, 59378319), q(6140, 51057)];
    let s = q_hadamard(x, y);
    assert(s.len() == 7);
    lemma_q_hadamard_entry(x, y, 0, 13339, 49152, 0, 1);
    lemma_q_hadamard_entry(x, y, 1, -4617, 16384, 0, 1);
    lemma_q_hadamard_entry(x, y, 2, 5427, 53248, 0, 1);
    lemma_q_hadamard_entry(x, y, 3, 95207, 159744, 13, 3087);
    lemma_q_hadamard_entry(x, y, 4, 0, 1, 12395, 516096);
    lemma_q_hadamard_entry(x, y, 5, 0, 1, 2788120, 59378319);
    lemma_q_hadamard_entry(x, y, 6, 0, 1, 6140, 51057);
    assert(q_sum_to(s, 0) == q(0, 1));
    lemma_q_eq_value(0, 1, 0, 1);
    lemma_q_sum_step(s, 0, 0, 1, 0, 49152, 0, 1);
    lemma_q_sum_step(s, 1, 0, 1, 0, 16384, 0, 1);
    lemma_q_sum_step(s, 2, 0, 1, 0, 53248, 0, 1);
    lemma_q_sum_step(s, 3, 0, 1, 1237691, 493129728, 1943, 774144);
    lemma_q_sum_step(s, 4, 1943, 774144, 0, 516096, 1943, 774144);
    lemma_q_sum_step(s, 5, 1943, 774144, 0, 59378319, 1943, 774144);
    lemma_q_sum_step(s, 6, 1943, 774144, 0, 51057, 1943, 774144);
}

proof fn lemma_rktp64_sum_118()
    ensures
        q_eq(q_dot(seq![q(-6935, 57122), q(23085, 48334), q(33363360, 273642941), q(972160, 118442467), q(172687360, 610434253), q(0, 1), q(0, 1)], seq![q(0, 1), q(0, 1), q(0, 1), q(13, 3087), q(12395, 516096), q(2788120, 59378319), q(6140, 51057)]), q(135160, 19792773)),
        q_valid(q_dot(seq![q(-6935, 57122), q(23085, 48334), q(33363360, 273642941), q(972160, 118442467), q(172687360, 610434253), q(0, 1), q(0, 1)], seq![q(0, 1), q(0, 1), q(0, 1), q(13, 3087), q(12395, 516096), q(2788120, 59378319), q(6140, 51057)])),
{
    let x = seq![q(-6935, 57122), q(23085, 48334), q(33363360, 273642941), q(972160, 118442467), q(172687360, 610434253), q(0, 1), q(0, 1)];
    let y = seq![q(0, 1), q(0, 1), q(0, 1), q(13, 3087), q(12395, 516096), q(2788120, 59378319), q(6140, 51057)];
    let s = q_hadamard(x, y);
    assert(s.len() == 7);
    lemma_q_hadamard_entry(x, y, 0, -6935, 57122, 0, 1);
    lemma_q_hadamard_entry(x, y, 1, 23085, 48334, 0, 1);
    lemma_q_hadamard_entry(x, y, 2, 33363360, 273642941, 0, 1);
    lemma_q_hadamard_entry(x, y, 3, 972160, 118442467, 13, 3087);
    lemma_q_hadamard_entry(x, y, 4, 172687360, 610434253, 12395, 516096);
    lemma_q_hadamard_entry(x, y, 5, 0, 1, 2788120, 59378319);
    lemma_q_hadamard_entry(x, y, 6, 0, 1, 6140, 51057);
    assert(q_sum_to(s, 0) == q(0, 1));
    lemma_q_eq_value(0, 1, 0, 1);
    lemma_q_sum_step(s, 0, 0, 1, 0, 57122, 0, 1);
    lemma_q_sum_step(s, 1, 0, 1, 0, 48334, 0, 1);
    lemma_q_sum_step(s, 2, 0, 1, 0, 273642941, 0, 1);
    lemma_q_sum_step(s, 3, 0, 1, 12638080, 365631895629, 19840, 573990417);
    lemma_q_sum_step(s, 4, 19840, 573990417, 2140459827200, 315042676236288, 135160, 19792773);
    lemma_q_sum_step(s, 5, 135160, 19792773, 0, 59378319, 135160, 19792773);
    lemma_q_sum_step(s, 6, 135160, 19792773, 0, 51057, 135160, 19792773);
}

proof fn lemma_rktp64_sum_119()
    ensures
        q_eq(q_dot(seq![q(611, 1891), q(-4617, 7564), q(6041007, 13176488), q(12708836, 22100117), q(-35840000, 62461621), q(6597591, 7972456), q(0, 1)], seq![q(0, 1), q(0, 1), q(0, 1), q(13, 3087), q(12395, 516096), q(2788120, 59378319), q(6140, 51057)]), q(52, 1891)),
        q_valid(q_dot(seq![q(611, 1891), q(-4617, 7564), q(6041007, 13176488), q(12708836, 22100117), q(-35840000, 62461621), q(6597591, 7972456), q(0, 1)], seq![q(0, 1), q(0, 1), q(0, 1), q(13, 3087), q(12395, 516096), q(2788120, 59378319), q(6140, 51057)])),
{
    let x = seq![q(611, 1891), q(-4617, 7564), q(6041007, 13176488), q(12708836, 22100117), q(-35840000, 62461621), q(6597591, 7972456), q(0, 1)];
    let y = seq![q(0, 1), q(0, 1), q(0, 1), q(13, 3087), q(12395, 516096), q(2788120, 59378319), q(6140, 51057)];
    let s = q_hadamard(x, y);
    assert(s.len() == 7);
    lemma_q_hadamard_entry(x, y, 0, 611, 1891, 0, 1);
    lemma_q_hadamard_entry(x, y, 1, -4617, 7564, 0, 1);
    lemma_q_hadamard_entry(x, y, 2, 6041007, 13176488, 0, 1);
    lemma_q_hadamard_entry(x, y, 3, 12708836, 22100117, 13, 3087);
    lemma_q_hadamard_entry(x, y, 4, -35840000, 62461621, 12395, 516096);
    lemma_q_hadamard_entry(x, y, 5, 6597591, 7972456, 2788120, 59378319);
    lemma_q_hadamard_entry(x, y, 6, 0, 1, 6140, 51057);
    assert(q_sum_to(s, 0) == q(0, 1));
    lemma_q_eq_value(0, 1, 0, 1);
    lemma_q_sum_step(s, 0, 0, 1, 0, 1891, 0, 1);
    lemma_q_sum_step(s, 1, 0, 1, 0, 7564, 0, 1);
    lemma_q_sum_step(s, 2, 0, 1, 0, 13176488, 0, 1);
    lemma_q_sum_step(s, 3, 0, 1, 165214868, 68223061179, 37052, 15300081);
    lemma_q_sum_step(s, 4, 37052, 15300081, -444236800000, 32236192751616, -101879, 8969013);
    lemma_q_sum_step(s, 5, -101879, 8969013, 18394875418920, 473391035581464, 52, 1891);
    lemma_q_sum_step(s, 6, 52, 1891, 0, 51057, 52, 1891);
}

proof fn lemma_rktp64_sum_120()
    ensures
        q_eq(q_dot(seq![q(0, 1), q(0, 1), q(0, 1), q(0, 1), q(0, 1), q(0, 1), q(0, 1)], seq![q(0, 1), q(0, 1), q(0, 1), q(26, 9261), q(12395, 774144), q(5576240, 178134957), q(12280, 153171)]), q(0, 1)),
        q_valid(q_dot(seq![q(0, 1), q(0, 1), q(0, 1), q(0, 1), q(0, 1), q(0, 1), q(0, 1)], seq![q(0, 1), q(0, 1), q(0, 1), q(26, 9261), q(12395, 774144), q(5576240, 178134957), q(12280, 153171)])),
{
    let x = seq![q(0, 1), q(0, 1), q(0, 1), q(0, 1), q(0, 1), q(0, 1), q(0, 1)];
    let y = seq![q(0, 1), q(0, 1), q(0, 1), q(26, 9261), q(12395, 774144), q(5576240, 178134957), q(12280, 153171)];
    let s = q_hadamard(x, y);
    assert(s.len() == 7);
    lemma_q_hadamard_entry(x, y, 0, 0, 1, 0, 1);
    lemma_q_hadamard_entry(x, y, 1, 0, 1, 0, 1);
    lemma_q_hadamard_entry(x, y, 2, 0, 1, 0, 1);
    lemma_q_hadamard_entry(x, y, 3, 0, 1, 26, 9261);
    lemma_q_hadamard_entry(x, y, 4, 0, 1, 12395, 774144);
    lemma_q_hadamard_entry(x, y, 5, 0, 1, 5576240, 178134957);
    lemma_q_hadamard_entry(x, y, 6, 0, 1, 12280, 153171);
    assert(q_sum_to(s, 0) == q(0, 1));
    lemma_q_eq_value(0, 1, 0, 1);
    lemma_q_sum_step(s, 0, 0, 1, 0, 1, 0, 1);
    lemma_q_sum_step(s, 1, 0, 1, 0, 1, 0, 1);
    lemma_q_sum_step(s, 2, 0, 1, 0, 1, 0, 1);
    lemma_q_sum_step(s, 3, 0, 1, 0, 9261, 0, 1);
    lemma_q_sum_step(s, 4, 0, 1, 0, 774144, 0, 1);
    lemma_q_sum_step(s, 5, 0, 1, 0, 178134957, 0, 1);
    lemma_q_sum_step(s, 6, 0, 1, 0, 153171, 0, 1);
}

proof fn lemma_rktp64_sum_121()
    ensures
        q_eq(q_dot(seq![q(4, 27), q(0, 1), q(0, 1), q(0, 1), q(0, 1), q(0, 1), q(0, 1)], seq![q(0, 1), q(0, 1), q(0, 1), q(26, 9261), q(12395, 774144), q(5576240, 178134957), q(12280, 153171)]), q(0, 1)),
        q_valid(q_dot(seq![q(4, 27), q(0, 1), q(0, 1), q(0, 1), q(0, 1), q(0, 1), q(0, 1)], seq![q(0, 1), q(0, 1), q(0, 1), q(26, 9261), q(12395, 774144), q(5576240, 178134957), q(12280, 153171)])),
{
    let x = seq![q(4, 27), q(0, 1), q(0, 1), q(0, 1), q(0, 1), q(0, 1), q(0, 1)];
    let y = seq![q(0, 1), q(0, 1), q(0, 1), q(26, 9261), q(12395, 774144), q(5576240, 178134957), q(12280, 153171)];
    let s = q_hadamard(x, y);
    assert(s.len() == 7);
    lemma_q_hadamard_entry(x, y, 0, 4, 27, 0, 1);
    lemma_q_hadamard_entry(x, y, 1, 0, 1, 0, 1);
    lemma_q_hadamard_entry(x, y, 2, 0, 1, 0, 1);
    lemma_q_hadamard_entry(x, y, 3, 0, 1, 26, 9261);
    lemma_q_hadamard_entry(x, y, 4, 0, 1, 12395, 774144);
    lemma_q_hadamard_entry(x, y, 5, 0, 1, 5576240, 178134957);
    lemma_q_hadamard_entry(x, y, 6, 0, 1, 12280, 153171);
    assert(q_sum_to(s, 0) == q(0, 1));
    lemma_q_eq_value(0, 1, 0, 1);
    lemma_q_sum_step(s, 0, 0, 1, 0, 27, 0, 1);
    lemma_q_sum_step(s, 1, 0, 1, 0, 1, 0, 1);
    lemma_q_sum_step(s, 2, 0, 1, 0, 1, 0, 1);
    lemma_q_sum_step(s, 3, 0, 1, 0, 9261, 0, 1);
    lemma_q_sum_step(s, 4, 0, 1, 0, 774144, 0, 1);
    lemma_q_sum_step(s, 5, 0, 1, 0, 178134957, 0, 1);
    lemma_q_sum_step(s, 6, 0, 1, 0, 153171, 0, 1);
}

proof fn lemma_rktp64_sum_122()
    ensures
        q_eq(q_dot(seq![q(1, 18), q(1, 6), q(0, 1), q(0, 1), q(0, 1), q(0, 1), q(0, 1)], seq![q(0, 1), q(0, 1), q(0, 1), q(26, 9261), q(12395, 774144), q(5576240, 178134957), q(12280, 153171)]), q(0, 1)),
        q_valid(q_dot(seq![q(1, 18), q(1, 6), q(0, 1), q(0, 1), q(0, 1), q(0, 1), q(0, 1)], seq![q(0, 1), q(0, 1), q(0, 1), q(26, 9261), q(12395, 774144), q(5576240, 178134957), q(12280, 153171)])),
{
    let x = seq![q(1, 18), q(1, 6), q(0, 1), q(0, 1), q(0, 1), q(0, 1), q(0, 1)];
    let y = seq![q(0, 1), q(0, 1), q(0, 1), q(26, 9261), q(12395, 774144), q(5576240, 178134957), q(12280, 153171)];
    let s = q_hadamard(x, y);
    assert(s.len() == 7);
    lemma_q_hadamard_entry(x, y, 0, 1, 18, 0, 1);
    lemma_q_hadamard_entry(x, y, 1, 1, 6, 0, 1);
    lemma_q_hadamard_entry(x, y, 2, 0, 1, 0, 1);
    lemma_q_hadamard_entry(x, y, 3, 0, 1, 26, 9261);
    lemma_q_hadamard_entry(x, y, 4, 0, 1, 12395, 774144);
    lemma_q_hadamard_entry(x, y, 5, 0, 1, 5576240, 178134957);
    lemma_q_hadamard_entry(x, y, 6, 0, 1, 12280, 153171);
    assert(q_sum_to(s, 0) == q(0, 1));
    lemma_q_eq_value(0, 1, 0, 1);
    lemma_q_sum_step(s, 0, 0, 1, 0, 18, 0, 1);
    lemma_q_sum_step(s, 1, 0, 1, 0, 6, 0, 1);
    lemma_q_sum_step(s, 2, 0, 1, 0, 1, 0, 1);
    lemma_q_sum_step(s, 3, 0, 1, 0, 9261, 0, 1);
    lemma_q_sum_step(s, 4, 0, 1, 0, 774144, 0, 1);
    lemma_q_sum_step(s, 5, 0, 1, 0, 178134957, 0, 1);
    lemma_q_sum_step(s, 6, 0, 1, 0, 153171, 0, 1);
}

proof fn lemma_rktp64_sum_123()
    ensures
        q_eq(q_dot(seq![q(66, 343), q(-729, 1372), q(1053, 1372), q(0, 1), q(0, 1), q(0, 1), q(0, 1)], seq![q(0, 1), q(0, 1), q(0, 1), q(26, 9261), q(12395, 774144), q(5576240, 178134957), q(12280, 153171)]), q(0, 1)),
        q_valid(q_dot(seq![q(66, 343), q(-729, 1372), q(1053, 1372), q(0, 1), q(0, 1), q(0, 1), q(0, 1)], seq![q(0, 1), q(0, 1), q(0, 1), q(26, 9261), q(12395, 774144), q(5576240, 178134957), q(12280, 153171)])),
{
    let x = seq![q(66, 343), q(-729, 1372), q(1053, 1372), q(0, 1), q(0, 1), q(0, 1), q(0, 1)];
    let y = seq![q(0, 1), q(0, 1), q(0, 1), q(26, 9261), q(12395, 774144), q(5576240, 178134957), q(12280, 153171)];
    let s = q_hadamard(x, y);
    assert(s.len() == 7);
    lemma_q_hadamard_entry(x, y, 0, 66, 343, 0, 1);
    lemma_q_hadamard_entry(x, y, 1, -729, 1372, 0, 1);
    lemma_q_hadamard_entry(x, y, 2, 1053, 1372, 0, 1);
    lemma_q_hadamard_entry(x, y, 3, 0, 1, 26, 9261);
    lemma_q_hadamard_entry(x, y, 4, 0, 1, 12395, 774144);
    lemma_q_hadamard_entry(x, y, 5, 0, 1, 5576240, 178134957);
    lemma_q_hadamard_entry(x, y, 6, 0, 1, 12280, 153171);
    assert(q_sum_to(s, 0) == q(0, 1));
    lemma_q_eq_value(0, 1, 0, 1);
    lemma_q_sum_step(s, 0, 0, 1, 0, 343, 0, 1);
    lemma_q_sum_step(s, 1, 0, 1, 0, 1372, 0, 1);
    lemma_q_sum_step(s, 2, 0, 1, 0, 1372, 0, 1);
    lemma_q_sum_step(s, 3, 0, 1, 0, 9261, 0, 1);
    lemma_q_sum_step(s, 4, 0, 1, 0, 774144, 0, 1);
    lemma_q_sum_step(s, 5, 0, 1, 0, 178134957, 0, 1);
    lemma_q_sum_step(s, 6, 0, 1, 0, 153171, 0, 1);
}

proof fn lemma_rktp64_sum_124()
    ensures
        q_eq(q_dot(seq![q(13339, 49152), q(-4617, 16384), q(5427, 53248), q(95207, 159744), q(0, 1), q(0, 1), q(0, 1)], seq![q(0, 1), q(0, 1), q(0, 1), q(26, 9261), q(12395, 774144), q(5576240, 178134957), q(12280, 153171)]), q(1943, 1161216)),
        q_valid(q_dot(seq![q(13339, 49152), q(-4617, 16384), q(5427, 53248), q(95207, 159744), q(0, 1), q(0, 1), q(0, 1)], seq![q(0, 1), q(0, 1), q(0, 1), q(26, 9261), q(12395, 774144), q(5576240, 178134957), q(12280, 153171)])),
{
    let x = seq![q(13339, 49152), q(-4617, 16384), q(5427, 53248), q(95207, 159744), q(0, 1), q(0, 1), q(0, 1)];
    let y = seq![q(0, 1), q(0, 1), q(0, 1), q(26, 9261), q(12395, 774144), q(5576240, 178134957), q(12280, 153171)];
    let s = q_hadamard(x, y);
    assert(s.len() == 7);
    lemma_q_hadamard_entry(x, y, 0, 13339, 49152, 0, 1);
    lemma_q_hadamard_entry(x, y, 1, -4617, 16384, 0, 1);
    lemma_q_hadamard_entry(x, y, 2, 5427, 53248, 0, 1);
    lemma_q_hadamard_entry(x, y, 3, 95207, 159744, 26, 9261);
    lemma_q_hadamard_entry(x, y, 4, 0, 1, 12395, 774144);
    lemma_q_hadamard_entry(x, y, 5, 0, 1, 5576240, 178134957);
    lemma_q_hadamard_entry(x, y, 6, 0, 1, 12280, 153171);
    assert(q_sum_to(s, 0) == q(0, 1));
    lemma_q_eq_value(0, 1, 0, 1);
    lemma_q_sum_step(s, 0, 0, 1, 0, 49152, 0, 1);
    lemma_q_sum_step(s, 1, 0, 1, 0, 16384, 0, 1);
    lemma_q_sum_step(s, 2, 0, 1, 0, 53248, 0, 1);
    lemma_q_sum_step(s, 3, 0, 1, 2475382, 1479389184, 1943, 1161216);
    lemma_q_sum_step(s, 4, 1943, 1161216, 0, 774144, 1943, 1161216);
    lemma_q_sum_step(s, 5, 1943, 1161216, 0, 178134957, 1943, 1161216);
    lemma_q_sum_step(s, 6, 1943, 1161216, 0, 153171, 1943, 1161216);
}

proof fn lemma_rktp64_sum_125()
    ensures
        q_eq(q_dot(seq![q(-6935, 57122), q(23085, 48334), q(33363360, 273642941), q(972160, 118442467), q(172687360, 610434253), q(0, 1), q(0, 1)], seq![q(0, 1), q(0, 1), q(0, 1), q(26, 9261), q(12395, 774144), q(5576240, 178134957), q(12280, 153171)]), q(270320, 59378319)),
        q_valid(q_dot(seq![q(-6935, 57122), q(23085, 48334), q(33363360, 273642941), q(972160, 118442467), q(172687360, 610434253), q(0, 1), q(0, 1)], seq![q(0, 1), q(0, 1), q(0, 1), q(26, 9261), q(12395, 774144), q(5576240, 178134957), q(12280, 153171)])),
{
    let x = seq![q(-6935, 57122), q(23085, 48334), q(33363360, 273642941), q(972160, 118442467), q(172687360, 610434253), q(0, 1), q(0, 1)];
    let y = seq![q(0, 1), q(0, 1), q(0, 1), q(26, 9261), q(12395, 774144), q(5576240, 178134957), q(12280, 153171)];
    let s = q_hadamard(x, y);
    assert(s.len() == 7);
    lemma_q_hadamard_entry(x, y, 0, -6935, 57122, 0, 1);
    lemma_q_hadamard_entry(x, y, 1, 23085, 48334, 0, 1);
    lemma_q_hadamard_entry(x, y, 2, 33363360, 273642941, 0, 1);
    lemma_q_hadamard_entry(x, y, 3, 972160, 118442467, 26, 9261);
    lemma_q_hadamard_entry(x, y, 4, 172687360, 610434253, 12395, 774144);
    lemma_q_hadamard_entry(x, y, 5, 0, 1, 5576240, 178134957);
    lemma_q_hadamard_entry(x, y, 6, 0, 1, 12280, 153171);
    assert(q_sum_to(s, 0) == q(0, 1));
    lemma_q_eq_value(0, 1, 0, 1);
    lemma_q_sum_step(s, 0, 0, 1, 0, 57122, 0, 1);
    lemma_q_sum_step(s, 1, 0, 1, 0, 48334, 0, 1);
    lemma_q_sum_step(s, 2, 0, 1, 0, 273642941, 0, 1);
    lemma_q_sum_step(s, 3, 0, 1, 25276160, 1096895686887, 39680, 1721971251);
    lemma_q_sum_step(s, 4, 39680, 1721971251, 2140459827200, 472564014354432, 270320, 59378319);
    lemma_q_sum_step(s, 5, 270320, 59378319, 0, 178134957, 270320, 59378319);
    lemma_q_sum_step(s, 6, 270320, 59378319, 0, 153171, 270320, 59378319);
}

proof fn lemma_rktp64_sum_126()
    ensures
        q_eq(q_dot(seq![q(611, 1891), q(-4617, 7564), q(6041007, 13176488), q(12708836, 22100117), q(-35840000, 62461621), q(6597591, 7972456), q(0, 1)], seq![q(0, 1), q(0, 1), q(0, 1), q(26, 9261), q(12395, 774144), q(5576240, 178134957), q(12280, 153171)]), q(104, 5673)),
        q_valid(q_dot(seq![q(611, 1891), q(-4617, 7564), q(6041007, 13176488), q(12708836, 22100117), q(-35840000, 62461621), q(6597591, 7972456), q(0, 1)], seq![q(0, 1), q(0, 1), q(0, 1), q(26, 9261), q(12395, 774144), q(5576240, 178134957), q(12280, 153171)])),
{
    let x = seq![q(611, 1891), q(-4617, 7564), q(6041007, 13176488), q(12708836, 22100117), q(-35840000, 62461621), q(6597591, 7972456), q(0, 1)];
    let y = seq![q(0, 1), q(0, 1), q(0, 1), q(26, 9261), q(12395, 774144), q(5576240, 178134957), q(12280, 153171)];
    let s = q_hadamard(x, y);
    assert(s.len() == 7);
    lemma_q_hadamard_entry(x, y, 0, 611, 1891, 0, 1);
    lemma_q_hadamard_entry(x, y, 1, -4617, 7564, 0, 1);
    lemma_q_hadamard_entry(x, y, 2, 6041007, 13176488, 0, 1);
    lemma_q_hadamard_entry(x, y, 3, 12708836, 22100117, 26, 9261);
    lemma_q_hadamard_entry(x, y, 4, -35840000, 62461621, 12395, 774144);
    lemma_q_hadamard_entry(x, y, 5, 6597591, 7972456, 5576240, 178134957);
    lemma_q_hadamard_entry(x, y, 6, 0, 1, 12280, 153171);
    assert(q_sum_to(s, 0) == q(0, 1));
    lemma_q_eq_value(0, 1, 0, 1);
    lemma_q_sum_step(s, 0, 0, 1, 0, 1891, 0, 1);
    lemma_q_sum_step(s, 1, 0, 1, 0, 7564, 0, 1);
    lemma_q_sum_step(s, 2, 0, 1, 0, 13176488, 0, 1);
    lemma_q_sum_step(s, 3, 0, 1, 330429736, 204669183537, 74104, 45900243);
    lemma_q_sum_step(s, 4, 74104, 45900243, -444236800000, 48354289127424, -203758, 26907039);
    lemma_q_sum_step(s, 5, -203758, 26907039, 36789750837840, 1420173106744392, 104, 5673);
    lemma_q_sum_step(s, 6, 104, 5673, 0, 153171, 104, 5673);
}

proof fn lemma_rktp64_sum_127()
    ensures
        q_eq(q_dot(seq![q(0, 1), q(0, 1), q(0, 1), q(0, 1), q(0, 1), q(0, 1), q(0, 1)], seq![q(0, 1), q(0, 1), q(0, 1), q(0, 1), q(1943, 172032), q(35960, 2199197), q(69, 1891)]), q(0, 1)),
        q_valid(q_dot(seq![q(0, 1), q(0, 1), q(0, 1), q(0, 1), q(0, 1), q(0, 1), q(0, 1)], seq![q(0, 1), q(0, 1), q(0, 1), q(0, 1), q(1943, 172032), q(35960, 2199197), q(69, 1891)])),
{
    let x = seq![q(0, 1), q(0, 1), q(0, 1), q(0, 1), q(0, 1), q(0, 1), q(0, 1)];
    let y = seq![q(0, 1), q(0, 1), q(0, 1), q(0, 1), q(1943, 172032), q(35960, 2199197), q(69, 1891)];
    let s = q_hadamard(x, y);
    assert(s.len() == 7);
    lemma_q_hadamard_entry(x, y, 0, 0, 1, 0, 1);
    lemma_q_hadamard_entry(x, y, 1, 0, 1, 0, 1);
    lemma_q_hadamard_entry(x, y, 2, 0, 1, 0, 1);
    lemma_q_hadamard_entry(x, y, 3, 0, 1, 0, 1);
    lemma_q_hadamard_entry(x, y, 4, 0, 1, 1943, 172032);
    lemma_q_hadamard_entry(x, y, 5, 0, 1, 35960, 2199197);
    lemma_q_hadamard_entry(x, y, 6, 0, 1, 69, 1891);
    assert(q_sum_to(s, 0) == q(0, 1));
    lemma_q_eq_value(0, 1, 0, 1);
    lemma_q_sum_step(s, 0, 0, 1, 0, 1, 0, 1);
    lemma_q_sum_step(s, 1, 0, 1, 0, 1, 0, 1);
    lemma_q_sum_step(s, 2, 0, 1, 0, 1, 0, 1);
    lemma_q_sum_step(s, 3, 0, 1, 0, 1, 0, 1);
    lemma_q_sum_step(s, 4, 0, 1, 0, 172032, 0, 1);
    lemma_q_sum_step(s, 5, 0, 1, 0, 2199197, 0, 1);
    lemma_q_sum_step(s, 6, 0, 1, 0, 1891, 0, 1);
}

proof fn lemma_rktp64_sum_128()
    ensures
        q_eq(q_dot(seq![q(4, 27), q(0, 1), q(0, 1), q(0, 1), q(0, 1), q(0, 1), q(0, 1)], seq![q(0, 1), q(0, 1), q(0, 1), q(0, 1), q(1943, 172032), q(35960, 2199197), q(69, 1891)]), q(0, 1)),
        q_valid(q_dot(seq![q(4, 27), q(0, 1), q(0, 1), q(0, 1), q(0, 1), q(0, 1), q(0, 1)], seq![q(0, 1), q(0, 1), q(0, 1), q(0, 1), q(1943, 172032), q(35960, 2199197), q(69, 1891)])),
{
    let x = seq![q(4, 27), q(0, 1), q(0, 1), q(0, 1), q(0, 1), q(0, 1), q(0, 1)];
    let y = seq![q(0, 1), q(0, 1), q(0, 1), q(0, 1), q(1943, 172032), q(35960, 2199197), q(69, 1891)];
    let s = q_hadamard(x, y);
    assert(s.len() == 7);
    lemma_q_hadamard_entry(x, y, 0, 4, 27, 0, 1);
    lemma_q_hadamard_entry(x, y, 1, 0, 1, 0, 1);
    lemma_q_hadamard_entry(x, y, 2, 0, 1, 0, 1);
    lemma_q_hadamard_entry(x, y, 3, 0, 1, 0, 1);
    lemma_q_hadamard_entry(x, y, 4, 0, 1, 1943, 172032);
    lemma_q_hadamard_entry(x, y, 5, 0, 1, 35960, 2199197);
    lemma_q_hadamard_entry(x, y, 6, 0, 1, 69, 1891);
    assert(q_sum_to(s, 0) == q(0, 1));
    lemma_q_eq_value(0, 1, 0, 1);
    lemma_q_sum_step(s, 0, 0, 1, 0, 27, 0, 1);
    lemma_q_sum_step(s, 1, 0, 1, 0, 1, 0, 1);
    lemma_q_sum_step(s, 2, 0, 1, 0, 1, 0, 1);
    lemma_q_sum_step(s, 3, 0, 1, 0, 1, 0, 1);
    lemma_q_sum_step(s, 4, 0, 1, 0, 172032, 0, 1);
    lemma_q_sum_step(s, 5, 0, 1, 0, 2199197, 0, 1);
    lemma_q_sum_step(s, 6, 0, 1, 0, 1891, 0, 1);
}

proof fn lemma_rktp64_sum_129()
    ensures
        q_eq(q_dot(seq![q(1, 18), q(1, 6), q(0, 1), q(0, 1), q(0, 1), q(0, 1), q(0, 1)], seq![q(0, 1), q(0, 1), q(0, 1), q(0, 1), q(1943, 172032), q(35960, 2199197), q(69, 1891)]), q(0, 1)),
        q_valid(q_dot(seq![q(1, 18), q(1, 6), q(0, 1), q(0, 1), q(0, 1), q(0, 1), q(0, 1)], seq![q(0, 1), q(0, 1), q(0, 1), q(0, 1), q(1943, 172032), q(35960, 2199197), q(69, 1891)])),
{
    let x = seq![q(1, 18), q(1, 6), q(0, 1), q(0, 1), q(0, 1), q(0, 1), q(0, 1)];
    let y = seq![q(0, 1), q(0, 1), q(0, 1), q(0, 1), q(1943, 172032), q(35960, 2199197), q(69, 1891)];
    let s = q_hadamard(x, y);
    assert(s.len() == 7);
    lemma_q_hadamard_entry(x, y, 0, 1, 18, 0, 1);
    lemma_q_hadamard_entry(x, y, 1, 1, 6, 0, 1);
    lemma_q_hadamard_entry(x, y, 2, 0, 1, 0, 1);
    lemma_q_hadamard_entry(x, y, 3, 0, 1, 0, 1);
    lemma_q_hadamard_entry(x, y, 4, 0, 1, 1943, 172032);
    lemma_q_hadamard_entry(x, y, 5, 0, 1, 35960, 2199197);
    lemma_q_hadamard_entry(x, y, 6, 0, 1, 69, 1891);
    assert(q_sum_to(s, 0) == q(0, 1));
    lemma_q_eq_value(0, 1, 0, 1);
    lemma_q_sum_step(s, 0, 0, 1, 0, 18, 0, 1);
    lemma_q_sum_step(s, 1, 0, 1, 0, 6, 0, 1);
    lemma_q_sum_step(s, 2, 0, 1, 0, 1, 0, 1);
    lemma_q_sum_step(s, 3, 0, 1, 0, 1, 0, 1);
    lemma_q_sum_step(s, 4, 0, 1, 0, 172032, 0, 1);
    lemma_q_sum_step(s, 5, 0, 1, 0, 2199197, 0, 1);
    lemma_q_sum_step(s, 6, 0, 1, 0, 1891, 0, 1);
}

proof fn lemma_rktp64_sum_130()
    ensures
        q_eq(q_dot(seq![q(66, 343), q(-729, 1372), q(1053, 1372), q(0, 1), q(0, 1), q(0, 1), q(0, 1)], seq![q(0, 1), q(0, 1), q(0, 1), q(0, 1), q(1943, 172032), q(35960, 2199197), q(69, 1891)]), q(0, 1)),
        q_valid(q_dot(seq![q(66, 343), q(-729, 1372), q(1053, 1372), q(0, 1), q(0, 1), q(0, 1), q(0, 1)], seq![q(0, 1), q(0, 1), q(0, 1), q(0, 1), q(1943, 172032), q(35960, 2199197), q(69, 1891)])),
{
    let x = seq![q(66, 343), q(-729, 1372), q(1053, 1372), q(0, 1), q(0, 1), q(0, 1), q(0, 1)];
    let y = seq![q(0, 1), q(0, 1), q(0, 1), q(0, 1), q(1943, 172032), q(35960, 2199197), q(69, 1891)];
    let s = q_hadamard(x, y);
    assert(s.len() == 7);
    lemma_q_hadamard_entry(x, y, 0, 66, 343, 0, 1);
    lemma_q_hadamard_entry(x, y, 1, -729, 1372, 0, 1);
    lemma_q_hadamard_entry(x, y, 2, 1053, 1372, 0, 1);
    lemma_q_hadamard_entry(x, y, 3, 0, 1, 0, 1);
    lemma_q_hadamard_entry(x, y, 4, 0, 1, 1943, 172032);
    lemma_q_hadamard_entry(x, y, 5, 0, 1, 35960, 2199197);
    lemma_q_hadamard_entry(x, y, 6, 0, 1, 69, 1891);
    assert(q_sum_to(s, 0) == q(0, 1));
    lemma_q_eq_value(0, 1, 0, 1);
    lemma_q_sum_step(s, 0, 0, 1, 0, 343, 0, 1);
    lemma_q_sum_step(s, 1, 0, 1, 0, 1372, 0, 1);
    lemma_q_sum_step(s, 2, 0, 1, 0, 1372, 0, 1);
    lemma_q_sum_step(s, 3, 0, 1, 0, 1, 0, 1);
    lemma_q_sum_step(s, 4, 0, 1, 0, 172032, 0, 1);
    lemma_q_sum_step(s, 5, 0, 1, 0, 2199197, 0, 1);
    lemma_q_sum_step(s, 6, 0, 1, 0, 1891, 0, 1);
}

proof fn lemma_rktp64_sum_131()
    ensures
        q_eq(q_dot(seq![q(13339, 49152), q(-4617, 16384), q(5427, 53248), q(95207, 159744), q(0, 1), q(0, 1), q(0, 1)], seq![q(0, 1), q(0, 1), q(0, 1), q(0, 1), q(1943, 172032), q(35960, 2199197), q(69, 1891)]), q(0, 1)),
        q_valid(q_dot(seq![q(13339, 49152), q(-4617, 16384), q(5427, 53248), q(95207, 159744), q(0, 1), q(0, 1), q(0, 1)], seq![q(0, 1), q(0, 1), q(0, 1), q(0, 1), q(1943, 172032), q(35960, 2199197), q(69, 1891)])),
{
    let x = seq![q(13339, 49152), q(-4617, 16384), q(5427, 53248), q(95207, 159744), q(0, 1), q(0, 1), q(0, 1)];
    let y = seq![q(0, 1), q(0, 1), q(0, 1), q(0, 1), q(1943, 172032), q(35960, 2199197), q(69, 1891)];
    let s = q_hadamard(x, y);
    assert(s.len() == 7);
    lemma_q_hadamard_entry(x, y, 0, 13339, 49152, 0, 1);
    lemma_q_hadamard_entry(x, y, 1, -4617, 16384, 0, 1);
    lemma_q_hadamard_entry(x, y, 2, 5427, 53248, 0, 1);
    lemma_q_hadamard_entry(x, y, 3, 95207, 159744, 0, 1);
    lemma_q_hadamard_entry(x, y, 4, 0, 1, 1943, 172032);
    lemma_q_hadamard_entry(x, y, 5, 0, 1, 35960, 2199197);
    lemma_q_hadamard_entry(x, y, 6, 0, 1, 69, 1891);
    assert(q_sum_to(s, 0) == q(0, 1));
    lemma_q_eq_value(0, 1, 0, 1);
    lemma_q_sum_step(s, 0, 0, 1, 0, 49152, 0, 1);
    lemma_q_sum_step(s, 1, 0, 1, 0, 16384, 0, 1);
    lemma_q_sum_step(s, 2, 0, 1, 0, 53248, 0, 1);
    lemma_q_sum_step(s, 3, 0, 1, 0, 159744, 0, 1);
    lemma_q_sum_step(s, 4, 0, 1, 0, 172032, 0, 1);
    lemma_q_sum_step(s, 5, 0, 1, 0, 2199197, 0, 1);
    lemma_q_sum_step(s, 6, 0, 1, 0, 1891, 0, 1);
}

proof fn lemma_rktp64_sum_132()
    ensures
        q_eq(q_dot(seq![q(-6935, 57122), q(23085, 48334), q(33363360, 273642941), q(972160, 118442467), q(172687360, 610434253), q(0, 1), q(0, 1)], seq![q(0, 1), q(0, 1), q(0, 1), q(0, 1), q(1943, 172032), q(35960, 2199197), q(69, 1891)]), q(21080, 6597591)),
        q_valid(q_dot(seq![q(-6935, 57122), q(23085, 48334), q(33363360, 273642941), q(972160, 118442467), q(172687360, 610434253), q(0, 1), q(0, 1)], seq![q(0, 1), q(0, 1), q(0, 1), q(0, 1), q(1943, 172032), q(35960, 2199197), q(69, 1891)])),
{
    let x = seq![q(-6935, 57122), q(23085, 48334), q(33363360, 273642941), q(972160, 118442467), q(172687360, 610434253), q(0, 1), q(0, 1)];
    let y = seq![q(0, 1), q(0, 1), q(0, 1), q(0, 1), q(1943, 172032), q(35960, 2199197), q(69, 1891)];
    let s = q_hadamard(x, y);
    assert(s.len() == 7);
    lemma_q_hadamard_entry(x, y, 0, -6935, 57122, 0, 1);
    lemma_q_hadamard_entry(x, y, 1, 23085, 48334, 0, 1);
    lemma_q_hadamard_entry(x, y, 2, 33363360, 273642941, 0, 1);
    lemma_q_hadamard_entry(x, y, 3, 972160, 118442467, 0, 1);
    lemma_q_hadamard_entry(x, y, 4, 172687360, 610434253, 1943, 172032);
    lemma_q_hadamard_entry(x, y, 5, 0, 1, 35960, 2199197);
    lemma_q_hadamard_entry(x, y, 6, 0, 1, 69, 1891);
    assert(q_sum_to(s, 0) == q(0, 1));
    lemma_q_eq_value(0, 1, 0, 1);
    lemma_q_sum_step(s, 0, 0, 1, 0, 57122, 0, 1);
    lemma_q_sum_step(s, 1, 0, 1, 0, 48334, 0, 1);
    lemma_q_sum_step(s, 2, 0, 1, 0, 273642941, 0, 1);
    lemma_q_sum_step(s, 3, 0, 1, 0, 118442467, 0, 1);
    lemma_q_sum_step(s, 4, 0, 1, 335531540480, 105014225412096, 21080, 6597591);
    lemma_q_sum_step(s, 5, 21080, 6597591, 0, 2199197, 21080, 6597591);
    lemma_q_sum_step(s, 6, 21080, 6597591, 0, 1891, 21080, 6597591);
}

proof fn lemma_rktp64_sum_133()
    ensures
        q_eq(q_dot(seq![q(611, 1891), q(-4617, 7564), q(6041007, 13176488), q(12708836, 22100117), q(-35840000, 62461621), q(6597591, 7972456), q(0, 1)], seq![q(0, 1), q(0, 1), q(0, 1), q(0, 1), q(1943, 172032), q(35960, 2199197), q(69, 1891)]), q(40, 5673)),
        q_valid(q_dot(seq![q(611, 1891), q(-4617, 7564), q(6041007, 13176488), q(12708836, 22100117), q(-35840000, 62461621), q(6597591, 7972456), q(0, 1)], seq![q(0, 1), q(0, 1), q(0, 1), q(0, 1), q(1943, 172032), q(35960, 2199197), q(69, 1891)])),
{
    let x = seq![q(611, 1891), q(-4617, 7564), q(6041007, 13176488), q(12708836, 22100117), q(-35840000, 62461621), q(6597591, 7972456), q(0, 1)];
    let y = seq![q(0, 1), q(0, 1), q(0, 1), q(0, 1), q(1943, 172032), q(35960, 2199197), q(69, 1891)];
    let s = q_hadamard(x, y);
    assert(s.len() == 7);
    lemma_q_hadamard_entry(x, y, 0, 611, 1891, 0, 1);
    lemma_q_hadamard_entry(x, y, 1, -4617, 7564, 0, 1);
    lemma_q_hadamard_entry(x, y, 2, 6041007, 13176488, 0, 1);
    lemma_q_hadamard_entry(x, y, 3, 12708836, 22100117, 0, 1);
    lemma_q_hadamard_entry(x, y, 4, -35840000, 62461621, 1943, 172032);
    lemma_q_hadamard_entry(x, y, 5, 6597591, 7972456, 35960, 2199197);
    lemma_q_hadamard_entry(x, y, 6, 0, 1, 69, 1891);
    assert(q_sum_to(s, 0) == q(0, 1));
    lemma_q_eq_value(0, 1, 0, 1);
    lemma_q_sum_step(s, 0, 0, 1, 0, 1891, 0, 1);
    lemma_q_sum_step(s, 1, 0, 1, 0, 7564, 0, 1);
    lemma_q_sum_step(s, 2, 0, 1, 0, 13176488, 0, 1);
    lemma_q_sum_step(s, 3, 0, 1, 0, 22100117, 0, 1);
    lemma_q_sum_step(s, 4, 0, 1, -69637120000, 10745397583872, -625, 96441);
    lemma_q_sum_step(s, 5, -625, 96441, 237249372360, 17533001317832, 40, 5673);
    lemma_q_sum_step(s, 6, 40, 5673, 0, 1891, 40, 5673);
}

proof fn lemma_rktp64_sum_134()
    ensures
        q_eq(q_dot(seq![q(131, 1800), q(0, 1), q(1121931, 3902080), q(319333, 1682928), q(262144, 2477325), q(4084223, 15177600), q(1891, 25200)], seq![q(1, 1), q(1, 1), q(1, 1), q(1, 1), q(1, 1), q(1, 1), q(1, 1)]), q(1, 1)),
        q_valid(q_dot(seq![q(131, 1800), q(0, 1), q(1121931, 3902080), q(319333, 1682928), q(262144, 2477325), q(4084223, 15177600), q(1891, 25200)], seq![q(1, 1), q(1, 1), q(1, 1), q(1, 1), q(1, 1), q(1, 1), q(1, 1)])),
{
    let x = seq![q(131, 1800), q(0, 1), q(1121931, 3902080), q(319333, 1682928), q(262144, 2477325), q(4084223, 15177600), q(1891, 25200)];
    let y = seq![q(1, 1), q(1, 1), q(1, 1), q(1, 1), q(1, 1), q(1, 1), q(1, 1)];
    let s = q_hadamard(x, y);
    assert(s.len() == 7);
    lemma_q_hadamard_entry(x, y, 0, 131, 1800, 1, 1);
    lemma_q_hadamard_entry(x, y, 1, 0, 1, 1, 1);
    lemma_q_hadamard_entry(x, y, 2, 1121931, 3902080, 1, 1);
    lemma_q_hadamard_entry(x, y, 3, 319333, 1682928, 1, 1);
    lemma_q_hadamard_entry(x, y, 4, 262144, 2477325, 1, 1);
    lemma_q_hadamard_entry(x, y, 5, 4084223, 15177600, 1, 1);
    lemma_q_hadamard_entry(x, y, 6, 1891, 25200, 1, 1);
    assert(q_sum_to(s, 0) == q(0, 1));
    lemma_q_eq_value(0, 1, 0, 1);
    lemma_q_sum_step(s, 0, 0, 1, 131, 1800, 131, 1800);
    lemma_q_sum_step(s, 1, 131, 1800, 0, 1, 131, 1800);
    lemma_q_sum_step(s, 2, 131, 1800, 1121931, 3902080, 63266207, 175593600);
    lemma_q_sum_step(s, 3, 63266207, 175593600, 319333, 1682928, 2226403987, 4047657600);
    lemma_q_sum_step(s, 4, 2226403987, 4047657600, 262144, 2477325, 23227061, 35414400);
    lemma_q_sum_step(s, 5, 23227061, 35414400, 4084223, 15177600, 23309, 25200);
    lemma_q_sum_step(s, 6, 23309, 25200, 1891, 25200, 1, 1);
}

proof fn lemma_rktp64_sum_135()
    ensures
        q_eq(q_dot(seq![q(131, 1800), q(0, 1), q(1121931, 3902080), q(319333, 1682928), q(262144, 2477325), q(4084223, 15177600), q(1891, 25200)], seq![q(0, 1), q(4, 27), q(2, 9), q(3, 7), q(11, 16), q(10, 13), q(1, 1)]), q(1, 2)),
        q_valid(q_dot(seq![q(131, 1800), q(0, 1), q(1121931, 3902080), q(319333, 1682928), q(262144, 2477325), q(4084223, 15177600), q(1891, 25200)], seq![q(0, 1), q(4, 27), q(2, 9), q(3, 7), q(11, 16), q(10, 13), q(1, 1)])),
{
    let x = seq![q(131, 1800), q(0, 1), q(1121931, 3902080), q(319333, 1682928), q(262144, 2477325), q(4084223, 15177600), q(1891, 25200)];
    let y = seq![q(0, 1), q(4, 27), q(2, 9), q(3, 7), q(11, 16), q(10, 13), q(1, 1)];
    let s = q_hadamard(x, y);
    assert(s.len() == 7);
    lemma_q_hadamard_entry(x, y, 0, 131, 1800, 0, 1);
    lemma_q_hadamard_entry(x, y, 1, 0, 1, 4, 27);
    lemma_q_hadamard_entry(x, y, 2, 1121931, 3902080, 2, 9);
    lemma_q_hadamard_entry(x, y, 3, 319333, 1682928, 3, 7);
    lemma_q_hadamard_entry(x, y, 4, 262144, 2477325, 11, 16);
    lemma_q_hadamard_entry(x, y, 5, 4084223, 15177600, 10, 13);
    lemma_q_hadamard_entry(x, y, 6, 1891, 25200, 1, 1);
    assert(q_sum_to(s, 0) == q(0, 1));
    lemma_q_eq_value(0, 1, 0, 1);
    lemma_q_sum_step(s, 0, 0, 1, 0, 1800, 0, 1);
    lemma_q_sum_step(s, 1, 0, 1, 0, 27, 0, 1);
    lemma_q_sum_step(s, 2, 0, 1, 2243862, 35118720, 124659, 1951040);
    lemma_q_sum_step(s, 3, 124659, 1951040, 957999, 11780496, 58777811, 404765760);
    lemma_q_sum_step(s, 4, 58777811, 404765760, 2883584, 39637200, 3859529, 17707200);
    lemma_q_sum_step(s, 5, 3859529, 17707200, 40842230, 197308800, 10709, 25200);
    lemma_q_sum_step(s, 6, 10709, 25200, 1891, 25200, 1, 2);
}

proof fn lemma_rktp64_sum_136()
    ensures
        q_eq(q_dot(seq![q(131, 1800), q(0, 1), q(1121931, 3902080), q(319333, 1682928), q(262144, 2477325), q(4084223, 15177600), q(1891, 25200)], seq![q(0, 1), q(16, 729), q(4, 81), q(9, 49), q(121, 256), q(100, 169), q(1, 1)]), q(1, 3)),
        q_valid(q_dot(seq![q(131, 1800), q(0, 1), q(1121931, 3902080), q(319333, 1682928), q(262144, 2477325), q(4084223, 15177600), q(1891, 25200)], seq![q(0, 1), q(16, 729), q(4, 81), q(9, 49), q(121, 256), q(100, 169), q(1, 1)])),
{
    let x = seq![q(131, 1800), q(0, 1), q(1121931, 3902080), q(319333, 1682928), q(262144, 2477325), q(4084223, 15177600), q(1891, 25200)];
    let y = seq![q(0, 1), q(16, 729), q(4, 81), q(9, 49), q(121, 256), q(100, 169), q(1, 1)];
    let s = q_hadamard(x, y);
    assert(s.len() == 7);
    lemma_q_hadamard_entry(x, y, 0, 131, 1800, 0, 1);
    lemma_q_hadamard_entry(x, y, 1, 0, 1, 16, 729);
    lemma_q_hadamard_entry(x, y, 2, 1121931, 3902080, 4, 81);
    lemma_q_hadamard_entry(x, y, 3, 319333, 1682928, 9, 49);
    lemma_q_hadamard_entry(x, y, 4, 262144, 2477325, 121, 256);
    lemma_q_hadamard_entry(x, y, 5, 4084223, 15177600, 100, 169);
    lemma_q_hadamard_entry(x, y, 6, 1891, 25200, 1, 1);
    assert(q_sum_to(s, 0) == q(0, 1));
    lemma_q_eq_value(0, 1, 0, 1);
    lemma_q_sum_step(s, 0, 0, 1, 0, 1800, 0, 1);
    lemma_q_sum_step(s, 1, 0, 1, 0, 729, 0, 1);
    lemma_q_sum_step(s, 2, 0, 1, 4487724, 316068480, 13851, 975520);
    lemma_q_sum_step(s, 3, 13851, 975520, 2873997, 82463472, 3308983, 67460960);
    lemma_q_sum_step(s, 4, 3308983, 67460960, 31719424, 634195200, 877087, 8853600);
    lemma_q_sum_step(s, 5, 877087, 8853600, 408422300, 2565014400, 6509, 25200);
    lemma_q_sum_step(s, 6, 6509, 25200, 1891, 25200, 1, 3);
}

proof fn lemma_rktp64_sum_137()
    ensures
        q_eq(q_dot(seq![q(131, 1800), q(0, 1), q(1121931, 3902080), q(319333, 1682928), q(262144, 2477325), q(4084223, 15177600), q(1891, 25200)], seq![q(0, 1), q(0, 1), q(2, 81), q(9, 98), q(121, 512), q(50, 169), q(1, 2)]), q(1, 6)),
        q_valid(q_dot(seq![q(131, 1800), q(0, 1), q(1121931, 3902080), q(319333, 1682928), q(262144, 2477325), q(4084223, 15177600), q(1891, 25200)], seq![q(0, 1), q(0, 1), q(2, 81), q(9, 98), q(121, 512), q(50, 169), q(1, 2)])),
{
    let x = seq![q(131, 1800), q(0, 1), q(1121931, 3902080), q(319333, 1682928), q(262144, 2477325), q(4084223, 15177600), q(1891, 25200)];
    let y = seq![q(0, 1), q(0, 1), q(2, 81), q(9, 98), q(121, 512), q(50, 169), q(1, 2)];
    let s = q_hadamard(x, y);
    assert(s.len() == 7);
    lemma_q_hadamard_entry(x, y, 0, 131, 1800, 0, 1);
    lemma_q_hadamard_entry(x, y, 1, 0, 1, 0, 1);
    lemma_q_hadamard_entry(x, y, 2, 1121931, 3902080, 2, 81);
    lemma_q_hadamard_entry(x, y, 3, 319333, 1682928, 9, 98);
    lemma_q_hadamard_entry(x, y, 4, 262144, 2477325, 121, 512);
    lemma_q_hadamard_entry(x, y, 5, 4084223, 15177600, 50, 169);
    lemma_q_hadamard_entry(x, y, 6, 1891, 25200, 1, 2);
    assert(q_sum_to(s, 0) == q(0, 1));
    lemma_q_eq_value(0, 1, 0, 1);
    lemma_q_sum_step(s, 0, 0, 1, 0, 1800, 0, 1);
    lemma_q_sum_step(s, 1, 0, 1, 0, 1, 0, 1);
    lemma_q_sum_step(s, 2, 0, 1, 2243862, 316068480, 13851, 1951040);
    lemma_q_sum_step(s, 3, 13851, 1951040, 2873997, 164926944, 3308983, 134921920);
    lemma_q_sum_step(s, 4, 3308983, 134921920, 31719424, 1268390400, 877087, 17707200);
    lemma_q_sum_step(s, 5, 877087, 17707200, 204211150, 2565014400, 6509, 50400);
    lemma_q_sum_step(s, 6, 6509, 50400, 1891, 50400, 1, 6);
}

proof fn lemma_rktp64_sum_138()
    ensures
        q_eq(q_dot(seq![q(131, 1800), q(0, 1), q(1121931, 3902080), q(319333, 1682928), q(262144, 2477325), q(4084223, 15177600), q(1891, 25200)], seq![q(0, 1), q(64, 19683), q(8, 729), q(27, 343), q(1331, 4096), q(1000, 2197), q(1, 1)]), q(1, 4)),
        q_valid(q_dot(seq![q(131, 1800), q(0, 1), q(1121931, 3902080), q(319333, 1682928), q(262144, 2477325), q(4084223, 15177600), q(1891, 25200)], seq![q(0, 1), q(64, 19683), q(8, 729), q(27, 343), q(1331, 4096), q(1000, 2197), q(1, 1)])),
{
    let x = seq![q(131, 1800), q(0, 1), q(1121931, 3902080), q(319333, 1682928), q(262144, 2477325), q(4084223, 15177600), q(1891, 25200)];
    let y = seq![q(0, 1), q(64, 19683), q(8, 729), q(27, 343), q(1331, 4096), q(1000, 2197), q(1, 1)];
    let s = q_hadamard(x, y);
    assert(s.len() == 7);
    lemma_q_hadamard_entry(x, y, 0, 131, 1800, 0, 1);
    lemma_q_hadamard_entry(x, y, 1, 0, 1, 64, 19683);
    lemma_q_hadamard_entry(x, y, 2, 1121931, 3902080, 8, 729);
    lemma_q_hadamard_entry(x, y, 3, 319333, 1682928, 27, 343);
    lemma_q_hadamard_entry(x, y, 4, 262144, 2477325, 1331, 4096);
    lemma_q_hadamard_entry(x, y, 5, 4084223, 15177600, 1000, 2197);
    lemma_q_hadamard_entry(x, y, 6, 1891, 25200, 1, 1);
    assert(q_sum_to(s, 0) == q(0, 1));
    lemma_q_eq_value(0, 1, 0, 1);
    lemma_q_sum_step(s, 0, 0, 1, 0, 1800, 0, 1);
    lemma_q_sum_step(s, 1, 0, 1, 0, 19683, 0, 1);
    lemma_q_sum_step(s, 2, 0, 1, 8975448, 2844616320, 1539, 487760);
    lemma_q_sum_step(s, 3, 1539, 487760, 8621991, 577244304, 305121, 16865240);
    lemma_q_sum_step(s, 4, 305121, 16865240, 348913664, 10147123200, 116153, 2213400);
    lemma_q_sum_step(s, 5, 116153, 2213400, 4084223000, 33345187200, 4409, 25200);
    lemma_q_sum_step(s, 6, 4409, 25200, 1891, 25200, 1, 4);
}

proof fn lemma_rktp64_sum_139()
    ensures
        q_eq(q_dot(seq![q(131, 1800), q(0, 1), q(1121931, 3902080), q(319333, 1682928), q(262144, 2477325), q(4084223, 15177600), q(1891, 25200)], seq![q(0, 1), q(0, 1), q(4, 729), q(27, 686), q(1331, 8192), q(500, 2197), q(1, 2)]), q(1, 8)),
        q_valid(q_dot(seq![q(131, 1800), q(0, 1), q(1121931, 3902080), q(319333, 1682928), q(262144, 2477325), q(4084223, 15177600), q(1891, 25200)], seq![q(0, 1), q(0, 1), q(4, 729), q(27, 686), q(1331, 8192), q(500, 2197), q(1, 2)])),
{
    let x = seq![q(131, 1800), q(0, 1), q(1121931, 3902080), q(319333, 1682928), q(262144, 2477325), q(4084223, 15177600), q(1891, 25200)];
    let y = seq![q(0, 1), q(0, 1), q(4, 729), q(27, 686), q(1331, 8192), q(500, 2197), q(1, 2)];
    let s = q_hadamard(x, y);
    assert(s.len() == 7);
    lemma_q_hadamard_entry(x, y, 0, 131, 1800, 0, 1);
    lemma_q_hadamard_entry(x, y, 1, 0, 1, 0, 1);
    lemma_q_hadamard_entry(x, y, 2, 1121931, 3902080, 4, 729);
    lemma_q_hadamard_entry(x, y, 3, 319333, 1682928, 27, 686);
    lemma_q_hadamard_entry(x, y, 4, 262144, 2477325, 1331, 8192);
    lemma_q_hadamard_entry(x, y, 5, 4084223, 15177600, 500, 2197);
    lemma_q_hadamard_entry(x, y, 6, 1891, 25200, 1, 2);
    assert(q_sum_to(s, 0) == q(0, 1));
    lemma_q_eq_value(0, 1, 0, 1);
    lemma_q_sum_step(s, 0, 0, 1, 0, 1800, 0, 1);
    lemma_q_sum_step(s, 1, 0, 1, 0, 1, 0, 1);
    lemma_q_sum_step(s, 2, 0, 1, 4487724, 2844616320, 1539, 975520);
    lemma_q_sum_step(s, 3, 1539, 975520, 8621991, 1154488608, 305121, 33730480);
    lemma_q_sum_step(s, 4, 305121, 33730480, 348913664, 20294246400, 116153, 4426800);
    lemma_q_sum_step(s, 5, 116153, 4426800, 2042111500, 33345187200, 4409, 50400);
    lemma_q_sum_step(s, 6, 4409, 50400, 1891, 50400, 1, 8);
}

proof fn lemma_rktp64_sum_140()
    ensures
        q_eq(q_dot(seq![q(131, 1800), q(0, 1), q(1121931, 3902080), q(319333, 1682928), q(262144, 2477325), q(4084223, 15177600), q(1891, 25200)], seq![q(0, 1), q(0, 1), q(8, 2187), q(9, 343), q(1331, 12288), q(1000, 6591), q(1, 3)]), q(1, 12)),
        q_valid(q_dot(seq![q(131, 1800), q(0, 1), q(1121931, 3902080), q(319333, 1682928), q(262144, 2477325), q(4084223, 15177600), q(1891, 25200)], seq![q(0, 1), q(0, 1), q(8, 2187), q(9, 343), q(1331, 12288), q(1000, 6591), q(1, 3)])),
{
    let x = seq![q(131, 1800), q(0, 1), q(1121931, 3902080), q(319333, 1682928), q(262144, 2477325), q(4084223, 15177600), q(1891, 25200)];
    let y = seq![q(0, 1), q(0, 1), q(8, 2187), q(9, 343), q(1331, 12288), q(1000, 6591), q(1, 3)];
    let s = q_hadamard(x, y);
    assert(s.len() == 7);
    lemma_q_hadamard_entry(x, y, 0, 131, 1800, 0, 1);
    lemma_q_hadamard_entry(x, y, 1, 0, 1, 0, 1);
    lemma_q_hadamard_entry(x, y, 2, 1121931, 3902080, 8, 2187);
    lemma_q_hadamard_entry(x, y, 3, 319333, 1682928, 9, 343);
    lemma_q_hadamard_entry(x, y, 4, 262144, 2477325, 1331, 12288);
    lemma_q_hadamard_entry(x, y, 5, 4084223, 15177600, 1000, 6591);
    lemma_q_hadamard_entry(x, y, 6, 1891, 25200, 1, 3);
    assert(q_sum_to(s, 0) == q(0, 1));
    lemma_q_eq_value(0, 1, 0, 1);
    lemma_q_sum_step(s, 0, 0, 1, 0, 1800, 0, 1);
    lemma_q_sum_step(s, 1, 0, 1, 0, 1, 0, 1);
    lemma_q_sum_step(s, 2, 0, 1, 8975448, 8533848960, 513, 487760);
    lemma_q_sum_step(s, 3, 513, 487760, 2873997, 577244304, 101707, 16865240);
    lemma_q_sum_step(s, 4, 101707, 16865240, 348913664, 30441369600, 116153, 6640200);
    lemma_q_sum_step(s, 5, 116153, 6640200, 4084223000, 100035561600, 4409, 75600);
    lemma_q_sum_step(s, 6, 4409, 75600, 1891, 75600, 1, 12);
}

proof fn lemma_rktp64_sum_141()
    ensures
        q_eq(q_dot(seq![q(131, 1800), q(0, 1), q(1121931, 3902080), q(319333, 1682928), q(262144, 2477325), q(4084223, 15177600), q(1891, 25200)], seq![q(0, 1), q(0, 1), q(0, 1), q(13, 686), q(469, 8192), q(5120, 72501), q(1967, 11346)]), q(1, 24)),
        q_valid(q_dot(seq![q(131, 1800), q(0, 1), q(1121931, 3902080), q(319333, 1682928), q(262144, 2477325), q(4084223, 15177600), q(1891, 25200)], seq![q(0, 1), q(0, 1), q(0, 1), q(13, 686), q(469, 8192), q(5120, 72501), q(1967, 11346)])),
{
    let x = seq![q(131, 1800), q(0, 1), q(1121931, 3902080), q(319333, 1682928), q(262144, 2477325), q(4084223, 15177600), q(1891, 25200)];
    let y = seq![q(0, 1), q(0, 1), q(0, 1), q(13, 686), q(469, 8192), q(5120, 72501), q(1967, 11346)];
    let s = q_hadamard(x, y);
    assert(s.len() == 7);
    lemma_q_hadamard_entry(x, y, 0, 131, 1800, 0, 1);
    lemma_q_hadamard_entry(x, y, 1, 0, 1, 0, 1);
    lemma_q_hadamard_entry(x, y, 2, 1121931, 3902080, 0, 1);
    lemma_q_hadamard_entry(x, y, 3, 319333, 1682928, 13, 686);
    lemma_q_hadamard_entry(x, y, 4, 262144, 2477325, 469, 8192);
    lemma_q_hadamard_entry(x, y, 5, 4084223, 15177600, 5120, 72501);
    lemma_q_hadamard_entry(x, y, 6, 1891, 25200, 1967, 11346);
    assert(q_sum_to(s, 0) == q(0, 1));
    lemma_q_eq_value(0, 1, 0, 1);
    lemma_q_sum_step(s, 0, 0, 1, 0, 1800, 0, 1);
    lemma_q_sum_step(s, 1, 0, 1, 0, 1, 0, 1);
    lemma_q_sum_step(s, 2, 0, 1, 0, 3902080, 0, 1);
    lemma_q_sum_step(s, 3, 0, 1, 4151329, 1154488608, 931, 258912);
    lemma_q_sum_step(s, 4, 931, 258912, 122945536, 20294246400, 36631, 3794400);
    lemma_q_sum_step(s, 5, 36631, 3794400, 20911221760, 1100391177600, 619, 21600);
    lemma_q_sum_step(s, 6, 619, 21600, 3719597, 285919200, 1, 24);
}

proof fn lemma_rktp64_sum_142()
    ensures
        q_eq(q_dot(seq![q(131, 1800), q(0, 1), q(1121931, 3902080), q(319333, 1682928), q(262144, 2477325), q(4084223, 15177600), q(1891, 25200)], seq![q(0, 1), q(256, 531441), q(16, 6561), q(81, 2401), q(14641, 65536), q(10000, 28561), q(1, 1)]), q(1, 5)),
        q_valid(q_dot(seq![q(131, 1800), q(0, 1), q(1121931, 3902080), q(319333, 1682928), q(262144, 2477325), q(4084223, 15177600), q(1891, 25200)], seq![q(0, 1), q(256, 531441), q(16, 6561), q(81, 2401), q(14641, 65536), q(10000, 28561), q(1, 1)])),
{
    let x = seq![q(131, 1800), q(0, 1), q(1121931, 3902080), q(319333, 1682928), q(262144, 2477325), q(4084223, 15177600), q(1891, 25200)];
    let y = seq![q(0, 1), q(256, 531441), q(16, 6561), q(81, 2401), q(14641, 65536), q(10000, 28561), q(1, 1)];
    let s = q_hadamard(x, y);
    assert(s.len() == 7);
    lemma_q_hadamard_entry(x, y, 0, 131, 1800, 0, 1);
    lemma_q_hadamard_entry(x, y, 1, 0, 1, 256, 531441);
    lemma_q_hadamard_entry(x, y, 2, 1121931, 3902080, 16, 6561);
    lemma_q_hadamard_entry(x, y, 3, 319333, 1682928, 81, 2401);
    lemma_q_hadamard_entry(x, y, 4, 262144, 2477325, 14641, 65536);
    lemma_q_hadamard_entry(x, y, 5, 4084223, 15177600, 10000, 28561);
    lemma_q_hadamard_entry(x, y, 6, 1891, 25200, 1, 1);
    assert(q_sum_to(s, 0) == q(0, 1));
    lemma_q_eq_value(0, 1, 0, 1);
    lemma_q_sum_step(s, 0, 0, 1, 0, 1800, 0, 1);
    lemma_q_sum_step(s, 1, 0, 1, 0, 531441, 0, 1);
    lemma_q_sum_step(s, 2, 0, 1, 17950896, 25601546880, 171, 243880);
    lemma_q_sum_step(s, 3, 171, 243880, 25865973, 4040710128, 239571, 33730480);
    lemma_q_sum_step(s, 4, 239571, 33730480, 3838050304, 162353971200, 136091, 4426800);
    lemma_q_sum_step(s, 5, 136091, 4426800, 40842230000, 433487433600, 3149, 25200);
    lemma_q_sum_step(s, 6, 3149, 25200, 1891, 25200, 1, 5);
}

proof fn lemma_rktp64_sum_143()
    ensures
        q_eq(q_dot(seq![q(131, 1800), q(0, 1), q(1121931, 3902080), q(319333, 1682928), q(262144, 2477325), q(4084223, 15177600), q(1891, 25200)], seq![q(0, 1), q(0, 1), q(8, 6561), q(81, 4802), q(14641, 131072), q(5000, 28561), q(1, 2)]), q(1, 10)),
        q_valid(q_dot(seq![q(131, 1800), q(0, 1), q(1121931, 3902080), q(319333, 1682928), q(262144, 2477325), q(4084223, 15177600), q(1891, 25200)], seq![q(0, 1), q(0, 1), q(8, 6561), q(81, 4802), q(14641, 131072), q(5000, 28561), q(1, 2)])),
{
    let x = seq![q(131, 1800), q(0, 1), q(1121931, 3902080), q(319333, 1682928), q(262144, 2477325), q(4084223, 15177600), q(1891, 25200)];
    let y = seq![q(0, 1), q(0, 1), q(8, 6561), q(81, 4802), q(14641, 131072), q(5000, 28561), q(1, 2)];
    let s = q_hadamard(x, y);
    assert(s.len() == 7);
    lemma_q_hadamard_entry(x, y, 0, 131, 1800, 0, 1);
    lemma_q_hadamard_entry(x, y, 1, 0, 1, 0, 1);
    lemma_q_hadamard_entry(x, y, 2, 1121931, 3902080, 8, 6561);
    lemma_q_hadamard_entry(x, y, 3, 319333, 1682928, 81, 4802);
    lemma_q_hadamard_entry(x, y, 4, 262144, 2477325, 14641, 131072);
    lemma_q_hadamard_entry(x, y, 5, 4084223, 15177600, 5000, 28561);
    lemma_q_hadamard_entry(x, y, 6, 1891, 25200, 1, 2);
    assert(q_sum_to(s, 0) == q(0, 1));
    lemma_q_eq_value(0, 1, 0, 1);
    lemma_q_sum_step(s, 0, 0, 1, 0, 1800, 0, 1);
    lemma_q_sum_step(s, 1, 0, 1, 0, 1, 0, 1);
    lemma_q_sum_step(s, 2, 0, 1, 8975448, 25601546880, 171, 487760);
    lemma_q_sum_step(s, 3, 171, 487760, 25865973, 8081420256, 239571, 67460960);
    lemma_q_sum_step(s, 4, 239571, 67460960, 3838050304, 324707942400, 136091, 8853600);
    lemma_q_sum_step(s, 5, 136091, 8853600, 20421115000, 433487433600, 3149, 50400);
    lemma_q_sum_step(s, 6, 3149, 50400, 1891, 50400, 1, 10);
}

proof fn lemma_rktp64_sum_144()
    ensures
        q_eq(q_dot(seq![q(131, 1800), q(0, 1), q(1121931, 3902080), q(319333, 1682928), q(262144, 2477325), q(4084223, 15177600), q(1891, 25200)], seq![q(0, 1), q(0, 1), q(16, 19683), q(27, 2401), q(14641, 196608), q(10000, 85683), q(1, 3)]), q(1, 15)),
        q_valid(q_dot(seq![q(131, 1800), q(0, 1), q(1121931, 3902080), q(319333, 1682928), q(262144, 2477325), q(4084223, 15177600), q(1891, 25200)], seq![q(0, 1), q(0, 1), q(16, 19683), q(27, 2401), q(14641, 196608), q(10000, 85683), q(1, 3)])),
{
    let x = seq![q(131, 1800), q(0, 1), q(1121931, 3902080), q(319333, 1682928), q(262144, 2477325), q(4084223, 15177600), q(1891, 25200)];
    let y = seq![q(0, 1), q(0, 1), q(16, 19683), q(27, 2401), q(14641, 196608), q(10000, 85683), q(1, 3)];
    let s = q_hadamard(x, y);
    assert(s.len() == 7);
    lemma_q_hadamard_entry(x, y, 0, 131, 1800, 0, 1);
    lemma_q_hadamard_entry(x, y, 1, 0, 1, 0, 1);
    lemma_q_hadamard_entry(x, y, 2, 1121931, 3902080, 16, 19683);
    lemma_q_hadamard_entry(x, y, 3, 319333, 1682928, 27, 2401);
    lemma_q_hadamard_entry(x, y, 4, 262144, 2477325, 14641, 196608);
    lemma_q_hadamard_entry(x, y, 5, 4084223, 15177600, 10000, 85683);
    lemma_q_hadamard_entry(x, y, 6, 1891, 25200, 1, 3);
    assert(q_sum_to(s, 0) == q(0, 1));
    lemma_q_eq_value(0, 1, 0, 1);
    lemma_q_sum_step(s, 0, 0, 1, 0, 1800, 0, 1);
    lemma_q_sum_step(s, 1, 0, 1, 0, 1, 0, 1);
    lemma_q_sum_step(s, 2, 0, 1, 17950896, 76804640640, 57, 243880);
    lemma_q_sum_step(s, 3, 57, 243880, 8621991, 4040710128, 79857, 33730480);
    lemma_q_sum_step(s, 4, 79857, 33730480, 3838050304, 487061913600, 136091, 13280400);
    lemma_q_sum_step(s, 5, 136091, 13280400, 40842230000, 1300462300800, 3149, 75600);
    lemma_q_sum_step(s, 6, 3149, 75600, 1891, 75600, 1, 15);
}

proof fn lemma_rktp64_sum_145()
    ensures
        q_eq(q_dot(seq![q(131, 1800), q(0, 1), q(1121931, 3902080), q(319333, 1682928), q(262144, 2477325), q(4084223, 15177600), q(1891, 25200)], seq![q(0, 1), q(0, 1), q(0, 1), q(39, 4802), q(5159, 131072), q(51200, 942513), q(1967, 11346)]), q(1, 30)),
        q_valid(q_dot(seq![q(131, 1800), q(0, 1), q(1121931, 3902080), q(319333, 1682928), q(262144, 2477325), q(4084223, 15177600), q(1891, 25200)], seq![q(0, 1), q(0, 1), q(0, 1), q(39, 4802), q(5159, 131072), q(51200, 942513), q(1967, 11346)])),
{
    let x = seq![q(131, 1800), q(0, 1), q(1121931, 3902080), q(319333, 1682928), q(262144, 2477325), q(4084223, 15177600), q(1891, 25200)];
    let y = seq![q(0, 1), q(0, 1), q(0, 1), q(39, 4802), q(5159, 131072), q(51200, 942513), q(1967, 11346)];
    let s = q_hadamard(x, y);
    assert(s.len() == 7);
    lemma_q_hadamard_entry(x, y, 0, 131, 1800, 0, 1);
    lemma_q_hadamard_entry(x, y, 1, 0, 1, 0, 1);
    lemma_q_hadamard_entry(x, y, 2, 1121931, 3902080, 0, 1);
    lemma_q_hadamard_entry(x, y, 3, 319333, 1682928, 39, 4802);
    lemma_q_hadamard_entry(x, y, 4, 262144, 2477325, 5159, 131072);
    lemma_q_hadamard_entry(x, y, 5, 4084223, 15177600, 51200, 942513);
    lemma_q_hadamard_entry(x, y, 6, 1891, 25200, 1967, 11346);
    assert(q_sum_to(s, 0) == q(0, 1));
    lemma_q_eq_value(0, 1, 0, 1);
    lemma_q_sum_step(s, 0, 0, 1, 0, 1800, 0, 1);
    lemma_q_sum_step(s, 1, 0, 1, 0, 1, 0, 1);
    lemma_q_sum_step(s, 2, 0, 1, 0, 3902080, 0, 1);
    lemma_q_sum_step(s, 3, 0, 1, 12453987, 8081420256, 133, 86304);
    lemma_q_sum_step(s, 4, 133, 86304, 1352400896, 324707942400, 7217, 1264800);
    lemma_q_sum_step(s, 5, 7217, 1264800, 209112217600, 14305085308800, 439, 21600);
    lemma_q_sum_step(s, 6, 439, 21600, 3719597, 285919200, 1, 30);
}

proof fn lemma_rktp64_sum_146()
    ensures
        q_eq(q_dot(seq![q(131, 1800), q(0, 1), q(1121931, 3902080), q(319333, 1682928), q(262144, 2477325), q(4084223, 15177600), q(1891, 25200)], seq![q(0, 1), q(0, 1), q(4, 6561), q(81, 9604), q(14641, 262144), q(2500, 28561), q(1, 4)]), q(1, 20)),
        q_valid(q_dot(seq![q(131, 1800), q(0, 1), q(1121931, 3902080), q(319333, 1682928), q(262144, 2477325), q(4084223, 15177600), q(1891, 25200)], seq![q(0, 1), q(0, 1), q(4, 6561), q(81, 9604), q(14641, 262144), q(2500, 28561), q(1, 4)])),
{
    let x = seq![q(131, 1800), q(0, 1), q(1121931, 3902080), q(319333, 1682928), q(262144, 2477325), q(4084223, 15177600), q(1891, 25200)];
    let y = seq![q(0, 1), q(0, 1), q(4, 6561), q(81, 9604), q(14641, 262144), q(2500, 28561), q(1, 4)];
    let s = q_hadamard(x, y);
    assert(s.len() == 7);
    lemma_q_hadamard_entry(x, y, 0, 131, 1800, 0, 1);
    lemma_q_hadamard_entry(x, y, 1, 0, 1, 0, 1);
    lemma_q_hadamard_entry(x, y, 2, 1121931, 3902080, 4, 6561);
    lemma_q_hadamard_entry(x, y, 3, 319333, 1682928, 81, 9604);
    lemma_q_hadamard_entry(x, y, 4, 262144, 2477325, 14641, 262144);
    lemma_q_hadamard_entry(x, y, 5, 4084223, 15177600, 2500, 28561);
    lemma_q_hadamard_entry(x, y, 6, 1891, 25200, 1, 4);
    assert(q_sum_to(s, 0) == q(0, 1));
    lemma_q_eq_value(0, 1, 0, 1);
    lemma_q_sum_step(s, 0, 0, 1, 0, 1800, 0, 1);
    lemma_q_sum_step(s, 1, 0, 1, 0, 1, 0, 1);
    lemma_q_sum_step(s, 2, 0, 1, 4487724, 25601546880, 171, 975520);
    lemma_q_sum_step(s, 3, 171, 975520, 25865973, 16162840512, 239571, 134921920);
    lemma_q_sum_step(s, 4, 239571, 134921920, 3838050304, 649415884800, 136091, 17707200);
    lemma_q_sum_step(s, 5, 136091, 17707200, 10210557500, 433487433600, 3149, 100800);
    lemma_q_sum_step(s, 6, 3149, 100800, 1891, 100800, 1, 20);
}

proof fn lemma_rktp64_sum_147()
    ensures
        q_eq(q_dot(seq![q(131, 1800), q(0, 1), q(1121931, 3902080), q(319333, 1682928), q(262144, 2477325), q(4084223, 15177600), q(1891, 25200)], seq![q(0, 1), q(0, 1), q(32, 59049), q(62, 9261), q(109427, 2322432), q(17005360, 178134957), q(36536, 153171)]), q(1, 20)),
        q_valid(q_dot(seq![q(131, 1800), q(0, 1), q(1121931, 3902080), q(319333, 1682928), q(262144, 2477325), q(4084223, 15177600), q(1891, 25200)], seq![q(0, 1), q(0, 1), q(32, 59049), q(62, 9261), q(109427, 2322432), q(17005360, 178134957), q(36536, 153171)])),
{
    let x = seq![q(131, 1800), q(0, 1), q(1121931, 3902080), q(319333, 1682928), q(262144, 2477325), q(4084223, 15177600), q(1891, 25200)];
    let y = seq![q(0, 1), q(0, 1), q(32, 59049), q(62, 9261), q(109427, 2322432), q(17005360, 178134957), q(36536, 153171)];
    let s = q_hadamard(x, y);
    assert(s.len() == 7);
    lemma_q_hadamard_entry(x, y, 0, 131, 1800, 0, 1);
    lemma_q_hadamard_entry(x, y, 1, 0, 1, 0, 1);
    lemma_q_hadamard_entry(x, y, 2, 1121931, 3902080, 32, 59049);
    lemma_q_hadamard_entry(x, y, 3, 319333, 1682928, 62, 9261);
    lemma_q_hadamard_entry(x, y, 4, 262144, 2477325, 109427, 2322432);
    lemma_q_hadamard_entry(x, y, 5, 4084223, 15177600, 17005360, 178134957);
    lemma_q_hadamard_entry(x, y, 6, 1891, 25200, 36536, 153171);
    assert(q_sum_to(s, 0) == q(0, 1));
    lemma_q_eq_value(0, 1, 0, 1);
    lemma_q_sum_step(s, 0, 0, 1, 0, 1800, 0, 1);
    lemma_q_sum_step(s, 1, 0, 1, 0, 1, 0, 1);
    lemma_q_sum_step(s, 2, 0, 1, 35901792, 230413921920, 19, 121940);
    lemma_q_sum_step(s, 3, 19, 121940, 19798646, 15585596208, 188537, 132201720);
    lemma_q_sum_step(s, 4, 188537, 132201720, 28685631488, 5753418854400, 12361, 1927800);
    lemma_q_sum_step(s, 5, 12361, 1927800, 69453682435280, 2703661123363200, 16381, 510300);
    lemma_q_sum_step(s, 6, 16381, 510300, 69089576, 3859909200, 1, 20);
}

proof fn lemma_rktp64_sum_148()
    ensures
        q_eq(q_dot(seq![q(131, 1800), q(0, 1), q(1121931, 3902080), q(319333, 1682928), q(262144, 2477325), q(4084223, 15177600), q(1891, 25200)], seq![q(0, 1), q(0, 1), q(0, 1), q(13, 3087), q(12395, 516096), q(2788120, 59378319), q(6140, 51057)]), q(1, 40)),
        q_valid(q_dot(seq![q(131, 1800), q(0, 1), q(1121931, 3902080), q(319333, 1682928), q(262144, 2477325), q(4084223, 15177600), q(1891, 25200)], seq![q(0, 1), q(0, 1), q(0, 1), q(13, 3087), q(12395, 516096), q(2788120, 59378319), q(6140, 51057)])),
{
    let x = seq![q(131, 1800), q(0, 1), q(1121931, 3902080), q(319333, 1682928), q(262144, 2477325), q(4084223, 15177600), q(1891, 25200)];
    let y = seq![q(0, 1), q(0, 1), q(0, 1), q(13, 3087), q(12395, 516096), q(2788120, 59378319), q(6140, 51057)];
    let s = q_hadamard(x, y);
    assert(s.len() == 7);
    lemma_q_hadamard_entry(x, y, 0, 131, 1800, 0, 1);
    lemma_q_hadamard_entry(x, y, 1, 0, 1, 0, 1);
    lemma_q_hadamard_entry(x, y, 2, 1121931, 3902080, 0, 1);
    lemma_q_hadamard_entry(x, y, 3, 319333, 1682928, 13, 3087);
    lemma_q_hadamard_entry(x, y, 4, 262144, 2477325, 12395, 516096);
    lemma_q_hadamard_entry(x, y, 5, 4084223, 15177600, 2788120, 59378319);
    lemma_q_hadamard_entry(x, y, 6, 1891, 25200, 6140, 51057);
    assert(q_sum_to(s, 0) == q(0, 1));
    lemma_q_eq_value(0, 1, 0, 1);
    lemma_q_sum_step(s, 0, 0, 1, 0, 1800, 0, 1);
    lemma_q_sum_step(s, 1, 0, 1, 0, 1, 0, 1);
    lemma_q_sum_step(s, 2, 0, 1, 0, 3902080, 0, 1);
    lemma_q_sum_step(s, 3, 0, 1, 4151329, 5195198736, 931, 1165104);
    lemma_q_sum_step(s, 4, 931, 1165104, 3249274880, 1278537523200, 79853, 23904720);
    lemma_q_sum_step(s, 5, 79853, 23904720, 11387303830760, 901220374454400, 1087, 68040);
    lemma_q_sum_step(s, 6, 1087, 68040, 11610740, 1286636400, 1, 40);
}

proof fn lemma_rktp64_sum_149()
    ensures
        q_eq(q_dot(seq![q(131, 1800), q(0, 1), q(1121931, 3902080), q(319333, 1682928), q(262144, 2477325), q(4084223, 15177600), q(1891, 25200)], seq![q(0, 1), q(0, 1), q(0, 1), q(26, 9261), q(12395, 774144), q(5576240, 178134957), q(12280, 153171)]), q(1, 60)),
        q_valid(q_dot(seq![q(131, 1800), q(0, 1), q(1121931, 3902080), q(319333, 1682928), q(262144, 2477325), q(4084223, 15177600), q(1891, 25200)], seq![q(0, 1), q(0, 1), q(0, 1), q(26, 9261), q(12395, 774144), q(5576240, 178134957), q(12280, 153171)])),
{
    let x = seq![q(131, 1800), q(0, 1), q(1121931, 3902080), q(319333, 1682928), q(262144, 2477325), q(4084223, 15177600), q(1891, 25200)];
    let y = seq![q(0, 1), q(0, 1), q(0, 1), q(26, 9261), q(12395, 774144), q(5576240, 178134957), q(12280, 153171)];
    let s = q_hadamard(x, y);
    assert(s.len() == 7);
    lemma_q_hadamard_entry(x, y, 0, 131, 1800, 0, 1);
    lemma_q_hadamard_entry(x, y, 1, 0, 1, 0, 1);
    lemma_q_hadamard_entry(x, y, 2, 1121931, 3902080, 0, 1);
    lemma_q_hadamard_entry(x, y, 3, 319333, 1682928, 26, 9261);
    lemma_q_hadamard_entry(x, y, 4, 262144, 2477325, 12395, 774144);
    lemma_q_hadamard_entry(x, y, 5, 4084223, 15177600, 5576240, 178134957);
    lemma_q_hadamard_entry(x, y, 6, 1891, 25200, 12280, 153171);
    assert(q_sum_to(s, 0) == q(0, 1));
    lemma_q_eq_value(0, 1, 0, 1);
    lemma_q_sum_step(s, 0, 0, 1, 0, 1800, 0, 1);
    lemma_q_sum_step(s, 1, 0, 1, 0, 1, 0, 1);
    lemma_q_sum_step(s, 2, 0, 1, 0, 3902080, 0, 1);
    lemma_q_sum_step(s, 3, 0, 1, 8302658, 15585596208, 931, 1747656);
    lemma_q_sum_step(s, 4, 931, 1747656, 3249274880, 1917806284800, 79853, 35857080);
    lemma_q_sum_step(s, 5, 79853, 35857080, 22774607661520, 2703661123363200, 1087, 102060);
    lemma_q_sum_step(s, 6, 1087, 102060, 23221480, 3859909200, 1, 60);
}

proof fn lemma_rktp64_sum_150()
    ensures
        q_eq(q_dot(seq![q(131, 1800), q(0, 1), q(1121931, 3902080), q(319333, 1682928), q(262144, 2477325), q(4084223, 15177600), q(1891, 25200)], seq![q(0, 1), q(0, 1), q(0, 1), q(0, 1), q(1943, 172032), q(35960, 2199197), q(69, 1891)]), q(1, 120)),
        q_valid(q_dot(seq![q(131, 1800), q(0, 1), q(1121931, 3902080), q(319333, 1682928), q(262144, 2477325), q(4084223, 15177600), q(1891, 25200)], seq![q(0, 1), q(0, 1), q(0, 1), q(0, 1), q(1943, 172032), q(35960, 2199197), q(69, 1891)])),
{
    let x = seq![q(131, 1800), q(0, 1), q(1121931, 3902080), q(319333, 1682928), q(262144, 2477325), q(4084223, 15177600), q(1891, 25200)];
    let y = seq![q(0, 1), q(0, 1), q(0, 1), q(0, 1), q(1943, 172032), q(35960, 2199197), q(69, 1891)];
    let s = q_hadamard(x, y);
    assert(s.len() == 7);
    lemma_q_hadamard_entry(x, y, 0, 131, 1800, 0, 1);
    lemma_q_hadamard_entry(x, y, 1, 0, 1, 0, 1);
    lemma_q_hadamard_entry(x, y, 2, 1121931, 3902080, 0, 1);
    lemma_q_hadamard_entry(x, y, 3, 319333, 1682928, 0, 1);
    lemma_q_hadamard_entry(x, y, 4, 262144, 2477325, 1943, 172032);
    lemma_q_hadamard_entry(x, y, 5, 4084223, 15177600, 35960, 2199197);
    lemma_q_hadamard_entry(x, y, 6, 1891, 25200, 69, 1891);
    assert(q_sum_to(s, 0) == q(0, 1));
    lemma_q_eq_value(0, 1, 0, 1);
    lemma_q_sum_step(s, 0, 0, 1, 0, 1800, 0, 1);
    lemma_q_sum_step(s, 1, 0, 1, 0, 1, 0, 1);
    lemma_q_sum_step(s, 2, 0, 1, 0, 3902080, 0, 1);
    lemma_q_sum_step(s, 3, 0, 1, 0, 1682928, 0, 1);
    lemma_q_sum_step(s, 4, 0, 1, 509345792, 426179174400, 32, 26775);
    lemma_q_sum_step(s, 5, 32, 26775, 146868659080, 33378532387200, 47, 8400);
    lemma_q_sum_step(s, 6, 47, 8400, 130479, 47653200, 1, 120);
}

proof fn lemma_rktp64_sum_151()
    ensures
        q_eq(q_dot(seq![q(131, 1800), q(0, 1), q(1121931, 3902080), q(319333, 1682928), q(262144, 2477325), q(4084223, 15177600), q(1891, 25200)], seq![q(0, 1), q(1024, 14348907), q(32, 59049), q(243, 16807), q(161051, 1048576), q(100000, 371293), q(1, 1)]), q(1, 6)),
        q_valid(q_dot(seq![q(131, 1800), q(0, 1), q(1121931, 3902080), q(319333, 1682928), q(262144, 2477325), q(4084223, 15177600), q(1891, 25200)], seq![q(0, 1), q(1024, 14348907), q(32, 59049), q(243, 16807), q(161051, 1048576), q(100000, 371293), q(1, 1)])),
{
    let x = seq![q(131, 1800), q(0, 1), q(1121931, 3902080), q(319333, 1682928), q(262144, 2477325), q(4084223, 15177600), q(1891, 25200)];
    let y = seq![q(0, 1), q(1024, 14348907), q(32, 59049), q(243, 16807), q(161051, 1048576), q(100000, 371293), q(1, 1)];
    let s = q_hadamard(x, y);
    assert(s.len() == 7);
    lemma_q_hadamard_entry(x, y, 0, 131, 1800, 0, 1);
    lemma_q_hadamard_entry(x, y, 1, 0, 1, 1024, 14348907);
    lemma_q_hadamard_entry(x, y, 2, 1121931, 3902080, 32, 59049);
    lemma_q_hadamard_entry(x, y, 3, 319333, 1682928, 243, 16807);
    lemma_q_hadamard_entry(x, y, 4, 262144, 2477325, 161051, 1048576);
    lemma_q_hadamard_entry(x, y, 5, 4084223, 15177600, 100000, 371293);
    lemma_q_hadamard_entry(x, y, 6, 1891, 25200, 1, 1);
    assert(q_sum_to(s, 0) == q(0, 1));
    lemma_q_eq_value(0, 1, 0, 1);
    lemma_q_sum_step(s, 0, 0, 1, 0, 1800, 0, 1);
    lemma_q_sum_step(s, 1, 0, 1, 0, 14348907, 0, 1);
    lemma_q_sum_step(s, 2, 0, 1, 35901792, 230413921920, 19, 121940);
    lemma_q_sum_step(s, 3, 19, 121940, 77597919, 28284970896, 97793, 33730480);
    lemma_q_sum_step(s, 4, 97793, 33730480, 42218553344, 2597663539200, 84781, 4426800);
    lemma_q_sum_step(s, 5, 84781, 4426800, 408422300000, 5635336636800, 2309, 25200);
    lemma_q_sum_step(s, 6, 2309, 25200, 1891, 25200, 1, 6);
}

proof fn lemma_rktp64_sum_152()
    ensures
        q_eq(q_dot(seq![q(131, 1800), q(0, 1), q(1121931, 3902080), q(319333, 1682928), q(262144, 2477325), q(4084223, 15177600), q(1891, 25200)], seq![q(0, 1), q(0, 1), q(16, 59049), q(243, 33614), q(161051, 2097152), q(50000, 371293), q(1, 2)]), q(1, 12)),
        q_valid(q_dot(seq![q(131, 1800), q(0, 1), q(1121931, 3902080), q(319333, 1682928), q(262144, 2477325), q(4084223, 15177600), q(1891, 25200)], seq![q(0, 1), q(0, 1), q(16, 59049), q(243, 33614), q(161051, 2097152), q(50000, 371293), q(1, 2)])),
{
    let x = seq![q(131, 1800), q(0, 1), q(1121931, 3902080), q(319333, 1682928), q(262144, 2477325), q(4084223, 15177600), q(1891, 25200)];
    let y = seq![q(0, 1), q(0, 1), q(16, 59049), q(243, 33614), q(161051, 2097152), q(50000, 371293), q(1, 2)];
    let s = q_hadamard(x, y);
    assert(s.len() == 7);
    lemma_q_hadamard_entry(x, y, 0, 131, 1800, 0, 1);
    lemma_q_hadamard_entry(x, y, 1, 0, 1, 0, 1);
    lemma_q_hadamard_entry(x, y, 2, 1121931, 3902080, 16, 59049);
    lemma_q_hadamard_entry(x, y, 3, 319333, 1682928, 243, 33614);
    lemma_q_hadamard_entry(x, y, 4, 262144, 2477325, 161051, 2097152);
    lemma_q_hadamard_entry(x, y, 5, 4084223, 15177600, 50000, 371293);
    lemma_q_hadamard_entry(x, y, 6, 1891, 25200, 1, 2);
    assert(q_sum_to(s, 0) == q(0, 1));
    lemma_q_eq_value(0, 1, 0, 1);
    lemma_q_sum_step(s, 0, 0, 1, 0, 1800, 0, 1);
    lemma_q_sum_step(s, 1, 0, 1, 0, 1, 0, 1);
    lemma_q_sum_step(s, 2, 0, 1, 17950896, 230413921920, 19, 243880);
    lemma_q_sum_step(s, 3, 19, 243880, 77597919, 56569941792, 97793, 67460960);
    lemma_q_sum_step(s, 4, 97793, 67460960, 42218553344, 5195327078400, 84781, 8853600);
    lemma_q_sum_step(s, 5, 84781, 8853600, 204211150000, 5635336636800, 2309, 50400);
    lemma_q_sum_step(s, 6, 2309, 50400, 1891, 50400, 1, 12);
}

proof fn lemma_rktp64_sum_153()
    ensures
        q_eq(q_dot(seq![q(131, 1800), q(0, 1), q(1121931, 3902080), q(319333, 1682928), q(262144, 2477325), q(4084223, 15177600), q(1891, 25200)], seq![q(0, 1), q(0, 1), q(32, 177147), q(81, 16807), q(161051, 3145728), q(100000, 1113879), q(1, 3)]), q(1, 18)),
        q_valid(q_dot(seq![q(131, 1800), q(0, 1), q(1121931, 3902080), q(319333, 1682928), q(262144, 2477325), q(4084223, 15177600), q(1891, 25200)], seq![q(0, 1), q(0, 1), q(32, 177147), q(81, 16807), q(161051, 3145728), q(100000, 1113879), q(1, 3)])),
{
    let x = seq![q(131, 1800), q(0, 1), q(1121931, 3902080), q(319333, 1682928), q(262144, 2477325), q(4084223, 15177600), q(1891, 25200)];
    let y = seq![q(0, 1), q(0, 1), q(32, 177147), q(81, 16807), q(161051, 3145728), q(100000, 1113879), q(1, 3)];
    let s = q_hadamard(x, y);
    assert(s.len() == 7);
    lemma_q_hadamard_entry(x, y, 0, 131, 1800, 0, 1);
    lemma_q_hadamard_entry(x, y, 1, 0, 1, 0, 1);
    lemma_q_hadamard_entry(x, y, 2, 1121931, 3902080, 32, 177147);
    lemma_q_hadamard_entry(x, y, 3, 319333, 1682928, 81, 16807);
    lemma_q_hadamard_entry(x, y, 4, 262144, 2477325, 161051, 3145728);
    lemma_q_hadamard_entry(x, y, 5, 4084223, 15177600, 100000, 1113879);
    lemma_q_hadamard_entry(x, y, 6, 1891, 25200, 1, 3);
    assert(q_sum_to(s, 0) == q(0, 1));
    lemma_q_eq_value(0, 1, 0, 1);
    lemma_q_sum_step(s, 0, 0, 1, 0, 1800, 0, 1);
    lemma_q_sum_step(s, 1, 0, 1, 0, 1, 0, 1);
    lemma_q_sum_step(s, 2, 0, 1, 35901792, 691241765760, 19, 365820);
    lemma_q_sum_step(s, 3, 19, 365820, 25865973, 28284970896, 97793, 101191440);
    lemma_q_sum_step(s, 4, 97793, 101191440, 42218553344, 7792990617600, 84781, 13280400);
    lemma_q_sum_step(s, 5, 84781, 13280400, 408422300000, 16906009910400, 2309, 75600);
    lemma_q_sum_step(s, 6, 2309, 75600, 1891, 75600, 1, 18);
}

proof fn lemma_rktp64_sum_154()
    ensures
        q_eq(q_dot(seq![q(131, 1800), q(0, 1), q(1121931, 3902080), q(319333, 1682928), q(262144, 2477325), q(4084223, 15177600), q(1891, 25200)], seq![q(0, 1), q(0, 1), q(0, 1), q(117, 33614), q(56749, 2097152), q(512000, 12252669), q(1967, 11346)]), q(1, 36)),
        q_valid(q_dot(seq![q(131, 1800), q(0, 1), q(1121931, 3902080), q(319333, 1682928), q(262144, 2477325), q(4084223, 15177600), q(1891, 25200)], seq![q(0, 1), q(0, 1), q(0, 1), q(117, 33614), q(56749, 2097152), q(512000, 12252669), q(1967, 11346)])),
{
    let x = seq![q(131, 1800), q(0, 1), q(1121931, 3902080), q(319333, 1682928), q(262144, 2477325), q(4084223, 15177600), q(1891, 25200)];
    let y = seq![q(0, 1), q(0, 1), q(0, 1), q(117, 33614), q(56749, 2097152), q(512000, 12252669), q(1967, 11346)];
    let s = q_hadamard(x, y);
    assert(s.len() == 7);
    lemma_q_hadamard_entry(x, y, 0, 131, 1800, 0, 1);
    lemma_q_hadamard_entry(x, y, 1, 0, 1, 0, 1);
    lemma_q_hadamard_entry(x, y, 2, 1121931, 3902080, 0, 1);
    lemma_q_hadamard_entry(x, y, 3, 319333, 1682928, 117, 33614);
    lemma_q_hadamard_entry(x, y, 4, 262144, 2477325, 56749, 2097152);
    lemma_q_hadamard_entry(x, y, 5, 4084223, 15177600, 512000, 12252669);
    lemma_q_hadamard_entry(x, y, 6, 1891, 25200, 1967, 11346);
    assert(q_sum_to(s, 0) == q(0, 1));
    lemma_q_eq_value(0, 1, 0, 1);
    lemma_q_sum_step(s, 0, 0, 1, 0, 1800, 0, 1);
    lemma_q_sum_step(s, 1, 0, 1, 0, 1, 0, 1);
    lemma_q_sum_step(s, 2, 0, 1, 0, 3902080, 0, 1);
    lemma_q_sum_step(s, 3, 0, 1, 37361961, 56569941792, 19, 28768);
    lemma_q_sum_step(s, 4, 19, 28768, 14876409856, 5195327078400, 4457, 1264800);
    lemma_q_sum_step(s, 5, 4457, 1264800, 2091122176000, 185966109014400, 319, 21600);
    lemma_q_sum_step(s, 6, 319, 21600, 3719597, 285919200, 1, 36);
}

proof fn lemma_rktp64_sum_155()
    ensures
        q_eq(q_dot(seq![q(131, 1800), q(0, 1), q(1121931, 3902080), q(319333, 1682928), q(262144, 2477325), q(4084223, 15177600), q(1891, 25200)], seq![q(0, 1), q(0, 1), q(8, 59049), q(243, 67228), q(161051, 4194304), q(25000, 371293), q(1, 4)]), q(1, 24)),
        q_valid(q_dot(seq![q(131, 1800), q(0, 1), q(1121931, 3902080), q(319333, 1682928), q(262144, 2477325), q(4084223, 15177600), q(1891, 25200)], seq![q(0, 1), q(0, 1), q(8, 59049), q(243, 67228), q(161051, 4194304), q(25000, 371293), q(1, 4)])),
{
    let x = seq![q(131, 1800), q(0, 1), q(1121931, 3902080), q(319333, 1682928), q(262144, 2477325), q(4084223, 15177600), q(1891, 25200)];
    let y = seq![q(0, 1), q(0, 1), q(8, 59049), q(243, 67228), q(161051, 4194304), q(25000, 371293), q(1, 4)];
    let s = q_hadamard(x, y);
    assert(s.len() == 7);
    lemma_q_hadamard_entry(x, y, 0, 131, 1800, 0, 1);
    lemma_q_hadamard_entry(x, y, 1, 0, 1, 0, 1);
    lemma_q_hadamard_entry(x, y, 2, 1121931, 3902080, 8, 59049);
    lemma_q_hadamard_entry(x, y, 3, 319333, 1682928, 243, 67228);
    lemma_q_hadamard_entry(x, y, 4, 262144, 2477325, 161051, 4194304);
    lemma_q_hadamard_entry(x, y, 5, 4084223, 15177600, 25000, 371293);
    lemma_q_hadamard_entry(x, y, 6, 1891, 25200, 1, 4);
    assert(q_sum_to(s, 0) == q(0, 1));
    lemma_q_eq_value(0, 1, 0, 1);
    lemma_q_sum_step(s, 0, 0, 1, 0, 1800, 0, 1);
    lemma_q_sum_step(s, 1, 0, 1, 0, 1, 0, 1);
    lemma_q_sum_step(s, 2, 0, 1, 8975448, 230413921920, 19, 487760);
    lemma_q_sum_step(s, 3, 19, 487760, 77597919, 113139883584, 97793, 134921920);
    lemma_q_sum_step(s, 4, 97793, 134921920, 42218553344, 10390654156800, 84781, 17707200);
    lemma_q_sum_step(s, 5, 84781, 17707200, 102105575000, 5635336636800, 2309, 100800);
    lemma_q_sum_step(s, 6, 2309, 100800, 1891, 100800, 1, 24);
}

proof fn lemma_rktp64_sum_156()
    ensures
        q_eq(q_dot(seq![q(131, 1800), q(0, 1), q(1121931, 3902080), q(319333, 1682928), q(262144, 2477325), q(4084223, 15177600), q(1891, 25200)], seq![q(0, 1), q(0, 1), q(64, 531441), q(62, 21609), q(1203697, 37158912), q(170053600, 2315754441), q(36536, 153171)]), q(1, 24)),
        q_valid(q_dot(seq![q(131, 1800), q(0, 1), q(1121931, 3902080), q(319333, 1682928), q(262144, 2477325), q(4084223, 15177600), q(1891, 25200)], seq![q(0, 1), q(0, 1), q(64, 531441), q(62, 21609), q(1203697, 37158912), q(170053600, 2315754441), q(36536, 153171)])),
{
    let x = seq![q(131, 1800), q(0, 1), q(1121931, 3902080), q(319333, 1682928), q(262144, 2477325), q(4084223, 15177600), q(1891, 25200)];
    let y = seq![q(0, 1), q(0, 1), q(64, 531441), q(62, 21609), q(1203697, 37158912), q(170053600, 2315754441), q(36536, 153171)];
    let s = q_hadamard(x, y);
    assert(s.len() == 7);
    lemma_q_hadamard_entry(x, y, 0, 131, 1800, 0, 1);
    lemma_q_hadamard_entry(x, y, 1, 0, 1, 0, 1);
    lemma_q_hadamard_entry(x, y, 2, 1121931, 3902080, 64, 531441);
    lemma_q_hadamard_entry(x, y, 3, 319333, 1682928, 62, 21609);
    lemma_q_hadamard_entry(x, y, 4, 262144, 2477325, 1203697, 37158912);
    lemma_q_hadamard_entry(x, y, 5, 4084223, 15177600, 170053600, 2315754441);
    lemma_q_hadamard_entry(x, y, 6, 1891, 25200, 36536, 153171);
    assert(q_sum_to(s, 0) == q(0, 1));
    lemma_q_eq_value(0, 1, 0, 1);
    lemma_q_sum_step(s, 0, 0, 1, 0, 1800, 0, 1);
    lemma_q_sum_step(s, 1, 0, 1, 0, 1, 0, 1);
    lemma_q_sum_step(s, 2, 0, 1, 71803584, 2073725297280, 19, 548730);
    lemma_q_sum_step(s, 3, 19, 548730, 19798646, 36366391152, 25517, 44067240);
    lemma_q_sum_step(s, 4, 25517, 44067240, 315541946368, 92054701670400, 23173, 5783400);
    lemma_q_sum_step(s, 5, 23173, 5783400, 694536824352800, 35147594603721600, 24257, 1020600);
    lemma_q_sum_step(s, 6, 24257, 1020600, 69089576, 3859909200, 1, 24);
}

proof fn lemma_rktp64_sum_157()
    ensures
        q_eq(q_dot(seq![q(131, 1800), q(0, 1), q(1121931, 3902080), q(319333, 1682928), q(262144, 2477325), q(4084223, 15177600), q(1891, 25200)], seq![q(0, 1), q(0, 1), q(0, 1), q(13, 7203), q(136345, 8257536), q(27881200, 771918147), q(6140, 51057)]), q(1, 48)),
        q_valid(q_dot(seq![q(131, 1800), q(0, 1), q(1121931, 3902080), q(319333, 1682928), q(262144, 2477325), q(4084223, 15177600), q(1891, 25200)], seq![q(0, 1), q(0, 1), q(0, 1), q(13, 7203), q(136345, 8257536), q(27881200, 771918147), q(6140, 51057)])),
{
    let x = seq![q(131, 1800), q(0, 1), q(1121931, 3902080), q(319333, 1682928), q(262144, 2477325), q(4084223, 15177600), q(1891, 25200)];
    let y = seq![q(0, 1), q(0, 1), q(0, 1), q(13, 7203), q(136345, 8257536), q(27881200, 771918147), q(6140, 51057)];
    let s = q_hadamard(x, y);
    assert(s.len() == 7);
    lemma_q_hadamard_entry(x, y, 0, 131, 1800, 0, 1);
    lemma_q_hadamard_entry(x, y, 1, 0, 1, 0, 1);
    lemma_q_hadamard_entry(x, y, 2, 1121931, 3902080, 0, 1);
    lemma_q_hadamard_entry(x, y, 3, 319333, 1682928, 13, 7203);
    lemma_q_hadamard_entry(x, y, 4, 262144, 2477325, 136345, 8257536);
    lemma_q_hadamard_entry(x, y, 5, 4084223, 15177600, 27881200, 771918147);
    lemma_q_hadamard_entry(x, y, 6, 1891, 25200, 6140, 51057);
    assert(q_sum_to(s, 0) == q(0, 1));
    lemma_q_eq_value(0, 1, 0, 1);
    lemma_q_sum_step(s, 0, 0, 1, 0, 1800, 0, 1);
    lemma_q_sum_step(s, 1, 0, 1, 0, 1, 0, 1);
    lemma_q_sum_step(s, 2, 0, 1, 0, 3902080, 0, 1);
    lemma_q_sum_step(s, 3, 0, 1, 4151329, 12122130384, 133, 388368);
    lemma_q_sum_step(s, 4, 133, 388368, 35742023680, 20456600371200, 16651, 7968240);
    lemma_q_sum_step(s, 5, 16651, 7968240, 113873038307600, 11715864867907200, 1607, 136080);
    lemma_q_sum_step(s, 6, 1607, 136080, 11610740, 1286636400, 1, 48);
}

proof fn lemma_rktp64_sum_158()
    ensures
        q_eq(q_dot(seq![q(131, 1800), q(0, 1), q(1121931, 3902080), q(319333, 1682928), q(262144, 2477325), q(4084223, 15177600), q(1891, 25200)], seq![q(0, 1), q(0, 1), q(0, 1), q(26, 21609), q(136345, 12386304), q(55762400, 2315754441), q(12280, 153171)]), q(1, 72)),
        q_valid(q_dot(seq![q(131, 1800), q(0, 1), q(1121931, 3902080), q(319333, 1682928), q(262144, 2477325), q(4084223, 15177600), q(1891, 25200)], seq![q(0, 1), q(0, 1), q(0, 1), q(26, 21609), q(136345, 12386304), q(55762400, 2315754441), q(12280, 153171)])),
{
    let x = seq![q(131, 1800), q(0, 1), q(1121931, 3902080), q(319333, 1682928), q(262144, 2477325), q(4084223, 15177600), q(1891, 25200)];
    let y = seq![q(0, 1), q(0, 1), q(0, 1), q(26, 21609), q(136345, 12386304), q(55762400, 2315754441), q(12280, 153171)];
    let s = q_hadamard(x, y);
    assert(s.len() == 7);
    lemma_q_hadamard_entry(x, y, 0, 131, 1800, 0, 1);
    lemma_q_hadamard_entry(x, y, 1, 0, 1, 0, 1);
    lemma_q_hadamard_entry(x, y, 2, 1121931, 3902080, 0, 1);
    lemma_q_hadamard_entry(x, y, 3, 319333, 1682928, 26, 21609);
    lemma_q_hadamard_entry(x, y, 4, 262144, 2477325, 136345, 12386304);
    lemma_q_hadamard_entry(x, y, 5, 4084223, 15177600, 55762400, 2315754441);
    lemma_q_hadamard_entry(x, y, 6, 1891, 25200, 12280, 153171);
    assert(q_sum_to(s, 0) == q(0, 1));
    lemma_q_eq_value(0, 1, 0, 1);
    lemma_q_sum_step(s, 0, 0, 1, 0, 1800, 0, 1);
    lemma_q_sum_step(s, 1, 0, 1, 0, 1, 0, 1);
    lemma_q_sum_step(s, 2, 0, 1, 0, 3902080, 0, 1);
    lemma_q_sum_step(s, 3, 0, 1, 8302658, 36366391152, 133, 582552);
    lemma_q_sum_step(s, 4, 133, 582552, 35742023680, 30684900556800, 16651, 11952360);
    lemma_q_sum_step(s, 5, 16651, 11952360, 227746076615200, 35147594603721600, 1607, 204120);
    lemma_q_sum_step(s, 6, 1607, 204120, 23221480, 3859909200, 1, 72);
}

proof fn lemma_rktp64_sum_159()
    ensures
        q_eq(q_dot(seq![q(131, 1800), q(0, 1), q(1121931, 3902080), q(319333, 1682928), q(262144, 2477325), q(4084223, 15177600), q(1891, 25200)], seq![q(0, 1), q(0, 1), q(0, 1), q(0, 1), q(21373, 2752512), q(359600, 28589561), q(69, 1891)]), q(1, 144)),
        q_valid(q_dot(seq![q(131, 1800), q(0, 1), q(1121931, 3902080), q(319333, 1682928), q(262144, 2477325), q(4084223, 15177600), q(1891, 25200)], seq![q(0, 1), q(0, 1), q(0, 1), q(0, 1), q(21373, 2752512), q(359600, 28589561), q(69, 1891)])),
{
    let x = seq![q(131, 1800), q(0, 1), q(1121931, 3902080), q(319333, 1682928), q(262144, 2477325), q(4084223, 15177600), q(1891, 25200)];
    let y = seq![q(0, 1), q(0, 1), q(0, 1), q(0, 1), q(21373, 2752512), q(359600, 28589561), q(69, 1891)];
    let s = q_hadamard(x, y);
    assert(s.len() == 7);
    lemma_q_hadamard_entry(x, y, 0, 131, 1800, 0, 1);
    lemma_q_hadamard_entry(x, y, 1, 0, 1, 0, 1);
    lemma_q_hadamard_entry(x, y, 2, 1121931, 3902080, 0, 1);
    lemma_q_hadamard_entry(x, y, 3, 319333, 1682928, 0, 1);
    lemma_q_hadamard_entry(x, y, 4, 262144, 2477325, 21373, 2752512);
    lemma_q_hadamard_entry(x, y, 5, 4084223, 15177600, 359600, 28589561);
    lemma_q_hadamard_entry(x, y, 6, 1891, 25200, 69, 1891);
    assert(q_sum_to(s, 0) == q(0, 1));
    lemma_q_eq_value(0, 1, 0, 1);
    lemma_q_sum_step(s, 0, 0, 1, 0, 1800, 0, 1);
    lemma_q_sum_step(s, 1, 0, 1, 0, 1, 0, 1);
    lemma_q_sum_step(s, 2, 0, 1, 0, 3902080, 0, 1);
    lemma_q_sum_step(s, 3, 0, 1, 0, 1682928, 0, 1);
    lemma_q_sum_step(s, 4, 0, 1, 5602803712, 6818866790400, 22, 26775);
    lemma_q_sum_step(s, 5, 22, 26775, 1468686590800, 433920921033600, 53, 12600);
    lemma_q_sum_step(s, 6, 53, 12600, 130479, 47653200, 1, 144);
}

proof fn lemma_rktp64_sum_160()
    ensures
        q_eq(q_dot(seq![q(131, 1800), q(0, 1), q(1121931, 3902080), q(319333, 1682928), q(262144, 2477325), q(4084223, 15177600), q(1891, 25200)], seq![q(0, 1), q(0, 1), q(16, 177147), q(81, 33614), q(161051, 6291456), q(50000, 1113879), q(1, 6)]), q(1, 36)),
        q_valid(q_dot(seq![q(131, 1800), q(0, 1), q(1121931, 3902080), q(319333, 1682928), q(262144, 2477325), q(4084223, 15177600), q(1891, 25200)], seq![q(0, 1), q(0, 1), q(16, 177147), q(81, 33614), q(161051, 6291456), q(50000, 1113879), q(1, 6)])),
{
    let x = seq![q(131, 1800), q(0, 1), q(1121931, 3902080), q(319333, 1682928), q(262144, 2477325), q(4084223, 15177600), q(1891, 25200)];
    let y = seq![q(0, 1), q(0, 1), q(16, 177147), q(81, 33614), q(161051, 6291456), q(50000, 1113879), q(1, 6)];
    let s = q_hadamard(x, y);
    assert(s.len() == 7);
    lemma_q_hadamard_entry(x, y, 0, 131, 1800, 0, 1);
    lemma_q_hadamard_entry(x, y, 1, 0, 1, 0, 1);
    lemma_q_hadamard_entry(x, y, 2, 1121931, 3902080, 16, 177147);
    lemma_q_hadamard_entry(x, y, 3, 319333, 1682928, 81, 33614);
    lemma_q_hadamard_entry(x, y, 4, 262144, 2477325, 161051, 6291456);
    lemma_q_hadamard_entry(x, y, 5, 4084223, 15177600, 50000, 1113879);
    lemma_q_hadamard_entry(x, y, 6, 1891, 25200, 1, 6);
    assert(q_sum_to(s, 0) == q(0, 1));
    lemma_q_eq_value(0, 1, 0, 1);
    lemma_q_sum_step(s, 0, 0, 1, 0, 1800, 0, 1);
    lemma_q_sum_step(s, 1, 0, 1, 0, 1, 0, 1);
    lemma_q_sum_step(s, 2, 0, 1, 17950896, 691241765760, 19, 731640);
    lemma_q_sum_step(s, 3, 19, 731640, 25865973, 56569941792, 97793, 202382880);
    lemma_q_sum_step(s, 4, 97793, 202382880, 42218553344, 15585981235200, 84781, 26560800);
    lemma_q_sum_step(s, 5, 84781, 26560800, 204211150000, 16906009910400, 2309, 151200);
    lemma_q_sum_step(s, 6, 2309, 151200, 1891, 151200, 1, 36);
}

proof fn lemma_rktp64_sum_161()
    ensures
        q_eq(q_dot(seq![q(131, 1800), q(0, 1), q(1121931, 3902080), q(319333, 1682928), q(262144, 2477325), q(4084223, 15177600), q(1891, 25200)], seq![q(0, 1), q(0, 1), q(0, 1), q(117, 67228), q(56749, 4194304), q(256000, 12252669), q(1967, 22692)]), q(1, 72)),
        q_valid(q_dot(seq![q(131, 1800), q(0, 1), q(1121931, 3902080), q(319333, 1682928), q(262144, 2477325), q(4084223, 15177600), q(1891, 25200)], seq![q(0, 1), q(0, 1), q(0, 1), q(117, 67228), q(56749, 4194304), q(256000, 12252669), q(1967, 22692)])),
{
    let x = seq![q(131, 1800), q(0, 1), q(1121931, 3902080), q(319333, 1682928), q(262144, 2477325), q(4084223, 15177600), q(1891, 25200)];
    let y = seq![q(0, 1), q(0, 1), q(0, 1), q(117, 67228), q(56749, 4194304), q(256000, 12252669), q(1967, 22692)];
    let s = q_hadamard(x, y);
    assert(s.len() == 7);
    lemma_q_hadamard_entry(x, y, 0, 131, 1800, 0, 1);
    lemma_q_hadamard_entry(x, y, 1, 0, 1, 0, 1);
    lemma_q_hadamard_entry(x, y, 2, 1121931, 3902080, 0, 1);
    lemma_q_hadamard_entry(x, y, 3, 319333, 1682928, 117, 67228);
    lemma_q_hadamard_entry(x, y, 4, 262144, 2477325, 56749, 4194304);
    lemma_q_hadamard_entry(x, y, 5, 4084223, 15177600, 256000, 12252669);
    lemma_q_hadamard_entry(x, y, 6, 1891, 25200, 1967, 22692);
    assert(q_sum_to(s, 0) == q(0, 1));
    lemma_q_eq_value(0, 1, 0, 1);
    lemma_q_sum_step(s, 0, 0, 1, 0, 1800, 0, 1);
    lemma_q_sum_step(s, 1, 0, 1, 0, 1, 0, 1);
    lemma_q_sum_step(s, 2, 0, 1, 0, 3902080, 0, 1);
    lemma_q_sum_step(s, 3, 0, 1, 37361961, 113139883584, 19, 57536);
    lemma_q_sum_step(s, 4, 19, 57536, 14876409856, 10390654156800, 4457, 2529600);
    lemma_q_sum_step(s, 5, 4457, 2529600, 1045561088000, 185966109014400, 319, 43200);
    lemma_q_sum_step(s, 6, 319, 43200, 3719597, 571838400, 1, 72);
}

proof fn lemma_rktp64_sum_162()
    ensures
        q_eq(q_dot(seq![q(131, 1800), q(0, 1), q(1121931, 3902080), q(319333, 1682928), q(262144, 2477325), q(4084223, 15177600), q(1891, 25200)], seq![q(0, 1), q(0, 1), q(128, 1594323), q(404, 250047), q(8875067, 438939648), q(2154842575, 33667506873), q(42100243, 231594552)]), q(1, 30)),
        q_valid(q_dot(seq![q(131, 1800), q(0, 1), q(1121931, 3902080), q(319333, 1682928), q(262144, 2477325), q(4084223, 15177600), q(1891, 25200)], seq![q(0, 1), q(0, 1), q(128, 1594323), q(404, 250047), q(8875067, 438939648), q(2154842575, 33667506873), q(42100243, 231594552)])),
{
    let x = seq![q(131, 1800), q(0, 1), q(1121931, 3902080), q(319333, 1682928), q(262144, 2477325), q(4084223, 15177600), q(1891, 25200)];
    let y = seq![q(0, 1), q(0, 1), q(128, 1594323), q(404, 250047), q(8875067, 438939648), q(2154842575, 33667506873), q(42100243, 231594552)];
    let s = q_hadamard(x, y);
    assert(s.len() == 7);
    lemma_q_hadamard_entry(x, y, 0, 131, 1800, 0, 1);
    lemma_q_hadamard_entry(x, y, 1, 0, 1, 0, 1);
    lemma_q_hadamard_entry(x, y, 2, 1121931, 3902080, 128, 1594323);
    lemma_q_hadamard_entry(x, y, 3, 319333, 1682928, 404, 250047);
    lemma_q_hadamard_entry(x, y, 4, 262144, 2477325, 8875067, 438939648);
    lemma_q_hadamard_entry(x, y, 5, 4084223, 15177600, 2154842575, 33667506873);
    lemma_q_hadamard_entry(x, y, 6, 1891, 25200, 42100243, 231594552);
    assert(q_sum_to(s, 0) == q(0, 1));
    lemma_q_eq_value(0, 1, 0, 1);
    lemma_q_sum_step(s, 0, 0, 1, 0, 1800, 0, 1);
    lemma_q_sum_step(s, 1, 0, 1, 0, 1, 0, 1);
    lemma_q_sum_step(s, 2, 0, 1, 143607168, 6221175891840, 19, 823095);
    lemma_q_sum_step(s, 3, 19, 823095, 129010532, 420811097616, 18238879, 55326419820);
    lemma_q_sum_step(s, 4, 18238879, 55326419820, 2326545563648, 1087396163481600, 4648291, 1882496700);
    lemma_q_sum_step(s, 5, 4648291, 1882496700, 8800857606194225, 510991952315644800, 60776237, 3086294400);
    lemma_q_sum_step(s, 6, 60776237, 3086294400, 79611559513, 5836182710400, 1, 30);
}

proof fn lemma_rktp64_sum_163()
    ensures
        q_eq(q_dot(seq![q(131, 1800), q(0, 1), q(1121931, 3902080), q(319333, 1682928), q(262144, 2477325), q(4084223, 15177600), q(1891, 25200)], seq![q(0, 1), q(0, 1), q(0, 1), q(26, 27783), q(330913, 32514048), q(21687845, 680151654), q(151141, 1660176)]), q(1, 60)),
        q_valid(q_dot(seq![q(131, 1800), q(0, 1), q(1121931, 3902080), q(319333, 1682928), q(262144, 2477325), q(4084223, 15177600), q(1891, 25200)], seq![q(0, 1), q(0, 1), q(0, 1), q(26, 27783), q(330913, 32514048), q(21687845, 680151654), q(151141, 1660176)])),
{
    let x = seq![q(131, 1800), q(0, 1), q(1121931, 3902080), q(319333, 1682928), q(262144, 2477325), q(4084223, 15177600), q(1891, 25200)];
    let y = seq![q(0, 1), q(0, 1), q(0, 1), q(26, 27783), q(330913, 32514048), q(21687845, 680151654), q(151141, 1660176)];
    let s = q_hadamard(x, y);
    assert(s.len() == 7);
    lemma_q_hadamard_entry(x, y, 0, 131, 1800, 0, 1);
    lemma_q_hadamard_entry(x, y, 1, 0, 1, 0, 1);
    lemma_q_hadamard_entry(x, y, 2, 1121931, 3902080, 0, 1);
    lemma_q_hadamard_entry(x, y, 3, 319333, 1682928, 26, 27783);
    lemma_q_hadamard_entry(x, y, 4, 262144, 2477325, 330913, 32514048);
    lemma_q_hadamard_entry(x, y, 5, 4084223, 15177600, 21687845, 680151654);
    lemma_q_hadamard_entry(x, y, 6, 1891, 25200, 151141, 1660176);
    assert(q_sum_to(s, 0) == q(0, 1));
    lemma_q_eq_value(0, 1, 0, 1);
    lemma_q_sum_step(s, 0, 0, 1, 0, 1800, 0, 1);
    lemma_q_sum_step(s, 1, 0, 1, 0, 1, 0, 1);
    lemma_q_sum_step(s, 2, 0, 1, 0, 3902080, 0, 1);
    lemma_q_sum_step(s, 3, 0, 1, 8302658, 46756788624, 931, 5242968);
    lemma_q_sum_step(s, 4, 931, 5242968, 86746857472, 80547863961600, 4723303, 3764993400);
    lemma_q_sum_step(s, 5, 4723303, 3764993400, 88577995369435, 10323069743750400, 6745349, 685843200);
    lemma_q_sum_step(s, 6, 6745349, 685843200, 285807631, 41836435200, 1, 60);
}

proof fn lemma_rktp64_sum_164()
    ensures
        q_eq(q_dot(seq![q(131, 1800), q(0, 1), q(1121931, 3902080), q(319333, 1682928), q(262144, 2477325), q(4084223, 15177600), q(1891, 25200)], seq![q(0, 1), q(0, 1), q(0, 1), q(52, 83349), q(330913, 48771072), q(21687845, 1020227481), q(151141, 2490264)]), q(1, 90)),
        q_valid(q_dot(seq![q(131, 1800), q(0, 1), q(1121931, 3902080), q(319333, 1682928), q(262144, 2477325), q(4084223, 15177600), q(1891, 25200)], seq![q(0, 1), q(0, 1), q(0, 1), q(52, 83349), q(330913, 48771072), q(21687845, 1020227481), q(151141, 2490264)])),
{
    let x = seq![q(131, 1800), q(0, 1), q(1121931, 3902080), q(319333, 1682928), q(262144, 2477325), q(4084223, 15177600), q(1891, 25200)];
    let y = seq![q(0, 1), q(0, 1), q(0, 1), q(52, 83349), q(330913, 48771072), q(21687845, 1020227481), q(151141, 2490264)];
    let s = q_hadamard(x, y);
    assert(s.len() == 7);
    lemma_q_hadamard_entry(x, y, 0, 131, 1800, 0, 1);
    lemma_q_hadamard_entry(x, y, 1, 0, 1, 0, 1);
    lemma_q_hadamard_entry(x, y, 2, 1121931, 3902080, 0, 1);
    lemma_q_hadamard_entry(x, y, 3, 319333, 1682928, 52, 83349);
    lemma_q_hadamard_entry(x, y, 4, 262144, 2477325, 330913, 48771072);
    lemma_q_hadamard_entry(x, y, 5, 4084223, 15177600, 21687845, 1020227481);
    lemma_q_hadamard_entry(x, y, 6, 1891, 25200, 151141, 2490264);
    assert(q_sum_to(s, 0) == q(0, 1));
    lemma_q_eq_value(0, 1, 0, 1);
    lemma_q_sum_step(s, 0, 0, 1, 0, 1800, 0, 1);
    lemma_q_sum_step(s, 1, 0, 1, 0, 1, 0, 1);
    lemma_q_sum_step(s, 2, 0, 1, 0, 3902080, 0, 1);
    lemma_q_sum_step(s, 3, 0, 1, 16605316, 140270365872, 931, 7864452);
    lemma_q_sum_step(s, 4, 931, 7864452, 86746857472, 120821795942400, 4723303, 5647490100);
    lemma_q_sum_step(s, 5, 4723303, 5647490100, 88577995369435, 15484604615625600, 6745349, 1028764800);
    lemma_q_sum_step(s, 6, 6745349, 1028764800, 285807631, 62754652800, 1, 90);
}

proof fn lemma_rktp64_sum_165()
    ensures
        q_eq(q_dot(seq![q(131, 1800), q(0, 1), q(1121931, 3902080), q(319333, 1682928), q(262144, 2477325), q(4084223, 15177600), q(1891, 25200)], seq![q(0, 1), q(0, 1), q(0, 1), q(0, 1), q(1943, 401408), q(344875, 30788758), q(5727, 211792)]), q(1, 180)),
        q_valid(q_dot(seq![q(131, 1800), q(0, 1), q(1121931, 3902080), q(319333, 1682928), q(262144, 2477325), q(4084223, 15177600), q(1891, 25200)], seq![q(0, 1), q(0, 1), q(0, 1), q(0, 1), q(1943, 401408), q(344875, 30788758), q(5727, 211792)])),
{
    let x = seq![q(131, 1800), q(0, 1), q(1121931, 3902080), q(319333, 1682928), q(262144, 2477325), q(4084223, 15177600), q(1891, 25200)];
    let y = seq![q(0, 1), q(0, 1), q(0, 1), q(0, 1), q(1943, 401408), q(344875, 30788758), q(5727, 211792)];
    let s = q_hadamard(x, y);
    assert(s.len() == 7);
    lemma_q_hadamard_entry(x, y, 0, 131, 1800, 0, 1);
    lemma_q_hadamard_entry(x, y, 1, 0, 1, 0, 1);
    lemma_q_hadamard_entry(x, y, 2, 1121931, 3902080, 0, 1);
    lemma_q_hadamard_entry(x, y, 3, 319333, 1682928, 0, 1);
    lemma_q_hadamard_entry(x, y, 4, 262144, 2477325, 1943, 401408);
    lemma_q_hadamard_entry(x, y, 5, 4084223, 15177600, 344875, 30788758);
    lemma_q_hadamard_entry(x, y, 6, 1891, 25200, 5727, 211792);
    assert(q_sum_to(s, 0) == q(0, 1));
    lemma_q_eq_value(0, 1, 0, 1);
    lemma_q_sum_step(s, 0, 0, 1, 0, 1800, 0, 1);
    lemma_q_sum_step(s, 1, 0, 1, 0, 1, 0, 1);
    lemma_q_sum_step(s, 2, 0, 1, 0, 3902080, 0, 1);
    lemma_q_sum_step(s, 3, 0, 1, 0, 1682928, 0, 1);
    lemma_q_sum_step(s, 4, 0, 1, 509345792, 994418073600, 32, 62475);
    lemma_q_sum_step(s, 5, 32, 62475, 1408546407125, 467299453420800, 9953, 2822400);
    lemma_q_sum_step(s, 6, 9953, 2822400, 10829757, 5337158400, 1, 180);
}

proof fn lemma_rktp64_sum_166()
    ensures
        q_eq(q_dot(seq![q(131, 1800), q(0, 1), q(1121931, 3902080), q(319333, 1682928), q(262144, 2477325), q(4084223, 15177600), q(1891, 25200)], seq![q(0, 1), q(0, 1), q(0, 1), q(13, 27783), q(330913, 65028096), q(21687845, 1360303308), q(151141, 3320352)]), q(1, 120)),
        q_valid(q_dot(seq![q(131, 1800), q(0, 1), q(1121931, 3902080), q(319333, 1682928), q(262144, 2477325), q(4084223, 15177600), q(1891, 25200)], seq![q(0, 1), q(0, 1), q(0, 1), q(13, 27783), q(330913, 65028096), q(21687845, 1360303308), q(151141, 3320352)])),
{
    let x = seq![q(131, 1800), q(0, 1), q(1121931, 3902080), q(319333, 1682928), q(262144, 2477325), q(4084223, 15177600), q(1891, 25200)];
    let y = seq![q(0, 1), q(0, 1), q(0, 1), q(13, 27783), q(330913, 65028096), q(21687845, 1360303308), q(151141, 3320352)];
    let s = q_hadamard(x, y);
    assert(s.len() == 7);
    lemma_q_hadamard_entry(x, y, 0, 131, 1800, 0, 1);
    lemma_q_hadamard_entry(x, y, 1, 0, 1, 0, 1);
    lemma_q_hadamard_entry(x, y, 2, 1121931, 3902080, 0, 1);
    lemma_q_hadamard_entry(x, y, 3, 319333, 1682928, 13, 27783);
    lemma_q_hadamard_entry(x, y, 4, 262144, 2477325, 330913, 65028096);
    lemma_q_hadamard_entry(x, y, 5, 4084223, 15177600, 21687845, 1360303308);
    lemma_q_hadamard_entry(x, y, 6, 1891, 25200, 151141, 3320352);
    assert(q_sum_to(s, 0) == q(0, 1));
    lemma_q_eq_value(0, 1, 0, 1);
    lemma_q_sum_step(s, 0, 0, 1, 0, 1800, 0, 1);
    lemma_q_sum_step(s, 1, 0, 1, 0, 1, 0, 1);
    lemma_q_sum_step(s, 2, 0, 1, 0, 3902080, 0, 1);
    lemma_q_sum_step(s, 3, 0, 1, 4151329, 46756788624, 931, 10485936);
    lemma_q_sum_step(s, 4, 931, 10485936, 86746857472, 161095727923200, 4723303, 7529986800);
    lemma_q_sum_step(s, 5, 4723303, 7529986800, 88577995369435, 20646139487500800, 6745349, 1371686400);
    lemma_q_sum_step(s, 6, 6745349, 1371686400, 285807631, 83672870400, 1, 120);
}

proof fn lemma_rktp64_sum_167()
    ensures
        q_eq(q_dot(seq![q(131, 1800), q(0, 1), q(1121931, 3902080), q(319333, 1682928), q(262144, 2477325), q(4084223, 15177600), q(1891, 25200)], seq![q(0, 1), q(0, 1), q(0, 1), q(104, 250047), q(42277, 10450944), q(9241520, 687091977), q(231856, 4135617)]), q(1, 120)),
        q_valid(q_dot(seq![q(131, 1800), q(0, 1), q(1121931, 3902080), q(319333, 1682928), q(262144, 2477325), q(4084223, 15177600), q(1891, 25200)], seq![q(0, 1), q(0, 1), q(0, 1), q(104, 250047), q(42277, 10450944), q(9241520, 687091977), q(231856, 4135617)])),
{
    let x = seq![q(131, 1800), q(0, 1), q(1121931, 3902080), q(319333, 1682928), q(262144, 2477325), q(4084223, 15177600), q(1891, 25200)];
    let y = seq![q(0, 1), q(0, 1), q(0, 1), q(104, 250047), q(42277, 10450944), q(9241520, 687091977), q(231856, 4135617)];
    let s = q_hadamard(x, y);
    assert(s.len() == 7);
    lemma_q_hadamard_entry(x, y, 0, 131, 1800, 0, 1);
    lemma_q_hadamard_entry(x, y, 1, 0, 1, 0, 1);
    lemma_q_hadamard_entry(x, y, 2, 1121931, 3902080, 0, 1);
    lemma_q_hadamard_entry(x, y, 3, 319333, 1682928, 104, 250047);
    lemma_q_hadamard_entry(x, y, 4, 262144, 2477325, 42277, 10450944);
    lemma_q_hadamard_entry(x, y, 5, 4084223, 15177600, 9241520, 687091977);
    lemma_q_hadamard_entry(x, y, 6, 1891, 25200, 231856, 4135617);
    assert(q_sum_to(s, 0) == q(0, 1));
    lemma_q_eq_value(0, 1, 0, 1);
    lemma_q_sum_step(s, 0, 0, 1, 0, 1800, 0, 1);
    lemma_q_sum_step(s, 1, 0, 1, 0, 1, 0, 1);
    lemma_q_sum_step(s, 2, 0, 1, 0, 3902080, 0, 1);
    lemma_q_sum_step(s, 3, 0, 1, 33210632, 420811097616, 931, 11796678);
    lemma_q_sum_step(s, 4, 931, 11796678, 11082661888, 25890384844800, 613537, 1210176450);
    lemma_q_sum_step(s, 5, 613537, 1210176450, 37744428538960, 10428407190115200, 113707, 27556200);
    lemma_q_sum_step(s, 6, 113707, 27556200, 438439696, 104217548400, 1, 120);
}

proof fn lemma_rktp64_sum_168()
    ensures
        q_eq(q_dot(seq![q(131, 1800), q(0, 1), q(1121931, 3902080), q(319333, 1682928), q(262144, 2477325), q(4084223, 15177600), q(1891, 25200)], seq![q(0, 1), q(0, 1), q(0, 1), q(0, 1), q(1943, 774144), q(135160, 19792773), q(52, 1891)]), q(1, 240)),
        q_valid(q_dot(seq![q(131, 1800), q(0, 1), q(1121931, 3902080), q(319333, 1682928), q(262144, 2477325), q(4084223, 15177600), q(1891, 25200)], seq![q(0, 1), q(0, 1), q(0, 1), q(0, 1), q(1943, 774144), q(135160, 19792773), q(52, 1891)])),
{
    let x = seq![q(131, 1800), q(0, 1), q(1121931, 3902080), q(319333, 1682928), q(262144, 2477325), q(4084223, 15177600), q(1891, 25200)];
    let y = seq![q(0, 1), q(0, 1), q(0, 1), q(0, 1), q(1943, 774144), q(135160, 19792773), q(52, 1891)];
    let s = q_hadamard(x, y);
    assert(s.len() == 7);
    lemma_q_hadamard_entry(x, y, 0, 131, 1800, 0, 1);
    lemma_q_hadamard_entry(x, y, 1, 0, 1, 0, 1);
    lemma_q_hadamard_entry(x, y, 2, 1121931, 3902080, 0, 1);
    lemma_q_hadamard_entry(x, y, 3, 319333, 1682928, 0, 1);
    lemma_q_hadamard_entry(x, y, 4, 262144, 2477325, 1943, 774144);
    lemma_q_hadamard_entry(x, y, 5, 4084223, 15177600, 135160, 19792773);
    lemma_q_hadamard_entry(x, y, 6, 1891, 25200, 52, 1891);
    assert(q_sum_to(s, 0) == q(0, 1));
    lemma_q_eq_value(0, 1, 0, 1);
    lemma_q_sum_step(s, 0, 0, 1, 0, 1800, 0, 1);
    lemma_q_sum_step(s, 1, 0, 1, 0, 1, 0, 1);
    lemma_q_sum_step(s, 2, 0, 1, 0, 3902080, 0, 1);
    lemma_q_sum_step(s, 3, 0, 1, 0, 1682928, 0, 1);
    lemma_q_sum_step(s, 4, 0, 1, 509345792, 1917806284800, 64, 240975);
    lemma_q_sum_step(s, 5, 64, 240975, 552023580680, 300406791484800, 53, 25200);
    lemma_q_sum_step(s, 6, 53, 25200, 98332, 47653200, 1, 240);
}

proof fn lemma_rktp64_sum_169()
    ensures
        q_eq(q_dot(seq![q(131, 1800), q(0, 1), q(1121931, 3902080), q(319333, 1682928), q(262144, 2477325), q(4084223, 15177600), q(1891, 25200)], seq![q(0, 1), q(0, 1), q(0, 1), q(0, 1), q(1943, 1161216), q(270320, 59378319), q(104, 5673)]), q(1, 360)),
        q_valid(q_dot(seq![q(131, 1800), q(0, 1), q(1121931, 3902080), q(319333, 1682928), q(262144, 2477325), q(4084223, 15177600), q(1891, 25200)], seq![q(0, 1), q(0, 1), q(0, 1), q(0, 1), q(1943, 1161216), q(270320, 59378319), q(104, 5673)])),
{
    let x = seq![q(131, 1800), q(0, 1), q(1121931, 3902080), q(319333, 1682928), q(262144, 2477325), q(4084223, 15177600), q(1891, 25200)];
    let y = seq![q(0, 1), q(0, 1), q(0, 1), q(0, 1), q(1943, 1161216), q(270320, 59378319), q(104, 5673)];
    let s = q_hadamard(x, y);
    assert(s.len() == 7);
    lemma_q_hadamard_entry(x, y, 0, 131, 1800, 0, 1);
    lemma_q_hadamard_entry(x, y, 1, 0, 1, 0, 1);
    lemma_q_hadamard_entry(x, y, 2, 1121931, 3902080, 0, 1);
    lemma_q_hadamard_entry(x, y, 3, 319333, 1682928, 0, 1);
    lemma_q_hadamard_entry(x, y, 4, 262144, 2477325, 1943, 1161216);
    lemma_q_hadamard_entry(x, y, 5, 4084223, 15177600, 270320, 59378319);
    lemma_q_hadamard_entry(x, y, 6, 1891, 25200, 104, 5673);
    assert(q_sum_to(s, 0) == q(0, 1));
    lemma_q_eq_value(0, 1, 0, 1);
    lemma_q_sum_step(s, 0, 0, 1, 0, 1800, 0, 1);
    lemma_q_sum_step(s, 1, 0, 1, 0, 1, 0, 1);
    lemma_q_sum_step(s, 2, 0, 1, 0, 3902080, 0, 1);
    lemma_q_sum_step(s, 3, 0, 1, 0, 1682928, 0, 1);
    lemma_q_sum_step(s, 4, 0, 1, 509345792, 2876709427200, 128, 722925);
    lemma_q_sum_step(s, 5, 128, 722925, 1104047161360, 901220374454400, 53, 37800);
    lemma_q_sum_step(s, 6, 53, 37800, 196664, 142959600, 1, 360);
}

proof fn lemma_rktp64_sum_170()
    ensures
        q_eq(q_dot(seq![q(131, 1800), q(0, 1), q(1121931, 3902080), q(319333, 1682928), q(262144, 2477325), q(4084223, 15177600), q(1891, 25200)], seq![q(0, 1), q(0, 1), q(0, 1), q(0, 1), q(0, 1), q(21080, 6597591), q(40, 5673)]), q(1, 720)),
        q_valid(q_dot(seq![q(131, 1800), q(0, 1), q(1121931, 3902080), q(319333, 1682928), q(262144, 2477325), q(4084223, 15177600), q(1891, 25200)], seq![q(0, 1), q(0, 1), q(0, 1), q(0, 1), q(0, 1), q(21080, 6597591), q(40, 5673)])),
{
    let x = seq![q(131, 1800), q(0, 1), q(1121931, 3902080), q(319333, 1682928), q(262144, 2477325), q(4084223, 15177600), q(1891, 25200)];
    let y = seq![q(0, 1), q(0, 1), q(0, 1), q(0, 1), q(0, 1), q(21080, 6597591), q(40, 5673)];
    let s = q_hadamard(x, y);
    assert(s.len() == 7);
    lemma_q_hadamard_entry(x, y, 0, 131, 1800, 0, 1);
    lemma_q_hadamard_entry(x, y, 1, 0, 1, 0, 1);
    lemma_q_hadamard_entry(x, y, 2, 1121931, 3902080, 0, 1);
    lemma_q_hadamard_entry(x, y, 3, 319333, 1682928, 0, 1);
    lemma_q_hadamard_entry(x, y, 4, 262144, 2477325, 0, 1);
    lemma_q_hadamard_entry(x, y, 5, 4084223, 15177600, 21080, 6597591);
    lemma_q_hadamard_entry(x, y, 6, 1891, 25200, 40, 5673);
    assert(q_sum_to(s, 0) == q(0, 1));
    lemma_q_eq_value(0, 1, 0, 1);
    lemma_q_sum_step(s, 0, 0, 1, 0, 1800, 0, 1);
    lemma_q_sum_step(s, 1, 0, 1, 0, 1, 0, 1);
    lemma_q_sum_step(s, 2, 0, 1, 0, 3902080, 0, 1);
    lemma_q_sum_step(s, 3, 0, 1, 0, 1682928, 0, 1);
    lemma_q_sum_step(s, 4, 0, 1, 0, 2477325, 0, 1);
    lemma_q_sum_step(s, 5, 0, 1, 86095420840, 100135597161600, 13, 15120);
    lemma_q_sum_step(s, 6, 13, 15120, 75640, 142959600, 1, 720);
}

proof fn lemma_rktp64_sum_171()
    ensures
        q_eq(q_dot(seq![q(2694253, 26100360), q(0, 1), q(83647323, 535804360), q(691202281, 1789061040), q(-1275547648, 10565208225), q(2, 5), q(1891, 25200)], seq![q(1, 1), q(1, 1), q(1, 1), q(1, 1), q(1, 1), q(1, 1), q(1, 1)]), q(1, 1)),
        q_valid(q_dot(seq![q(2694253, 26100360), q(0, 1), q(83647323, 535804360), q(691202281, 1789061040), q(-1275547648, 10565208225), q(2, 5), q(1891, 25200)], seq![q(1, 1), q(1, 1), q(1, 1), q(1, 1), q(1, 1), q(1, 1), q(1, 1)])),
{
    let x = seq![q(2694253, 26100360), q(0, 1), q(83647323, 535804360), q(691202281, 1789061040), q(-1275547648, 10565208225), q(2, 5), q(1891, 25200)];
    let y = seq![q(1, 1), q(1, 1), q(1, 1), q(1, 1), q(1, 1), q(1, 1), q(1, 1)];
    let s = q_hadamard(x, y);
    assert(s.len() == 7);
    lemma_q_hadamard_entry(x, y, 0, 2694253, 26100360, 1, 1);
    lemma_q_hadamard_entry(x, y, 1, 0, 1, 1, 1);
    lemma_q_hadamard_entry(x, y, 2, 83647323, 535804360, 1, 1);
    lemma_q_hadamard_entry(x, y, 3, 691202281, 1789061040, 1, 1);
    lemma_q_hadamard_entry(x, y, 4, -1275547648, 10565208225, 1, 1);
    lemma_q_hadamard_entry(x, y, 5, 2, 5, 1, 1);
    lemma_q_hadamard_entry(x, y, 6, 1891, 25200, 1, 1);
    assert(q_sum_to(s, 0) == q(0, 1));
    lemma_q_eq_value(0, 1, 0, 1);
    lemma_q_sum_step(s, 0, 0, 1, 2694253, 26100360, 2694253, 26100360);
    lemma_q_sum_step(s, 1, 2694253, 26100360, 0, 1, 2694253, 26100360);
    lemma_q_sum_step(s, 2, 2694253, 26100360, 83647323, 535804360, 5158764434, 19891736865);
    lemma_q_sum_step(s, 3, 5158764434, 19891736865, 691202281, 1789061040, 3395771661, 5259125872);
    lemma_q_sum_step(s, 4, 3395771661, 5259125872, -1275547648, 10565208225, 13229, 25200);
    lemma_q_sum_step(s, 5, 13229, 25200, 2, 5, 23309, 25200);
    lemma_q_sum_step(s, 6, 23309, 25200, 1891, 25200, 1, 1);
}

proof fn lemma_rktp64_sum_172()
    ensures
        q_eq(q_dot(seq![q(2694253, 26100360), q(0, 1), q(83647323, 535804360), q(691202281, 1789061040), q(-1275547648, 10565208225), q(2, 5), q(1891, 25200)], seq![q(0, 1), q(4, 27), q(2, 9), q(3, 7), q(11, 16), q(10, 13), q(1, 1)]), q(1, 2)),
        q_valid(q_dot(seq![q(2694253, 26100360), q(0, 1), q(83647323, 535804360), q(691202281, 1789061040), q(-1275547648, 10565208225), q(2, 5), q(1891, 25200)], seq![q(0, 1), q(4, 27), q(2, 9), q(3, 7), q(11, 16), q(10, 13), q(1, 1)])),
{
    let x = seq![q(2694253, 26100360), q(0, 1), q(83647323, 535804360), q(691202281, 1789061040), q(-1275547648, 10565208225), q(2, 5), q(1891, 25200)];
    let y = seq![q(0, 1), q(4, 27), q(2, 9), q(3, 7), q(11, 16), q(10, 13), q(1, 1)];
    let s = q_hadamard(x, y);
    assert(s.len() == 7);
    lemma_q_hadamard_entry(x, y, 0, 2694253, 26100360, 0, 1);
    lemma_q_hadamard_entry(x, y, 1, 0, 1, 4, 27);
    lemma_q_hadamard_entry(x, y, 2, 83647323, 535804360, 2, 9);
    lemma_q_hadamard_entry(x, y, 3, 691202281, 1789061040, 3, 7);
    lemma_q_hadamard_entry(x, y, 4, -1275547648, 10565208225, 11, 16);
    lemma_q_hadamard_entry(x, y, 5, 2, 5, 10, 13);
    lemma_q_hadamard_entry(x, y, 6, 1891, 25200, 1, 1);
    assert(q_sum_to(s, 0) == q(0, 1));
    lemma_q_eq_value(0, 1, 0, 1);
    lemma_q_sum_step(s, 0, 0, 1, 0, 26100360, 0, 1);
    lemma_q_sum_step(s, 1, 0, 1, 0, 27, 0, 1);
    lemma_q_sum_step(s, 2, 0, 1, 167294646, 4822239240, 9294147, 267902180);
    lemma_q_sum_step(s, 3, 9294147, 267902180, 2073606843, 12523427280, 861748343, 4302921168);
    lemma_q_sum_step(s, 4, 861748343, 4302921168, -14031024128, 169043331600, 38417, 327600);
    lemma_q_sum_step(s, 5, 38417, 327600, 20, 65, 10709, 25200);
    lemma_q_sum_step(s, 6, 10709, 25200, 1891, 25200, 1, 2);
}

proof fn lemma_rktp64_sum_173()
    ensures
        q_eq(q_dot(seq![q(2694253, 26100360), q(0, 1), q(83647323, 535804360), q(691202281, 1789061040), q(-1275547648, 10565208225), q(2, 5), q(1891, 25200)], seq![q(0, 1), q(16, 729), q(4, 81), q(9, 49), q(121, 256), q(100, 169), q(1, 1)]), q(1, 3)),
        q_valid(q_dot(seq![q(2694253, 26100360), q(0, 1), q(83647323, 535804360), q(691202281, 1789061040), q(-1275547648, 10565208225), q(2, 5), q(1891, 25200)], seq![q(0, 1), q(16, 729), q(4, 81), q(9, 49), q(121, 256), q(100, 169), q(1, 1)])),
{
    let x = seq![q(2694253, 26100360), q(0, 1), q(83647323, 535804360), q(691202281, 1789061040), q(-1275547648, 10565208225), q(2, 5), q(1891, 25200)];
    let y = seq![q(0, 1), q(16, 729), q(4, 81), q(9, 49), q(121, 256), q(100, 169), q(1, 1)];
    let s = q_hadamard(x, y);
    assert(s.len() == 7);
    lemma_q_hadamard_entry(x, y, 0, 2694253, 26100360, 0, 1);
    lemma_q_hadamard_entry(x, y, 1, 0, 1, 16, 729);
    lemma_q_hadamard_entry(x, y, 2, 83647323, 535804360, 4, 81);
    lemma_q_hadamard_entry(x, y, 3, 691202281, 1789061040, 9, 49);
    lemma_q_hadamard_entry(x, y, 4, -1275547648, 10565208225, 121, 256);
    lemma_q_hadamard_entry(x, y, 5, 2, 5, 100, 169);
    lemma_q_hadamard_entry(x, y, 6, 1891, 25200, 1, 1);
    assert(q_sum_to(s, 0) == q(0, 1));
    lemma_q_eq_value(0, 1, 0, 1);
    lemma_q_sum_step(s, 0, 0, 1, 0, 26100360, 0, 1);
    lemma_q_sum_step(s, 1, 0, 1, 0, 729, 0, 1);
    lemma_q_sum_step(s, 2, 0, 1, 334589292, 43400153160, 1032683, 133951090);
    lemma_q_sum_step(s, 3, 1032683, 133951090, 6220820529, 87663990960, 564195433, 7171535280);
    lemma_q_sum_step(s, 4, 564195433, 7171535280, -154341265408, 2704693305600, 92021, 4258800);
    lemma_q_sum_step(s, 5, 92021, 4258800, 200, 845, 6509, 25200);
    lemma_q_sum_step(s, 6, 6509, 25200, 1891, 25200, 1, 3);
}

proof fn lemma_rktp64_sum_174()
    ensures
        q_eq(q_dot(seq![q(2694253, 26100360), q(0, 1), q(83647323, 535804360), q(691202281, 1789061040), q(-1275547648, 10565208225), q(2, 5), q(1891, 25200)], seq![q(0, 1), q(0, 1), q(2, 81), q(9, 98), q(121, 512), q(50, 169), q(1, 2)]), q(1, 6)),
        q_valid(q_dot(seq![q(2694253, 26100360), q(0, 1), q(83647323, 535804360), q(691202281, 1789061040), q(-1275547648, 10565208225), q(2, 5), q(1891, 25200)], seq![q(0, 1), q(0, 1), q(2, 81), q(9, 98), q(121, 512), q(50, 169), q(1, 2)])),
{
    let x = seq![q(2694253, 26100360), q(0, 1), q(83647323, 535804360), q(691202281, 1789061040), q(-1275547648, 10565208225), q(2, 5), q(1891, 25200)];
    let y = seq![q(0, 1), q(0, 1), q(2, 81), q(9, 98), q(121, 512), q(50, 169), q(1, 2)];
    let s = q_hadamard(x, y);
    assert(s.len() == 7);
    lemma_q_hadamard_entry(x, y, 0, 2694253, 26100360, 0, 1);
    lemma_q_hadamard_entry(x, y, 1, 0, 1, 0, 1);
    lemma_q_hadamard_entry(x, y, 2, 83647323, 535804360, 2, 81);
    lemma_q_hadamard_entry(x, y, 3, 691202281, 1789061040, 9, 98);
    lemma_q_hadamard_entry(x, y, 4, -1275547648, 10565208225, 121, 512);
    lemma_q_hadamard_entry(x, y, 5, 2, 5, 50, 169);
    lemma_q_hadamard_entry(x, y, 6, 1891, 25200, 1, 2);
    assert(q_sum_to(s, 0) == q(0, 1));
    lemma_q_eq_value(0, 1, 0, 1);
    lemma_q_sum_step(s, 0, 0, 1, 0, 26100360, 0, 1);
    lemma_q_sum_step(s, 1, 0, 1, 0, 1, 0, 1);
    lemma_q_sum_step(s, 2, 0, 1, 167294646, 43400153160, 1032683, 267902180);
    lemma_q_sum_step(s, 3, 1032683, 267902180, 6220820529, 175327981920, 564195433, 14343070560);
    lemma_q_sum_step(s, 4, 564195433, 14343070560, -154341265408, 5409386611200, 92021, 8517600);
    lemma_q_sum_step(s, 5, 92021, 8517600, 100, 845, 6509, 50400);
    lemma_q_sum_step(s, 6, 6509, 50400, 1891, 50400, 1, 6);
}

proof fn lemma_rktp64_sum_175()
    ensures
        q_eq(q_dot(seq![q(2694253, 26100360), q(0, 1), q(83647323, 535804360), q(691202281, 1789061040), q(-1275547648, 10565208225), q(2, 5), q(1891, 25200)], seq![q(0, 1), q(64, 19683), q(8, 729), q(27, 343), q(1331, 4096), q(1000, 2197), q(1, 1)]), q(1, 4)),
        q_valid(q_dot(seq![q(2694253, 26100360), q(0, 1), q(83647323, 535804360), q(691202281, 1789061040), q(-1275547648, 10565208225), q(2, 5), q(1891, 25200)], seq![q(0, 1), q(64, 19683), q(8, 729), q(27, 343), q(1331, 4096), q(1000, 2197), q(1, 1)])),
{
    let x = seq![q(2694253, 26100360), q(0, 1), q(83647323, 535804360), q(691202281, 1789061040), q(-1275547648, 10565208225), q(2, 5), q(1891, 25200)];
    let y = seq![q(0, 1), q(64, 19683), q(8, 729), q(27, 343), q(1331, 4096), q(1000, 2197), q(1, 1)];
    let s = q_hadamard(x, y);
    assert(s.len() == 7);
    lemma_q_hadamard_entry(x, y, 0, 2694253, 26100360, 0, 1);
    lemma_q_hadamard_entry(x, y, 1, 0, 1, 64, 19683);
    lemma_q_hadamard_entry(x, y, 2, 83647323, 535804360, 8, 729);
    lemma_q_hadamard_entry(x, y, 3, 691202281, 1789061040, 27, 343);
    lemma_q_hadamard_entry(x, y, 4, -1275547648, 10565208225, 1331, 4096);
    lemma_q_hadamard_entry(x, y, 5, 2, 5, 1000, 2197);
    lemma_q_hadamard_entry(x, y, 6, 1891, 25200, 1, 1);
    assert(q_sum_to(s, 0) == q(0, 1));
    lemma_q_eq_value(0, 1, 0, 1);
    lemma_q_sum_step(s, 0, 0, 1, 0, 26100360, 0, 1);
    lemma_q_sum_step(s, 1, 0, 1, 0, 19683, 0, 1);
    lemma_q_sum_step(s, 2, 0, 1, 669178584, 390601378440, 1032683, 602779905);
    lemma_q_sum_step(s, 3, 1032683, 602779905, 18662461587, 613647936720, 691168063, 21514605840);
    lemma_q_sum_step(s, 4, 691168063, 21514605840, -1697753919488, 43275092889600, -393427, 55364400);
    lemma_q_sum_step(s, 5, -393427, 55364400, 2000, 10985, 4409, 25200);
    lemma_q_sum_step(s, 6, 4409, 25200, 1891, 25200, 1, 4);
}

proof fn lemma_rktp64_sum_176()
    ensures
        q_eq(q_dot(seq![q(2694253, 26100360), q(0, 1), q(83647323, 535804360), q(691202281, 1789061040), q(-1275547648, 10565208225), q(2, 5), q(1891, 25200)], seq![q(0, 1), q(0, 1), q(4, 729), q(27, 686), q(1331, 8192), q(500, 2197), q(1, 2)]), q(1, 8)),
        q_valid(q_dot(seq![q(2694253, 26100360), q(0, 1), q(83647323, 535804360), q(691202281, 1789061040), q(-1275547648, 10565208225), q(2, 5), q(1891, 25200)], seq![q(0, 1), q(0, 1), q(4, 729), q(27, 686), q(1331, 8192), q(500, 2197), q(1, 2)])),
{
    let x = seq![q(2694253, 26100360), q(0, 1), q(83647323, 535804360), q(691202281, 1789061040), q(-1275547648, 10565208225), q(2, 5), q(1891, 25200)];
    let y = seq![q(0, 1), q(0, 1), q(4, 729), q(27, 686), q(1331, 8192), q(500, 2197), q(1, 2)];
    let s = q_hadamard(x, y);
    assert(s.len() == 7);
    lemma_q_hadamard_entry(x, y, 0, 2694253, 26100360, 0, 1);
    lemma_q_hadamard_entry(x, y, 1, 0, 1, 0, 1);
    lemma_q_hadamard_entry(x, y, 2, 83647323, 535804360, 4, 729);
    lemma_q_hadamard_entry(x, y, 3, 691202281, 1789061040, 27, 686);
    lemma_q_hadamard_entry(x, y, 4, -1275547648, 10565208225, 1331, 8192);
    lemma_q_hadamard_entry(x, y, 5, 2, 5, 500, 2197);
    lemma_q_hadamard_entry(x, y, 6, 1891, 25200, 1, 2);
    assert(q_sum_to(s, 0) == q(0, 1));
    lemma_q_eq_value(0, 1, 0, 1);
    lemma_q_sum_step(s, 0, 0, 1, 0, 26100360, 0, 1);
    lemma_q_sum_step(s, 1, 0, 1, 0, 1, 0, 1);
    lemma_q_sum_step(s, 2, 0, 1, 334589292, 390601378440, 1032683, 1205559810);
    lemma_q_sum_step(s, 3, 1032683, 1205559810, 18662461587, 1227295873440, 691168063, 43029211680);
    lemma_q_sum_step(s, 4, 691168063, 43029211680, -1697753919488, 86550185779200, -393427, 110728800);
    lemma_q_sum_step(s, 5, -393427, 110728800, 1000, 10985, 4409, 50400);
    lemma_q_sum_step(s, 6, 4409, 50400, 1891, 50400, 1, 8);
}

proof fn lemma_rktp64_sum_177()
    ensures
        q_eq(q_dot(seq![q(2694253, 26100360), q(0, 1), q(83647323, 535804360), q(691202281, 1789061040), q(-1275547648, 10565208225), q(2, 5), q(1891, 25200)], seq![q(0, 1), q(0, 1), q(8, 2187), q(9, 343), q(1331, 12288), q(1000, 6591), q(1, 3)]), q(1, 12)),
        q_valid(q_dot(seq![q(2694253, 26100360), q(0, 1), q(83647323, 535804360), q(691202281, 1789061040), q(-1275547648, 10565208225), q(2, 5), q(1891, 25200)], seq![q(0, 1), q(0, 1), q(8, 2187), q(9, 343), q(1331, 12288), q(1000, 6591), q(1, 3)])),
{
    let x = seq![q(2694253, 26100360), q(0, 1), q(83647323, 535804360), q(691202281, 1789061040), q(-1275547648, 10565208225), q(2, 5), q(1891, 25200)];
    let y = seq![q(0, 1), q(0, 1), q(8, 2187), q(9, 343), q(1331, 12288), q(1000, 6591), q(1, 3)];
    let s = q_hadamard(x, y);
    assert(s.len() == 7);
    lemma_q_hadamard_entry(x, y, 0, 2694253, 26100360, 0, 1);
    lemma_q_hadamard_entry(x, y, 1, 0, 1, 0, 1);
    lemma_q_hadamard_entry(x, y, 2, 83647323, 535804360, 8, 2187);
    lemma_q_hadamard_entry(x, y, 3, 691202281, 1789061040, 9, 343);
    lemma_q_hadamard_entry(x, y, 4, -1275547648, 10565208225, 1331, 12288);
    lemma_q_hadamard_entry(x, y, 5, 2, 5, 1000, 6591);
    lemma_q_hadamard_entry(x, y, 6, 1891, 25200, 1, 3);
    assert(q_sum_to(s, 0) == q(0, 1));
    lemma_q_eq_value(0, 1, 0, 1);
    lemma_q_sum_step(s, 0, 0, 1, 0, 26100360, 0, 1);
    lemma_q_sum_step(s, 1, 0, 1, 0, 1, 0, 1);
    lemma_q_sum_step(s, 2, 0, 1, 669178584, 1171804135320, 1032683, 1808339715);
    lemma_q_sum_step(s, 3, 1032683, 1808339715, 6220820529, 613647936720, 691168063, 64543817520);
    lemma_q_sum_step(s, 4, 691168063, 64543817520, -1697753919488, 129825278668800, -393427, 166093200);
    lemma_q_sum_step(s, 5, -393427, 166093200, 2000, 32955, 4409, 75600);
    lemma_q_sum_step(s, 6, 4409, 75600, 1891, 75600, 1, 12);
}

proof fn lemma_rktp64_sum_178()
    ensures
        q_eq(q_dot(seq![q(2694253, 26100360), q(0, 1), q(83647323, 535804360), q(691202281, 1789061040), q(-1275547648, 10565208225), q(2, 5), q(1891, 25200)], seq![q(0, 1), q(0, 1), q(0, 1), q(13, 686), q(469, 8192), q(5120, 72501), q(1967, 11346)]), q(1, 24)),
        q_valid(q_dot(seq![q(2694253, 26100360), q(0, 1), q(83647323, 535804360), q(691202281, 1789061040), q(-1275547648, 10565208225), q(2, 5), q(1891, 25200)], seq![q(0, 1), q(0, 1), q(0, 1), q(13, 686), q(469, 8192), q(5120, 72501), q(1967, 11346)])),
{
    let x = seq![q(2694253, 26100360), q(0, 1), q(83647323, 535804360), q(691202281, 1789061040), q(-1275547648, 10565208225), q(2, 5), q(1891, 25200)];
    let y = seq![q(0, 1), q(0, 1), q(0, 1), q(13, 686), q(469, 8192), q(5120, 72501), q(1967, 11346)];
    let s = q_hadamard(x, y);
    assert(s.len() == 7);
    lemma_q_hadamard_entry(x, y, 0, 2694253, 26100360, 0, 1);
    lemma_q_hadamard_entry(x, y, 1, 0, 1, 0, 1);
    lemma_q_hadamard_entry(x, y, 2, 83647323, 535804360, 0, 1);
    lemma_q_hadamard_entry(x, y, 3, 691202281, 1789061040, 13, 686);
    lemma_q_hadamard_entry(x, y, 4, -1275547648, 10565208225, 469, 8192);
    lemma_q_hadamard_entry(x, y, 5, 2, 5, 5120, 72501);
    lemma_q_hadamard_entry(x, y, 6, 1891, 25200, 1967, 11346);
    assert(q_sum_to(s, 0) == q(0, 1));
    lemma_q_eq_value(0, 1, 0, 1);
    lemma_q_sum_step(s, 0, 0, 1, 0, 26100360, 0, 1);
    lemma_q_sum_step(s, 1, 0, 1, 0, 1, 0, 1);
    lemma_q_sum_step(s, 2, 0, 1, 0, 535804360, 0, 1);
    lemma_q_sum_step(s, 3, 0, 1, 8985629653, 1227295873440, 2015167, 275240160);
    lemma_q_sum_step(s, 4, 2015167, 275240160, -598231846912, 86550185779200, 213773, 522007200);
    lemma_q_sum_step(s, 5, 213773, 522007200, 10240, 362505, 619, 21600);
    lemma_q_sum_step(s, 6, 619, 21600, 3719597, 285919200, 1, 24);
}

proof fn lemma_rktp64_shape()
    ensures
        well_shaped(rktp64_model(), 7, 5),
        is_explicit(rktp64_model()),
{
    let m = rktp64_model();
    assert forall|k: int, l: int| 0 <= k < 7 && 0 <= l < 7 implies q_valid(#[trigger] m.a[k][l]) && (k <= l ==> q_is_zero(m.a[k][l])) by {
        if k == 0 {
            if l == 0 {
            } else if l == 1 {
            } else if l == 2 {
            } else if l == 3 {
            } else if l == 4 {
            } else if l == 5 {
            } else if l == 6 {
            }
        } else if k == 1 {
            if l == 0 {
            } else if l == 1 {
            } else if l == 2 {
            } else if l == 3 {
            } else if l == 4 {
            } else if l == 5 {
            } else if l == 6 {
            }
        } else if k == 2 {
            if l == 0 {
            } else if l == 1 {
            } else if l == 2 {
            } else if l == 3 {
            } else if l == 4 {
            } else if l == 5 {
            } else if l == 6 {
            }
        } else if k == 3 {
            if l == 0 {
            } else if l == 1 {
            } else if l == 2 {
            } else if l == 3 {
            } else if l == 4 {
            } else if l == 5 {
            } else if l == 6 {
            }
        } else if k == 4 {
            if l == 0 {
            } else if l == 1 {
            } else if l == 2 {
            } else if l == 3 {
            } else if l == 4 {
            } else if l == 5 {
            } else if l == 6 {
            }
        } else if k == 5 {
            if l == 0 {
            } else if l == 1 {
            } else if l == 2 {
            } else if l == 3 {
            } else if l == 4 {
            } else if l == 5 {
            } else if l == 6 {
            }
        } else if k == 6 {
            if l == 0 {
            } else if l == 1 {
            } else if l == 2 {
            } else if l == 3 {
            } else if l == 4 {
            } else if l == 5 {
            } else if l == 6 {
            }
        }
    }
    assert forall|k: int, l: int| 0 <= k < 7 && 0 <= l < 5 implies q_valid(#[trigger] m.bi[k][l]) by {
        if k == 0 {
            if l == 0 {
            } else if l == 1 {
            } else if l == 2 {
            } else if l == 3 {
            } else if l == 4 {
            }
        } else if k == 1 {
            if l == 0 {
            } else if l == 1 {
            } else if l == 2 {
            } else if l == 3 {
            } else if l == 4 {
            }
        } else if k == 2 {
            if l == 0 {
            } else if l == 1 {
            } else if l == 2 {
            } else if l == 3 {
            } else if l == 4 {
            }
        } else if k == 3 {
            if l == 0 {
            } else if l == 1 {
            } else if l == 2 {
            } else if l == 3 {
            } else if l == 4 {
            }
        } else if k == 4 {
            if l == 0 {
            } else if l == 1 {
            } else if l == 2 {
            } else if l == 3 {
            } else if l == 4 {
            }
        } else if k == 5 {
            if l == 0 {
            } else if l == 1 {
            } else if l == 2 {
            } else if l == 3 {
            } else if l == 4 {
            }
        } else if k == 6 {
            if l == 0 {
            } else if l == 1 {
            } else if l == 2 {
            } else if l == 3 {
            } else if l == 4 {
            }
        }
    }
    assert forall|k: int| 0 <= k < 7 implies #[trigger] m.a[k].len() == 7 && m.bi[k].len() == 5 && q_valid(m.b[k]) && q_valid(m.b2[k]) && q_valid(m.c[k]) by {
        if k == 0 {
        } else if k == 1 {
        } else if k == 2 {
        } else if k == 3 {
        } else if k == 4 {
        } else if k == 5 {
        } else if k == 6 {
        }
    }
}

proof fn lemma_rktp64_rows()
    ensures
        nodes_are_row_sums(rktp64_model()),
        interpolation_is_continuous(rktp64_model()),
{
    let m = rktp64_model();
    assert forall|i: int|
        #![trigger m.c[i]]
        #![trigger m.bi[i]]
        0 <= i < 7 implies q_eq(m.c[i], q_total(m.a[i])) && q_is_zero(m.bi[i][0]) && q_eq(q_total(m.bi[i]), m.b[i]) by {
        if i == 0 {
            assert(m.a[0] == seq![q(0, 1), q(0, 1), q(0, 1), q(0, 1), q(0, 1), q(0, 1), q(0, 1)] && m.bi[0] == seq![q(0, 1), q(1, 1), q(-287, 90), q(98, 27), q(-7387, 5400)]);
            lemma_rktp64_sum_1();
            lemma_rktp64_sum_2();
            lemma_q_eq_symmetric(q_total(m.a[0]), q(0, 1));
            assert(m.c[0] == q(0, 1) && m.b[0] == q(131, 1800));
        } else if i == 1 {
            assert(m.a[1] == seq![q(4, 27), q(0, 1), q(0, 1), q(0, 1), q(0, 1), q(0, 1), q(0, 1)] && m.bi[1] == seq![q(0, 1), q(0, 1), q(0, 1), q(0, 1), q(0, 1)]);
            lemma_rktp64_sum_3();
            lemma_rktp64_sum_4();
            lemma_q_eq_symmetric(q_total(m.a[1]), q(4, 27));
            assert(m.c[1] == q(4, 27) && m.b[1] == q(0, 1));
        } else if i == 2 {
            assert(m.a[2] == seq![q(1, 18), q(1, 6), q(0, 1), q(0, 1), q(0, 1), q(0, 1), q(0, 1)] && m.bi[2] == seq![q(0, 1), q(0, 1), q(191241, 60970), q(-29727, 6097), q(7907787, 3902080)]);
            lemma_rktp64_sum_5();
            lemma_rktp64_sum_6();
            lemma_q_eq_symmetric(q_total(m.a[2]), q(2, 9));
            assert(m.c[2] == q(2, 9) && m.b[2] == q(1121931, 3902080));
        } else if i == 3 {
            assert(m.a[3] == seq![q(66, 343), q(-729, 1372), q(1053, 1372), q(0, 1), q(0, 1), q(0, 1), q(0, 1)] && m.bi[3] == seq![q(0, 1), q(0, 1), q(195853, 135720), q(-3773, 1404), q(36199877, 25243920)]);
            lemma_rktp64_sum_7();
            lemma_rktp64_sum_8();
            lemma_q_eq_symmetric(q_total(m.a[3]), q(3, 7));
            assert(m.c[3] == q(3, 7) && m.b[3] == q(319333, 1682928));
        } else if i == 4 {
            assert(m.a[4] == seq![q(13339, 49152), q(-4617, 16384), q(5427, 53248), q(95207, 159744), q(0, 1), q(0, 1), q(0, 1)] && m.bi[4] == seq![q(0, 1), q(0, 1), q(-268288, 145725), q(16384, 3015), q(-5183488, 1486395)]);
            lemma_rktp64_sum_9();
            lemma_rktp64_sum_10();
            lemma_q_eq_symmetric(q_total(m.a[4]), q(11, 16));
            assert(m.c[4] == q(11, 16) && m.b[4] == q(262144, 2477325));
        } else if i == 5 {
            assert(m.a[5] == seq![q(-6935, 57122), q(23085, 48334), q(33363360, 273642941), q(972160, 118442467), q(172687360, 610434253), q(0, 1), q(0, 1)] && m.bi[5] == seq![q(0, 1), q(0, 1), q(0, 1), q(0, 1), q(4084223, 15177600)]);
            lemma_rktp64_sum_11();
            lemma_rktp64_sum_12();
            lemma_q_eq_symmetric(q_total(m.a[5]), q(10, 13));
            assert(m.c[5] == q(10, 13) && m.b[5] == q(4084223, 15177600));
        } else if i == 6 {
            assert(m.a[6] == seq![q(611, 1891), q(-4617, 7564), q(6041007, 13176488), q(12708836, 22100117), q(-35840000, 62461621), q(6597591, 7972456), q(0, 1)] && m.bi[6] == seq![q(0, 1), q(0, 1), q(1891, 4200), q(-1891, 1260), q(1891, 1680)]);
            lemma_rktp64_sum_13();
            lemma_rktp64_sum_14();
            lemma_q_eq_symmetric(q_total(m.a[6]), q(1, 1));
            assert(m.c[6] == q(1, 1) && m.b[6] == q(1891, 25200));
        }
    }
}

proof fn lemma_rktp64_phi_0()
    ensures
        q_vec_eq(elementary_weights(rktp64_model().a, 0), seq![q(1, 1), q(1, 1), q(1, 1), q(1, 1), q(1, 1), q(1, 1), q(1, 1)]),
{
    let v = elementary_weights(rktp64_model().a, 0);
    let w = seq![q(1, 1), q(1, 1), q(1, 1), q(1, 1), q(1, 1), q(1, 1), q(1, 1)];
    assert(v.len() == 7);
    lemma_q_eq_value(1, 1, 1, 1);
    assert forall|i: int| 0 <= i < 7 implies q_eq(#[trigger] v[i], w[i]) && q_valid(v[i]) by {
        if i == 0 {
            assert(v[0] == q(1, 1) && w[0] == q(1, 1));
        } else if i == 1 {
            assert(v[1] == q(1, 1) && w[1] == q(1, 1));
        } else if i == 2 {
            assert(v[2] == q(1, 1) && w[2] == q(1, 1));
        } else if i == 3 {
            assert(v[3] == q(1, 1) && w[3] == q(1, 1));
        } else if i == 4 {
            assert(v[4] == q(1, 1) && w[4] == q(1, 1));
        } else if i == 5 {
            assert(v[5] == q(1, 1) && w[5] == q(1, 1));
        } else if i == 6 {
            assert(v[6] == q(1, 1) && w[6] == q(1, 1));
        }
    }
    assert forall|i: int| 0 <= i < 7 implies q_valid(#[trigger] w[i]) by {
        if i == 0 {
        } else if i == 1 {
        } else if i == 2 {
        } else if i == 3 {
        } else if i == 4 {
        } else if i == 5 {
        } else if i == 6 {
        }
    }
}

proof fn lemma_rktp64_eval_a_1()
    ensures
        q_vec_eq(q_mat_vec(rktp64_model().a, seq![q(1, 1), q(1, 1), q(1, 1), q(1, 1), q(1, 1), q(1, 1), q(1, 1)]), seq![q(0, 1), q(4, 27), q(2, 9), q(3, 7), q(11, 16), q(10, 13), q(1, 1)]),
{
    let a = rktp64_model().a;
    let v = q_mat_vec(a, seq![q(1, 1), q(1, 1), q(1, 1), q(1, 1), q(1, 1), q(1, 1), q(1, 1)]);
    let w = seq![q(0, 1), q(4, 27), q(2, 9), q(3, 7), q(11, 16), q(10, 13), q(1, 1)];
    assert forall|i: int|
        #![trigger v[i]]
        #![trigger w[i]]
        0 <= i < 7 implies q_eq(v[i], w[i]) && q_valid(v[i]) && q_valid(w[i]) by {
        if i == 0 {
            assert(a[0] == seq![q(0, 1), q(0, 1), q(0, 1), q(0, 1), q(0, 1), q(0, 1), q(0, 1)]);
            lemma_rktp64_sum_15();
            assert(w[0] == q(0, 1));
            lemma_q_eq_value(0, 1, 0, 1);
        } else if i == 1 {
            assert(a[1] == seq![q(4, 27), q(0, 1), q(0, 1), q(0, 1), q(0, 1), q(0, 1), q(0, 1)]);
            lemma_rktp64_sum_16();
            assert(w[1] == q(4, 27));
            lemma_q_eq_value(4, 27, 4, 27);
        } else if i == 2 {
            assert(a[2] == seq![q(1, 18), q(1, 6), q(0, 1), q(0, 1), q(0, 1), q(0, 1), q(0, 1)]);
            lemma_rktp64_sum_17();
            assert(w[2] == q(2, 9));
            lemma_q_eq_value(2, 9, 2, 9);
        } else if i == 3 {
            assert(a[3] == seq![q(66, 343), q(-729, 1372), q(1053, 1372), q(0, 1), q(0, 1), q(0, 1), q(0, 1)]);
            lemma_rktp64_sum_18();
            assert(w[3] == q(3, 7));
            lemma_q_eq_value(3, 7, 3, 7);
        } else if i == 4 {
            assert(a[4] == seq![q(13339, 49152), q(-4617, 16384), q(5427, 53248), q(95207, 159744), q(0, 1), q(0, 1), q(0, 1)]);
            lemma_rktp64_sum_19();
            assert(w[4] == q(11, 16));
            lemma_q_eq_value(11, 16, 11, 16);
        } else if i == 5 {
            assert(a[5] == seq![q(-6935, 57122), q(23085, 48334), q(33363360, 273642941), q(972160, 118442467), q(172687360, 610434253), q(0, 1), q(0, 1)]);
            lemma_rktp64_sum_20();
            assert(w[5] == q(10, 13));
            lemma_q_eq_value(10, 13, 10, 13);
        } else if i == 6 {
            assert(a[6] == seq![q(611, 1891), q(-4617, 7564), q(6041007, 13176488), q(12708836, 22100117), q(-35840000, 62461621), q(6597591, 7972456), q(0, 1)]);
            lemma_rktp64_sum_21();
            assert(w[6] == q(1, 1));
            lemma_q_eq_value(1, 1, 1, 1);
        }
    }
}

proof fn lemma_rktp64_phi_1()
    ensures
        q_vec_eq(elementary_weights(rktp64_model().a, 1), seq![q(0, 1), q(4, 27), q(2, 9), q(3, 7), q(11, 16), q(10, 13), q(1, 1)]),
{
    let a = rktp64_model().a;
    lemma_rktp64_shape();
    lemma_rktp64_phi_0();
    lemma_q_mat_vec_congruent(a, elementary_weights(a, 0), seq![q(1, 1), q(1, 1), q(1, 1), q(1, 1), q(1, 1), q(1, 1), q(1, 1)]);
    lemma_rktp64_eval_a_1();
    lemma_q_vec_eq_trans(q_mat_vec(a, elementary_weights(a, 0)), q_mat_vec(a, seq![q(1, 1), q(1, 1), q(1, 1), q(1, 1), q(1, 1), q(1, 1), q(1, 1)]), seq![q(0, 1), q(4, 27), q(2, 9), q(3, 7), q(11, 16), q(10, 13), q(1, 1)]);
}

proof fn lemma_rktp64_eval_a_2()
    ensures
        q_vec_eq(q_mat_vec(rktp64_model().a, seq![q(1, 1), q(1, 1), q(1, 1), q(1, 1), q(1, 1), q(1, 1), q(1, 1)]), seq![q(0, 1), q(4, 27), q(2, 9), q(3, 7), q(11, 16), q(10, 13), q(1, 1)]),
{
    let a = rktp64_model().a;
    let v = q_mat_vec(a, seq![q(1, 1), q(1, 1), q(1, 1), q(1, 1), q(1, 1), q(1, 1), q(1, 1)]);
    let w = seq![q(0, 1), q(4, 27), q(2, 9), q(3, 7), q(11, 16), q(10, 13), q(1, 1)];
    assert forall|i: int|
        #![trigger v[i]]
        #![trigger w[i]]
        0 <= i < 7 implies q_eq(v[i], w[i]) && q_valid(v[i]) && q_valid(w[i]) by {
        if i == 0 {
            assert(a[0] == seq![q(0, 1), q(0, 1), q(0, 1), q(0, 1), q(0, 1), q(0, 1), q(0, 1)]);
            lemma_rktp64_sum_15();
            assert(w[0] == q(0, 1));
            lemma_q_eq_value(0, 1, 0, 1);
        } else if i == 1 {
            assert(a[1] == seq![q(4, 27), q(0, 1), q(0, 1), q(0, 1), q(0, 1), q(0, 1), q(0, 1)]);
            lemma_rktp64_sum_16();
            assert(w[1] == q(4, 27));
            lemma_q_eq_value(4, 27, 4, 27);
        } else if i == 2 {
            assert(a[2] == seq![q(1, 18), q(1, 6), q(0, 1), q(0, 1), q(0, 1), q(0, 1), q(0, 1)]);
            lemma_rktp64_sum_17();
            assert(w[2] == q(2, 9));
            lemma_q_eq_value(2, 9, 2, 9);
        } else if i == 3 {
            assert(a[3] == seq![q(66, 343), q(-729, 1372), q(1053, 1372), q(0, 1), q(0, 1), q(0, 1), q(0, 1)]);
            lemma_rktp64_sum_18();
            assert(w[3] == q(3, 7));
            lemma_q_eq_value(3, 7, 3, 7);
        } else if i == 4 {
            assert(a[4] == seq![q(13339, 49152), q(-4617, 16384), q(5427, 53248), q(95207, 159744), q(0, 1), q(0, 1), q(0, 1)]);
            lemma_rktp64_sum_19();
            assert(w[4] == q(11, 16));
            lemma_q_eq_value(11, 16, 11, 16);
        } else if i == 5 {
            assert(a[5] == seq![q(-6935, 57122), q(23085, 48334), q(33363360, 273642941), q(972160, 118442467), q(172687360, 610434253), q(0, 1), q(0, 1)]);
            lemma_rktp64_sum_20();
            assert(w[5] == q(10, 13));
            lemma_q_eq_value(10, 13, 10, 13);
        } else if i == 6 {
            assert(a[6] == seq![q(611, 1891), q(-4617, 7564), q(6041007, 13176488), q(12708836, 22100117), q(-35840000, 62461621), q(6597591, 7972456), q(0, 1)]);
            lemma_rktp64_sum_21();
            assert(w[6] == q(1, 1));
            lemma_q_eq_value(1, 1, 1, 1);
        }
    }
}

proof fn lemma_rktp64_eval_h_2()
    ensures
        q_vec_eq(q_hadamard(seq![q(0, 1), q(4, 27), q(2, 9), q(3, 7), q(11, 16), q(10, 13), q(1, 1)], seq![q(0, 1), q(4, 27), q(2, 9), q(3, 7), q(11, 16), q(10, 13), q(1, 1)]), seq![q(0, 1), q(16, 729), q(4, 81), q(9, 49), q(121, 256), q(100, 169), q(1, 1)]),
{
    let x = seq![q(0, 1), q(4, 27), q(2, 9), q(3, 7), q(11, 16), q(10, 13), q(1, 1)];
    let y = seq![q(0, 1), q(4, 27), q(2, 9), q(3, 7), q(11, 16), q(10, 13), q(1, 1)];
    let v = q_hadamard(x, y);
    let w = seq![q(0, 1), q(16, 729), q(4, 81), q(9, 49), q(121, 256), q(100, 169), q(1, 1)];
    assert forall|i: int|
        #![trigger v[i]]
        #![trigger w[i]]
        0 <= i < 7 implies q_eq(v[i], w[i]) && q_valid(v[i]) && q_valid(w[i]) by {
        if i == 0 {
            lemma_q_mul_value(0, 1, 0, 1);
            assert(x[0] == q(0, 1) && y[0] == q(0, 1));
            lemma_q_eq_value(0, 1, 0, 1);
            assert(w[0] == q(0, 1));
        } else if i == 1 {
            lemma_q_mul_value(4, 27, 4, 27);
            assert(x[1] == q(4, 27) && y[1] == q(4, 27));
            lemma_q_eq_value(16, 729, 16, 729);
            assert(w[1] == q(16, 729));
        } else if i == 2 {
            lemma_q_mul_value(2, 9, 2, 9);
            assert(x[2] == q(2, 9) && y[2] == q(2, 9));
            lemma_q_eq_value(4, 81, 4, 81);
            assert(w[2] == q(4, 81));
        } else if i == 3 {
            lemma_q_mul_value(3, 7, 3, 7);
            assert(x[3] == q(3, 7) && y[3] == q(3, 7));
            lemma_q_eq_value(9, 49, 9, 49);
            assert(w[3] == q(9, 49));
        } else if i == 4 {
            lemma_q_mul_value(11, 16, 11, 16);
            assert(x[4] == q(11, 16) && y[4] == q(11, 16));
            lemma_q_eq_value(121, 256, 121, 256);
            assert(w[4] == q(121, 256));
        } else if i == 5 {
            lemma_q_mul_value(10, 13, 10, 13);
            assert(x[5] == q(10, 13) && y[5] == q(10, 13));
            lemma_q_eq_value(100, 169, 100, 169);
            assert(w[5] == q(100, 169));
        } else if i == 6 {
            lemma_q_mul_value(1, 1, 1, 1);
            assert(x[6] == q(1, 1) && y[6] == q(1, 1));
            lemma_q_eq_value(1, 1, 1, 1);
            assert(w[6] == q(1, 1));
        }
    }
}

proof fn lemma_rktp64_phi_2()
    ensures
        q_vec_eq(elementary_weights(rktp64_model().a, 2), seq![q(0, 1), q(16, 729), q(4, 81), q(9, 49), q(121, 256), q(100, 169), q(1, 1)]),
{
    let a = rktp64_model().a;
    lemma_rktp64_shape();
    lemma_rktp64_phi_0();
    lemma_q_mat_vec_congruent(a, elementary_weights(a, 0), seq![q(1, 1), q(1, 1), q(1, 1), q(1, 1), q(1, 1), q(1, 1), q(1, 1)]);
    lemma_rktp64_eval_a_2();
    lemma_q_vec_eq_trans(q_mat_vec(a, elementary_weights(a, 0)), q_mat_vec(a, seq![q(1, 1), q(1, 1), q(1, 1), q(1, 1), q(1, 1), q(1, 1), q(1, 1)]), seq![q(0, 1), q(4, 27), q(2, 9), q(3, 7), q(11, 16), q(10, 13), q(1, 1)]);
    lemma_rktp64_phi_1();
    lemma_q_hadamard_congruent(q_mat_vec(a, elementary_weights(a, 0)), seq![q(0, 1), q(4, 27), q(2, 9), q(3, 7), q(11, 16), q(10, 13), q(1, 1)], elementary_weights(a, 1), seq![q(0, 1), q(4, 27), q(2, 9), q(3, 7), q(11, 16), q(10, 13), q(1, 1)]);
    lemma_rktp64_eval_h_2();
    lemma_q_vec_eq_trans(q_hadamard(q_mat_vec(a, elementary_weights(a, 0)), elementary_weights(a, 1)), q_hadamard(seq![q(0, 1), q(4, 27), q(2, 9), q(3, 7), q(11, 16), q(10, 13), q(1, 1)], seq![q(0, 1), q(4, 27), q(2, 9), q(3, 7), q(11, 16), q(10, 13), q(1, 1)]), seq![q(0, 1), q(16, 729), q(4, 81), q(9, 49), q(121, 256), q(100, 169), q(1, 1)]);
}

proof fn lemma_rktp64_eval_a_3()
    ensures
        q_vec_eq(q_mat_vec(rktp64_model().a, seq![q(0, 1), q(4, 27), q(2, 9), q(3, 7), q(11, 16), q(10, 13), q(1, 1)]), seq![q(0, 1), q(0, 1), q(2, 81), q(9, 98), q(121, 512), q(50, 169), q(1, 2)]),
{
    let a = rktp64_model().a;
    let v = q_mat_vec(a, seq![q(0, 1), q(4, 27), q(2, 9), q(3, 7), q(11, 16), q(10, 13), q(1, 1)]);
    let w = seq![q(0, 1), q(0, 1), q(2, 81), q(9, 98), q(121, 512), q(50, 169), q(1, 2)];
    assert forall|i: int|
        #![trigger v[i]]
        #![trigger w[i]]
        0 <= i < 7 implies q_eq(v[i], w[i]) && q_valid(v[i]) && q_valid(w[i]) by {
        if i == 0 {
            assert(a[0] == seq![q(0, 1), q(0, 1), q(0, 1), q(0, 1), q(0, 1), q(0, 1), q(0, 1)]);
            lemma_rktp64_sum_22();
            assert(w[0] == q(0, 1));
            lemma_q_eq_value(0, 1, 0, 1);
        } else if i == 1 {
            assert(a[1] == seq![q(4, 27), q(0, 1), q(0, 1), q(0, 1), q(0, 1), q(0, 1), q(0, 1)]);
            lemma_rktp64_sum_23();
            assert(w[1] == q(0, 1));
            lemma_q_eq_value(0, 1, 0, 1);
        } else if i == 2 {
            assert(a[2] == seq![q(1, 18), q(1, 6), q(0, 1), q(0, 1), q(0, 1), q(0, 1), q(0, 1)]);
            lemma_rktp64_sum_24();
            assert(w[2] == q(2, 81));
            lemma_q_eq_value(2, 81, 2, 81);
        } else if i == 3 {
            assert(a[3] == seq![q(66, 343), q(-729, 1372), q(1053, 1372), q(0, 1), q(0, 1), q(0, 1), q(0, 1)]);
            lemma_rktp64_sum_25();
            assert(w[3] == q(9, 98));
            lemma_q_eq_value(9, 98, 9, 98);
        } else if i == 4 {
            assert(a[4] == seq![q(13339, 49152), q(-4617, 16384), q(5427, 53248), q(95207, 159744), q(0, 1), q(0, 1), q(0, 1)]);
            lemma_rktp64_sum_26();
            assert(w[4] == q(121, 512));
            lemma_q_eq_value(121, 512, 121, 512);
        } else if i == 5 {
            assert(a[5] == seq![q(-6935, 57122), q(23085, 48334), q(33363360, 273642941), q(972160, 118442467), q(172687360, 610434253), q(0, 1), q(0, 1)]);
            lemma_rktp64_sum_27();
            assert(w[5] == q(50, 169));
            lemma_q_eq_value(50, 169, 50, 169);
        } else if i == 6 {
            assert(a[6] == seq![q(611, 1891), q(-4617, 7564), q(6041007, 13176488), q(12708836, 22100117), q(-35840000, 62461621), q(6597591, 7972456), q(0, 1)]);
            lemma_rktp64_sum_28();
            assert(w[6] == q(1, 2));
            lemma_q_eq_value(1, 2, 1, 2);
        }
    }
}

proof fn lemma_rktp64_phi_3()
    ensures
        q_vec_eq(elementary_weights(rktp64_model().a, 3), seq![q(0, 1), q(0, 1), q(2, 81), q(9, 98), q(121, 512), q(50, 169), q(1, 2)]),
{
    let a = rktp64_model().a;
    lemma_rktp64_shape();
    lemma_rktp64_phi_1();
    lemma_q_mat_vec_congruent(a, elementary_weights(a, 1), seq![q(0, 1), q(4, 27), q(2, 9), q(3, 7), q(11, 16), q(10, 13), q(1, 1)]);
    lemma_rktp64_eval_a_3();
    lemma_q_vec_eq_trans(q_mat_vec(a, elementary_weights(a, 1)), q_mat_vec(a, seq![q(0, 1), q(4, 27), q(2, 9), q(3, 7), q(11, 16), q(10, 13), q(1, 1)]), seq![q(0, 1), q(0, 1), q(2, 81), q(9, 98), q(121, 512), q(50, 169), q(1, 2)]);
}

proof fn lemma_rktp64_eval_a_4()
    ensures
        q_vec_eq(q_mat_vec(rktp64_model().a, seq![q(1, 1), q(1, 1), q(1, 1), q(1, 1), q(1, 1), q(1, 1), q(1, 1)]), seq![q(0, 1), q(4, 27), q(2, 9), q(3, 7), q(11, 16), q(10, 13), q(1, 1)]),
{
    let a = rktp64_model().a;
    let v = q_mat_vec(a, seq![q(1, 1), q(1, 1), q(1, 1), q(1, 1), q(1, 1), q(1, 1), q(1, 1)]);
    let w = seq![q(0, 1), q(4, 27), q(2, 9), q(3, 7), q(11, 16), q(10, 13), q(1, 1)];
    assert forall|i: int|
        #![trigger v[i]]
        #![trigger w[i]]
        0 <= i < 7 implies q_eq(v[i], w[i]) && q_valid(v[i]) && q_valid(w[i]) by {
        if i == 0 {
            assert(a[0] == seq![q(0, 1), q(0, 1), q(0, 1), q(0, 1), q(0, 1), q(0, 1), q(0, 1)]);
            lemma_rktp64_sum_15();
            assert(w[0] == q(0, 1));
            lemma_q_eq_value(0, 1, 0, 1);
        } else if i == 1 {
            assert(a[1] == seq![q(4, 27), q(0, 1), q(0, 1), q(0, 1), q(0, 1), q(0, 1), q(0, 1)]);
            lemma_rktp64_sum_16();
            assert(w[1] == q(4, 27));
            lemma_q_eq_value(4, 27, 4, 27);
        } else if i == 2 {
            assert(a[2] == seq![q(1, 18), q(1, 6), q(0, 1), q(0, 1), q(0, 1), q(0, 1), q(0, 1)]);
            lemma_rktp64_sum_17();
            assert(w[2] == q(2, 9));
            lemma_q_eq_value(2, 9, 2, 9);
        } else if i == 3 {
            assert(a[3] == seq![q(66, 343), q(-729, 1372), q(1053, 1372), q(0, 1), q(0, 1), q(0, 1), q(0, 1)]);
            lemma_rktp64_sum_18();
            assert(w[3] == q(3, 7));
            lemma_q_eq_value(3, 7, 3, 7);
        } else if i == 4 {
            assert(a[4] == seq![q(13339, 49152), q(-4617, 16384), q(5427, 53248), q(95207, 159744), q(0, 1), q(0, 1), q(0, 1)]);
            lemma_rktp64_sum_19();
            assert(w[4] == q(11, 16));
            lemma_q_eq_value(11, 16, 11, 16);
        } else if i == 5 {
            assert(a[5] == seq![q(-6935, 57122), q(23085, 48334), q(33363360, 273642941), q(972160, 118442467), q(172687360, 610434253), q(0, 1), q(0, 1)]);
            lemma_rktp64_sum_20();
            assert(w[5] == q(10, 13));
            lemma_q_eq_value(10, 13, 10, 13);
        } else if i == 6 {
            assert(a[6] == seq![q(611, 1891), q(-4617, 7564), q(6041007, 13176488), q(12708836, 22100117), q(-35840000, 62461621), q(6597591, 7972456), q(0, 1)]);
            lemma_rktp64_sum_21();
            assert(w[6] == q(1, 1));
            lemma_q_eq_value(1, 1, 1, 1);
        }
    }
}

proof fn lemma_rktp64_eval_h_4()
    ensures
        q_vec_eq(q_hadamard(seq![q(0, 1), q(4, 27), q(2, 9), q(3, 7), q(11, 16), q(10, 13), q(1, 1)], seq![q(0, 1), q(16, 729), q(4, 81), q(9, 49), q(121, 256), q(100, 169), q(1, 1)]), seq![q(0, 1), q(64, 19683), q(8, 729), q(27, 343), q(1331, 4096), q(1000, 2197), q(1, 1)]),
{
    let x = seq![q(0, 1), q(4, 27), q(2, 9), q(3, 7), q(11, 16), q(10, 13), q(1, 1)];
    let y = seq![q(0, 1), q(16, 729), q(4, 81), q(9, 49), q(121, 256), q(100, 169), q(1, 1)];
    let v = q_hadamard(x, y);
    let w = seq![q(0, 1), q(64, 19683), q(8, 729), q(27, 343), q(1331, 4096), q(1000, 2197), q(1, 1)];
    assert forall|i: int|
        #![trigger v[i]]
        #![trigger w[i]]
        0 <= i < 7 implies q_eq(v[i], w[i]) && q_valid(v[i]) && q_valid(w[i]) by {
        if i == 0 {
            lemma_q_mul_value(0, 1, 0, 1);
            assert(x[0] == q(0, 1) && y[0] == q(0, 1));
            lemma_q_eq_value(0, 1, 0, 1);
            assert(w[0] == q(0, 1));
        } else if i == 1 {
            lemma_q_mul_value(4, 27, 16, 729);
            assert(x[1] == q(4, 27) && y[1] == q(16, 729));
            lemma_q_eq_value(64, 19683, 64, 19683);
            assert(w[1] == q(64, 19683));
        } else if i == 2 {
            lemma_q_mul_value(2, 9, 4, 81);
            assert(x[2] == q(2, 9) && y[2] == q(4, 81));
            lemma_q_eq_value(8, 729, 8, 729);
            assert(w[2] == q(8, 729));
        } else if i == 3 {
            lemma_q_mul_value(3, 7, 9, 49);
            assert(x[3] == q(3, 7) && y[3] == q(9, 49));
            lemma_q_eq_value(27, 343, 27, 343);
            assert(w[3] == q(27, 343));
        } else if i == 4 {
            lemma_q_mul_value(11, 16, 121, 256);
            assert(x[4] == q(11, 16) && y[4] == q(121, 256));
            lemma_q_eq_value(1331, 4096, 1331, 4096);
            assert(w[4] == q(1331, 4096));
        } else if i == 5 {
            lemma_q_mul_value(10, 13, 100, 169);
            assert(x[5] == q(10, 13) && y[5] == q(100, 169));
            lemma_q_eq_value(1000, 2197, 1000, 2197);
            assert(w[5] == q(1000, 2197));
        } else if i == 6 {
            lemma_q_mul_value(1, 1, 1, 1);
            assert(x[6] == q(1, 1) && y[6] == q(1, 1));
            lemma_q_eq_value(1, 1, 1, 1);
            assert(w[6] == q(1, 1));
        }
    }
}

proof fn lemma_rktp64_phi_4()
    ensures
        q_vec_eq(elementary_weights(rktp64_model().a, 4), seq![q(0, 1), q(64, 19683), q(8, 729), q(27, 343), q(1331, 4096), q(1000, 2197), q(1, 1)]),
{
    let a = rktp64_model().a;
    lemma_rktp64_shape();
    lemma_rktp64_phi_0();
    lemma_q_mat_vec_congruent(a, elementary_weights(a, 0), seq![q(1, 1), q(1, 1), q(1, 1), q(1, 1), q(1, 1), q(1, 1), q(1, 1)]);
    lemma_rktp64_eval_a_4();
    lemma_q_vec_eq_trans(q_mat_vec(a, elementary_weights(a, 0)), q_mat_vec(a, seq![q(1, 1), q(1, 1), q(1, 1), q(1, 1), q(1, 1), q(1, 1), q(1, 1)]), seq![q(0, 1), q(4, 27), q(2, 9), q(3, 7), q(11, 16), q(10, 13), q(1, 1)]);
    lemma_rktp64_phi_2();
    lemma_q_hadamard_congruent(q_mat_vec(a, elementary_weights(a, 0)), seq![q(0, 1), q(4, 27), q(2, 9), q(3, 7), q(11, 16), q(10, 13), q(1, 1)], elementary_weights(a, 2), seq![q(0, 1), q(16, 729), q(4, 81), q(9, 49), q(121, 256), q(100, 169), q(1, 1)]);
    lemma_rktp64_eval_h_4();
    lemma_q_vec_eq_trans(q_hadamard(q_mat_vec(a, elementary_weights(a, 0)), elementary_weights(a, 2)), q_hadamard(seq![q(0, 1), q(4, 27), q(2, 9), q(3, 7), q(11, 16), q(10, 13), q(1, 1)], seq![q(0, 1), q(16, 729), q(4, 81), q(9, 49), q(121, 256), q(100, 169), q(1, 1)]), seq![q(0, 1), q(64, 19683), q(8, 729), q(27, 343), q(1331, 4096), q(1000, 2197), q(1, 1)]);
}

proof fn lemma_rktp64_eval_a_5()
    ensures
        q_vec_eq(q_mat_vec(rktp64_model().a, seq![q(1, 1), q(1, 1), q(1, 1), q(1, 1), q(1, 1), q(1, 1), q(1, 1)]), seq![q(0, 1), q(4, 27), q(2, 9), q(3, 7), q(11, 16), q(10, 13), q(1, 1)]),
{
    let a = rktp64_model().a;
    let v = q_mat_vec(a, seq![q(1, 1), q(1, 1), q(1, 1), q(1, 1), q(1, 1), q(1, 1), q(1, 1)]);
    let w = seq![q(0, 1), q(4, 27), q(2, 9), q(3, 7), q(11, 16), q(10, 13), q(1, 1)];
    assert forall|i: int|
        #![trigger v[i]]
        #![trigger w[i]]
        0 <= i < 7 implies q_eq(v[i], w[i]) && q_valid(v[i]) && q_valid(w[i]) by {
        if i == 0 {
            assert(a[0] == seq![q(0, 1), q(0, 1), q(0, 1), q(0, 1), q(0, 1), q(0, 1), q(0, 1)]);
            lemma_rktp64_sum_15();
            assert(w[0] == q(0, 1));
            lemma_q_eq_value(0, 1, 0, 1);
        } else if i == 1 {
            assert(a[1] == seq![q(4, 27), q(0, 1), q(0, 1), q(0, 1), q(0, 1), q(0, 1), q(0, 1)]);
            lemma_rktp64_sum_16();
            assert(w[1] == q(4, 27));
            lemma_q_eq_value(4, 27, 4, 27);
        } else if i == 2 {
            assert(a[2] == seq![q(1, 18), q(1, 6), q(0, 1), q(0, 1), q(0, 1), q(0, 1), q(0, 1)]);
            lemma_rktp64_sum_17();
            assert(w[2] == q(2, 9));
            lemma_q_eq_value(2, 9, 2, 9);
        } else if i == 3 {
            assert(a[3] == seq![q(66, 343), q(-729, 1372), q(1053, 1372), q(0, 1), q(0, 1), q(0, 1), q(0, 1)]);
            lemma_rktp64_sum_18();
            assert(w[3] == q(3, 7));
            lemma_q_eq_value(3, 7, 3, 7);
        } else if i == 4 {
            assert(a[4] == seq![q(13339, 49152), q(-4617, 16384), q(5427, 53248), q(95207, 159744), q(0, 1), q(0, 1), q(0, 1)]);
            lemma_rktp64_sum_19();
            assert(w[4] == q(11, 16));
            lemma_q_eq_value(11, 16, 11, 16);
        } else if i == 5 {
            assert(a[5] == seq![q(-6935, 57122), q(23085, 48334), q(33363360, 273642941), q(972160, 118442467), q(172687360, 610434253), q(0, 1), q(0, 1)]);
            lemma_rktp64_sum_20();
            assert(w[5] == q(10, 13));
            lemma_q_eq_value(10, 13, 10, 13);
        } else if i == 6 {
            assert(a[6] == seq![q(611, 1891), q(-4617, 7564), q(6041007, 13176488), q(12708836, 22100117), q(-35840000, 62461621), q(6597591, 7972456), q(0, 1)]);
            lemma_rktp64_sum_21();
            assert(w[6] == q(1, 1));
            lemma_q_eq_value(1, 1, 1, 1);
        }
    }
}

proof fn lemma_rktp64_eval_h_5()
    ensures
        q_vec_eq(q_hadamard(seq![q(0, 1), q(4, 27), q(2, 9), q(3, 7), q(11, 16), q(10, 13), q(1, 1)], seq![q(0, 1), q(0, 1), q(2, 81), q(9, 98), q(121, 512), q(50, 169), q(1, 2)]), seq![q(0, 1), q(0, 1), q(4, 729), q(27, 686), q(1331, 8192), q(500, 2197), q(1, 2)]),
{
    let x = seq![q(0, 1), q(4, 27), q(2, 9), q(3, 7), q(11, 16), q(10, 13), q(1, 1)];
    let y = seq![q(0, 1), q(0, 1), q(2, 81), q(9, 98), q(121, 512), q(50, 169), q(1, 2)];
    let v = q_hadamard(x, y);
    let w = seq![q(0, 1), q(0, 1), q(4, 729), q(27, 686), q(1331, 8192), q(500, 2197), q(1, 2)];
    assert forall|i: int|
        #![trigger v[i]]
        #![trigger w[i]]
        0 <= i < 7 implies q_eq(v[i], w[i]) && q_valid(v[i]) && q_valid(w[i]) by {
        if i == 0 {
            lemma_q_mul_value(0, 1, 0, 1);
            assert(x[0] == q(0, 1) && y[0] == q(0, 1));
            lemma_q_eq_value(0, 1, 0, 1);
            assert(w[0] == q(0, 1));
        } else if i == 1 {
            lemma_q_mul_value(4, 27, 0, 1);
            assert(x[1] == q(4, 27) && y[1] == q(0, 1));
            lemma_q_eq_value(0, 27, 0, 1);
            assert(w[1] == q(0, 1));
        } else if i == 2 {
            lemma_q_mul_value(2, 9, 2, 81);
            assert(x[2] == q(2, 9) && y[2] == q(2, 81));
            lemma_q_eq_value(4, 729, 4, 729);
            assert(w[2] == q(4, 729));
        } else if i == 3 {
            lemma_q_mul_value(3, 7, 9, 98);
            assert(x[3] == q(3, 7) && y[3] == q(9, 98));
            lemma_q_eq_value(27, 686, 27, 686);
            assert(w[3] == q(27, 686));
        } else if i == 4 {
            lemma_q_mul_value(11, 16, 121, 512);
            assert(x[4] == q(11, 16) && y[4] == q(121, 512));
            lemma_q_eq_value(1331, 8192, 1331, 8192);
            assert(w[4] == q(1331, 8192));
        } else if i == 5 {
            lemma_q_mul_value(10, 13, 50, 169);
            assert(x[5] == q(10, 13) && y[5] == q(50, 169));
            lemma_q_eq_value(500, 2197, 500, 2197);
            assert(w[5] == q(500, 2197));
        } else if i == 6 {
            lemma_q_mul_value(1, 1, 1, 2);
            assert(x[6] == q(1, 1) && y[6] == q(1, 2));
            lemma_q_eq_value(1, 2, 1, 2);
            assert(w[6] == q(1, 2));
        }
    }
}

proof fn lemma_rktp64_phi_5()
    ensures
        q_vec_eq(elementary_weights(rktp64_model().a, 5), seq![q(0, 1), q(0, 1), q(4, 729), q(27, 686), q(1331, 8192), q(500, 2197), q(1, 2)]),
{
    let a = rktp64_model().a;
    lemma_rktp64_shape();
    lemma_rktp64_phi_0();
    lemma_q_mat_vec_congruent(a, elementary_weights(a, 0), seq![q(1, 1), q(1, 1), q(1, 1), q(1, 1), q(1, 1), q(1, 1), q(1, 1)]);
    lemma_rktp64_eval_a_5();
    lemma_q_vec_eq_trans(q_mat_vec(a, elementary_weights(a, 0)), q_mat_vec(a, seq![q(1, 1), q(1, 1), q(1, 1), q(1, 1), q(1, 1), q(1, 1), q(1, 1)]), seq![q(0, 1), q(4, 27), q(2, 9), q(3, 7), q(11, 16), q(10, 13), q(1, 1)]);
    lemma_rktp64_phi_3();
    lemma_q_hadamard_congruent(q_mat_vec(a, elementary_weights(a, 0)), seq![q(0, 1), q(4, 27), q(2, 9), q(3, 7), q(11, 16), q(10, 13), q(1, 1)], elementary_weights(a, 3), seq![q(0, 1), q(0, 1), q(2, 81), q(9, 98), q(121, 512), q(50, 169), q(1, 2)]);
    lemma_rktp64_eval_h_5();
    lemma_q_vec_eq_trans(q_hadamard(q_mat_vec(a, elementary_weights(a, 0)), elementary_weights(a, 3)), q_hadamard(seq![q(0, 1), q(4, 27), q(2, 9), q(3, 7), q(11, 16), q(10, 13), q(1, 1)], seq![q(0, 1), q(0, 1), q(2, 81), q(9, 98), q(121, 512), q(50, 169), q(1, 2)]), seq![q(0, 1), q(0, 1), q(4, 729), q(27, 686), q(1331, 8192), q(500, 2197), q(1, 2)]);
}

proof fn lemma_rktp64_eval_a_6()
    ensures
        q_vec_eq(q_mat_vec(rktp64_model().a, seq![q(0, 1), q(16, 729), q(4, 81), q(9, 49), q(121, 256), q(100, 169), q(1, 1)]), seq![q(0, 1), q(0, 1), q(8, 2187), q(9, 343), q(1331, 12288), q(1000, 6591), q(1, 3)]),
{
    let a = rktp64_model().a;
    let v = q_mat_vec(a, seq![q(0, 1), q(16, 729), q(4, 81), q(9, 49), q(121, 256), q(100, 169), q(1, 1)]);
    let w = seq![q(0, 1), q(0, 1), q(8, 2187), q(9, 343), q(1331, 12288), q(1000, 6591), q(1, 3)];
    assert forall|i: int|
        #![trigger v[i]]
        #![trigger w[i]]
        0 <= i < 7 implies q_eq(v[i], w[i]) && q_valid(v[i]) && q_valid(w[i]) by {
        if i == 0 {
            assert(a[0] == seq![q(0, 1), q(0, 1), q(0, 1), q(0, 1), q(0, 1), q(0, 1), q(0, 1)]);
            lemma_rktp64_sum_29();
            assert(w[0] == q(0, 1));
            lemma_q_eq_value(0, 1, 0, 1);
        } else if i == 1 {
            assert(a[1] == seq![q(4, 27), q(0, 1), q(0, 1), q(0, 1), q(0, 1), q(0, 1), q(0, 1)]);
            lemma_rktp64_sum_30();
            assert(w[1] == q(0, 1));
            lemma_q_eq_value(0, 1, 0, 1);
        } else if i == 2 {
            assert(a[2] == seq![q(1, 18), q(1, 6), q(0, 1), q(0, 1), q(0, 1), q(0, 1), q(0, 1)]);
            lemma_rktp64_sum_31();
            assert(w[2] == q(8, 2187));
            lemma_q_eq_value(8, 2187, 8, 2187);
        } else if i == 3 {
            assert(a[3] == seq![q(66, 343), q(-729, 1372), q(1053, 1372), q(0, 1), q(0, 1), q(0, 1), q(0, 1)]);
            lemma_rktp64_sum_32();
            assert(w[3] == q(9, 343));
            lemma_q_eq_value(9, 343, 9, 343);
        } else if i == 4 {
            assert(a[4] == seq![q(13339, 49152), q(-4617, 16384), q(5427, 53248), q(95207, 159744), q(0, 1), q(0, 1), q(0, 1)]);
            lemma_rktp64_sum_33();
            assert(w[4] == q(1331, 12288));
            lemma_q_eq_value(1331, 12288, 1331, 12288);
        } else if i == 5 {
            assert(a[5] == seq![q(-6935, 57122), q(23085, 48334), q(33363360, 273642941), q(972160, 118442467), q(172687360, 610434253), q(0, 1), q(0, 1)]);
            lemma_rktp64_sum_34();
            assert(w[5] == q(1000, 6591));
            lemma_q_eq_value(1000, 6591, 1000, 6591);
        } else if i == 6 {
            assert(a[6] == seq![q(611, 1891), q(-4617, 7564), q(6041007, 13176488), q(12708836, 22100117), q(-35840000, 62461621), q(6597591, 7972456), q(0, 1)]);
            lemma_rktp64_sum_35();
            assert(w[6] == q(1, 3));
            lemma_q_eq_value(1, 3, 1, 3);
        }
    }
}

proof fn lemma_rktp64_phi_6()
    ensures
        q_vec_eq(elementary_weights(rktp64_model().a, 6), seq![q(0, 1), q(0, 1), q(8, 2187), q(9, 343), q(1331, 12288), q(1000, 6591), q(1, 3)]),
{
    let a = rktp64_model().a;
    lemma_rktp64_shape();
    lemma_rktp64_phi_2();
    lemma_q_mat_vec_congruent(a, elementary_weights(a, 2), seq![q(0, 1), q(16, 729), q(4, 81), q(9, 49), q(121, 256), q(100, 169), q(1, 1)]);
    lemma_rktp64_eval_a_6();
    lemma_q_vec_eq_trans(q_mat_vec(a, elementary_weights(a, 2)), q_mat_vec(a, seq![q(0, 1), q(16, 729), q(4, 81), q(9, 49), q(121, 256), q(100, 169), q(1, 1)]), seq![q(0, 1), q(0, 1), q(8, 2187), q(9, 343), q(1331, 12288), q(1000, 6591), q(1, 3)]);
}

proof fn lemma_rktp64_eval_a_7()
    ensures
        q_vec_eq(q_mat_vec(rktp64_model().a, seq![q(0, 1), q(0, 1), q(2, 81), q(9, 98), q(121, 512), q(50, 169), q(1, 2)]), seq![q(0, 1), q(0, 1), q(0, 1), q(13, 686), q(469, 8192), q(5120, 72501), q(1967, 11346)]),
{
    let a = rktp64_model().a;
    let v = q_mat_vec(a, seq![q(0, 1), q(0, 1), q(2, 81), q(9, 98), q(121, 512), q(50, 169), q(1, 2)]);
    let w = seq![q(0, 1), q(0, 1), q(0, 1), q(13, 686), q(469, 8192), q(5120, 72501), q(1967, 11346)];
    assert forall|i: int|
        #![trigger v[i]]
        #![trigger w[i]]
        0 <= i < 7 implies q_eq(v[i], w[i]) && q_valid(v[i]) && q_valid(w[i]) by {
        if i == 0 {
            assert(a[0] == seq![q(0, 1), q(0, 1), q(0, 1), q(0, 1), q(0, 1), q(0, 1), q(0, 1)]);
            lemma_rktp64_sum_36();
            assert(w[0] == q(0, 1));
            lemma_q_eq_value(0, 1, 0, 1);
        } else if i == 1 {
            assert(a[1] == seq![q(4, 27), q(0, 1), q(0, 1), q(0, 1), q(0, 1), q(0, 1), q(0, 1)]);
            lemma_rktp64_sum_37();
            assert(w[1] == q(0, 1));
            lemma_q_eq_value(0, 1, 0, 1);
        } else if i == 2 {
            assert(a[2] == seq![q(1, 18), q(1, 6), q(0, 1), q(0, 1), q(0, 1), q(0, 1), q(0, 1)]);
            lemma_rktp64_sum_38();
            assert(w[2] == q(0, 1));
            lemma_q_eq_value(0, 1, 0, 1);
        } else if i == 3 {
            assert(a[3] == seq![q(66, 343), q(-729, 1372), q(1053, 1372), q(0, 1), q(0, 1), q(0, 1), q(0, 1)]);
            lemma_rktp64_sum_39();
            assert(w[3] == q(13, 686));
            lemma_q_eq_value(13, 686, 13, 686);
        } else if i == 4 {
            assert(a[4] == seq![q(13339, 49152), q(-4617, 16384), q(5427, 53248), q(95207, 159744), q(0, 1), q(0, 1), q(0, 1)]);
            lemma_rktp64_sum_40();
            assert(w[4] == q(469, 8192));
            lemma_q_eq_value(469, 8192, 469, 8192);
        } else if i == 5 {
            assert(a[5] == seq![q(-6935, 57122), q(23085, 48334), q(33363360, 273642941), q(972160, 118442467), q(172687360, 610434253), q(0, 1), q(0, 1)]);
            lemma_rktp64_sum_41();
            assert(w[5] == q(5120, 72501));
            lemma_q_eq_value(5120, 72501, 5120, 72501);
        } else if i == 6 {
            assert(a[6] == seq![q(611, 1891), q(-4617, 7564), q(6041007, 13176488), q(12708836, 22100117), q(-35840000, 62461621), q(6597591, 7972456), q(0, 1)]);
            lemma_rktp64_sum_42();
            assert(w[6] == q(1967, 11346));
            lemma_q_eq_value(1967, 11346, 1967, 11346);
        }
    }
}

proof fn lemma_rktp64_phi_7()
    ensures
        q_vec_eq(elementary_weights(rktp64_model().a, 7), seq![q(0, 1), q(0, 1), q(0, 1), q(13, 686), q(469, 8192), q(5120, 72501), q(1967, 11346)]),
{
    let a = rktp64_model().a;
    lemma_rktp64_shape();
    lemma_rktp64_phi_3();
    lemma_q_mat_vec_congruent(a, elementary_weights(a, 3), seq![q(0, 1), q(0, 1), q(2, 81), q(9, 98), q(121, 512), q(50, 169), q(1, 2)]);
    lemma_rktp64_eval_a_7();
    lemma_q_vec_eq_trans(q_mat_vec(a, elementary_weights(a, 3)), q_mat_vec(a, seq![q(0, 1), q(0, 1), q(2, 81), q(9, 98), q(121, 512), q(50, 169), q(1, 2)]), seq![q(0, 1), q(0, 1), q(0, 1), q(13, 686), q(469, 8192), q(5120, 72501), q(1967, 11346)]);
}

proof fn lemma_rktp64_eval_a_8()
    ensures
        q_vec_eq(q_mat_vec(rktp64_model().a, seq![q(1, 1), q(1, 1), q(1, 1), q(1, 1), q(1, 1), q(1, 1), q(1, 1)]), seq![q(0, 1), q(4, 27), q(2, 9), q(3, 7), q(11, 16), q(10, 13), q(1, 1)]),
{
    let a = rktp64_model().a;
    let v = q_mat_vec(a, seq![q(1, 1), q(1, 1), q(1, 1), q(1, 1), q(1, 1), q(1, 1), q(1, 1)]);
    let w = seq![q(0, 1), q(4, 27), q(2, 9), q(3, 7), q(11, 16), q(10, 13), q(1, 1)];
    assert forall|i: int|
        #![trigger v[i]]
        #![trigger w[i]]
        0 <= i < 7 implies q_eq(v[i], w[i]) && q_valid(v[i]) && q_valid(w[i]) by {
        if i == 0 {
            assert(a[0] == seq![q(0, 1), q(0, 1), q(0, 1), q(0, 1), q(0, 1), q(0, 1), q(0, 1)]);
            lemma_rktp64_sum_15();
            assert(w[0] == q(0, 1));
            lemma_q_eq_value(0, 1, 0, 1);
        } else if i == 1 {
            assert(a[1] == seq![q(4, 27), q(0, 1), q(0, 1), q(0, 1), q(0, 1), q(0, 1), q(0, 1)]);
            lemma_rktp64_sum_16();
            assert(w[1] == q(4, 27));
            lemma_q_eq_value(4, 27, 4, 27);
        } else if i == 2 {
            assert(a[2] == seq![q(1, 18), q(1, 6), q(0, 1), q(0, 1), q(0, 1), q(0, 1), q(0, 1)]);
            lemma_rktp64_sum_17();
            assert(w[2] == q(2, 9));
            lemma_q_eq_value(2, 9, 2, 9);
        } else if i == 3 {
            assert(a[3] == seq![q(66, 343), q(-729, 1372), q(1053, 1372), q(0, 1), q(0, 1), q(0, 1), q(0, 1)]);
            lemma_rktp64_sum_18();
            assert(w[3] == q(3, 7));
            lemma_q_eq_value(3, 7, 3, 7);
        } else if i == 4 {
            assert(a[4] == seq![q(13339, 49152), q(-4617, 16384), q(5427, 53248), q(95207, 159744), q(0, 1), q(0, 1), q(0, 1)]);
            lemma_rktp64_sum_19();
            assert(w[4] == q(11, 16));
            lemma_q_eq_value(11, 16, 11, 16);
        } else if i == 5 {
            assert(a[5] == seq![q(-6935, 57122), q(23085, 48334), q(33363360, 273642941), q(972160, 118442467), q(172687360, 610434253), q(0, 1), q(0, 1)]);
            lemma_rktp64_sum_20();
            assert(w[5] == q(10, 13));
            lemma_q_eq_value(10, 13, 10, 13);
        } else if i == 6 {
            assert(a[6] == seq![q(611, 1891), q(-4617, 7564), q(6041007, 13176488), q(12708836, 22100117), q(-35840000, 62461621), q(6597591, 7972456), q(0, 1)]);
            lemma_rktp64_sum_21();
            assert(w[6] == q(1, 1));
            lemma_q_eq_value(1, 1, 1, 1);
        }
    }
}

proof fn lemma_rktp64_eval_h_8()
    ensures
        q_vec_eq(q_hadamard(seq![q(0, 1), q(4, 27), q(2, 9), q(3, 7), q(11, 16), q(10, 13), q(1, 1)], seq![q(0, 1), q(64, 19683), q(8, 729), q(27, 343), q(1331, 4096), q(1000, 2197), q(1, 1)]), seq![q(0, 1), q(256, 531441), q(16, 6561), q(81, 2401), q(14641, 65536), q(10000, 28561), q(1, 1)]),
{
    let x = seq![q(0, 1), q(4, 27), q(2, 9), q(3, 7), q(11, 16), q(10, 13), q(1, 1)];
    let y = seq![q(0, 1), q(64, 19683), q(8, 729), q(27, 343), q(1331, 4096), q(1000, 2197), q(1, 1)];
    let v = q_hadamard(x, y);
    let w = seq![q(0, 1), q(256, 531441), q(16, 6561), q(81, 2401), q(14641, 65536), q(10000, 28561), q(1, 1)];
    assert forall|i: int|
        #![trigger v[i]]
        #![trigger w[i]]
        0 <= i < 7 implies q_eq(v[i], w[i]) && q_valid(v[i]) && q_valid(w[i]) by {
        if i == 0 {
            lemma_q_mul_value(0, 1, 0, 1);
            assert(x[0] == q(0, 1) && y[0] == q(0, 1));
            lemma_q_eq_value(0, 1, 0, 1);
            assert(w[0] == q(0, 1));
        } else if i == 1 {
            lemma_q_mul_value(4, 27, 64, 19683);
            assert(x[1] == q(4, 27) && y[1] == q(64, 19683));
            lemma_q_eq_value(256, 531441, 256, 531441);
            assert(w[1] == q(256, 531441));
        } else if i == 2 {
            lemma_q_mul_value(2, 9, 8, 729);
            assert(x[2] == q(2, 9) && y[2] == q(8, 729));
            lemma_q_eq_value(16, 6561, 16, 6561);
            assert(w[2] == q(16, 6561));
        } else if i == 3 {
            lemma_q_mul_value(3, 7, 27, 343);
            assert(x[3] == q(3, 7) && y[3] == q(27, 343));
            lemma_q_eq_value(81, 2401, 81, 2401);
            assert(w[3] == q(81, 2401));
        } else if i == 4 {
            lemma_q_mul_value(11, 16, 1331, 4096);
            assert(x[4] == q(11, 16) && y[4] == q(1331, 4096));
            lemma_q_eq_value(14641, 65536, 14641, 65536);
            assert(w[4] == q(14641, 65536));
        } else if i == 5 {
            lemma_q_mul_value(10, 13, 1000, 2197);
            assert(x[5] == q(10, 13) && y[5] == q(1000, 2197));
            lemma_q_eq_value(10000, 28561, 10000, 28561);
            assert(w[5] == q(10000, 28561));
        } else if i == 6 {
            lemma_q_mul_value(1, 1, 1, 1);
            assert(x[6] == q(1, 1) && y[6] == q(1, 1));
            lemma_q_eq_value(1, 1, 1, 1);
            assert(w[6] == q(1, 1));
        }
    }
}

proof fn lemma_rktp64_phi_8()
    ensures
        q_vec_eq(elementary_weights(rktp64_model().a, 8), seq![q(0, 1), q(256, 531441), q(16, 6561), q(81, 2401), q(14641, 65536), q(10000, 28561), q(1, 1)]),
{
    let a = rktp64_model().a;
    lemma_rktp64_shape();
    lemma_rktp64_phi_0();
    lemma_q_mat_vec_congruent(a, elementary_weights(a, 0), seq![q(1, 1), q(1, 1), q(1, 1), q(1, 1), q(1, 1), q(1, 1), q(1, 1)]);
    lemma_rktp64_eval_a_8();
    lemma_q_vec_eq_trans(q_mat_vec(a, elementary_weights(a, 0)), q_mat_vec(a, seq![q(1, 1), q(1, 1), q(1, 1), q(1, 1), q(1, 1), q(1, 1), q(1, 1)]), seq![q(0, 1), q(4, 27), q(2, 9), q(3, 7), q(11, 16), q(10, 13), q(1, 1)]);
    lemma_rktp64_phi_4();
    lemma_q_hadamard_congruent(q_mat_vec(a, elementary_weights(a, 0)), seq![q(0, 1), q(4, 27), q(2, 9), q(3, 7), q(11, 16), q(10, 13), q(1, 1)], elementary_weights(a, 4), seq![q(0, 1), q(64, 19683), q(8, 729), q(27, 343), q(1331, 4096), q(1000, 2197), q(1, 1)]);
    lemma_rktp64_eval_h_8();
    lemma_q_vec_eq_trans(q_hadamard(q_mat_vec(a, elementary_weights(a, 0)), elementary_weights(a, 4)), q_hadamard(seq![q(0, 1), q(4, 27), q(2, 9), q(3, 7), q(11, 16), q(10, 13), q(1, 1)], seq![q(0, 1), q(64, 19683), q(8, 729), q(27, 343), q(1331, 4096), q(1000, 2197), q(1, 1)]), seq![q(0, 1), q(256, 531441), q(16, 6561), q(81, 2401), q(14641, 65536), q(10000, 28561), q(1, 1)]);
}

proof fn lemma_rktp64_eval_a_9()
    ensures
        q_vec_eq(q_mat_vec(rktp64_model().a, seq![q(1, 1), q(1, 1), q(1, 1), q(1, 1), q(1, 1), q(1, 1), q(1, 1)]), seq![q(0, 1), q(4, 27), q(2, 9), q(3, 7), q(11, 16), q(10, 13), q(1, 1)]),
{
    let a = rktp64_model().a;
    let v = q_mat_vec(a, seq![q(1, 1), q(1, 1), q(1, 1), q(1, 1), q(1, 1), q(1, 1), q(1, 1)]);
    let w = seq![q(0, 1), q(4, 27), q(2, 9), q(3, 7), q(11, 16), q(10, 13), q(1, 1)];
    assert forall|i: int|
        #![trigger v[i]]
        #![trigger w[i]]
        0 <= i < 7 implies q_eq(v[i], w[i]) && q_valid(v[i]) && q_valid(w[i]) by {
        if i == 0 {
            assert(a[0] == seq![q(0, 1), q(0, 1), q(0, 1), q(0, 1), q(0, 1), q(0, 1), q(0, 1)]);
            lemma_rktp64_sum_15();
            assert(w[0] == q(0, 1));
            lemma_q_eq_value(0, 1, 0, 1);
        } else if i == 1 {
            assert(a[1] == seq![q(4, 27), q(0, 1), q(0, 1), q(0, 1), q(0, 1), q(0, 1), q(0, 1)]);
            lemma_rktp64_sum_16();
            assert(w[1] == q(4, 27));
            lemma_q_eq_value(4, 27, 4, 27);
        } else if i == 2 {
            assert(a[2] == seq![q(1, 18), q(1, 6), q(0, 1), q(0, 1), q(0, 1), q(0, 1), q(0, 1)]);
            lemma_rktp64_sum_17();
            assert(w[2] == q(2, 9));
            lemma_q_eq_value(2, 9, 2, 9);
        } else if i == 3 {
            assert(a[3] == seq![q(66, 343), q(-729, 1372), q(1053, 1372), q(0, 1), q(0, 1), q(0, 1), q(0, 1)]);
            lemma_rktp64_sum_18();
            assert(w[3] == q(3, 7));
            lemma_q_eq_value(3, 7, 3, 7);
        } else if i == 4 {
            assert(a[4] == seq![q(13339, 49152), q(-4617, 16384), q(5427, 53248), q(95207, 159744), q(0, 1), q(0, 1), q(0, 1)]);
            lemma_rktp64_sum_19();
            assert(w[4] == q(11, 16));
            lemma_q_eq_value(11, 16, 11, 16);
        } else if i == 5 {
            assert(a[5] == seq![q(-6935, 57122), q(23085, 48334), q(33363360, 273642941), q(972160, 118442467), q(172687360, 610434253), q(0, 1), q(0, 1)]);
            lemma_rktp64_sum_20();
            assert(w[5] == q(10, 13));
            lemma_q_eq_value(10, 13, 10, 13);
        } else if i == 6 {
            assert(a[6] == seq![q(611, 1891), q(-4617, 7564), q(6041007, 13176488), q(12708836, 22100117), q(-35840000, 62461621), q(6597591, 7972456), q(0, 1)]);
            lemma_rktp64_sum_21();
            assert(w[6] == q(1, 1));
            lemma_q_eq_value(1, 1, 1, 1);
        }
    }
}

proof fn lemma_rktp64_eval_h_9()
    ensures
        q_vec_eq(q_hadamard(seq![q(0, 1), q(4, 27), q(2, 9), q(3, 7), q(11, 16), q(10, 13), q(1, 1)], seq![q(0, 1), q(0, 1), q(4, 729), q(27, 686), q(1331, 8192), q(500, 2197), q(1, 2)]), seq![q(0, 1), q(0, 1), q(8, 6561), q(81, 4802), q(14641, 131072), q(5000, 28561), q(1, 2)]),
{
    let x = seq![q(0, 1), q(4, 27), q(2, 9), q(3, 7), q(11, 16), q(10, 13), q(1, 1)];
    let y = seq![q(0, 1), q(0, 1), q(4, 729), q(27, 686), q(1331, 8192), q(500, 2197), q(1, 2)];
    let v = q_hadamard(x, y);
    let w = seq![q(0, 1), q(0, 1), q(8, 6561), q(81, 4802), q(14641, 131072), q(5000, 28561), q(1, 2)];
    assert forall|i: int|
        #![trigger v[i]]
        #![trigger w[i]]
        0 <= i < 7 implies q_eq(v[i], w[i]) && q_valid(v[i]) && q_valid(w[i]) by {
        if i == 0 {
            lemma_q_mul_value(0, 1, 0, 1);
            assert(x[0] == q(0, 1) && y[0] == q(0, 1));
            lemma_q_eq_value(0, 1, 0, 1);
            assert(w[0] == q(0, 1));
        } else if i == 1 {
            lemma_q_mul_value(4, 27, 0, 1);
            assert(x[1] == q(4, 27) && y[1] == q(0, 1));
            lemma_q_eq_value(0, 27, 0, 1);
            assert(w[1] == q(0, 1));
        } else if i == 2 {
            lemma_q_mul_value(2, 9, 4, 729);
            assert(x[2] == q(2, 9) && y[2] == q(4, 729));
            lemma_q_eq_value(8, 6561, 8, 6561);
            assert(w[2] == q(8, 6561));
        } else if i == 3 {
            lemma_q_mul_value(3, 7, 27, 686);
            assert(x[3] == q(3, 7) && y[3] == q(27, 686));
            lemma_q_eq_value(81, 4802, 81, 4802);
            assert(w[3] == q(81, 4802));
        } else if i == 4 {
            lemma_q_mul_value(11, 16, 1331, 8192);
            assert(x[4] == q(11, 16) && y[4] == q(1331, 8192));
            lemma_q_eq_value(14641, 131072, 14641, 131072);
            assert(w[4] == q(14641, 131072));
        } else if i == 5 {
            lemma_q_mul_value(10, 13, 500, 2197);
            assert(x[5] == q(10, 13) && y[5] == q(500, 2197));
            lemma_q_eq_value(5000, 28561, 5000, 28561);
            assert(w[5] == q(5000, 28561));
        } else if i == 6 {
            lemma_q_mul_value(1, 1, 1, 2);
            assert(x[6] == q(1, 1) && y[6] == q(1, 2));
            lemma_q_eq_value(1, 2, 1, 2);
            assert(w[6] == q(1, 2));
        }
    }
}

proof fn lemma_rktp64_phi_9()
    ensures
        q_vec_eq(elementary_weights(rktp64_model().a, 9), seq![q(0, 1), q(0, 1), q(8, 6561), q(81, 4802), q(14641, 131072), q(5000, 28561), q(1, 2)]),
{
    let a = rktp64_model().a;
    lemma_rktp64_shape();
    lemma_rktp64_phi_0();
    lemma_q_mat_vec_congruent(a, elementary_weights(a, 0), seq![q(1, 1), q(1, 1), q(1, 1), q(1, 1), q(1, 1), q(1, 1), q(1, 1)]);
    lemma_rktp64_eval_a_9();
    lemma_q_vec_eq_trans(q_mat_vec(a, elementary_weights(a, 0)), q_mat_vec(a, seq![q(1, 1), q(1, 1), q(1, 1), q(1, 1), q(1, 1), q(1, 1), q(1, 1)]), seq![q(0, 1), q(4, 27), q(2, 9), q(3, 7), q(11, 16), q(10, 13), q(1, 1)]);
    lemma_rktp64_phi_5();
    lemma_q_hadamard_congruent(q_mat_vec(a, elementary_weights(a, 0)), seq![q(0, 1), q(4, 27), q(2, 9), q(3, 7), q(11, 16), q(10, 13), q(1, 1)], elementary_weights(a, 5), seq![q(0, 1), q(0, 1), q(4, 729), q(27, 686), q(1331, 8192), q(500, 2197), q(1, 2)]);
    lemma_rktp64_eval_h_9();
    lemma_q_vec_eq_trans(q_hadamard(q_mat_vec(a, elementary_weights(a, 0)), elementary_weights(a, 5)), q_hadamard(seq![q(0, 1), q(4, 27), q(2, 9), q(3, 7), q(11, 16), q(10, 13), q(1, 1)], seq![q(0, 1), q(0, 1), q(4, 729), q(27, 686), q(1331, 8192), q(500, 2197), q(1, 2)]), seq![q(0, 1), q(0, 1), q(8, 6561), q(81, 4802), q(14641, 131072), q(5000, 28561), q(1, 2)]);
}

proof fn lemma_rktp64_eval_a_10()
    ensures
        q_vec_eq(q_mat_vec(rktp64_model().a, seq![q(1, 1), q(1, 1), q(1, 1), q(1, 1), q(1, 1), q(1, 1), q(1, 1)]), seq![q(0, 1), q(4, 27), q(2, 9), q(3, 7), q(11, 16), q(10, 13), q(1, 1)]),
{
    let a = rktp64_model().a;
    let v = q_mat_vec(a, seq![q(1, 1), q(1, 1), q(1, 1), q(1, 1), q(1, 1), q(1, 1), q(1, 1)]);
    let w = seq![q(0, 1), q(4, 27), q(2, 9), q(3, 7), q(11, 16), q(10, 13), q(1, 1)];
    assert forall|i: int|
        #![trigger v[i]]
        #![trigger w[i]]
        0 <= i < 7 implies q_eq(v[i], w[i]) && q_valid(v[i]) && q_valid(w[i]) by {
        if i == 0 {
            assert(a[0] == seq![q(0, 1), q(0, 1), q(0, 1), q(0, 1), q(0, 1), q(0, 1), q(0, 1)]);
            lemma_rktp64_sum_15();
            assert(w[0] == q(0, 1));
            lemma_q_eq_value(0, 1, 0, 1);
        } else if i == 1 {
            assert(a[1] == seq![q(4, 27), q(0, 1), q(0, 1), q(0, 1), q(0, 1), q(0, 1), q(0, 1)]);
            lemma_rktp64_sum_16();
            assert(w[1] == q(4, 27));
            lemma_q_eq_value(4, 27, 4, 27);
        } else if i == 2 {
            assert(a[2] == seq![q(1, 18), q(1, 6), q(0, 1), q(0, 1), q(0, 1), q(0, 1), q(0, 1)]);
            lemma_rktp64_sum_17();
            assert(w[2] == q(2, 9));
            lemma_q_eq_value(2, 9, 2, 9);
        } else if i == 3 {
            assert(a[3] == seq![q(66, 343), q(-729, 1372), q(1053, 1372), q(0, 1), q(0, 1), q(0, 1), q(0, 1)]);
            lemma_rktp64_sum_18();
            assert(w[3] == q(3, 7));
            lemma_q_eq_value(3, 7, 3, 7);
        } else if i == 4 {
            assert(a[4] == seq![q(13339, 49152), q(-4617, 16384), q(5427, 53248), q(95207, 159744), q(0, 1), q(0, 1), q(0, 1)]);
            lemma_rktp64_sum_19();
            assert(w[4] == q(11, 16));
            lemma_q_eq_value(11, 16, 11, 16);
        } else if i == 5 {
            assert(a[5] == seq![q(-6935, 57122), q(23085, 48334), q(33363360, 273642941), q(972160, 118442467), q(172687360, 610434253), q(0, 1), q(0, 1)]);
            lemma_rktp64_sum_20();
            assert(w[5] == q(10, 13));
            lemma_q_eq_value(10, 13, 10, 13);
        } else if i == 6 {
            assert(a[6] == seq![q(611, 1891), q(-4617, 7564), q(6041007, 13176488), q(12708836, 22100117), q(-35840000, 62461621), q(6597591, 7972456), q(0, 1)]);
            lemma_rktp64_sum_21();
            assert(w[6] == q(1, 1));
            lemma_q_eq_value(1, 1, 1, 1);
        }
    }
}

proof fn lemma_rktp64_eval_h_10()
    ensures
        q_vec_eq(q_hadamard(seq![q(0, 1), q(4, 27), q(2, 9), q(3, 7), q(11, 16), q(10, 13), q(1, 1)], seq![q(0, 1), q(0, 1), q(8, 2187), q(9, 343), q(1331, 12288), q(1000, 6591), q(1, 3)]), seq![q(0, 1), q(0, 1), q(16, 19683), q(27, 2401), q(14641, 196608), q(10000, 85683), q(1, 3)]),
{
    let x = seq![q(0, 1), q(4, 27), q(2, 9), q(3, 7), q(11, 16), q(10, 13), q(1, 1)];
    let y = seq![q(0, 1), q(0, 1), q(8, 2187), q(9, 343), q(1331, 12288), q(1000, 6591), q(1, 3)];
    let v = q_hadamard(x, y);
    let w = seq![q(0, 1), q(0, 1), q(16, 19683), q(27, 2401), q(14641, 196608), q(10000, 85683), q(1, 3)];
    assert forall|i: int|
        #![trigger v[i]]
        #![trigger w[i]]
        0 <= i < 7 implies q_eq(v[i], w[i]) && q_valid(v[i]) && q_valid(w[i]) by {
        if i == 0 {
            lemma_q_mul_value(0, 1, 0, 1);
            assert(x[0] == q(0, 1) && y[0] == q(0, 1));
            lemma_q_eq_value(0, 1, 0, 1);
            assert(w[0] == q(0, 1));
        } else if i == 1 {
            lemma_q_mul_value(4, 27, 0, 1);
            assert(x[1] == q(4, 27) && y[1] == q(0, 1));
            lemma_q_eq_value(0, 27, 0, 1);
            assert(w[1] == q(0, 1));
        } else if i == 2 {
            lemma_q_mul_value(2, 9, 8, 2187);
            assert(x[2] == q(2, 9) && y[2] == q(8, 2187));
            lemma_q_eq_value(16, 19683, 16, 19683);
            assert(w[2] == q(16, 19683));
        } else if i == 3 {
            lemma_q_mul_value(3, 7, 9, 343);
            assert(x[3] == q(3, 7) && y[3] == q(9, 343));
            lemma_q_eq_value(27, 2401, 27, 2401);
            assert(w[3] == q(27, 2401));
        } else if i == 4 {
            lemma_q_mul_value(11, 16, 1331, 12288);
            assert(x[4] == q(11, 16) && y[4] == q(1331, 12288));
            lemma_q_eq_value(14641, 196608, 14641, 196608);
            assert(w[4] == q(14641, 196608));
        } else if i == 5 {
            lemma_q_mul_value(10, 13, 1000, 6591);
            assert(x[5] == q(10, 13) && y[5] == q(1000, 6591));
            lemma_q_eq_value(10000, 85683, 10000, 85683);
            assert(w[5] == q(10000, 85683));
        } else if i == 6 {
            lemma_q_mul_value(1, 1, 1, 3);
            assert(x[6] == q(1, 1) && y[6] == q(1, 3));
            lemma_q_eq_value(1, 3, 1, 3);
            assert(w[6] == q(1, 3));
        }
    }
}

proof fn lemma_rktp64_phi_10()
    ensures
        q_vec_eq(elementary_weights(rktp64_model().a, 10), seq![q(0, 1), q(0, 1), q(16, 19683), q(27, 2401), q(14641, 196608), q(10000, 85683), q(1, 3)]),
{
    let a = rktp64_model().a;
    lemma_rktp64_shape();
    lemma_rktp64_phi_0();
    lemma_q_mat_vec_congruent(a, elementary_weights(a, 0), seq![q(1, 1), q(1, 1), q(1, 1), q(1, 1), q(1, 1), q(1, 1), q(1, 1)]);
    lemma_rktp64_eval_a_10();
    lemma_q_vec_eq_trans(q_mat_vec(a, elementary_weights(a, 0)), q_mat_vec(a, seq![q(1, 1), q(1, 1), q(1, 1), q(1, 1), q(1, 1), q(1, 1), q(1, 1)]), seq![q(0, 1), q(4, 27), q(2, 9), q(3, 7), q(11, 16), q(10, 13), q(1, 1)]);
    lemma_rktp64_phi_6();
    lemma_q_hadamard_congruent(q_mat_vec(a, elementary_weights(a, 0)), seq![q(0, 1), q(4, 27), q(2, 9), q(3, 7), q(11, 16), q(10, 13), q(1, 1)], elementary_weights(a, 6), seq![q(0, 1), q(0, 1), q(8, 2187), q(9, 343), q(1331, 12288), q(1000, 6591), q(1, 3)]);
    lemma_rktp64_eval_h_10();
    lemma_q_vec_eq_trans(q_hadamard(q_mat_vec(a, elementary_weights(a, 0)), elementary_weights(a, 6)), q_hadamard(seq![q(0, 1), q(4, 27), q(2, 9), q(3, 7), q(11, 16), q(10, 13), q(1, 1)], seq![q(0, 1), q(0, 1), q(8, 2187), q(9, 343), q(1331, 12288), q(1000, 6591), q(1, 3)]), seq![q(0, 1), q(0, 1), q(16, 19683), q(27, 2401), q(14641, 196608), q(10000, 85683), q(1, 3)]);
}

proof fn lemma_rktp64_eval_a_11()
    ensures
        q_vec_eq(q_mat_vec(rktp64_model().a, seq![q(1, 1), q(1, 1), q(1, 1), q(1, 1), q(1, 1), q(1, 1), q(1, 1)]), seq![q(0, 1), q(4, 27), q(2, 9), q(3, 7), q(11, 16), q(10, 13), q(1, 1)]),
{
    let a = rktp64_model().a;
    let v = q_mat_vec(a, seq![q(1, 1), q(1, 1), q(1, 1), q(1, 1), q(1, 1), q(1, 1), q(1, 1)]);
    let w = seq![q(0, 1), q(4, 27), q(2, 9), q(3, 7), q(11, 16), q(10, 13), q(1, 1)];
    assert forall|i: int|
        #![trigger v[i]]
        #![trigger w[i]]
        0 <= i < 7 implies q_eq(v[i], w[i]) && q_valid(v[i]) && q_valid(w[i]) by {
        if i == 0 {
            assert(a[0] == seq![q(0, 1), q(0, 1), q(0, 1), q(0, 1), q(0, 1), q(0, 1), q(0, 1)]);
            lemma_rktp64_sum_15();
            assert(w[0] == q(0, 1));
            lemma_q_eq_value(0, 1, 0, 1);
        } else if i == 1 {
            assert(a[1] == seq![q(4, 27), q(0, 1), q(0, 1), q(0, 1), q(0, 1), q(0, 1), q(0, 1)]);
            lemma_rktp64_sum_16();
            assert(w[1] == q(4, 27));
            lemma_q_eq_value(4, 27, 4, 27);
        } else if i == 2 {
            assert(a[2] == seq![q(1, 18), q(1, 6), q(0, 1), q(0, 1), q(0, 1), q(0, 1), q(0, 1)]);
            lemma_rktp64_sum_17();
            assert(w[2] == q(2, 9));
            lemma_q_eq_value(2, 9, 2, 9);
        } else if i == 3 {
            assert(a[3] == seq![q(66, 343), q(-729, 1372), q(1053, 1372), q(0, 1), q(0, 1), q(0, 1), q(0, 1)]);
            lemma_rktp64_sum_18();
            assert(w[3] == q(3, 7));
            lemma_q_eq_value(3, 7, 3, 7);
        } else if i == 4 {
            assert(a[4] == seq![q(13339, 49152), q(-4617, 16384), q(5427, 53248), q(95207, 159744), q(0, 1), q(0, 1), q(0, 1)]);
            lemma_rktp64_sum_19();
            assert(w[4] == q(11, 16));
            lemma_q_eq_value(11, 16, 11, 16);
        } else if i == 5 {
            assert(a[5] == seq![q(-6935, 57122), q(23085, 48334), q(33363360, 273642941), q(972160, 118442467), q(172687360, 610434253), q(0, 1), q(0, 1)]);
            lemma_rktp64_sum_20();
            assert(w[5] == q(10, 13));
            lemma_q_eq_value(10, 13, 10, 13);
        } else if i == 6 {
            assert(a[6] == seq![q(611, 1891), q(-4617, 7564), q(6041007, 13176488), q(12708836, 22100117), q(-35840000, 62461621), q(6597591, 7972456), q(0, 1)]);
            lemma_rktp64_sum_21();
            assert(w[6] == q(1, 1));
            lemma_q_eq_value(1, 1, 1, 1);
        }
    }
}

proof fn lemma_rktp64_eval_h_11()
    ensures
        q_vec_eq(q_hadamard(seq![q(0, 1), q(4, 27), q(2, 9), q(3, 7), q(11, 16), q(10, 13), q(1, 1)], seq![q(0, 1), q(0, 1), q(0, 1), q(13, 686), q(469, 8192), q(5120, 72501), q(1967, 11346)]), seq![q(0, 1), q(0, 1), q(0, 1), q(39, 4802), q(5159, 131072), q(51200, 942513), q(1967, 11346)]),
{
    let x = seq![q(0, 1), q(4, 27), q(2, 9), q(3, 7), q(11, 16), q(10, 13), q(1, 1)];
    let y = seq![q(0, 1), q(0, 1), q(0, 1), q(13, 686), q(469, 8192), q(5120, 72501), q(1967, 11346)];
    let v = q_hadamard(x, y);
    let w = seq![q(0, 1), q(0, 1), q(0, 1), q(39, 4802), q(5159, 131072), q(51200, 942513), q(1967, 11346)];
    assert forall|i: int|
        #![trigger v[i]]
        #![trigger w[i]]
        0 <= i < 7 implies q_eq(v[i], w[i]) && q_valid(v[i]) && q_valid(w[i]) by {
        if i == 0 {
            lemma_q_mul_value(0, 1, 0, 1);
            assert(x[0] == q(0, 1) && y[0] == q(0, 1));
            lemma_q_eq_value(0, 1, 0, 1);
            assert(w[0] == q(0, 1));
        } else if i == 1 {
            lemma_q_mul_value(4, 27, 0, 1);
            assert(x[1] == q(4, 27) && y[1] == q(0, 1));
            lemma_q_eq_value(0, 27, 0, 1);
            assert(w[1] == q(0, 1));
        } else if i == 2 {
            lemma_q_mul_value(2, 9, 0, 1);
            assert(x[2] == q(2, 9) && y[2] == q(0, 1));
            lemma_q_eq_value(0, 9, 0, 1);
            assert(w[2] == q(0, 1));
        } else if i == 3 {
            lemma_q_mul_value(3, 7, 13, 686);
            assert(x[3] == q(3, 7) && y[3] == q(13, 686));
            lemma_q_eq_value(39, 4802, 39, 4802);
            assert(w[3] == q(39, 4802));
        } else if i == 4 {
            lemma_q_mul_value(11, 16, 469, 8192);
            assert(x[4] == q(11, 16) && y[4] == q(469, 8192));
            lemma_q_eq_value(5159, 131072, 5159, 131072);
            assert(w[4] == q(5159, 131072));
        } else if i == 5 {
            lemma_q_mul_value(10, 13, 5120, 72501);
            assert(x[5] == q(10, 13) && y[5] == q(5120, 72501));
            lemma_q_eq_value(51200, 942513, 51200, 942513);
            assert(w[5] == q(51200, 942513));
        } else if i == 6 {
            lemma_q_mul_value(1, 1, 1967, 11346);
            assert(x[6] == q(1, 1) && y[6] == q(1967, 11346));
            lemma_q_eq_value(1967, 11346, 1967, 11346);
            assert(w[6] == q(1967, 11346));
        }
    }
}

proof fn lemma_rktp64_phi_11()
    ensures
        q_vec_eq(elementary_weights(rktp64_model().a, 11), seq![q(0, 1), q(0, 1), q(0, 1), q(39, 4802), q(5159, 131072), q(51200, 942513), q(1967, 11346)]),
{
    let a = rktp64_model().a;
    lemma_rktp64_shape();
    lemma_rktp64_phi_0();
    lemma_q_mat_vec_congruent(a, elementary_weights(a, 0), seq![q(1, 1), q(1, 1), q(1, 1), q(1, 1), q(1, 1), q(1, 1), q(1, 1)]);
    lemma_rktp64_eval_a_11();
    lemma_q_vec_eq_trans(q_mat_vec(a, elementary_weights(a, 0)), q_mat_vec(a, seq![q(1, 1), q(1, 1), q(1, 1), q(1, 1), q(1, 1), q(1, 1), q(1, 1)]), seq![q(0, 1), q(4, 27), q(2, 9), q(3, 7), q(11, 16), q(10, 13), q(1, 1)]);
    lemma_rktp64_phi_7();
    lemma_q_hadamard_congruent(q_mat_vec(a, elementary_weights(a, 0)), seq![q(0, 1), q(4, 27), q(2, 9), q(3, 7), q(11, 16), q(10, 13), q(1, 1)], elementary_weights(a, 7), seq![q(0, 1), q(0, 1), q(0, 1), q(13, 686), q(469, 8192), q(5120, 72501), q(1967, 11346)]);
    lemma_rktp64_eval_h_11();
    lemma_q_vec_eq_trans(q_hadamard(q_mat_vec(a, elementary_weights(a, 0)), elementary_weights(a, 7)), q_hadamard(seq![q(0, 1), q(4, 27), q(2, 9), q(3, 7), q(11, 16), q(10, 13), q(1, 1)], seq![q(0, 1), q(0, 1), q(0, 1), q(13, 686), q(469, 8192), q(5120, 72501), q(1967, 11346)]), seq![q(0, 1), q(0, 1), q(0, 1), q(39, 4802), q(5159, 131072), q(51200, 942513), q(1967, 11346)]);
}

proof fn lemma_rktp64_eval_a_12()
    ensures
        q_vec_eq(q_mat_vec(rktp64_model().a, seq![q(0, 1), q(4, 27), q(2, 9), q(3, 7), q(11, 16), q(10, 13), q(1, 1)]), seq![q(0, 1), q(0, 1), q(2, 81), q(9, 98), q(121, 512), q(50, 169), q(1, 2)]),
{
    let a = rktp64_model().a;
    let v = q_mat_vec(a, seq![q(0, 1), q(4, 27), q(2, 9), q(3, 7), q(11, 16), q(10, 13), q(1, 1)]);
    let w = seq![q(0, 1), q(0, 1), q(2, 81), q(9, 98), q(121, 512), q(50, 169), q(1, 2)];
    assert forall|i: int|
        #![trigger v[i]]
        #![trigger w[i]]
        0 <= i < 7 implies q_eq(v[i], w[i]) && q_valid(v[i]) && q_valid(w[i]) by {
        if i == 0 {
            assert(a[0] == seq![q(0, 1), q(0, 1), q(0, 1), q(0, 1), q(0, 1), q(0, 1), q(0, 1)]);
            lemma_rktp64_sum_22();
            assert(w[0] == q(0, 1));
            lemma_q_eq_value(0, 1, 0, 1);
        } else if i == 1 {
            assert(a[1] == seq![q(4, 27), q(0, 1), q(0, 1), q(0, 1), q(0, 1), q(0, 1), q(0, 1)]);
            lemma_rktp64_sum_23();
            assert(w[1] == q(0, 1));
            lemma_q_eq_value(0, 1, 0, 1);
        } else if i == 2 {
            assert(a[2] == seq![q(1, 18), q(1, 6), q(0, 1), q(0, 1), q(0, 1), q(0, 1), q(0, 1)]);
            lemma_rktp64_sum_24();
            assert(w[2] == q(2, 81));
            lemma_q_eq_value(2, 81, 2, 81);
        } else if i == 3 {
            assert(a[3] == seq![q(66, 343), q(-729, 1372), q(1053, 1372), q(0, 1), q(0, 1), q(0, 1), q(0, 1)]);
            lemma_rktp64_sum_25();
            assert(w[3] == q(9, 98));
            lemma_q_eq_value(9, 98, 9, 98);
        } else if i == 4 {
            assert(a[4] == seq![q(13339, 49152), q(-4617, 16384), q(5427, 53248), q(95207, 159744), q(0, 1), q(0, 1), q(0, 1)]);
            lemma_rktp64_sum_26();
            assert(w[4] == q(121, 512));
            lemma_q_eq_value(121, 512, 121, 512);
        } else if i == 5 {
            assert(a[5] == seq![q(-6935, 57122), q(23085, 48334), q(33363360, 273642941), q(972160, 118442467), q(172687360, 610434253), q(0, 1), q(0, 1)]);
            lemma_rktp64_sum_27();
            assert(w[5] == q(50, 169));
            lemma_q_eq_value(50, 169, 50, 169);
        } else if i == 6 {
            assert(a[6] == seq![q(611, 1891), q(-4617, 7564), q(6041007, 13176488), q(12708836, 22100117), q(-35840000, 62461621), q(6597591, 7972456), q(0, 1)]);
            lemma_rktp64_sum_28();
            assert(w[6] == q(1, 2));
            lemma_q_eq_value(1, 2, 1, 2);
        }
    }
}

proof fn lemma_rktp64_eval_h_12()
    ensures
        q_vec_eq(q_hadamard(seq![q(0, 1), q(0, 1), q(2, 81), q(9, 98), q(121, 512), q(50, 169), q(1, 2)], seq![q(0, 1), q(0, 1), q(2, 81), q(9, 98), q(121, 512), q(50, 169), q(1, 2)]), seq![q(0, 1), q(0, 1), q(4, 6561), q(81, 9604), q(14641, 262144), q(2500, 28561), q(1, 4)]),
{
    let x = seq![q(0, 1), q(0, 1), q(2, 81), q(9, 98), q(121, 512), q(50, 169), q(1, 2)];
    let y = seq![q(0, 1), q(0, 1), q(2, 81), q(9, 98), q(121, 512), q(50, 169), q(1, 2)];
    let v = q_hadamard(x, y);
    let w = seq![q(0, 1), q(0, 1), q(4, 6561), q(81, 9604), q(14641, 262144), q(2500, 28561), q(1, 4)];
    assert forall|i: int|
        #![trigger v[i]]
        #![trigger w[i]]
        0 <= i < 7 implies q_eq(v[i], w[i]) && q_valid(v[i]) && q_valid(w[i]) by {
        if i == 0 {
            lemma_q_mul_value(0, 1, 0, 1);
            assert(x[0] == q(0, 1) && y[0] == q(0, 1));
            lemma_q_eq_value(0, 1, 0, 1);
            assert(w[0] == q(0, 1));
        } else if i == 1 {
            lemma_q_mul_value(0, 1, 0, 1);
            assert(x[1] == q(0, 1) && y[1] == q(0, 1));
            lemma_q_eq_value(0, 1, 0, 1);
            assert(w[1] == q(0, 1));
        } else if i == 2 {
            lemma_q_mul_value(2, 81, 2, 81);
            assert(x[2] == q(2, 81) && y[2] == q(2, 81));
            lemma_q_eq_value(4, 6561, 4, 6561);
            assert(w[2] == q(4, 6561));
        } else if i == 3 {
            lemma_q_mul_value(9, 98, 9, 98);
            assert(x[3] == q(9, 98) && y[3] == q(9, 98));
            lemma_q_eq_value(81, 9604, 81, 9604);
            assert(w[3] == q(81, 9604));
        } else if i == 4 {
            lemma_q_mul_value(121, 512, 121, 512);
            assert(x[4] == q(121, 512) && y[4] == q(121, 512));
            lemma_q_eq_value(14641, 262144, 14641, 262144);
            assert(w[4] == q(14641, 262144));
        } else if i == 5 {
            lemma_q_mul_value(50, 169, 50, 169);
            assert(x[5] == q(50, 169) && y[5] == q(50, 169));
            lemma_q_eq_value(2500, 28561, 2500, 28561);
            assert(w[5] == q(2500, 28561));
        } else if i == 6 {
            lemma_q_mul_value(1, 2, 1, 2);
            assert(x[6] == q(1, 2) && y[6] == q(1, 2));
            lemma_q_eq_value(1, 4, 1, 4);
            assert(w[6] == q(1, 4));
        }
    }
}

proof fn lemma_rktp64_phi_12()
    ensures
        q_vec_eq(elementary_weights(rktp64_model().a, 12), seq![q(0, 1), q(0, 1), q(4, 6561), q(81, 9604), q(14641, 262144), q(2500, 28561), q(1, 4)]),
{
    let a = rktp64_model().a;
    lemma_rktp64_shape();
    lemma_rktp64_phi_1();
    lemma_q_mat_vec_congruent(a, elementary_weights(a, 1), seq![q(0, 1), q(4, 27), q(2, 9), q(3, 7), q(11, 16), q(10, 13), q(1, 1)]);
    lemma_rktp64_eval_a_12();
    lemma_q_vec_eq_trans(q_mat_vec(a, elementary_weights(a, 1)), q_mat_vec(a, seq![q(0, 1), q(4, 27), q(2, 9), q(3, 7), q(11, 16), q(10, 13), q(1, 1)]), seq![q(0, 1), q(0, 1), q(2, 81), q(9, 98), q(121, 512), q(50, 169), q(1, 2)]);
    lemma_rktp64_phi_3();
    lemma_q_hadamard_congruent(q_mat_vec(a, elementary_weights(a, 1)), seq![q(0, 1), q(0, 1), q(2, 81), q(9, 98), q(121, 512), q(50, 169), q(1, 2)], elementary_weights(a, 3), seq![q(0, 1), q(0, 1), q(2, 81), q(9, 98), q(121, 512), q(50, 169), q(1, 2)]);
    lemma_rktp64_eval_h_12();
    lemma_q_vec_eq_trans(q_hadamard(q_mat_vec(a, elementary_weights(a, 1)), elementary_weights(a, 3)), q_hadamard(seq![q(0, 1), q(0, 1), q(2, 81), q(9, 98), q(121, 512), q(50, 169), q(1, 2)], seq![q(0, 1), q(0, 1), q(2, 81), q(9, 98), q(121, 512), q(50, 169), q(1, 2)]), seq![q(0, 1), q(0, 1), q(4, 6561), q(81, 9604), q(14641, 262144), q(2500, 28561), q(1, 4)]);
}

proof fn lemma_rktp64_eval_a_13()
    ensures
        q_vec_eq(q_mat_vec(rktp64_model().a, seq![q(0, 1), q(64, 19683), q(8, 729), q(27, 343), q(1331, 4096), q(1000, 2197), q(1, 1)]), seq![q(0, 1), q(0, 1), q(32, 59049), q(62, 9261), q(109427, 2322432), q(17005360, 178134957), q(36536, 153171)]),
{
    let a = rktp64_model().a;
    let v = q_mat_vec(a, seq![q(0, 1), q(64, 19683), q(8, 729), q(27, 343), q(1331, 4096), q(1000, 2197), q(1, 1)]);
    let w = seq![q(0, 1), q(0, 1), q(32, 59049), q(62, 9261), q(109427, 2322432), q(17005360, 178134957), q(36536, 153171)];
    assert forall|i: int|
        #![trigger v[i]]
        #![trigger w[i]]
        0 <= i < 7 implies q_eq(v[i], w[i]) && q_valid(v[i]) && q_valid(w[i]) by {
        if i == 0 {
            assert(a[0] == seq![q(0, 1), q(0, 1), q(0, 1), q(0, 1), q(0, 1), q(0, 1), q(0, 1)]);
            lemma_rktp64_sum_43();
            assert(w[0] == q(0, 1));
            lemma_q_eq_value(0, 1, 0, 1);
        } else if i == 1 {
            assert(a[1] == seq![q(4, 27), q(0, 1), q(0, 1), q(0, 1), q(0, 1), q(0, 1), q(0, 1)]);
            lemma_rktp64_sum_44();
            assert(w[1] == q(0, 1));
            lemma_q_eq_value(0, 1, 0, 1);
        } else if i == 2 {
            assert(a[2] == seq![q(1, 18), q(1, 6), q(0, 1), q(0, 1), q(0, 1), q(0, 1), q(0, 1)]);
            lemma_rktp64_sum_45();
            assert(w[2] == q(32, 59049));
            lemma_q_eq_value(32, 59049, 32, 59049);
        } else if i == 3 {
            assert(a[3] == seq![q(66, 343), q(-729, 1372), q(1053, 1372), q(0, 1), q(0, 1), q(0, 1), q(0, 1)]);
            lemma_rktp64_sum_46();
            assert(w[3] == q(62, 9261));
            lemma_q_eq_value(62, 9261, 62, 9261);
        } else if i == 4 {
            assert(a[4] == seq![q(13339, 49152), q(-4617, 16384), q(5427, 53248), q(95207, 159744), q(0, 1), q(0, 1), q(0, 1)]);
            lemma_rktp64_sum_47();
            assert(w[4] == q(109427, 2322432));
            lemma_q_eq_value(109427, 2322432, 109427, 2322432);
        } else if i == 5 {
            assert(a[5] == seq![q(-6935, 57122), q(23085, 48334), q(33363360, 273642941), q(972160, 118442467), q(172687360, 610434253), q(0, 1), q(0, 1)]);
            lemma_rktp64_sum_48();
            assert(w[5] == q(17005360, 178134957));
            lemma_q_eq_value(17005360, 178134957, 17005360, 178134957);
        } else if i == 6 {
            assert(a[6] == seq![q(611, 1891), q(-4617, 7564), q(6041007, 13176488), q(12708836, 22100117), q(-35840000, 62461621), q(6597591, 7972456), q(0, 1)]);
            lemma_rktp64_sum_49();
            assert(w[6] == q(36536, 153171));
            lemma_q_eq_value(36536, 153171, 36536, 153171);
        }
    }
}

proof fn lemma_rktp64_phi_13()
    ensures
        q_vec_eq(elementary_weights(rktp64_model().a, 13), seq![q(0, 1), q(0, 1), q(32, 59049), q(62, 9261), q(109427, 2322432), q(17005360, 178134957), q(36536, 153171)]),
{
    let a = rktp64_model().a;
    lemma_rktp64_shape();
    lemma_rktp64_phi_4();
    lemma_q_mat_vec_congruent(a, elementary_weights(a, 4), seq![q(0, 1), q(64, 19683), q(8, 729), q(27, 343), q(1331, 4096), q(1000, 2197), q(1, 1)]);
    lemma_rktp64_eval_a_13();
    lemma_q_vec_eq_trans(q_mat_vec(a, elementary_weights(a, 4)), q_mat_vec(a, seq![q(0, 1), q(64, 19683), q(8, 729), q(27, 343), q(1331, 4096), q(1000, 2197), q(1, 1)]), seq![q(0, 1), q(0, 1), q(32, 59049), q(62, 9261), q(109427, 2322432), q(17005360, 178134957), q(36536, 153171)]);
}

proof fn lemma_rktp64_eval_a_14()
    ensures
        q_vec_eq(q_mat_vec(rktp64_model().a, seq![q(0, 1), q(0, 1), q(4, 729), q(27, 686), q(1331, 8192), q(500, 2197), q(1, 2)]), seq![q(0, 1), q(0, 1), q(0, 1), q(13, 3087), q(12395, 516096), q(2788120, 59378319), q(6140, 51057)]),
{
    let a = rktp64_model().a;
    let v = q_mat_vec(a, seq![q(0, 1), q(0, 1), q(4, 729), q(27, 686), q(1331, 8192), q(500, 2197), q(1, 2)]);
    let w = seq![q(0, 1), q(0, 1), q(0, 1), q(13, 3087), q(12395, 516096), q(2788120, 59378319), q(6140, 51057)];
    assert forall|i: int|
        #![trigger v[i]]
        #![trigger w[i]]
        0 <= i < 7 implies q_eq(v[i], w[i]) && q_valid(v[i]) && q_valid(w[i]) by {
        if i == 0 {
            assert(a[0] == seq![q(0, 1), q(0, 1), q(0, 1), q(0, 1), q(0, 1), q(0, 1), q(0, 1)]);
            lemma_rktp64_sum_50();
            assert(w[0] == q(0, 1));
            lemma_q_eq_value(0, 1, 0, 1);
        } else if i == 1 {
            assert(a[1] == seq![q(4, 27), q(0, 1), q(0, 1), q(0, 1), q(0, 1), q(0, 1), q(0, 1)]);
            lemma_rktp64_sum_51();
            assert(w[1] == q(0, 1));
            lemma_q_eq_value(0, 1, 0, 1);
        } else if i == 2 {
            assert(a[2] == seq![q(1, 18), q(1, 6), q(0, 1), q(0, 1), q(0, 1), q(0, 1), q(0, 1)]);
            lemma_rktp64_sum_52();
            assert(w[2] == q(0, 1));
            lemma_q_eq_value(0, 1, 0, 1);
        } else if i == 3 {
            assert(a[3] == seq![q(66, 343), q(-729, 1372), q(1053, 1372), q(0, 1), q(0, 1), q(0, 1), q(0, 1)]);
            lemma_rktp64_sum_53();
            assert(w[3] == q(13, 3087));
            lemma_q_eq_value(13, 3087, 13, 3087);
        } else if i == 4 {
            assert(a[4] == seq![q(13339, 49152), q(-4617, 16384), q(5427, 53248), q(95207, 159744), q(0, 1), q(0, 1), q(0, 1)]);
            lemma_rktp64_sum_54();
            assert(w[4] == q(12395, 516096));
            lemma_q_eq_value(12395, 516096, 12395, 516096);
        } else if i == 5 {
            assert(a[5] == seq![q(-6935, 57122), q(23085, 48334), q(33363360, 273642941), q(972160, 118442467), q(172687360, 610434253), q(0, 1), q(0, 1)]);
            lemma_rktp64_sum_55();
            assert(w[5] == q(2788120, 59378319));
            lemma_q_eq_value(2788120, 59378319, 2788120, 59378319);
        } else if i == 6 {
            assert(a[6] == seq![q(611, 1891), q(-4617, 7564), q(6041007, 13176488), q(12708836, 22100117), q(-35840000, 62461621), q(6597591, 7972456), q(0, 1)]);
            lemma_rktp64_sum_56();
            assert(w[6] == q(6140, 51057));
            lemma_q_eq_value(6140, 51057, 6140, 51057);
        }
    }
}

proof fn lemma_rktp64_phi_14()
    ensures
        q_vec_eq(elementary_weights(rktp64_model().a, 14), seq![q(0, 1), q(0, 1), q(0, 1), q(13, 3087), q(12395, 516096), q(2788120, 59378319), q(6140, 51057)]),
{
    let a = rktp64_model().a;
    lemma_rktp64_shape();
    lemma_rktp64_phi_5();
    lemma_q_mat_vec_congruent(a, elementary_weights(a, 5), seq![q(0, 1), q(0, 1), q(4, 729), q(27, 686), q(1331, 8192), q(500, 2197), q(1, 2)]);
    lemma_rktp64_eval_a_14();
    lemma_q_vec_eq_trans(q_mat_vec(a, elementary_weights(a, 5)), q_mat_vec(a, seq![q(0, 1), q(0, 1), q(4, 729), q(27, 686), q(1331, 8192), q(500, 2197), q(1, 2)]), seq![q(0, 1), q(0, 1), q(0, 1), q(13, 3087), q(12395, 516096), q(2788120, 59378319), q(6140, 51057)]);
}

proof fn lemma_rktp64_eval_a_15()
    ensures
        q_vec_eq(q_mat_vec(rktp64_model().a, seq![q(0, 1), q(0, 1), q(8, 2187), q(9, 343), q(1331, 12288), q(1000, 6591), q(1, 3)]), seq![q(0, 1), q(0, 1), q(0, 1), q(26, 9261), q(12395, 774144), q(5576240, 178134957), q(12280, 153171)]),
{
    let a = rktp64_model().a;
    let v = q_mat_vec(a, seq![q(0, 1), q(0, 1), q(8, 2187), q(9, 343), q(1331, 12288), q(1000, 6591), q(1, 3)]);
    let w = seq![q(0, 1), q(0, 1), q(0, 1), q(26, 9261), q(12395, 774144), q(5576240, 178134957), q(12280, 153171)];
    assert forall|i: int|
        #![trigger v[i]]
        #![trigger w[i]]
        0 <= i < 7 implies q_eq(v[i], w[i]) && q_valid(v[i]) && q_valid(w[i]) by {
        if i == 0 {
            assert(a[0] == seq![q(0, 1), q(0, 1), q(0, 1), q(0, 1), q(0, 1), q(0, 1), q(0, 1)]);
            lemma_rktp64_sum_57();
            assert(w[0] == q(0, 1));
            lemma_q_eq_value(0, 1, 0, 1);
        } else if i == 1 {
            assert(a[1] == seq![q(4, 27), q(0, 1), q(0, 1), q(0, 1), q(0, 1), q(0, 1), q(0, 1)]);
            lemma_rktp64_sum_58();
            assert(w[1] == q(0, 1));
            lemma_q_eq_value(0, 1, 0, 1);
        } else if i == 2 {
            assert(a[2] == seq![q(1, 18), q(1, 6), q(0, 1), q(0, 1), q(0, 1), q(0, 1), q(0, 1)]);
            lemma_rktp64_sum_59();
            assert(w[2] == q(0, 1));
            lemma_q_eq_value(0, 1, 0, 1);
        } else if i == 3 {
            assert(a[3] == seq![q(66, 343), q(-729, 1372), q(1053, 1372), q(0, 1), q(0, 1), q(0, 1), q(0, 1)]);
            lemma_rktp64_sum_60();
            assert(w[3] == q(26, 9261));
            lemma_q_eq_value(26, 9261, 26, 9261);
        } else if i == 4 {
            assert(a[4] == seq![q(13339, 49152), q(-4617, 16384), q(5427, 53248), q(95207, 159744), q(0, 1), q(0, 1), q(0, 1)]);
            lemma_rktp64_sum_61();
            assert(w[4] == q(12395, 774144));
            lemma_q_eq_value(12395, 774144, 12395, 774144);
        } else if i == 5 {
            assert(a[5] == seq![q(-6935, 57122), q(23085, 48334), q(33363360, 273642941), q(972160, 118442467), q(172687360, 610434253), q(0, 1), q(0, 1)]);
            lemma_rktp64_sum_62();
            assert(w[5] == q(5576240, 178134957));
            lemma_q_eq_value(5576240, 178134957, 5576240, 178134957);
        } else if i == 6 {
            assert(a[6] == seq![q(611, 1891), q(-4617, 7564), q(6041007, 13176488), q(12708836, 22100117), q(-35840000, 62461621), q(6597591, 7972456), q(0, 1)]);
            lemma_rktp64_sum_63();
            assert(w[6] == q(12280, 153171));
            lemma_q_eq_value(12280, 153171, 12280, 153171);
        }
    }
}

proof fn lemma_rktp64_phi_15()
    ensures
        q_vec_eq(elementary_weights(rktp64_model().a, 15), seq![q(0, 1), q(0, 1), q(0, 1), q(26, 9261), q(12395, 774144), q(5576240, 178134957), q(12280, 153171)]),
{
    let a = rktp64_model().a;
    lemma_rktp64_shape();
    lemma_rktp64_phi_6();
    lemma_q_mat_vec_congruent(a, elementary_weights(a, 6), seq![q(0, 1), q(0, 1), q(8, 2187), q(9, 343), q(1331, 12288), q(1000, 6591), q(1, 3)]);
    lemma_rktp64_eval_a_15();
    lemma_q_vec_eq_trans(q_mat_vec(a, elementary_weights(a, 6)), q_mat_vec(a, seq![q(0, 1), q(0, 1), q(8, 2187), q(9, 343), q(1331, 12288), q(1000, 6591), q(1, 3)]), seq![q(0, 1), q(0, 1), q(0, 1), q(26, 9261), q(12395, 774144), q(5576240, 178134957), q(12280, 153171)]);
}

proof fn lemma_rktp64_eval_a_16()
    ensures
        q_vec_eq(q_mat_vec(rktp64_model().a, seq![q(0, 1), q(0, 1), q(0, 1), q(13, 686), q(469, 8192), q(5120, 72501), q(1967, 11346)]), seq![q(0, 1), q(0, 1), q(0, 1), q(0, 1), q(1943, 172032), q(35960, 2199197), q(69, 1891)]),
{
    let a = rktp64_model().a;
    let v = q_mat_vec(a, seq![q(0, 1), q(0, 1), q(0, 1), q(13, 686), q(469, 8192), q(5120, 72501), q(1967, 11346)]);
    let w = seq![q(0, 1), q(0, 1), q(0, 1), q(0, 1), q(1943, 172032), q(35960, 2199197), q(69, 1891)];
    assert forall|i: int|
        #![trigger v[i]]
        #![trigger w[i]]
        0 <= i < 7 implies q_eq(v[i], w[i]) && q_valid(v[i]) && q_valid(w[i]) by {
        if i == 0 {
            assert(a[0] == seq![q(0, 1), q(0, 1), q(0, 1), q(0, 1), q(0, 1), q(0, 1), q(0, 1)]);
            lemma_rktp64_sum_64();
            assert(w[0] == q(0, 1));
            lemma_q_eq_value(0, 1, 0, 1);
        } else if i == 1 {
            assert(a[1] == seq![q(4, 27), q(0, 1), q(0, 1), q(0, 1), q(0, 1), q(0, 1), q(0, 1)]);
            lemma_rktp64_sum_65();
            assert(w[1] == q(0, 1));
            lemma_q_eq_value(0, 1, 0, 1);
        } else if i == 2 {
            assert(a[2] == seq![q(1, 18), q(1, 6), q(0, 1), q(0, 1), q(0, 1), q(0, 1), q(0, 1)]);
            lemma_rktp64_sum_66();
            assert(w[2] == q(0, 1));
            lemma_q_eq_value(0, 1, 0, 1);
        } else if i == 3 {
            assert(a[3] == seq![q(66, 343), q(-729, 1372), q(1053, 1372), q(0, 1), q(0, 1), q(0, 1), q(0, 1)]);
            lemma_rktp64_sum_67();
            assert(w[3] == q(0, 1));
            lemma_q_eq_value(0, 1, 0, 1);
        } else if i == 4 {
            assert(a[4] == seq![q(13339, 49152), q(-4617, 16384), q(5427, 53248), q(95207, 159744), q(0, 1), q(0, 1), q(0, 1)]);
            lemma_rktp64_sum_68();
            assert(w[4] == q(1943, 172032));
            lemma_q_eq_value(1943, 172032, 1943, 172032);
        } else if i == 5 {
            assert(a[5] == seq![q(-6935, 57122), q(23085, 48334), q(33363360, 273642941), q(972160, 118442467), q(172687360, 610434253), q(0, 1), q(0, 1)]);
            lemma_rktp64_sum_69();
            assert(w[5] == q(35960, 2199197));
            lemma_q_eq_value(35960, 2199197, 35960, 2199197);
        } else if i == 6 {
            assert(a[6] == seq![q(611, 1891), q(-4617, 7564), q(6041007, 13176488), q(12708836, 22100117), q(-35840000, 62461621), q(6597591, 7972456), q(0, 1)]);
            lemma_rktp64_sum_70();
            assert(w[6] == q(69, 1891));
            lemma_q_eq_value(69, 1891, 69, 1891);
        }
    }
}

proof fn lemma_rktp64_phi_16()
    ensures
        q_vec_eq(elementary_weights(rktp64_model().a, 16), seq![q(0, 1), q(0, 1), q(0, 1), q(0, 1), q(1943, 172032), q(35960, 2199197), q(69, 1891)]),
{
    let a = rktp64_model().a;
    lemma_rktp64_shape();
    lemma_rktp64_phi_7();
    lemma_q_mat_vec_congruent(a, elementary_weights(a, 7), seq![q(0, 1), q(0, 1), q(0, 1), q(13, 686), q(469, 8192), q(5120, 72501), q(1967, 11346)]);
    lemma_rktp64_eval_a_16();
    lemma_q_vec_eq_trans(q_mat_vec(a, elementary_weights(a, 7)), q_mat_vec(a, seq![q(0, 1), q(0, 1), q(0, 1), q(13, 686), q(469, 8192), q(5120, 72501), q(1967, 11346)]), seq![q(0, 1), q(0, 1), q(0, 1), q(0, 1), q(1943, 172032), q(35960, 2199197), q(69, 1891)]);
}

proof fn lemma_rktp64_eval_a_17()
    ensures
        q_vec_eq(q_mat_vec(rktp64_model().a, seq![q(1, 1), q(1, 1), q(1, 1), q(1, 1), q(1, 1), q(1, 1), q(1, 1)]), seq![q(0, 1), q(4, 27), q(2, 9), q(3, 7), q(11, 16), q(10, 13), q(1, 1)]),
{
    let a = rktp64_model().a;
    let v = q_mat_vec(a, seq![q(1, 1), q(1, 1), q(1, 1), q(1, 1), q(1, 1), q(1, 1), q(1, 1)]);
    let w = seq![q(0, 1), q(4, 27), q(2, 9), q(3, 7), q(11, 16), q(10, 13), q(1, 1)];
    assert forall|i: int|
        #![trigger v[i]]
        #![trigger w[i]]
        0 <= i < 7 implies q_eq(v[i], w[i]) && q_valid(v[i]) && q_valid(w[i]) by {
        if i == 0 {
            assert(a[0] == seq![q(0, 1), q(0, 1), q(0, 1), q(0, 1), q(0, 1), q(0, 1), q(0, 1)]);
            lemma_rktp64_sum_15();
            assert(w[0] == q(0, 1));
            lemma_q_eq_value(0, 1, 0, 1);
        } else if i == 1 {
            assert(a[1] == seq![q(4, 27), q(0, 1), q(0, 1), q(0, 1), q(0, 1), q(0, 1), q(0, 1)]);
            lemma_rktp64_sum_16();
            assert(w[1] == q(4, 27));
            lemma_q_eq_value(4, 27, 4, 27);
        } else if i == 2 {
            assert(a[2] == seq![q(1, 18), q(1, 6), q(0, 1), q(0, 1), q(0, 1), q(0, 1), q(0, 1)]);
            lemma_rktp64_sum_17();
            assert(w[2] == q(2, 9));
            lemma_q_eq_value(2, 9, 2, 9);
        } else if i == 3 {
            assert(a[3] == seq![q(66, 343), q(-729, 1372), q(1053, 1372), q(0, 1), q(0, 1), q(0, 1), q(0, 1)]);
            lemma_rktp64_sum_18();
            assert(w[3] == q(3, 7));
            lemma_q_eq_value(3, 7, 3, 7);
        } else if i == 4 {
            assert(a[4] == seq![q(13339, 49152), q(-4617, 16384), q(5427, 53248), q(95207, 159744), q(0, 1), q(0, 1), q(0, 1)]);
            lemma_rktp64_sum_19();
            assert(w[4] == q(11, 16));
            lemma_q_eq_value(11, 16, 11, 16);
        } else if i == 5 {
            assert(a[5] == seq![q(-6935, 57122), q(23085, 48334), q(33363360, 273642941), q(972160, 118442467), q(172687360, 610434253), q(0, 1), q(0, 1)]);
            lemma_rktp64_sum_20();
            assert(w[5] == q(10, 13));
            lemma_q_eq_value(10, 13, 10, 13);
        } else if i == 6 {
            assert(a[6] == seq![q(611, 1891), q(-4617, 7564), q(6041007, 13176488), q(12708836, 22100117), q(-35840000, 62461621), q(6597591, 7972456), q(0, 1)]);
            lemma_rktp64_sum_21();
            assert(w[6] == q(1, 1));
            lemma_q_eq_value(1, 1, 1, 1);
        }
    }
}

proof fn lemma_rktp64_eval_h_17()
    ensures
        q_vec_eq(q_hadamard(seq![q(0, 1), q(4, 27), q(2, 9), q(3, 7), q(11, 16), q(10, 13), q(1, 1)], seq![q(0, 1), q(256, 531441), q(16, 6561), q(81, 2401), q(14641, 65536), q(10000, 28561), q(1, 1)]), seq![q(0, 1), q(1024, 14348907), q(32, 59049), q(243, 16807), q(161051, 1048576), q(100000, 371293), q(1, 1)]),
{
    let x = seq![q(0, 1), q(4, 27), q(2, 9), q(3, 7), q(11, 16), q(10, 13), q(1, 1)];
    let y = seq![q(0, 1), q(256, 531441), q(16, 6561), q(81, 2401), q(14641, 65536), q(10000, 28561), q(1, 1)];
    let v = q_hadamard(x, y);
    let w = seq![q(0, 1), q(1024, 14348907), q(32, 59049), q(243, 16807), q(161051, 1048576), q(100000, 371293), q(1, 1)];
    assert forall|i: int|
        #![trigger v[i]]
        #![trigger w[i]]
        0 <= i < 7 implies q_eq(v[i], w[i]) && q_valid(v[i]) && q_valid(w[i]) by {
        if i == 0 {
            lemma_q_mul_value(0, 1, 0, 1);
            assert(x[0] == q(0, 1) && y[0] == q(0, 1));
            lemma_q_eq_value(0, 1, 0, 1);
            assert(w[0] == q(0, 1));
        } else if i == 1 {
            lemma_q_mul_value(4, 27, 256, 531441);
            assert(x[1] == q(4, 27) && y[1] == q(256, 531441));
            lemma_q_eq_value(1024, 14348907, 1024, 14348907);
            assert(w[1] == q(1024, 14348907));
        } else if i == 2 {
            lemma_q_mul_value(2, 9, 16, 6561);
            assert(x[2] == q(2, 9) && y[2] == q(16, 6561));
            lemma_q_eq_value(32, 59049, 32, 59049);
            assert(w[2] == q(32, 59049));
        } else if i == 3 {
            lemma_q_mul_value(3, 7, 81, 2401);
            assert(x[3] == q(3, 7) && y[3] == q(81, 2401));
            lemma_q_eq_value(243, 16807, 243, 16807);
            assert(w[3] == q(243, 16807));
        } else if i == 4 {
            lemma_q_mul_value(11, 16, 14641, 65536);
            assert(x[4] == q(11, 16) && y[4] == q(14641, 65536));
            lemma_q_eq_value(161051, 1048576, 161051, 1048576);
            assert(w[4] == q(161051, 1048576));
        } else if i == 5 {
            lemma_q_mul_value(10, 13, 10000, 28561);
            assert(x[5] == q(10, 13) && y[5] == q(10000, 28561));
            lemma_q_eq_value(100000, 371293, 100000, 371293);
            assert(w[5] == q(100000, 371293));
        } else if i == 6 {
            lemma_q_mul_value(1, 1, 1, 1);
            assert(x[6] == q(1, 1) && y[6] == q(1, 1));
            lemma_q_eq_value(1, 1, 1, 1);
            assert(w[6] == q(1, 1));
        }
    }
}

proof fn lemma_rktp64_phi_17()
    ensures
        q_vec_eq(elementary_weights(rktp64_model().a, 17), seq![q(0, 1), q(1024, 14348907), q(32, 59049), q(243, 16807), q(161051, 1048576), q(100000, 371293), q(1, 1)]),
{
    let a = rktp64_model().a;
    lemma_rktp64_shape();
    lemma_rktp64_phi_0();
    lemma_q_mat_vec_congruent(a, elementary_weights(a, 0), seq![q(1, 1), q(1, 1), q(1, 1), q(1, 1), q(1, 1), q(1, 1), q(1, 1)]);
    lemma_rktp64_eval_a_17();
    lemma_q_vec_eq_trans(q_mat_vec(a, elementary_weights(a, 0)), q_mat_vec(a, seq![q(1, 1), q(1, 1), q(1, 1), q(1, 1), q(1, 1), q(1, 1), q(1, 1)]), seq![q(0, 1), q(4, 27), q(2, 9), q(3, 7), q(11, 16), q(10, 13), q(1, 1)]);
    lemma_rktp64_phi_8();
    lemma_q_hadamard_congruent(q_mat_vec(a, elementary_weights(a, 0)), seq![q(0, 1), q(4, 27), q(2, 9), q(3, 7), q(11, 16), q(10, 13), q(1, 1)], elementary_weights(a, 8), seq![q(0, 1), q(256, 531441), q(16, 6561), q(81, 2401), q(14641, 65536), q(10000, 28561), q(1, 1)]);
    lemma_rktp64_eval_h_17();
    lemma_q_vec_eq_trans(q_hadamard(q_mat_vec(a, elementary_weights(a, 0)), elementary_weights(a, 8)), q_hadamard(seq![q(0, 1), q(4, 27), q(2, 9), q(3, 7), q(11, 16), q(10, 13), q(1, 1)], seq![q(0, 1), q(256, 531441), q(16, 6561), q(81, 2401), q(14641, 65536), q(10000, 28561), q(1, 1)]), seq![q(0, 1), q(1024, 14348907), q(32, 59049), q(243, 16807), q(161051, 1048576), q(100000, 371293), q(1, 1)]);
}

proof fn lemma_rktp64_eval_a_18()
    ensures
        q_vec_eq(q_mat_vec(rktp64_model().a, seq![q(1, 1), q(1, 1), q(1, 1), q(1, 1), q(1, 1), q(1, 1), q(1, 1)]), seq![q(0, 1), q(4, 27), q(2, 9), q(3, 7), q(11, 16), q(10, 13), q(1, 1)]),
{
    let a = rktp64_model().a;
    let v = q_mat_vec(a, seq![q(1, 1), q(1, 1), q(1, 1), q(1, 1), q(1, 1), q(1, 1), q(1, 1)]);
    let w = seq![q(0, 1), q(4, 27), q(2, 9), q(3, 7), q(11, 16), q(10, 13), q(1, 1)];
    assert forall|i: int|
        #![trigger v[i]]
        #![trigger w[i]]
        0 <= i < 7 implies q_eq(v[i], w[i]) && q_valid(v[i]) && q_valid(w[i]) by {
        if i == 0 {
            assert(a[0] == seq![q(0, 1), q(0, 1), q(0, 1), q(0, 1), q(0, 1), q(0, 1), q(0, 1)]);
            lemma_rktp64_sum_15();
            assert(w[0] == q(0, 1));
            lemma_q_eq_value(0, 1, 0, 1);
        } else if i == 1 {
            assert(a[1] == seq![q(4, 27), q(0, 1), q(0, 1), q(0, 1), q(0, 1), q(0, 1), q(0, 1)]);
            lemma_rktp64_sum_16();
            assert(w[1] == q(4, 27));
            lemma_q_eq_value(4, 27, 4, 27);
        } else if i == 2 {
            assert(a[2] == seq![q(1, 18), q(1, 6), q(0, 1), q(0, 1), q(0, 1), q(0, 1), q(0, 1)]);
            lemma_rktp64_sum_17();
            assert(w[2] == q(2, 9));
            lemma_q_eq_value(2, 9, 2, 9);
        } else if i == 3 {
            assert(a[3] == seq![q(66, 343), q(-729, 1372), q(1053, 1372), q(0, 1), q(0, 1), q(0, 1), q(0, 1)]);
            lemma_rktp64_sum_18();
            assert(w[3] == q(3, 7));
            lemma_q_eq_value(3, 7, 3, 7);
        } else if i == 4 {
            assert(a[4] == seq![q(13339, 49152), q(-4617, 16384), q(5427, 53248), q(95207, 159744), q(0, 1), q(0, 1), q(0, 1)]);
            lemma_rktp64_sum_19();
            assert(w[4] == q(11, 16));
            lemma_q_eq_value(11, 16, 11, 16);
        } else if i == 5 {
            assert(a[5] == seq![q(-6935, 57122), q(23085, 48334), q(33363360, 273642941), q(972160, 118442467), q(172687360, 610434253), q(0, 1), q(0, 1)]);
            lemma_rktp64_sum_20();
            assert(w[5] == q(10, 13));
            lemma_q_eq_value(10, 13, 10, 13);
        } else if i == 6 {
            assert(a[6] == seq![q(611, 1891), q(-4617, 7564), q(6041007, 13176488), q(12708836, 22100117), q(-35840000, 62461621), q(6597591, 7972456), q(0, 1)]);
            lemma_rktp64_sum_21();
            assert(w[6] == q(1, 1));
            lemma_q_eq_value(1, 1, 1, 1);
        }
    }
}

proof fn lemma_rktp64_eval_h_18()
    ensures
        q_vec_eq(q_hadamard(seq![q(0, 1), q(4, 27), q(2, 9), q(3, 7), q(11, 16), q(10, 13), q(1, 1)], seq![q(0, 1), q(0, 1), q(8, 6561), q(81, 4802), q(14641, 131072), q(5000, 28561), q(1, 2)]), seq![q(0, 1), q(0, 1), q(16, 59049), q(243, 33614), q(161051, 2097152), q(50000, 371293), q(1, 2)]),
{
    let x = seq![q(0, 1), q(4, 27), q(2, 9), q(3, 7), q(11, 16), q(10, 13), q(1, 1)];
    let y = seq![q(0, 1), q(0, 1), q(8, 6561), q(81, 4802), q(14641, 131072), q(5000, 28561), q(1, 2)];
    let v = q_hadamard(x, y);
    let w = seq![q(0, 1), q(0, 1), q(16, 59049), q(243, 33614), q(161051, 2097152), q(50000, 371293), q(1, 2)];
    assert forall|i: int|
        #![trigger v[i]]
        #![trigger w[i]]
        0 <= i < 7 implies q_eq(v[i], w[i]) && q_valid(v[i]) && q_valid(w[i]) by {
        if i == 0 {
            lemma_q_mul_value(0, 1, 0, 1);
            assert(x[0] == q(0, 1) && y[0] == q(0, 1));
            lemma_q_eq_value(0, 1, 0, 1);
            assert(w[0] == q(0, 1));
        } else if i == 1 {
            lemma_q_mul_value(4, 27, 0, 1);
            assert(x[1] == q(4, 27) && y[1] == q(0, 1));
            lemma_q_eq_value(0, 27, 0, 1);
            assert(w[1] == q(0, 1));
        } else if i == 2 {
            lemma_q_mul_value(2, 9, 8, 6561);
            assert(x[2] == q(2, 9) && y[2] == q(8, 6561));
            lemma_q_eq_value(16, 59049, 16, 59049);
            assert(w[2] == q(16, 59049));
        } else if i == 3 {
            lemma_q_mul_value(3, 7, 81, 4802);
            assert(x[3] == q(3, 7) && y[3] == q(81, 4802));
            lemma_q_eq_value(243, 33614, 243, 33614);
            assert(w[3] == q(243, 33614));
        } else if i == 4 {
            lemma_q_mul_value(11, 16, 14641, 131072);
            assert(x[4] == q(11, 16) && y[4] == q(14641, 131072));
            lemma_q_eq_value(161051, 2097152, 161051, 2097152);
            assert(w[4] == q(161051, 2097152));
        } else if i == 5 {
            lemma_q_mul_value(10, 13, 5000, 28561);
            assert(x[5] == q(10, 13) && y[5] == q(5000, 28561));
            lemma_q_eq_value(50000, 371293, 50000, 371293);
            assert(w[5] == q(50000, 371293));
        } else if i == 6 {
            lemma_q_mul_value(1, 1, 1, 2);
            assert(x[6] == q(1, 1) && y[6] == q(1, 2));
            lemma_q_eq_value(1, 2, 1, 2);
            assert(w[6] == q(1, 2));
        }
    }
}

proof fn lemma_rktp64_phi_18()
    ensures
        q_vec_eq(elementary_weights(rktp64_model().a, 18), seq![q(0, 1), q(0, 1), q(16, 59049), q(243, 33614), q(161051, 2097152), q(50000, 371293), q(1, 2)]),
{
    let a = rktp64_model().a;
    lemma_rktp64_shape();
    lemma_rktp64_phi_0();
    lemma_q_mat_vec_congruent(a, elementary_weights(a, 0), seq![q(1, 1), q(1, 1), q(1, 1), q(1, 1), q(1, 1), q(1, 1), q(1, 1)]);
    lemma_rktp64_eval_a_18();
    lemma_q_vec_eq_trans(q_mat_vec(a, elementary_weights(a, 0)), q_mat_vec(a, seq![q(1, 1), q(1, 1), q(1, 1), q(1, 1), q(1, 1), q(1, 1), q(1, 1)]), seq![q(0, 1), q(4, 27), q(2, 9), q(3, 7), q(11, 16), q(10, 13), q(1, 1)]);
    lemma_rktp64_phi_9();
    lemma_q_hadamard_congruent(q_mat_vec(a, elementary_weights(a, 0)), seq![q(0, 1), q(4, 27), q(2, 9), q(3, 7), q(11, 16), q(10, 13), q(1, 1)], elementary_weights(a, 9), seq![q(0, 1), q(0, 1), q(8, 6561), q(81, 4802), q(14641, 131072), q(5000, 28561), q(1, 2)]);
    lemma_rktp64_eval_h_18();
    lemma_q_vec_eq_trans(q_hadamard(q_mat_vec(a, elementary_weights(a, 0)), elementary_weights(a, 9)), q_hadamard(seq![q(0, 1), q(4, 27), q(2, 9), q(3, 7), q(11, 16), q(10, 13), q(1, 1)], seq![q(0, 1), q(0, 1), q(8, 6561), q(81, 4802), q(14641, 131072), q(5000, 28561), q(1, 2)]), seq![q(0, 1), q(0, 1), q(16, 59049), q(243, 33614), q(161051, 2097152), q(50000, 371293), q(1, 2)]);
}

proof fn lemma_rktp64_eval_a_19()
    ensures
        q_vec_eq(q_mat_vec(rktp64_model().a, seq![q(1, 1), q(1, 1), q(1, 1), q(1, 1), q(1, 1), q(1, 1), q(1, 1)]), seq![q(0, 1), q(4, 27), q(2, 9), q(3, 7), q(11, 16), q(10, 13), q(1, 1)]),
{
    let a = rktp64_model().a;
    let v = q_mat_vec(a, seq![q(1, 1), q(1, 1), q(1, 1), q(1, 1), q(1, 1), q(1, 1), q(1, 1)]);
    let w = seq![q(0, 1), q(4, 27), q(2, 9), q(3, 7), q(11, 16), q(10, 13), q(1, 1)];
    assert forall|i: int|
        #![trigger v[i]]
        #![trigger w[i]]
        0 <= i < 7 implies q_eq(v[i], w[i]) && q_valid(v[i]) && q_valid(w[i]) by {
        if i == 0 {
            assert(a[0] == seq![q(0, 1), q(0, 1), q(0, 1), q(0, 1), q(0, 1), q(0, 1), q(0, 1)]);
            lemma_rktp64_sum_15();
            assert(w[0] == q(0, 1));
            lemma_q_eq_value(0, 1, 0, 1);
        } else if i == 1 {
            assert(a[1] == seq![q(4, 27), q(0, 1), q(0, 1), q(0, 1), q(0, 1), q(0, 1), q(0, 1)]);
            lemma_rktp64_sum_16();
            assert(w[1] == q(4, 27));
            lemma_q_eq_value(4, 27, 4, 27);
        } else if i == 2 {
            assert(a[2] == seq![q(1, 18), q(1, 6), q(0, 1), q(0, 1), q(0, 1), q(0, 1), q(0, 1)]);
            lemma_rktp64_sum_17();
            assert(w[2] == q(2, 9));
            lemma_q_eq_value(2, 9, 2, 9);
        } else if i == 3 {
            assert(a[3] == seq![q(66, 343), q(-729, 1372), q(1053, 1372), q(0, 1), q(0, 1), q(0, 1), q(0, 1)]);
            lemma_rktp64_sum_18();
            assert(w[3] == q(3, 7));
            lemma_q_eq_value(3, 7, 3, 7);
        } else if i == 4 {
            assert(a[4] == seq![q(13339, 49152), q(-4617, 16384), q(5427, 53248), q(95207, 159744), q(0, 1), q(0, 1), q(0, 1)]);
            lemma_rktp64_sum_19();
            assert(w[4] == q(11, 16));
            lemma_q_eq_value(11, 16, 11, 16);
        } else if i == 5 {
            assert(a[5] == seq![q(-6935, 57122), q(23085, 48334), q(33363360, 273642941), q(972160, 118442467), q(172687360, 610434253), q(0, 1), q(0, 1)]);
            lemma_rktp64_sum_20();
            assert(w[5] == q(10, 13));
            lemma_q_eq_value(10, 13, 10, 13);
        } else if i == 6 {
            assert(a[6] == seq![q(611, 1891), q(-4617, 7564), q(6041007, 13176488), q(12708836, 22100117), q(-35840000, 62461621), q(6597591, 7972456), q(0, 1)]);
            lemma_rktp64_sum_21();
            assert(w[6] == q(1, 1));
            lemma_q_eq_value(1, 1, 1, 1);
        }
    }
}

proof fn lemma_rktp64_eval_h_19()
    ensures
        q_vec_eq(q_hadamard(seq![q(0, 1), q(4, 27), q(2, 9), q(3, 7), q(11, 16), q(10, 13), q(1, 1)], seq![q(0, 1), q(0, 1), q(16, 19683), q(27, 2401), q(14641, 196608), q(10000, 85683), q(1, 3)]), seq![q(0, 1), q(0, 1), q(32, 177147), q(81, 16807), q(161051, 3145728), q(100000, 1113879), q(1, 3)]),
{
    let x = seq![q(0, 1), q(4, 27), q(2, 9), q(3, 7), q(11, 16), q(10, 13), q(1, 1)];
    let y = seq![q(0, 1), q(0, 1), q(16, 19683), q(27, 2401), q(14641, 196608), q(10000, 85683), q(1, 3)];
    let v = q_hadamard(x, y);
    let w = seq![q(0, 1), q(0, 1), q(32, 177147), q(81, 16807), q(161051, 3145728), q(100000, 1113879), q(1, 3)];
    assert forall|i: int|
        #![trigger v[i]]
        #![trigger w[i]]
        0 <= i < 7 implies q_eq(v[i], w[i]) && q_valid(v[i]) && q_valid(w[i]) by {
        if i == 0 {
            lemma_q_mul_value(0, 1, 0, 1);
            assert(x[0] == q(0, 1) && y[0] == q(0, 1));
            lemma_q_eq_value(0, 1, 0, 1);
            assert(w[0] == q(0, 1));
        } else if i == 1 {
            lemma_q_mul_value(4, 27, 0, 1);
            assert(x[1] == q(4, 27) && y[1] == q(0, 1));
            lemma_q_eq_value(0, 27, 0, 1);
            assert(w[1] == q(0, 1));
        } else if i == 2 {
            lemma_q_mul_value(2, 9, 16, 19683);
            assert(x[2] == q(2, 9) && y[2] == q(16, 19683));
            lemma_q_eq_value(32, 177147, 32, 177147);
            assert(w[2] == q(32, 177147));
        } else if i == 3 {
            lemma_q_mul_value(3, 7, 27, 2401);
            assert(x[3] == q(3, 7) && y[3] == q(27, 2401));
            lemma_q_eq_value(81, 16807, 81, 16807);
            assert(w[3] == q(81, 16807));
        } else if i == 4 {
            lemma_q_mul_value(11, 16, 14641, 196608);
            assert(x[4] == q(11, 16) && y[4] == q(14641, 196608));
            lemma_q_eq_value(161051, 3145728, 161051, 3145728);
            assert(w[4] == q(161051, 3145728));
        } else if i == 5 {
            lemma_q_mul_value(10, 13, 10000, 85683);
            assert(x[5] == q(10, 13) && y[5] == q(10000, 85683));
            lemma_q_eq_value(100000, 1113879, 100000, 1113879);
            assert(w[5] == q(100000, 1113879));
        } else if i == 6 {
            lemma_q_mul_value(1, 1, 1, 3);
            assert(x[6] == q(1, 1) && y[6] == q(1, 3));
            lemma_q_eq_value(1, 3, 1, 3);
            assert(w[6] == q(1, 3));
        }
    }
}

proof fn lemma_rktp64_phi_19()
    ensures
        q_vec_eq(elementary_weights(rktp64_model().a, 19), seq![q(0, 1), q(0, 1), q(32, 177147), q(81, 16807), q(161051, 3145728), q(100000, 1113879), q(1, 3)]),
{
    let a = rktp64_model().a;
    lemma_rktp64_shape();
    lemma_rktp64_phi_0();
    lemma_q_mat_vec_congruent(a, elementary_weights(a, 0), seq![q(1, 1), q(1, 1), q(1, 1), q(1, 1), q(1, 1), q(1, 1), q(1, 1)]);
    lemma_rktp64_eval_a_19();
    lemma_q_vec_eq_trans(q_mat_vec(a, elementary_weights(a, 0)), q_mat_vec(a, seq![q(1, 1), q(1, 1), q(1, 1), q(1, 1), q(1, 1), q(1, 1), q(1, 1)]), seq![q(0, 1), q(4, 27), q(2, 9), q(3, 7), q(11, 16), q(10, 13), q(1, 1)]);
    lemma_rktp64_phi_10();
    lemma_q_hadamard_congruent(q_mat_vec(a, elementary_weights(a, 0)), seq![q(0, 1), q(4, 27), q(2, 9), q(3, 7), q(11, 16), q(10, 13), q(1, 1)], elementary_weights(a, 10), seq![q(0, 1), q(0, 1), q(16, 19683), q(27, 2401), q(14641, 196608), q(10000, 85683), q(1, 3)]);
    lemma_rktp64_eval_h_19();
    lemma_q_vec_eq_trans(q_hadamard(q_mat_vec(a, elementary_weights(a, 0)), elementary_weights(a, 10)), q_hadamard(seq![q(0, 1), q(4, 27), q(2, 9), q(3, 7), q(11, 16), q(10, 13), q(1, 1)], seq![q(0, 1), q(0, 1), q(16, 19683), q(27, 2401), q(14641, 196608), q(10000, 85683), q(1, 3)]), seq![q(0, 1), q(0, 1), q(32, 177147), q(81, 16807), q(161051, 3145728), q(100000, 1113879), q(1, 3)]);
}

proof fn lemma_rktp64_eval_a_20()
    ensures
        q_vec_eq(q_mat_vec(rktp64_model().a, seq![q(1, 1), q(1, 1), q(1, 1), q(1, 1), q(1, 1), q(1, 1), q(1, 1)]), seq![q(0, 1), q(4, 27), q(2, 9), q(3, 7), q(11, 16), q(10, 13), q(1, 1)]),
{
    let a = rktp64_model().a;
    let v = q_mat_vec(a, seq![q(1, 1), q(1, 1), q(1, 1), q(1, 1), q(1, 1), q(1, 1), q(1, 1)]);
    let w = seq![q(0, 1), q(4, 27), q(2, 9), q(3, 7), q(11, 16), q(10, 13), q(1, 1)];
    assert forall|i: int|
        #![trigger v[i]]
        #![trigger w[i]]
        0 <= i < 7 implies q_eq(v[i], w[i]) && q_valid(v[i]) && q_valid(w[i]) by {
        if i == 0 {
            assert(a[0] == seq![q(0, 1), q(0, 1), q(0, 1), q(0, 1), q(0, 1), q(0, 1), q(0, 1)]);
            lemma_rktp64_sum_15();
            assert(w[0] == q(0, 1));
            lemma_q_eq_value(0, 1, 0, 1);
        } else if i == 1 {
            assert(a[1] == seq![q(4, 27), q(0, 1), q(0, 1), q(0, 1), q(0, 1), q(0, 1), q(0, 1)]);
            lemma_rktp64_sum_16();
            assert(w[1] == q(4, 27));
            lemma_q_eq_value(4, 27, 4, 27);
        } else if i == 2 {
            assert(a[2] == seq![q(1, 18), q(1, 6), q(0, 1), q(0, 1), q(0, 1), q(0, 1), q(0, 1)]);
            lemma_rktp64_sum_17();
            assert(w[2] == q(2, 9));
            lemma_q_eq_value(2, 9, 2, 9);
        } else if i == 3 {
            assert(a[3] == seq![q(66, 343), q(-729, 1372), q(1053, 1372), q(0, 1), q(0, 1), q(0, 1), q(0, 1)]);
            lemma_rktp64_sum_18();
            assert(w[3] == q(3, 7));
            lemma_q_eq_value(3, 7, 3, 7);
        } else if i == 4 {
            assert(a[4] == seq![q(13339, 49152), q(-4617, 16384), q(5427, 53248), q(95207, 159744), q(0, 1), q(0, 1), q(0, 1)]);
            lemma_rktp64_sum_19();
            assert(w[4] == q(11, 16));
            lemma_q_eq_value(11, 16, 11, 16);
        } else if i == 5 {
            assert(a[5] == seq![q(-6935, 57122), q(23085, 48334), q(33363360, 273642941), q(972160, 118442467), q(172687360, 610434253), q(0, 1), q(0, 1)]);
            lemma_rktp64_sum_20();
            assert(w[5] == q(10, 13));
            lemma_q_eq_value(10, 13, 10, 13);
        } else if i == 6 {
            assert(a[6] == seq![q(611, 1891), q(-4617, 7564), q(6041007, 13176488), q(12708836, 22100117), q(-35840000, 62461621), q(6597591, 7972456), q(0, 1)]);
            lemma_rktp64_sum_21();
            assert(w[6] == q(1, 1));
            lemma_q_eq_value(1, 1, 1, 1);
        }
    }
}

proof fn lemma_rktp64_eval_h_20()
    ensures
        q_vec_eq(q_hadamard(seq![q(0, 1), q(4, 27), q(2, 9), q(3, 7), q(11, 16), q(10, 13), q(1, 1)], seq![q(0, 1), q(0, 1), q(0, 1), q(39, 4802), q(5159, 131072), q(51200, 942513), q(1967, 11346)]), seq![q(0, 1), q(0, 1), q(0, 1), q(117, 33614), q(56749, 2097152), q(512000, 12252669), q(1967, 11346)]),
{
    let x = seq![q(0, 1), q(4, 27), q(2, 9), q(3, 7), q(11, 16), q(10, 13), q(1, 1)];
    let y = seq![q(0, 1), q(0, 1), q(0, 1), q(39, 4802), q(5159, 131072), q(51200, 942513), q(1967, 11346)];
    let v = q_hadamard(x, y);
    let w = seq![q(0, 1), q(0, 1), q(0, 1), q(117, 33614), q(56749, 2097152), q(512000, 12252669), q(1967, 11346)];
    assert forall|i: int|
        #![trigger v[i]]
        #![trigger w[i]]
        0 <= i < 7 implies q_eq(v[i], w[i]) && q_valid(v[i]) && q_valid(w[i]) by {
        if i == 0 {
            lemma_q_mul_value(0, 1, 0, 1);
            assert(x[0] == q(0, 1) && y[0] == q(0, 1));
            lemma_q_eq_value(0, 1, 0, 1);
            assert(w[0] == q(0, 1));
        } else if i == 1 {
            lemma_q_mul_value(4, 27, 0, 1);
            assert(x[1] == q(4, 27) && y[1] == q(0, 1));
            lemma_q_eq_value(0, 27, 0, 1);
            assert(w[1] == q(0, 1));
        } else if i == 2 {
            lemma_q_mul_value(2, 9, 0, 1);
            assert(x[2] == q(2, 9) && y[2] == q(0, 1));
            lemma_q_eq_value(0, 9, 0, 1);
            assert(w[2] == q(0, 1));
        } else if i == 3 {
            lemma_q_mul_value(3, 7, 39, 4802);
            assert(x[3] == q(3, 7) && y[3] == q(39, 4802));
            lemma_q_eq_value(117, 33614, 117, 33614);
            assert(w[3] == q(117, 33614));
        } else if i == 4 {
            lemma_q_mul_value(11, 16, 5159, 131072);
            assert(x[4] == q(11, 16) && y[4] == q(5159, 131072));
            lemma_q_eq_value(56749, 2097152, 56749, 2097152);
            assert(w[4] == q(56749, 2097152));
        } else if i == 5 {
            lemma_q_mul_value(10, 13, 51200, 942513);
            assert(x[5] == q(10, 13) && y[5] == q(51200, 942513));
            lemma_q_eq_value(512000, 12252669, 512000, 12252669);
            assert(w[5] == q(512000, 12252669));
        } else if i == 6 {
            lemma_q_mul_value(1, 1, 1967, 11346);
            assert(x[6] == q(1, 1) && y[6] == q(1967, 11346));
            lemma_q_eq_value(1967, 11346, 1967, 11346);
            assert(w[6] == q(1967, 11346));
        }
    }
}

proof fn lemma_rktp64_phi_20()
    ensures
        q_vec_eq(elementary_weights(rktp64_model().a, 20), seq![q(0, 1), q(0, 1), q(0, 1), q(117, 33614), q(56749, 2097152), q(512000, 12252669), q(1967, 11346)]),
{
    let a = rktp64_model().a;
    lemma_rktp64_shape();
    lemma_rktp64_phi_0();
    lemma_q_mat_vec_congruent(a, elementary_weights(a, 0), seq![q(1, 1), q(1, 1), q(1, 1), q(1, 1), q(1, 1), q(1, 1), q(1, 1)]);
    lemma_rktp64_eval_a_20();
    lemma_q_vec_eq_trans(q_mat_vec(a, elementary_weights(a, 0)), q_mat_vec(a, seq![q(1, 1), q(1, 1), q(1, 1), q(1, 1), q(1, 1), q(1, 1), q(1, 1)]), seq![q(0, 1), q(4, 27), q(2, 9), q(3, 7), q(11, 16), q(10, 13), q(1, 1)]);
    lemma_rktp64_phi_11();
    lemma_q_hadamard_congruent(q_mat_vec(a, elementary_weights(a, 0)), seq![q(0, 1), q(4, 27), q(2, 9), q(3, 7), q(11, 16), q(10, 13), q(1, 1)], elementary_weights(a, 11), seq![q(0, 1), q(0, 1), q(0, 1), q(39, 4802), q(5159, 131072), q(51200, 942513), q(1967, 11346)]);
    lemma_rktp64_eval_h_20();
    lemma_q_vec_eq_trans(q_hadamard(q_mat_vec(a, elementary_weights(a, 0)), elementary_weights(a, 11)), q_hadamard(seq![q(0, 1), q(4, 27), q(2, 9), q(3, 7), q(11, 16), q(10, 13), q(1, 1)], seq![q(0, 1), q(0, 1), q(0, 1), q(39, 4802), q(5159, 131072), q(51200, 942513), q(1967, 11346)]), seq![q(0, 1), q(0, 1), q(0, 1), q(117, 33614), q(56749, 2097152), q(512000, 12252669), q(1967, 11346)]);
}

proof fn lemma_rktp64_eval_a_21()
    ensures
        q_vec_eq(q_mat_vec(rktp64_model().a, seq![q(1, 1), q(1, 1), q(1, 1), q(1, 1), q(1, 1), q(1, 1), q(1, 1)]), seq![q(0, 1), q(4, 27), q(2, 9), q(3, 7), q(11, 16), q(10, 13), q(1, 1)]),
{
    let a = rktp64_model().a;
    let v = q_mat_vec(a, seq![q(1, 1), q(1, 1), q(1, 1), q(1, 1), q(1, 1), q(1, 1), q(1, 1)]);
    let w = seq![q(0, 1), q(4, 27), q(2, 9), q(3, 7), q(11, 16), q(10, 13), q(1, 1)];
    assert forall|i: int|
        #![trigger v[i]]
        #![trigger w[i]]
        0 <= i < 7 implies q_eq(v[i], w[i]) && q_valid(v[i]) && q_valid(w[i]) by {
        if i == 0 {
            assert(a[0] == seq![q(0, 1), q(0, 1), q(0, 1), q(0, 1), q(0, 1), q(0, 1), q(0, 1)]);
            lemma_rktp64_sum_15();
            assert(w[0] == q(0, 1));
            lemma_q_eq_value(0, 1, 0, 1);
        } else if i == 1 {
            assert(a[1] == seq![q(4, 27), q(0, 1), q(0, 1), q(0, 1), q(0, 1), q(0, 1), q(0, 1)]);
            lemma_rktp64_sum_16();
            assert(w[1] == q(4, 27));
            lemma_q_eq_value(4, 27, 4, 27);
        } else if i == 2 {
            assert(a[2] == seq![q(1, 18), q(1, 6), q(0, 1), q(0, 1), q(0, 1), q(0, 1), q(0, 1)]);
            lemma_rktp64_sum_17();
            assert(w[2] == q(2, 9));
            lemma_q_eq_value(2, 9, 2, 9);
        } else if i == 3 {
            assert(a[3] == seq![q(66, 343), q(-729, 1372), q(1053, 1372), q(0, 1), q(0, 1), q(0, 1), q(0, 1)]);
            lemma_rktp64_sum_18();
            assert(w[3] == q(3, 7));
            lemma_q_eq_value(3, 7, 3, 7);
        } else if i == 4 {
            assert(a[4] == seq![q(13339, 49152), q(-4617, 16384), q(5427, 53248), q(95207, 159744), q(0, 1), q(0, 1), q(0, 1)]);
            lemma_rktp64_sum_19();
            assert(w[4] == q(11, 16));
            lemma_q_eq_value(11, 16, 11, 16);
        } else if i == 5 {
            assert(a[5] == seq![q(-6935, 57122), q(23085, 48334), q(33363360, 273642941), q(972160, 118442467), q(172687360, 610434253), q(0, 1), q(0, 1)]);
            lemma_rktp64_sum_20();
            assert(w[5] == q(10, 13));
            lemma_q_eq_value(10, 13, 10, 13);
        } else if i == 6 {
            assert(a[6] == seq![q(611, 1891), q(-4617, 7564), q(6041007, 13176488), q(12708836, 22100117), q(-35840000, 62461621), q(6597591, 7972456), q(0, 1)]);
            lemma_rktp64_sum_21();
            assert(w[6] == q(1, 1));
            lemma_q_eq_value(1, 1, 1, 1);
        }
    }
}

proof fn lemma_rktp64_eval_h_21()
    ensures
        q_vec_eq(q_hadamard(seq![q(0, 1), q(4, 27), q(2, 9), q(3, 7), q(11, 16), q(10, 13), q(1, 1)], seq![q(0, 1), q(0, 1), q(4, 6561), q(81, 9604), q(14641, 262144), q(2500, 28561), q(1, 4)]), seq![q(0, 1), q(0, 1), q(8, 59049), q(243, 67228), q(161051, 4194304), q(25000, 371293), q(1, 4)]),
{
    let x = seq![q(0, 1), q(4, 27), q(2, 9), q(3, 7), q(11, 16), q(10, 13), q(1, 1)];
    let y = seq![q(0, 1), q(0, 1), q(4, 6561), q(81, 9604), q(14641, 262144), q(2500, 28561), q(1, 4)];
    let v = q_hadamard(x, y);
    let w = seq![q(0, 1), q(0, 1), q(8, 59049), q(243, 67228), q(161051, 4194304), q(25000, 371293), q(1, 4)];
    assert forall|i: int|
        #![trigger v[i]]
        #![trigger w[i]]
        0 <= i < 7 implies q_eq(v[i], w[i]) && q_valid(v[i]) && q_valid(w[i]) by {
        if i == 0 {
            lemma_q_mul_value(0, 1, 0, 1);
            assert(x[0] == q(0, 1) && y[0] == q(0, 1));
            lemma_q_eq_value(0, 1, 0, 1);
            assert(w[0] == q(0, 1));
        } else if i == 1 {
            lemma_q_mul_value(4, 27, 0, 1);
            assert(x[1] == q(4, 27) && y[1] == q(0, 1));
            lemma_q_eq_value(0, 27, 0, 1);
            assert(w[1] == q(0, 1));
        } else if i == 2 {
            lemma_q_mul_value(2, 9, 4, 6561);
            assert(x[2] == q(2, 9) && y[2] == q(4, 6561));
            lemma_q_eq_value(8, 59049, 8, 59049);
            assert(w[2] == q(8, 59049));
        } else if i == 3 {
            lemma_q_mul_value(3, 7, 81, 9604);
            assert(x[3] == q(3, 7) && y[3] == q(81, 9604));
            lemma_q_eq_value(243, 67228, 243, 67228);
            assert(w[3] == q(243, 67228));
        } else if i == 4 {
            lemma_q_mul_value(11, 16, 14641, 262144);
            assert(x[4] == q(11, 16) && y[4] == q(14641, 262144));
            lemma_q_eq_value(161051, 4194304, 161051, 4194304);
            assert(w[4] == q(161051, 4194304));
        } else if i == 5 {
            lemma_q_mul_value(10, 13, 2500, 28561);
            assert(x[5] == q(10, 13) && y[5] == q(2500, 28561));
            lemma_q_eq_value(25000, 371293, 25000, 371293);
            assert(w[5] == q(25000, 371293));
        } else if i == 6 {
            lemma_q_mul_value(1, 1, 1, 4);
            assert(x[6] == q(1, 1) && y[6] == q(1, 4));
            lemma_q_eq_value(1, 4, 1, 4);
            assert(w[6] == q(1, 4));
        }
    }
}

proof fn lemma_rktp64_phi_21()
    ensures
        q_vec_eq(elementary_weights(rktp64_model().a, 21), seq![q(0, 1), q(0, 1), q(8, 59049), q(243, 67228), q(161051, 4194304), q(25000, 371293), q(1, 4)]),
{
    let a = rktp64_model().a;
    lemma_rktp64_shape();
    lemma_rktp64_phi_0();
    lemma_q_mat_vec_congruent(a, elementary_weights(a, 0), seq![q(1, 1), q(1, 1), q(1, 1), q(1, 1), q(1, 1), q(1, 1), q(1, 1)]);
    lemma_rktp64_eval_a_21();
    lemma_q_vec_eq_trans(q_mat_vec(a, elementary_weights(a, 0)), q_mat_vec(a, seq![q(1, 1), q(1, 1), q(1, 1), q(1, 1), q(1, 1), q(1, 1), q(1, 1)]), seq![q(0, 1), q(4, 27), q(2, 9), q(3, 7), q(11, 16), q(10, 13), q(1, 1)]);
    lemma_rktp64_phi_12();
    lemma_q_hadamard_congruent(q_mat_vec(a, elementary_weights(a, 0)), seq![q(0, 1), q(4, 27), q(2, 9), q(3, 7), q(11, 16), q(10, 13), q(1, 1)], elementary_weights(a, 12), seq![q(0, 1), q(0, 1), q(4, 6561), q(81, 9604), q(14641, 262144), q(2500, 28561), q(1, 4)]);
    lemma_rktp64_eval_h_21();
    lemma_q_vec_eq_trans(q_hadamard(q_mat_vec(a, elementary_weights(a, 0)), elementary_weights(a, 12)), q_hadamard(seq![q(0, 1), q(4, 27), q(2, 9), q(3, 7), q(11, 16), q(10, 13), q(1, 1)], seq![q(0, 1), q(0, 1), q(4, 6561), q(81, 9604), q(14641, 262144), q(2500, 28561), q(1, 4)]), seq![q(0, 1), q(0, 1), q(8, 59049), q(243, 67228), q(161051, 4194304), q(25000, 371293), q(1, 4)]);
}

proof fn lemma_rktp64_eval_a_22()
    ensures
        q_vec_eq(q_mat_vec(rktp64_model().a, seq![q(1, 1), q(1, 1), q(1, 1), q(1, 1), q(1, 1), q(1, 1), q(1, 1)]), seq![q(0, 1), q(4, 27), q(2, 9), q(3, 7), q(11, 16), q(10, 13), q(1, 1)]),
{
    let a = rktp64_model().a;
    let v = q_mat_vec(a, seq![q(1, 1), q(1, 1), q(1, 1), q(1, 1), q(1, 1), q(1, 1), q(1, 1)]);
    let w = seq![q(0, 1), q(4, 27), q(2, 9), q(3, 7), q(11, 16), q(10, 13), q(1, 1)];
    assert forall|i: int|
        #![trigger v[i]]
        #![trigger w[i]]
        0 <= i < 7 implies q_eq(v[i], w[i]) && q_valid(v[i]) && q_valid(w[i]) by {
        if i == 0 {
            assert(a[0] == seq![q(0, 1), q(0, 1), q(0, 1), q(0, 1), q(0, 1), q(0, 1), q(0, 1)]);
            lemma_rktp64_sum_15();
            assert(w[0] == q(0, 1));
            lemma_q_eq_value(0, 1, 0, 1);
        } else if i == 1 {
            assert(a[1] == seq![q(4, 27), q(0, 1), q(0, 1), q(0, 1), q(0, 1), q(0, 1), q(0, 1)]);
            lemma_rktp64_sum_16();
            assert(w[1] == q(4, 27));
            lemma_q_eq_value(4, 27, 4, 27);
        } else if i == 2 {
            assert(a[2] == seq![q(1, 18), q(1, 6), q(0, 1), q(0, 1), q(0, 1), q(0, 1), q(0, 1)]);
            lemma_rktp64_sum_17();
            assert(w[2] == q(2, 9));
            lemma_q_eq_value(2, 9, 2, 9);
        } else if i == 3 {
            assert(a[3] == seq![q(66, 343), q(-729, 1372), q(1053, 1372), q(0, 1), q(0, 1), q(0, 1), q(0, 1)]);
            lemma_rktp64_sum_18();
            assert(w[3] == q(3, 7));
            lemma_q_eq_value(3, 7, 3, 7);
        } else if i == 4 {
            assert(a[4] == seq![q(13339, 49152), q(-4617, 16384), q(5427, 53248), q(95207, 159744), q(0, 1), q(0, 1), q(0, 1)]);
            lemma_rktp64_sum_19();
            assert(w[4] == q(11, 16));
            lemma_q_eq_value(11, 16, 11, 16);
        } else if i == 5 {
            assert(a[5] == seq![q(-6935, 57122), q(23085, 48334), q(33363360, 273642941), q(972160, 118442467), q(172687360, 610434253), q(0, 1), q(0, 1)]);
            lemma_rktp64_sum_20();
            assert(w[5] == q(10, 13));
            lemma_q_eq_value(10, 13, 10, 13);
        } else if i == 6 {
            assert(a[6] == seq![q(611, 1891), q(-4617, 7564), q(6041007, 13176488), q(12708836, 22100117), q(-35840000, 62461621), q(6597591, 7972456), q(0, 1)]);
            lemma_rktp64_sum_21();
            assert(w[6] == q(1, 1));
            lemma_q_eq_value(1, 1, 1, 1);
        }
    }
}

proof fn lemma_rktp64_eval_h_22()
    ensures
        q_vec_eq(q_hadamard(seq![q(0, 1), q(4, 27), q(2, 9), q(3, 7), q(11, 16), q(10, 13), q(1, 1)], seq![q(0, 1), q(0, 1), q(32, 59049), q(62, 9261), q(109427, 2322432), q(17005360, 178134957), q(36536, 153171)]), seq![q(0, 1), q(0, 1), q(64, 531441), q(62, 21609), q(1203697, 37158912), q(170053600, 2315754441), q(36536, 153171)]),
{
    let x = seq![q(0, 1), q(4, 27), q(2, 9), q(3, 7), q(11, 16), q(10, 13), q(1, 1)];
    let y = seq![q(0, 1), q(0, 1), q(32, 59049), q(62, 9261), q(109427, 2322432), q(17005360, 178134957), q(36536, 153171)];
    let v = q_hadamard(x, y);
    let w = seq![q(0, 1), q(0, 1), q(64, 531441), q(62, 21609), q(1203697, 37158912), q(170053600, 2315754441), q(36536, 153171)];
    assert forall|i: int|
        #![trigger v[i]]
        #![trigger w[i]]
        0 <= i < 7 implies q_eq(v[i], w[i]) && q_valid(v[i]) && q_valid(w[i]) by {
        if i == 0 {
            lemma_q_mul_value(0, 1, 0, 1);
            assert(x[0] == q(0, 1) && y[0] == q(0, 1));
            lemma_q_eq_value(0, 1, 0, 1);
            assert(w[0] == q(0, 1));
        } else if i == 1 {
            lemma_q_mul_value(4, 27, 0, 1);
            assert(x[1] == q(4, 27) && y[1] == q(0, 1));
            lemma_q_eq_value(0, 27, 0, 1);
            assert(w[1] == q(0, 1));
        } else if i == 2 {
            lemma_q_mul_value(2, 9, 32, 59049);
            assert(x[2] == q(2, 9) && y[2] == q(32, 59049));
            lemma_q_eq_value(64, 531441, 64, 531441);
            assert(w[2] == q(64, 531441));
        } else if i == 3 {
            lemma_q_mul_value(3, 7, 62, 9261);
            assert(x[3] == q(3, 7) && y[3] == q(62, 9261));
            lemma_q_eq_value(186, 64827, 62, 21609);
            assert(w[3] == q(62, 21609));
        } else if i == 4 {
            lemma_q_mul_value(11, 16, 109427, 2322432);
            assert(x[4] == q(11, 16) && y[4] == q(109427, 2322432));
            lemma_q_eq_value(1203697, 37158912, 1203697, 37158912);
            assert(w[4] == q(1203697, 37158912));
        } else if i == 5 {
            lemma_q_mul_value(10, 13, 17005360, 178134957);
            assert(x[5] == q(10, 13) && y[5] == q(17005360, 178134957));
            lemma_q_eq_value(170053600, 2315754441, 170053600, 2315754441);
            assert(w[5] == q(170053600, 2315754441));
        } else if i == 6 {
            lemma_q_mul_value(1, 1, 36536, 153171);
            assert(x[6] == q(1, 1) && y[6] == q(36536, 153171));
            lemma_q_eq_value(36536, 153171, 36536, 153171);
            assert(w[6] == q(36536, 153171));
        }
    }
}

proof fn lemma_rktp64_phi_22()
    ensures
        q_vec_eq(elementary_weights(rktp64_model().a, 22), seq![q(0, 1), q(0, 1), q(64, 531441), q(62, 21609), q(1203697, 37158912), q(170053600, 2315754441), q(36536, 153171)]),
{
    let a = rktp64_model().a;
    lemma_rktp64_shape();
    lemma_rktp64_phi_0();
    lemma_q_mat_vec_congruent(a, elementary_weights(a, 0), seq![q(1, 1), q(1, 1), q(1, 1), q(1, 1), q(1, 1), q(1, 1), q(1, 1)]);
    lemma_rktp64_eval_a_22();
    lemma_q_vec_eq_trans(q_mat_vec(a, elementary_weights(a, 0)), q_mat_vec(a, seq![q(1, 1), q(1, 1), q(1, 1), q(1, 1), q(1, 1), q(1, 1), q(1, 1)]), seq![q(0, 1), q(4, 27), q(2, 9), q(3, 7), q(11, 16), q(10, 13), q(1, 1)]);
    lemma_rktp64_phi_13();
    lemma_q_hadamard_congruent(q_mat_vec(a, elementary_weights(a, 0)), seq![q(0, 1), q(4, 27), q(2, 9), q(3, 7), q(11, 16), q(10, 13), q(1, 1)], elementary_weights(a, 13), seq![q(0, 1), q(0, 1), q(32, 59049), q(62, 9261), q(109427, 2322432), q(17005360, 178134957), q(36536, 153171)]);
    lemma_rktp64_eval_h_22();
    lemma_q_vec_eq_trans(q_hadamard(q_mat_vec(a, elementary_weights(a, 0)), elementary_weights(a, 13)), q_hadamard(seq![q(0, 1), q(4, 27), q(2, 9), q(3, 7), q(11, 16), q(10, 13), q(1, 1)], seq![q(0, 1), q(0, 1), q(32, 59049), q(62, 9261), q(109427, 2322432), q(17005360, 178134957), q(36536, 153171)]), seq![q(0, 1), q(0, 1), q(64, 531441), q(62, 21609), q(1203697, 37158912), q(170053600, 2315754441), q(36536, 153171)]);
}

proof fn lemma_rktp64_eval_a_23()
    ensures
        q_vec_eq(q_mat_vec(rktp64_model().a, seq![q(1, 1), q(1, 1), q(1, 1), q(1, 1), q(1, 1), q(1, 1), q(1, 1)]), seq![q(0, 1), q(4, 27), q(2, 9), q(3, 7), q(11, 16), q(10, 13), q(1, 1)]),
{
    let a = rktp64_model().a;
    let v = q_mat_vec(a, seq![q(1, 1), q(1, 1), q(1, 1), q(1, 1), q(1, 1), q(1, 1), q(1, 1)]);
    let w = seq![q(0, 1), q(4, 27), q(2, 9), q(3, 7), q(11, 16), q(10, 13), q(1, 1)];
    assert forall|i: int|
        #![trigger v[i]]
        #![trigger w[i]]
        0 <= i < 7 implies q_eq(v[i], w[i]) && q_valid(v[i]) && q_valid(w[i]) by {
        if i == 0 {
            assert(a[0] == seq![q(0, 1), q(0, 1), q(0, 1), q(0, 1), q(0, 1), q(0, 1), q(0, 1)]);
            lemma_rktp64_sum_15();
            assert(w[0] == q(0, 1));
            lemma_q_eq_value(0, 1, 0, 1);
        } else if i == 1 {
            assert(a[1] == seq![q(4, 27), q(0, 1), q(0, 1), q(0, 1), q(0, 1), q(0, 1), q(0, 1)]);
            lemma_rktp64_sum_16();
            assert(w[1] == q(4, 27));
            lemma_q_eq_value(4, 27, 4, 27);
        } else if i == 2 {
            assert(a[2] == seq![q(1, 18), q(1, 6), q(0, 1), q(0, 1), q(0, 1), q(0, 1), q(0, 1)]);
            lemma_rktp64_sum_17();
            assert(w[2] == q(2, 9));
            lemma_q_eq_value(2, 9, 2, 9);
        } else if i == 3 {
            assert(a[3] == seq![q(66, 343), q(-729, 1372), q(1053, 1372), q(0, 1), q(0, 1), q(0, 1), q(0, 1)]);
            lemma_rktp64_sum_18();
            assert(w[3] == q(3, 7));
            lemma_q_eq_value(3, 7, 3, 7);
        } else if i == 4 {
            assert(a[4] == seq![q(13339, 49152), q(-4617, 16384), q(5427, 53248), q(95207, 159744), q(0, 1), q(0, 1), q(0, 1)]);
            lemma_rktp64_sum_19();
            assert(w[4] == q(11, 16));
            lemma_q_eq_value(11, 16, 11, 16);
        } else if i == 5 {
            assert(a[5] == seq![q(-6935, 57122), q(23085, 48334), q(33363360, 273642941), q(972160, 118442467), q(172687360, 610434253), q(0, 1), q(0, 1)]);
            lemma_rktp64_sum_20();
            assert(w[5] == q(10, 13));
            lemma_q_eq_value(10, 13, 10, 13);
        } else if i == 6 {
            assert(a[6] == seq![q(611, 1891), q(-4617, 7564), q(6041007, 13176488), q(12708836, 22100117), q(-35840000, 62461621), q(6597591, 7972456), q(0, 1)]);
            lemma_rktp64_sum_21();
            assert(w[6] == q(1, 1));
            lemma_q_eq_value(1, 1, 1, 1);
        }
    }
}

proof fn lemma_rktp64_eval_h_23()
    ensures
        q_vec_eq(q_hadamard(seq![q(0, 1), q(4, 27), q(2, 9), q(3, 7), q(11, 16), q(10, 13), q(1, 1)], seq![q(0, 1), q(0, 1), q(0, 1), q(13, 3087), q(12395, 516096), q(2788120, 59378319), q(6140, 51057)]), seq![q(0, 1), q(0, 1), q(0, 1), q(13, 7203), q(136345, 8257536), q(27881200, 771918147), q(6140, 51057)]),
{
    let x = seq![q(0, 1), q(4, 27), q(2, 9), q(3, 7), q(11, 16), q(10, 13), q(1, 1)];
    let y = seq![q(0, 1), q(0, 1), q(0, 1), q(13, 3087), q(12395, 516096), q(2788120, 59378319), q(6140, 51057)];
    let v = q_hadamard(x, y);
    let w = seq![q(0, 1), q(0, 1), q(0, 1), q(13, 7203), q(136345, 8257536), q(27881200, 771918147), q(6140, 51057)];
    assert forall|i: int|
        #![trigger v[i]]
        #![trigger w[i]]
        0 <= i < 7 implies q_eq(v[i], w[i]) && q_valid(v[i]) && q_valid(w[i]) by {
        if i == 0 {
            lemma_q_mul_value(0, 1, 0, 1);
            assert(x[0] == q(0, 1) && y[0] == q(0, 1));
            lemma_q_eq_value(0, 1, 0, 1);
            assert(w[0] == q(0, 1));
        } else if i == 1 {
            lemma_q_mul_value(4, 27, 0, 1);
            assert(x[1] == q(4, 27) && y[1] == q(0, 1));
            lemma_q_eq_value(0, 27, 0, 1);
            assert(w[1] == q(0, 1));
        } else if i == 2 {
            lemma_q_mul_value(2, 9, 0, 1);
            assert(x[2] == q(2, 9) && y[2] == q(0, 1));
            lemma_q_eq_value(0, 9, 0, 1);
            assert(w[2] == q(0, 1));
        } else if i == 3 {
            lemma_q_mul_value(3, 7, 13, 3087);
            assert(x[3] == q(3, 7) && y[3] == q(13, 3087));
            lemma_q_eq_value(39, 21609, 13, 7203);
            assert(w[3] == q(13, 7203));
        } else if i == 4 {
            lemma_q_mul_value(11, 16, 12395, 516096);
            assert(x[4] == q(11, 16) && y[4] == q(12395, 516096));
            lemma_q_eq_value(136345, 8257536, 136345, 8257536);
            assert(w[4] == q(136345, 8257536));
        } else if i == 5 {
            lemma_q_mul_value(10, 13, 2788120, 59378319);
            assert(x[5] == q(10, 13) && y[5] == q(2788120, 59378319));
            lemma_q_eq_value(27881200, 771918147, 27881200, 771918147);
            assert(w[5] == q(27881200, 771918147));
        } else if i == 6 {
            lemma_q_mul_value(1, 1, 6140, 51057);
            assert(x[6] == q(1, 1) && y[6] == q(6140, 51057));
            lemma_q_eq_value(6140, 51057, 6140, 51057);
            assert(w[6] == q(6140, 51057));
        }
    }
}

proof fn lemma_rktp64_phi_23()
    ensures
        q_vec_eq(elementary_weights(rktp64_model().a, 23), seq![q(0, 1), q(0, 1), q(0, 1), q(13, 7203), q(136345, 8257536), q(27881200, 771918147), q(6140, 51057)]),
{
    let a = rktp64_model().a;
    lemma_rktp64_shape();
    lemma_rktp64_phi_0();
    lemma_q_mat_vec_congruent(a, elementary_weights(a, 0), seq![q(1, 1), q(1, 1), q(1, 1), q(1, 1), q(1, 1), q(1, 1), q(1, 1)]);
    lemma_rktp64_eval_a_23();
    lemma_q_vec_eq_trans(q_mat_vec(a, elementary_weights(a, 0)), q_mat_vec(a, seq![q(1, 1), q(1, 1), q(1, 1), q(1, 1), q(1, 1), q(1, 1), q(1, 1)]), seq![q(0, 1), q(4, 27), q(2, 9), q(3, 7), q(11, 16), q(10, 13), q(1, 1)]);
    lemma_rktp64_phi_14();
    lemma_q_hadamard_congruent(q_mat_vec(a, elementary_weights(a, 0)), seq![q(0, 1), q(4, 27), q(2, 9), q(3, 7), q(11, 16), q(10, 13), q(1, 1)], elementary_weights(a, 14), seq![q(0, 1), q(0, 1), q(0, 1), q(13, 3087), q(12395, 516096), q(2788120, 59378319), q(6140, 51057)]);
    lemma_rktp64_eval_h_23();
    lemma_q_vec_eq_trans(q_hadamard(q_mat_vec(a, elementary_weights(a, 0)), elementary_weights(a, 14)), q_hadamard(seq![q(0, 1), q(4, 27), q(2, 9), q(3, 7), q(11, 16), q(10, 13), q(1, 1)], seq![q(0, 1), q(0, 1), q(0, 1), q(13, 3087), q(12395, 516096), q(2788120, 59378319), q(6140, 51057)]), seq![q(0, 1), q(0, 1), q(0, 1), q(13, 7203), q(136345, 8257536), q(27881200, 771918147), q(6140, 51057)]);
}

proof fn lemma_rktp64_eval_a_24()
    ensures
        q_vec_eq(q_mat_vec(rktp64_model().a, seq![q(1, 1), q(1, 1), q(1, 1), q(1, 1), q(1, 1), q(1, 1), q(1, 1)]), seq![q(0, 1), q(4, 27), q(2, 9), q(3, 7), q(11, 16), q(10, 13), q(1, 1)]),
{
    let a = rktp64_model().a;
    let v = q_mat_vec(a, seq![q(1, 1), q(1, 1), q(1, 1), q(1, 1), q(1, 1), q(1, 1), q(1, 1)]);
    let w = seq![q(0, 1), q(4, 27), q(2, 9), q(3, 7), q(11, 16), q(10, 13), q(1, 1)];
    assert forall|i: int|
        #![trigger v[i]]
        #![trigger w[i]]
        0 <= i < 7 implies q_eq(v[i], w[i]) && q_valid(v[i]) && q_valid(w[i]) by {
        if i == 0 {
            assert(a[0] == seq![q(0, 1), q(0, 1), q(0, 1), q(0, 1), q(0, 1), q(0, 1), q(0, 1)]);
            lemma_rktp64_sum_15();
            assert(w[0] == q(0, 1));
            lemma_q_eq_value(0, 1, 0, 1);
        } else if i == 1 {
            assert(a[1] == seq![q(4, 27), q(0, 1), q(0, 1), q(0, 1), q(0, 1), q(0, 1), q(0, 1)]);
            lemma_rktp64_sum_16();
            assert(w[1] == q(4, 27));
            lemma_q_eq_value(4, 27, 4, 27);
        } else if i == 2 {
            assert(a[2] == seq![q(1, 18), q(1, 6), q(0, 1), q(0, 1), q(0, 1), q(0, 1), q(0, 1)]);
            lemma_rktp64_sum_17();
            assert(w[2] == q(2, 9));
            lemma_q_eq_value(2, 9, 2, 9);
        } else if i == 3 {
            assert(a[3] == seq![q(66, 343), q(-729, 1372), q(1053, 1372), q(0, 1), q(0, 1), q(0, 1), q(0, 1)]);
            lemma_rktp64_sum_18();
            assert(w[3] == q(3, 7));
            lemma_q_eq_value(3, 7, 3, 7);
        } else if i == 4 {
            assert(a[4] == seq![q(13339, 49152), q(-4617, 16384), q(5427, 53248), q(95207, 159744), q(0, 1), q(0, 1), q(0, 1)]);
            lemma_rktp64_sum_19();
            assert(w[4] == q(11, 16));
            lemma_q_eq_value(11, 16, 11, 16);
        } else if i == 5 {
            assert(a[5] == seq![q(-6935, 57122), q(23085, 48334), q(33363360, 273642941), q(972160, 118442467), q(172687360, 610434253), q(0, 1), q(0, 1)]);
            lemma_rktp64_sum_20();
            assert(w[5] == q(10, 13));
            lemma_q_eq_value(10, 13, 10, 13);
        } else if i == 6 {
            assert(a[6] == seq![q(611, 1891), q(-4617, 7564), q(6041007, 13176488), q(12708836, 22100117), q(-35840000, 62461621), q(6597591, 7972456), q(0, 1)]);
            lemma_rktp64_sum_21();
            assert(w[6] == q(1, 1));
            lemma_q_eq_value(1, 1, 1, 1);
        }
    }
}

proof fn lemma_rktp64_eval_h_24()
    ensures
        q_vec_eq(q_hadamard(seq![q(0, 1), q(4, 27), q(2, 9), q(3, 7), q(11, 16), q(10, 13), q(1, 1)], seq![q(0, 1), q(0, 1), q(0, 1), q(26, 9261), q(12395, 774144), q(5576240, 178134957), q(12280, 153171)]), seq![q(0, 1), q(0, 1), q(0, 1), q(26, 21609), q(136345, 12386304), q(55762400, 2315754441), q(12280, 153171)]),
{
    let x = seq![q(0, 1), q(4, 27), q(2, 9), q(3, 7), q(11, 16), q(10, 13), q(1, 1)];
    let y = seq![q(0, 1), q(0, 1), q(0, 1), q(26, 9261), q(12395, 774144), q(5576240, 178134957), q(12280, 153171)];
    let v = q_hadamard(x, y);
    let w = seq![q(0, 1), q(0, 1), q(0, 1), q(26, 21609), q(136345, 12386304), q(55762400, 2315754441), q(12280, 153171)];
    assert forall|i: int|
        #![trigger v[i]]
        #![trigger w[i]]
        0 <= i < 7 implies q_eq(v[i], w[i]) && q_valid(v[i]) && q_valid(w[i]) by {
        if i == 0 {
            lemma_q_mul_value(0, 1, 0, 1);
            assert(x[0] == q(0, 1) && y[0] == q(0, 1));
            lemma_q_eq_value(0, 1, 0, 1);
            assert(w[0] == q(0, 1));
        } else if i == 1 {
            lemma_q_mul_value(4, 27, 0, 1);
            assert(x[1] == q(4, 27) && y[1] == q(0, 1));
            lemma_q_eq_value(0, 27, 0, 1);
            assert(w[1] == q(0, 1));
        } else if i == 2 {
            lemma_q_mul_value(2, 9, 0, 1);
            assert(x[2] == q(2, 9) && y[2] == q(0, 1));
            lemma_q_eq_value(0, 9, 0, 1);
            assert(w[2] == q(0, 1));
        } else if i == 3 {
            lemma_q_mul_value(3, 7, 26, 9261);
            assert(x[3] == q(3, 7) && y[3] == q(26, 9261));
            lemma_q_eq_value(78, 64827, 26, 21609);
            assert(w[3] == q(26, 21609));
        } else if i == 4 {
            lemma_q_mul_value(11, 16, 12395, 774144);
            assert(x[4] == q(11, 16) && y[4] == q(12395, 774144));
            lemma_q_eq_value(136345, 12386304, 136345, 12386304);
            assert(w[4] == q(136345, 12386304));
        } else if i == 5 {
            lemma_q_mul_value(10, 13, 5576240, 178134957);
            assert(x[5] == q(10, 13) && y[5] == q(5576240, 178134957));
            lemma_q_eq_value(55762400, 2315754441, 55762400, 2315754441);
            assert(w[5] == q(55762400, 2315754441));
        } else if i == 6 {
            lemma_q_mul_value(1, 1, 12280, 153171);
            assert(x[6] == q(1, 1) && y[6] == q(12280, 153171));
            lemma_q_eq_value(12280, 153171, 12280, 153171);
            assert(w[6] == q(12280, 153171));
        }
    }
}

proof fn lemma_rktp64_phi_24()
    ensures
        q_vec_eq(elementary_weights(rktp64_model().a, 24), seq![q(0, 1), q(0, 1), q(0, 1), q(26, 21609), q(136345, 12386304), q(55762400, 2315754441), q(12280, 153171)]),
{
    let a = rktp64_model().a;
    lemma_rktp64_shape();
    lemma_rktp64_phi_0();
    lemma_q_mat_vec_congruent(a, elementary_weights(a, 0), seq![q(1, 1), q(1, 1), q(1, 1), q(1, 1), q(1, 1), q(1, 1), q(1, 1)]);
    lemma_rktp64_eval_a_24();
    lemma_q_vec_eq_trans(q_mat_vec(a, elementary_weights(a, 0)), q_mat_vec(a, seq![q(1, 1), q(1, 1), q(1, 1), q(1, 1), q(1, 1), q(1, 1), q(1, 1)]), seq![q(0, 1), q(4, 27), q(2, 9), q(3, 7), q(11, 16), q(10, 13), q(1, 1)]);
    lemma_rktp64_phi_15();
    lemma_q_hadamard_congruent(q_mat_vec(a, elementary_weights(a, 0)), seq![q(0, 1), q(4, 27), q(2, 9), q(3, 7), q(11, 16), q(10, 13), q(1, 1)], elementary_weights(a, 15), seq![q(0, 1), q(0, 1), q(0, 1), q(26, 9261), q(12395, 774144), q(5576240, 178134957), q(12280, 153171)]);
    lemma_rktp64_eval_h_24();
    lemma_q_vec_eq_trans(q_hadamard(q_mat_vec(a, elementary_weights(a, 0)), elementary_weights(a, 15)), q_hadamard(seq![q(0, 1), q(4, 27), q(2, 9), q(3, 7), q(11, 16), q(10, 13), q(1, 1)], seq![q(0, 1), q(0, 1), q(0, 1), q(26, 9261), q(12395, 774144), q(5576240, 178134957), q(12280, 153171)]), seq![q(0, 1), q(0, 1), q(0, 1), q(26, 21609), q(136345, 12386304), q(55762400, 2315754441), q(12280, 153171)]);
}

proof fn lemma_rktp64_eval_a_25()
    ensures
        q_vec_eq(q_mat_vec(rktp64_model().a, seq![q(1, 1), q(1, 1), q(1, 1), q(1, 1), q(1, 1), q(1, 1), q(1, 1)]), seq![q(0, 1), q(4, 27), q(2, 9), q(3, 7), q(11, 16), q(10, 13), q(1, 1)]),
{
    let a = rktp64_model().a;
    let v = q_mat_vec(a, seq![q(1, 1), q(1, 1), q(1, 1), q(1, 1), q(1, 1), q(1, 1), q(1, 1)]);
    let w = seq![q(0, 1), q(4, 27), q(2, 9), q(3, 7), q(11, 16), q(10, 13), q(1, 1)];
    assert forall|i: int|
        #![trigger v[i]]
        #![trigger w[i]]
        0 <= i < 7 implies q_eq(v[i], w[i]) && q_valid(v[i]) && q_valid(w[i]) by {
        if i == 0 {
            assert(a[0] == seq![q(0, 1), q(0, 1), q(0, 1), q(0, 1), q(0, 1), q(0, 1), q(0, 1)]);
            lemma_rktp64_sum_15();
            assert(w[0] == q(0, 1));
            lemma_q_eq_value(0, 1, 0, 1);
        } else if i == 1 {
            assert(a[1] == seq![q(4, 27), q(0, 1), q(0, 1), q(0, 1), q(0, 1), q(0, 1), q(0, 1)]);
            lemma_rktp64_sum_16();
            assert(w[1] == q(4, 27));
            lemma_q_eq_value(4, 27, 4, 27);
        } else if i == 2 {
            assert(a[2] == seq![q(1, 18), q(1, 6), q(0, 1), q(0, 1), q(0, 1), q(0, 1), q(0, 1)]);
            lemma_rktp64_sum_17();
            assert(w[2] == q(2, 9));
            lemma_q_eq_value(2, 9, 2, 9);
        } else if i == 3 {
            assert(a[3] == seq![q(66, 343), q(-729, 1372), q(1053, 1372), q(0, 1), q(0, 1), q(0, 1), q(0, 1)]);
            lemma_rktp64_sum_18();
            assert(w[3] == q(3, 7));
            lemma_q_eq_value(3, 7, 3, 7);
        } else if i == 4 {
            assert(a[4] == seq![q(13339, 49152), q(-4617, 16384), q(5427, 53248), q(95207, 159744), q(0, 1), q(0, 1), q(0, 1)]);
            lemma_rktp64_sum_19();
            assert(w[4] == q(11, 16));
            lemma_q_eq_value(11, 16, 11, 16);
        } else if i == 5 {
            assert(a[5] == seq![q(-6935, 57122), q(23085, 48334), q(33363360, 273642941), q(972160, 118442467), q(172687360, 610434253), q(0, 1), q(0, 1)]);
            lemma_rktp64_sum_20();
            assert(w[5] == q(10, 13));
            lemma_q_eq_value(10, 13, 10, 13);
        } else if i == 6 {
            assert(a[6] == seq![q(611, 1891), q(-4617, 7564), q(6041007, 13176488), q(12708836, 22100117), q(-35840000, 62461621), q(6597591, 7972456), q(0, 1)]);
            lemma_rktp64_sum_21();
            assert(w[6] == q(1, 1));
            lemma_q_eq_value(1, 1, 1, 1);
        }
    }
}

proof fn lemma_rktp64_eval_h_25()
    ensures
        q_vec_eq(q_hadamard(seq![q(0, 1), q(4, 27), q(2, 9), q(3, 7), q(11, 16), q(10, 13), q(1, 1)], seq![q(0, 1), q(0, 1), q(0, 1), q(0, 1), q(1943, 172032), q(35960, 2199197), q(69, 1891)]), seq![q(0, 1), q(0, 1), q(0, 1), q(0, 1), q(21373, 2752512), q(359600, 28589561), q(69, 1891)]),
{
    let x = seq![q(0, 1), q(4, 27), q(2, 9), q(3, 7), q(11, 16), q(10, 13), q(1, 1)];
    let y = seq![q(0, 1), q(0, 1), q(0, 1), q(0, 1), q(1943, 172032), q(35960, 2199197), q(69, 1891)];
    let v = q_hadamard(x, y);
    let w = seq![q(0, 1), q(0, 1), q(0, 1), q(0, 1), q(21373, 2752512), q(359600, 28589561), q(69, 1891)];
    assert forall|i: int|
        #![trigger v[i]]
        #![trigger w[i]]
        0 <= i < 7 implies q_eq(v[i], w[i]) && q_valid(v[i]) && q_valid(w[i]) by {
        if i == 0 {
            lemma_q_mul_value(0, 1, 0, 1);
            assert(x[0] == q(0, 1) && y[0] == q(0, 1));
            lemma_q_eq_value(0, 1, 0, 1);
            assert(w[0] == q(0, 1));
        } else if i == 1 {
            lemma_q_mul_value(4, 27, 0, 1);
            assert(x[1] == q(4, 27) && y[1] == q(0, 1));
            lemma_q_eq_value(0, 27, 0, 1);
            assert(w[1] == q(0, 1));
        } else if i == 2 {
            lemma_q_mul_value(2, 9, 0, 1);
            assert(x[2] == q(2, 9) && y[2] == q(0, 1));
            lemma_q_eq_value(0, 9, 0, 1);
            assert(w[2] == q(0, 1));
        } else if i == 3 {
            lemma_q_mul_value(3, 7, 0, 1);
            assert(x[3] == q(3, 7) && y[3] == q(0, 1));
            lemma_q_eq_value(0, 7, 0, 1);
            assert(w[3] == q(0, 1));
        } else if i == 4 {
            lemma_q_mul_value(11, 16, 1943, 172032);
            assert(x[4] == q(11, 16) && y[4] == q(1943, 172032));
            lemma_q_eq_value(21373, 2752512, 21373, 2752512);
            assert(w[4] == q(21373, 2752512));
        } else if i == 5 {
            lemma_q_mul_value(10, 13, 35960, 2199197);
            assert(x[5] == q(10, 13) && y[5] == q(35960, 2199197));
            lemma_q_eq_value(359600, 28589561, 359600, 28589561);
            assert(w[5] == q(359600, 28589561));
        } else if i == 6 {
            lemma_q_mul_value(1, 1, 69, 1891);
            assert(x[6] == q(1, 1) && y[6] == q(69, 1891));
            lemma_q_eq_value(69, 1891, 69, 1891);
            assert(w[6] == q(69, 1891));
        }
    }
}

proof fn lemma_rktp64_phi_25()
    ensures
        q_vec_eq(elementary_weights(rktp64_model().a, 25), seq![q(0, 1), q(0, 1), q(0, 1), q(0, 1), q(21373, 2752512), q(359600, 28589561), q(69, 1891)]),
{
    let a = rktp64_model().a;
    lemma_rktp64_shape();
    lemma_rktp64_phi_0();
    lemma_q_mat_vec_congruent(a, elementary_weights(a, 0), seq![q(1, 1), q(1, 1), q(1, 1), q(1, 1), q(1, 1), q(1, 1), q(1, 1)]);
    lemma_rktp64_eval_a_25();
    lemma_q_vec_eq_trans(q_mat_vec(a, elementary_weights(a, 0)), q_mat_vec(a, seq![q(1, 1), q(1, 1), q(1, 1), q(1, 1), q(1, 1), q(1, 1), q(1, 1)]), seq![q(0, 1), q(4, 27), q(2, 9), q(3, 7), q(11, 16), q(10, 13), q(1, 1)]);
    lemma_rktp64_phi_16();
    lemma_q_hadamard_congruent(q_mat_vec(a, elementary_weights(a, 0)), seq![q(0, 1), q(4, 27), q(2, 9), q(3, 7), q(11, 16), q(10, 13), q(1, 1)], elementary_weights(a, 16), seq![q(0, 1), q(0, 1), q(0, 1), q(0, 1), q(1943, 172032), q(35960, 2199197), q(69, 1891)]);
    lemma_rktp64_eval_h_25();
    lemma_q_vec_eq_trans(q_hadamard(q_mat_vec(a, elementary_weights(a, 0)), elementary_weights(a, 16)), q_hadamard(seq![q(0, 1), q(4, 27), q(2, 9), q(3, 7), q(11, 16), q(10, 13), q(1, 1)], seq![q(0, 1), q(0, 1), q(0, 1), q(0, 1), q(1943, 172032), q(35960, 2199197), q(69, 1891)]), seq![q(0, 1), q(0, 1), q(0, 1), q(0, 1), q(21373, 2752512), q(359600, 28589561), q(69, 1891)]);
}

proof fn lemma_rktp64_eval_a_26()
    ensures
        q_vec_eq(q_mat_vec(rktp64_model().a, seq![q(0, 1), q(4, 27), q(2, 9), q(3, 7), q(11, 16), q(10, 13), q(1, 1)]), seq![q(0, 1), q(0, 1), q(2, 81), q(9, 98), q(121, 512), q(50, 169), q(1, 2)]),
{
    let a = rktp64_model().a;
    let v = q_mat_vec(a, seq![q(0, 1), q(4, 27), q(2, 9), q(3, 7), q(11, 16), q(10, 13), q(1, 1)]);
    let w = seq![q(0, 1), q(0, 1), q(2, 81), q(9, 98), q(121, 512), q(50, 169), q(1, 2)];
    assert forall|i: int|
        #![trigger v[i]]
        #![trigger w[i]]
        0 <= i < 7 implies q_eq(v[i], w[i]) && q_valid(v[i]) && q_valid(w[i]) by {
        if i == 0 {
            assert(a[0] == seq![q(0, 1), q(0, 1), q(0, 1), q(0, 1), q(0, 1), q(0, 1), q(0, 1)]);
            lemma_rktp64_sum_22();
            assert(w[0] == q(0, 1));
            lemma_q_eq_value(0, 1, 0, 1);
        } else if i == 1 {
            assert(a[1] == seq![q(4, 27), q(0, 1), q(0, 1), q(0, 1), q(0, 1), q(0, 1), q(0, 1)]);
            lemma_rktp64_sum_23();
            assert(w[1] == q(0, 1));
            lemma_q_eq_value(0, 1, 0, 1);
        } else if i == 2 {
            assert(a[2] == seq![q(1, 18), q(1, 6), q(0, 1), q(0, 1), q(0, 1), q(0, 1), q(0, 1)]);
            lemma_rktp64_sum_24();
            assert(w[2] == q(2, 81));
            lemma_q_eq_value(2, 81, 2, 81);
        } else if i == 3 {
            assert(a[3] == seq![q(66, 343), q(-729, 1372), q(1053, 1372), q(0, 1), q(0, 1), q(0, 1), q(0, 1)]);
            lemma_rktp64_sum_25();
            assert(w[3] == q(9, 98));
            lemma_q_eq_value(9, 98, 9, 98);
        } else if i == 4 {
            assert(a[4] == seq![q(13339, 49152), q(-4617, 16384), q(5427, 53248), q(95207, 159744), q(0, 1), q(0, 1), q(0, 1)]);
            lemma_rktp64_sum_26();
            assert(w[4] == q(121, 512));
            lemma_q_eq_value(121, 512, 121, 512);
        } else if i == 5 {
            assert(a[5] == seq![q(-6935, 57122), q(23085, 48334), q(33363360, 273642941), q(972160, 118442467), q(172687360, 610434253), q(0, 1), q(0, 1)]);
            lemma_rktp64_sum_27();
            assert(w[5] == q(50, 169));
            lemma_q_eq_value(50, 169, 50, 169);
        } else if i == 6 {
            assert(a[6] == seq![q(611, 1891), q(-4617, 7564), q(6041007, 13176488), q(12708836, 22100117), q(-35840000, 62461621), q(6597591, 7972456), q(0, 1)]);
            lemma_rktp64_sum_28();
            assert(w[6] == q(1, 2));
            lemma_q_eq_value(1, 2, 1, 2);
        }
    }
}

proof fn lemma_rktp64_eval_h_26()
    ensures
        q_vec_eq(q_hadamard(seq![q(0, 1), q(0, 1), q(2, 81), q(9, 98), q(121, 512), q(50, 169), q(1, 2)], seq![q(0, 1), q(0, 1), q(8, 2187), q(9, 343), q(1331, 12288), q(1000, 6591), q(1, 3)]), seq![q(0, 1), q(0, 1), q(16, 177147), q(81, 33614), q(161051, 6291456), q(50000, 1113879), q(1, 6)]),
{
    let x = seq![q(0, 1), q(0, 1), q(2, 81), q(9, 98), q(121, 512), q(50, 169), q(1, 2)];
    let y = seq![q(0, 1), q(0, 1), q(8, 2187), q(9, 343), q(1331, 12288), q(1000, 6591), q(1, 3)];
    let v = q_hadamard(x, y);
    let w = seq![q(0, 1), q(0, 1), q(16, 177147), q(81, 33614), q(161051, 6291456), q(50000, 1113879), q(1, 6)];
    assert forall|i: int|
        #![trigger v[i]]
        #![trigger w[i]]
        0 <= i < 7 implies q_eq(v[i], w[i]) && q_valid(v[i]) && q_valid(w[i]) by {
        if i == 0 {
            lemma_q_mul_value(0, 1, 0, 1);
            assert(x[0] == q(0, 1) && y[0] == q(0, 1));
            lemma_q_eq_value(0, 1, 0, 1);
            assert(w[0] == q(0, 1));
        } else if i == 1 {
            lemma_q_mul_value(0, 1, 0, 1);
            assert(x[1] == q(0, 1) && y[1] == q(0, 1));
            lemma_q_eq_value(0, 1, 0, 1);
            assert(w[1] == q(0, 1));
        } else if i == 2 {
            lemma_q_mul_value(2, 81, 8, 2187);
            assert(x[2] == q(2, 81) && y[2] == q(8, 2187));
            lemma_q_eq_value(16, 177147, 16, 177147);
            assert(w[2] == q(16, 177147));
        } else if i == 3 {
            lemma_q_mul_value(9, 98, 9, 343);
            assert(x[3] == q(9, 98) && y[3] == q(9, 343));
            lemma_q_eq_value(81, 33614, 81, 33614);
            assert(w[3] == q(81, 33614));
        } else if i == 4 {
            lemma_q_mul_value(121, 512, 1331, 12288);
            assert(x[4] == q(121, 512) && y[4] == q(1331, 12288));
            lemma_q_eq_value(161051, 6291456, 161051, 6291456);
            assert(w[4] == q(161051, 6291456));
        } else if i == 5 {
            lemma_q_mul_value(50, 169, 1000, 6591);
            assert(x[5] == q(50, 169) && y[5] == q(1000, 6591));
            lemma_q_eq_value(50000, 1113879, 50000, 1113879);
            assert(w[5] == q(50000, 1113879));
        } else if i == 6 {
            lemma_q_mul_value(1, 2, 1, 3);
            assert(x[6] == q(1, 2) && y[6] == q(1, 3));
            lemma_q_eq_value(1, 6, 1, 6);
            assert(w[6] == q(1, 6));
        }
    }
}

proof fn lemma_rktp64_phi_26()
    ensures
        q_vec_eq(elementary_weights(rktp64_model().a, 26), seq![q(0, 1), q(0, 1), q(16, 177147), q(81, 33614), q(161051, 6291456), q(50000, 1113879), q(1, 6)]),
{
    let a = rktp64_model().a;
    lemma_rktp64_shape();
    lemma_rktp64_phi_1();
    lemma_q_mat_vec_congruent(a, elementary_weights(a, 1), seq![q(0, 1), q(4, 27), q(2, 9), q(3, 7), q(11, 16), q(10, 13), q(1, 1)]);
    lemma_rktp64_eval_a_26();
    lemma_q_vec_eq_trans(q_mat_vec(a, elementary_weights(a, 1)), q_mat_vec(a, seq![q(0, 1), q(4, 27), q(2, 9), q(3, 7), q(11, 16), q(10, 13), q(1, 1)]), seq![q(0, 1), q(0, 1), q(2, 81), q(9, 98), q(121, 512), q(50, 169), q(1, 2)]);
    lemma_rktp64_phi_6();
    lemma_q_hadamard_congruent(q_mat_vec(a, elementary_weights(a, 1)), seq![q(0, 1), q(0, 1), q(2, 81), q(9, 98), q(121, 512), q(50, 169), q(1, 2)], elementary_weights(a, 6), seq![q(0, 1), q(0, 1), q(8, 2187), q(9, 343), q(1331, 12288), q(1000, 6591), q(1, 3)]);
    lemma_rktp64_eval_h_26();
    lemma_q_vec_eq_trans(q_hadamard(q_mat_vec(a, elementary_weights(a, 1)), elementary_weights(a, 6)), q_hadamard(seq![q(0, 1), q(0, 1), q(2, 81), q(9, 98), q(121, 512), q(50, 169), q(1, 2)], seq![q(0, 1), q(0, 1), q(8, 2187), q(9, 343), q(1331, 12288), q(1000, 6591), q(1, 3)]), seq![q(0, 1), q(0, 1), q(16, 177147), q(81, 33614), q(161051, 6291456), q(50000, 1113879), q(1, 6)]);
}

proof fn lemma_rktp64_eval_a_27()
    ensures
        q_vec_eq(q_mat_vec(rktp64_model().a, seq![q(0, 1), q(4, 27), q(2, 9), q(3, 7), q(11, 16), q(10, 13), q(1, 1)]), seq![q(0, 1), q(0, 1), q(2, 81), q(9, 98), q(121, 512), q(50, 169), q(1, 2)]),
{
    let a = rktp64_model().a;
    let v = q_mat_vec(a, seq![q(0, 1), q(4, 27), q(2, 9), q(3, 7), q(11, 16), q(10, 13), q(1, 1)]);
    let w = seq![q(0, 1), q(0, 1), q(2, 81), q(9, 98), q(121, 512), q(50, 169), q(1, 2)];
    assert forall|i: int|
        #![trigger v[i]]
        #![trigger w[i]]
        0 <= i < 7 implies q_eq(v[i], w[i]) && q_valid(v[i]) && q_valid(w[i]) by {
        if i == 0 {
            assert(a[0] == seq![q(0, 1), q(0, 1), q(0, 1), q(0, 1), q(0, 1), q(0, 1), q(0, 1)]);
            lemma_rktp64_sum_22();
            assert(w[0] == q(0, 1));
            lemma_q_eq_value(0, 1, 0, 1);
        } else if i == 1 {
            assert(a[1] == seq![q(4, 27), q(0, 1), q(0, 1), q(0, 1), q(0, 1), q(0, 1), q(0, 1)]);
            lemma_rktp64_sum_23();
            assert(w[1] == q(0, 1));
            lemma_q_eq_value(0, 1, 0, 1);
        } else if i == 2 {
            assert(a[2] == seq![q(1, 18), q(1, 6), q(0, 1), q(0, 1), q(0, 1), q(0, 1), q(0, 1)]);
            lemma_rktp64_sum_24();
            assert(w[2] == q(2, 81));
            lemma_q_eq_value(2, 81, 2, 81);
        } else if i == 3 {
            assert(a[3] == seq![q(66, 343), q(-729, 1372), q(1053, 1372), q(0, 1), q(0, 1), q(0, 1), q(0, 1)]);
            lemma_rktp64_sum_25();
            assert(w[3] == q(9, 98));
            lemma_q_eq_value(9, 98, 9, 98);
        } else if i == 4 {
            assert(a[4] == seq![q(13339, 49152), q(-4617, 16384), q(5427, 53248), q(95207, 159744), q(0, 1), q(0, 1), q(0, 1)]);
            lemma_rktp64_sum_26();
            assert(w[4] == q(121, 512));
            lemma_q_eq_value(121, 512, 121, 512);
        } else if i == 5 {
            assert(a[5] == seq![q(-6935, 57122), q(23085, 48334), q(33363360, 273642941), q(972160, 118442467), q(172687360, 610434253), q(0, 1), q(0, 1)]);
            lemma_rktp64_sum_27();
            assert(w[5] == q(50, 169));
            lemma_q_eq_value(50, 169, 50, 169);
        } else if i == 6 {
            assert(a[6] == seq![q(611, 1891), q(-4617, 7564), q(6041007, 13176488), q(12708836, 22100117), q(-35840000, 62461621), q(6597591, 7972456), q(0, 1)]);
            lemma_rktp64_sum_28();
            assert(w[6] == q(1, 2));
            lemma_q_eq_value(1, 2, 1, 2);
        }
    }
}

proof fn lemma_rktp64_eval_h_27()
    ensures
        q_vec_eq(q_hadamard(seq![q(0, 1), q(0, 1), q(2, 81), q(9, 98), q(121, 512), q(50, 169), q(1, 2)], seq![q(0, 1), q(0, 1), q(0, 1), q(13, 686), q(469, 8192), q(5120, 72501), q(1967, 11346)]), seq![q(0, 1), q(0, 1), q(0, 1), q(117, 67228), q(56749, 4194304), q(256000, 12252669), q(1967, 22692)]),
{
    let x = seq![q(0, 1), q(0, 1), q(2, 81), q(9, 98), q(121, 512), q(50, 169), q(1, 2)];
    let y = seq![q(0, 1), q(0, 1), q(0, 1), q(13, 686), q(469, 8192), q(5120, 72501), q(1967, 11346)];
    let v = q_hadamard(x, y);
    let w = seq![q(0, 1), q(0, 1), q(0, 1), q(117, 67228), q(56749, 4194304), q(256000, 12252669), q(1967, 22692)];
    assert forall|i: int|
        #![trigger v[i]]
        #![trigger w[i]]
        0 <= i < 7 implies q_eq(v[i], w[i]) && q_valid(v[i]) && q_valid(w[i]) by {
        if i == 0 {
            lemma_q_mul_value(0, 1, 0, 1);
            assert(x[0] == q(0, 1) && y[0] == q(0, 1));
            lemma_q_eq_value(0, 1, 0, 1);
            assert(w[0] == q(0, 1));
        } else if i == 1 {
            lemma_q_mul_value(0, 1, 0, 1);
            assert(x[1] == q(0, 1) && y[1] == q(0, 1));
            lemma_q_eq_value(0, 1, 0, 1);
            assert(w[1] == q(0, 1));
        } else if i == 2 {
            lemma_q_mul_value(2, 81, 0, 1);
            assert(x[2] == q(2, 81) && y[2] == q(0, 1));
            lemma_q_eq_value(0, 81, 0, 1);
            assert(w[2] == q(0, 1));
        } else if i == 3 {
            lemma_q_mul_value(9, 98, 13, 686);
            assert(x[3] == q(9, 98) && y[3] == q(13, 686));
            lemma_q_eq_value(117, 67228, 117, 67228);
            assert(w[3] == q(117, 67228));
        } else if i == 4 {
            lemma_q_mul_value(121, 512, 469, 8192);
            assert(x[4] == q(121, 512) && y[4] == q(469, 8192));
            lemma_q_eq_value(56749, 4194304, 56749, 4194304);
            assert(w[4] == q(56749, 4194304));
        } else if i == 5 {
            lemma_q_mul_value(50, 169, 5120, 72501);
            assert(x[5] == q(50, 169) && y[5] == q(5120, 72501));
            lemma_q_eq_value(256000, 12252669, 256000, 12252669);
            assert(w[5] == q(256000, 12252669));
        } else if i == 6 {
            lemma_q_mul_value(1, 2, 1967, 11346);
            assert(x[6] == q(1, 2) && y[6] == q(1967, 11346));
            lemma_q_eq_value(1967, 22692, 1967, 22692);
            assert(w[6] == q(1967, 22692));
        }
    }
}

proof fn lemma_rktp64_phi_27()
    ensures
        q_vec_eq(elementary_weights(rktp64_model().a, 27), seq![q(0, 1), q(0, 1), q(0, 1), q(117, 67228), q(56749, 4194304), q(256000, 12252669), q(1967, 22692)]),
{
    let a = rktp64_model().a;
    lemma_rktp64_shape();
    lemma_rktp64_phi_1();
    lemma_q_mat_vec_congruent(a, elementary_weights(a, 1), seq![q(0, 1), q(4, 27), q(2, 9), q(3, 7), q(11, 16), q(10, 13), q(1, 1)]);
    lemma_rktp64_eval_a_27();
    lemma_q_vec_eq_trans(q_mat_vec(a, elementary_weights(a, 1)), q_mat_vec(a, seq![q(0, 1), q(4, 27), q(2, 9), q(3, 7), q(11, 16), q(10, 13), q(1, 1)]), seq![q(0, 1), q(0, 1), q(2, 81), q(9, 98), q(121, 512), q(50, 169), q(1, 2)]);
    lemma_rktp64_phi_7();
    lemma_q_hadamard_congruent(q_mat_vec(a, elementary_weights(a, 1)), seq![q(0, 1), q(0, 1), q(2, 81), q(9, 98), q(121, 512), q(50, 169), q(1, 2)], elementary_weights(a, 7), seq![q(0, 1), q(0, 1), q(0, 1), q(13, 686), q(469, 8192), q(5120, 72501), q(1967, 11346)]);
    lemma_rktp64_eval_h_27();
    lemma_q_vec_eq_trans(q_hadamard(q_mat_vec(a, elementary_weights(a, 1)), elementary_weights(a, 7)), q_hadamard(seq![q(0, 1), q(0, 1), q(2, 81), q(9, 98), q(121, 512), q(50, 169), q(1, 2)], seq![q(0, 1), q(0, 1), q(0, 1), q(13, 686), q(469, 8192), q(5120, 72501), q(1967, 11346)]), seq![q(0, 1), q(0, 1), q(0, 1), q(117, 67228), q(56749, 4194304), q(256000, 12252669), q(1967, 22692)]);
}

proof fn lemma_rktp64_eval_a_28()
    ensures
        q_vec_eq(q_mat_vec(rktp64_model().a, seq![q(0, 1), q(256, 531441), q(16, 6561), q(81, 2401), q(14641, 65536), q(10000, 28561), q(1, 1)]), seq![q(0, 1), q(0, 1), q(128, 1594323), q(404, 250047), q(8875067, 438939648), q(2154842575, 33667506873), q(42100243, 231594552)]),
{
    let a = rktp64_model().a;
    let v = q_mat_vec(a, seq![q(0, 1), q(256, 531441), q(16, 6561), q(81, 2401), q(14641, 65536), q(10000, 28561), q(1, 1)]);
    let w = seq![q(0, 1), q(0, 1), q(128, 1594323), q(404, 250047), q(8875067, 438939648), q(2154842575, 33667506873), q(42100243, 231594552)];
    assert forall|i: int|
        #![trigger v[i]]
        #![trigger w[i]]
        0 <= i < 7 implies q_eq(v[i], w[i]) && q_valid(v[i]) && q_valid(w[i]) by {
        if i == 0 {
            assert(a[0] == seq![q(0, 1), q(0, 1), q(0, 1), q(0, 1), q(0, 1), q(0, 1), q(0, 1)]);
            lemma_rktp64_sum_71();
            assert(w[0] == q(0, 1));
            lemma_q_eq_value(0, 1, 0, 1);
        } else if i == 1 {
            assert(a[1] == seq![q(4, 27), q(0, 1), q(0, 1), q(0, 1), q(0, 1), q(0, 1), q(0, 1)]);
            lemma_rktp64_sum_72();
            assert(w[1] == q(0, 1));
            lemma_q_eq_value(0, 1, 0, 1);
        } else if i == 2 {
            assert(a[2] == seq![q(1, 18), q(1, 6), q(0, 1), q(0, 1), q(0, 1), q(0, 1), q(0, 1)]);
            lemma_rktp64_sum_73();
            assert(w[2] == q(128, 1594323));
            lemma_q_eq_value(128, 1594323, 128, 1594323);
        } else if i == 3 {
            assert(a[3] == seq![q(66, 343), q(-729, 1372), q(1053, 1372), q(0, 1), q(0, 1), q(0, 1), q(0, 1)]);
            lemma_rktp64_sum_74();
            assert(w[3] == q(404, 250047));
            lemma_q_eq_value(404, 250047, 404, 250047);
        } else if i == 4 {
            assert(a[4] == seq![q(13339, 49152), q(-4617, 16384), q(5427, 53248), q(95207, 159744), q(0, 1), q(0, 1), q(0, 1)]);
            lemma_rktp64_sum_75();
            assert(w[4] == q(8875067, 438939648));
            lemma_q_eq_value(8875067, 438939648, 8875067, 438939648);
        } else if i == 5 {
            assert(a[5] == seq![q(-6935, 57122), q(23085, 48334), q(33363360, 273642941), q(972160, 118442467), q(172687360, 610434253), q(0, 1), q(0, 1)]);
            lemma_rktp64_sum_76();
            assert(w[5] == q(2154842575, 33667506873));
            lemma_q_eq_value(2154842575, 33667506873, 2154842575, 33667506873);
        } else if i == 6 {
            assert(a[6] == seq![q(611, 1891), q(-4617, 7564), q(6041007, 13176488), q(12708836, 22100117), q(-35840000, 62461621), q(6597591, 7972456), q(0, 1)]);
            lemma_rktp64_sum_77();
            assert(w[6] == q(42100243, 231594552));
            lemma_q_eq_value(42100243, 231594552, 42100243, 231594552);
        }
    }
}

proof fn lemma_rktp64_phi_28()
    ensures
        q_vec_eq(elementary_weights(rktp64_model().a, 28), seq![q(0, 1), q(0, 1), q(128, 1594323), q(404, 250047), q(8875067, 438939648), q(2154842575, 33667506873), q(42100243, 231594552)]),
{
    let a = rktp64_model().a;
    lemma_rktp64_shape();
    lemma_rktp64_phi_8();
    lemma_q_mat_vec_congruent(a, elementary_weights(a, 8), seq![q(0, 1), q(256, 531441), q(16, 6561), q(81, 2401), q(14641, 65536), q(10000, 28561), q(1, 1)]);
    lemma_rktp64_eval_a_28();
    lemma_q_vec_eq_trans(q_mat_vec(a, elementary_weights(a, 8)), q_mat_vec(a, seq![q(0, 1), q(256, 531441), q(16, 6561), q(81, 2401), q(14641, 65536), q(10000, 28561), q(1, 1)]), seq![q(0, 1), q(0, 1), q(128, 1594323), q(404, 250047), q(8875067, 438939648), q(2154842575, 33667506873), q(42100243, 231594552)]);
}

proof fn lemma_rktp64_eval_a_29()
    ensures
        q_vec_eq(q_mat_vec(rktp64_model().a, seq![q(0, 1), q(0, 1), q(8, 6561), q(81, 4802), q(14641, 131072), q(5000, 28561), q(1, 2)]), seq![q(0, 1), q(0, 1), q(0, 1), q(26, 27783), q(330913, 32514048), q(21687845, 680151654), q(151141, 1660176)]),
{
    let a = rktp64_model().a;
    let v = q_mat_vec(a, seq![q(0, 1), q(0, 1), q(8, 6561), q(81, 4802), q(14641, 131072), q(5000, 28561), q(1, 2)]);
    let w = seq![q(0, 1), q(0, 1), q(0, 1), q(26, 27783), q(330913, 32514048), q(21687845, 680151654), q(151141, 1660176)];
    assert forall|i: int|
        #![trigger v[i]]
        #![trigger w[i]]
        0 <= i < 7 implies q_eq(v[i], w[i]) && q_valid(v[i]) && q_valid(w[i]) by {
        if i == 0 {
            assert(a[0] == seq![q(0, 1), q(0, 1), q(0, 1), q(0, 1), q(0, 1), q(0, 1), q(0, 1)]);
            lemma_rktp64_sum_78();
            assert(w[0] == q(0, 1));
            lemma_q_eq_value(0, 1, 0, 1);
        } else if i == 1 {
            assert(a[1] == seq![q(4, 27), q(0, 1), q(0, 1), q(0, 1), q(0, 1), q(0, 1), q(0, 1)]);
            lemma_rktp64_sum_79();
            assert(w[1] == q(0, 1));
            lemma_q_eq_value(0, 1, 0, 1);
        } else if i == 2 {
            assert(a[2] == seq![q(1, 18), q(1, 6), q(0, 1), q(0, 1), q(0, 1), q(0, 1), q(0, 1)]);
            lemma_rktp64_sum_80();
            assert(w[2] == q(0, 1));
            lemma_q_eq_value(0, 1, 0, 1);
        } else if i == 3 {
            assert(a[3] == seq![q(66, 343), q(-729, 1372), q(1053, 1372), q(0, 1), q(0, 1), q(0, 1), q(0, 1)]);
            lemma_rktp64_sum_81();
            assert(w[3] == q(26, 27783));
            lemma_q_eq_value(26, 27783, 26, 27783);
        } else if i == 4 {
            assert(a[4] == seq![q(13339, 49152), q(-4617, 16384), q(5427, 53248), q(95207, 159744), q(0, 1), q(0, 1), q(0, 1)]);
            lemma_rktp64_sum_82();
            assert(w[4] == q(330913, 32514048));
            lemma_q_eq_value(330913, 32514048, 330913, 32514048);
        } else if i == 5 {
            assert(a[5] == seq![q(-6935, 57122), q(23085, 48334), q(33363360, 273642941), q(972160, 118442467), q(172687360, 610434253), q(0, 1), q(0, 1)]);
            lemma_rktp64_sum_83();
            assert(w[5] == q(21687845, 680151654));
            lemma_q_eq_value(21687845, 680151654, 21687845, 680151654);
        } else if i == 6 {
            assert(a[6] == seq![q(611, 1891), q(-4617, 7564), q(6041007, 13176488), q(12708836, 22100117), q(-35840000, 62461621), q(6597591, 7972456), q(0, 1)]);
            lemma_rktp64_sum_84();
            assert(w[6] == q(151141, 1660176));
            lemma_q_eq_value(151141, 1660176, 151141, 1660176);
        }
    }
}

proof fn lemma_rktp64_phi_29()
    ensures
        q_vec_eq(elementary_weights(rktp64_model().a, 29), seq![q(0, 1), q(0, 1), q(0, 1), q(26, 27783), q(330913, 32514048), q(21687845, 680151654), q(151141, 1660176)]),
{
    let a = rktp64_model().a;
    lemma_rktp64_shape();
    lemma_rktp64_phi_9();
    lemma_q_mat_vec_congruent(a, elementary_weights(a, 9), seq![q(0, 1), q(0, 1), q(8, 6561), q(81, 4802), q(14641, 131072), q(5000, 28561), q(1, 2)]);
    lemma_rktp64_eval_a_29();
    lemma_q_vec_eq_trans(q_mat_vec(a, elementary_weights(a, 9)), q_mat_vec(a, seq![q(0, 1), q(0, 1), q(8, 6561), q(81, 4802), q(14641, 131072), q(5000, 28561), q(1, 2)]), seq![q(0, 1), q(0, 1), q(0, 1), q(26, 27783), q(330913, 32514048), q(21687845, 680151654), q(151141, 1660176)]);
}

proof fn lemma_rktp64_eval_a_30()
    ensures
        q_vec_eq(q_mat_vec(rktp64_model().a, seq![q(0, 1), q(0, 1), q(16, 19683), q(27, 2401), q(14641, 196608), q(10000, 85683), q(1, 3)]), seq![q(0, 1), q(0, 1), q(0, 1), q(52, 83349), q(330913, 48771072), q(21687845, 1020227481), q(151141, 2490264)]),
{
    let a = rktp64_model().a;
    let v = q_mat_vec(a, seq![q(0, 1), q(0, 1), q(16, 19683), q(27, 2401), q(14641, 196608), q(10000, 85683), q(1, 3)]);
    let w = seq![q(0, 1), q(0, 1), q(0, 1), q(52, 83349), q(330913, 48771072), q(21687845, 1020227481), q(151141, 2490264)];
    assert forall|i: int|
        #![trigger v[i]]
        #![trigger w[i]]
        0 <= i < 7 implies q_eq(v[i], w[i]) && q_valid(v[i]) && q_valid(w[i]) by {
        if i == 0 {
            assert(a[0] == seq![q(0, 1), q(0, 1), q(0, 1), q(0, 1), q(0, 1), q(0, 1), q(0, 1)]);
            lemma_rktp64_sum_85();
            assert(w[0] == q(0, 1));
            lemma_q_eq_value(0, 1, 0, 1);
        } else if i == 1 {
            assert(a[1] == seq![q(4, 27), q(0, 1), q(0, 1), q(0, 1), q(0, 1), q(0, 1), q(0, 1)]);
            lemma_rktp64_sum_86();
            assert(w[1] == q(0, 1));
            lemma_q_eq_value(0, 1, 0, 1);
        } else if i == 2 {
            assert(a[2] == seq![q(1, 18), q(1, 6), q(0, 1), q(0, 1), q(0, 1), q(0, 1), q(0, 1)]);
            lemma_rktp64_sum_87();
            assert(w[2] == q(0, 1));
            lemma_q_eq_value(0, 1, 0, 1);
        } else if i == 3 {
            assert(a[3] == seq![q(66, 343), q(-729, 1372), q(1053, 1372), q(0, 1), q(0, 1), q(0, 1), q(0, 1)]);
            lemma_rktp64_sum_88();
            assert(w[3] == q(52, 83349));
            lemma_q_eq_value(52, 83349, 52, 83349);
        } else if i == 4 {
            assert(a[4] == seq![q(13339, 49152), q(-4617, 16384), q(5427, 53248), q(95207, 159744), q(0, 1), q(0, 1), q(0, 1)]);
            lemma_rktp64_sum_89();
            assert(w[4] == q(330913, 48771072));
            lemma_q_eq_value(330913, 48771072, 330913, 48771072);
        } else if i == 5 {
            assert(a[5] == seq![q(-6935, 57122), q(23085, 48334), q(33363360, 273642941), q(972160, 118442467), q(172687360, 610434253), q(0, 1), q(0, 1)]);
            lemma_rktp64_sum_90();
            assert(w[5] == q(21687845, 1020227481));
            lemma_q_eq_value(21687845, 1020227481, 21687845, 1020227481);
        } else if i == 6 {
            assert(a[6] == seq![q(611, 1891), q(-4617, 7564), q(6041007, 13176488), q(12708836, 22100117), q(-35840000, 62461621), q(6597591, 7972456), q(0, 1)]);
            lemma_rktp64_sum_91();
            assert(w[6] == q(151141, 2490264));
            lemma_q_eq_value(151141, 2490264, 151141, 2490264);
        }
    }
}

proof fn lemma_rktp64_phi_30()
    ensures
        q_vec_eq(elementary_weights(rktp64_model().a, 30), seq![q(0, 1), q(0, 1), q(0, 1), q(52, 83349), q(330913, 48771072), q(21687845, 1020227481), q(151141, 2490264)]),
{
    let a = rktp64_model().a;
    lemma_rktp64_shape();
    lemma_rktp64_phi_10();
    lemma_q_mat_vec_congruent(a, elementary_weights(a, 10), seq![q(0, 1), q(0, 1), q(16, 19683), q(27, 2401), q(14641, 196608), q(10000, 85683), q(1, 3)]);
    lemma_rktp64_eval_a_30();
    lemma_q_vec_eq_trans(q_mat_vec(a, elementary_weights(a, 10)), q_mat_vec(a, seq![q(0, 1), q(0, 1), q(16, 19683), q(27, 2401), q(14641, 196608), q(10000, 85683), q(1, 3)]), seq![q(0, 1), q(0, 1), q(0, 1), q(52, 83349), q(330913, 48771072), q(21687845, 1020227481), q(151141, 2490264)]);
}

proof fn lemma_rktp64_eval_a_31()
    ensures
        q_vec_eq(q_mat_vec(rktp64_model().a, seq![q(0, 1), q(0, 1), q(0, 1), q(39, 4802), q(5159, 131072), q(51200, 942513), q(1967, 11346)]), seq![q(0, 1), q(0, 1), q(0, 1), q(0, 1), q(1943, 401408), q(344875, 30788758), q(5727, 211792)]),
{
    let a = rktp64_model().a;
    let v = q_mat_vec(a, seq![q(0, 1), q(0, 1), q(0, 1), q(39, 4802), q(5159, 131072), q(51200, 942513), q(1967, 11346)]);
    let w = seq![q(0, 1), q(0, 1), q(0, 1), q(0, 1), q(1943, 401408), q(344875, 30788758), q(5727, 211792)];
    assert forall|i: int|
        #![trigger v[i]]
        #![trigger w[i]]
        0 <= i < 7 implies q_eq(v[i], w[i]) && q_valid(v[i]) && q_valid(w[i]) by {
        if i == 0 {
            assert(a[0] == seq![q(0, 1), q(0, 1), q(0, 1), q(0, 1), q(0, 1), q(0, 1), q(0, 1)]);
            lemma_rktp64_sum_92();
            assert(w[0] == q(0, 1));
            lemma_q_eq_value(0, 1, 0, 1);
        } else if i == 1 {
            assert(a[1] == seq![q(4, 27), q(0, 1), q(0, 1), q(0, 1), q(0, 1), q(0, 1), q(0, 1)]);
            lemma_rktp64_sum_93();
            assert(w[1] == q(0, 1));
            lemma_q_eq_value(0, 1, 0, 1);
        } else if i == 2 {
            assert(a[2] == seq![q(1, 18), q(1, 6), q(0, 1), q(0, 1), q(0, 1), q(0, 1), q(0, 1)]);
            lemma_rktp64_sum_94();
            assert(w[2] == q(0, 1));
            lemma_q_eq_value(0, 1, 0, 1);
        } else if i == 3 {
            assert(a[3] == seq![q(66, 343), q(-729, 1372), q(1053, 1372), q(0, 1), q(0, 1), q(0, 1), q(0, 1)]);
            lemma_rktp64_sum_95();
            assert(w[3] == q(0, 1));
            lemma_q_eq_value(0, 1, 0, 1);
        } else if i == 4 {
            assert(a[4] == seq![q(13339, 49152), q(-4617, 16384), q(5427, 53248), q(95207, 159744), q(0, 1), q(0, 1), q(0, 1)]);
            lemma_rktp64_sum_96();
            assert(w[4] == q(1943, 401408));
            lemma_q_eq_value(1943, 401408, 1943, 401408);
        } else if i == 5 {
            assert(a[5] == seq![q(-6935, 57122), q(23085, 48334), q(33363360, 273642941), q(972160, 118442467), q(172687360, 610434253), q(0, 1), q(0, 1)]);
            lemma_rktp64_sum_97();
            assert(w[5] == q(344875, 30788758));
            lemma_q_eq_value(344875, 30788758, 344875, 30788758);
        } else if i == 6 {
            assert(a[6] == seq![q(611, 1891), q(-4617, 7564), q(6041007, 13176488), q(12708836, 22100117), q(-35840000, 62461621), q(6597591, 7972456), q(0, 1)]);
            lemma_rktp64_sum_98();
            assert(w[6] == q(5727, 211792));
            lemma_q_eq_value(5727, 211792, 5727, 211792);
        }
    }
}

proof fn lemma_rktp64_phi_31()
    ensures
        q_vec_eq(elementary_weights(rktp64_model().a, 31), seq![q(0, 1), q(0, 1), q(0, 1), q(0, 1), q(1943, 401408), q(344875, 30788758), q(5727, 211792)]),
{
    let a = rktp64_model().a;
    lemma_rktp64_shape();
    lemma_rktp64_phi_11();
    lemma_q_mat_vec_congruent(a, elementary_weights(a, 11), seq![q(0, 1), q(0, 1), q(0, 1), q(39, 4802), q(5159, 131072), q(51200, 942513), q(1967, 11346)]);
    lemma_rktp64_eval_a_31();
    lemma_q_vec_eq_trans(q_mat_vec(a, elementary_weights(a, 11)), q_mat_vec(a, seq![q(0, 1), q(0, 1), q(0, 1), q(39, 4802), q(5159, 131072), q(51200, 942513), q(1967, 11346)]), seq![q(0, 1), q(0, 1), q(0, 1), q(0, 1), q(1943, 401408), q(344875, 30788758), q(5727, 211792)]);
}

proof fn lemma_rktp64_eval_a_32()
    ensures
        q_vec_eq(q_mat_vec(rktp64_model().a, seq![q(0, 1), q(0, 1), q(4, 6561), q(81, 9604), q(14641, 262144), q(2500, 28561), q(1, 4)]), seq![q(0, 1), q(0, 1), q(0, 1), q(13, 27783), q(330913, 65028096), q(21687845, 1360303308), q(151141, 3320352)]),
{
    let a = rktp64_model().a;
    let v = q_mat_vec(a, seq![q(0, 1), q(0, 1), q(4, 6561), q(81, 9604), q(14641, 262144), q(2500, 28561), q(1, 4)]);
    let w = seq![q(0, 1), q(0, 1), q(0, 1), q(13, 27783), q(330913, 65028096), q(21687845, 1360303308), q(151141, 3320352)];
    assert forall|i: int|
        #![trigger v[i]]
        #![trigger w[i]]
        0 <= i < 7 implies q_eq(v[i], w[i]) && q_valid(v[i]) && q_valid(w[i]) by {
        if i == 0 {
            assert(a[0] == seq![q(0, 1), q(0, 1), q(0, 1), q(0, 1), q(0, 1), q(0, 1), q(0, 1)]);
            lemma_rktp64_sum_99();
            assert(w[0] == q(0, 1));
            lemma_q_eq_value(0, 1, 0, 1);
        } else if i == 1 {
            assert(a[1] == seq![q(4, 27), q(0, 1), q(0, 1), q(0, 1), q(0, 1), q(0, 1), q(0, 1)]);
            lemma_rktp64_sum_100();
            assert(w[1] == q(0, 1));
            lemma_q_eq_value(0, 1, 0, 1);
        } else if i == 2 {
            assert(a[2] == seq![q(1, 18), q(1, 6), q(0, 1), q(0, 1), q(0, 1), q(0, 1), q(0, 1)]);
            lemma_rktp64_sum_101();
            assert(w[2] == q(0, 1));
            lemma_q_eq_value(0, 1, 0, 1);
        } else if i == 3 {
            assert(a[3] == seq![q(66, 343), q(-729, 1372), q(1053, 1372), q(0, 1), q(0, 1), q(0, 1), q(0, 1)]);
            lemma_rktp64_sum_102();
            assert(w[3] == q(13, 27783));
            lemma_q_eq_value(13, 27783, 13, 27783);
        } else if i == 4 {
            assert(a[4] == seq![q(13339, 49152), q(-4617, 16384), q(5427, 53248), q(95207, 159744), q(0, 1), q(0, 1), q(0, 1)]);
            lemma_rktp64_sum_103();
            assert(w[4] == q(330913, 65028096));
            lemma_q_eq_value(330913, 65028096, 330913, 65028096);
        } else if i == 5 {
            assert(a[5] == seq![q(-6935, 57122), q(23085, 48334), q(33363360, 273642941), q(972160, 118442467), q(172687360, 610434253), q(0, 1), q(0, 1)]);
            lemma_rktp64_sum_104();
            assert(w[5] == q(21687845, 1360303308));
            lemma_q_eq_value(21687845, 1360303308, 21687845, 1360303308);
        } else if i == 6 {
            assert(a[6] == seq![q(611, 1891), q(-4617, 7564), q(6041007, 13176488), q(12708836, 22100117), q(-35840000, 62461621), q(6597591, 7972456), q(0, 1)]);
            lemma_rktp64_sum_105();
            assert(w[6] == q(151141, 3320352));
            lemma_q_eq_value(151141, 3320352, 151141, 3320352);
        }
    }
}

proof fn lemma_rktp64_phi_32()
    ensures
        q_vec_eq(elementary_weights(rktp64_model().a, 32), seq![q(0, 1), q(0, 1), q(0, 1), q(13, 27783), q(330913, 65028096), q(21687845, 1360303308), q(151141, 3320352)]),
{
    let a = rktp64_model().a;
    lemma_rktp64_shape();
    lemma_rktp64_phi_12();
    lemma_q_mat_vec_congruent(a, elementary_weights(a, 12), seq![q(0, 1), q(0, 1), q(4, 6561), q(81, 9604), q(14641, 262144), q(2500, 28561), q(1, 4)]);
    lemma_rktp64_eval_a_32();
    lemma_q_vec_eq_trans(q_mat_vec(a, elementary_weights(a, 12)), q_mat_vec(a, seq![q(0, 1), q(0, 1), q(4, 6561), q(81, 9604), q(14641, 262144), q(2500, 28561), q(1, 4)]), seq![q(0, 1), q(0, 1), q(0, 1), q(13, 27783), q(330913, 65028096), q(21687845, 1360303308), q(151141, 3320352)]);
}

proof fn lemma_rktp64_eval_a_33()
    ensures
        q_vec_eq(q_mat_vec(rktp64_model().a, seq![q(0, 1), q(0, 1), q(32, 59049), q(62, 9261), q(109427, 2322432), q(17005360, 178134957), q(36536, 153171)]), seq![q(0, 1), q(0, 1), q(0, 1), q(104, 250047), q(42277, 10450944), q(9241520, 687091977), q(231856, 4135617)]),
{
    let a = rktp64_model().a;
    let v = q_mat_vec(a, seq![q(0, 1), q(0, 1), q(32, 59049), q(62, 9261), q(109427, 2322432), q(17005360, 178134957), q(36536, 153171)]);
    let w = seq![q(0, 1), q(0, 1), q(0, 1), q(104, 250047), q(42277, 10450944), q(9241520, 687091977), q(231856, 4135617)];
    assert forall|i: int|
        #![trigger v[i]]
        #![trigger w[i]]
        0 <= i < 7 implies q_eq(v[i], w[i]) && q_valid(v[i]) && q_valid(w[i]) by {
        if i == 0 {
            assert(a[0] == seq![q(0, 1), q(0, 1), q(0, 1), q(0, 1), q(0, 1), q(0, 1), q(0, 1)]);
            lemma_rktp64_sum_106();
            assert(w[0] == q(0, 1));
            lemma_q_eq_value(0, 1, 0, 1);
        } else if i == 1 {
            assert(a[1] == seq![q(4, 27), q(0, 1), q(0, 1), q(0, 1), q(0, 1), q(0, 1), q(0, 1)]);
            lemma_rktp64_sum_107();
            assert(w[1] == q(0, 1));
            lemma_q_eq_value(0, 1, 0, 1);
        } else if i == 2 {
            assert(a[2] == seq![q(1, 18), q(1, 6), q(0, 1), q(0, 1), q(0, 1), q(0, 1), q(0, 1)]);
            lemma_rktp64_sum_108();
            assert(w[2] == q(0, 1));
            lemma_q_eq_value(0, 1, 0, 1);
        } else if i == 3 {
            assert(a[3] == seq![q(66, 343), q(-729, 1372), q(1053, 1372), q(0, 1), q(0, 1), q(0, 1), q(0, 1)]);
            lemma_rktp64_sum_109();
            assert(w[3] == q(104, 250047));
            lemma_q_eq_value(104, 250047, 104, 250047);
        } else if i == 4 {
            assert(a[4] == seq![q(13339, 49152), q(-4617, 16384), q(5427, 53248), q(95207, 159744), q(0, 1), q(0, 1), q(0, 1)]);
            lemma_rktp64_sum_110();
            assert(w[4] == q(42277, 10450944));
            lemma_q_eq_value(42277, 10450944, 42277, 10450944);
        } else if i == 5 {
            assert(a[5] == seq![q(-6935, 57122), q(23085, 48334), q(33363360, 273642941), q(972160, 118442467), q(172687360, 610434253), q(0, 1), q(0, 1)]);
            lemma_rktp64_sum_111();
            assert(w[5] == q(9241520, 687091977));
            lemma_q_eq_value(9241520, 687091977, 9241520, 687091977);
        } else if i == 6 {
            assert(a[6] == seq![q(611, 1891), q(-4617, 7564), q(6041007, 13176488), q(12708836, 22100117), q(-35840000, 62461621), q(6597591, 7972456), q(0, 1)]);
            lemma_rktp64_sum_112();
            assert(w[6] == q(231856, 4135617));
            lemma_q_eq_value(231856, 4135617, 231856, 4135617);
        }
    }
}

proof fn lemma_rktp64_phi_33()
    ensures
        q_vec_eq(elementary_weights(rktp64_model().a, 33), seq![q(0, 1), q(0, 1), q(0, 1), q(104, 250047), q(42277, 10450944), q(9241520, 687091977), q(231856, 4135617)]),
{
    let a = rktp64_model().a;
    lemma_rktp64_shape();
    lemma_rktp64_phi_13();
    lemma_q_mat_vec_congruent(a, elementary_weights(a, 13), seq![q(0, 1), q(0, 1), q(32, 59049), q(62, 9261), q(109427, 2322432), q(17005360, 178134957), q(36536, 153171)]);
    lemma_rktp64_eval_a_33();
    lemma_q_vec_eq_trans(q_mat_vec(a, elementary_weights(a, 13)), q_mat_vec(a, seq![q(0, 1), q(0, 1), q(32, 59049), q(62, 9261), q(109427, 2322432), q(17005360, 178134957), q(36536, 153171)]), seq![q(0, 1), q(0, 1), q(0, 1), q(104, 250047), q(42277, 10450944), q(9241520, 687091977), q(231856, 4135617)]);
}

proof fn lemma_rktp64_eval_a_34()
    ensures
        q_vec_eq(q_mat_vec(rktp64_model().a, seq![q(0, 1), q(0, 1), q(0, 1), q(13, 3087), q(12395, 516096), q(2788120, 59378319), q(6140, 51057)]), seq![q(0, 1), q(0, 1), q(0, 1), q(0, 1), q(1943, 774144), q(135160, 19792773), q(52, 1891)]),
{
    let a = rktp64_model().a;
    let v = q_mat_vec(a, seq![q(0, 1), q(0, 1), q(0, 1), q(13, 3087), q(12395, 516096), q(2788120, 59378319), q(6140, 51057)]);
    let w = seq![q(0, 1), q(0, 1), q(0, 1), q(0, 1), q(1943, 774144), q(135160, 19792773), q(52, 1891)];
    assert forall|i: int|
        #![trigger v[i]]
        #![trigger w[i]]
        0 <= i < 7 implies q_eq(v[i], w[i]) && q_valid(v[i]) && q_valid(w[i]) by {
        if i == 0 {
            assert(a[0] == seq![q(0, 1), q(0, 1), q(0, 1), q(0, 1), q(0, 1), q(0, 1), q(0, 1)]);
            lemma_rktp64_sum_113();
            assert(w[0] == q(0, 1));
            lemma_q_eq_value(0, 1, 0, 1);
        } else if i == 1 {
            assert(a[1] == seq![q(4, 27), q(0, 1), q(0, 1), q(0, 1), q(0, 1), q(0, 1), q(0, 1)]);
            lemma_rktp64_sum_114();
            assert(w[1] == q(0, 1));
            lemma_q_eq_value(0, 1, 0, 1);
        } else if i == 2 {
            assert(a[2] == seq![q(1, 18), q(1, 6), q(0, 1), q(0, 1), q(0, 1), q(0, 1), q(0, 1)]);
            lemma_rktp64_sum_115();
            assert(w[2] == q(0, 1));
            lemma_q_eq_value(0, 1, 0, 1);
        } else if i == 3 {
            assert(a[3] == seq![q(66, 343), q(-729, 1372), q(1053, 1372), q(0, 1), q(0, 1), q(0, 1), q(0, 1)]);
            lemma_rktp64_sum_116();
            assert(w[3] == q(0, 1));
            lemma_q_eq_value(0, 1, 0, 1);
        } else if i == 4 {
            assert(a[4] == seq![q(13339, 49152), q(-4617, 16384), q(5427, 53248), q(95207, 159744), q(0, 1), q(0, 1), q(0, 1)]);
            lemma_rktp64_sum_117();
            assert(w[4] == q(1943, 774144));
            lemma_q_eq_value(1943, 774144, 1943, 774144);
        } else if i == 5 {
            assert(a[5] == seq![q(-6935, 57122), q(23085, 48334), q(33363360, 273642941), q(972160, 118442467), q(172687360, 610434253), q(0, 1), q(0, 1)]);
            lemma_rktp64_sum_118();
            assert(w[5] == q(135160, 19792773));
            lemma_q_eq_value(135160, 19792773, 135160, 19792773);
        } else if i == 6 {
            assert(a[6] == seq![q(611, 1891), q(-4617, 7564), q(6041007, 13176488), q(12708836, 22100117), q(-35840000, 62461621), q(6597591, 7972456), q(0, 1)]);
            lemma_rktp64_sum_119();
            assert(w[6] == q(52, 1891));
            lemma_q_eq_value(52, 1891, 52, 1891);
        }
    }
}

proof fn lemma_rktp64_phi_34()
    ensures
        q_vec_eq(elementary_weights(rktp64_model().a, 34), seq![q(0, 1), q(0, 1), q(0, 1), q(0, 1), q(1943, 774144), q(135160, 19792773), q(52, 1891)]),
{
    let a = rktp64_model().a;
    lemma_rktp64_shape();
    lemma_rktp64_phi_14();
    lemma_q_mat_vec_congruent(a, elementary_weights(a, 14), seq![q(0, 1), q(0, 1), q(0, 1), q(13, 3087), q(12395, 516096), q(2788120, 59378319), q(6140, 51057)]);
    lemma_rktp64_eval_a_34();
    lemma_q_vec_eq_trans(q_mat_vec(a, elementary_weights(a, 14)), q_mat_vec(a, seq![q(0, 1), q(0, 1), q(0, 1), q(13, 3087), q(12395, 516096), q(2788120, 59378319), q(6140, 51057)]), seq![q(0, 1), q(0, 1), q(0, 1), q(0, 1), q(1943, 774144), q(135160, 19792773), q(52, 1891)]);
}

proof fn lemma_rktp64_eval_a_35()
    ensures
        q_vec_eq(q_mat_vec(rktp64_model().a, seq![q(0, 1), q(0, 1), q(0, 1), q(26, 9261), q(12395, 774144), q(5576240, 178134957), q(12280, 153171)]), seq![q(0, 1), q(0, 1), q(0, 1), q(0, 1), q(1943, 1161216), q(270320, 59378319), q(104, 5673)]),
{
    let a = rktp64_model().a;
    let v = q_mat_vec(a, seq![q(0, 1), q(0, 1), q(0, 1), q(26, 9261), q(12395, 774144), q(5576240, 178134957), q(12280, 153171)]);
    let w = seq![q(0, 1), q(0, 1), q(0, 1), q(0, 1), q(1943, 1161216), q(270320, 59378319), q(104, 5673)];
    assert forall|i: int|
        #![trigger v[i]]
        #![trigger w[i]]
        0 <= i < 7 implies q_eq(v[i], w[i]) && q_valid(v[i]) && q_valid(w[i]) by {
        if i == 0 {
            assert(a[0] == seq![q(0, 1), q(0, 1), q(0, 1), q(0, 1), q(0, 1), q(0, 1), q(0, 1)]);
            lemma_rktp64_sum_120();
            assert(w[0] == q(0, 1));
            lemma_q_eq_value(0, 1, 0, 1);
        } else if i == 1 {
            assert(a[1] == seq![q(4, 27), q(0, 1), q(0, 1), q(0, 1), q(0, 1), q(0, 1), q(0, 1)]);
            lemma_rktp64_sum_121();
            assert(w[1] == q(0, 1));
            lemma_q_eq_value(0, 1, 0, 1);
        } else if i == 2 {
            assert(a[2] == seq![q(1, 18), q(1, 6), q(0, 1), q(0, 1), q(0, 1), q(0, 1), q(0, 1)]);
            lemma_rktp64_sum_122();
            assert(w[2] == q(0, 1));
            lemma_q_eq_value(0, 1, 0, 1);
        } else if i == 3 {
            assert(a[3] == seq![q(66, 343), q(-729, 1372), q(1053, 1372), q(0, 1), q(0, 1), q(0, 1), q(0, 1)]);
            lemma_rktp64_sum_123();
            assert(w[3] == q(0, 1));
            lemma_q_eq_value(0, 1, 0, 1);
        } else if i == 4 {
            assert(a[4] == seq![q(13339, 49152), q(-4617, 16384), q(5427, 53248), q(95207, 159744), q(0, 1), q(0, 1), q(0, 1)]);
            lemma_rktp64_sum_124();
            assert(w[4] == q(1943, 1161216));
            lemma_q_eq_value(1943, 1161216, 1943, 1161216);
        } else if i == 5 {
            assert(a[5] == seq![q(-6935, 57122), q(23085, 48334), q(33363360, 273642941), q(972160, 118442467), q(172687360, 610434253), q(0, 1), q(0, 1)]);
            lemma_rktp64_sum_125();
            assert(w[5] == q(270320, 59378319));
            lemma_q_eq_value(270320, 59378319, 270320, 59378319);
        } else if i == 6 {
            assert(a[6] == seq![q(611, 1891), q(-4617, 7564), q(6041007, 13176488), q(12708836, 22100117), q(-35840000, 62461621), q(6597591, 7972456), q(0, 1)]);
            lemma_rktp64_sum_126();
            assert(w[6] == q(104, 5673));
            lemma_q_eq_value(104, 5673, 104, 5673);
        }
    }
}

proof fn lemma_rktp64_phi_35()
    ensures
        q_vec_eq(elementary_weights(rktp64_model().a, 35), seq![q(0, 1), q(0, 1), q(0, 1), q(0, 1), q(1943, 1161216), q(270320, 59378319), q(104, 5673)]),
{
    let a = rktp64_model().a;
    lemma_rktp64_shape();
    lemma_rktp64_phi_15();
    lemma_q_mat_vec_congruent(a, elementary_weights(a, 15), seq![q(0, 1), q(0, 1), q(0, 1), q(26, 9261), q(12395, 774144), q(5576240, 178134957), q(12280, 153171)]);
    lemma_rktp64_eval_a_35();
    lemma_q_vec_eq_trans(q_mat_vec(a, elementary_weights(a, 15)), q_mat_vec(a, seq![q(0, 1), q(0, 1), q(0, 1), q(26, 9261), q(12395, 774144), q(5576240, 178134957), q(12280, 153171)]), seq![q(0, 1), q(0, 1), q(0, 1), q(0, 1), q(1943, 1161216), q(270320, 59378319), q(104, 5673)]);
}

proof fn lemma_rktp64_eval_a_36()
    ensures
        q_vec_eq(q_mat_vec(rktp64_model().a, seq![q(0, 1), q(0, 1), q(0, 1), q(0, 1), q(1943, 172032), q(35960, 2199197), q(69, 1891)]), seq![q(0, 1), q(0, 1), q(0, 1), q(0, 1), q(0, 1), q(21080, 6597591), q(40, 5673)]),
{
    let a = rktp64_model().a;
    let v = q_mat_vec(a, seq![q(0, 1), q(0, 1), q(0, 1), q(0, 1), q(1943, 172032), q(35960, 2199197), q(69, 1891)]);
    let w = seq![q(0, 1), q(0, 1), q(0, 1), q(0, 1), q(0, 1), q(21080, 6597591), q(40, 5673)];
    assert forall|i: int|
        #![trigger v[i]]
        #![trigger w[i]]
        0 <= i < 7 implies q_eq(v[i], w[i]) && q_valid(v[i]) && q_valid(w[i]) by {
        if i == 0 {
            assert(a[0] == seq![q(0, 1), q(0, 1), q(0, 1), q(0, 1), q(0, 1), q(0, 1), q(0, 1)]);
            lemma_rktp64_sum_127();
            assert(w[0] == q(0, 1));
            lemma_q_eq_value(0, 1, 0, 1);
        } else if i == 1 {
            assert(a[1] == seq![q(4, 27), q(0, 1), q(0, 1), q(0, 1), q(0, 1), q(0, 1), q(0, 1)]);
            lemma_rktp64_sum_128();
            assert(w[1] == q(0, 1));
            lemma_q_eq_value(0, 1, 0, 1);
        } else if i == 2 {
            assert(a[2] == seq![q(1, 18), q(1, 6), q(0, 1), q(0, 1), q(0, 1), q(0, 1), q(0, 1)]);
            lemma_rktp64_sum_129();
            assert(w[2] == q(0, 1));
            lemma_q_eq_value(0, 1, 0, 1);
        } else if i == 3 {
            assert(a[3] == seq![q(66, 343), q(-729, 1372), q(1053, 1372), q(0, 1), q(0, 1), q(0, 1), q(0, 1)]);
            lemma_rktp64_sum_130();
            assert(w[3] == q(0, 1));
            lemma_q_eq_value(0, 1, 0, 1);
        } else if i == 4 {
            assert(a[4] == seq![q(13339, 49152), q(-4617, 16384), q(5427, 53248), q(95207, 159744), q(0, 1), q(0, 1), q(0, 1)]);
            lemma_rktp64_sum_131();
            assert(w[4] == q(0, 1));
            lemma_q_eq_value(0, 1, 0, 1);
        } else if i == 5 {
            assert(a[5] == seq![q(-6935, 57122), q(23085, 48334), q(33363360, 273642941), q(972160, 118442467), q(172687360, 610434253), q(0, 1), q(0, 1)]);
            lemma_rktp64_sum_132();
            assert(w[5] == q(21080, 6597591));
            lemma_q_eq_value(21080, 6597591, 21080, 6597591);
        } else if i == 6 {
            assert(a[6] == seq![q(611, 1891), q(-4617, 7564), q(6041007, 13176488), q(12708836, 22100117), q(-35840000, 62461621), q(6597591, 7972456), q(0, 1)]);
            lemma_rktp64_sum_133();
            assert(w[6] == q(40, 5673));
            lemma_q_eq_value(40, 5673, 40, 5673);
        }
    }
}

proof fn lemma_rktp64_phi_36()
    ensures
        q_vec_eq(elementary_weights(rktp64_model().a, 36), seq![q(0, 1), q(0, 1), q(0, 1), q(0, 1), q(0, 1), q(21080, 6597591), q(40, 5673)]),
{
    let a = rktp64_model().a;
    lemma_rktp64_shape();
    lemma_rktp64_phi_16();
    lemma_q_mat_vec_congruent(a, elementary_weights(a, 16), seq![q(0, 1), q(0, 1), q(0, 1), q(0, 1), q(1943, 172032), q(35960, 2199197), q(69, 1891)]);
    lemma_rktp64_eval_a_36();
    lemma_q_vec_eq_trans(q_mat_vec(a, elementary_weights(a, 16)), q_mat_vec(a, seq![q(0, 1), q(0, 1), q(0, 1), q(0, 1), q(1943, 172032), q(35960, 2199197), q(69, 1891)]), seq![q(0, 1), q(0, 1), q(0, 1), q(0, 1), q(0, 1), q(21080, 6597591), q(40, 5673)]);
}

proof fn lemma_rktp64_b_tree_0()
    ensures
        q_eq(q_dot(rktp64_model().b, elementary_weights(rktp64_model().a, 0)), q(1, tree_density(0))),
{
    lemma_rktp64_shape();
    lemma_rktp64_phi_0();
    assert(q_vec_valid(rktp64_model().b));
    lemma_q_dot_congruent(rktp64_model().b, elementary_weights(rktp64_model().a, 0), seq![q(1, 1), q(1, 1), q(1, 1), q(1, 1), q(1, 1), q(1, 1), q(1, 1)]);
    assert(rktp64_model().b == seq![q(131, 1800), q(0, 1), q(1121931, 3902080), q(319333, 1682928), q(262144, 2477325), q(4084223, 15177600), q(1891, 25200)]);
    lemma_rktp64_sum_134();
    assert(q_eq(q_dot(rktp64_model().b, seq![q(1, 1), q(1, 1), q(1, 1), q(1, 1), q(1, 1), q(1, 1), q(1, 1)]), q(1, 1)));
    lemma_q_eq_trans(q_dot(rktp64_model().b, elementary_weights(rktp64_model().a, 0)), q_dot(rktp64_model().b, seq![q(1, 1), q(1, 1), q(1, 1), q(1, 1), q(1, 1), q(1, 1), q(1, 1)]), q(1, 1));
}

proof fn lemma_rktp64_b_tree_1()
    ensures
        q_eq(q_dot(rktp64_model().b, elementary_weights(rktp64_model().a, 1)), q(1, tree_density(1))),
{
    lemma_rktp64_shape();
    lemma_rktp64_phi_1();
    assert(q_vec_valid(rktp64_model().b));
    lemma_q_dot_congruent(rktp64_model().b, elementary_weights(rktp64_model().a, 1), seq![q(0, 1), q(4, 27), q(2, 9), q(3, 7), q(11, 16), q(10, 13), q(1, 1)]);
    assert(rktp64_model().b == seq![q(131, 1800), q(0, 1), q(1121931, 3902080), q(319333, 1682928), q(262144, 2477325), q(4084223, 15177600), q(1891, 25200)]);
    lemma_rktp64_sum_135();
    assert(q_eq(q_dot(rktp64_model().b, seq![q(0, 1), q(4, 27), q(2, 9), q(3, 7), q(11, 16), q(10, 13), q(1, 1)]), q(1, 2)));
    lemma_q_eq_trans(q_dot(rktp64_model().b, elementary_weights(rktp64_model().a, 1)), q_dot(rktp64_model().b, seq![q(0, 1), q(4, 27), q(2, 9), q(3, 7), q(11, 16), q(10, 13), q(1, 1)]), q(1, 2));
}

proof fn lemma_rktp64_b_tree_2()
    ensures
        q_eq(q_dot(rktp64_model().b, elementary_weights(rktp64_model().a, 2)), q(1, tree_density(2))),
{
    lemma_rktp64_shape();
    lemma_rktp64_phi_2();
    assert(q_vec_valid(rktp64_model().b));
    lemma_q_dot_congruent(rktp64_model().b, elementary_weights(rktp64_model().a, 2), seq![q(0, 1), q(16, 729), q(4, 81), q(9, 49), q(121, 256), q(100, 169), q(1, 1)]);
    assert(rktp64_model().b == seq![q(131, 1800), q(0, 1), q(1121931, 3902080), q(319333, 1682928), q(262144, 2477325), q(4084223, 15177600), q(1891, 25200)]);
    lemma_rktp64_sum_136();
    assert(q_eq(q_dot(rktp64_model().b, seq![q(0, 1), q(16, 729), q(4, 81), q(9, 49), q(121, 256), q(100, 169), q(1, 1)]), q(1, 3)));
    lemma_q_eq_trans(q_dot(rktp64_model().b, elementary_weights(rktp64_model().a, 2)), q_dot(rktp64_model().b, seq![q(0, 1), q(16, 729), q(4, 81), q(9, 49), q(121, 256), q(100, 169), q(1, 1)]), q(1, 3));
}

proof fn lemma_rktp64_b_tree_3()
    ensures
        q_eq(q_dot(rktp64_model().b, elementary_weights(rktp64_model().a, 3)), q(1, tree_density(3))),
{
    lemma_rktp64_shape();
    lemma_rktp64_phi_3();
    assert(q_vec_valid(rktp64_model().b));
    lemma_q_dot_congruent(rktp64_model().b, elementary_weights(rktp64_model().a, 3), seq![q(0, 1), q(0, 1), q(2, 81), q(9, 98), q(121, 512), q(50, 169), q(1, 2)]);
    assert(rktp64_model().b == seq![q(131, 1800), q(0, 1), q(1121931, 3902080), q(319333, 1682928), q(262144, 2477325), q(4084223, 15177600), q(1891, 25200)]);
    lemma_rktp64_sum_137();
    assert(q_eq(q_dot(rktp64_model().b, seq![q(0, 1), q(0, 1), q(2, 81), q(9, 98), q(121, 512), q(50, 169), q(1, 2)]), q(1, 6)));
    lemma_q_eq_trans(q_dot(rktp64_model().b, elementary_weights(rktp64_model().a, 3)), q_dot(rktp64_model().b, seq![q(0, 1), q(0, 1), q(2, 81), q(9, 98), q(121, 512), q(50, 169), q(1, 2)]), q(1, 6));
}

proof fn lemma_rktp64_b_tree_4()
    ensures
        q_eq(q_dot(rktp64_model().b, elementary_weights(rktp64_model().a, 4)), q(1, tree_density(4))),
{
    lemma_rktp64_shape();
    lemma_rktp64_phi_4();
    assert(q_vec_valid(rktp64_model().b));
    lemma_q_dot_congruent(rktp64_model().b, elementary_weights(rktp64_model().a, 4), seq![q(0, 1), q(64, 19683), q(8, 729), q(27, 343), q(1331, 4096), q(1000, 2197), q(1, 1)]);
    assert(rktp64_model().b == seq![q(131, 1800), q(0, 1), q(1121931, 3902080), q(319333, 1682928), q(262144, 2477325), q(4084223, 15177600), q(1891, 25200)]);
    lemma_rktp64_sum_138();
    assert(q_eq(q_dot(rktp64_model().b, seq![q(0, 1), q(64, 19683), q(8, 729), q(27, 343), q(1331, 4096), q(1000, 2197), q(1, 1)]), q(1, 4)));
    lemma_q_eq_trans(q_dot(rktp64_model().b, elementary_weights(rktp64_model().a, 4)), q_dot(rktp64_model().b, seq![q(0, 1), q(64, 19683), q(8, 729), q(27, 343), q(1331, 4096), q(1000, 2197), q(1, 1)]), q(1, 4));
}

proof fn lemma_rktp64_b_tree_5()
    ensures
        q_eq(q_dot(rktp64_model().b, elementary_weights(rktp64_model().a, 5)), q(1, tree_density(5))),
{
    lemma_rktp64_shape();
    lemma_rktp64_phi_5();
    assert(q_vec_valid(rktp64_model().b));
    lemma_q_dot_congruent(rktp64_model().b, elementary_weights(rktp64_model().a, 5), seq![q(0, 1), q(0, 1), q(4, 729), q(27, 686), q(1331, 8192), q(500, 2197), q(1, 2)]);
    assert(rktp64_model().b == seq![q(131, 1800), q(0, 1), q(1121931, 3902080), q(319333, 1682928), q(262144, 2477325), q(4084223, 15177600), q(1891, 25200)]);
    lemma_rktp64_sum_139();
    assert(q_eq(q_dot(rktp64_model().b, seq![q(0, 1), q(0, 1), q(4, 729), q(27, 686), q(1331, 8192), q(500, 2197), q(1, 2)]), q(1, 8)));
    lemma_q_eq_trans(q_dot(rktp64_model().b, elementary_weights(rktp64_model().a, 5)), q_dot(rktp64_model().b, seq![q(0, 1), q(0, 1), q(4, 729), q(27, 686), q(1331, 8192), q(500, 2197), q(1, 2)]), q(1, 8));
}

proof fn lemma_rktp64_b_tree_6()
    ensures
        q_eq(q_dot(rktp64_model().b, elementary_weights(rktp64_model().a, 6)), q(1, tree_density(6))),
{
    lemma_rktp64_shape();
    lemma_rktp64_phi_6();
    assert(q_vec_valid(rktp64_model().b));
    lemma_q_dot_congruent(rktp64_model().b, elementary_weights(rktp64_model().a, 6), seq![q(0, 1), q(0, 1), q(8, 2187), q(9, 343), q(1331, 12288), q(1000, 6591), q(1, 3)]);
    assert(rktp64_model().b == seq![q(131, 1800), q(0, 1), q(1121931, 3902080), q(319333, 1682928), q(262144, 2477325), q(4084223, 15177600), q(1891, 25200)]);
    lemma_rktp64_sum_140();
    assert(q_eq(q_dot(rktp64_model().b, seq![q(0, 1), q(0, 1), q(8, 2187), q(9, 343), q(1331, 12288), q(1000, 6591), q(1, 3)]), q(1, 12)));
    lemma_q_eq_trans(q_dot(rktp64_model().b, elementary_weights(rktp64_model().a, 6)), q_dot(rktp64_model().b, seq![q(0, 1), q(0, 1), q(8, 2187), q(9, 343), q(1331, 12288), q(1000, 6591), q(1, 3)]), q(1, 12));
}

proof fn lemma_rktp64_b_tree_7()
    ensures
        q_eq(q_dot(rktp64_model().b, elementary_weights(rktp64_model().a, 7)), q(1, tree_density(7))),
{
    lemma_rktp64_shape();
    lemma_rktp64_phi_7();
    assert(q_vec_valid(rktp64_model().b));
    lemma_q_dot_congruent(rktp64_model().b, elementary_weights(rktp64_model().a, 7), seq![q(0, 1), q(0, 1), q(0, 1), q(13, 686), q(469, 8192), q(5120, 72501), q(1967, 11346)]);
    assert(rktp64_model().b == seq![q(131, 1800), q(0, 1), q(1121931, 3902080), q(319333, 1682928), q(262144, 2477325), q(4084223, 15177600), q(1891, 25200)]);
    lemma_rktp64_sum_141();
    assert(q_eq(q_dot(rktp64_model().b, seq![q(0, 1), q(0, 1), q(0, 1), q(13, 686), q(469, 8192), q(5120, 72501), q(1967, 11346)]), q(1, 24)));
    lemma_q_eq_trans(q_dot(rktp64_model().b, elementary_weights(rktp64_model().a, 7)), q_dot(rktp64_model().b, seq![q(0, 1), q(0, 1), q(0, 1), q(13, 686), q(469, 8192), q(5120, 72501), q(1967, 11346)]), q(1, 24));
}

proof fn lemma_rktp64_b_tree_8()
    ensures
        q_eq(q_dot(rktp64_model().b, elementary_weights(rktp64_model().a, 8)), q(1, tree_density(8))),
{
    lemma_rktp64_shape();
    lemma_rktp64_phi_8();
    assert(q_vec_valid(rktp64_model().b));
    lemma_q_dot_congruent(rktp64_model().b, elementary_weights(rktp64_model().a, 8), seq![q(0, 1), q(256, 531441), q(16, 6561), q(81, 2401), q(14641, 65536), q(10000, 28561), q(1, 1)]);
    assert(rktp64_model().b == seq![q(131, 1800), q(0, 1), q(1121931, 3902080), q(319333, 1682928), q(262144, 2477325), q(4084223, 15177600), q(1891, 25200)]);
    lemma_rktp64_sum_142();
    assert(q_eq(q_dot(rktp64_model().b, seq![q(0, 1), q(256, 531441), q(16, 6561), q(81, 2401), q(14641, 65536), q(10000, 28561), q(1, 1)]), q(1, 5)));
    lemma_q_eq_trans(q_dot(rktp64_model().b, elementary_weights(rktp64_model().a, 8)), q_dot(rktp64_model().b, seq![q(0, 1), q(256, 531441), q(16, 6561), q(81, 2401), q(14641, 65536), q(10000, 28561), q(1, 1)]), q(1, 5));
}

proof fn lemma_rktp64_b_tree_9()
    ensures
        q_eq(q_dot(rktp64_model().b, elementary_weights(rktp64_model().a, 9)), q(1, tree_density(9))),
{
    lemma_rktp64_shape();
    lemma_rktp64_phi_9();
    assert(q_vec_valid(rktp64_model().b));
    lemma_q_dot_congruent(rktp64_model().b, elementary_weights(rktp64_model().a, 9), seq![q(0, 1), q(0, 1), q(8, 6561), q(81, 4802), q(14641, 131072), q(5000, 28561), q(1, 2)]);
    assert(rktp64_model().b == seq![q(131, 1800), q(0, 1), q(1121931, 3902080), q(319333, 1682928), q(262144, 2477325), q(4084223, 15177600), q(1891, 25200)]);
    lemma_rktp64_sum_143();
    assert(q_eq(q_dot(rktp64_model().b, seq![q(0, 1), q(0, 1), q(8, 6561), q(81, 4802), q(14641, 131072), q(5000, 28561), q(1, 2)]), q(1, 10)));
    lemma_q_eq_trans(q_dot(rktp64_model().b, elementary_weights(rktp64_model().a, 9)), q_dot(rktp64_model().b, seq![q(0, 1), q(0, 1), q(8, 6561), q(81, 4802), q(14641, 131072), q(5000, 28561), q(1, 2)]), q(1, 10));
}

proof fn lemma_rktp64_b_tree_10()
    ensures
        q_eq(q_dot(rktp64_model().b, elementary_weights(rktp64_model().a, 10)), q(1, tree_density(10))),
{
    lemma_rktp64_shape();
    lemma_rktp64_phi_10();
    assert(q_vec_valid(rktp64_model().b));
    lemma_q_dot_congruent(rktp64_model().b, elementary_weights(rktp64_model().a, 10), seq![q(0, 1), q(0, 1), q(16, 19683), q(27, 2401), q(14641, 196608), q(10000, 85683), q(1, 3)]);
    assert(rktp64_model().b == seq![q(131, 1800), q(0, 1), q(1121931, 3902080), q(319333, 1682928), q(262144, 2477325), q(4084223, 15177600), q(1891, 25200)]);
    lemma_rktp64_sum_144();
    assert(q_eq(q_dot(rktp64_model().b, seq![q(0, 1), q(0, 1), q(16, 19683), q(27, 2401), q(14641, 196608), q(10000, 85683), q(1, 3)]), q(1, 15)));
    lemma_q_eq_trans(q_dot(rktp64_model().b, elementary_weights(rktp64_model().a, 10)), q_dot(rktp64_model().b, seq![q(0, 1), q(0, 1), q(16, 19683), q(27, 2401), q(14641, 196608), q(10000, 85683), q(1, 3)]), q(1, 15));
}

proof fn lemma_rktp64_b_tree_11()
    ensures
        q_eq(q_dot(rktp64_model().b, elementary_weights(rktp64_model().a, 11)), q(1, tree_density(11))),
{
    lemma_rktp64_shape();
    lemma_rktp64_phi_11();
    assert(q_vec_valid(rktp64_model().b));
    lemma_q_dot_congruent(rktp64_model().b, elementary_weights(rktp64_model().a, 11), seq![q(0, 1), q(0, 1), q(0, 1), q(39, 4802), q(5159, 131072), q(51200, 942513), q(1967, 11346)]);
    assert(rktp64_model().b == seq![q(131, 1800), q(0, 1), q(1121931, 3902080), q(319333, 1682928), q(262144, 2477325), q(4084223, 15177600), q(1891, 25200)]);
    lemma_rktp64_sum_145();
    assert(q_eq(q_dot(rktp64_model().b, seq![q(0, 1), q(0, 1), q(0, 1), q(39, 4802), q(5159, 131072), q(51200, 942513), q(1967, 11346)]), q(1, 30)));
    lemma_q_eq_trans(q_dot(rktp64_model().b, elementary_weights(rktp64_model().a, 11)), q_dot(rktp64_model().b, seq![q(0, 1), q(0, 1), q(0, 1), q(39, 4802), q(5159, 131072), q(51200, 942513), q(1967, 11346)]), q(1, 30));
}

proof fn lemma_rktp64_b_tree_12()
    ensures
        q_eq(q_dot(rktp64_model().b, elementary_weights(rktp64_model().a, 12)), q(1, tree_density(12))),
{
    lemma_rktp64_shape();
    lemma_rktp64_phi_12();
    assert(q_vec_valid(rktp64_model().b));
    lemma_q_dot_congruent(rktp64_model().b, elementary_weights(rktp64_model().a, 12), seq![q(0, 1), q(0, 1), q(4, 6561), q(81, 9604), q(14641, 262144), q(2500, 28561), q(1, 4)]);
    assert(rktp64_model().b == seq![q(131, 1800), q(0, 1), q(1121931, 3902080), q(319333, 1682928), q(262144, 2477325), q(4084223, 15177600), q(1891, 25200)]);
    lemma_rktp64_sum_146();
    assert(q_eq(q_dot(rktp64_model().b, seq![q(0, 1), q(0, 1), q(4, 6561), q(81, 9604), q(14641, 262144), q(2500, 28561), q(1, 4)]), q(1, 20)));
    lemma_q_eq_trans(q_dot(rktp64_model().b, elementary_weights(rktp64_model().a, 12)), q_dot(rktp64_model().b, seq![q(0, 1), q(0, 1), q(4, 6561), q(81, 9604), q(14641, 262144), q(2500, 28561), q(1, 4)]), q(1, 20));
}

proof fn lemma_rktp64_b_tree_13()
    ensures
        q_eq(q_dot(rktp64_model().b, elementary_weights(rktp64_model().a, 13)), q(1, tree_density(13))),
{
    lemma_rktp64_shape();
    lemma_rktp64_phi_13();
    assert(q_vec_valid(rktp64_model().b));
    lemma_q_dot_congruent(rktp64_model().b, elementary_weights(rktp64_model().a, 13), seq![q(0, 1), q(0, 1), q(32, 59049), q(62, 9261), q(109427, 2322432), q(17005360, 178134957), q(36536, 153171)]);
    assert(rktp64_model().b == seq![q(131, 1800), q(0, 1), q(1121931, 3902080), q(319333, 1682928), q(262144, 2477325), q(4084223, 15177600), q(1891, 25200)]);
    lemma_rktp64_sum_147();
    assert(q_eq(q_dot(rktp64_model().b, seq![q(0, 1), q(0, 1), q(32, 59049), q(62, 9261), q(109427, 2322432), q(17005360, 178134957), q(36536, 153171)]), q(1, 20)));
    lemma_q_eq_trans(q_dot(rktp64_model().b, elementary_weights(rktp64_model().a, 13)), q_dot(rktp64_model().b, seq![q(0, 1), q(0, 1), q(32, 59049), q(62, 9261), q(109427, 2322432), q(17005360, 178134957), q(36536, 153171)]), q(1, 20));
}

proof fn lemma_rktp64_b_tree_14()
    ensures
        q_eq(q_dot(rktp64_model().b, elementary_weights(rktp64_model().a, 14)), q(1, tree_density(14))),
{
    lemma_rktp64_shape();
    lemma_rktp64_phi_14();
    assert(q_vec_valid(rktp64_model().b));
    lemma_q_dot_congruent(rktp64_model().b, elementary_weights(rktp64_model().a, 14), seq![q(0, 1), q(0, 1), q(0, 1), q(13, 3087), q(12395, 516096), q(2788120, 59378319), q(6140, 51057)]);
    assert(rktp64_model().b == seq![q(131, 1800), q(0, 1), q(1121931, 3902080), q(319333, 1682928), q(262144, 2477325), q(4084223, 15177600), q(1891, 25200)]);
    lemma_rktp64_sum_148();
    assert(q_eq(q_dot(rktp64_model().b, seq![q(0, 1), q(0, 1), q(0, 1), q(13, 3087), q(12395, 516096), q(2788120, 59378319), q(6140, 51057)]), q(1, 40)));
    lemma_q_eq_trans(q_dot(rktp64_model().b, elementary_weights(rktp64_model().a, 14)), q_dot(rktp64_model().b, seq![q(0, 1), q(0, 1), q(0, 1), q(13, 3087), q(12395, 516096), q(2788120, 59378319), q(6140, 51057)]), q(1, 40));
}

proof fn lemma_rktp64_b_tree_15()
    ensures
        q_eq(q_dot(rktp64_model().b, elementary_weights(rktp64_model().a, 15)), q(1, tree_density(15))),
{
    lemma_rktp64_shape();
    lemma_rktp64_phi_15();
    assert(q_vec_valid(rktp64_model().b));
    lemma_q_dot_congruent(rktp64_model().b, elementary_weights(rktp64_model().a, 15), seq![q(0, 1), q(0, 1), q(0, 1), q(26, 9261), q(12395, 774144), q(5576240, 178134957), q(12280, 153171)]);
    assert(rktp64_model().b == seq![q(131, 1800), q(0, 1), q(1121931, 3902080), q(319333, 1682928), q(262144, 2477325), q(4084223, 15177600), q(1891, 25200)]);
    lemma_rktp64_sum_149();
    assert(q_eq(q_dot(rktp64_model().b, seq![q(0, 1), q(0, 1), q(0, 1), q(26, 9261), q(12395, 774144), q(5576240, 178134957), q(12280, 153171)]), q(1, 60)));
    lemma_q_eq_trans(q_dot(rktp64_model().b, elementary_weights(rktp64_model().a, 15)), q_dot(rktp64_model().b, seq![q(0, 1), q(0, 1), q(0, 1), q(26, 9261), q(12395, 774144), q(5576240, 178134957), q(12280, 153171)]), q(1, 60));
}

proof fn lemma_rktp64_b_tree_16()
    ensures
        q_eq(q_dot(rktp64_model().b, elementary_weights(rktp64_model().a, 16)), q(1, tree_density(16))),
{
    lemma_rktp64_shape();
    lemma_rktp64_phi_16();
    assert(q_vec_valid(rktp64_model().b));
    lemma_q_dot_congruent(rktp64_model().b, elementary_weights(rktp64_model().a, 16), seq![q(0, 1), q(0, 1), q(0, 1), q(0, 1), q(1943, 172032), q(35960, 2199197), q(69, 1891)]);
    assert(rktp64_model().b == seq![q(131, 1800), q(0, 1), q(1121931, 3902080), q(319333, 1682928), q(262144, 2477325), q(4084223, 15177600), q(1891, 25200)]);
    lemma_rktp64_sum_150();
    assert(q_eq(q_dot(rktp64_model().b, seq![q(0, 1), q(0, 1), q(0, 1), q(0, 1), q(1943, 172032), q(35960, 2199197), q(69, 1891)]), q(1, 120)));
    lemma_q_eq_trans(q_dot(rktp64_model().b, elementary_weights(rktp64_model().a, 16)), q_dot(rktp64_model().b, seq![q(0, 1), q(0, 1), q(0, 1), q(0, 1), q(1943, 172032), q(35960, 2199197), q(69, 1891)]), q(1, 120));
}

proof fn lemma_rktp64_b_tree_17()
    ensures
        q_eq(q_dot(rktp64_model().b, elementary_weights(rktp64_model().a, 17)), q(1, tree_density(17))),
{
    lemma_rktp64_shape();
    lemma_rktp64_phi_17();
    assert(q_vec_valid(rktp64_model().b));
    lemma_q_dot_congruent(rktp64_model().b, elementary_weights(rktp64_model().a, 17), seq![q(0, 1), q(1024, 14348907), q(32, 59049), q(243, 16807), q(161051, 1048576), q(100000, 371293), q(1, 1)]);
    assert(rktp64_model().b == seq![q(131, 1800), q(0, 1), q(1121931, 3902080), q(319333, 1682928), q(262144, 2477325), q(4084223, 15177600), q(1891, 25200)]);
    lemma_rktp64_sum_151();
    assert(q_eq(q_dot(rktp64_model().b, seq![q(0, 1), q(1024, 14348907), q(32, 59049), q(243, 16807), q(161051, 1048576), q(100000, 371293), q(1, 1)]), q(1, 6)));
    lemma_q_eq_trans(q_dot(rktp64_model().b, elementary_weights(rktp64_model().a, 17)), q_dot(rktp64_model().b, seq![q(0, 1), q(1024, 14348907), q(32, 59049), q(243, 16807), q(161051, 1048576), q(100000, 371293), q(1, 1)]), q(1, 6));
}

proof fn lemma_rktp64_b_tree_18()
    ensures
        q_eq(q_dot(rktp64_model().b, elementary_weights(rktp64_model().a, 18)), q(1, tree_density(18))),
{
    lemma_rktp64_shape();
    lemma_rktp64_phi_18();
    assert(q_vec_valid(rktp64_model().b));
    lemma_q_dot_congruent(rktp64_model().b, elementary_weights(rktp64_model().a, 18), seq![q(0, 1), q(0, 1), q(16, 59049), q(243, 33614), q(161051, 2097152), q(50000, 371293), q(1, 2)]);
    assert(rktp64_model().b == seq![q(131, 1800), q(0, 1), q(1121931, 3902080), q(319333, 1682928), q(262144, 2477325), q(4084223, 15177600), q(1891, 25200)]);
    lemma_rktp64_sum_152();
    assert(q_eq(q_dot(rktp64_model().b, seq![q(0, 1), q(0, 1), q(16, 59049), q(243, 33614), q(161051, 2097152), q(50000, 371293), q(1, 2)]), q(1, 12)));
    lemma_q_eq_trans(q_dot(rktp64_model().b, elementary_weights(rktp64_model().a, 18)), q_dot(rktp64_model().b, seq![q(0, 1), q(0, 1), q(16, 59049), q(243, 33614), q(161051, 2097152), q(50000, 371293), q(1, 2)]), q(1, 12));
}

proof fn lemma_rktp64_b_tree_19()
    ensures
        q_eq(q_dot(rktp64_model().b, elementary_weights(rktp64_model().a, 19)), q(1, tree_density(19))),
{
    lemma_rktp64_shape();
    lemma_rktp64_phi_19();
    assert(q_vec_valid(rktp64_model().b));
    lemma_q_dot_congruent(rktp64_model().b, elementary_weights(rktp64_model().a, 19), seq![q(0, 1), q(0, 1), q(32, 177147), q(81, 16807), q(161051, 3145728), q(100000, 1113879), q(1, 3)]);
    assert(rktp64_model().b == seq![q(131, 1800), q(0, 1), q(1121931, 3902080), q(319333, 1682928), q(262144, 2477325), q(4084223, 15177600), q(1891, 25200)]);
    lemma_rktp64_sum_153();
    assert(q_eq(q_dot(rktp64_model().b, seq![q(0, 1), q(0, 1), q(32, 177147), q(81, 16807), q(161051, 3145728), q(100000, 1113879), q(1, 3)]), q(1, 18)));
    lemma_q_eq_trans(q_dot(rktp64_model().b, elementary_weights(rktp64_model().a, 19)), q_dot(rktp64_model().b, seq![q(0, 1), q(0, 1), q(32, 177147), q(81, 16807), q(161051, 3145728), q(100000, 1113879), q(1, 3)]), q(1, 18));
}

proof fn lemma_rktp64_b_tree_20()
    ensures
        q_eq(q_dot(rktp64_model().b, elementary_weights(rktp64_model().a, 20)), q(1, tree_density(20))),
{
    lemma_rktp64_shape();
    lemma_rktp64_phi_20();
    assert(q_vec_valid(rktp64_model().b));
    lemma_q_dot_congruent(rktp64_model().b, elementary_weights(rktp64_model().a, 20), seq![q(0, 1), q(0, 1), q(0, 1), q(117, 33614), q(56749, 2097152), q(512000, 12252669), q(1967, 11346)]);
    assert(rktp64_model().b == seq![q(131, 1800), q(0, 1), q(1121931, 3902080), q(319333, 1682928), q(262144, 2477325), q(4084223, 15177600), q(1891, 25200)]);
    lemma_rktp64_sum_154();
    assert(q_eq(q_dot(rktp64_model().b, seq![q(0, 1), q(0, 1), q(0, 1), q(117, 33614), q(56749, 2097152), q(512000, 12252669), q(1967, 11346)]), q(1, 36)));
    lemma_q_eq_trans(q_dot(rktp64_model().b, elementary_weights(rktp64_model().a, 20)), q_dot(rktp64_model().b, seq![q(0, 1), q(0, 1), q(0, 1), q(117, 33614), q(56749, 2097152), q(512000, 12252669), q(1967, 11346)]), q(1, 36));
}

proof fn lemma_rktp64_b_tree_21()
    ensures
        q_eq(q_dot(rktp64_model().b, elementary_weights(rktp64_model().a, 21)), q(1, tree_density(21))),
{
    lemma_rktp64_shape();
    lemma_rktp64_phi_21();
    assert(q_vec_valid(rktp64_model().b));
    lemma_q_dot_congruent(rktp64_model().b, elementary_weights(rktp64_model().a, 21), seq![q(0, 1), q(0, 1), q(8, 59049), q(243, 67228), q(161051, 4194304), q(25000, 371293), q(1, 4)]);
    assert(rktp64_model().b == seq![q(131, 1800), q(0, 1), q(1121931, 3902080), q(319333, 1682928), q(262144, 2477325), q(4084223, 15177600), q(1891, 25200)]);
    lemma_rktp64_sum_155();
    assert(q_eq(q_dot(rktp64_model().b, seq![q(0, 1), q(0, 1), q(8, 59049), q(243, 67228), q(161051, 4194304), q(25000, 371293), q(1, 4)]), q(1, 24)));
    lemma_q_eq_trans(q_dot(rktp64_model().b, elementary_weights(rktp64_model().a, 21)), q_dot(rktp64_model().b, seq![q(0, 1), q(0, 1), q(8, 59049), q(243, 67228), q(161051, 4194304), q(25000, 371293), q(1, 4)]), q(1, 24));
}

proof fn lemma_rktp64_b_tree_22()
    ensures
        q_eq(q_dot(rktp64_model().b, elementary_weights(rktp64_model().a, 22)), q(1, tree_density(22))),
{
    lemma_rktp64_shape();
    lemma_rktp64_phi_22();
    assert(q_vec_valid(rktp64_model().b));
    lemma_q_dot_congruent(rktp64_model().b, elementary_weights(rktp64_model().a, 22), seq![q(0, 1), q(0, 1), q(64, 531441), q(62, 21609), q(1203697, 37158912), q(170053600, 2315754441), q(36536, 153171)]);
    assert(rktp64_model().b == seq![q(131, 1800), q(0, 1), q(1121931, 3902080), q(319333, 1682928), q(262144, 2477325), q(4084223, 15177600), q(1891, 25200)]);
    lemma_rktp64_sum_156();
    assert(q_eq(q_dot(rktp64_model().b, seq![q(0, 1), q(0, 1), q(64, 531441), q(62, 21609), q(1203697, 37158912), q(170053600, 2315754441), q(36536, 153171)]), q(1, 24)));
    lemma_q_eq_trans(q_dot(rktp64_model().b, elementary_weights(rktp64_model().a, 22)), q_dot(rktp64_model().b, seq![q(0, 1), q(0, 1), q(64, 531441), q(62, 21609), q(1203697, 37158912), q(170053600, 2315754441), q(36536, 153171)]), q(1, 24));
}

proof fn lemma_rktp64_b_tree_23()
    ensures
        q_eq(q_dot(rktp64_model().b, elementary_weights(rktp64_model().a, 23)), q(1, tree_density(23))),
{
    lemma_rktp64_shape();
    lemma_rktp64_phi_23();
    assert(q_vec_valid(rktp64_model().b));
    lemma_q_dot_congruent(rktp64_model().b, elementary_weights(rktp64_model().a, 23), seq![q(0, 1), q(0, 1), q(0, 1), q(13, 7203), q(136345, 8257536), q(27881200, 771918147), q(6140, 51057)]);
    assert(rktp64_model().b == seq![q(131, 1800), q(0, 1), q(1121931, 3902080), q(319333, 1682928), q(262144, 2477325), q(4084223, 15177600), q(1891, 25200)]);
    lemma_rktp64_sum_157();
    assert(q_eq(q_dot(rktp64_model().b, seq![q(0, 1), q(0, 1), q(0, 1), q(13, 7203), q(136345, 8257536), q(27881200, 771918147), q(6140, 51057)]), q(1, 48)));
    lemma_q_eq_trans(q_dot(rktp64_model().b, elementary_weights(rktp64_model().a, 23)), q_dot(rktp64_model().b, seq![q(0, 1), q(0, 1), q(0, 1), q(13, 7203), q(136345, 8257536), q(27881200, 771918147), q(6140, 51057)]), q(1, 48));
}

proof fn lemma_rktp64_b_tree_24()
    ensures
        q_eq(q_dot(rktp64_model().b, elementary_weights(rktp64_model().a, 24)), q(1, tree_density(24))),
{
    lemma_rktp64_shape();
    lemma_rktp64_phi_24();
    assert(q_vec_valid(rktp64_model().b));
    lemma_q_dot_congruent(rktp64_model().b, elementary_weights(rktp64_model().a, 24), seq![q(0, 1), q(0, 1), q(0, 1), q(26, 21609), q(136345, 12386304), q(55762400, 2315754441), q(12280, 153171)]);
    assert(rktp64_model().b == seq![q(131, 1800), q(0, 1), q(1121931, 3902080), q(319333, 1682928), q(262144, 2477325), q(4084223, 15177600), q(1891, 25200)]);
    lemma_rktp64_sum_158();
    assert(q_eq(q_dot(rktp64_model().b, seq![q(0, 1), q(0, 1), q(0, 1), q(26, 21609), q(136345, 12386304), q(55762400, 2315754441), q(12280, 153171)]), q(1, 72)));
    lemma_q_eq_trans(q_dot(rktp64_model().b, elementary_weights(rktp64_model().a, 24)), q_dot(rktp64_model().b, seq![q(0, 1), q(0, 1), q(0, 1), q(26, 21609), q(136345, 12386304), q(55762400, 2315754441), q(12280, 153171)]), q(1, 72));
}

proof fn lemma_rktp64_b_tree_25()
    ensures
        q_eq(q_dot(rktp64_model().b, elementary_weights(rktp64_model().a, 25)), q(1, tree_density(25))),
{
    lemma_rktp64_shape();
    lemma_rktp64_phi_25();
    assert(q_vec_valid(rktp64_model().b));
    lemma_q_dot_congruent(rktp64_model().b, elementary_weights(rktp64_model().a, 25), seq![q(0, 1), q(0, 1), q(0, 1), q(0, 1), q(21373, 2752512), q(359600, 28589561), q(69, 1891)]);
    assert(rktp64_model().b == seq![q(131, 1800), q(0, 1), q(1121931, 3902080), q(319333, 1682928), q(262144, 2477325), q(4084223, 15177600), q(1891, 25200)]);
    lemma_rktp64_sum_159();
    assert(q_eq(q_dot(rktp64_model().b, seq![q(0, 1), q(0, 1), q(0, 1), q(0, 1), q(21373, 2752512), q(359600, 28589561), q(69, 1891)]), q(1, 144)));
    lemma_q_eq_trans(q_dot(rktp64_model().b, elementary_weights(rktp64_model().a, 25)), q_dot(rktp64_model().b, seq![q(0, 1), q(0, 1), q(0, 1), q(0, 1), q(21373, 2752512), q(359600, 28589561), q(69, 1891)]), q(1, 144));
}

proof fn lemma_rktp64_b_tree_26()
    ensures
        q_eq(q_dot(rktp64_model().b, elementary_weights(rktp64_model().a, 26)), q(1, tree_density(26))),
{
    lemma_rktp64_shape();
    lemma_rktp64_phi_26();
    assert(q_vec_valid(rktp64_model().b));
    lemma_q_dot_congruent(rktp64_model().b, elementary_weights(rktp64_model().a, 26), seq![q(0, 1), q(0, 1), q(16, 177147), q(81, 33614), q(161051, 6291456), q(50000, 1113879), q(1, 6)]);
    assert(rktp64_model().b == seq![q(131, 1800), q(0, 1), q(1121931, 3902080), q(319333, 1682928), q(262144, 2477325), q(4084223, 15177600), q(1891, 25200)]);
    lemma_rktp64_sum_160();
    assert(q_eq(q_dot(rktp64_model().b, seq![q(0, 1), q(0, 1), q(16, 177147), q(81, 33614), q(161051, 6291456), q(50000, 1113879), q(1, 6)]), q(1, 36)));
    lemma_q_eq_trans(q_dot(rktp64_model().b, elementary_weights(rktp64_model().a, 26)), q_dot(rktp64_model().b, seq![q(0, 1), q(0, 1), q(16, 177147), q(81, 33614), q(161051, 6291456), q(50000, 1113879), q(1, 6)]), q(1, 36));
}

proof fn lemma_rktp64_b_tree_27()
    ensures
        q_eq(q_dot(rktp64_model().b, elementary_weights(rktp64_model().a, 27)), q(1, tree_density(27))),
{
    lemma_rktp64_shape();
    lemma_rktp64_phi_27();
    assert(q_vec_valid(rktp64_model().b));
    lemma_q_dot_congruent(rktp64_model().b, elementary_weights(rktp64_model().a, 27), seq![q(0, 1), q(0, 1), q(0, 1), q(117, 67228), q(56749, 4194304), q(256000, 12252669), q(1967, 22692)]);
    assert(rktp64_model().b == seq![q(131, 1800), q(0, 1), q(1121931, 3902080), q(319333, 1682928), q(262144, 2477325), q(4084223, 15177600), q(1891, 25200)]);
    lemma_rktp64_sum_161();
    assert(q_eq(q_dot(rktp64_model().b, seq![q(0, 1), q(0, 1), q(0, 1), q(117, 67228), q(56749, 4194304), q(256000, 12252669), q(1967, 22692)]), q(1, 72)));
    lemma_q_eq_trans(q_dot(rktp64_model().b, elementary_weights(rktp64_model().a, 27)), q_dot(rktp64_model().b, seq![q(0, 1), q(0, 1), q(0, 1), q(117, 67228), q(56749, 4194304), q(256000, 12252669), q(1967, 22692)]), q(1, 72));
}

proof fn lemma_rktp64_b_tree_28()
    ensures
        q_eq(q_dot(rktp64_model().b, elementary_weights(rktp64_model().a, 28)), q(1, tree_density(28))),
{
    lemma_rktp64_shape();
    lemma_rktp64_phi_28();
    assert(q_vec_valid(rktp64_model().b));
    lemma_q_dot_congruent(rktp64_model().b, elementary_weights(rktp64_model().a, 28), seq![q(0, 1), q(0, 1), q(128, 1594323), q(404, 250047), q(8875067, 438939648), q(2154842575, 33667506873), q(42100243, 231594552)]);
    assert(rktp64_model().b == seq![q(131, 1800), q(0, 1), q(1121931, 3902080), q(319333, 1682928), q(262144, 2477325), q(4084223, 15177600), q(1891, 25200)]);
    lemma_rktp64_sum_162();
    assert(q_eq(q_dot(rktp64_model().b, seq![q(0, 1), q(0, 1), q(128, 1594323), q(404, 250047), q(8875067, 438939648), q(2154842575, 33667506873), q(42100243, 231594552)]), q(1, 30)));
    lemma_q_eq_trans(q_dot(rktp64_model().b, elementary_weights(rktp64_model().a, 28)), q_dot(rktp64_model().b, seq![q(0, 1), q(0, 1), q(128, 1594323), q(404, 250047), q(8875067, 438939648), q(2154842575, 33667506873), q(42100243, 231594552)]), q(1, 30));
}

proof fn lemma_rktp64_b_tree_29()
    ensures
        q_eq(q_dot(rktp64_model().b, elementary_weights(rktp64_model().a, 29)), q(1, tree_density(29))),
{
    lemma_rktp64_shape();
    lemma_rktp64_phi_29();
    assert(q_vec_valid(rktp64_model().b));
    lemma_q_dot_congruent(rktp64_model().b, elementary_weights(rktp64_model().a, 29), seq![q(0, 1), q(0, 1), q(0, 1), q(26, 27783), q(330913, 32514048), q(21687845, 680151654), q(151141, 1660176)]);
    assert(rktp64_model().b == seq![q(131, 1800), q(0, 1), q(1121931, 3902080), q(319333, 1682928), q(262144, 2477325), q(4084223, 15177600), q(1891, 25200)]);
    lemma_rktp64_sum_163();
    assert(q_eq(q_dot(rktp64_model().b, seq![q(0, 1), q(0, 1), q(0, 1), q(26, 27783), q(330913, 32514048), q(21687845, 680151654), q(151141, 1660176)]), q(1, 60)));
    lemma_q_eq_trans(q_dot(rktp64_model().b, elementary_weights(rktp64_model().a, 29)), q_dot(rktp64_model().b, seq![q(0, 1), q(0, 1), q(0, 1), q(26, 27783), q(330913, 32514048), q(21687845, 680151654), q(151141, 1660176)]), q(1, 60));
}

proof fn lemma_rktp64_b_tree_30()
    ensures
        q_eq(q_dot(rktp64_model().b, elementary_weights(rktp64_model().a, 30)), q(1, tree_density(30))),
{
    lemma_rktp64_shape();
    lemma_rktp64_phi_30();
    assert(q_vec_valid(rktp64_model().b));
    lemma_q_dot_congruent(rktp64_model().b, elementary_weights(rktp64_model().a, 30), seq![q(0, 1), q(0, 1), q(0, 1), q(52, 83349), q(330913, 48771072), q(21687845, 1020227481), q(151141, 2490264)]);
    assert(rktp64_model().b == seq![q(131, 1800), q(0, 1), q(1121931, 3902080), q(319333, 1682928), q(262144, 2477325), q(4084223, 15177600), q(1891, 25200)]);
    lemma_rktp64_sum_164();
    assert(q_eq(q_dot(rktp64_model().b, seq![q(0, 1), q(0, 1), q(0, 1), q(52, 83349), q(330913, 48771072), q(21687845, 1020227481), q(151141, 2490264)]), q(1, 90)));
    lemma_q_eq_trans(q_dot(rktp64_model().b, elementary_weights(rktp64_model().a, 30)), q_dot(rktp64_model().b, seq![q(0, 1), q(0, 1), q(0, 1), q(52, 83349), q(330913, 48771072), q(21687845, 1020227481), q(151141, 2490264)]), q(1, 90));
}

proof fn lemma_rktp64_b_tree_31()
    ensures
        q_eq(q_dot(rktp64_model().b, elementary_weights(rktp64_model().a, 31)), q(1, tree_density(31))),
{
    lemma_rktp64_shape();
    lemma_rktp64_phi_31();
    assert(q_vec_valid(rktp64_model().b));
    lemma_q_dot_congruent(rktp64_model().b, elementary_weights(rktp64_model().a, 31), seq![q(0, 1), q(0, 1), q(0, 1), q(0, 1), q(1943, 401408), q(344875, 30788758), q(5727, 211792)]);
    assert(rktp64_model().b == seq![q(131, 1800), q(0, 1), q(1121931, 3902080), q(319333, 1682928), q(262144, 2477325), q(4084223, 15177600), q(1891, 25200)]);
    lemma_rktp64_sum_165();
    assert(q_eq(q_dot(rktp64_model().b, seq![q(0, 1), q(0, 1), q(0, 1), q(0, 1), q(1943, 401408), q(344875, 30788758), q(5727, 211792)]), q(1, 180)));
    lemma_q_eq_trans(q_dot(rktp64_model().b, elementary_weights(rktp64_model().a, 31)), q_dot(rktp64_model().b, seq![q(0, 1), q(0, 1), q(0, 1), q(0, 1), q(1943, 401408), q(344875, 30788758), q(5727, 211792)]), q(1, 180));
}

proof fn lemma_rktp64_b_tree_32()
    ensures
        q_eq(q_dot(rktp64_model().b, elementary_weights(rktp64_model().a, 32)), q(1, tree_density(32))),
{
    lemma_rktp64_shape();
    lemma_rktp64_phi_32();
    assert(q_vec_valid(rktp64_model().b));
    lemma_q_dot_congruent(rktp64_model().b, elementary_weights(rktp64_model().a, 32), seq![q(0, 1), q(0, 1), q(0, 1), q(13, 27783), q(330913, 65028096), q(21687845, 1360303308), q(151141, 3320352)]);
    assert(rktp64_model().b == seq![q(131, 1800), q(0, 1), q(1121931, 3902080), q(319333, 1682928), q(262144, 2477325), q(4084223, 15177600), q(1891, 25200)]);
    lemma_rktp64_sum_166();
    assert(q_eq(q_dot(rktp64_model().b, seq![q(0, 1), q(0, 1), q(0, 1), q(13, 27783), q(330913, 65028096), q(21687845, 1360303308), q(151141, 3320352)]), q(1, 120)));
    lemma_q_eq_trans(q_dot(rktp64_model().b, elementary_weights(rktp64_model().a, 32)), q_dot(rktp64_model().b, seq![q(0, 1), q(0, 1), q(0, 1), q(13, 27783), q(330913, 65028096), q(21687845, 1360303308), q(151141, 3320352)]), q(1, 120));
}

proof fn lemma_rktp64_b_tree_33()
    ensures
        q_eq(q_dot(rktp64_model().b, elementary_weights(rktp64_model().a, 33)), q(1, tree_density(33))),
{
    lemma_rktp64_shape();
    lemma_rktp64_phi_33();
    assert(q_vec_valid(rktp64_model().b));
    lemma_q_dot_congruent(rktp64_model().b, elementary_weights(rktp64_model().a, 33), seq![q(0, 1), q(0, 1), q(0, 1), q(104, 250047), q(42277, 10450944), q(9241520, 687091977), q(231856, 4135617)]);
    assert(rktp64_model().b == seq![q(131, 1800), q(0, 1), q(1121931, 3902080), q(319333, 1682928), q(262144, 2477325), q(4084223, 15177600), q(1891, 25200)]);
    lemma_rktp64_sum_167();
    assert(q_eq(q_dot(rktp64_model().b, seq![q(0, 1), q(0, 1), q(0, 1), q(104, 250047), q(42277, 10450944), q(9241520, 687091977), q(231856, 4135617)]), q(1, 120)));
    lemma_q_eq_trans(q_dot(rktp64_model().b, elementary_weights(rktp64_model().a, 33)), q_dot(rktp64_model().b, seq![q(0, 1), q(0, 1), q(0, 1), q(104, 250047), q(42277, 10450944), q(9241520, 687091977), q(231856, 4135617)]), q(1, 120));
}

proof fn lemma_rktp64_b_tree_34()
    ensures
        q_eq(q_dot(rktp64_model().b, elementary_weights(rktp64_model().a, 34)), q(1, tree_density(34))),
{
    lemma_rktp64_shape();
    lemma_rktp64_phi_34();
    assert(q_vec_valid(rktp64_model().b));
    lemma_q_dot_congruent(rktp64_model().b, elementary_weights(rktp64_model().a, 34), seq![q(0, 1), q(0, 1), q(0, 1), q(0, 1), q(1943, 774144), q(135160, 19792773), q(52, 1891)]);
    assert(rktp64_model().b == seq![q(131, 1800), q(0, 1), q(1121931, 3902080), q(319333, 1682928), q(262144, 2477325), q(4084223, 15177600), q(1891, 25200)]);
    lemma_rktp64_sum_168();
    assert(q_eq(q_dot(rktp64_model().b, seq![q(0, 1), q(0, 1), q(0, 1), q(0, 1), q(1943, 774144), q(135160, 19792773), q(52, 1891)]), q(1, 240)));
    lemma_q_eq_trans(q_dot(rktp64_model().b, elementary_weights(rktp64_model().a, 34)), q_dot(rktp64_model().b, seq![q(0, 1), q(0, 1), q(0, 1), q(0, 1), q(1943, 774144), q(135160, 19792773), q(52, 1891)]), q(1, 240));
}

proof fn lemma_rktp64_b_tree_35()
    ensures
        q_eq(q_dot(rktp64_model().b, elementary_weights(rktp64_model().a, 35)), q(1, tree_density(35))),
{
    lemma_rktp64_shape();
    lemma_rktp64_phi_35();
    assert(q_vec_valid(rktp64_model().b));
    lemma_q_dot_congruent(rktp64_model().b, elementary_weights(rktp64_model().a, 35), seq![q(0, 1), q(0, 1), q(0, 1), q(0, 1), q(1943, 1161216), q(270320, 59378319), q(104, 5673)]);
    assert(rktp64_model().b == seq![q(131, 1800), q(0, 1), q(1121931, 3902080), q(319333, 1682928), q(262144, 2477325), q(4084223, 15177600), q(1891, 25200)]);
    lemma_rktp64_sum_169();
    assert(q_eq(q_dot(rktp64_model().b, seq![q(0, 1), q(0, 1), q(0, 1), q(0, 1), q(1943, 1161216), q(270320, 59378319), q(104, 5673)]), q(1, 360)));
    lemma_q_eq_trans(q_dot(rktp64_model().b, elementary_weights(rktp64_model().a, 35)), q_dot(rktp64_model().b, seq![q(0, 1), q(0, 1), q(0, 1), q(0, 1), q(1943, 1161216), q(270320, 59378319), q(104, 5673)]), q(1, 360));
}

proof fn lemma_rktp64_b_tree_36()
    ensures
        q_eq(q_dot(rktp64_model().b, elementary_weights(rktp64_model().a, 36)), q(1, tree_density(36))),
{
    lemma_rktp64_shape();
    lemma_rktp64_phi_36();
    assert(q_vec_valid(rktp64_model().b));
    lemma_q_dot_congruent(rktp64_model().b, elementary_weights(rktp64_model().a, 36), seq![q(0, 1), q(0, 1), q(0, 1), q(0, 1), q(0, 1), q(21080, 6597591), q(40, 5673)]);
    assert(rktp64_model().b == seq![q(131, 1800), q(0, 1), q(1121931, 3902080), q(319333, 1682928), q(262144, 2477325), q(4084223, 15177600), q(1891, 25200)]);
    lemma_rktp64_sum_170();
    assert(q_eq(q_dot(rktp64_model().b, seq![q(0, 1), q(0, 1), q(0, 1), q(0, 1), q(0, 1), q(21080, 6597591), q(40, 5673)]), q(1, 720)));
    lemma_q_eq_trans(q_dot(rktp64_model().b, elementary_weights(rktp64_model().a, 36)), q_dot(rktp64_model().b, seq![q(0, 1), q(0, 1), q(0, 1), q(0, 1), q(0, 1), q(21080, 6597591), q(40, 5673)]), q(1, 720));
}

proof fn lemma_rktp64_b2_tree_0()
    ensures
        q_eq(q_dot(rktp64_model().b2, elementary_weights(rktp64_model().a, 0)), q(1, tree_density(0))),
{
    lemma_rktp64_shape();
    lemma_rktp64_phi_0();
    assert(q_vec_valid(rktp64_model().b2));
    lemma_q_dot_congruent(rktp64_model().b2, elementary_weights(rktp64_model().a, 0), seq![q(1, 1), q(1, 1), q(1, 1), q(1, 1), q(1, 1), q(1, 1), q(1, 1)]);
    assert(rktp64_model().b2 == seq![q(2694253, 26100360), q(0, 1), q(83647323, 535804360), q(691202281, 1789061040), q(-1275547648, 10565208225), q(2, 5), q(1891, 25200)]);
    lemma_rktp64_sum_171();
    assert(q_eq(q_dot(rktp64_model().b2, seq![q(1, 1), q(1, 1), q(1, 1), q(1, 1), q(1, 1), q(1, 1), q(1, 1)]), q(1, 1)));
    lemma_q_eq_trans(q_dot(rktp64_model().b2, elementary_weights(rktp64_model().a, 0)), q_dot(rktp64_model().b2, seq![q(1, 1), q(1, 1), q(1, 1), q(1, 1), q(1, 1), q(1, 1), q(1, 1)]), q(1, 1));
}

proof fn lemma_rktp64_b2_tree_1()
    ensures
        q_eq(q_dot(rktp64_model().b2, elementary_weights(rktp64_model().a, 1)), q(1, tree_density(1))),
{
    lemma_rktp64_shape();
    lemma_rktp64_phi_1();
    assert(q_vec_valid(rktp64_model().b2));
    lemma_q_dot_congruent(rktp64_model().b2, elementary_weights(rktp64_model().a, 1), seq![q(0, 1), q(4, 27), q(2, 9), q(3, 7), q(11, 16), q(10, 13), q(1, 1)]);
    assert(rktp64_model().b2 == seq![q(2694253, 26100360), q(0, 1), q(83647323, 535804360), q(691202281, 1789061040), q(-1275547648, 10565208225), q(2, 5), q(1891, 25200)]);
    lemma_rktp64_sum_172();
    assert(q_eq(q_dot(rktp64_model().b2, seq![q(0, 1), q(4, 27), q(2, 9), q(3, 7), q(11, 16), q(10, 13), q(1, 1)]), q(1, 2)));
    lemma_q_eq_trans(q_dot(rktp64_model().b2, elementary_weights(rktp64_model().a, 1)), q_dot(rktp64_model().b2, seq![q(0, 1), q(4, 27), q(2, 9), q(3, 7), q(11, 16), q(10, 13), q(1, 1)]), q(1, 2));
}

proof fn lemma_rktp64_b2_tree_2()
    ensures
        q_eq(q_dot(rktp64_model().b2, elementary_weights(rktp64_model().a, 2)), q(1, tree_density(2))),
{
    lemma_rktp64_shape();
    lemma_rktp64_phi_2();
    assert(q_vec_valid(rktp64_model().b2));
    lemma_q_dot_congruent(rktp64_model().b2, elementary_weights(rktp64_model().a, 2), seq![q(0, 1), q(16, 729), q(4, 81), q(9, 49), q(121, 256), q(100, 169), q(1, 1)]);
    assert(rktp64_model().b2 == seq![q(2694253, 26100360), q(0, 1), q(83647323, 535804360), q(691202281, 1789061040), q(-1275547648, 10565208225), q(2, 5), q(1891, 25200)]);
    lemma_rktp64_sum_173();
    assert(q_eq(q_dot(rktp64_model().b2, seq![q(0, 1), q(16, 729), q(4, 81), q(9, 49), q(121, 256), q(100, 169), q(1, 1)]), q(1, 3)));
    lemma_q_eq_trans(q_dot(rktp64_model().b2, elementary_weights(rktp64_model().a, 2)), q_dot(rktp64_model().b2, seq![q(0, 1), q(16, 729), q(4, 81), q(9, 49), q(121, 256), q(100, 169), q(1, 1)]), q(1, 3));
}

proof fn lemma_rktp64_b2_tree_3()
    ensures
        q_eq(q_dot(rktp64_model().b2, elementary_weights(rktp64_model().a, 3)), q(1, tree_density(3))),
{
    lemma_rktp64_shape();
    lemma_rktp64_phi_3();
    assert(q_vec_valid(rktp64_model().b2));
    lemma_q_dot_congruent(rktp64_model().b2, elementary_weights(rktp64_model().a, 3), seq![q(0, 1), q(0, 1), q(2, 81), q(9, 98), q(121, 512), q(50, 169), q(1, 2)]);
    assert(rktp64_model().b2 == seq![q(2694253, 26100360), q(0, 1), q(83647323, 535804360), q(691202281, 1789061040), q(-1275547648, 10565208225), q(2, 5), q(1891, 25200)]);
    lemma_rktp64_sum_174();
    assert(q_eq(q_dot(rktp64_model().b2, seq![q(0, 1), q(0, 1), q(2, 81), q(9, 98), q(121, 512), q(50, 169), q(1, 2)]), q(1, 6)));
    lemma_q_eq_trans(q_dot(rktp64_model().b2, elementary_weights(rktp64_model().a, 3)), q_dot(rktp64_model().b2, seq![q(0, 1), q(0, 1), q(2, 81), q(9, 98), q(121, 512), q(50, 169), q(1, 2)]), q(1, 6));
}

proof fn lemma_rktp64_b2_tree_4()
    ensures
        q_eq(q_dot(rktp64_model().b2, elementary_weights(rktp64_model().a, 4)), q(1, tree_density(4))),
{
    lemma_rktp64_shape();
    lemma_rktp64_phi_4();
    assert(q_vec_valid(rktp64_model().b2));
    lemma_q_dot_congruent(rktp64_model().b2, elementary_weights(rktp64_model().a, 4), seq![q(0, 1), q(64, 19683), q(8, 729), q(27, 343), q(1331, 4096), q(1000, 2197), q(1, 1)]);
    assert(rktp64_model().b2 == seq![q(2694253, 26100360), q(0, 1), q(83647323, 535804360), q(691202281, 1789061040), q(-1275547648, 10565208225), q(2, 5), q(1891, 25200)]);
    lemma_rktp64_sum_175();
    assert(q_eq(q_dot(rktp64_model().b2, seq![q(0, 1), q(64, 19683), q(8, 729), q(27, 343), q(1331, 4096), q(1000, 2197), q(1, 1)]), q(1, 4)));
    lemma_q_eq_trans(q_dot(rktp64_model().b2, elementary_weights(rktp64_model().a, 4)), q_dot(rktp64_model().b2, seq![q(0, 1), q(64, 19683), q(8, 729), q(27, 343), q(1331, 4096), q(1000, 2197), q(1, 1)]), q(1, 4));
}

proof fn lemma_rktp64_b2_tree_5()
    ensures
        q_eq(q_dot(rktp64_model().b2, elementary_weights(rktp64_model().a, 5)), q(1, tree_density(5))),
{
    lemma_rktp64_shape();
    lemma_rktp64_phi_5();
    assert(q_vec_valid(rktp64_model().b2));
    lemma_q_dot_congruent(rktp64_model().b2, elementary_weights(rktp64_model().a, 5), seq![q(0, 1), q(0, 1), q(4, 729), q(27, 686), q(1331, 8192), q(500, 2197), q(1, 2)]);
    assert(rktp64_model().b2 == seq![q(2694253, 26100360), q(0, 1), q(83647323, 535804360), q(691202281, 1789061040), q(-1275547648, 10565208225), q(2, 5), q(1891, 25200)]);
    lemma_rktp64_sum_176();
    assert(q_eq(q_dot(rktp64_model().b2, seq![q(0, 1), q(0, 1), q(4, 729), q(27, 686), q(1331, 8192), q(500, 2197), q(1, 2)]), q(1, 8)));
    lemma_q_eq_trans(q_dot(rktp64_model().b2, elementary_weights(rktp64_model().a, 5)), q_dot(rktp64_model().b2, seq![q(0, 1), q(0, 1), q(4, 729), q(27, 686), q(1331, 8192), q(500, 2197), q(1, 2)]), q(1, 8));
}

proof fn lemma_rktp64_b2_tree_6()
    ensures
        q_eq(q_dot(rktp64_model().b2, elementary_weights(rktp64_model().a, 6)), q(1, tree_density(6))),
{
    lemma_rktp64_shape();
    lemma_rktp64_phi_6();
    assert(q_vec_valid(rktp64_model().b2));
    lemma_q_dot_congruent(rktp64_model().b2, elementary_weights(rktp64_model().a, 6), seq![q(0, 1), q(0, 1), q(8, 2187), q(9, 343), q(1331, 12288), q(1000, 6591), q(1, 3)]);
    assert(rktp64_model().b2 == seq![q(2694253, 26100360), q(0, 1), q(83647323, 535804360), q(691202281, 1789061040), q(-1275547648, 10565208225), q(2, 5), q(1891, 25200)]);
    lemma_rktp64_sum_177();
    assert(q_eq(q_dot(rktp64_model().b2, seq![q(0, 1), q(0, 1), q(8, 2187), q(9, 343), q(1331, 12288), q(1000, 6591), q(1, 3)]), q(1, 12)));
    lemma_q_eq_trans(q_dot(rktp64_model().b2, elementary_weights(rktp64_model().a, 6)), q_dot(rktp64_model().b2, seq![q(0, 1), q(0, 1), q(8, 2187), q(9, 343), q(1331, 12288), q(1000, 6591), q(1, 3)]), q(1, 12));
}

proof fn lemma_rktp64_b2_tree_7()
    ensures
        q_eq(q_dot(rktp64_model().b2, elementary_weights(rktp64_model().a, 7)), q(1, tree_density(7))),
{
    lemma_rktp64_shape();
    lemma_rktp64_phi_7();
    assert(q_vec_valid(rktp64_model().b2));
    lemma_q_dot_congruent(rktp64_model().b2, elementary_weights(rktp64_model().a, 7), seq![q(0, 1), q(0, 1), q(0, 1), q(13, 686), q(469, 8192), q(5120, 72501), q(1967, 11346)]);
    assert(rktp64_model().b2 == seq![q(2694253, 26100360), q(0, 1), q(83647323, 535804360), q(691202281, 1789061040), q(-1275547648, 10565208225), q(2, 5), q(1891, 25200)]);
    lemma_rktp64_sum_178();
    assert(q_eq(q_dot(rktp64_model().b2, seq![q(0, 1), q(0, 1), q(0, 1), q(13, 686), q(469, 8192), q(5120, 72501), q(1967, 11346)]), q(1, 24)));
    lemma_q_eq_trans(q_dot(rktp64_model().b2, elementary_weights(rktp64_model().a, 7)), q_dot(rktp64_model().b2, seq![q(0, 1), q(0, 1), q(0, 1), q(13, 686), q(469, 8192), q(5120, 72501), q(1967, 11346)]), q(1, 24));
}

pub(crate) proof fn lemma_rktp64_laws()
    ensures
        table_laws(rktp64_model(), 7, 5, 6, 4),
{
    let m = rktp64_model();
    lemma_rktp64_shape();
    lemma_rktp64_rows();
    assert forall|k: int| 0 <= k < num_trees() && tree_order(k) <= 6 implies q_eq(q_dot(m.b, #[trigger] elementary_weights(m.a, k)), q(1, tree_density(k))) by {
        if k == 0 {
            lemma_rktp64_b_tree_0();
        } else if k == 1 {
            lemma_rktp64_b_tree_1();
        } else if k == 2 {
            lemma_rktp64_b_tree_2();
        } else if k == 3 {
            lemma_rktp64_b_tree_3();
        } else if k == 4 {
            lemma_rktp64_b_tree_4();
        } else if k == 5 {
            lemma_rktp64_b_tree_5();
        } else if k == 6 {
            lemma_rktp64_b_tree_6();
        } else if k == 7 {
            lemma_rktp64_b_tree_7();
        } else if k == 8 {
            lemma_rktp64_b_tree_8();
        } else if k == 9 {
            lemma_rktp64_b_tree_9();
        } else if k == 10 {
            lemma_rktp64_b_tree_10();
        } else if k == 11 {
            lemma_rktp64_b_tree_11();
        } else if k == 12 {
            lemma_rktp64_b_tree_12();
        } else if k == 13 {
            lemma_rktp64_b_tree_13();
        } else if k == 14 {
            lemma_rktp64_b_tree_14();
        } else if k == 15 {
            lemma_rktp64_b_tree_15();
        } else if k == 16 {
            lemma_rktp64_b_tree_16();
        } else if k == 17 {
            lemma_rktp64_b_tree_17();
        } else if k == 18 {
            lemma_rktp64_b_tree_18();
        } else if k == 19 {
            lemma_rktp64_b_tree_19();
        } else if k == 20 {
            lemma_rktp64_b_tree_20();
        } else if k == 21 {
            lemma_rktp64_b_tree_21();
        } else if k == 22 {
            lemma_rktp64_b_tree_22();
        } else if k == 23 {
            lemma_rktp64_b_tree_23();
        } else if k == 24 {
            lemma_rktp64_b_tree_24();
        } else if k == 25 {
            lemma_rktp64_b_tree_25();
        } else if k == 26 {
            lemma_rktp64_b_tree_26();
        } else if k == 27 {
            lemma_rktp64_b_tree_27();
        } else if k == 28 {
            lemma_rktp64_b_tree_28();
        } else if k == 29 {
            lemma_rktp64_b_tree_29();
        } else if k == 30 {
            lemma_rktp64_b_tree_30();
        } else if k == 31 {
            lemma_rktp64_b_tree_31();
        } else if k == 32 {
            lemma_rktp64_b_tree_32();
        } else if k == 33 {
            lemma_rktp64_b_tree_33();
        } else if k == 34 {
            lemma_rktp64_b_tree_34();
        } else if k == 35 {
            lemma_rktp64_b_tree_35();
        } else if k == 36 {
            lemma_rktp64_b_tree_36();
        }
    }
    assert forall|k: int| 0 <= k < num_trees() && tree_order(k) <= 4 implies q_eq(q_dot(m.b2, #[trigger] elementary_weights(m.a, k)), q(1, tree_density(k))) by {
        if k == 0 {
            lemma_rktp64_b2_tree_0();
        } else if k == 1 {
            lemma_rktp64_b2_tree_1();
        } else if k == 2 {
            lemma_rktp64_b2_tree_2();
        } else if k == 3 {
            lemma_rktp64_b2_tree_3();
        } else if k == 4 {
            lemma_rktp64_b2_tree_4();
        } else if k == 5 {
            lemma_rktp64_b2_tree_5();
        } else if k == 6 {
            lemma_rktp64_b2_tree_6();
        } else if k == 7 {
            lemma_rktp64_b2_tree_7();
        }
    }
}

proof fn lemma_rk43_dense_sum_1()
    ensures
        q_eq(q_dot(seq![q(0, 1), q(0, 1), q(0, 1), q(0, 1), q(0, 1)], seq![q(1, 1), q(1, 1), q(1, 1), q(1, 1), q(1, 1)]), q(0, 1)),
        q_valid(q_dot(seq![q(0, 1), q(0, 1), q(0, 1), q(0, 1), q(0, 1)], seq![q(1, 1), q(1, 1), q(1, 1), q(1, 1), q(1, 1)])),
{
    let x = seq![q(0, 1), q(0, 1), q(0, 1), q(0, 1), q(0, 1)];
    let y = seq![q(1, 1), q(1, 1), q(1, 1), q(1, 1), q(1, 1)];
    let s = q_hadamard(x, y);
    assert(s.len() == 5);
    lemma_q_hadamard_entry(x, y, 0, 0, 1, 1, 1);
    lemma_q_hadamard_entry(x, y, 1, 0, 1, 1, 1);
    lemma_q_hadamard_entry(x, y, 2, 0, 1, 1, 1);
    lemma_q_hadamard_entry(x, y, 3, 0, 1, 1, 1);
    lemma_q_hadamard_entry(x, y, 4, 0, 1, 1, 1);
    assert(q_sum_to(s, 0) == q(0, 1));
    lemma_q_eq_value(0, 1, 0, 1);
    lemma_q_sum_step(s, 0, 0, 1, 0, 1, 0, 1);
    lemma_q_sum_step(s, 1, 0, 1, 0, 1, 0, 1);
    lemma_q_sum_step(s, 2, 0, 1, 0, 1, 0, 1);
    lemma_q_sum_step(s, 3, 0, 1, 0, 1, 0, 1);
    lemma_q_sum_step(s, 4, 0, 1, 0, 1, 0, 1);
}

proof fn lemma_rk43_dense_0_0()
    ensures
        q_eq(q_dot(bi_column(rk43_model(), 0), elementary_weights(rk43_model().a, 0)), q(0, 1)),
{
    let m = rk43_model();
    lemma_rk43_shape();
    lemma_rk43_phi_0();
    assert(bi_column(m, 0) =~= seq![q(0, 1), q(0, 1), q(0, 1), q(0, 1), q(0, 1)]);
    lemma_q_dot_congruent(bi_column(m, 0), elementary_weights(m.a, 0), seq![q(1, 1), q(1, 1), q(1, 1), q(1, 1), q(1, 1)]);
    lemma_rk43_dense_sum_1();
    lemma_q_eq_value(0, 1, 0, 1);
    lemma_q_eq_trans(q_dot(bi_column(m, 0), elementary_weights(m.a, 0)), q_dot(seq![q(0, 1), q(0, 1), q(0, 1), q(0, 1), q(0, 1)], seq![q(1, 1), q(1, 1), q(1, 1), q(1, 1), q(1, 1)]), q(0, 1));
}

proof fn lemma_rk43_dense_sum_2()
    ensures
        q_eq(q_dot(seq![q(1, 1), q(0, 1), q(0, 1), q(0, 1), q(0, 1)], seq![q(1, 1), q(1, 1), q(1, 1), q(1, 1), q(1, 1)]), q(1, 1)),
        q_valid(q_dot(seq![q(1, 1), q(0, 1), q(0, 1), q(0, 1), q(0, 1)], seq![q(1, 1), q(1, 1), q(1, 1), q(1, 1), q(1, 1)])),
{
    let x = seq![q(1, 1), q(0, 1), q(0, 1), q(0, 1), q(0, 1)];
    let y = seq![q(1, 1), q(1, 1), q(1, 1), q(1, 1), q(1, 1)];
    let s = q_hadamard(x, y);
    assert(s.len() == 5);
    lemma_q_hadamard_entry(x, y, 0, 1, 1, 1, 1);
    lemma_q_hadamard_entry(x, y, 1, 0, 1, 1, 1);
    lemma_q_hadamard_entry(x, y, 2, 0, 1, 1, 1);
    lemma_q_hadamard_entry(x, y, 3, 0, 1, 1, 1);
    lemma_q_hadamard_entry(x, y, 4, 0, 1, 1, 1);
    assert(q_sum_to(s, 0) == q(0, 1));
    lemma_q_eq_value(0, 1, 0, 1);
    lemma_q_sum_step(s, 0, 0, 1, 1, 1, 1, 1);
    lemma_q_sum_step(s, 1, 1, 1, 0, 1, 1, 1);
    lemma_q_sum_step(s, 2, 1, 1, 0, 1, 1, 1);
    lemma_q_sum_step(s, 3, 1, 1, 0, 1, 1, 1);
    lemma_q_sum_step(s, 4, 1, 1, 0, 1, 1, 1);
}

proof fn lemma_rk43_dense_0_1()
    ensures
        q_eq(q_dot(bi_column(rk43_model(), 1), elementary_weights(rk43_model().a, 0)), q(1, 1)),
{
    let m = rk43_model();
    lemma_rk43_shape();
    lemma_rk43_phi_0();
    assert(bi_column(m, 1) =~= seq![q(1, 1), q(0, 1), q(0, 1), q(0, 1), q(0, 1)]);
    lemma_q_dot_congruent(bi_column(m, 1), elementary_weights(m.a, 0), seq![q(1, 1), q(1, 1), q(1, 1), q(1, 1), q(1, 1)]);
    lemma_rk43_dense_sum_2();
    lemma_q_eq_value(1, 1, 1, 1);
    lemma_q_eq_trans(q_dot(bi_column(m, 1), elementary_weights(m.a, 0)), q_dot(seq![q(1, 1), q(0, 1), q(0, 1), q(0, 1), q(0, 1)], seq![q(1, 1), q(1, 1), q(1, 1), q(1, 1), q(1, 1)]), q(1, 1));
}

proof fn lemma_rk43_dense_sum_3()
    ensures
        q_eq(q_dot(seq![q(-3, 2), q(1, 1), q(1, 1), q(-1, 2), q(0, 1)], seq![q(1, 1), q(1, 1), q(1, 1), q(1, 1), q(1, 1)]), q(0, 1)),
        q_valid(q_dot(seq![q(-3, 2), q(1, 1), q(1, 1), q(-1, 2), q(0, 1)], seq![q(1, 1), q(1, 1), q(1, 1), q(1, 1), q(1, 1)])),
{
    let x = seq![q(-3, 2), q(1, 1), q(1, 1), q(-1, 2), q(0, 1)];
    let y = seq![q(1, 1), q(1, 1), q(1, 1), q(1, 1), q(1, 1)];
    let s = q_hadamard(x, y);
    assert(s.len() == 5);
    lemma_q_hadamard_entry(x, y, 0, -3, 2, 1, 1);
    lemma_q_hadamard_entry(x, y, 1, 1, 1, 1, 1);
    lemma_q_hadamard_entry(x, y, 2, 1, 1, 1, 1);
    lemma_q_hadamard_entry(x, y, 3, -1, 2, 1, 1);
    lemma_q_hadamard_entry(x, y, 4, 0, 1, 1, 1);
    assert(q_sum_to(s, 0) == q(0, 1));
    lemma_q_eq_value(0, 1, 0, 1);
    lemma_q_sum_step(s, 0, 0, 1, -3, 2, -3, 2);
    lemma_q_sum_step(s, 1, -3, 2, 1, 1, -1, 2);
    lemma_q_sum_step(s, 2, -1, 2, 1, 1, 1, 2);
    lemma_q_sum_step(s, 3, 1, 2, -1, 2, 0, 1);
    lemma_q_sum_step(s, 4, 0, 1, 0, 1, 0, 1);
}

proof fn lemma_rk43_dense_0_2()
    ensures
        q_eq(q_dot(bi_column(rk43_model(), 2), elementary_weights(rk43_model().a, 0)), q(0, 1)),
{
    let m = rk43_model();
    lemma_rk43_shape();
    lemma_rk43_phi_0();
    assert(bi_column(m, 2) =~= seq![q(-3, 2), q(1, 1), q(1, 1), q(-1, 2), q(0, 1)]);
    lemma_q_dot_congruent(bi_column(m, 2), elementary_weights(m.a, 0), seq![q(1, 1), q(1, 1), q(1, 1), q(1, 1), q(1, 1)]);
    lemma_rk43_dense_sum_3();
    lemma_q_eq_value(0, 1, 0, 1);
    lemma_q_eq_trans(q_dot(bi_column(m, 2), elementary_weights(m.a, 0)), q_dot(seq![q(-3, 2), q(1, 1), q(1, 1), q(-1, 2), q(0, 1)], seq![q(1, 1), q(1, 1), q(1, 1), q(1, 1), q(1, 1)]), q(0, 1));
}

proof fn lemma_rk43_dense_sum_4()
    ensures
        q_eq(q_dot(seq![q(2, 3), q(-2, 3), q(-2, 3), q(2, 3), q(0, 1)], seq![q(1, 1), q(1, 1), q(1, 1), q(1, 1), q(1, 1)]), q(0, 1)),
        q_valid(q_dot(seq![q(2, 3), q(-2, 3), q(-2, 3), q(2, 3), q(0, 1)], seq![q(1, 1), q(1, 1), q(1, 1), q(1, 1), q(1, 1)])),
{
    let x = seq![q(2, 3), q(-2, 3), q(-2, 3), q(2, 3), q(0, 1)];
    let y = seq![q(1, 1), q(1, 1), q(1, 1), q(1, 1), q(1, 1)];
    let s = q_hadamard(x, y);
    assert(s.len() == 5);
    lemma_q_hadamard_entry(x, y, 0, 2, 3, 1, 1);
    lemma_q_hadamard_entry(x, y, 1, -2, 3, 1, 1);
    lemma_q_hadamard_entry(x, y, 2, -2, 3, 1, 1);
    lemma_q_hadamard_entry(x, y, 3, 2, 3, 1, 1);
    lemma_q_hadamard_entry(x, y, 4, 0, 1, 1, 1);
    assert(q_sum_to(s, 0) == q(0, 1));
    lemma_q_eq_value(0, 1, 0, 1);
    lemma_q_sum_step(s, 0, 0, 1, 2, 3, 2, 3);
    lemma_q_sum_step(s, 1, 2, 3, -2, 3, 0, 1);
    lemma_q_sum_step(s, 2, 0, 1, -2, 3, -2, 3);
    lemma_q_sum_step(s, 3, -2, 3, 2, 3, 0, 1);
    lemma_q_sum_step(s, 4, 0, 1, 0, 1, 0, 1);
}

proof fn lemma_rk43_dense_0_3()
    ensures
        q_eq(q_dot(bi_column(rk43_model(), 3), elementary_weights(rk43_model().a, 0)), q(0, 1)),
{
    let m = rk43_model();
    lemma_rk43_shape();
    lemma_rk43_phi_0();
    assert(bi_column(m, 3) =~= seq![q(2, 3), q(-2, 3), q(-2, 3), q(2, 3), q(0, 1)]);
    lemma_q_dot_congruent(bi_column(m, 3), elementary_weights(m.a, 0), seq![q(1, 1), q(1, 1), q(1, 1), q(1, 1), q(1, 1)]);
    lemma_rk43_dense_sum_4();
    lemma_q_eq_value(0, 1, 0, 1);
    lemma_q_eq_trans(q_dot(bi_column(m, 3), elementary_weights(m.a, 0)), q_dot(seq![q(2, 3), q(-2, 3), q(-2, 3), q(2, 3), q(0, 1)], seq![q(1, 1), q(1, 1), q(1, 1), q(1, 1), q(1, 1)]), q(0, 1));
}

proof fn lemma_rk43_dense_sum_5()
    ensures
        q_eq(q_dot(seq![q(0, 1), q(0, 1), q(0, 1), q(0, 1), q(0, 1)], seq![q(0, 1), q(1, 2), q(1, 2), q(1, 1), q(3, 4)]), q(0, 1)),
        q_valid(q_dot(seq![q(0, 1), q(0, 1), q(0, 1), q(0, 1), q(0, 1)], seq![q(0, 1), q(1, 2), q(1, 2), q(1, 1), q(3, 4)])),
{
    let x = seq![q(0, 1), q(0, 1), q(0, 1), q(0, 1), q(0, 1)];
    let y = seq![q(0, 1), q(1, 2), q(1, 2), q(1, 1), q(3, 4)];
    let s = q_hadamard(x, y);
    assert(s.len() == 5);
    lemma_q_hadamard_entry(x, y, 0, 0, 1, 0, 1);
    lemma_q_hadamard_entry(x, y, 1, 0, 1, 1, 2);
    lemma_q_hadamard_entry(x, y, 2, 0, 1, 1, 2);
    lemma_q_hadamard_entry(x, y, 3, 0, 1, 1, 1);
    lemma_q_hadamard_entry(x, y, 4, 0, 1, 3, 4);
    assert(q_sum_to(s, 0) == q(0, 1));
    lemma_q_eq_value(0, 1, 0, 1);
    lemma_q_sum_step(s, 0, 0, 1, 0, 1, 0, 1);
    lemma_q_sum_step(s, 1, 0, 1, 0, 2, 0, 1);
    lemma_q_sum_step(s, 2, 0, 1, 0, 2, 0, 1);
    lemma_q_sum_step(s, 3, 0, 1, 0, 1, 0, 1);
    lemma_q_sum_step(s, 4, 0, 1, 0, 4, 0, 1);
}

proof fn lemma_rk43_dense_1_0()
    ensures
        q_eq(q_dot(bi_column(rk43_model(), 0), elementary_weights(rk43_model().a, 1)), q(0, 1)),
{
    let m = rk43_model();
    lemma_rk43_shape();
    lemma_rk43_phi_1();
    assert(bi_column(m, 0) =~= seq![q(0, 1), q(0, 1), q(0, 1), q(0, 1), q(0, 1)]);
    lemma_q_dot_congruent(bi_column(m, 0), elementary_weights(m.a, 1), seq![q(0, 1), q(1, 2), q(1, 2), q(1, 1), q(3, 4)]);
    lemma_rk43_dense_sum_5();
    lemma_q_eq_value(0, 1, 0, 1);
    lemma_q_eq_trans(q_dot(bi_column(m, 0), elementary_weights(m.a, 1)), q_dot(seq![q(0, 1), q(0, 1), q(0, 1), q(0, 1), q(0, 1)], seq![q(0, 1), q(1, 2), q(1, 2), q(1, 1), q(3, 4)]), q(0, 1));
}

proof fn lemma_rk43_dense_sum_6()
    ensures
        q_eq(q_dot(seq![q(1, 1), q(0, 1), q(0, 1), q(0, 1), q(0, 1)], seq![q(0, 1), q(1, 2), q(1, 2), q(1, 1), q(3, 4)]), q(0, 1)),
        q_valid(q_dot(seq![q(1, 1), q(0, 1), q(0, 1), q(0, 1), q(0, 1)], seq![q(0, 1), q(1, 2), q(1, 2), q(1, 1), q(3, 4)])),
{
    let x = seq![q(1, 1), q(0, 1), q(0, 1), q(0, 1), q(0, 1)];
    let y = seq![q(0, 1), q(1, 2), q(1, 2), q(1, 1), q(3, 4)];
    let s = q_hadamard(x, y);
    assert(s.len() == 5);
    lemma_q_hadamard_entry(x, y, 0, 1, 1, 0, 1);
    lemma_q_hadamard_entry(x, y, 1, 0, 1, 1, 2);
    lemma_q_hadamard_entry(x, y, 2, 0, 1, 1, 2);
    lemma_q_hadamard_entry(x, y, 3, 0, 1, 1, 1);
    lemma_q_hadamard_entry(x, y, 4, 0, 1, 3, 4);
    assert(q_sum_to(s, 0) == q(0, 1));
    lemma_q_eq_value(0, 1, 0, 1);
    lemma_q_sum_step(s, 0, 0, 1, 0, 1, 0, 1);
    lemma_q_sum_step(s, 1, 0, 1, 0, 2, 0, 1);
    lemma_q_sum_step(s, 2, 0, 1, 0, 2, 0, 1);
    lemma_q_sum_step(s, 3, 0, 1, 0, 1, 0, 1);
    lemma_q_sum_step(s, 4, 0, 1, 0, 4, 0, 1);
}

proof fn lemma_rk43_dense_1_1()
    ensures
        q_eq(q_dot(bi_column(rk43_model(), 1), elementary_weights(rk43_model().a, 1)), q(0, 1)),
{
    let m = rk43_model();
    lemma_rk43_shape();
    lemma_rk43_phi_1();
    assert(bi_column(m, 1) =~= seq![q(1, 1), q(0, 1), q(0, 1), q(0, 1), q(0, 1)]);
    lemma_q_dot_congruent(bi_column(m, 1), elementary_weights(m.a, 1), seq![q(0, 1), q(1, 2), q(1, 2), q(1, 1), q(3, 4)]);
    lemma_rk43_dense_sum_6();
    lemma_q_eq_value(0, 1, 0, 1);
    lemma_q_eq_trans(q_dot(bi_column(m, 1), elementary_weights(m.a, 1)), q_dot(seq![q(1, 1), q(0, 1), q(0, 1), q(0, 1), q(0, 1)], seq![q(0, 1), q(1, 2), q(1, 2), q(1, 1), q(3, 4)]), q(0, 1));
}

proof fn lemma_rk43_dense_sum_7()
    ensures
        q_eq(q_dot(seq![q(-3, 2), q(1, 1), q(1, 1), q(-1, 2), q(0, 1)], seq![q(0, 1), q(1, 2), q(1, 2), q(1, 1), q(3, 4)]), q(1, 2)),
        q_valid(q_dot(seq![q(-3, 2), q(1, 1), q(1, 1), q(-1, 2), q(0, 1)], seq![q(0, 1), q(1, 2), q(1, 2), q(1, 1), q(3, 4)])),
{
    let x = seq![q(-3, 2), q(1, 1), q(1, 1), q(-1, 2), q(0, 1)];
    let y = seq![q(0, 1), q(1, 2), q(1, 2), q(1, 1), q(3, 4)];
    let s = q_hadamard(x, y);
    assert(s.len() == 5);
    lemma_q_hadamard_entry(x, y, 0, -3, 2, 0, 1);
    lemma_q_hadamard_entry(x, y, 1, 1, 1, 1, 2);
    lemma_q_hadamard_entry(x, y, 2, 1, 1, 1, 2);
    lemma_q_hadamard_entry(x, y, 3, -1, 2, 1, 1);
    lemma_q_hadamard_entry(x, y, 4, 0, 1, 3, 4);
    assert(q_sum_to(s, 0) == q(0, 1));
    lemma_q_eq_value(0, 1, 0, 1);
    lemma_q_sum_step(s, 0, 0, 1, 0, 2, 0, 1);
    lemma_q_sum_step(s, 1, 0, 1, 1, 2, 1, 2);
    lemma_q_sum_step(s, 2, 1, 2, 1, 2, 1, 1);
    lemma_q_sum_step(s, 3, 1, 1, -1, 2, 1, 2);
    lemma_q_sum_step(s, 4, 1, 2, 0, 4, 1, 2);
}

proof fn lemma_rk43_dense_1_2()
    ensures
        q_eq(q_dot(bi_column(rk43_model(), 2), elementary_weights(rk43_model().a, 1)), q(1, 2)),
{
    let m = rk43_model();
    lemma_rk43_shape();
    lemma_rk43_phi_1();
    assert(bi_column(m, 2) =~= seq![q(-3, 2), q(1, 1), q(1, 1), q(-1, 2), q(0, 1)]);
    lemma_q_dot_congruent(bi_column(m, 2), elementary_weights(m.a, 1), seq![q(0, 1), q(1, 2), q(1, 2), q(1, 1), q(3, 4)]);
    lemma_rk43_dense_sum_7();
    lemma_q_eq_value(1, 2, 1, 2);
    lemma_q_eq_trans(q_dot(bi_column(m, 2), elementary_weights(m.a, 1)), q_dot(seq![q(-3, 2), q(1, 1), q(1, 1), q(-1, 2), q(0, 1)], seq![q(0, 1), q(1, 2), q(1, 2), q(1, 1), q(3, 4)]), q(1, 2));
}

proof fn lemma_rk43_dense_sum_8()
    ensures
        q_eq(q_dot(seq![q(2, 3), q(-2, 3), q(-2, 3), q(2, 3), q(0, 1)], seq![q(0, 1), q(1, 2), q(1, 2), q(1, 1), q(3, 4)]), q(0, 1)),
        q_valid(q_dot(seq![q(2, 3), q(-2, 3), q(-2, 3), q(2, 3), q(0, 1)], seq![q(0, 1), q(1, 2), q(1, 2), q(1, 1), q(3, 4)])),
{
    let x = seq![q(2, 3), q(-2, 3), q(-2, 3), q(2, 3), q(0, 1)];
    let y = seq![q(0, 1), q(1, 2), q(1, 2), q(1, 1), q(3, 4)];
    let s = q_hadamard(x, y);
    assert(s.len() == 5);
    lemma_q_hadamard_entry(x, y, 0, 2, 3, 0, 1);
    lemma_q_hadamard_entry(x, y, 1, -2, 3, 1, 2);
    lemma_q_hadamard_entry(x, y, 2, -2, 3, 1, 2);
    lemma_q_hadamard_entry(x, y, 3, 2, 3, 1, 1);
    lemma_q_hadamard_entry(x, y, 4, 0, 1, 3, 4);
    assert(q_sum_to(s, 0) == q(0, 1));
    lemma_q_eq_value(0, 1, 0, 1);
    lemma_q_sum_step(s, 0, 0, 1, 0, 3, 0, 1);
    lemma_q_sum_step(s, 1, 0, 1, -2, 6, -1, 3);
    lemma_q_sum_step(s, 2, -1, 3, -2, 6, -2, 3);
    lemma_q_sum_step(s, 3, -2, 3, 2, 3, 0, 1);
    lemma_q_sum_step(s, 4, 0, 1, 0, 4, 0, 1);
}

proof fn lemma_rk43_dense_1_3()
    ensures
        q_eq(q_dot(bi_column(rk43_model(), 3), elementary_weights(rk43_model().a, 1)), q(0, 1)),
{
    let m = rk43_model();
    lemma_rk43_shape();
    lemma_rk43_phi_1();
    assert(bi_column(m, 3) =~= seq![q(2, 3), q(-2, 3), q(-2, 3), q(2, 3), q(0, 1)]);
    lemma_q_dot_congruent(bi_column(m, 3), elementary_weights(m.a, 1), seq![q(0, 1), q(1, 2), q(1, 2), q(1, 1), q(3, 4)]);
    lemma_rk43_dense_sum_8();
    lemma_q_eq_value(0, 1, 0, 1);
    lemma_q_eq_trans(q_dot(bi_column(m, 3), elementary_weights(m.a, 1)), q_dot(seq![q(2, 3), q(-2, 3), q(-2, 3), q(2, 3), q(0, 1)], seq![q(0, 1), q(1, 2), q(1, 2), q(1, 1), q(3, 4)]), q(0, 1));
}

proof fn lemma_rk43_dense_sum_9()
    ensures
        q_eq(q_dot(seq![q(0, 1), q(0, 1), q(0, 1), q(0, 1), q(0, 1)], seq![q(0, 1), q(1, 4), q(1, 4), q(1, 1), q(9, 16)]), q(0, 1)),
        q_valid(q_dot(seq![q(0, 1), q(0, 1), q(0, 1), q(0, 1), q(0, 1)], seq![q(0, 1), q(1, 4), q(1, 4), q(1, 1), q(9, 16)])),
{
    let x = seq![q(0, 1), q(0, 1), q(0, 1), q(0, 1), q(0, 1)];
    let y = seq![q(0, 1), q(1, 4), q(1, 4), q(1, 1), q(9, 16)];
    let s = q_hadamard(x, y);
    assert(s.len() == 5);
    lemma_q_hadamard_entry(x, y, 0, 0, 1, 0, 1);
    lemma_q_hadamard_entry(x, y, 1, 0, 1, 1, 4);
    lemma_q_hadamard_entry(x, y, 2, 0, 1, 1, 4);
    lemma_q_hadamard_entry(x, y, 3, 0, 1, 1, 1);
    lemma_q_hadamard_entry(x, y, 4, 0, 1, 9, 16);
    assert(q_sum_to(s, 0) == q(0, 1));
    lemma_q_eq_value(0, 1, 0, 1);
    lemma_q_sum_step(s, 0, 0, 1, 0, 1, 0, 1);
    lemma_q_sum_step(s, 1, 0, 1, 0, 4, 0, 1);
    lemma_q_sum_step(s, 2, 0, 1, 0, 4, 0, 1);
    lemma_q_sum_step(s, 3, 0, 1, 0, 1, 0, 1);
    lemma_q_sum_step(s, 4, 0, 1, 0, 16, 0, 1);
}

proof fn lemma_rk43_dense_2_0()
    ensures
        q_eq(q_dot(bi_column(rk43_model(), 0), elementary_weights(rk43_model().a, 2)), q(0, 1)),
{
    let m = rk43_model();
    lemma_rk43_shape();
    lemma_rk43_phi_2();
    assert(bi_column(m, 0) =~= seq![q(0, 1), q(0, 1), q(0, 1), q(0, 1), q(0, 1)]);
    lemma_q_dot_congruent(bi_column(m, 0), elementary_weights(m.a, 2), seq![q(0, 1), q(1, 4), q(1, 4), q(1, 1), q(9, 16)]);
    lemma_rk43_dense_sum_9();
    lemma_q_eq_value(0, 1, 0, 1);
    lemma_q_eq_trans(q_dot(bi_column(m, 0), elementary_weights(m.a, 2)), q_dot(seq![q(0, 1), q(0, 1), q(0, 1), q(0, 1), q(0, 1)], seq![q(0, 1), q(1, 4), q(1, 4), q(1, 1), q(9, 16)]), q(0, 1));
}

proof fn lemma_rk43_dense_sum_10()
    ensures
        q_eq(q_dot(seq![q(1, 1), q(0, 1), q(0, 1), q(0, 1), q(0, 1)], seq![q(0, 1), q(1, 4), q(1, 4), q(1, 1), q(9, 16)]), q(0, 1)),
        q_valid(q_dot(seq![q(1, 1), q(0, 1), q(0, 1), q(0, 1), q(0, 1)], seq![q(0, 1), q(1, 4), q(1, 4), q(1, 1), q(9, 16)])),
{
    let x = seq![q(1, 1), q(0, 1), q(0, 1), q(0, 1), q(0, 1)];
    let y = seq![q(0, 1), q(1, 4), q(1, 4), q(1, 1), q(9, 16)];
    let s = q_hadamard(x, y);
    assert(s.len() == 5);
    lemma_q_hadamard_entry(x, y, 0, 1, 1, 0, 1);
    lemma_q_hadamard_entry(x, y, 1, 0, 1, 1, 4);
    lemma_q_hadamard_entry(x, y, 2, 0, 1, 1, 4);
    lemma_q_hadamard_entry(x, y, 3, 0, 1, 1, 1);
    lemma_q_hadamard_entry(x, y, 4, 0, 1, 9, 16);
    assert(q_sum_to(s, 0) == q(0, 1));
    lemma_q_eq_value(0, 1, 0, 1);
    lemma_q_sum_step(s, 0, 0, 1, 0, 1, 0, 1);
    lemma_q_sum_step(s, 1, 0, 1, 0, 4, 0, 1);
    lemma_q_sum_step(s, 2, 0, 1, 0, 4, 0, 1);
    lemma_q_sum_step(s, 3, 0, 1, 0, 1, 0, 1);
    lemma_q_sum_step(s, 4, 0, 1, 0, 16, 0, 1);
}

proof fn lemma_rk43_dense_2_1()
    ensures
        q_eq(q_dot(bi_column(rk43_model(), 1), elementary_weights(rk43_model().a, 2)), q(0, 1)),
{
    let m = rk43_model();
    lemma_rk43_shape();
    lemma_rk43_phi_2();
    assert(bi_column(m, 1) =~= seq![q(1, 1), q(0, 1), q(0, 1), q(0, 1), q(0, 1)]);
    lemma_q_dot_congruent(bi_column(m, 1), elementary_weights(m.a, 2), seq![q(0, 1), q(1, 4), q(1, 4), q(1, 1), q(9, 16)]);
    lemma_rk43_dense_sum_10();
    lemma_q_eq_value(0, 1, 0, 1);
    lemma_q_eq_trans(q_dot(bi_column(m, 1), elementary_weights(m.a, 2)), q_dot(seq![q(1, 1), q(0, 1), q(0, 1), q(0, 1), q(0, 1)], seq![q(0, 1), q(1, 4), q(1, 4), q(1, 1), q(9, 16)]), q(0, 1));
}

proof fn lemma_rk43_dense_sum_11()
    ensures
        q_eq(q_dot(seq![q(-3, 2), q(1, 1), q(1, 1), q(-1, 2), q(0, 1)], seq![q(0, 1), q(1, 4), q(1, 4), q(1, 1), q(9, 16)]), q(0, 1)),
        q_valid(q_dot(seq![q(-3, 2), q(1, 1), q(1, 1), q(-1, 2), q(0, 1)], seq![q(0, 1), q(1, 4), q(1, 4), q(1, 1), q(9, 16)])),
{
    let x = seq![q(-3, 2), q(1, 1), q(1, 1), q(-1, 2), q(0, 1)];
    let y = seq![q(0, 1), q(1, 4), q(1, 4), q(1, 1), q(9, 16)];
    let s = q_hadamard(x, y);
    assert(s.len() == 5);
    lemma_q_hadamard_entry(x, y, 0, -3, 2, 0, 1);
    lemma_q_hadamard_entry(x, y, 1, 1, 1, 1, 4);
    lemma_q_hadamard_entry(x, y, 2, 1, 1, 1, 4);
    lemma_q_hadamard_entry(x, y, 3, -1, 2, 1, 1);
    lemma_q_hadamard_entry(x, y, 4, 0, 1, 9, 16);
    assert(q_sum_to(s, 0) == q(0, 1));
    lemma_q_eq_value(0, 1, 0, 1);
    lemma_q_sum_step(s, 0, 0, 1, 0, 2, 0, 1);
    lemma_q_sum_step(s, 1, 0, 1, 1, 4, 1, 4);
    lemma_q_sum_step(s, 2, 1, 4, 1, 4, 1, 2);
    lemma_q_sum_step(s, 3, 1, 2, -1, 2, 0, 1);
    lemma_q_sum_step(s, 4, 0, 1, 0, 16, 0, 1);
}

proof fn lemma_rk43_dense_2_2()
    ensures
        q_eq(q_dot(bi_column(rk43_model(), 2), elementary_weights(rk43_model().a, 2)), q(0, 1)),
{
    let m = rk43_model();
    lemma_rk43_shape();
    lemma_rk43_phi_2();
    assert(bi_column(m, 2) =~= seq![q(-3, 2), q(1, 1), q(1, 1), q(-1, 2), q(0, 1)]);
    lemma_q_dot_congruent(bi_column(m, 2), elementary_weights(m.a, 2), seq![q(0, 1), q(1, 4), q(1, 4), q(1, 1), q(9, 16)]);
    lemma_rk43_dense_sum_11();
    lemma_q_eq_value(0, 1, 0, 1);
    lemma_q_eq_trans(q_dot(bi_column(m, 2), elementary_weights(m.a, 2)), q_dot(seq![q(-3, 2), q(1, 1), q(1, 1), q(-1, 2), q(0, 1)], seq![q(0, 1), q(1, 4), q(1, 4), q(1, 1), q(9, 16)]), q(0, 1));
}

proof fn lemma_rk43_dense_sum_12()
    ensures
        q_eq(q_dot(seq![q(2, 3), q(-2, 3), q(-2, 3), q(2, 3), q(0, 1)], seq![q(0, 1), q(1, 4), q(1, 4), q(1, 1), q(9, 16)]), q(1, 3)),
        q_valid(q_dot(seq![q(2, 3), q(-2, 3), q(-2, 3), q(2, 3), q(0, 1)], seq![q(0, 1), q(1, 4), q(1, 4), q(1, 1), q(9, 16)])),
{
    let x = seq![q(2, 3), q(-2, 3), q(-2, 3), q(2, 3), q(0, 1)];
    let y = seq![q(0, 1), q(1, 4), q(1, 4), q(1, 1), q(9, 16)];
    let s = q_hadamard(x, y);
    assert(s.len() == 5);
    lemma_q_hadamard_entry(x, y, 0, 2, 3, 0, 1);
    lemma_q_hadamard_entry(x, y, 1, -2, 3, 1, 4);
    lemma_q_hadamard_entry(x, y, 2, -2, 3, 1, 4);
    lemma_q_hadamard_entry(x, y, 3, 2, 3, 1, 1);
    lemma_q_hadamard_entry(x, y, 4, 0, 1, 9, 16);
    assert(q_sum_to(s, 0) == q(0, 1));
    lemma_q_eq_value(0, 1, 0, 1);
    lemma_q_sum_step(s, 0, 0, 1, 0, 3, 0, 1);
    lemma_q_sum_step(s, 1, 0, 1, -2, 12, -1, 6);
    lemma_q_sum_step(s, 2, -1, 6, -2, 12, -1, 3);
    lemma_q_sum_step(s, 3, -1, 3, 2, 3, 1, 3);
    lemma_q_sum_step(s, 4, 1, 3, 0, 16, 1, 3);
}

proof fn lemma_rk43_dense_2_3()
    ensures
        q_eq(q_dot(bi_column(rk43_model(), 3), elementary_weights(rk43_model().a, 2)), q(1, 3)),
{
    let m = rk43_model();
    lemma_rk43_shape();
    lemma_rk43_phi_2();
    assert(bi_column(m, 3) =~= seq![q(2, 3), q(-2, 3), q(-2, 3), q(2, 3), q(0, 1)]);
    lemma_q_dot_congruent(bi_column(m, 3), elementary_weights(m.a, 2), seq![q(0, 1), q(1, 4), q(1, 4), q(1, 1), q(9, 16)]);
    lemma_rk43_dense_sum_12();
    lemma_q_eq_value(1, 3, 1, 3);
    lemma_q_eq_trans(q_dot(bi_column(m, 3), elementary_weights(m.a, 2)), q_dot(seq![q(2, 3), q(-2, 3), q(-2, 3), q(2, 3), q(0, 1)], seq![q(0, 1), q(1, 4), q(1, 4), q(1, 1), q(9, 16)]), q(1, 3));
}

proof fn lemma_rk43_dense_sum_13()
    ensures
        q_eq(q_dot(seq![q(0, 1), q(0, 1), q(0, 1), q(0, 1), q(0, 1)], seq![q(0, 1), q(0, 1), q(1, 4), q(1, 2), q(9, 32)]), q(0, 1)),
        q_valid(q_dot(seq![q(0, 1), q(0, 1), q(0, 1), q(0, 1), q(0, 1)], seq![q(0, 1), q(0, 1), q(1, 4), q(1, 2), q(9, 32)])),
{
    let x = seq![q(0, 1), q(0, 1), q(0, 1), q(0, 1), q(0, 1)];
    let y = seq![q(0, 1), q(0, 1), q(1, 4), q(1, 2), q(9, 32)];
    let s = q_hadamard(x, y);
    assert(s.len() == 5);
    lemma_q_hadamard_entry(x, y, 0, 0, 1, 0, 1);
    lemma_q_hadamard_entry(x, y, 1, 0, 1, 0, 1);
    lemma_q_hadamard_entry(x, y, 2, 0, 1, 1, 4);
    lemma_q_hadamard_entry(x, y, 3, 0, 1, 1, 2);
    lemma_q_hadamard_entry(x, y, 4, 0, 1, 9, 32);
    assert(q_sum_to(s, 0) == q(0, 1));
    lemma_q_eq_value(0, 1, 0, 1);
    lemma_q_sum_step(s, 0, 0, 1, 0, 1, 0, 1);
    lemma_q_sum_step(s, 1, 0, 1, 0, 1, 0, 1);
    lemma_q_sum_step(s, 2, 0, 1, 0, 4, 0, 1);
    lemma_q_sum_step(s, 3, 0, 1, 0, 2, 0, 1);
    lemma_q_sum_step(s, 4, 0, 1, 0, 32, 0, 1);
}

proof fn lemma_rk43_dense_3_0()
    ensures
        q_eq(q_dot(bi_column(rk43_model(), 0), elementary_weights(rk43_model().a, 3)), q(0, 1)),
{
    let m = rk43_model();
    lemma_rk43_shape();
    lemma_rk43_phi_3();
    assert(bi_column(m, 0) =~= seq![q(0, 1), q(0, 1), q(0, 1), q(0, 1), q(0, 1)]);
    lemma_q_dot_congruent(bi_column(m, 0), elementary_weights(m.a, 3), seq![q(0, 1), q(0, 1), q(1, 4), q(1, 2), q(9, 32)]);
    lemma_rk43_dense_sum_13();
    lemma_q_eq_value(0, 1, 0, 1);
    lemma_q_eq_trans(q_dot(bi_column(m, 0), elementary_weights(m.a, 3)), q_dot(seq![q(0, 1), q(0, 1), q(0, 1), q(0, 1), q(0, 1)], seq![q(0, 1), q(0, 1), q(1, 4), q(1, 2), q(9, 32)]), q(0, 1));
}

proof fn lemma_rk43_dense_sum_14()
    ensures
        q_eq(q_dot(seq![q(1, 1), q(0, 1), q(0, 1), q(0, 1), q(0, 1)], seq![q(0, 1), q(0, 1), q(1, 4), q(1, 2), q(9, 32)]), q(0, 1)),
        q_valid(q_dot(seq![q(1, 1), q(0, 1), q(0, 1), q(0, 1), q(0, 1)], seq![q(0, 1), q(0, 1), q(1, 4), q(1, 2), q(9, 32)])),
{
    let x = seq![q(1, 1), q(0, 1), q(0, 1), q(0, 1), q(0, 1)];
    let y = seq![q(0, 1), q(0, 1), q(1, 4), q(1, 2), q(9, 32)];
    let s = q_hadamard(x, y);
    assert(s.len() == 5);
    lemma_q_hadamard_entry(x, y, 0, 1, 1, 0, 1);
    lemma_q_hadamard_entry(x, y, 1, 0, 1, 0, 1);
    lemma_q_hadamard_entry(x, y, 2, 0, 1, 1, 4);
    lemma_q_hadamard_entry(x, y, 3, 0, 1, 1, 2);
    lemma_q_hadamard_entry(x, y, 4, 0, 1, 9, 32);
    assert(q_sum_to(s, 0) == q(0, 1));
    lemma_q_eq_value(0, 1, 0, 1);
    lemma_q_sum_step(s, 0, 0, 1, 0, 1, 0, 1);
    lemma_q_sum_step(s, 1, 0, 1, 0, 1, 0, 1);
    lemma_q_sum_step(s, 2, 0, 1, 0, 4, 0, 1);
    lemma_q_sum_step(s, 3, 0, 1, 0, 2, 0, 1);
    lemma_q_sum_step(s, 4, 0, 1, 0, 32, 0, 1);
}

proof fn lemma_rk43_dense_3_1()
    ensures
        q_eq(q_dot(bi_column(rk43_model(), 1), elementary_weights(rk43_model().a, 3)), q(0, 1)),
{
    let m = rk43_model();
    lemma_rk43_shape();
    lemma_rk43_phi_3();
    assert(bi_column(m, 1) =~= seq![q(1, 1), q(0, 1), q(0, 1), q(0, 1), q(0, 1)]);
    lemma_q_dot_congruent(bi_column(m, 1), elementary_weights(m.a, 3), seq![q(0, 1), q(0, 1), q(1, 4), q(1, 2), q(9, 32)]);
    lemma_rk43_dense_sum_14();
    lemma_q_eq_value(0, 1, 0, 1);
    lemma_q_eq_trans(q_dot(bi_column(m, 1), elementary_weights(m.a, 3)), q_dot(seq![q(1, 1), q(0, 1), q(0, 1), q(0, 1), q(0, 1)], seq![q(0, 1), q(0, 1), q(1, 4), q(1, 2), q(9, 32)]), q(0, 1));
}

proof fn lemma_rk43_dense_sum_15()
    ensures
        q_eq(q_dot(seq![q(-3, 2), q(1, 1), q(1, 1), q(-1, 2), q(0, 1)], seq![q(0, 1), q(0, 1), q(1, 4), q(1, 2), q(9, 32)]), q(0, 1)),
        q_valid(q_dot(seq![q(-3, 2), q(1, 1), q(1, 1), q(-1, 2), q(0, 1)], seq![q(0, 1), q(0, 1), q(1, 4), q(1, 2), q(9, 32)])),
{
    let x = seq![q(-3, 2), q(1, 1), q(1, 1), q(-1, 2), q(0, 1)];
    let y = seq![q(0, 1), q(0, 1), q(1, 4), q(1, 2), q(9, 32)];
    let s = q_hadamard(x, y);
    assert(s.len() == 5);
    lemma_q_hadamard_entry(x, y, 0, -3, 2, 0, 1);
    lemma_q_hadamard_entry(x, y, 1, 1, 1, 0, 1);
    lemma_q_hadamard_entry(x, y, 2, 1, 1, 1, 4);
    lemma_q_hadamard_entry(x, y, 3, -1, 2, 1, 2);
    lemma_q_hadamard_entry(x, y, 4, 0, 1, 9, 32);
    assert(q_sum_to(s, 0) == q(0, 1));
    lemma_q_eq_value(0, 1, 0, 1);
    lemma_q_sum_step(s, 0, 0, 1, 0, 2, 0, 1);
    lemma_q_sum_step(s, 1, 0, 1, 0, 1, 0, 1);
    lemma_q_sum_step(s, 2, 0, 1, 1, 4, 1, 4);
    lemma_q_sum_step(s, 3, 1, 4, -1, 4, 0, 1);
    lemma_q_sum_step(s, 4, 0, 1, 0, 32, 0, 1);
}

proof fn lemma_rk43_dense_3_2()
    ensures
        q_eq(q_dot(bi_column(rk43_model(), 2), elementary_weights(rk43_model().a, 3)), q(0, 1)),
{
    let m = rk43_model();
    lemma_rk43_shape();
    lemma_rk43_phi_3();
    assert(bi_column(m, 2) =~= seq![q(-3, 2), q(1, 1), q(1, 1), q(-1, 2), q(0, 1)]);
    lemma_q_dot_congruent(bi_column(m, 2), elementary_weights(m.a, 3), seq![q(0, 1), q(0, 1), q(1, 4), q(1, 2), q(9, 32)]);
    lemma_rk43_dense_sum_15();
    lemma_q_eq_value(0, 1, 0, 1);
    lemma_q_eq_trans(q_dot(bi_column(m, 2), elementary_weights(m.a, 3)), q_dot(seq![q(-3, 2), q(1, 1), q(1, 1), q(-1, 2), q(0, 1)], seq![q(0, 1), q(0, 1), q(1, 4), q(1, 2), q(9, 32)]), q(0, 1));
}

proof fn lemma_rk43_dense_sum_16()
    ensures
        q_eq(q_dot(seq![q(2, 3), q(-2, 3), q(-2, 3), q(2, 3), q(0, 1)], seq![q(0, 1), q(0, 1), q(1, 4), q(1, 2), q(9, 32)]), q(1, 6)),
        q_valid(q_dot(seq![q(2, 3), q(-2, 3), q(-2, 3), q(2, 3), q(0, 1)], seq![q(0, 1), q(0, 1), q(1, 4), q(1, 2), q(9, 32)])),
{
    let x = seq![q(2, 3), q(-2, 3), q(-2, 3), q(2, 3), q(0, 1)];
    let y = seq![q(0, 1), q(0, 1), q(1, 4), q(1, 2), q(9, 32)];
    let s = q_hadamard(x, y);
    assert(s.len() == 5);
    lemma_q_hadamard_entry(x, y, 0, 2, 3, 0, 1);
    lemma_q_hadamard_entry(x, y, 1, -2, 3, 0, 1);
    lemma_q_hadamard_entry(x, y, 2, -2, 3, 1, 4);
    lemma_q_hadamard_entry(x, y, 3, 2, 3, 1, 2);
    lemma_q_hadamard_entry(x, y, 4, 0, 1, 9, 32);
    assert(q_sum_to(s, 0) == q(0, 1));
    lemma_q_eq_value(0, 1, 0, 1);
    lemma_q_sum_step(s, 0, 0, 1, 0, 3, 0, 1);
    lemma_q_sum_step(s, 1, 0, 1, 0, 3, 0, 1);
    lemma_q_sum_step(s, 2, 0, 1, -2, 12, -1, 6);
    lemma_q_sum_step(s, 3, -1, 6, 2, 6, 1, 6);
    lemma_q_sum_step(s, 4, 1, 6, 0, 32, 1, 6);
}

proof fn lemma_rk43_dense_3_3()
    ensures
        q_eq(q_dot(bi_column(rk43_model(), 3), elementary_weights(rk43_model().a, 3)), q(1, 6)),
{
    let m = rk43_model();
    lemma_rk43_shape();
    lemma_rk43_phi_3();
    assert(bi_column(m, 3) =~= seq![q(2, 3), q(-2, 3), q(-2, 3), q(2, 3), q(0, 1)]);
    lemma_q_dot_congruent(bi_column(m, 3), elementary_weights(m.a, 3), seq![q(0, 1), q(0, 1), q(1, 4), q(1, 2), q(9, 32)]);
    lemma_rk43_dense_sum_16();
    lemma_q_eq_value(1, 6, 1, 6);
    lemma_q_eq_trans(q_dot(bi_column(m, 3), elementary_weights(m.a, 3)), q_dot(seq![q(2, 3), q(-2, 3), q(-2, 3), q(2, 3), q(0, 1)], seq![q(0, 1), q(0, 1), q(1, 4), q(1, 2), q(9, 32)]), q(1, 6));
}

/// The interpolant of [`crate::rk::ButcherTableu::rk43`] is a dense output of order three.
pub(crate) proof fn lemma_rk43_dense_output()
    ensures
        interpolant_conditions(rk43_model(), 4, 3),
{
    let m = rk43_model();
    assert forall|k: int, j: int|
        #![trigger elementary_weights(m.a, k), bi_column(m, j)]
        0 <= k < num_trees() && tree_order(k) <= 3 && 0 <= j < 4 implies q_eq(
        q_dot(bi_column(m, j), elementary_weights(m.a, k)),
        if j == tree_order(k) {
            q(1, tree_density(k))
        } else {
            q(0, 1)
        },
    ) by {
        if k == 0 {
            if j == 0 {
                lemma_rk43_dense_0_0();
            } else if j == 1 {
                lemma_rk43_dense_0_1();
            } else if j == 2 {
                lemma_rk43_dense_0_2();
            } else if j == 3 {
                lemma_rk43_dense_0_3();
            }
        } else if k == 1 {
            if j == 0 {
                lemma_rk43_dense_1_0();
            } else if j == 1 {
                lemma_rk43_dense_1_1();
            } else if j == 2 {
                lemma_rk43_dense_1_2();
            } else if j == 3 {
                lemma_rk43_dense_1_3();
            }
        } else if k == 2 {
            if j == 0 {
                lemma_rk43_dense_2_0();
            } else if j == 1 {
                lemma_rk43_dense_2_1();
            } else if j == 2 {
                lemma_rk43_dense_2_2();
            } else if j == 3 {
                lemma_rk43_dense_2_3();
            }
        } else if k == 3 {
            if j == 0 {
                lemma_rk43_dense_3_0();
            } else if j == 1 {
                lemma_rk43_dense_3_1();
            } else if j == 2 {
                lemma_rk43_dense_3_2();
            } else if j == 3 {
                lemma_rk43_dense_3_3();
            }
        }
    }
}

proof fn lemma_rktp64_dense_sum_1()
    ensures
        q_eq(q_dot(seq![q(0, 1), q(0, 1), q(0, 1), q(0, 1), q(0, 1), q(0, 1), q(0, 1)], seq![q(1, 1), q(1, 1), q(1, 1), q(1, 1), q(1, 1), q(1, 1), q(1, 1)]), q(0, 1)),
        q_valid(q_dot(seq![q(0, 1), q(0, 1), q(0, 1), q(0, 1), q(0, 1), q(0, 1), q(0, 1)], seq![q(1, 1), q(1, 1), q(1, 1), q(1, 1), q(1, 1), q(1, 1), q(1, 1)])),
{
    let x = seq![q(0, 1), q(0, 1), q(0, 1), q(0, 1), q(0, 1), q(0, 1), q(0, 1)];
    let y = seq![q(1, 1), q(1, 1), q(1, 1), q(1, 1), q(1, 1), q(1, 1), q(1, 1)];
    let s = q_hadamard(x, y);
    assert(s.len() == 7);
    lemma_q_hadamard_entry(x, y, 0, 0, 1, 1, 1);
    lemma_q_hadamard_entry(x, y, 1, 0, 1, 1, 1);
    lemma_q_hadamard_entry(x, y, 2, 0, 1, 1, 1);
    lemma_q_hadamard_entry(x, y, 3, 0, 1, 1, 1);
    lemma_q_hadamard_entry(x, y, 4, 0, 1, 1, 1);
    lemma_q_hadamard_entry(x, y, 5, 0, 1, 1, 1);
    lemma_q_hadamard_entry(x, y, 6, 0, 1, 1, 1);
    assert(q_sum_to(s, 0) == q(0, 1));
    lemma_q_eq_value(0, 1, 0, 1);
    lemma_q_sum_step(s, 0, 0, 1, 0, 1, 0, 1);
    lemma_q_sum_step(s, 1, 0, 1, 0, 1, 0, 1);
    lemma_q_sum_step(s, 2, 0, 1, 0, 1, 0, 1);
    lemma_q_sum_step(s, 3, 0, 1, 0, 1, 0, 1);
    lemma_q_sum_step(s, 4, 0, 1, 0, 1, 0, 1);
    lemma_q_sum_step(s, 5, 0, 1, 0, 1, 0, 1);
    lemma_q_sum_step(s, 6, 0, 1, 0, 1, 0, 1);
}

proof fn lemma_rktp64_dense_0_0()
    ensures
        q_eq(q_dot(bi_column(rktp64_model(), 0), elementary_weights(rktp64_model().a, 0)), q(0, 1)),
{
    let m = rktp64_model();
    lemma_rktp64_shape();
    lemma_rktp64_phi_0();
    assert(bi_column(m, 0) =~= seq![q(0, 1), q(0, 1), q(0, 1), q(0, 1), q(0, 1), q(0, 1), q(0, 1)]);
    lemma_q_dot_congruent(bi_column(m, 0), elementary_weights(m.a, 0), seq![q(1, 1), q(1, 1), q(1, 1), q(1, 1), q(1, 1), q(1, 1), q(1, 1)]);
    lemma_rktp64_dense_sum_1();
    lemma_q_eq_value(0, 1, 0, 1);
    lemma_q_eq_trans(q_dot(bi_column(m, 0), elementary_weights(m.a, 0)), q_dot(seq![q(0, 1), q(0, 1), q(0, 1), q(0, 1), q(0, 1), q(0, 1), q(0, 1)], seq![q(1, 1), q(1, 1), q(1, 1), q(1, 1), q(1, 1), q(1, 1), q(1, 1)]), q(0, 1));
}

proof fn lemma_rktp64_dense_sum_2()
    ensures
        q_eq(q_dot(seq![q(1, 1), q(0, 1), q(0, 1), q(0, 1), q(0, 1), q(0, 1), q(0, 1)], seq![q(1, 1), q(1, 1), q(1, 1), q(1, 1), q(1, 1), q(1, 1), q(1, 1)]), q(1, 1)),
        q_valid(q_dot(seq![q(1, 1), q(0, 1), q(0, 1), q(0, 1), q(0, 1), q(0, 1), q(0, 1)], seq![q(1, 1), q(1, 1), q(1, 1), q(1, 1), q(1, 1), q(1, 1), q(1, 1)])),
{
    let x = seq![q(1, 1), q(0, 1), q(0, 1), q(0, 1), q(0, 1), q(0, 1), q(0, 1)];
    let y = seq![q(1, 1), q(1, 1), q(1, 1), q(1, 1), q(1, 1), q(1, 1), q(1, 1)];
    let s = q_hadamard(x, y);
    assert(s.len() == 7);
    lemma_q_hadamard_entry(x, y, 0, 1, 1, 1, 1);
    lemma_q_hadamard_entry(x, y, 1, 0, 1, 1, 1);
    lemma_q_hadamard_entry(x, y, 2, 0, 1, 1, 1);
    lemma_q_hadamard_entry(x, y, 3, 0, 1, 1, 1);
    lemma_q_hadamard_entry(x, y, 4, 0, 1, 1, 1);
    lemma_q_hadamard_entry(x, y, 5, 0, 1, 1, 1);
    lemma_q_hadamard_entry(x, y, 6, 0, 1, 1, 1);
    assert(q_sum_to(s, 0) == q(0, 1));
    lemma_q_eq_value(0, 1, 0, 1);
    lemma_q_sum_step(s, 0, 0, 1, 1, 1, 1, 1);
    lemma_q_sum_step(s, 1, 1, 1, 0, 1, 1, 1);
    lemma_q_sum_step(s, 2, 1, 1, 0, 1, 1, 1);
    lemma_q_sum_step(s, 3, 1, 1, 0, 1, 1, 1);
    lemma_q_sum_step(s, 4, 1, 1, 0, 1, 1, 1);
    lemma_q_sum_step(s, 5, 1, 1, 0, 1, 1, 1);
    lemma_q_sum_step(s, 6, 1, 1, 0, 1, 1, 1);
}

proof fn lemma_rktp64_dense_0_1()
    ensures
        q_eq(q_dot(bi_column(rktp64_model(), 1), elementary_weights(rktp64_model().a, 0)), q(1, 1)),
{
    let m = rktp64_model();
    lemma_rktp64_shape();
    lemma_rktp64_phi_0();
    assert(bi_column(m, 1) =~= seq![q(1, 1), q(0, 1), q(0, 1), q(0, 1), q(0, 1), q(0, 1), q(0, 1)]);
    lemma_q_dot_congruent(bi_column(m, 1), elementary_weights(m.a, 0), seq![q(1, 1), q(1, 1), q(1, 1), q(1, 1), q(1, 1), q(1, 1), q(1, 1)]);
    lemma_rktp64_dense_sum_2();
    lemma_q_eq_value(1, 1, 1, 1);
    lemma_q_eq_trans(q_dot(bi_column(m, 1), elementary_weights(m.a, 0)), q_dot(seq![q(1, 1), q(0, 1), q(0, 1), q(0, 1), q(0, 1), q(0, 1), q(0, 1)], seq![q(1, 1), q(1, 1), q(1, 1), q(1, 1), q(1, 1), q(1, 1), q(1, 1)]), q(1, 1));
}

proof fn lemma_rktp64_dense_sum_3()
    ensures
        q_eq(q_dot(seq![q(-287, 90), q(0, 1), q(191241, 60970), q(195853, 135720), q(-268288, 145725), q(0, 1), q(1891, 4200)], seq![q(1, 1), q(1, 1), q(1, 1), q(1, 1), q(1, 1), q(1, 1), q(1, 1)]), q(0, 1)),
        q_valid(q_dot(seq![q(-287, 90), q(0, 1), q(191241, 60970), q(195853, 135720), q(-268288, 145725), q(0, 1), q(1891, 4200)], seq![q(1, 1), q(1, 1), q(1, 1), q(1, 1), q(1, 1), q(1, 1), q(1, 1)])),
{
    let x = seq![q(-287, 90), q(0, 1), q(191241, 60970), q(195853, 135720), q(-268288, 145725), q(0, 1), q(1891, 4200)];
    let y = seq![q(1, 1), q(1, 1), q(1, 1), q(1, 1), q(1, 1), q(1, 1), q(1, 1)];
    let s = q_hadamard(x, y);
    assert(s.len() == 7);
    lemma_q_hadamard_entry(x, y, 0, -287, 90, 1, 1);
    lemma_q_hadamard_entry(x, y, 1, 0, 1, 1, 1);
    lemma_q_hadamard_entry(x, y, 2, 191241, 60970, 1, 1);
    lemma_q_hadamard_entry(x, y, 3, 195853, 135720, 1, 1);
    lemma_q_hadamard_entry(x, y, 4, -268288, 145725, 1, 1);
    lemma_q_hadamard_entry(x, y, 5, 0, 1, 1, 1);
    lemma_q_hadamard_entry(x, y, 6, 1891, 4200, 1, 1);
    assert(q_sum_to(s, 0) == q(0, 1));
    lemma_q_eq_value(0, 1, 0, 1);
    lemma_q_sum_step(s, 0, 0, 1, -287, 90, -287, 90);
    lemma_q_sum_step(s, 1, -287, 90, 0, 1, -287, 90);
    lemma_q_sum_step(s, 2, -287, 90, 191241, 60970, -2867, 54873);
    lemma_q_sum_step(s, 3, -2867, 54873, 195853, 135720, 756661, 544040);
    lemma_q_sum_step(s, 4, 756661, 544040, -268288, 145725, -1891, 4200);
    lemma_q_sum_step(s, 5, -1891, 4200, 0, 1, -1891, 4200);
    lemma_q_sum_step(s, 6, -1891, 4200, 1891, 4200, 0, 1);
}

proof fn lemma_rktp64_dense_0_2()
    ensures
        q_eq(q_dot(bi_column(rktp64_model(), 2), elementary_weights(rktp64_model().a, 0)), q(0, 1)),
{
    let m = rktp64_model();
    lemma_rktp64_shape();
    lemma_rktp64_phi_0();
    assert(bi_column(m, 2) =~= seq![q(-287, 90), q(0, 1), q(191241, 60970), q(195853, 135720), q(-268288, 145725), q(0, 1), q(1891, 4200)]);
    lemma_q_dot_congruent(bi_column(m, 2), elementary_weights(m.a, 0), seq![q(1, 1), q(1, 1), q(1, 1), q(1, 1), q(1, 1), q(1, 1), q(1, 1)]);
    lemma_rktp64_dense_sum_3();
    lemma_q_eq_value(0, 1, 0, 1);
    lemma_q_eq_trans(q_dot(bi_column(m, 2), elementary_weights(m.a, 0)), q_dot(seq![q(-287, 90), q(0, 1), q(191241, 60970), q(195853, 135720), q(-268288, 145725), q(0, 1), q(1891, 4200)], seq![q(1, 1), q(1, 1), q(1, 1), q(1, 1), q(1, 1), q(1, 1), q(1, 1)]), q(0, 1));
}

proof fn lemma_rktp64_dense_sum_4()
    ensures
        q_eq(q_dot(seq![q(98, 27), q(0, 1), q(-29727, 6097), q(-3773, 1404), q(16384, 3015), q(0, 1), q(-1891, 1260)], seq![q(1, 1), q(1, 1), q(1, 1), q(1, 1), q(1, 1), q(1, 1), q(1, 1)]), q(0, 1)),
        q_valid(q_dot(seq![q(98, 27), q(0, 1), q(-29727, 6097), q(-3773, 1404), q(16384, 3015), q(0, 1), q(-1891, 1260)], seq![q(1, 1), q(1, 1), q(1, 1), q(1, 1), q(1, 1), q(1, 1), q(1, 1)])),
{
    let x = seq![q(98, 27), q(0, 1), q(-29727, 6097), q(-3773, 1404), q(16384, 3015), q(0, 1), q(-1891, 1260)];
    let y = seq![q(1, 1), q(1, 1), q(1, 1), q(1, 1), q(1, 1), q(1, 1), q(1, 1)];
    let s = q_hadamard(x, y);
    assert(s.len() == 7);
    lemma_q_hadamard_entry(x, y, 0, 98, 27, 1, 1);
    lemma_q_hadamard_entry(x, y, 1, 0, 1, 1, 1);
    lemma_q_hadamard_entry(x, y, 2, -29727, 6097, 1, 1);
    lemma_q_hadamard_entry(x, y, 3, -3773, 1404, 1, 1);
    lemma_q_hadamard_entry(x, y, 4, 16384, 3015, 1, 1);
    lemma_q_hadamard_entry(x, y, 5, 0, 1, 1, 1);
    lemma_q_hadamard_entry(x, y, 6, -1891, 1260, 1, 1);
    assert(q_sum_to(s, 0) == q(0, 1));
    lemma_q_eq_value(0, 1, 0, 1);
    lemma_q_sum_step(s, 0, 0, 1, 98, 27, 98, 27);
    lemma_q_sum_step(s, 1, 98, 27, 0, 1, 98, 27);
    lemma_q_sum_step(s, 2, 98, 27, -29727, 6097, -205123, 164619);
    lemma_q_sum_step(s, 3, -205123, 164619, -3773, 1404, -7379, 1876);
    lemma_q_sum_step(s, 4, -7379, 1876, 16384, 3015, 1891, 1260);
    lemma_q_sum_step(s, 5, 1891, 1260, 0, 1, 1891, 1260);
    lemma_q_sum_step(s, 6, 1891, 1260, -1891, 1260, 0, 1);
}

proof fn lemma_rktp64_dense_0_3()
    ensures
        q_eq(q_dot(bi_column(rktp64_model(), 3), elementary_weights(rktp64_model().a, 0)), q(0, 1)),
{
    let m = rktp64_model();
    lemma_rktp64_shape();
    lemma_rktp64_phi_0();
    assert(bi_column(m, 3) =~= seq![q(98, 27), q(0, 1), q(-29727, 6097), q(-3773, 1404), q(16384, 3015), q(0, 1), q(-1891, 1260)]);
    lemma_q_dot_congruent(bi_column(m, 3), elementary_weights(m.a, 0), seq![q(1, 1), q(1, 1), q(1, 1), q(1, 1), q(1, 1), q(1, 1), q(1, 1)]);
    lemma_rktp64_dense_sum_4();
    lemma_q_eq_value(0, 1, 0, 1);
    lemma_q_eq_trans(q_dot(bi_column(m, 3), elementary_weights(m.a, 0)), q_dot(seq![q(98, 27), q(0, 1), q(-29727, 6097), q(-3773, 1404), q(16384, 3015), q(0, 1), q(-1891, 1260)], seq![q(1, 1), q(1, 1), q(1, 1), q(1, 1), q(1, 1), q(1, 1), q(1, 1)]), q(0, 1));
}

proof fn lemma_rktp64_dense_sum_5()
    ensures
        q_eq(q_dot(seq![q(-7387, 5400), q(0, 1), q(7907787, 3902080), q(36199877, 25243920), q(-5183488, 1486395), q(4084223, 15177600), q(1891, 1680)], seq![q(1, 1), q(1, 1), q(1, 1), q(1, 1), q(1, 1), q(1, 1), q(1, 1)]), q(0, 1)),
        q_valid(q_dot(seq![q(-7387, 5400), q(0, 1), q(7907787, 3902080), q(36199877, 25243920), q(-5183488, 1486395), q(4084223, 15177600), q(1891, 1680)], seq![q(1, 1), q(1, 1), q(1, 1), q(1, 1), q(1, 1), q(1, 1), q(1, 1)])),
{
    let x = seq![q(-7387, 5400), q(0, 1), q(7907787, 3902080), q(36199877, 25243920), q(-5183488, 1486395), q(4084223, 15177600), q(1891, 1680)];
    let y = seq![q(1, 1), q(1, 1), q(1, 1), q(1, 1), q(1, 1), q(1, 1), q(1, 1)];
    let s = q_hadamard(x, y);
    assert(s.len() == 7);
    lemma_q_hadamard_entry(x, y, 0, -7387, 5400, 1, 1);
    lemma_q_hadamard_entry(x, y, 1, 0, 1, 1, 1);
    lemma_q_hadamard_entry(x, y, 2, 7907787, 3902080, 1, 1);
    lemma_q_hadamard_entry(x, y, 3, 36199877, 25243920, 1, 1);
    lemma_q_hadamard_entry(x, y, 4, -5183488, 1486395, 1, 1);
    lemma_q_hadamard_entry(x, y, 5, 4084223, 15177600, 1, 1);
    lemma_q_hadamard_entry(x, y, 6, 1891, 1680, 1, 1);
    assert(q_sum_to(s, 0) == q(0, 1));
    lemma_q_eq_value(0, 1, 0, 1);
    lemma_q_sum_step(s, 0, 0, 1, -7387, 5400, -7387, 5400);
    lemma_q_sum_step(s, 1, -7387, 5400, 0, 1, -7387, 5400);
    lemma_q_sum_step(s, 2, -7387, 5400, 7907787, 3902080, 346934621, 526780800);
    lemma_q_sum_step(s, 3, 346934621, 526780800, 36199877, 25243920, 8470118947, 4047657600);
    lemma_q_sum_step(s, 4, 8470118947, 4047657600, -5183488, 1486395, -148176401, 106243200);
    lemma_q_sum_step(s, 5, -148176401, 106243200, 4084223, 15177600, -1891, 1680);
    lemma_q_sum_step(s, 6, -1891, 1680, 1891, 1680, 0, 1);
}

proof fn lemma_rktp64_dense_0_4()
    ensures
        q_eq(q_dot(bi_column(rktp64_model(), 4), elementary_weights(rktp64_model().a, 0)), q(0, 1)),
{
    let m = rktp64_model();
    lemma_rktp64_shape();
    lemma_rktp64_phi_0();
    assert(bi_column(m, 4) =~= seq![q(-7387, 5400), q(0, 1), q(7907787, 3902080), q(36199877, 25243920), q(-5183488, 1486395), q(4084223, 15177600), q(1891, 1680)]);
    lemma_q_dot_congruent(bi_column(m, 4), elementary_weights(m.a, 0), seq![q(1, 1), q(1, 1), q(1, 1), q(1, 1), q(1, 1), q(1, 1), q(1, 1)]);
    lemma_rktp64_dense_sum_5();
    lemma_q_eq_value(0, 1, 0, 1);
    lemma_q_eq_trans(q_dot(bi_column(m, 4), elementary_weights(m.a, 0)), q_dot(seq![q(-7387, 5400), q(0, 1), q(7907787, 3902080), q(36199877, 25243920), q(-5183488, 1486395), q(4084223, 15177600), q(1891, 1680)], seq![q(1, 1), q(1, 1), q(1, 1), q(1, 1), q(1, 1), q(1, 1), q(1, 1)]), q(0, 1));
}

proof fn lemma_rktp64_dense_sum_6()
    ensures
        q_eq(q_dot(seq![q(0, 1), q(0, 1), q(0, 1), q(0, 1), q(0, 1), q(0, 1), q(0, 1)], seq![q(0, 1), q(4, 27), q(2, 9), q(3, 7), q(11, 16), q(10, 13), q(1, 1)]), q(0, 1)),
        q_valid(q_dot(seq![q(0, 1), q(0, 1), q(0, 1), q(0, 1), q(0, 1), q(0, 1), q(0, 1)], seq![q(0, 1), q(4, 27), q(2, 9), q(3, 7), q(11, 16), q(10, 13), q(1, 1)])),
{
    let x = seq![q(0, 1), q(0, 1), q(0, 1), q(0, 1), q(0, 1), q(0, 1), q(0, 1)];
    let y = seq![q(0, 1), q(4, 27), q(2, 9), q(3, 7), q(11, 16), q(10, 13), q(1, 1)];
    let s = q_hadamard(x, y);
    assert(s.len() == 7);
    lemma_q_hadamard_entry(x, y, 0, 0, 1, 0, 1);
    lemma_q_hadamard_entry(x, y, 1, 0, 1, 4, 27);
    lemma_q_hadamard_entry(x, y, 2, 0, 1, 2, 9);
    lemma_q_hadamard_entry(x, y, 3, 0, 1, 3, 7);
    lemma_q_hadamard_entry(x, y, 4, 0, 1, 11, 16);
    lemma_q_hadamard_entry(x, y, 5, 0, 1, 10, 13);
    lemma_q_hadamard_entry(x, y, 6, 0, 1, 1, 1);
    assert(q_sum_to(s, 0) == q(0, 1));
    lemma_q_eq_value(0, 1, 0, 1);
    lemma_q_sum_step(s, 0, 0, 1, 0, 1, 0, 1);
    lemma_q_sum_step(s, 1, 0, 1, 0, 27, 0, 1);
    lemma_q_sum_step(s, 2, 0, 1, 0, 9, 0, 1);
    lemma_q_sum_step(s, 3, 0, 1, 0, 7, 0, 1);
    lemma_q_sum_step(s, 4, 0, 1, 0, 16, 0, 1);
    lemma_q_sum_step(s, 5, 0, 1, 0, 13, 0, 1);
    lemma_q_sum_step(s, 6, 0, 1, 0, 1, 0, 1);
}

proof fn lemma_rktp64_dense_1_0()
    ensures
        q_eq(q_dot(bi_column(rktp64_model(), 0), elementary_weights(rktp64_model().a, 1)), q(0, 1)),
{
    let m = rktp64_model();
    lemma_rktp64_shape();
    lemma_rktp64_phi_1();
    assert(bi_column(m, 0) =~= seq![q(0, 1), q(0, 1), q(0, 1), q(0, 1), q(0, 1), q(0, 1), q(0, 1)]);
    lemma_q_dot_congruent(bi_column(m, 0), elementary_weights(m.a, 1), seq![q(0, 1), q(4, 27), q(2, 9), q(3, 7), q(11, 16), q(10, 13), q(1, 1)]);
    lemma_rktp64_dense_sum_6();
    lemma_q_eq_value(0, 1, 0, 1);
    lemma_q_eq_trans(q_dot(bi_column(m, 0), elementary_weights(m.a, 1)), q_dot(seq![q(0, 1), q(0, 1), q(0, 1), q(0, 1), q(0, 1), q(0, 1), q(0, 1)], seq![q(0, 1), q(4, 27), q(2, 9), q(3, 7), q(11, 16), q(10, 13), q(1, 1)]), q(0, 1));
}

proof fn lemma_rktp64_dense_sum_7()
    ensures
        q_eq(q_dot(seq![q(1, 1), q(0, 1), q(0, 1), q(0, 1), q(0, 1), q(0, 1), q(0, 1)], seq![q(0, 1), q(4, 27), q(2, 9), q(3, 7), q(11, 16), q(10, 13), q(1, 1)]), q(0, 1)),
        q_valid(q_dot(seq![q(1, 1), q(0, 1), q(0, 1), q(0, 1), q(0, 1), q(0, 1), q(0, 1)], seq![q(0, 1), q(4, 27), q(2, 9), q(3, 7), q(11, 16), q(10, 13), q(1, 1)])),
{
    let x = seq![q(1, 1), q(0, 1), q(0, 1), q(0, 1), q(0, 1), q(0, 1), q(0, 1)];
    let y = seq![q(0, 1), q(4, 27), q(2, 9), q(3, 7), q(11, 16), q(10, 13), q(1, 1)];
    let s = q_hadamard(x, y);
    assert(s.len() == 7);
    lemma_q_hadamard_entry(x, y, 0, 1, 1, 0, 1);
    lemma_q_hadamard_entry(x, y, 1, 0, 1, 4, 27);
    lemma_q_hadamard_entry(x, y, 2, 0, 1, 2, 9);
    lemma_q_hadamard_entry(x, y, 3, 0, 1, 3, 7);
    lemma_q_hadamard_entry(x, y, 4, 0, 1, 11, 16);
    lemma_q_hadamard_entry(x, y, 5, 0, 1, 10, 13);
    lemma_q_hadamard_entry(x, y, 6, 0, 1, 1, 1);
    assert(q_sum_to(s, 0) == q(0, 1));
    lemma_q_eq_value(0, 1, 0, 1);
    lemma_q_sum_step(s, 0, 0, 1, 0, 1, 0, 1);
    lemma_q_sum_step(s, 1, 0, 1, 0, 27, 0, 1);
    lemma_q_sum_step(s, 2, 0, 1, 0, 9, 0, 1);
    lemma_q_sum_step(s, 3, 0, 1, 0, 7, 0, 1);
    lemma_q_sum_step(s, 4, 0, 1, 0, 16, 0, 1);
    lemma_q_sum_step(s, 5, 0, 1, 0, 13, 0, 1);
    lemma_q_sum_step(s, 6, 0, 1, 0, 1, 0, 1);
}

proof fn lemma_rktp64_dense_1_1()
    ensures
        q_eq(q_dot(bi_column(rktp64_model(), 1), elementary_weights(rktp64_model().a, 1)), q(0, 1)),
{
    let m = rktp64_model();
    lemma_rktp64_shape();
    lemma_rktp64_phi_1();
    assert(bi_column(m, 1) =~= seq![q(1, 1), q(0, 1), q(0, 1), q(0, 1), q(0, 1), q(0, 1), q(0, 1)]);
    lemma_q_dot_congruent(bi_column(m, 1), elementary_weights(m.a, 1), seq![q(0, 1), q(4, 27), q(2, 9), q(3, 7), q(11, 16), q(10, 13), q(1, 1)]);
    lemma_rktp64_dense_sum_7();
    lemma_q_eq_value(0, 1, 0, 1);
    lemma_q_eq_trans(q_dot(bi_column(m, 1), elementary_weights(m.a, 1)), q_dot(seq![q(1, 1), q(0, 1), q(0, 1), q(0, 1), q(0, 1), q(0, 1), q(0, 1)], seq![q(0, 1), q(4, 27), q(2, 9), q(3, 7), q(11, 16), q(10, 13), q(1, 1)]), q(0, 1));
}

proof fn lemma_rktp64_dense_sum_8()
    ensures
        q_eq(q_dot(seq![q(-287, 90), q(0, 1), q(191241, 60970), q(195853, 135720), q(-268288, 145725), q(0, 1), q(1891, 4200)], seq![q(0, 1), q(4, 27), q(2, 9), q(3, 7), q(11, 16), q(10, 13), q(1, 1)]), q(1, 2)),
        q_valid(q_dot(seq![q(-287, 90), q(0, 1), q(191241, 60970), q(195853, 135720), q(-268288, 145725), q(0, 1), q(1891, 4200)], seq![q(0, 1), q(4, 27), q(2, 9), q(3, 7), q(11, 16), q(10, 13), q(1, 1)])),
{
    let x = seq![q(-287, 90), q(0, 1), q(191241, 60970), q(195853, 135720), q(-268288, 145725), q(0, 1), q(1891, 4200)];
    let y = seq![q(0, 1), q(4, 27), q(2, 9), q(3, 7), q(11, 16), q(10, 13), q(1, 1)];
    let s = q_hadamard(x, y);
    assert(s.len() == 7);
    lemma_q_hadamard_entry(x, y, 0, -287, 90, 0, 1);
    lemma_q_hadamard_entry(x, y, 1, 0, 1, 4, 27);
    lemma_q_hadamard_entry(x, y, 2, 191241, 60970, 2, 9);
    lemma_q_hadamard_entry(x, y, 3, 195853, 135720, 3, 7);
    lemma_q_hadamard_entry(x, y, 4, -268288, 145725, 11, 16);
    lemma_q_hadamard_entry(x, y, 5, 0, 1, 10, 13);
    lemma_q_hadamard_entry(x, y, 6, 1891, 4200, 1, 1);
    assert(q_sum_to(s, 0) == q(0, 1));
    lemma_q_eq_value(0, 1, 0, 1);
    lemma_q_sum_step(s, 0, 0, 1, 0, 90, 0, 1);
    lemma_q_sum_step(s, 1, 0, 1, 0, 27, 0, 1);
    lemma_q_sum_step(s, 2, 0, 1, 382482, 548730, 21249, 30485);
    lemma_q_sum_step(s, 3, 21249, 30485, 587559, 950040, 429407, 326424);
    lemma_q_sum_step(s, 4, 429407, 326424, -2951168, 2331600, 209, 4200);
    lemma_q_sum_step(s, 5, 209, 4200, 0, 13, 209, 4200);
    lemma_q_sum_step(s, 6, 209, 4200, 1891, 4200, 1, 2);
}

proof fn lemma_rktp64_dense_1_2()
    ensures
        q_eq(q_dot(bi_column(rktp64_model(), 2), elementary_weights(rktp64_model().a, 1)), q(1, 2)),
{
    let m = rktp64_model();
    lemma_rktp64_shape();
    lemma_rktp64_phi_1();
    assert(bi_column(m, 2) =~= seq![q(-287, 90), q(0, 1), q(191241, 60970), q(195853, 135720), q(-268288, 145725), q(0, 1), q(1891, 4200)]);
    lemma_q_dot_congruent(bi_column(m, 2), elementary_weights(m.a, 1), seq![q(0, 1), q(4, 27), q(2, 9), q(3, 7), q(11, 16), q(10, 13), q(1, 1)]);
    lemma_rktp64_dense_sum_8();
    lemma_q_eq_value(1, 2, 1, 2);
    lemma_q_eq_trans(q_dot(bi_column(m, 2), elementary_weights(m.a, 1)), q_dot(seq![q(-287, 90), q(0, 1), q(191241, 60970), q(195853, 135720), q(-268288, 145725), q(0, 1), q(1891, 4200)], seq![q(0, 1), q(4, 27), q(2, 9), q(3, 7), q(11, 16), q(10, 13), q(1, 1)]), q(1, 2));
}

proof fn lemma_rktp64_dense_sum_9()
    ensures
        q_eq(q_dot(seq![q(98, 27), q(0, 1), q(-29727, 6097), q(-3773, 1404), q(16384, 3015), q(0, 1), q(-1891, 1260)], seq![q(0, 1), q(4, 27), q(2, 9), q(3, 7), q(11, 16), q(10, 13), q(1, 1)]), q(0, 1)),
        q_valid(q_dot(seq![q(98, 27), q(0, 1), q(-29727, 6097), q(-3773, 1404), q(16384, 3015), q(0, 1), q(-1891, 1260)], seq![q(0, 1), q(4, 27), q(2, 9), q(3, 7), q(11, 16), q(10, 13), q(1, 1)])),
{
    let x = seq![q(98, 27), q(0, 1), q(-29727, 6097), q(-3773, 1404), q(16384, 3015), q(0, 1), q(-1891, 1260)];
    let y = seq![q(0, 1), q(4, 27), q(2, 9), q(3, 7), q(11, 16), q(10, 13), q(1, 1)];
    let s = q_hadamard(x, y);
    assert(s.len() == 7);
    lemma_q_hadamard_entry(x, y, 0, 98, 27, 0, 1);
    lemma_q_hadamard_entry(x, y, 1, 0, 1, 4, 27);
    lemma_q_hadamard_entry(x, y, 2, -29727, 6097, 2, 9);
    lemma_q_hadamard_entry(x, y, 3, -3773, 1404, 3, 7);
    lemma_q_hadamard_entry(x, y, 4, 16384, 3015, 11, 16);
    lemma_q_hadamard_entry(x, y, 5, 0, 1, 10, 13);
    lemma_q_hadamard_entry(x, y, 6, -1891, 1260, 1, 1);
    assert(q_sum_to(s, 0) == q(0, 1));
    lemma_q_eq_value(0, 1, 0, 1);
    lemma_q_sum_step(s, 0, 0, 1, 0, 27, 0, 1);
    lemma_q_sum_step(s, 1, 0, 1, 0, 27, 0, 1);
    lemma_q_sum_step(s, 2, 0, 1, -59454, 54873, -6606, 6097);
    lemma_q_sum_step(s, 3, -6606, 6097, -11319, 9828, -37739, 16884);
    lemma_q_sum_step(s, 4, -37739, 16884, 180224, 48240, 1891, 1260);
    lemma_q_sum_step(s, 5, 1891, 1260, 0, 13, 1891, 1260);
    lemma_q_sum_step(s, 6, 1891, 1260, -1891, 1260, 0, 1);
}

proof fn lemma_rktp64_dense_1_3()
    ensures
        q_eq(q_dot(bi_column(rktp64_model(), 3), elementary_weights(rktp64_model().a, 1)), q(0, 1)),
{
    let m = rktp64_model();
    lemma_rktp64_shape();
    lemma_rktp64_phi_1();
    assert(bi_column(m, 3) =~= seq![q(98, 27), q(0, 1), q(-29727, 6097), q(-3773, 1404), q(16384, 3015), q(0, 1), q(-1891, 1260)]);
    lemma_q_dot_congruent(bi_column(m, 3), elementary_weights(m.a, 1), seq![q(0, 1), q(4, 27), q(2, 9), q(3, 7), q(11, 16), q(10, 13), q(1, 1)]);
    lemma_rktp64_dense_sum_9();
    lemma_q_eq_value(0, 1, 0, 1);
    lemma_q_eq_trans(q_dot(bi_column(m, 3), elementary_weights(m.a, 1)), q_dot(seq![q(98, 27), q(0, 1), q(-29727, 6097), q(-3773, 1404), q(16384, 3015), q(0, 1), q(-1891, 1260)], seq![q(0, 1), q(4, 27), q(2, 9), q(3, 7), q(11, 16), q(10, 13), q(1, 1)]), q(0, 1));
}

proof fn lemma_rktp64_dense_sum_10()
    ensures
        q_eq(q_dot(seq![q(-7387, 5400), q(0, 1), q(7907787, 3902080), q(36199877, 25243920), q(-5183488, 1486395), q(4084223, 15177600), q(1891, 1680)], seq![q(0, 1), q(4, 27), q(2, 9), q(3, 7), q(11, 16), q(10, 13), q(1, 1)]), q(0, 1)),
        q_valid(q_dot(seq![q(-7387, 5400), q(0, 1), q(7907787, 3902080), q(36199877, 25243920), q(-5183488, 1486395), q(4084223, 15177600), q(1891, 1680)], seq![q(0, 1), q(4, 27), q(2, 9), q(3, 7), q(11, 16), q(10, 13), q(1, 1)])),
{
    let x = seq![q(-7387, 5400), q(0, 1), q(7907787, 3902080), q(36199877, 25243920), q(-5183488, 1486395), q(4084223, 15177600), q(1891, 1680)];
    let y = seq![q(0, 1), q(4, 27), q(2, 9), q(3, 7), q(11, 16), q(10, 13), q(1, 1)];
    let s = q_hadamard(x, y);
    assert(s.len() == 7);
    lemma_q_hadamard_entry(x, y, 0, -7387, 5400, 0, 1);
    lemma_q_hadamard_entry(x, y, 1, 0, 1, 4, 27);
    lemma_q_hadamard_entry(x, y, 2, 7907787, 3902080, 2, 9);
    lemma_q_hadamard_entry(x, y, 3, 36199877, 25243920, 3, 7);
    lemma_q_hadamard_entry(x, y, 4, -5183488, 1486395, 11, 16);
    lemma_q_hadamard_entry(x, y, 5, 4084223, 15177600, 10, 13);
    lemma_q_hadamard_entry(x, y, 6, 1891, 1680, 1, 1);
    assert(q_sum_to(s, 0) == q(0, 1));
    lemma_q_eq_value(0, 1, 0, 1);
    lemma_q_sum_step(s, 0, 0, 1, 0, 5400, 0, 1);
    lemma_q_sum_step(s, 1, 0, 1, 0, 27, 0, 1);
    lemma_q_sum_step(s, 2, 0, 1, 15815574, 35118720, 878643, 1951040);
    lemma_q_sum_step(s, 3, 878643, 1951040, 108599631, 176707440, 1293128273, 1214297280);
    lemma_q_sum_step(s, 4, 1293128273, 1214297280, -57018368, 23782320, -14157881, 10624320);
    lemma_q_sum_step(s, 5, -14157881, 10624320, 40842230, 197308800, -1891, 1680);
    lemma_q_sum_step(s, 6, -1891, 1680, 1891, 1680, 0, 1);
}

proof fn lemma_rktp64_dense_1_4()
    ensures
        q_eq(q_dot(bi_column(rktp64_model(), 4), elementary_weights(rktp64_model().a, 1)), q(0, 1)),
{
    let m = rktp64_model();
    lemma_rktp64_shape();
    lemma_rktp64_phi_1();
    assert(bi_column(m, 4) =~= seq![q(-7387, 5400), q(0, 1), q(7907787, 3902080), q(36199877, 25243920), q(-5183488, 1486395), q(4084223, 15177600), q(1891, 1680)]);
    lemma_q_dot_congruent(bi_column(m, 4), elementary_weights(m.a, 1), seq![q(0, 1), q(4, 27), q(2, 9), q(3, 7), q(11, 16), q(10, 13), q(1, 1)]);
    lemma_rktp64_dense_sum_10();
    lemma_q_eq_value(0, 1, 0, 1);
    lemma_q_eq_trans(q_dot(bi_column(m, 4), elementary_weights(m.a, 1)), q_dot(seq![q(-7387, 5400), q(0, 1), q(7907787, 3902080), q(36199877, 25243920), q(-5183488, 1486395), q(4084223, 15177600), q(1891, 1680)], seq![q(0, 1), q(4, 27), q(2, 9), q(3, 7), q(11, 16), q(10, 13), q(1, 1)]), q(0, 1));
}

proof fn lemma_rktp64_dense_sum_11()
    ensures
        q_eq(q_dot(seq![q(0, 1), q(0, 1), q(0, 1), q(0, 1), q(0, 1), q(0, 1), q(0, 1)], seq![q(0, 1), q(16, 729), q(4, 81), q(9, 49), q(121, 256), q(100, 169), q(1, 1)]), q(0, 1)),
        q_valid(q_dot(seq![q(0, 1), q(0, 1), q(0, 1), q(0, 1), q(0, 1), q(0, 1), q(0, 1)], seq![q(0, 1), q(16, 729), q(4, 81), q(9, 49), q(121, 256), q(100, 169), q(1, 1)])),
{
    let x = seq![q(0, 1), q(0, 1), q(0, 1), q(0, 1), q(0, 1), q(0, 1), q(0, 1)];
    let y = seq![q(0, 1), q(16, 729), q(4, 81), q(9, 49), q(121, 256), q(100, 169), q(1, 1)];
    let s = q_hadamard(x, y);
    assert(s.len() == 7);
    lemma_q_hadamard_entry(x, y, 0, 0, 1, 0, 1);
    lemma_q_hadamard_entry(x, y, 1, 0, 1, 16, 729);
    lemma_q_hadamard_entry(x, y, 2, 0, 1, 4, 81);
    lemma_q_hadamard_entry(x, y, 3, 0, 1, 9, 49);
    lemma_q_hadamard_entry(x, y, 4, 0, 1, 121, 256);
    lemma_q_hadamard_entry(x, y, 5, 0, 1, 100, 169);
    lemma_q_hadamard_entry(x, y, 6, 0, 1, 1, 1);
    assert(q_sum_to(s, 0) == q(0, 1));
    lemma_q_eq_value(0, 1, 0, 1);
    lemma_q_sum_step(s, 0, 0, 1, 0, 1, 0, 1);
    lemma_q_sum_step(s, 1, 0, 1, 0, 729, 0, 1);
    lemma_q_sum_step(s, 2, 0, 1, 0, 81, 0, 1);
    lemma_q_sum_step(s, 3, 0, 1, 0, 49, 0, 1);
    lemma_q_sum_step(s, 4, 0, 1, 0, 256, 0, 1);
    lemma_q_sum_step(s, 5, 0, 1, 0, 169, 0, 1);
    lemma_q_sum_step(s, 6, 0, 1, 0, 1, 0, 1);
}

proof fn lemma_rktp64_dense_2_0()
    ensures
        q_eq(q_dot(bi_column(rktp64_model(), 0), elementary_weights(rktp64_model().a, 2)), q(0, 1)),
{
    let m = rktp64_model();
    lemma_rktp64_shape();
    lemma_rktp64_phi_2();
    assert(bi_column(m, 0) =~= seq![q(0, 1), q(0, 1), q(0, 1), q(0, 1), q(0, 1), q(0, 1), q(0, 1)]);
    lemma_q_dot_congruent(bi_column(m, 0), elementary_weights(m.a, 2), seq![q(0, 1), q(16, 729), q(4, 81), q(9, 49), q(121, 256), q(100, 169), q(1, 1)]);
    lemma_rktp64_dense_sum_11();
    lemma_q_eq_value(0, 1, 0, 1);
    lemma_q_eq_trans(q_dot(bi_column(m, 0), elementary_weights(m.a, 2)), q_dot(seq![q(0, 1), q(0, 1), q(0, 1), q(0, 1), q(0, 1), q(0, 1), q(0, 1)], seq![q(0, 1), q(16, 729), q(4, 81), q(9, 49), q(121, 256), q(100, 169), q(1, 1)]), q(0, 1));
}

proof fn lemma_rktp64_dense_sum_12()
    ensures
        q_eq(q_dot(seq![q(1, 1), q(0, 1), q(0, 1), q(0, 1), q(0, 1), q(0, 1), q(0, 1)], seq![q(0, 1), q(16, 729), q(4, 81), q(9, 49), q(121, 256), q(100, 169), q(1, 1)]), q(0, 1)),
        q_valid(q_dot(seq![q(1, 1), q(0, 1), q(0, 1), q(0, 1), q(0, 1), q(0, 1), q(0, 1)], seq![q(0, 1), q(16, 729), q(4, 81), q(9, 49), q(121, 256), q(100, 169), q(1, 1)])),
{
    let x = seq![q(1, 1), q(0, 1), q(0, 1), q(0, 1), q(0, 1), q(0, 1), q(0, 1)];
    let y = seq![q(0, 1), q(16, 729), q(4, 81), q(9, 49), q(121, 256), q(100, 169), q(1, 1)];
    let s = q_hadamard(x, y);
    assert(s.len() == 7);
    lemma_q_hadamard_entry(x, y, 0, 1, 1, 0, 1);
    lemma_q_hadamard_entry(x, y, 1, 0, 1, 16, 729);
    lemma_q_hadamard_entry(x, y, 2, 0, 1, 4, 81);
    lemma_q_hadamard_entry(x, y, 3, 0, 1, 9, 49);
    lemma_q_hadamard_entry(x, y, 4, 0, 1, 121, 256);
    lemma_q_hadamard_entry(x, y, 5, 0, 1, 100, 169);
    lemma_q_hadamard_entry(x, y, 6, 0, 1, 1, 1);
    assert(q_sum_to(s, 0) == q(0, 1));
    lemma_q_eq_value(0, 1, 0, 1);
    lemma_q_sum_step(s, 0, 0, 1, 0, 1, 0, 1);
    lemma_q_sum_step(s, 1, 0, 1, 0, 729, 0, 1);
    lemma_q_sum_step(s, 2, 0, 1, 0, 81, 0, 1);
    lemma_q_sum_step(s, 3, 0, 1, 0, 49, 0, 1);
    lemma_q_sum_step(s, 4, 0, 1, 0, 256, 0, 1);
    lemma_q_sum_step(s, 5, 0, 1, 0, 169, 0, 1);
    lemma_q_sum_step(s, 6, 0, 1, 0, 1, 0, 1);
}

proof fn lemma_rktp64_dense_2_1()
    ensures
        q_eq(q_dot(bi_column(rktp64_model(), 1), elementary_weights(rktp64_model().a, 2)), q(0, 1)),
{
    let m = rktp64_model();
    lemma_rktp64_shape();
    lemma_rktp64_phi_2();
    assert(bi_column(m, 1) =~= seq![q(1, 1), q(0, 1), q(0, 1), q(0, 1), q(0, 1), q(0, 1), q(0, 1)]);
    lemma_q_dot_congruent(bi_column(m, 1), elementary_weights(m.a, 2), seq![q(0, 1), q(16, 729), q(4, 81), q(9, 49), q(121, 256), q(100, 169), q(1, 1)]);
    lemma_rktp64_dense_sum_12();
    lemma_q_eq_value(0, 1, 0, 1);
    lemma_q_eq_trans(q_dot(bi_column(m, 1), elementary_weights(m.a, 2)), q_dot(seq![q(1, 1), q(0, 1), q(0, 1), q(0, 1), q(0, 1), q(0, 1), q(0, 1)], seq![q(0, 1), q(16, 729), q(4, 81), q(9, 49), q(121, 256), q(100, 169), q(1, 1)]), q(0, 1));
}

proof fn lemma_rktp64_dense_sum_13()
    ensures
        q_eq(q_dot(seq![q(-287, 90), q(0, 1), q(191241, 60970), q(195853, 135720), q(-268288, 145725), q(0, 1), q(1891, 4200)], seq![q(0, 1), q(16, 729), q(4, 81), q(9, 49), q(121, 256), q(100, 169), q(1, 1)]), q(0, 1)),
        q_valid(q_dot(seq![q(-287, 90), q(0, 1), q(191241, 60970), q(195853, 135720), q(-268288, 145725), q(0, 1), q(1891, 4200)], seq![q(0, 1), q(16, 729), q(4, 81), q(9, 49), q(121, 256), q(100, 169), q(1, 1)])),
{
    let x = seq![q(-287, 90), q(0, 1), q(191241, 60970), q(195853, 135720), q(-268288, 145725), q(0, 1), q(1891, 4200)];
    let y = seq![q(0, 1), q(16, 729), q(4, 81), q(9, 49), q(121, 256), q(100, 169), q(1, 1)];
    let s = q_hadamard(x, y);
    assert(s.len() == 7);
    lemma_q_hadamard_entry(x, y, 0, -287, 90, 0, 1);
    lemma_q_hadamard_entry(x, y, 1, 0, 1, 16, 729);
    lemma_q_hadamard_entry(x, y, 2, 191241, 60970, 4, 81);
    lemma_q_hadamard_entry(x, y, 3, 195853, 135720, 9, 49);
    lemma_q_hadamard_entry(x, y, 4, -268288, 145725, 121, 256);
    lemma_q_hadamard_entry(x, y, 5, 0, 1, 100, 169);
    lemma_q_hadamard_entry(x, y, 6, 1891, 4200, 1, 1);
    assert(q_sum_to(s, 0) == q(0, 1));
    lemma_q_eq_value(0, 1, 0, 1);
    lemma_q_sum_step(s, 0, 0, 1, 0, 90, 0, 1);
    lemma_q_sum_step(s, 1, 0, 1, 0, 729, 0, 1);
    lemma_q_sum_step(s, 2, 0, 1, 764964, 4938570, 4722, 30485);
    lemma_q_sum_step(s, 3, 4722, 30485, 1762677, 6650280, 228469, 544040);
    lemma_q_sum_step(s, 4, 228469, 544040, -32462848, 37305600, -1891, 4200);
    lemma_q_sum_step(s, 5, -1891, 4200, 0, 169, -1891, 4200);
    lemma_q_sum_step(s, 6, -1891, 4200, 1891, 4200, 0, 1);
}

proof fn lemma_rktp64_dense_2_2()
    ensures
        q_eq(q_dot(bi_column(rktp64_model(), 2), elementary_weights(rktp64_model().a, 2)), q(0, 1)),
{
    let m = rktp64_model();
    lemma_rktp64_shape();
    lemma_rktp64_phi_2();
    assert(bi_column(m, 2) =~= seq![q(-287, 90), q(0, 1), q(191241, 60970), q(195853, 135720), q(-268288, 145725), q(0, 1), q(1891, 4200)]);
    lemma_q_dot_congruent(bi_column(m, 2), elementary_weights(m.a, 2), seq![q(0, 1), q(16, 729), q(4, 81), q(9, 49), q(121, 256), q(100, 169), q(1, 1)]);
    lemma_rktp64_dense_sum_13();
    lemma_q_eq_value(0, 1, 0, 1);
    lemma_q_eq_trans(q_dot(bi_column(m, 2), elementary_weights(m.a, 2)), q_dot(seq![q(-287, 90), q(0, 1), q(191241, 60970), q(195853, 135720), q(-268288, 145725), q(0, 1), q(1891, 4200)], seq![q(0, 1), q(16, 729), q(4, 81), q(9, 49), q(121, 256), q(100, 169), q(1, 1)]), q(0, 1));
}

proof fn lemma_rktp64_dense_sum_14()
    ensures
        q_eq(q_dot(seq![q(98, 27), q(0, 1), q(-29727, 6097), q(-3773, 1404), q(16384, 3015), q(0, 1), q(-1891, 1260)], seq![q(0, 1), q(16, 729), q(4, 81), q(9, 49), q(121, 256), q(100, 169), q(1, 1)]), q(1, 3)),
        q_valid(q_dot(seq![q(98, 27), q(0, 1), q(-29727, 6097), q(-3773, 1404), q(16384, 3015), q(0, 1), q(-1891, 1260)], seq![q(0, 1), q(16, 729), q(4, 81), q(9, 49), q(121, 256), q(100, 169), q(1, 1)])),
{
    let x = seq![q(98, 27), q(0, 1), q(-29727, 6097), q(-3773, 1404), q(16384, 3015), q(0, 1), q(-1891, 1260)];
    let y = seq![q(0, 1), q(16, 729), q(4, 81), q(9, 49), q(121, 256), q(100, 169), q(1, 1)];
    let s = q_hadamard(x, y);
    assert(s.len() == 7);
    lemma_q_hadamard_entry(x, y, 0, 98, 27, 0, 1);
    lemma_q_hadamard_entry(x, y, 1, 0, 1, 16, 729);
    lemma_q_hadamard_entry(x, y, 2, -29727, 6097, 4, 81);
    lemma_q_hadamard_entry(x, y, 3, -3773, 1404, 9, 49);
    lemma_q_hadamard_entry(x, y, 4, 16384, 3015, 121, 256);
    lemma_q_hadamard_entry(x, y, 5, 0, 1, 100, 169);
    lemma_q_hadamard_entry(x, y, 6, -1891, 1260, 1, 1);
    assert(q_sum_to(s, 0) == q(0, 1));
    lemma_q_eq_value(0, 1, 0, 1);
    lemma_q_sum_step(s, 0, 0, 1, 0, 27, 0, 1);
    lemma_q_sum_step(s, 1, 0, 1, 0, 729, 0, 1);
    lemma_q_sum_step(s, 2, 0, 1, -118908, 493857, -1468, 6097);
    lemma_q_sum_step(s, 3, -1468, 6097, -33957, 68796, -4133, 5628);
    lemma_q_sum_step(s, 4, -4133, 5628, 1982464, 771840, 2311, 1260);
    lemma_q_sum_step(s, 5, 2311, 1260, 0, 169, 2311, 1260);
    lemma_q_sum_step(s, 6, 2311, 1260, -1891, 1260, 1, 3);
}

proof fn lemma_rktp64_dense_2_3()
    ensures
        q_eq(q_dot(bi_column(rktp64_model(), 3), elementary_weights(rktp64_model().a, 2)), q(1, 3)),
{
    let m = rktp64_model();
    lemma_rktp64_shape();
    lemma_rktp64_phi_2();
    assert(bi_column(m, 3) =~= seq![q(98, 27), q(0, 1), q(-29727, 6097), q(-3773, 1404), q(16384, 3015), q(0, 1), q(-1891, 1260)]);
    lemma_q_dot_congruent(bi_column(m, 3), elementary_weights(m.a, 2), seq![q(0, 1), q(16, 729), q(4, 81), q(9, 49), q(121, 256), q(100, 169), q(1, 1)]);
    lemma_rktp64_dense_sum_14();
    lemma_q_eq_value(1, 3, 1, 3);
    lemma_q_eq_trans(q_dot(bi_column(m, 3), elementary_weights(m.a, 2)), q_dot(seq![q(98, 27), q(0, 1), q(-29727, 6097), q(-3773, 1404), q(16384, 3015), q(0, 1), q(-1891, 1260)], seq![q(0, 1), q(16, 729), q(4, 81), q(9, 49), q(121, 256), q(100, 169), q(1, 1)]), q(1, 3));
}

proof fn lemma_rktp64_dense_sum_15()
    ensures
        q_eq(q_dot(seq![q(-7387, 5400), q(0, 1), q(7907787, 3902080), q(36199877, 25243920), q(-5183488, 1486395), q(4084223, 15177600), q(1891, 1680)], seq![q(0, 1), q(16, 729), q(4, 81), q(9, 49), q(121, 256), q(100, 169), q(1, 1)]), q(0, 1)),
        q_valid(q_dot(seq![q(-7387, 5400), q(0, 1), q(7907787, 3902080), q(36199877, 25243920), q(-5183488, 1486395), q(4084223, 15177600), q(1891, 1680)], seq![q(0, 1), q(16, 729), q(4, 81), q(9, 49), q(121, 256), q(100, 169), q(1, 1)])),
{
    let x = seq![q(-7387, 5400), q(0, 1), q(7907787, 3902080), q(36199877, 25243920), q(-5183488, 1486395), q(4084223, 15177600), q(1891, 1680)];
    let y = seq![q(0, 1), q(16, 729), q(4, 81), q(9, 49), q(121, 256), q(100, 169), q(1, 1)];
    let s = q_hadamard(x, y);
    assert(s.len() == 7);
    lemma_q_hadamard_entry(x, y, 0, -7387, 5400, 0, 1);
    lemma_q_hadamard_entry(x, y, 1, 0, 1, 16, 729);
    lemma_q_hadamard_entry(x, y, 2, 7907787, 3902080, 4, 81);
    lemma_q_hadamard_entry(x, y, 3, 36199877, 25243920, 9, 49);
    lemma_q_hadamard_entry(x, y, 4, -5183488, 1486395, 121, 256);
    lemma_q_hadamard_entry(x, y, 5, 4084223, 15177600, 100, 169);
    lemma_q_hadamard_entry(x, y, 6, 1891, 1680, 1, 1);
    assert(q_sum_to(s, 0) == q(0, 1));
    lemma_q_eq_value(0, 1, 0, 1);
    lemma_q_sum_step(s, 0, 0, 1, 0, 5400, 0, 1);
    lemma_q_sum_step(s, 1, 0, 1, 0, 729, 0, 1);
    lemma_q_sum_step(s, 2, 0, 1, 31631148, 316068480, 97627, 975520);
    lemma_q_sum_step(s, 3, 97627, 975520, 325798893, 1236952080, 73559161, 202382880);
    lemma_q_sum_step(s, 4, 73559161, 202382880, -627202048, 380517120, -6825187, 5312160);
    lemma_q_sum_step(s, 5, -6825187, 5312160, 408422300, 2565014400, -1891, 1680);
    lemma_q_sum_step(s, 6, -1891, 1680, 1891, 1680, 0, 1);
}

proof fn lemma_rktp64_dense_2_4()
    ensures
        q_eq(q_dot(bi_column(rktp64_model(), 4), elementary_weights(rktp64_model().a, 2)), q(0, 1)),
{
    let m = rktp64_model();
    lemma_rktp64_shape();
    lemma_rktp64_phi_2();
    assert(bi_column(m, 4) =~= seq![q(-7387, 5400), q(0, 1), q(7907787, 3902080), q(36199877, 25243920), q(-5183488, 1486395), q(4084223, 15177600), q(1891, 1680)]);
    lemma_q_dot_congruent(bi_column(m, 4), elementary_weights(m.a, 2), seq![q(0, 1), q(16, 729), q(4, 81), q(9, 49), q(121, 256), q(100, 169), q(1, 1)]);
    lemma_rktp64_dense_sum_15();
    lemma_q_eq_value(0, 1, 0, 1);
    lemma_q_eq_trans(q_dot(bi_column(m, 4), elementary_weights(m.a, 2)), q_dot(seq![q(-7387, 5400), q(0, 1), q(7907787, 3902080), q(36199877, 25243920), q(-5183488, 1486395), q(4084223, 15177600), q(1891, 1680)], seq![q(0, 1), q(16, 729), q(4, 81), q(9, 49), q(121, 256), q(100, 169), q(1, 1)]), q(0, 1));
}

proof fn lemma_rktp64_dense_sum_16()
    ensures
        q_eq(q_dot(seq![q(0, 1), q(0, 1), q(0, 1), q(0, 1), q(0, 1), q(0, 1), q(0, 1)], seq![q(0, 1), q(0, 1), q(2, 81), q(9, 98), q(121, 512), q(50, 169), q(1, 2)]), q(0, 1)),
        q_valid(q_dot(seq![q(0, 1), q(0, 1), q(0, 1), q(0, 1), q(0, 1), q(0, 1), q(0, 1)], seq![q(0, 1), q(0, 1), q(2, 81), q(9, 98), q(121, 512), q(50, 169), q(1, 2)])),
{
    let x = seq![q(0, 1), q(0, 1), q(0, 1), q(0, 1), q(0, 1), q(0, 1), q(0, 1)];
    let y = seq![q(0, 1), q(0, 1), q(2, 81), q(9, 98), q(121, 512), q(50, 169), q(1, 2)];
    let s = q_hadamard(x, y);
    assert(s.len() == 7);
    lemma_q_hadamard_entry(x, y, 0, 0, 1, 0, 1);
    lemma_q_hadamard_entry(x, y, 1, 0, 1, 0, 1);
    lemma_q_hadamard_entry(x, y, 2, 0, 1, 2, 81);
    lemma_q_hadamard_entry(x, y, 3, 0, 1, 9, 98);
    lemma_q_hadamard_entry(x, y, 4, 0, 1, 121, 512);
    lemma_q_hadamard_entry(x, y, 5, 0, 1, 50, 169);
    lemma_q_hadamard_entry(x, y, 6, 0, 1, 1, 2);
    assert(q_sum_to(s, 0) == q(0, 1));
    lemma_q_eq_value(0, 1, 0, 1);
    lemma_q_sum_step(s, 0, 0, 1, 0, 1, 0, 1);
    lemma_q_sum_step(s, 1, 0, 1, 0, 1, 0, 1);
    lemma_q_sum_step(s, 2, 0, 1, 0, 81, 0, 1);
    lemma_q_sum_step(s, 3, 0, 1, 0, 98, 0, 1);
    lemma_q_sum_step(s, 4, 0, 1, 0, 512, 0, 1);
    lemma_q_sum_step(s, 5, 0, 1, 0, 169, 0, 1);
    lemma_q_sum_step(s, 6, 0, 1, 0, 2, 0, 1);
}

proof fn lemma_rktp64_dense_3_0()
    ensures
        q_eq(q_dot(bi_column(rktp64_model(), 0), elementary_weights(rktp64_model().a, 3)), q(0, 1)),
{
    let m = rktp64_model();
    lemma_rktp64_shape();
    lemma_rktp64_phi_3();
    assert(bi_column(m, 0) =~= seq![q(0, 1), q(0, 1), q(0, 1), q(0, 1), q(0, 1), q(0, 1), q(0, 1)]);
    lemma_q_dot_congruent(bi_column(m, 0), elementary_weights(m.a, 3), seq![q(0, 1), q(0, 1), q(2, 81), q(9, 98), q(121, 512), q(50, 169), q(1, 2)]);
    lemma_rktp64_dense_sum_16();
    lemma_q_eq_value(0, 1, 0, 1);
    lemma_q_eq_trans(q_dot(bi_column(m, 0), elementary_weights(m.a, 3)), q_dot(seq![q(0, 1), q(0, 1), q(0, 1), q(0, 1), q(0, 1), q(0, 1), q(0, 1)], seq![q(0, 1), q(0, 1), q(2, 81), q(9, 98), q(121, 512), q(50, 169), q(1, 2)]), q(0, 1));
}

proof fn lemma_rktp64_dense_sum_17()
    ensures
        q_eq(q_dot(seq![q(1, 1), q(0, 1), q(0, 1), q(0, 1), q(0, 1), q(0, 1), q(0, 1)], seq![q(0, 1), q(0, 1), q(2, 81), q(9, 98), q(121, 512), q(50, 169), q(1, 2)]), q(0, 1)),
        q_valid(q_dot(seq![q(1, 1), q(0, 1), q(0, 1), q(0, 1), q(0, 1), q(0, 1), q(0, 1)], seq![q(0, 1), q(0, 1), q(2, 81), q(9, 98), q(121, 512), q(50, 169), q(1, 2)])),
{
    let x = seq![q(1, 1), q(0, 1), q(0, 1), q(0, 1), q(0, 1), q(0, 1), q(0, 1)];
    let y = seq![q(0, 1), q(0, 1), q(2, 81), q(9, 98), q(121, 512), q(50, 169), q(1, 2)];
    let s = q_hadamard(x, y);
    assert(s.len() == 7);
    lemma_q_hadamard_entry(x, y, 0, 1, 1, 0, 1);
    lemma_q_hadamard_entry(x, y, 1, 0, 1, 0, 1);
    lemma_q_hadamard_entry(x, y, 2, 0, 1, 2, 81);
    lemma_q_hadamard_entry(x, y, 3, 0, 1, 9, 98);
    lemma_q_hadamard_entry(x, y, 4, 0, 1, 121, 512);
    lemma_q_hadamard_entry(x, y, 5, 0, 1, 50, 169);
    lemma_q_hadamard_entry(x, y, 6, 0, 1, 1, 2);
    assert(q_sum_to(s, 0) == q(0, 1));
    lemma_q_eq_value(0, 1, 0, 1);
    lemma_q_sum_step(s, 0, 0, 1, 0, 1, 0, 1);
    lemma_q_sum_step(s, 1, 0, 1, 0, 1, 0, 1);
    lemma_q_sum_step(s, 2, 0, 1, 0, 81, 0, 1);
    lemma_q_sum_step(s, 3, 0, 1, 0, 98, 0, 1);
    lemma_q_sum_step(s, 4, 0, 1, 0, 512, 0, 1);
    lemma_q_sum_step(s, 5, 0, 1, 0, 169, 0, 1);
    lemma_q_sum_step(s, 6, 0, 1, 0, 2, 0, 1);
}

proof fn lemma_rktp64_dense_3_1()
    ensures
        q_eq(q_dot(bi_column(rktp64_model(), 1), elementary_weights(rktp64_model().a, 3)), q(0, 1)),
{
    let m = rktp64_model();
    lemma_rktp64_shape();
    lemma_rktp64_phi_3();
    assert(bi_column(m, 1) =~= seq![q(1, 1), q(0, 1), q(0, 1), q(0, 1), q(0, 1), q(0, 1), q(0, 1)]);
    lemma_q_dot_congruent(bi_column(m, 1), elementary_weights(m.a, 3), seq![q(0, 1), q(0, 1), q(2, 81), q(9, 98), q(121, 512), q(50, 169), q(1, 2)]);
    lemma_rktp64_dense_sum_17();
    lemma_q_eq_value(0, 1, 0, 1);
    lemma_q_eq_trans(q_dot(bi_column(m, 1), elementary_weights(m.a, 3)), q_dot(seq![q(1, 1), q(0, 1), q(0, 1), q(0, 1), q(0, 1), q(0, 1), q(0, 1)], seq![q(0, 1), q(0, 1), q(2, 81), q(9, 98), q(121, 512), q(50, 169), q(1, 2)]), q(0, 1));
}

proof fn lemma_rktp64_dense_sum_18()
    ensures
        q_eq(q_dot(seq![q(-287, 90), q(0, 1), q(191241, 60970), q(195853, 135720), q(-268288, 145725), q(0, 1), q(1891, 4200)], seq![q(0, 1), q(0, 1), q(2, 81), q(9, 98), q(121, 512), q(50, 169), q(1, 2)]), q(0, 1)),
        q_valid(q_dot(seq![q(-287, 90), q(0, 1), q(191241, 60970), q(195853, 135720), q(-268288, 145725), q(0, 1), q(1891, 4200)], seq![q(0, 1), q(0, 1), q(2, 81), q(9, 98), q(121, 512), q(50, 169), q(1, 2)])),
{
    let x = seq![q(-287, 90), q(0, 1), q(191241, 60970), q(195853, 135720), q(-268288, 145725), q(0, 1), q(1891, 4200)];
    let y = seq![q(0, 1), q(0, 1), q(2, 81), q(9, 98), q(121, 512), q(50, 169), q(1, 2)];
    let s = q_hadamard(x, y);
    assert(s.len() == 7);
    lemma_q_hadamard_entry(x, y, 0, -287, 90, 0, 1);
    lemma_q_hadamard_entry(x, y, 1, 0, 1, 0, 1);
    lemma_q_hadamard_entry(x, y, 2, 191241, 60970, 2, 81);
    lemma_q_hadamard_entry(x, y, 3, 195853, 135720, 9, 98);
    lemma_q_hadamard_entry(x, y, 4, -268288, 145725, 121, 512);
    lemma_q_hadamard_entry(x, y, 5, 0, 1, 50, 169);
    lemma_q_hadamard_entry(x, y, 6, 1891, 4200, 1, 2);
    assert(q_sum_to(s, 0) == q(0, 1));
    lemma_q_eq_value(0, 1, 0, 1);
    lemma_q_sum_step(s, 0, 0, 1, 0, 90, 0, 1);
    lemma_q_sum_step(s, 1, 0, 1, 0, 1, 0, 1);
    lemma_q_sum_step(s, 2, 0, 1, 382482, 4938570, 2361, 30485);
    lemma_q_sum_step(s, 3, 2361, 30485, 1762677, 13300560, 228469, 1088080);
    lemma_q_sum_step(s, 4, 228469, 1088080, -32462848, 74611200, -1891, 8400);
    lemma_q_sum_step(s, 5, -1891, 8400, 0, 169, -1891, 8400);
    lemma_q_sum_step(s, 6, -1891, 8400, 1891, 8400, 0, 1);
}

proof fn lemma_rktp64_dense_3_2()
    ensures
        q_eq(q_dot(bi_column(rktp64_model(), 2), elementary_weights(rktp64_model().a, 3)), q(0, 1)),
{
    let m = rktp64_model();
    lemma_rktp64_shape();
    lemma_rktp64_phi_3();
    assert(bi_column(m, 2) =~= seq![q(-287, 90), q(0, 1), q(191241, 60970), q(195853, 135720), q(-268288, 145725), q(0, 1), q(1891, 4200)]);
    lemma_q_dot_congruent(bi_column(m, 2), elementary_weights(m.a, 3), seq![q(0, 1), q(0, 1), q(2, 81), q(9, 98), q(121, 512), q(50, 169), q(1, 2)]);
    lemma_rktp64_dense_sum_18();
    lemma_q_eq_value(0, 1, 0, 1);
    lemma_q_eq_trans(q_dot(bi_column(m, 2), elementary_weights(m.a, 3)), q_dot(seq![q(-287, 90), q(0, 1), q(191241, 60970), q(195853, 135720), q(-268288, 145725), q(0, 1), q(1891, 4200)], seq![q(0, 1), q(0, 1), q(2, 81), q(9, 98), q(121, 512), q(50, 169), q(1, 2)]), q(0, 1));
}

proof fn lemma_rktp64_dense_sum_19()
    ensures
        q_eq(q_dot(seq![q(98, 27), q(0, 1), q(-29727, 6097), q(-3773, 1404), q(16384, 3015), q(0, 1), q(-1891, 1260)], seq![q(0, 1), q(0, 1), q(2, 81), q(9, 98), q(121, 512), q(50, 169), q(1, 2)]), q(1, 6)),
        q_valid(q_dot(seq![q(98, 27), q(0, 1), q(-29727, 6097), q(-3773, 1404), q(16384, 3015), q(0, 1), q(-1891, 1260)], seq![q(0, 1), q(0, 1), q(2, 81), q(9, 98), q(121, 512), q(50, 169), q(1, 2)])),
{
    let x = seq![q(98, 27), q(0, 1), q(-29727, 6097), q(-3773, 1404), q(16384, 3015), q(0, 1), q(-1891, 1260)];
    let y = seq![q(0, 1), q(0, 1), q(2, 81), q(9, 98), q(121, 512), q(50, 169), q(1, 2)];
    let s = q_hadamard(x, y);
    assert(s.len() == 7);
    lemma_q_hadamard_entry(x, y, 0, 98, 27, 0, 1);
    lemma_q_hadamard_entry(x, y, 1, 0, 1, 0, 1);
    lemma_q_hadamard_entry(x, y, 2, -29727, 6097, 2, 81);
    lemma_q_hadamard_entry(x, y, 3, -3773, 1404, 9, 98);
    lemma_q_hadamard_entry(x, y, 4, 16384, 3015, 121, 512);
    lemma_q_hadamard_entry(x, y, 5, 0, 1, 50, 169);
    lemma_q_hadamard_entry(x, y, 6, -1891, 1260, 1, 2);
    assert(q_sum_to(s, 0) == q(0, 1));
    lemma_q_eq_value(0, 1, 0, 1);
    lemma_q_sum_step(s, 0, 0, 1, 0, 27, 0, 1);
    lemma_q_sum_step(s, 1, 0, 1, 0, 1, 0, 1);
    lemma_q_sum_step(s, 2, 0, 1, -59454, 493857, -734, 6097);
    lemma_q_sum_step(s, 3, -734, 6097, -33957, 137592, -4133, 11256);
    lemma_q_sum_step(s, 4, -4133, 11256, 1982464, 1543680, 2311, 2520);
    lemma_q_sum_step(s, 5, 2311, 2520, 0, 169, 2311, 2520);
    lemma_q_sum_step(s, 6, 2311, 2520, -1891, 2520, 1, 6);
}

proof fn lemma_rktp64_dense_3_3()
    ensures
        q_eq(q_dot(bi_column(rktp64_model(), 3), elementary_weights(rktp64_model().a, 3)), q(1, 6)),
{
    let m = rktp64_model();
    lemma_rktp64_shape();
    lemma_rktp64_phi_3();
    assert(bi_column(m, 3) =~= seq![q(98, 27), q(0, 1), q(-29727, 6097), q(-3773, 1404), q(16384, 3015), q(0, 1), q(-1891, 1260)]);
    lemma_q_dot_congruent(bi_column(m, 3), elementary_weights(m.a, 3), seq![q(0, 1), q(0, 1), q(2, 81), q(9, 98), q(121, 512), q(50, 169), q(1, 2)]);
    lemma_rktp64_dense_sum_19();
    lemma_q_eq_value(1, 6, 1, 6);
    lemma_q_eq_trans(q_dot(bi_column(m, 3), elementary_weights(m.a, 3)), q_dot(seq![q(98, 27), q(0, 1), q(-29727, 6097), q(-3773, 1404), q(16384, 3015), q(0, 1), q(-1891, 1260)], seq![q(0, 1), q(0, 1), q(2, 81), q(9, 98), q(121, 512), q(50, 169), q(1, 2)]), q(1, 6));
}

proof fn lemma_rktp64_dense_sum_20()
    ensures
        q_eq(q_dot(seq![q(-7387, 5400), q(0, 1), q(7907787, 3902080), q(36199877, 25243920), q(-5183488, 1486395), q(4084223, 15177600), q(1891, 1680)], seq![q(0, 1), q(0, 1), q(2, 81), q(9, 98), q(121, 512), q(50, 169), q(1, 2)]), q(0, 1)),
        q_valid(q_dot(seq![q(-7387, 5400), q(0, 1), q(7907787, 3902080), q(36199877, 25243920), q(-5183488, 1486395), q(4084223, 15177600), q(1891, 1680)], seq![q(0, 1), q(0, 1), q(2, 81), q(9, 98), q(121, 512), q(50, 169), q(1, 2)])),
{
    let x = seq![q(-7387, 5400), q(0, 1), q(7907787, 3902080), q(36199877, 25243920), q(-5183488, 1486395), q(4084223, 15177600), q(1891, 1680)];
    let y = seq![q(0, 1), q(0, 1), q(2, 81), q(9, 98), q(121, 512), q(50, 169), q(1, 2)];
    let s = q_hadamard(x, y);
    assert(s.len() == 7);
    lemma_q_hadamard_entry(x, y, 0, -7387, 5400, 0, 1);
    lemma_q_hadamard_entry(x, y, 1, 0, 1, 0, 1);
    lemma_q_hadamard_entry(x, y, 2, 7907787, 3902080, 2, 81);
    lemma_q_hadamard_entry(x, y, 3, 36199877, 25243920, 9, 98);
    lemma_q_hadamard_entry(x, y, 4, -5183488, 1486395, 121, 512);
    lemma_q_hadamard_entry(x, y, 5, 4084223, 15177600, 50, 169);
    lemma_q_hadamard_entry(x, y, 6, 1891, 1680, 1, 2);
    assert(q_sum_to(s, 0) == q(0, 1));
    lemma_q_eq_value(0, 1, 0, 1);
    lemma_q_sum_step(s, 0, 0, 1, 0, 5400, 0, 1);
    lemma_q_sum_step(s, 1, 0, 1, 0, 1, 0, 1);
    lemma_q_sum_step(s, 2, 0, 1, 15815574, 316068480, 97627, 1951040);
    lemma_q_sum_step(s, 3, 97627, 1951040, 325798893, 2473904160, 73559161, 404765760);
    lemma_q_sum_step(s, 4, 73559161, 404765760, -627202048, 761034240, -6825187, 10624320);
    lemma_q_sum_step(s, 5, -6825187, 10624320, 204211150, 2565014400, -1891, 3360);
    lemma_q_sum_step(s, 6, -1891, 3360, 1891, 3360, 0, 1);
}

proof fn lemma_rktp64_dense_3_4()
    ensures
        q_eq(q_dot(bi_column(rktp64_model(), 4), elementary_weights(rktp64_model().a, 3)), q(0, 1)),
{
    let m = rktp64_model();
    lemma_rktp64_shape();
    lemma_rktp64_phi_3();
    assert(bi_column(m, 4) =~= seq![q(-7387, 5400), q(0, 1), q(7907787, 3902080), q(36199877, 25243920), q(-5183488, 1486395), q(4084223, 15177600), q(1891, 1680)]);
    lemma_q_dot_congruent(bi_column(m, 4), elementary_weights(m.a, 3), seq![q(0, 1), q(0, 1), q(2, 81), q(9, 98), q(121, 512), q(50, 169), q(1, 2)]);
    lemma_rktp64_dense_sum_20();
    lemma_q_eq_value(0, 1, 0, 1);
    lemma_q_eq_trans(q_dot(bi_column(m, 4), elementary_weights(m.a, 3)), q_dot(seq![q(-7387, 5400), q(0, 1), q(7907787, 3902080), q(36199877, 25243920), q(-5183488, 1486395), q(4084223, 15177600), q(1891, 1680)], seq![q(0, 1), q(0, 1), q(2, 81), q(9, 98), q(121, 512), q(50, 169), q(1, 2)]), q(0, 1));
}

proof fn lemma_rktp64_dense_sum_21()
    ensures
        q_eq(q_dot(seq![q(0, 1), q(0, 1), q(0, 1), q(0, 1), q(0, 1), q(0, 1), q(0, 1)], seq![q(0, 1), q(64, 19683), q(8, 729), q(27, 343), q(1331, 4096), q(1000, 2197), q(1, 1)]), q(0, 1)),
        q_valid(q_dot(seq![q(0, 1), q(0, 1), q(0, 1), q(0, 1), q(0, 1), q(0, 1), q(0, 1)], seq![q(0, 1), q(64, 19683), q(8, 729), q(27, 343), q(1331, 4096), q(1000, 2197), q(1, 1)])),
{
    let x = seq![q(0, 1), q(0, 1), q(0, 1), q(0, 1), q(0, 1), q(0, 1), q(0, 1)];
    let y = seq![q(0, 1), q(64, 19683), q(8, 729), q(27, 343), q(1331, 4096), q(1000, 2197), q(1, 1)];
    let s = q_hadamard(x, y);
    assert(s.len() == 7);
    lemma_q_hadamard_entry(x, y, 0, 0, 1, 0, 1);
    lemma_q_hadamard_entry(x, y, 1, 0, 1, 64, 19683);
    lemma_q_hadamard_entry(x, y, 2, 0, 1, 8, 729);
    lemma_q_hadamard_entry(x, y, 3, 0, 1, 27, 343);
    lemma_q_hadamard_entry(x, y, 4, 0, 1, 1331, 4096);
    lemma_q_hadamard_entry(x, y, 5, 0, 1, 1000, 2197);
    lemma_q_hadamard_entry(x, y, 6, 0, 1, 1, 1);
    assert(q_sum_to(s, 0) == q(0, 1));
    lemma_q_eq_value(0, 1, 0, 1);
    lemma_q_sum_step(s, 0, 0, 1, 0, 1, 0, 1);
    lemma_q_sum_step(s, 1, 0, 1, 0, 19683, 0, 1);
    lemma_q_sum_step(s, 2, 0, 1, 0, 729, 0, 1);
    lemma_q_sum_step(s, 3, 0, 1, 0, 343, 0, 1);
    lemma_q_sum_step(s, 4, 0, 1, 0, 4096, 0, 1);
    lemma_q_sum_step(s, 5, 0, 1, 0, 2197, 0, 1);
    lemma_q_sum_step(s, 6, 0, 1, 0, 1, 0, 1);
}

proof fn lemma_rktp64_dense_4_0()
    ensures
        q_eq(q_dot(bi_column(rktp64_model(), 0), elementary_weights(rktp64_model().a, 4)), q(0, 1)),
{
    let m = rktp64_model();
    lemma_rktp64_shape();
    lemma_rktp64_phi_4();
    assert(bi_column(m, 0) =~= seq![q(0, 1), q(0, 1), q(0, 1), q(0, 1), q(0, 1), q(0, 1), q(0, 1)]);
    lemma_q_dot_congruent(bi_column(m, 0), elementary_weights(m.a, 4), seq![q(0, 1), q(64, 19683), q(8, 729), q(27, 343), q(1331, 4096), q(1000, 2197), q(1, 1)]);
    lemma_rktp64_dense_sum_21();
    lemma_q_eq_value(0, 1, 0, 1);
    lemma_q_eq_trans(q_dot(bi_column(m, 0), elementary_weights(m.a, 4)), q_dot(seq![q(0, 1), q(0, 1), q(0, 1), q(0, 1), q(0, 1), q(0, 1), q(0, 1)], seq![q(0, 1), q(64, 19683), q(8, 729), q(27, 343), q(1331, 4096), q(1000, 2197), q(1, 1)]), q(0, 1));
}

proof fn lemma_rktp64_dense_sum_22()
    ensures
        q_eq(q_dot(seq![q(1, 1), q(0, 1), q(0, 1), q(0, 1), q(0, 1), q(0, 1), q(0, 1)], seq![q(0, 1), q(64, 19683), q(8, 729), q(27, 343), q(1331, 4096), q(1000, 2197), q(1, 1)]), q(0, 1)),
        q_valid(q_dot(seq![q(1, 1), q(0, 1), q(0, 1), q(0, 1), q(0, 1), q(0, 1), q(0, 1)], seq![q(0, 1), q(64, 19683), q(8, 729), q(27, 343), q(1331, 4096), q(1000, 2197), q(1, 1)])),
{
    let x = seq![q(1, 1), q(0, 1), q(0, 1), q(0, 1), q(0, 1), q(0, 1), q(0, 1)];
    let y = seq![q(0, 1), q(64, 19683), q(8, 729), q(27, 343), q(1331, 4096), q(1000, 2197), q(1, 1)];
    let s = q_hadamard(x, y);
    assert(s.len() == 7);
    lemma_q_hadamard_entry(x, y, 0, 1, 1, 0, 1);
    lemma_q_hadamard_entry(x, y, 1, 0, 1, 64, 19683);
    lemma_q_hadamard_entry(x, y, 2, 0, 1, 8, 729);
    lemma_q_hadamard_entry(x, y, 3, 0, 1, 27, 343);
    lemma_q_hadamard_entry(x, y, 4, 0, 1, 1331, 4096);
    lemma_q_hadamard_entry(x, y, 5, 0, 1, 1000, 2197);
    lemma_q_hadamard_entry(x, y, 6, 0, 1, 1, 1);
    assert(q_sum_to(s, 0) == q(0, 1));
    lemma_q_eq_value(0, 1, 0, 1);
    lemma_q_sum_step(s, 0, 0, 1, 0, 1, 0, 1);
    lemma_q_sum_step(s, 1, 0, 1, 0, 19683, 0, 1);
    lemma_q_sum_step(s, 2, 0, 1, 0, 729, 0, 1);
    lemma_q_sum_step(s, 3, 0, 1, 0, 343, 0, 1);
    lemma_q_sum_step(s, 4, 0, 1, 0, 4096, 0, 1);
    lemma_q_sum_step(s, 5, 0, 1, 0, 2197, 0, 1);
    lemma_q_sum_step(s, 6, 0, 1, 0, 1, 0, 1);
}

proof fn lemma_rktp64_dense_4_1()
    ensures
        q_eq(q_dot(bi_column(rktp64_model(), 1), elementary_weights(rktp64_model().a, 4)), q(0, 1)),
{
    let m = rktp64_model();
    lemma_rktp64_shape();
    lemma_rktp64_phi_4();
    assert(bi_column(m, 1) =~= seq![q(1, 1), q(0, 1), q(0, 1), q(0, 1), q(0, 1), q(0, 1), q(0, 1)]);
    lemma_q_dot_congruent(bi_column(m, 1), elementary_weights(m.a, 4), seq![q(0, 1), q(64, 19683), q(8, 729), q(27, 343), q(1331, 4096), q(1000, 2197), q(1, 1)]);
    lemma_rktp64_dense_sum_22();
    lemma_q_eq_value(0, 1, 0, 1);
    lemma_q_eq_trans(q_dot(bi_column(m, 1), elementary_weights(m.a, 4)), q_dot(seq![q(1, 1), q(0, 1), q(0, 1), q(0, 1), q(0, 1), q(0, 1), q(0, 1)], seq![q(0, 1), q(64, 19683), q(8, 729), q(27, 343), q(1331, 4096), q(1000, 2197), q(1, 1)]), q(0, 1));
}

proof fn lemma_rktp64_dense_sum_23()
    ensures
        q_eq(q_dot(seq![q(-287, 90), q(0, 1), q(191241, 60970), q(195853, 135720), q(-268288, 145725), q(0, 1), q(1891, 4200)], seq![q(0, 1), q(64, 19683), q(8, 729), q(27, 343), q(1331, 4096), q(1000, 2197), q(1, 1)]), q(0, 1)),
        q_valid(q_dot(seq![q(-287, 90), q(0, 1), q(191241, 60970), q(195853, 135720), q(-268288, 145725), q(0, 1), q(1891, 4200)], seq![q(0, 1), q(64, 19683), q(8, 729), q(27, 343), q(1331, 4096), q(1000, 2197), q(1, 1)])),
{
    let x = seq![q(-287, 90), q(0, 1), q(191241, 60970), q(195853, 135720), q(-268288, 145725), q(0, 1), q(1891, 4200)];
    let y = seq![q(0, 1), q(64, 19683), q(8, 729), q(27, 343), q(1331, 4096), q(1000, 2197), q(1, 1)];
    let s = q_hadamard(x, y);
    assert(s.len() == 7);
    lemma_q_hadamard_entry(x, y, 0, -287, 90, 0, 1);
    lemma_q_hadamard_entry(x, y, 1, 0, 1, 64, 19683);
    lemma_q_hadamard_entry(x, y, 2, 191241, 60970, 8, 729);
    lemma_q_hadamard_entry(x, y, 3, 195853, 135720, 27, 343);
    lemma_q_hadamard_entry(x, y, 4, -268288, 145725, 1331, 4096);
    lemma_q_hadamard_entry(x, y, 5, 0, 1, 1000, 2197);
    lemma_q_hadamard_entry(x, y, 6, 1891, 4200, 1, 1);
    assert(q_sum_to(s, 0) == q(0, 1));
    lemma_q_eq_value(0, 1, 0, 1);
    lemma_q_sum_step(s, 0, 0, 1, 0, 90, 0, 1);
    lemma_q_sum_step(s, 1, 0, 1, 0, 19683, 0, 1);
    lemma_q_sum_step(s, 2, 0, 1, 1529928, 44447130, 3148, 91455);
    lemma_q_sum_step(s, 3, 3148, 91455, 5288031, 46551960, 241579, 1632120);
    lemma_q_sum_step(s, 4, 241579, 1632120, -357091328, 596889600, -1891, 4200);
    lemma_q_sum_step(s, 5, -1891, 4200, 0, 2197, -1891, 4200);
    lemma_q_sum_step(s, 6, -1891, 4200, 1891, 4200, 0, 1);
}

proof fn lemma_rktp64_dense_4_2()
    ensures
        q_eq(q_dot(bi_column(rktp64_model(), 2), elementary_weights(rktp64_model().a, 4)), q(0, 1)),
{
    let m = rktp64_model();
    lemma_rktp64_shape();
    lemma_rktp64_phi_4();
    assert(bi_column(m, 2) =~= seq![q(-287, 90), q(0, 1), q(191241, 60970), q(195853, 135720), q(-268288, 145725), q(0, 1), q(1891, 4200)]);
    lemma_q_dot_congruent(bi_column(m, 2), elementary_weights(m.a, 4), seq![q(0, 1), q(64, 19683), q(8, 729), q(27, 343), q(1331, 4096), q(1000, 2197), q(1, 1)]);
    lemma_rktp64_dense_sum_23();
    lemma_q_eq_value(0, 1, 0, 1);
    lemma_q_eq_trans(q_dot(bi_column(m, 2), elementary_weights(m.a, 4)), q_dot(seq![q(-287, 90), q(0, 1), q(191241, 60970), q(195853, 135720), q(-268288, 145725), q(0, 1), q(1891, 4200)], seq![q(0, 1), q(64, 19683), q(8, 729), q(27, 343), q(1331, 4096), q(1000, 2197), q(1, 1)]), q(0, 1));
}

proof fn lemma_rktp64_dense_sum_24()
    ensures
        q_eq(q_dot(seq![q(98, 27), q(0, 1), q(-29727, 6097), q(-3773, 1404), q(16384, 3015), q(0, 1), q(-1891, 1260)], seq![q(0, 1), q(64, 19683), q(8, 729), q(27, 343), q(1331, 4096), q(1000, 2197), q(1, 1)]), q(0, 1)),
        q_valid(q_dot(seq![q(98, 27), q(0, 1), q(-29727, 6097), q(-3773, 1404), q(16384, 3015), q(0, 1), q(-1891, 1260)], seq![q(0, 1), q(64, 19683), q(8, 729), q(27, 343), q(1331, 4096), q(1000, 2197), q(1, 1)])),
{
    let x = seq![q(98, 27), q(0, 1), q(-29727, 6097), q(-3773, 1404), q(16384, 3015), q(0, 1), q(-1891, 1260)];
    let y = seq![q(0, 1), q(64, 19683), q(8, 729), q(27, 343), q(1331, 4096), q(1000, 2197), q(1, 1)];
    let s = q_hadamard(x, y);
    assert(s.len() == 7);
    lemma_q_hadamard_entry(x, y, 0, 98, 27, 0, 1);
    lemma_q_hadamard_entry(x, y, 1, 0, 1, 64, 19683);
    lemma_q_hadamard_entry(x, y, 2, -29727, 6097, 8, 729);
    lemma_q_hadamard_entry(x, y, 3, -3773, 1404, 27, 343);
    lemma_q_hadamard_entry(x, y, 4, 16384, 3015, 1331, 4096);
    lemma_q_hadamard_entry(x, y, 5, 0, 1, 1000, 2197);
    lemma_q_hadamard_entry(x, y, 6, -1891, 1260, 1, 1);
    assert(q_sum_to(s, 0) == q(0, 1));
    lemma_q_eq_value(0, 1, 0, 1);
    lemma_q_sum_step(s, 0, 0, 1, 0, 27, 0, 1);
    lemma_q_sum_step(s, 1, 0, 1, 0, 19683, 0, 1);
    lemma_q_sum_step(s, 2, 0, 1, -237816, 4444713, -2936, 54873);
    lemma_q_sum_step(s, 3, -2936, 54873, -101871, 481572, -4475, 16884);
    lemma_q_sum_step(s, 4, -4475, 16884, 21807104, 12349440, 1891, 1260);
    lemma_q_sum_step(s, 5, 1891, 1260, 0, 2197, 1891, 1260);
    lemma_q_sum_step(s, 6, 1891, 1260, -1891, 1260, 0, 1);
}

proof fn lemma_rktp64_dense_4_3()
    ensures
        q_eq(q_dot(bi_column(rktp64_model(), 3), elementary_weights(rktp64_model().a, 4)), q(0, 1)),
{
    let m = rktp64_model();
    lemma_rktp64_shape();
    lemma_rktp64_phi_4();
    assert(bi_column(m, 3) =~= seq![q(98, 27), q(0, 1), q(-29727, 6097), q(-3773, 1404), q(16384, 3015), q(0, 1), q(-1891, 1260)]);
    lemma_q_dot_congruent(bi_column(m, 3), elementary_weights(m.a, 4), seq![q(0, 1), q(64, 19683), q(8, 729), q(27, 343), q(1331, 4096), q(1000, 2197), q(1, 1)]);
    lemma_rktp64_dense_sum_24();
    lemma_q_eq_value(0, 1, 0, 1);
    lemma_q_eq_trans(q_dot(bi_column(m, 3), elementary_weights(m.a, 4)), q_dot(seq![q(98, 27), q(0, 1), q(-29727, 6097), q(-3773, 1404), q(16384, 3015), q(0, 1), q(-1891, 1260)], seq![q(0, 1), q(64, 19683), q(8, 729), q(27, 343), q(1331, 4096), q(1000, 2197), q(1, 1)]), q(0, 1));
}

proof fn lemma_rktp64_dense_sum_25()
    ensures
        q_eq(q_dot(seq![q(-7387, 5400), q(0, 1), q(7907787, 3902080), q(36199877, 25243920), q(-5183488, 1486395), q(4084223, 15177600), q(1891, 1680)], seq![q(0, 1), q(64, 19683), q(8, 729), q(27, 343), q(1331, 4096), q(1000, 2197), q(1, 1)]), q(1, 4)),
        q_valid(q_dot(seq![q(-7387, 5400), q(0, 1), q(7907787, 3902080), q(36199877, 25243920), q(-5183488, 1486395), q(4084223, 15177600), q(1891, 1680)], seq![q(0, 1), q(64, 19683), q(8, 729), q(27, 343), q(1331, 4096), q(1000, 2197), q(1, 1)])),
{
    let x = seq![q(-7387, 5400), q(0, 1), q(7907787, 3902080), q(36199877, 25243920), q(-5183488, 1486395), q(4084223, 15177600), q(1891, 1680)];
    let y = seq![q(0, 1), q(64, 19683), q(8, 729), q(27, 343), q(1331, 4096), q(1000, 2197), q(1, 1)];
    let s = q_hadamard(x, y);
    assert(s.len() == 7);
    lemma_q_hadamard_entry(x, y, 0, -7387, 5400, 0, 1);
    lemma_q_hadamard_entry(x, y, 1, 0, 1, 64, 19683);
    lemma_q_hadamard_entry(x, y, 2, 7907787, 3902080, 8, 729);
    lemma_q_hadamard_entry(x, y, 3, 36199877, 25243920, 27, 343);
    lemma_q_hadamard_entry(x, y, 4, -5183488, 1486395, 1331, 4096);
    lemma_q_hadamard_entry(x, y, 5, 4084223, 15177600, 1000, 2197);
    lemma_q_hadamard_entry(x, y, 6, 1891, 1680, 1, 1);
    assert(q_sum_to(s, 0) == q(0, 1));
    lemma_q_eq_value(0, 1, 0, 1);
    lemma_q_sum_step(s, 0, 0, 1, 0, 5400, 0, 1);
    lemma_q_sum_step(s, 1, 0, 1, 0, 19683, 0, 1);
    lemma_q_sum_step(s, 2, 0, 1, 63262296, 2844616320, 97627, 4389840);
    lemma_q_sum_step(s, 3, 97627, 4389840, 977396679, 8658664560, 5127373, 37946790);
    lemma_q_sum_step(s, 4, 5127373, 37946790, -6899222528, 6088273920, -165686, 166005);
    lemma_q_sum_step(s, 5, -165686, 166005, 4084223000, 33345187200, -1471, 1680);
    lemma_q_sum_step(s, 6, -1471, 1680, 1891, 1680, 1, 4);
}

proof fn lemma_rktp64_dense_4_4()
    ensures
        q_eq(q_dot(bi_column(rktp64_model(), 4), elementary_weights(rktp64_model().a, 4)), q(1, 4)),
{
    let m = rktp64_model();
    lemma_rktp64_shape();
    lemma_rktp64_phi_4();
    assert(bi_column(m, 4) =~= seq![q(-7387, 5400), q(0, 1), q(7907787, 3902080), q(36199877, 25243920), q(-5183488, 1486395), q(4084223, 15177600), q(1891, 1680)]);
    lemma_q_dot_congruent(bi_column(m, 4), elementary_weights(m.a, 4), seq![q(0, 1), q(64, 19683), q(8, 729), q(27, 343), q(1331, 4096), q(1000, 2197), q(1, 1)]);
    lemma_rktp64_dense_sum_25();
    lemma_q_eq_value(1, 4, 1, 4);
    lemma_q_eq_trans(q_dot(bi_column(m, 4), elementary_weights(m.a, 4)), q_dot(seq![q(-7387, 5400), q(0, 1), q(7907787, 3902080), q(36199877, 25243920), q(-5183488, 1486395), q(4084223, 15177600), q(1891, 1680)], seq![q(0, 1), q(64, 19683), q(8, 729), q(27, 343), q(1331, 4096), q(1000, 2197), q(1, 1)]), q(1, 4));
}

proof fn lemma_rktp64_dense_sum_26()
    ensures
        q_eq(q_dot(seq![q(0, 1), q(0, 1), q(0, 1), q(0, 1), q(0, 1), q(0, 1), q(0, 1)], seq![q(0, 1), q(0, 1), q(4, 729), q(27, 686), q(1331, 8192), q(500, 2197), q(1, 2)]), q(0, 1)),
        q_valid(q_dot(seq![q(0, 1), q(0, 1), q(0, 1), q(0, 1), q(0, 1), q(0, 1), q(0, 1)], seq![q(0, 1), q(0, 1), q(4, 729), q(27, 686), q(1331, 8192), q(500, 2197), q(1, 2)])),
{
    let x = seq![q(0, 1), q(0, 1), q(0, 1), q(0, 1), q(0, 1), q(0, 1), q(0, 1)];
    let y = seq![q(0, 1), q(0, 1), q(4, 729), q(27, 686), q(1331, 8192), q(500, 2197), q(1, 2)];
    let s = q_hadamard(x, y);
    assert(s.len() == 7);
    lemma_q_hadamard_entry(x, y, 0, 0, 1, 0, 1);
    lemma_q_hadamard_entry(x, y, 1, 0, 1, 0, 1);
    lemma_q_hadamard_entry(x, y, 2, 0, 1, 4, 729);
    lemma_q_hadamard_entry(x, y, 3, 0, 1, 27, 686);
    lemma_q_hadamard_entry(x, y, 4, 0, 1, 1331, 8192);
    lemma_q_hadamard_entry(x, y, 5, 0, 1, 500, 2197);
    lemma_q_hadamard_entry(x, y, 6, 0, 1, 1, 2);
    assert(q_sum_to(s, 0) == q(0, 1));
    lemma_q_eq_value(0, 1, 0, 1);
    lemma_q_sum_step(s, 0, 0, 1, 0, 1, 0, 1);
    lemma_q_sum_step(s, 1, 0, 1, 0, 1, 0, 1);
    lemma_q_sum_step(s, 2, 0, 1, 0, 729, 0, 1);
    lemma_q_sum_step(s, 3, 0, 1, 0, 686, 0, 1);
    lemma_q_sum_step(s, 4, 0, 1, 0, 8192, 0, 1);
    lemma_q_sum_step(s, 5, 0, 1, 0, 2197, 0, 1);
    lemma_q_sum_step(s, 6, 0, 1, 0, 2, 0, 1);
}

proof fn lemma_rktp64_dense_5_0()
    ensures
        q_eq(q_dot(bi_column(rktp64_model(), 0), elementary_weights(rktp64_model().a, 5)), q(0, 1)),
{
    let m = rktp64_model();
    lemma_rktp64_shape();
    lemma_rktp64_phi_5();
    assert(bi_column(m, 0) =~= seq![q(0, 1), q(0, 1), q(0, 1), q(0, 1), q(0, 1), q(0, 1), q(0, 1)]);
    lemma_q_dot_congruent(bi_column(m, 0), elementary_weights(m.a, 5), seq![q(0, 1), q(0, 1), q(4, 729), q(27, 686), q(1331, 8192), q(500, 2197), q(1, 2)]);
    lemma_rktp64_dense_sum_26();
    lemma_q_eq_value(0, 1, 0, 1);
    lemma_q_eq_trans(q_dot(bi_column(m, 0), elementary_weights(m.a, 5)), q_dot(seq![q(0, 1), q(0, 1), q(0, 1), q(0, 1), q(0, 1), q(0, 1), q(0, 1)], seq![q(0, 1), q(0, 1), q(4, 729), q(27, 686), q(1331, 8192), q(500, 2197), q(1, 2)]), q(0, 1));
}

proof fn lemma_rktp64_dense_sum_27()
    ensures
        q_eq(q_dot(seq![q(1, 1), q(0, 1), q(0, 1), q(0, 1), q(0, 1), q(0, 1), q(0, 1)], seq![q(0, 1), q(0, 1), q(4, 729), q(27, 686), q(1331, 8192), q(500, 2197), q(1, 2)]), q(0, 1)),
        q_valid(q_dot(seq![q(1, 1), q(0, 1), q(0, 1), q(0, 1), q(0, 1), q(0, 1), q(0, 1)], seq![q(0, 1), q(0, 1), q(4, 729), q(27, 686), q(1331, 8192), q(500, 2197), q(1, 2)])),
{
    let x = seq![q(1, 1), q(0, 1), q(0, 1), q(0, 1), q(0, 1), q(0, 1), q(0, 1)];
    let y = seq![q(0, 1), q(0, 1), q(4, 729), q(27, 686), q(1331, 8192), q(500, 2197), q(1, 2)];
    let s = q_hadamard(x, y);
    assert(s.len() == 7);
    lemma_q_hadamard_entry(x, y, 0, 1, 1, 0, 1);
    lemma_q_hadamard_entry(x, y, 1, 0, 1, 0, 1);
    lemma_q_hadamard_entry(x, y, 2, 0, 1, 4, 729);
    lemma_q_hadamard_entry(x, y, 3, 0, 1, 27, 686);
    lemma_q_hadamard_entry(x, y, 4, 0, 1, 1331, 8192);
    lemma_q_hadamard_entry(x, y, 5, 0, 1, 500, 2197);
    lemma_q_hadamard_entry(x, y, 6, 0, 1, 1, 2);
    assert(q_sum_to(s, 0) == q(0, 1));
    lemma_q_eq_value(0, 1, 0, 1);
    lemma_q_sum_step(s, 0, 0, 1, 0, 1, 0, 1);
    lemma_q_sum_step(s, 1, 0, 1, 0, 1, 0, 1);
    lemma_q_sum_step(s, 2, 0, 1, 0, 729, 0, 1);
    lemma_q_sum_step(s, 3, 0, 1, 0, 686, 0, 1);
    lemma_q_sum_step(s, 4, 0, 1, 0, 8192, 0, 1);
    lemma_q_sum_step(s, 5, 0, 1, 0, 2197, 0, 1);
    lemma_q_sum_step(s, 6, 0, 1, 0, 2, 0, 1);
}

proof fn lemma_rktp64_dense_5_1()
    ensures
        q_eq(q_dot(bi_column(rktp64_model(), 1), elementary_weights(rktp64_model().a, 5)), q(0, 1)),
{
    let m = rktp64_model();
    lemma_rktp64_shape();
    lemma_rktp64_phi_5();
    assert(bi_column(m, 1) =~= seq![q(1, 1), q(0, 1), q(0, 1), q(0, 1), q(0, 1), q(0, 1), q(0, 1)]);
    lemma_q_dot_congruent(bi_column(m, 1), elementary_weights(m.a, 5), seq![q(0, 1), q(0, 1), q(4, 729), q(27, 686), q(1331, 8192), q(500, 2197), q(1, 2)]);
    lemma_rktp64_dense_sum_27();
    lemma_q_eq_value(0, 1, 0, 1);
    lemma_q_eq_trans(q_dot(bi_column(m, 1), elementary_weights(m.a, 5)), q_dot(seq![q(1, 1), q(0, 1), q(0, 1), q(0, 1), q(0, 1), q(0, 1), q(0, 1)], seq![q(0, 1), q(0, 1), q(4, 729), q(27, 686), q(1331, 8192), q(500, 2197), q(1, 2)]), q(0, 1));
}

proof fn lemma_rktp64_dense_sum_28()
    ensures
        q_eq(q_dot(seq![q(-287, 90), q(0, 1), q(191241, 60970), q(195853, 135720), q(-268288, 145725), q(0, 1), q(1891, 4200)], seq![q(0, 1), q(0, 1), q(4, 729), q(27, 686), q(1331, 8192), q(500, 2197), q(1, 2)]), q(0, 1)),
        q_valid(q_dot(seq![q(-287, 90), q(0, 1), q(191241, 60970), q(195853, 135720), q(-268288, 145725), q(0, 1), q(1891, 4200)], seq![q(0, 1), q(0, 1), q(4, 729), q(27, 686), q(1331, 8192), q(500, 2197), q(1, 2)])),
{
    let x = seq![q(-287, 90), q(0, 1), q(191241, 60970), q(195853, 135720), q(-268288, 145725), q(0, 1), q(1891, 4200)];
    let y = seq![q(0, 1), q(0, 1), q(4, 729), q(27, 686), q(1331, 8192), q(500, 2197), q(1, 2)];
    let s = q_hadamard(x, y);
    assert(s.len() == 7);
    lemma_q_hadamard_entry(x, y, 0, -287, 90, 0, 1);
    lemma_q_hadamard_entry(x, y, 1, 0, 1, 0, 1);
    lemma_q_hadamard_entry(x, y, 2, 191241, 60970, 4, 729);
    lemma_q_hadamard_entry(x, y, 3, 195853, 135720, 27, 686);
    lemma_q_hadamard_entry(x, y, 4, -268288, 145725, 1331, 8192);
    lemma_q_hadamard_entry(x, y, 5, 0, 1, 500, 2197);
    lemma_q_hadamard_entry(x, y, 6, 1891, 4200, 1, 2);
    assert(q_sum_to(s, 0) == q(0, 1));
    lemma_q_eq_value(0, 1, 0, 1);
    lemma_q_sum_step(s, 0, 0, 1, 0, 90, 0, 1);
    lemma_q_sum_step(s, 1, 0, 1, 0, 1, 0, 1);
    lemma_q_sum_step(s, 2, 0, 1, 764964, 44447130, 1574, 91455);
    lemma_q_sum_step(s, 3, 1574, 91455, 5288031, 93103920, 241579, 3264240);
    lemma_q_sum_step(s, 4, 241579, 3264240, -357091328, 1193779200, -1891, 8400);
    lemma_q_sum_step(s, 5, -1891, 8400, 0, 2197, -1891, 8400);
    lemma_q_sum_step(s, 6, -1891, 8400, 1891, 8400, 0, 1);
}

proof fn lemma_rktp64_dense_5_2()
    ensures
        q_eq(q_dot(bi_column(rktp64_model(), 2), elementary_weights(rktp64_model().a, 5)), q(0, 1)),
{
    let m = rktp64_model();
    lemma_rktp64_shape();
    lemma_rktp64_phi_5();
    assert(bi_column(m, 2) =~= seq![q(-287, 90), q(0, 1), q(191241, 60970), q(195853, 135720), q(-268288, 145725), q(0, 1), q(1891, 4200)]);
    lemma_q_dot_congruent(bi_column(m, 2), elementary_weights(m.a, 5), seq![q(0, 1), q(0, 1), q(4, 729), q(27, 686), q(1331, 8192), q(500, 2197), q(1, 2)]);
    lemma_rktp64_dense_sum_28();
    lemma_q_eq_value(0, 1, 0, 1);
    lemma_q_eq_trans(q_dot(bi_column(m, 2), elementary_weights(m.a, 5)), q_dot(seq![q(-287, 90), q(0, 1), q(191241, 60970), q(195853, 135720), q(-268288, 145725), q(0, 1), q(1891, 4200)], seq![q(0, 1), q(0, 1), q(4, 729), q(27, 686), q(1331, 8192), q(500, 2197), q(1, 2)]), q(0, 1));
}

proof fn lemma_rktp64_dense_sum_29()
    ensures
        q_eq(q_dot(seq![q(98, 27), q(0, 1), q(-29727, 6097), q(-3773, 1404), q(16384, 3015), q(0, 1), q(-1891, 1260)], seq![q(0, 1), q(0, 1), q(4, 729), q(27, 686), q(1331, 8192), q(500, 2197), q(1, 2)]), q(0, 1)),
        q_valid(q_dot(seq![q(98, 27), q(0, 1), q(-29727, 6097), q(-3773, 1404), q(16384, 3015), q(0, 1), q(-1891, 1260)], seq![q(0, 1), q(0, 1), q(4, 729), q(27, 686), q(1331, 8192), q(500, 2197), q(1, 2)])),
{
    let x = seq![q(98, 27), q(0, 1), q(-29727, 6097), q(-3773, 1404), q(16384, 3015), q(0, 1), q(-1891, 1260)];
    let y = seq![q(0, 1), q(0, 1), q(4, 729), q(27, 686), q(1331, 8192), q(500, 2197), q(1, 2)];
    let s = q_hadamard(x, y);
    assert(s.len() == 7);
    lemma_q_hadamard_entry(x, y, 0, 98, 27, 0, 1);
    lemma_q_hadamard_entry(x, y, 1, 0, 1, 0, 1);
    lemma_q_hadamard_entry(x, y, 2, -29727, 6097, 4, 729);
    lemma_q_hadamard_entry(x, y, 3, -3773, 1404, 27, 686);
    lemma_q_hadamard_entry(x, y, 4, 16384, 3015, 1331, 8192);
    lemma_q_hadamard_entry(x, y, 5, 0, 1, 500, 2197);
    lemma_q_hadamard_entry(x, y, 6, -1891, 1260, 1, 2);
    assert(q_sum_to(s, 0) == q(0, 1));
    lemma_q_eq_value(0, 1, 0, 1);
    lemma_q_sum_step(s, 0, 0, 1, 0, 27, 0, 1);
    lemma_q_sum_step(s, 1, 0, 1, 0, 1, 0, 1);
    lemma_q_sum_step(s, 2, 0, 1, -118908, 4444713, -1468, 54873);
    lemma_q_sum_step(s, 3, -1468, 54873, -101871, 963144, -4475, 33768);
    lemma_q_sum_step(s, 4, -4475, 33768, 21807104, 24698880, 1891, 2520);
    lemma_q_sum_step(s, 5, 1891, 2520, 0, 2197, 1891, 2520);
    lemma_q_sum_step(s, 6, 1891, 2520, -1891, 2520, 0, 1);
}

proof fn lemma_rktp64_dense_5_3()
    ensures
        q_eq(q_dot(bi_column(rktp64_model(), 3), elementary_weights(rktp64_model().a, 5)), q(0, 1)),
{
    let m = rktp64_model();
    lemma_rktp64_shape();
    lemma_rktp64_phi_5();
    assert(bi_column(m, 3) =~= seq![q(98, 27), q(0, 1), q(-29727, 6097), q(-3773, 1404), q(16384, 3015), q(0, 1), q(-1891, 1260)]);
    lemma_q_dot_congruent(bi_column(m, 3), elementary_weights(m.a, 5), seq![q(0, 1), q(0, 1), q(4, 729), q(27, 686), q(1331, 8192), q(500, 2197), q(1, 2)]);
    lemma_rktp64_dense_sum_29();
    lemma_q_eq_value(0, 1, 0, 1);
    lemma_q_eq_trans(q_dot(bi_column(m, 3), elementary_weights(m.a, 5)), q_dot(seq![q(98, 27), q(0, 1), q(-29727, 6097), q(-3773, 1404), q(16384, 3015), q(0, 1), q(-1891, 1260)], seq![q(0, 1), q(0, 1), q(4, 729), q(27, 686), q(1331, 8192), q(500, 2197), q(1, 2)]), q(0, 1));
}

proof fn lemma_rktp64_dense_sum_30()
    ensures
        q_eq(q_dot(seq![q(-7387, 5400), q(0, 1), q(7907787, 3902080), q(36199877, 25243920), q(-5183488, 1486395), q(4084223, 15177600), q(1891, 1680)], seq![q(0, 1), q(0, 1), q(4, 729), q(27, 686), q(1331, 8192), q(500, 2197), q(1, 2)]), q(1, 8)),
        q_valid(q_dot(seq![q(-7387, 5400), q(0, 1), q(7907787, 3902080), q(36199877, 25243920), q(-5183488, 1486395), q(4084223, 15177600), q(1891, 1680)], seq![q(0, 1), q(0, 1), q(4, 729), q(27, 686), q(1331, 8192), q(500, 2197), q(1, 2)])),
{
    let x = seq![q(-7387, 5400), q(0, 1), q(7907787, 3902080), q(36199877, 25243920), q(-5183488, 1486395), q(4084223, 15177600), q(1891, 1680)];
    let y = seq![q(0, 1), q(0, 1), q(4, 729), q(27, 686), q(1331, 8192), q(500, 2197), q(1, 2)];
    let s = q_hadamard(x, y);
    assert(s.len() == 7);
    lemma_q_hadamard_entry(x, y, 0, -7387, 5400, 0, 1);
    lemma_q_hadamard_entry(x, y, 1, 0, 1, 0, 1);
    lemma_q_hadamard_entry(x, y, 2, 7907787, 3902080, 4, 729);
    lemma_q_hadamard_entry(x, y, 3, 36199877, 25243920, 27, 686);
    lemma_q_hadamard_entry(x, y, 4, -5183488, 1486395, 1331, 8192);
    lemma_q_hadamard_entry(x, y, 5, 4084223, 15177600, 500, 2197);
    lemma_q_hadamard_entry(x, y, 6, 1891, 1680, 1, 2);
    assert(q_sum_to(s, 0) == q(0, 1));
    lemma_q_eq_value(0, 1, 0, 1);
    lemma_q_sum_step(s, 0, 0, 1, 0, 5400, 0, 1);
    lemma_q_sum_step(s, 1, 0, 1, 0, 1, 0, 1);
    lemma_q_sum_step(s, 2, 0, 1, 31631148, 2844616320, 97627, 8779680);
    lemma_q_sum_step(s, 3, 97627, 8779680, 977396679, 17317329120, 5127373, 75893580);
    lemma_q_sum_step(s, 4, 5127373, 75893580, -6899222528, 12176547840, -82843, 166005);
    lemma_q_sum_step(s, 5, -82843, 166005, 2042111500, 33345187200, -1471, 3360);
    lemma_q_sum_step(s, 6, -1471, 3360, 1891, 3360, 1, 8);
}

proof fn lemma_rktp64_dense_5_4()
    ensures
        q_eq(q_dot(bi_column(rktp64_model(), 4), elementary_weights(rktp64_model().a, 5)), q(1, 8)),
{
    let m = rktp64_model();
    lemma_rktp64_shape();
    lemma_rktp64_phi_5();
    assert(bi_column(m, 4) =~= seq![q(-7387, 5400), q(0, 1), q(7907787, 3902080), q(36199877, 25243920), q(-5183488, 1486395), q(4084223, 15177600), q(1891, 1680)]);
    lemma_q_dot_congruent(bi_column(m, 4), elementary_weights(m.a, 5), seq![q(0, 1), q(0, 1), q(4, 729), q(27, 686), q(1331, 8192), q(500, 2197), q(1, 2)]);
    lemma_rktp64_dense_sum_30();
    lemma_q_eq_value(1, 8, 1, 8);
    lemma_q_eq_trans(q_dot(bi_column(m, 4), elementary_weights(m.a, 5)), q_dot(seq![q(-7387, 5400), q(0, 1), q(7907787, 3902080), q(36199877, 25243920), q(-5183488, 1486395), q(4084223, 15177600), q(1891, 1680)], seq![q(0, 1), q(0, 1), q(4, 729), q(27, 686), q(1331, 8192), q(500, 2197), q(1, 2)]), q(1, 8));
}

proof fn lemma_rktp64_dense_sum_31()
    ensures
        q_eq(q_dot(seq![q(0, 1), q(0, 1), q(0, 1), q(0, 1), q(0, 1), q(0, 1), q(0, 1)], seq![q(0, 1), q(0, 1), q(8, 2187), q(9, 343), q(1331, 12288), q(1000, 6591), q(1, 3)]), q(0, 1)),
        q_valid(q_dot(seq![q(0, 1), q(0, 1), q(0, 1), q(0, 1), q(0, 1), q(0, 1), q(0, 1)], seq![q(0, 1), q(0, 1), q(8, 2187), q(9, 343), q(1331, 12288), q(1000, 6591), q(1, 3)])),
{
    let x = seq![q(0, 1), q(0, 1), q(0, 1), q(0, 1), q(0, 1), q(0, 1), q(0, 1)];
    let y = seq![q(0, 1), q(0, 1), q(8, 2187), q(9, 343), q(1331, 12288), q(1000, 6591), q(1, 3)];
    let s = q_hadamard(x, y);
    assert(s.len() == 7);
    lemma_q_hadamard_entry(x, y, 0, 0, 1, 0, 1);
    lemma_q_hadamard_entry(x, y, 1, 0, 1, 0, 1);
    lemma_q_hadamard_entry(x, y, 2, 0, 1, 8, 2187);
    lemma_q_hadamard_entry(x, y, 3, 0, 1, 9, 343);
    lemma_q_hadamard_entry(x, y, 4, 0, 1, 1331, 12288);
    lemma_q_hadamard_entry(x, y, 5, 0, 1, 1000, 6591);
    lemma_q_hadamard_entry(x, y, 6, 0, 1, 1, 3);
    assert(q_sum_to(s, 0) == q(0, 1));
    lemma_q_eq_value(0, 1, 0, 1);
    lemma_q_sum_step(s, 0, 0, 1, 0, 1, 0, 1);
    lemma_q_sum_step(s, 1, 0, 1, 0, 1, 0, 1);
    lemma_q_sum_step(s, 2, 0, 1, 0, 2187, 0, 1);
    lemma_q_sum_step(s, 3, 0, 1, 0, 343, 0, 1);
    lemma_q_sum_step(s, 4, 0, 1, 0, 12288, 0, 1);
    lemma_q_sum_step(s, 5, 0, 1, 0, 6591, 0, 1);
    lemma_q_sum_step(s, 6, 0, 1, 0, 3, 0, 1);
}

proof fn lemma_rktp64_dense_6_0()
    ensures
        q_eq(q_dot(bi_column(rktp64_model(), 0), elementary_weights(rktp64_model().a, 6)), q(0, 1)),
{
    let m = rktp64_model();
    lemma_rktp64_shape();
    lemma_rktp64_phi_6();
    assert(bi_column(m, 0) =~= seq![q(0, 1), q(0, 1), q(0, 1), q(0, 1), q(0, 1), q(0, 1), q(0, 1)]);
    lemma_q_dot_congruent(bi_column(m, 0), elementary_weights(m.a, 6), seq![q(0, 1), q(0, 1), q(8, 2187), q(9, 343), q(1331, 12288), q(1000, 6591), q(1, 3)]);
    lemma_rktp64_dense_sum_31();
    lemma_q_eq_value(0, 1, 0, 1);
    lemma_q_eq_trans(q_dot(bi_column(m, 0), elementary_weights(m.a, 6)), q_dot(seq![q(0, 1), q(0, 1), q(0, 1), q(0, 1), q(0, 1), q(0, 1), q(0, 1)], seq![q(0, 1), q(0, 1), q(8, 2187), q(9, 343), q(1331, 12288), q(1000, 6591), q(1, 3)]), q(0, 1));
}

proof fn lemma_rktp64_dense_sum_32()
    ensures
        q_eq(q_dot(seq![q(1, 1), q(0, 1), q(0, 1), q(0, 1), q(0, 1), q(0, 1), q(0, 1)], seq![q(0, 1), q(0, 1), q(8, 2187), q(9, 343), q(1331, 12288), q(1000, 6591), q(1, 3)]), q(0, 1)),
        q_valid(q_dot(seq![q(1, 1), q(0, 1), q(0, 1), q(0, 1), q(0, 1), q(0, 1), q(0, 1)], seq![q(0, 1), q(0, 1), q(8, 2187), q(9, 343), q(1331, 12288), q(1000, 6591), q(1, 3)])),
{
    let x = seq![q(1, 1), q(0, 1), q(0, 1), q(0, 1), q(0, 1), q(0, 1), q(0, 1)];
    let y = seq![q(0, 1), q(0, 1), q(8, 2187), q(9, 343), q(1331, 12288), q(1000, 6591), q(1, 3)];
    let s = q_hadamard(x, y);
    assert(s.len() == 7);
    lemma_q_hadamard_entry(x, y, 0, 1, 1, 0, 1);
    lemma_q_hadamard_entry(x, y, 1, 0, 1, 0, 1);
    lemma_q_hadamard_entry(x, y, 2, 0, 1, 8, 2187);
    lemma_q_hadamard_entry(x, y, 3, 0, 1, 9, 343);
    lemma_q_hadamard_entry(x, y, 4, 0, 1, 1331, 12288);
    lemma_q_hadamard_entry(x, y, 5, 0, 1, 1000, 6591);
    lemma_q_hadamard_entry(x, y, 6, 0, 1, 1, 3);
    assert(q_sum_to(s, 0) == q(0, 1));
    lemma_q_eq_value(0, 1, 0, 1);
    lemma_q_sum_step(s, 0, 0, 1, 0, 1, 0, 1);
    lemma_q_sum_step(s, 1, 0, 1, 0, 1, 0, 1);
    lemma_q_sum_step(s, 2, 0, 1, 0, 2187, 0, 1);
    lemma_q_sum_step(s, 3, 0, 1, 0, 343, 0, 1);
    lemma_q_sum_step(s, 4, 0, 1, 0, 12288, 0, 1);
    lemma_q_sum_step(s, 5, 0, 1, 0, 6591, 0, 1);
    lemma_q_sum_step(s, 6, 0, 1, 0, 3, 0, 1);
}

proof fn lemma_rktp64_dense_6_1()
    ensures
        q_eq(q_dot(bi_column(rktp64_model(), 1), elementary_weights(rktp64_model().a, 6)), q(0, 1)),
{
    let m = rktp64_model();
    lemma_rktp64_shape();
    lemma_rktp64_phi_6();
    assert(bi_column(m, 1) =~= seq![q(1, 1), q(0, 1), q(0, 1), q(0, 1), q(0, 1), q(0, 1), q(0, 1)]);
    lemma_q_dot_congruent(bi_column(m, 1), elementary_weights(m.a, 6), seq![q(0, 1), q(0, 1), q(8, 2187), q(9, 343), q(1331, 12288), q(1000, 6591), q(1, 3)]);
    lemma_rktp64_dense_sum_32();
    lemma_q_eq_value(0, 1, 0, 1);
    lemma_q_eq_trans(q_dot(bi_column(m, 1), elementary_weights(m.a, 6)), q_dot(seq![q(1, 1), q(0, 1), q(0, 1), q(0, 1), q(0, 1), q(0, 1), q(0, 1)], seq![q(0, 1), q(0, 1), q(8, 2187), q(9, 343), q(1331, 12288), q(1000, 6591), q(1, 3)]), q(0, 1));
}

proof fn lemma_rktp64_dense_sum_33()
    ensures
        q_eq(q_dot(seq![q(-287, 90), q(0, 1), q(191241, 60970), q(195853, 135720), q(-268288, 145725), q(0, 1), q(1891, 4200)], seq![q(0, 1), q(0, 1), q(8, 2187), q(9, 343), q(1331, 12288), q(1000, 6591), q(1, 3)]), q(0, 1)),
        q_valid(q_dot(seq![q(-287, 90), q(0, 1), q(191241, 60970), q(195853, 135720), q(-268288, 145725), q(0, 1), q(1891, 4200)], seq![q(0, 1), q(0, 1), q(8, 2187), q(9, 343), q(1331, 12288), q(1000, 6591), q(1, 3)])),
{
    let x = seq![q(-287, 90), q(0, 1), q(191241, 60970), q(195853, 135720), q(-268288, 145725), q(0, 1), q(1891, 4200)];
    let y = seq![q(0, 1), q(0, 1), q(8, 2187), q(9, 343), q(1331, 12288), q(1000, 6591), q(1, 3)];
    let s = q_hadamard(x, y);
    assert(s.len() == 7);
    lemma_q_hadamard_entry(x, y, 0, -287, 90, 0, 1);
    lemma_q_hadamard_entry(x, y, 1, 0, 1, 0, 1);
    lemma_q_hadamard_entry(x, y, 2, 191241, 60970, 8, 2187);
    lemma_q_hadamard_entry(x, y, 3, 195853, 135720, 9, 343);
    lemma_q_hadamard_entry(x, y, 4, -268288, 145725, 1331, 12288);
    lemma_q_hadamard_entry(x, y, 5, 0, 1, 1000, 6591);
    lemma_q_hadamard_entry(x, y, 6, 1891, 4200, 1, 3);
    assert(q_sum_to(s, 0) == q(0, 1));
    lemma_q_eq_value(0, 1, 0, 1);
    lemma_q_sum_step(s, 0, 0, 1, 0, 90, 0, 1);
    lemma_q_sum_step(s, 1, 0, 1, 0, 1, 0, 1);
    lemma_q_sum_step(s, 2, 0, 1, 1529928, 133341390, 3148, 274365);
    lemma_q_sum_step(s, 3, 3148, 274365, 1762677, 46551960, 241579, 4896360);
    lemma_q_sum_step(s, 4, 241579, 4896360, -357091328, 1790668800, -1891, 12600);
    lemma_q_sum_step(s, 5, -1891, 12600, 0, 6591, -1891, 12600);
    lemma_q_sum_step(s, 6, -1891, 12600, 1891, 12600, 0, 1);
}

proof fn lemma_rktp64_dense_6_2()
    ensures
        q_eq(q_dot(bi_column(rktp64_model(), 2), elementary_weights(rktp64_model().a, 6)), q(0, 1)),
{
    let m = rktp64_model();
    lemma_rktp64_shape();
    lemma_rktp64_phi_6();
    assert(bi_column(m, 2) =~= seq![q(-287, 90), q(0, 1), q(191241, 60970), q(195853, 135720), q(-268288, 145725), q(0, 1), q(1891, 4200)]);
    lemma_q_dot_congruent(bi_column(m, 2), elementary_weights(m.a, 6), seq![q(0, 1), q(0, 1), q(8, 2187), q(9, 343), q(1331, 12288), q(1000, 6591), q(1, 3)]);
    lemma_rktp64_dense_sum_33();
    lemma_q_eq_value(0, 1, 0, 1);
    lemma_q_eq_trans(q_dot(bi_column(m, 2), elementary_weights(m.a, 6)), q_dot(seq![q(-287, 90), q(0, 1), q(191241, 60970), q(195853, 135720), q(-268288, 145725), q(0, 1), q(1891, 4200)], seq![q(0, 1), q(0, 1), q(8, 2187), q(9, 343), q(1331, 12288), q(1000, 6591), q(1, 3)]), q(0, 1));
}

proof fn lemma_rktp64_dense_sum_34()
    ensures
        q_eq(q_dot(seq![q(98, 27), q(0, 1), q(-29727, 6097), q(-3773, 1404), q(16384, 3015), q(0, 1), q(-1891, 1260)], seq![q(0, 1), q(0, 1), q(8, 2187), q(9, 343), q(1331, 12288), q(1000, 6591), q(1, 3)]), q(0, 1)),
        q_valid(q_dot(seq![q(98, 27), q(0, 1), q(-29727, 6097), q(-3773, 1404), q(16384, 3015), q(0, 1), q(-1891, 1260)], seq![q(0, 1), q(0, 1), q(8, 2187), q(9, 343), q(1331, 12288), q(1000, 6591), q(1, 3)])),
{
    let x = seq![q(98, 27), q(0, 1), q(-29727, 6097), q(-3773, 1404), q(16384, 3015), q(0, 1), q(-1891, 1260)];
    let y = seq![q(0, 1), q(0, 1), q(8, 2187), q(9, 343), q(1331, 12288), q(1000, 6591), q(1, 3)];
    let s = q_hadamard(x, y);
    assert(s.len() == 7);
    lemma_q_hadamard_entry(x, y, 0, 98, 27, 0, 1);
    lemma_q_hadamard_entry(x, y, 1, 0, 1, 0, 1);
    lemma_q_hadamard_entry(x, y, 2, -29727, 6097, 8, 2187);
    lemma_q_hadamard_entry(x, y, 3, -3773, 1404, 9, 343);
    lemma_q_hadamard_entry(x, y, 4, 16384, 3015, 1331, 12288);
    lemma_q_hadamard_entry(x, y, 5, 0, 1, 1000, 6591);
    lemma_q_hadamard_entry(x, y, 6, -1891, 1260, 1, 3);
    assert(q_sum_to(s, 0) == q(0, 1));
    lemma_q_eq_value(0, 1, 0, 1);
    lemma_q_sum_step(s, 0, 0, 1, 0, 27, 0, 1);
    lemma_q_sum_step(s, 1, 0, 1, 0, 1, 0, 1);
    lemma_q_sum_step(s, 2, 0, 1, -237816, 13334139, -2936, 164619);
    lemma_q_sum_step(s, 3, -2936, 164619, -33957, 481572, -4475, 50652);
    lemma_q_sum_step(s, 4, -4475, 50652, 21807104, 37048320, 1891, 3780);
    lemma_q_sum_step(s, 5, 1891, 3780, 0, 6591, 1891, 3780);
    lemma_q_sum_step(s, 6, 1891, 3780, -1891, 3780, 0, 1);
}

proof fn lemma_rktp64_dense_6_3()
    ensures
        q_eq(q_dot(bi_column(rktp64_model(), 3), elementary_weights(rktp64_model().a, 6)), q(0, 1)),
{
    let m = rktp64_model();
    lemma_rktp64_shape();
    lemma_rktp64_phi_6();
    assert(bi_column(m, 3) =~= seq![q(98, 27), q(0, 1), q(-29727, 6097), q(-3773, 1404), q(16384, 3015), q(0, 1), q(-1891, 1260)]);
    lemma_q_dot_congruent(bi_column(m, 3), elementary_weights(m.a, 6), seq![q(0, 1), q(0, 1), q(8, 2187), q(9, 343), q(1331, 12288), q(1000, 6591), q(1, 3)]);
    lemma_rktp64_dense_sum_34();
    lemma_q_eq_value(0, 1, 0, 1);
    lemma_q_eq_trans(q_dot(bi_column(m, 3), elementary_weights(m.a, 6)), q_dot(seq![q(98, 27), q(0, 1), q(-29727, 6097), q(-3773, 1404), q(16384, 3015), q(0, 1), q(-1891, 1260)], seq![q(0, 1), q(0, 1), q(8, 2187), q(9, 343), q(1331, 12288), q(1000, 6591), q(1, 3)]), q(0, 1));
}

proof fn lemma_rktp64_dense_sum_35()
    ensures
        q_eq(q_dot(seq![q(-7387, 5400), q(0, 1), q(7907787, 3902080), q(36199877, 25243920), q(-5183488, 1486395), q(4084223, 15177600), q(1891, 1680)], seq![q(0, 1), q(0, 1), q(8, 2187), q(9, 343), q(1331, 12288), q(1000, 6591), q(1, 3)]), q(1, 12)),
        q_valid(q_dot(seq![q(-7387, 5400), q(0, 1), q(7907787, 3902080), q(36199877, 25243920), q(-5183488, 1486395), q(4084223, 15177600), q(1891, 1680)], seq![q(0, 1), q(0, 1), q(8, 2187), q(9, 343), q(1331, 12288), q(1000, 6591), q(1, 3)])),
{
    let x = seq![q(-7387, 5400), q(0, 1), q(7907787, 3902080), q(36199877, 25243920), q(-5183488, 1486395), q(4084223, 15177600), q(1891, 1680)];
    let y = seq![q(0, 1), q(0, 1), q(8, 2187), q(9, 343), q(1331, 12288), q(1000, 6591), q(1, 3)];
    let s = q_hadamard(x, y);
    assert(s.len() == 7);
    lemma_q_hadamard_entry(x, y, 0, -7387, 5400, 0, 1);
    lemma_q_hadamard_entry(x, y, 1, 0, 1, 0, 1);
    lemma_q_hadamard_entry(x, y, 2, 7907787, 3902080, 8, 2187);
    lemma_q_hadamard_entry(x, y, 3, 36199877, 25243920, 9, 343);
    lemma_q_hadamard_entry(x, y, 4, -5183488, 1486395, 1331, 12288);
    lemma_q_hadamard_entry(x, y, 5, 4084223, 15177600, 1000, 6591);
    lemma_q_hadamard_entry(x, y, 6, 1891, 1680, 1, 3);
    assert(q_sum_to(s, 0) == q(0, 1));
    lemma_q_eq_value(0, 1, 0, 1);
    lemma_q_sum_step(s, 0, 0, 1, 0, 5400, 0, 1);
    lemma_q_sum_step(s, 1, 0, 1, 0, 1, 0, 1);
    lemma_q_sum_step(s, 2, 0, 1, 63262296, 8533848960, 97627, 13169520);
    lemma_q_sum_step(s, 3, 97627, 13169520, 325798893, 8658664560, 5127373, 113840370);
    lemma_q_sum_step(s, 4, 5127373, 113840370, -6899222528, 18264821760, -165686, 498015);
    lemma_q_sum_step(s, 5, -165686, 498015, 4084223000, 100035561600, -1471, 5040);
    lemma_q_sum_step(s, 6, -1471, 5040, 1891, 5040, 1, 12);
}

proof fn lemma_rktp64_dense_6_4()
    ensures
        q_eq(q_dot(bi_column(rktp64_model(), 4), elementary_weights(rktp64_model().a, 6)), q(1, 12)),
{
    let m = rktp64_model();
    lemma_rktp64_shape();
    lemma_rktp64_phi_6();
    assert(bi_column(m, 4) =~= seq![q(-7387, 5400), q(0, 1), q(7907787, 3902080), q(36199877, 25243920), q(-5183488, 1486395), q(4084223, 15177600), q(1891, 1680)]);
    lemma_q_dot_congruent(bi_column(m, 4), elementary_weights(m.a, 6), seq![q(0, 1), q(0, 1), q(8, 2187), q(9, 343), q(1331, 12288), q(1000, 6591), q(1, 3)]);
    lemma_rktp64_dense_sum_35();
    lemma_q_eq_value(1, 12, 1, 12);
    lemma_q_eq_trans(q_dot(bi_column(m, 4), elementary_weights(m.a, 6)), q_dot(seq![q(-7387, 5400), q(0, 1), q(7907787, 3902080), q(36199877, 25243920), q(-5183488, 1486395), q(4084223, 15177600), q(1891, 1680)], seq![q(0, 1), q(0, 1), q(8, 2187), q(9, 343), q(1331, 12288), q(1000, 6591), q(1, 3)]), q(1, 12));
}

proof fn lemma_rktp64_dense_sum_36()
    ensures
        q_eq(q_dot(seq![q(0, 1), q(0, 1), q(0, 1), q(0, 1), q(0, 1), q(0, 1), q(0, 1)], seq![q(0, 1), q(0, 1), q(0, 1), q(13, 686), q(469, 8192), q(5120, 72501), q(1967, 11346)]), q(0, 1)),
        q_valid(q_dot(seq![q(0, 1), q(0, 1), q(0, 1), q(0, 1), q(0, 1), q(0, 1), q(0, 1)], seq![q(0, 1), q(0, 1), q(0, 1), q(13, 686), q(469, 8192), q(5120, 72501), q(1967, 11346)])),
{
    let x = seq![q(0, 1), q(0, 1), q(0, 1), q(0, 1), q(0, 1), q(0, 1), q(0, 1)];
    let y = seq![q(0, 1), q(0, 1), q(0, 1), q(13, 686), q(469, 8192), q(5120, 72501), q(1967, 11346)];
    let s = q_hadamard(x, y);
    assert(s.len() == 7);
    lemma_q_hadamard_entry(x, y, 0, 0, 1, 0, 1);
    lemma_q_hadamard_entry(x, y, 1, 0, 1, 0, 1);
    lemma_q_hadamard_entry(x, y, 2, 0, 1, 0, 1);
    lemma_q_hadamard_entry(x, y, 3, 0, 1, 13, 686);
    lemma_q_hadamard_entry(x, y, 4, 0, 1, 469, 8192);
    lemma_q_hadamard_entry(x, y, 5, 0, 1, 5120, 72501);
    lemma_q_hadamard_entry(x, y, 6, 0, 1, 1967, 11346);
    assert(q_sum_to(s, 0) == q(0, 1));
    lemma_q_eq_value(0, 1, 0, 1);
    lemma_q_sum_step(s, 0, 0, 1, 0, 1, 0, 1);
    lemma_q_sum_step(s, 1, 0, 1, 0, 1, 0, 1);
    lemma_q_sum_step(s, 2, 0, 1, 0, 1, 0, 1);
    lemma_q_sum_step(s, 3, 0, 1, 0, 686, 0, 1);
    lemma_q_sum_step(s, 4, 0, 1, 0, 8192, 0, 1);
    lemma_q_sum_step(s, 5, 0, 1, 0, 72501, 0, 1);
    lemma_q_sum_step(s, 6, 0, 1, 0, 11346, 0, 1);
}

proof fn lemma_rktp64_dense_7_0()
    ensures
        q_eq(q_dot(bi_column(rktp64_model(), 0), elementary_weights(rktp64_model().a, 7)), q(0, 1)),
{
    let m = rktp64_model();
    lemma_rktp64_shape();
    lemma_rktp64_phi_7();
    assert(bi_column(m, 0) =~= seq![q(0, 1), q(0, 1), q(0, 1), q(0, 1), q(0, 1), q(0, 1), q(0, 1)]);
    lemma_q_dot_congruent(bi_column(m, 0), elementary_weights(m.a, 7), seq![q(0, 1), q(0, 1), q(0, 1), q(13, 686), q(469, 8192), q(5120, 72501), q(1967, 11346)]);
    lemma_rktp64_dense_sum_36();
    lemma_q_eq_value(0, 1, 0, 1);
    lemma_q_eq_trans(q_dot(bi_column(m, 0), elementary_weights(m.a, 7)), q_dot(seq![q(0, 1), q(0, 1), q(0, 1), q(0, 1), q(0, 1), q(0, 1), q(0, 1)], seq![q(0, 1), q(0, 1), q(0, 1), q(13, 686), q(469, 8192), q(5120, 72501), q(1967, 11346)]), q(0, 1));
}

proof fn lemma_rktp64_dense_sum_37()
    ensures
        q_eq(q_dot(seq![q(1, 1), q(0, 1), q(0, 1), q(0, 1), q(0, 1), q(0, 1), q(0, 1)], seq![q(0, 1), q(0, 1), q(0, 1), q(13, 686), q(469, 8192), q(5120, 72501), q(1967, 11346)]), q(0, 1)),
        q_valid(q_dot(seq![q(1, 1), q(0, 1), q(0, 1), q(0, 1), q(0, 1), q(0, 1), q(0, 1)], seq![q(0, 1), q(0, 1), q(0, 1), q(13, 686), q(469, 8192), q(5120, 72501), q(1967, 11346)])),
{
    let x = seq![q(1, 1), q(0, 1), q(0, 1), q(0, 1), q(0, 1), q(0, 1), q(0, 1)];
    let y = seq![q(0, 1), q(0, 1), q(0, 1), q(13, 686), q(469, 8192), q(5120, 72501), q(1967, 11346)];
    let s = q_hadamard(x, y);
    assert(s.len() == 7);
    lemma_q_hadamard_entry(x, y, 0, 1, 1, 0, 1);
    lemma_q_hadamard_entry(x, y, 1, 0, 1, 0, 1);
    lemma_q_hadamard_entry(x, y, 2, 0, 1, 0, 1);
    lemma_q_hadamard_entry(x, y, 3, 0, 1, 13, 686);
    lemma_q_hadamard_entry(x, y, 4, 0, 1, 469, 8192);
    lemma_q_hadamard_entry(x, y, 5, 0, 1, 5120, 72501);
    lemma_q_hadamard_entry(x, y, 6, 0, 1, 1967, 11346);
    assert(q_sum_to(s, 0) == q(0, 1));
    lemma_q_eq_value(0, 1, 0, 1);
    lemma_q_sum_step(s, 0, 0, 1, 0, 1, 0, 1);
    lemma_q_sum_step(s, 1, 0, 1, 0, 1, 0, 1);
    lemma_q_sum_step(s, 2, 0, 1, 0, 1, 0, 1);
    lemma_q_sum_step(s, 3, 0, 1, 0, 686, 0, 1);
    lemma_q_sum_step(s, 4, 0, 1, 0, 8192, 0, 1);
    lemma_q_sum_step(s, 5, 0, 1, 0, 72501, 0, 1);
    lemma_q_sum_step(s, 6, 0, 1, 0, 11346, 0, 1);
}

proof fn lemma_rktp64_dense_7_1()
    ensures
        q_eq(q_dot(bi_column(rktp64_model(), 1), elementary_weights(rktp64_model().a, 7)), q(0, 1)),
{
    let m = rktp64_model();
    lemma_rktp64_shape();
    lemma_rktp64_phi_7();
    assert(bi_column(m, 1) =~= seq![q(1, 1), q(0, 1), q(0, 1), q(0, 1), q(0, 1), q(0, 1), q(0, 1)]);
    lemma_q_dot_congruent(bi_column(m, 1), elementary_weights(m.a, 7), seq![q(0, 1), q(0, 1), q(0, 1), q(13, 686), q(469, 8192), q(5120, 72501), q(1967, 11346)]);
    lemma_rktp64_dense_sum_37();
    lemma_q_eq_value(0, 1, 0, 1);
    lemma_q_eq_trans(q_dot(bi_column(m, 1), elementary_weights(m.a, 7)), q_dot(seq![q(1, 1), q(0, 1), q(0, 1), q(0, 1), q(0, 1), q(0, 1), q(0, 1)], seq![q(0, 1), q(0, 1), q(0, 1), q(13, 686), q(469, 8192), q(5120, 72501), q(1967, 11346)]), q(0, 1));
}

proof fn lemma_rktp64_dense_sum_38()
    ensures
        q_eq(q_dot(seq![q(-287, 90), q(0, 1), q(191241, 60970), q(195853, 135720), q(-268288, 145725), q(0, 1), q(1891, 4200)], seq![q(0, 1), q(0, 1), q(0, 1), q(13, 686), q(469, 8192), q(5120, 72501), q(1967, 11346)]), q(0, 1)),
        q_valid(q_dot(seq![q(-287, 90), q(0, 1), q(191241, 60970), q(195853, 135720), q(-268288, 145725), q(0, 1), q(1891, 4200)], seq![q(0, 1), q(0, 1), q(0, 1), q(13, 686), q(469, 8192), q(5120, 72501), q(1967, 11346)])),
{
    let x = seq![q(-287, 90), q(0, 1), q(191241, 60970), q(195853, 135720), q(-268288, 145725), q(0, 1), q(1891, 4200)];
    let y = seq![q(0, 1), q(0, 1), q(0, 1), q(13, 686), q(469, 8192), q(5120, 72501), q(1967, 11346)];
    let s = q_hadamard(x, y);
    assert(s.len() == 7);
    lemma_q_hadamard_entry(x, y, 0, -287, 90, 0, 1);
    lemma_q_hadamard_entry(x, y, 1, 0, 1, 0, 1);
    lemma_q_hadamard_entry(x, y, 2, 191241, 60970, 0, 1);
    lemma_q_hadamard_entry(x, y, 3, 195853, 135720, 13, 686);
    lemma_q_hadamard_entry(x, y, 4, -268288, 145725, 469, 8192);
    lemma_q_hadamard_entry(x, y, 5, 0, 1, 5120, 72501);
    lemma_q_hadamard_entry(x, y, 6, 1891, 4200, 1967, 11346);
    assert(q_sum_to(s, 0) == q(0, 1));
    lemma_q_eq_value(0, 1, 0, 1);
    lemma_q_sum_step(s, 0, 0, 1, 0, 90, 0, 1);
    lemma_q_sum_step(s, 1, 0, 1, 0, 1, 0, 1);
    lemma_q_sum_step(s, 2, 0, 1, 0, 60970, 0, 1);
    lemma_q_sum_step(s, 3, 0, 1, 2546089, 93103920, 571, 20880);
    lemma_q_sum_step(s, 4, 571, 20880, -125827072, 1193779200, -281, 3600);
    lemma_q_sum_step(s, 5, -281, 3600, 0, 72501, -281, 3600);
    lemma_q_sum_step(s, 6, -281, 3600, 3719597, 47653200, 0, 1);
}

proof fn lemma_rktp64_dense_7_2()
    ensures
        q_eq(q_dot(bi_column(rktp64_model(), 2), elementary_weights(rktp64_model().a, 7)), q(0, 1)),
{
    let m = rktp64_model();
    lemma_rktp64_shape();
    lemma_rktp64_phi_7();
    assert(bi_column(m, 2) =~= seq![q(-287, 90), q(0, 1), q(191241, 60970), q(195853, 135720), q(-268288, 145725), q(0, 1), q(1891, 4200)]);
    lemma_q_dot_congruent(bi_column(m, 2), elementary_weights(m.a, 7), seq![q(0, 1), q(0, 1), q(0, 1), q(13, 686), q(469, 8192), q(5120, 72501), q(1967, 11346)]);
    lemma_rktp64_dense_sum_38();
    lemma_q_eq_value(0, 1, 0, 1);
    lemma_q_eq_trans(q_dot(bi_column(m, 2), elementary_weights(m.a, 7)), q_dot(seq![q(-287, 90), q(0, 1), q(191241, 60970), q(195853, 135720), q(-268288, 145725), q(0, 1), q(1891, 4200)], seq![q(0, 1), q(0, 1), q(0, 1), q(13, 686), q(469, 8192), q(5120, 72501), q(1967, 11346)]), q(0, 1));
}

proof fn lemma_rktp64_dense_sum_39()
    ensures
        q_eq(q_dot(seq![q(98, 27), q(0, 1), q(-29727, 6097), q(-3773, 1404), q(16384, 3015), q(0, 1), q(-1891, 1260)], seq![q(0, 1), q(0, 1), q(0, 1), q(13, 686), q(469, 8192), q(5120, 72501), q(1967, 11346)]), q(0, 1)),
        q_valid(q_dot(seq![q(98, 27), q(0, 1), q(-29727, 6097), q(-3773, 1404), q(16384, 3015), q(0, 1), q(-1891, 1260)], seq![q(0, 1), q(0, 1), q(0, 1), q(13, 686), q(469, 8192), q(5120, 72501), q(1967, 11346)])),
{
    let x = seq![q(98, 27), q(0, 1), q(-29727, 6097), q(-3773, 1404), q(16384, 3015), q(0, 1), q(-1891, 1260)];
    let y = seq![q(0, 1), q(0, 1), q(0, 1), q(13, 686), q(469, 8192), q(5120, 72501), q(1967, 11346)];
    let s = q_hadamard(x, y);
    assert(s.len() == 7);
    lemma_q_hadamard_entry(x, y, 0, 98, 27, 0, 1);
    lemma_q_hadamard_entry(x, y, 1, 0, 1, 0, 1);
    lemma_q_hadamard_entry(x, y, 2, -29727, 6097, 0, 1);
    lemma_q_hadamard_entry(x, y, 3, -3773, 1404, 13, 686);
    lemma_q_hadamard_entry(x, y, 4, 16384, 3015, 469, 8192);
    lemma_q_hadamard_entry(x, y, 5, 0, 1, 5120, 72501);
    lemma_q_hadamard_entry(x, y, 6, -1891, 1260, 1967, 11346);
    assert(q_sum_to(s, 0) == q(0, 1));
    lemma_q_eq_value(0, 1, 0, 1);
    lemma_q_sum_step(s, 0, 0, 1, 0, 27, 0, 1);
    lemma_q_sum_step(s, 1, 0, 1, 0, 1, 0, 1);
    lemma_q_sum_step(s, 2, 0, 1, 0, 6097, 0, 1);
    lemma_q_sum_step(s, 3, 0, 1, -49049, 963144, -11, 216);
    lemma_q_sum_step(s, 4, -11, 216, 7684096, 24698880, 281, 1080);
    lemma_q_sum_step(s, 5, 281, 1080, 0, 72501, 281, 1080);
    lemma_q_sum_step(s, 6, 281, 1080, -3719597, 14295960, 0, 1);
}

proof fn lemma_rktp64_dense_7_3()
    ensures
        q_eq(q_dot(bi_column(rktp64_model(), 3), elementary_weights(rktp64_model().a, 7)), q(0, 1)),
{
    let m = rktp64_model();
    lemma_rktp64_shape();
    lemma_rktp64_phi_7();
    assert(bi_column(m, 3) =~= seq![q(98, 27), q(0, 1), q(-29727, 6097), q(-3773, 1404), q(16384, 3015), q(0, 1), q(-1891, 1260)]);
    lemma_q_dot_congruent(bi_column(m, 3), elementary_weights(m.a, 7), seq![q(0, 1), q(0, 1), q(0, 1), q(13, 686), q(469, 8192), q(5120, 72501), q(1967, 11346)]);
    lemma_rktp64_dense_sum_39();
    lemma_q_eq_value(0, 1, 0, 1);
    lemma_q_eq_trans(q_dot(bi_column(m, 3), elementary_weights(m.a, 7)), q_dot(seq![q(98, 27), q(0, 1), q(-29727, 6097), q(-3773, 1404), q(16384, 3015), q(0, 1), q(-1891, 1260)], seq![q(0, 1), q(0, 1), q(0, 1), q(13, 686), q(469, 8192), q(5120, 72501), q(1967, 11346)]), q(0, 1));
}

proof fn lemma_rktp64_dense_sum_40()
    ensures
        q_eq(q_dot(seq![q(-7387, 5400), q(0, 1), q(7907787, 3902080), q(36199877, 25243920), q(-5183488, 1486395), q(4084223, 15177600), q(1891, 1680)], seq![q(0, 1), q(0, 1), q(0, 1), q(13, 686), q(469, 8192), q(5120, 72501), q(1967, 11346)]), q(1, 24)),
        q_valid(q_dot(seq![q(-7387, 5400), q(0, 1), q(7907787, 3902080), q(36199877, 25243920), q(-5183488, 1486395), q(4084223, 15177600), q(1891, 1680)], seq![q(0, 1), q(0, 1), q(0, 1), q(13, 686), q(469, 8192), q(5120, 72501), q(1967, 11346)])),
{
    let x = seq![q(-7387, 5400), q(0, 1), q(7907787, 3902080), q(36199877, 25243920), q(-5183488, 1486395), q(4084223, 15177600), q(1891, 1680)];
    let y = seq![q(0, 1), q(0, 1), q(0, 1), q(13, 686), q(469, 8192), q(5120, 72501), q(1967, 11346)];
    let s = q_hadamard(x, y);
    assert(s.len() == 7);
    lemma_q_hadamard_entry(x, y, 0, -7387, 5400, 0, 1);
    lemma_q_hadamard_entry(x, y, 1, 0, 1, 0, 1);
    lemma_q_hadamard_entry(x, y, 2, 7907787, 3902080, 0, 1);
    lemma_q_hadamard_entry(x, y, 3, 36199877, 25243920, 13, 686);
    lemma_q_hadamard_entry(x, y, 4, -5183488, 1486395, 469, 8192);
    lemma_q_hadamard_entry(x, y, 5, 4084223, 15177600, 5120, 72501);
    lemma_q_hadamard_entry(x, y, 6, 1891, 1680, 1967, 11346);
    assert(q_sum_to(s, 0) == q(0, 1));
    lemma_q_eq_value(0, 1, 0, 1);
    lemma_q_sum_step(s, 0, 0, 1, 0, 5400, 0, 1);
    lemma_q_sum_step(s, 1, 0, 1, 0, 1, 0, 1);
    lemma_q_sum_step(s, 2, 0, 1, 0, 3902080, 0, 1);
    lemma_q_sum_step(s, 3, 0, 1, 470598401, 17317329120, 105539, 3883680);
    lemma_q_sum_step(s, 4, 105539, 3883680, -2431055872, 12176547840, -78533, 455328);
    lemma_q_sum_step(s, 5, -78533, 455328, 20911221760, 1100391177600, -221, 1440);
    lemma_q_sum_step(s, 6, -221, 1440, 3719597, 19061280, 1, 24);
}

proof fn lemma_rktp64_dense_7_4()
    ensures
        q_eq(q_dot(bi_column(rktp64_model(), 4), elementary_weights(rktp64_model().a, 7)), q(1, 24)),
{
    let m = rktp64_model();
    lemma_rktp64_shape();
    lemma_rktp64_phi_7();
    assert(bi_column(m, 4) =~= seq![q(-7387, 5400), q(0, 1), q(7907787, 3902080), q(36199877, 25243920), q(-5183488, 1486395), q(4084223, 15177600), q(1891, 1680)]);
    lemma_q_dot_congruent(bi_column(m, 4), elementary_weights(m.a, 7), seq![q(0, 1), q(0, 1), q(0, 1), q(13, 686), q(469, 8192), q(5120, 72501), q(1967, 11346)]);
    lemma_rktp64_dense_sum_40();
    lemma_q_eq_value(1, 24, 1, 24);
    lemma_q_eq_trans(q_dot(bi_column(m, 4), elementary_weights(m.a, 7)), q_dot(seq![q(-7387, 5400), q(0, 1), q(7907787, 3902080), q(36199877, 25243920), q(-5183488, 1486395), q(4084223, 15177600), q(1891, 1680)], seq![q(0, 1), q(0, 1), q(0, 1), q(13, 686), q(469, 8192), q(5120, 72501), q(1967, 11346)]), q(1, 24));
}

/// The interpolant of [`crate::rk::ButcherTableu::rktp64`] is a dense output of order four.
pub(crate) proof fn lemma_rktp64_dense_output()
    ensures
        interpolant_conditions(rktp64_model(), 5, 4),
{
    let m = rktp64_model();
    assert forall|k: int, j: int|
        #![trigger elementary_weights(m.a, k), bi_column(m, j)]
        0 <= k < num_trees() && tree_order(k) <= 4 && 0 <= j < 5 implies q_eq(
        q_dot(bi_column(m, j), elementary_weights(m.a, k)),
        if j == tree_order(k) {
            q(1, tree_density(k))
        } else {
            q(0, 1)
        },
    ) by {
        if k == 0 {
            if j == 0 {
                lemma_rktp64_dense_0_0();
            } else if j == 1 {
                lemma_rktp64_dense_0_1();
            } else if j == 2 {
                lemma_rktp64_dense_0_2();
            } else if j == 3 {
                lemma_rktp64_dense_0_3();
            } else if j == 4 {
                lemma_rktp64_dense_0_4();
            }
        } else if k == 1 {
            if j == 0 {
                lemma_rktp64_dense_1_0();
            } else if j == 1 {
                lemma_rktp64_dense_1_1();
            } else if j == 2 {
                lemma_rktp64_dense_1_2();
            } else if j == 3 {
                lemma_rktp64_dense_1_3();
            } else if j == 4 {
                lemma_rktp64_dense_1_4();
            }
        } else if k == 2 {
            if j == 0 {
                lemma_rktp64_dense_2_0();
            } else if j == 1 {
                lemma_rktp64_dense_2_1();
            } else if j == 2 {
                lemma_rktp64_dense_2_2();
            } else if j == 3 {
                lemma_rktp64_dense_2_3();
            } else if j == 4 {
                lemma_rktp64_dense_2_4();
            }
        } else if k == 3 {
            if j == 0 {
                lemma_rktp64_dense_3_0();
            } else if j == 1 {
                lemma_rktp64_dense_3_1();
            } else if j == 2 {
                lemma_rktp64_dense_3_2();
            } else if j == 3 {
                lemma_rktp64_dense_3_3();
            } else if j == 4 {
                lemma_rktp64_dense_3_4();
            }
        } else if k == 4 {
            if j == 0 {
                lemma_rktp64_dense_4_0();
            } else if j == 1 {
                lemma_rktp64_dense_4_1();
            } else if j == 2 {
                lemma_rktp64_dense_4_2();
            } else if j == 3 {
                lemma_rktp64_dense_4_3();
            } else if j == 4 {
                lemma_rktp64_dense_4_4();
            }
        } else if k == 5 {
            if j == 0 {
                lemma_rktp64_dense_5_0();
            } else if j == 1 {
                lemma_rktp64_dense_5_1();
            } else if j == 2 {
                lemma_rktp64_dense_5_2();
            } else if j == 3 {
                lemma_rktp64_dense_5_3();
            } else if j == 4 {
                lemma_rktp64_dense_5_4();
            }
        } else if k == 6 {
            if j == 0 {
                lemma_rktp64_dense_6_0();
            } else if j == 1 {
                lemma_rktp64_dense_6_1();
            } else if j == 2 {
                lemma_rktp64_dense_6_2();
            } else if j == 3 {
                lemma_rktp64_dense_6_3();
            } else if j == 4 {
                lemma_rktp64_dense_6_4();
            }
        } else if k == 7 {
            if j == 0 {
                lemma_rktp64_dense_7_0();
            } else if j == 1 {
                lemma_rktp64_dense_7_1();
            } else if j == 2 {
                lemma_rktp64_dense_7_2();
            } else if j == 3 {
                lemma_rktp64_dense_7_3();
            } else if j == 4 {
                lemma_rktp64_dense_7_4();
            }
        }
    }
}

} // verus!
