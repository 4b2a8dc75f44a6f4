use diffurch::rational::Rational;
use diffurch::rk::ButcherTableu;

fn r(n: i64, d: i64) -> Rational {
    Rational::new(n, d)
}

fn same(x: Rational, y: Rational) -> bool {
    x.same_value(&y)
}

#[test]
fn euler_table() {
    let t = ButcherTableu::euler();
    assert_eq!((t.order, t.order_embedded, t.order_interpolant), (1, 0, 1));
    assert!(same(t.b[0], r(1, 1)));
    assert!(same(t.bi[0][1], r(1, 1)));
}

#[test]
fn rk4_table() {
    let t = ButcherTableu::rk4();
    assert_eq!((t.order, t.order_embedded, t.order_interpolant), (4, 2, 1));
    assert!(same(t.a[1][0], r(1, 2)));
    assert!(same(t.a[2][1], r(1, 2)));
    assert!(same(t.a[3][2], r(1, 1)));
    assert!(same(t.b[0], r(1, 6)));
    assert!(same(t.b[1], r(1, 3)));
    assert!(same(t.c[3], r(1, 1)));
}

#[test]
fn three_eights_table() {
    let t = ButcherTableu::three_eights();
    assert_eq!(t.order, 4);
    assert!(same(t.a[2][0], r(-1, 3)));
    assert!(same(t.b[1], r(3, 8)));
}

#[test]
fn rk43_table() {
    let t = ButcherTableu::rk43();
    assert_eq!((t.order, t.order_embedded, t.order_interpolant), (4, 3, 3));
    assert!(same(t.a[4][3], r(-1, 32)));
    assert!(same(t.b2[4], r(-16, 3)));
    assert!(same(t.c[4], r(3, 4)));
}

#[test]
fn rktp64_table() {
    let t = ButcherTableu::rktp64();
    assert_eq!((t.order, t.order_embedded, t.order_interpolant), (6, 4, 4));
    assert!(same(t.c[1], r(4, 27)));
    assert!(same(t.b[6], r(1891, 25200)));
    assert!(same(t.a[6][5], r(6597591, 7972456)));
}

#[test]
fn weights_sum_to_one() {
    let t = ButcherTableu::rktp64();
    let mut num: i128 = 0;
    let mut den: i128 = 1;
    for w in t.b.iter() {
        num = num * (w.denom as i128) + (w.numer as i128) * den;
        den *= w.denom as i128;
        let g = gcd(num.abs(), den.abs());
        num /= g;
        den /= g;
    }
    assert_eq!(num, den);
}

fn gcd(a: i128, b: i128) -> i128 {
    if b == 0 { a } else { gcd(b, a % b) }
}

#[test]
fn generic_order_2_values() {
    let t = ButcherTableu::generic_order_2(r(2, 3));
    assert_eq!((t.order, t.order_embedded, t.order_interpolant), (2, 1, 1));
    assert!(same(t.a[1][0], r(2, 3)));
    assert!(same(t.b[0], r(1, 4)));
    assert!(same(t.b[1], r(3, 4)));
    assert!(same(t.b2[0], r(1, 1)));
    assert!(same(t.c[1], r(2, 3)));
}

#[test]
fn midpoint_heun2_ralston2() {
    let m = ButcherTableu::midpoint();
    assert!(same(m.b[0], r(0, 1)));
    assert!(same(m.b[1], r(1, 1)));
    let h = ButcherTableu::heun2();
    assert!(same(h.b[0], r(1, 2)));
    assert!(same(h.b[1], r(1, 2)));
    let ra = ButcherTableu::ralston2();
    assert!(same(ra.b[0], r(1, 4)));
    assert!(same(ra.b[1], r(3, 4)));
}

#[test]
fn kutta3_is_kuttas_method() {
    let t = ButcherTableu::kutta3();
    assert_eq!((t.order, t.order_embedded), (3, 2));
    assert!(same(t.a[2][0], r(-1, 1)));
    assert!(same(t.a[2][1], r(2, 1)));
    assert!(same(t.b[0], r(1, 6)));
    assert!(same(t.b[1], r(2, 3)));
    assert!(same(t.b[2], r(1, 6)));
}

#[test]
fn heun3_ralston3_wray3_ssp3() {
    let h = ButcherTableu::heun3();
    assert!(same(h.b[0], r(1, 4)));
    assert!(same(h.b[1], r(0, 1)));
    assert!(same(h.b[2], r(3, 4)));
    let ra = ButcherTableu::ralston3();
    assert!(same(ra.b[0], r(2, 9)));
    assert!(same(ra.b[1], r(1, 3)));
    assert!(same(ra.b[2], r(4, 9)));
    assert!(same(ra.a[2][0], r(0, 1)));
    assert!(same(ra.a[2][1], r(3, 4)));
    let w = ButcherTableu::wray3();
    assert!(same(w.b[0], r(1, 4)));
    assert!(same(w.b[1], r(0, 1)));
    assert!(same(w.b[2], r(3, 4)));
    assert!(same(w.a[2][0], r(1, 4)));
    assert!(same(w.a[2][1], r(5, 12)));
    let s = ButcherTableu::ssp3();
    assert!(same(s.b[0], r(1, 6)));
    assert!(same(s.b[1], r(1, 6)));
    assert!(same(s.b[2], r(2, 3)));
    assert!(same(s.a[2][0], r(1, 4)));
    assert!(same(s.a[2][1], r(1, 4)));
}

#[test]
fn generic_order_3_second_case() {
    let t = ButcherTableu::generic_order_3(r(2, 3), r(2, 3), Some(r(3, 8)));
    assert!(same(t.a[2][0], r(0, 1)));
    assert!(same(t.a[2][1], r(2, 3)));
    assert!(same(t.b[0], r(1, 4)));
    assert!(same(t.b[1], r(3, 8)));
    assert!(same(t.b[2], r(3, 8)));
}

#[test]
fn generic_order_3_third_case() {
    let t = ButcherTableu::generic_order_3(r(2, 3), r(0, 1), Some(r(1, 4)));
    assert!(same(t.a[2][0], r(-1, 1)));
    assert!(same(t.a[2][1], r(1, 1)));
    assert!(same(t.b[0], r(0, 1)));
    assert!(same(t.b[1], r(3, 4)));
    assert!(same(t.b[2], r(1, 4)));
}

#[test]
fn rational_same_value_cross_multiplies() {
    assert!(same(r(2, 4), r(1, 2)));
    assert!(same(r(-1, -4), r(1, 4)));
    assert!(!same(r(1, 3), r(1, 2)));
    assert!(r(0, 7).is_zero());
    assert!(same(Rational::from_integer(3), r(6, 2)));
}

/// Exact fractions in `i128`, reduced.
#[derive(Clone, Copy, Debug, PartialEq)]
struct Frac(i128, i128);

fn frac(x: Rational) -> Frac {
    reduce(x.numer as i128, x.denom as i128)
}

fn reduce(n: i128, d: i128) -> Frac {
    let g = gcd(n.abs(), d.abs()).max(1);
    let s = if d < 0 { -1 } else { 1 };
    Frac(s * n / g, s * d / g)
}

fn add(x: Frac, y: Frac) -> Frac {
    reduce(x.0 * y.1 + y.0 * x.1, x.1 * y.1)
}

fn mul(x: Frac, y: Frac) -> Frac {
    reduce(x.0 * y.0, x.1 * y.1)
}

fn dot<const S: usize>(w: &[Rational; S], v: &[Frac; S]) -> Frac {
    let mut s = Frac(0, 1);
    for i in 0..S {
        s = add(s, mul(frac(w[i]), v[i]));
    }
    s
}

fn check_order_3<const S: usize, const I: usize>(t: &ButcherTableu<S, I>) {
    let c: [Frac; S] = std::array::from_fn(|i| frac(t.c[i]));
    let ones = [Frac(1, 1); S];
    for i in 0..S {
        assert_eq!(dot(&t.a[i], &ones), c[i]);
    }
    let cc: [Frac; S] = std::array::from_fn(|i| mul(c[i], c[i]));
    let ac: [Frac; S] = std::array::from_fn(|i| dot(&t.a[i], &c));
    assert_eq!(dot(&t.b, &ones), Frac(1, 1));
    assert_eq!(dot(&t.b, &c), Frac(1, 2));
    assert_eq!(dot(&t.b, &cc), Frac(1, 3));
    assert_eq!(dot(&t.b, &ac), Frac(1, 6));
    assert_eq!(dot(&t.b2, &ones), Frac(1, 1));
    assert_eq!(dot(&t.b2, &c), Frac(1, 2));
}

#[test]
fn order_conditions_of_the_third_order_methods() {
    check_order_3(&ButcherTableu::kutta3());
    check_order_3(&ButcherTableu::heun3());
    check_order_3(&ButcherTableu::ralston3());
    check_order_3(&ButcherTableu::wray3());
    check_order_3(&ButcherTableu::ssp3());
    check_order_3(&ButcherTableu::generic_order_3(r(1, 5), r(7, 9), None));
    check_order_3(&ButcherTableu::generic_order_3(r(2, 3), r(2, 3), Some(r(-5, 7))));
    check_order_3(&ButcherTableu::generic_order_3(r(4, 6), r(0, 3), Some(r(1, 3))));
    check_order_3(&ButcherTableu::rk4());
    check_order_3(&ButcherTableu::three_eights());
    check_order_3(&ButcherTableu::rktp64());
}

#[test]
fn interpolants_end_at_the_weights() {
    let t = ButcherTableu::rk43();
    for i in 0..5 {
        let mut s = Frac(0, 1);
        for j in 0..4 {
            s = add(s, frac(t.bi[i][j]));
        }
        assert_eq!(s, frac(t.b[i]));
        assert_eq!(frac(t.bi[i][0]), Frac(0, 1));
    }
}

#[test]
fn generic_order_3_with_kuttas_nodes_is_kutta3() {
    let g = ButcherTableu::generic_order_3(r(1, 2), r(1, 1), None);
    let k = ButcherTableu::kutta3();
    for i in 0..3 {
        for j in 0..3 {
            assert_eq!(frac(g.a[i][j]), frac(k.a[i][j]));
        }
        assert_eq!(frac(g.b[i]), frac(k.b[i]));
        assert_eq!(frac(g.b2[i]), frac(k.b2[i]));
    }
}
