//! Greatest common divisors, by which fractions are brought to lowest terms.

use vstd::arithmetic::div_mod::{
    lemma_add_mod_noop, lemma_fundamental_div_mod, lemma_mod_self_0, lemma_mul_mod_noop_left,
    lemma_small_mod, lemma_sub_mod_noop, lemma_truncate_middle,
};
use vstd::arithmetic::mul::{lemma_mul_equality_converse, lemma_mul_is_commutative};
use vstd::prelude::*;

verus! {

/// The greatest common divisor of two numbers; that of 0 and 0 is 0.
pub open spec fn gcd(a: int, b: int) -> int
    decreases b,
{
    if b <= 0 {
        a
    } else {
        gcd(b, a % b)
    }
}

/// The greatest common divisor of two numbers.
pub fn greatest_common_divisor(a: u128, b: u128) -> (g: u128)
    ensures
        g == gcd(a as int, b as int),
{
    let mut x = a;
    let mut y = b;
    while y != 0
        invariant
            gcd(x as int, y as int) == gcd(a as int, b as int),
        decreases y,
    {
        let r = x % y;
        x = y;
        y = r;
    }
    x
}

/// A multiple of a number, taken several times, is a multiple of it.
proof fn lemma_multiple_times(x: int, k: int, m: int)
    requires
        m > 0,
        x % m == 0,
    ensures
        (x * k) % m == 0,
        (k * x) % m == 0,
{
    lemma_mul_mod_noop_left(x, k, m);
    assert((x % m) * k == 0) by (nonlinear_arith)
        requires
            x % m == 0,
    ;
    lemma_small_mod(0, m as nat);
    lemma_mul_is_commutative(x, k);
}

/// The greatest common divisor divides both numbers.
pub proof fn lemma_gcd_divides(a: int, b: int)
    requires
        a >= 0,
        b >= 0,
        a > 0 || b > 0,
    ensures
        gcd(a, b) > 0,
        a % gcd(a, b) == 0,
        b % gcd(a, b) == 0,
    decreases b,
{
    if b == 0 {
        lemma_mod_self_0(a);
        lemma_small_mod(0, a as nat);
    } else {
        let r = a % b;
        let q = a / b;
        let g = gcd(b, r);
        lemma_gcd_divides(b, r);
        lemma_fundamental_div_mod(a, b);
        lemma_multiple_times(b, q, g);
        lemma_add_mod_noop(b * q, r, g);
        lemma_small_mod(0, g as nat);
        assert((b * q + r) % g == 0);
    }
}

/// What divides both numbers divides their greatest common divisor.
pub proof fn lemma_gcd_greatest(d: int, a: int, b: int)
    requires
        a >= 0,
        b >= 0,
        d > 0,
        a % d == 0,
        b % d == 0,
    ensures
        gcd(a, b) % d == 0,
    decreases b,
{
    if b > 0 {
        let r = a % b;
        let q = a / b;
        lemma_fundamental_div_mod(a, b);
        lemma_multiple_times(b, q, d);
        lemma_sub_mod_noop(a, b * q, d);
        lemma_small_mod(0, d as nat);
        assert(r == a - b * q);
        assert(r % d == 0);
        lemma_gcd_greatest(d, b, r);
    }
}

/// Scaling both numbers scales their greatest common divisor.
pub proof fn lemma_gcd_scale(a: int, b: int, c: int)
    requires
        a >= 0,
        b >= 0,
        c > 0,
    ensures
        gcd(a * c, b * c) == gcd(a, b) * c,
    decreases b,
{
    if b == 0 {
        assert(b * c == 0);
    } else {
        let r = a % b;
        assert(b * c > 0) by (nonlinear_arith)
            requires
                b > 0,
                c > 0,
        ;
        lemma_truncate_middle(a, c, b);
        lemma_mul_is_commutative(a, c);
        lemma_mul_is_commutative(b, c);
        lemma_mul_is_commutative(r, c);
        assert((a * c) % (b * c) == r * c);
        lemma_gcd_scale(b, r, c);
    }
}

/// Two numbers divided by their greatest common divisor have none but 1.
pub proof fn lemma_gcd_of_quotients(a: int, b: int)
    requires
        a >= 0,
        b > 0,
    ensures
        gcd(a, b) > 0,
        gcd(a / gcd(a, b), b / gcd(a, b)) == 1,
        a == (a / gcd(a, b)) * gcd(a, b),
        b == (b / gcd(a, b)) * gcd(a, b),
{
    let g = gcd(a, b);
    lemma_gcd_divides(a, b);
    lemma_fundamental_div_mod(a, g);
    lemma_fundamental_div_mod(b, g);
    let x = a / g;
    let y = b / g;
    lemma_mul_is_commutative(x, g);
    lemma_mul_is_commutative(y, g);
    assert(a == x * g);
    assert(b == y * g);
    lemma_gcd_scale(x, y, g);
    let h = gcd(x, y);
    assert(h * g == 1 * g);
    lemma_mul_is_commutative(h, g);
    lemma_mul_equality_converse(g, h, 1);
}

/// What divides a product and has nothing in common with one factor divides
/// the other.
pub proof fn lemma_divides_factor(n: int, d: int, m: int)
    requires
        n >= 0,
        d > 0,
        m > 0,
        gcd(n, d) == 1,
        (n * m) % d == 0,
    ensures
        m % d == 0,
{
    lemma_gcd_scale(n, d, m);
    assert(gcd(n * m, d * m) == m);
    lemma_mod_self_0(d);
    lemma_multiple_times(d, m, d);
    lemma_gcd_greatest(d, n * m, d * m);
}

/// Two fractions in lowest terms that are equal have the same numerator and
/// the same denominator.
pub proof fn lemma_lowest_terms_unique(n1: int, d1: int, n2: int, d2: int)
    requires
        n1 >= 0,
        n2 >= 0,
        d1 > 0,
        d2 > 0,
        gcd(n1, d1) == 1,
        gcd(n2, d2) == 1,
        n1 * d2 == n2 * d1,
    ensures
        n1 == n2,
        d1 == d2,
{
    lemma_mod_self_0(d1);
    lemma_multiple_times(d1, n2, d1);
    assert((n1 * d2) % d1 == 0);
    lemma_divides_factor(n1, d1, d2);
    lemma_mod_self_0(d2);
    lemma_multiple_times(d2, n1, d2);
    assert((n2 * d1) % d2 == 0);
    lemma_divides_factor(n2, d2, d1);
    if d1 < d2 {
        lemma_small_mod(d1 as nat, d2 as nat);
    }
    if d2 < d1 {
        lemma_small_mod(d2 as nat, d1 as nat);
    }
    assert(d1 == d2);
    lemma_mul_is_commutative(n1, d1);
    lemma_mul_is_commutative(n2, d1);
    lemma_mul_equality_converse(d1, n1, n2);
}

} // verus!
