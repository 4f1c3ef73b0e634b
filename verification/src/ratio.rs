//! Exact rational numbers, held in lowest terms.

use vstd::prelude::*;

use crate::gcd::{
    gcd, greatest_common_divisor, lemma_gcd_of_quotients, lemma_lowest_terms_unique,
};

verus! {

/// The quotient of two integers, as a real number.
pub open spec fn frac(num: int, den: int) -> real {
    num as real / den as real
}

/// A number without its sign.
pub open spec fn magnitude(n: int) -> int {
    if n < 0 {
        -n
    } else {
        n
    }
}

/// The bound on numerator and denominator of a small ratio: 2^60.
pub const SMALL: i128 = 0x1000_0000_0000_0000;

/// A rational number, held exactly as a numerator over a positive denominator
/// with which it has no common divisor. Its view is the real number that it
/// stands for, and two ratios are equal where their views are.
#[derive(Clone, Copy, Debug, PartialEq, Eq, Structural)]
pub struct Ratio {
    num: i128,
    den: i128,
}

impl View for Ratio {
    type V = real;

    open spec fn view(&self) -> real {
        frac(self.num(), self.den())
    }
}

impl Ratio {
    /// The denominator is positive and the fraction is in lowest terms.
    #[verifier::type_invariant]
    pub closed spec fn wf(self) -> bool {
        &&& self.den > 0
        &&& gcd(magnitude(self.num as int), self.den as int) == 1
    }

    /// The numerator.
    pub closed spec fn num(self) -> int {
        self.num as int
    }

    /// The denominator.
    pub closed spec fn den(self) -> int {
        self.den as int
    }

    /// Numerator and denominator lie within `bound`.
    pub open spec fn within(self, bound: int) -> bool {
        &&& -bound <= self.num() <= bound
        &&& 0 < self.den() <= bound
    }

    /// Numerator and denominator are small enough for sums and differences
    /// of such numbers to stay within the machine's integers.
    pub open spec fn small(self) -> bool {
        self.within(SMALL as int)
    }

    /// The number `num / den`.
    pub fn new(num: i128, den: i128) -> (r: Ratio)
        requires
            den > 0,
        ensures
            r.wf(),
            r@ == frac(num as int, den as int),
            magnitude(r.num()) <= magnitude(num as int),
            0 < r.den() <= den,
    {
        let negative = num < 0;
        let size: u128 = if negative {
            ((-(num + 1)) as u128) + 1
        } else {
            num as u128
        };
        let common = greatest_common_divisor(size, den as u128);
        proof {
            lemma_gcd_of_quotients(size as int, den as int);
        }
        let top: u128 = size / common;
        let bottom: u128 = den as u128 / common;
        proof {
            lemma_lowest(size as int, den as int, common as int, top as int, bottom as int);
            if negative {
                lemma_frac_scale(-(top as int), bottom as int, common as int);
                assert(-(top as int) * common == num) by (nonlinear_arith)
                    requires
                        size == top * common,
                        num == -size,
                ;
            } else {
                lemma_frac_scale(top as int, bottom as int, common as int);
            }
        }
        let num: i128 = if negative {
            -((top - 1) as i128) - 1
        } else {
            top as i128
        };
        Ratio { num, den: bottom as i128 }
    }

    /// The whole number `n`.
    pub fn from_int(n: i64) -> (r: Ratio)
        ensures
            r.wf(),
            r@ == n as real,
            r.num() == n,
            r.den() == 1,
    {
        proof {
            let size = magnitude(n as int);
            assert(gcd(size, 1) == gcd(1, size % 1));
            assert(gcd(1, 0) == 1);
            assert(frac(n as int, 1) == n as real / 1real);
        }
        Ratio { num: n as i128, den: 1 }
    }

    /// Half of the number.
    pub fn half(&self) -> (r: Ratio)
        requires
            self.within(2 * SMALL),
        ensures
            r.wf(),
            r@ == self@ / 2real,
            magnitude(r.num()) <= magnitude(self.num()),
            0 < r.den() <= 2 * self.den(),
    {
        proof {
            use_type_invariant(self);
            lemma_frac_half(self.num(), self.den());
        }
        Ratio::new(self.num, 2 * self.den)
    }

    /// The sum of two numbers.
    pub fn add(&self, other: &Ratio) -> (r: Ratio)
        requires
            self.within(2 * SMALL),
            other.within(2 * SMALL),
        ensures
            r.wf(),
            r@ == self@ + other@,
            magnitude(r.num()) <= magnitude(
                self.num() * other.den() + other.num() * self.den(),
            ),
            0 < r.den() <= self.den() * other.den(),
    {
        proof {
            use_type_invariant(self);
            use_type_invariant(other);
            lemma_product_within(self.num(), other.den());
            lemma_product_within(other.num(), self.den());
            lemma_product_within(self.den(), other.den());
            lemma_frac_sum(self.num(), self.den(), other.num(), other.den());
        }
        Ratio::new(self.num * other.den + other.num * self.den, self.den * other.den)
    }

    /// The difference of two numbers.
    pub fn sub(&self, other: &Ratio) -> (r: Ratio)
        requires
            self.within(2 * SMALL),
            other.within(2 * SMALL),
        ensures
            r.wf(),
            r@ == self@ - other@,
            magnitude(r.num()) <= magnitude(
                self.num() * other.den() - other.num() * self.den(),
            ),
            0 < r.den() <= self.den() * other.den(),
    {
        proof {
            use_type_invariant(self);
            use_type_invariant(other);
            lemma_product_within(self.num(), other.den());
            lemma_product_within(other.num(), self.den());
            lemma_product_within(self.den(), other.den());
            lemma_frac_sum(self.num(), self.den(), -other.num(), other.den());
            lemma_frac_negate(other.num(), other.den());
            assert(-other.num() * self.den() == -(other.num() * self.den())) by (nonlinear_arith);
        }
        Ratio::new(self.num * other.den - other.num * self.den, self.den * other.den)
    }

    /// The numerator of the fraction in lowest terms.
    pub fn numer(&self) -> (n: i128)
        ensures
            n == self.num(),
    {
        self.num
    }

    /// The denominator of the fraction in lowest terms.
    pub fn denom(&self) -> (d: i128)
        ensures
            d == self.den(),
            d > 0,
    {
        proof {
            use_type_invariant(self);
        }
        self.den
    }

    /// Two ratios that stand for the same number are the same.
    pub proof fn lemma_equal_values(self, other: Ratio)
        requires
            self.wf(),
            other.wf(),
            self@ == other@,
        ensures
            self == other,
    {
        let n1 = self.num as int;
        let d1 = self.den as int;
        let n2 = other.num as int;
        let d2 = other.den as int;
        lemma_cross(n1, d1, n2, d2);
        if n1 >= 0 {
            assert(n2 >= 0) by (nonlinear_arith)
                requires
                    n1 * d2 == n2 * d1,
                    n1 >= 0,
                    d1 > 0,
                    d2 > 0,
            ;
            lemma_lowest_terms_unique(n1, d1, n2, d2);
        } else {
            assert(n2 < 0) by (nonlinear_arith)
                requires
                    n1 * d2 == n2 * d1,
                    n1 < 0,
                    d1 > 0,
                    d2 > 0,
            ;
            assert((-n1) * d2 == (-n2) * d1) by (nonlinear_arith)
                requires
                    n1 * d2 == n2 * d1,
            ;
            lemma_lowest_terms_unique(-n1, d1, -n2, d2);
        }
    }
}

/// What is left of a number and a denominator after their greatest common
/// divisor is taken out.
proof fn lemma_lowest(size: int, den: int, common: int, top: int, bottom: int)
    requires
        size >= 0,
        den > 0,
        common > 0,
        top == size / common,
        bottom == den / common,
        size == top * common,
        den == bottom * common,
    ensures
        0 <= top <= size,
        0 < bottom <= den,
        size > 0 ==> top > 0,
{
    assert(0 <= top <= size && 0 < bottom <= den && (size > 0 ==> top > 0)) by (nonlinear_arith)
        requires
            size >= 0,
            den > 0,
            common > 0,
            size == top * common,
            den == bottom * common,
    ;
}

/// Equal fractions have equal cross products.
proof fn lemma_cross(n1: int, d1: int, n2: int, d2: int)
    requires
        d1 > 0,
        d2 > 0,
        frac(n1, d1) == frac(n2, d2),
    ensures
        n1 * d2 == n2 * d1,
{
    let a = n1 as real;
    let b = d1 as real;
    let c = n2 as real;
    let d = d2 as real;
    assert(a == (a / b) * b) by (nonlinear_arith)
        requires
            b > 0real,
    ;
    assert(c == (c / d) * d) by (nonlinear_arith)
        requires
            d > 0real,
    ;
    let q = a / b;
    assert(c / d == q);
    assert((q * b) * d == (q * d) * b) by (nonlinear_arith);
    assert(a * d == c * b);
    assert((n1 * d2) as real == a * d) by (nonlinear_arith)
        requires
            a == n1 as real,
            d == d2 as real,
    ;
    assert((n2 * d1) as real == c * b) by (nonlinear_arith)
        requires
            c == n2 as real,
            b == d1 as real,
    ;
}

/// Scaling numerator and denominator leaves a fraction as it is.
proof fn lemma_frac_scale(num: int, den: int, scale: int)
    requires
        den > 0,
        scale > 0,
    ensures
        frac(num * scale, den * scale) == frac(num, den),
{
    let n = num as real;
    let d = den as real;
    let k = scale as real;
    assert((num * scale) as real == n * k) by (nonlinear_arith)
        requires
            n == num as real,
            k == scale as real,
    ;
    assert((den * scale) as real == d * k) by (nonlinear_arith)
        requires
            d == den as real,
            k == scale as real,
    ;
    assert((n * k) / (d * k) == n / d) by (nonlinear_arith)
        requires
            d > 0real,
            k > 0real,
    ;
}

/// The product of two integers within 2^61 lies within 2^122.
proof fn lemma_product_within(a: int, b: int)
    requires
        -0x2000_0000_0000_0000 <= a <= 0x2000_0000_0000_0000,
        -0x2000_0000_0000_0000 <= b <= 0x2000_0000_0000_0000,
    ensures
        -0x400_0000_0000_0000_0000_0000_0000_0000 <= a * b
            <= 0x400_0000_0000_0000_0000_0000_0000_0000,
        a > 0 && b > 0 ==> a * b > 0,
{
    assert(-0x400_0000_0000_0000_0000_0000_0000_0000 <= a * b
        <= 0x400_0000_0000_0000_0000_0000_0000_0000) by (nonlinear_arith)
        requires
            -0x2000_0000_0000_0000 <= a <= 0x2000_0000_0000_0000,
            -0x2000_0000_0000_0000 <= b <= 0x2000_0000_0000_0000,
    ;
    assert(a > 0 && b > 0 ==> a * b > 0) by (nonlinear_arith);
}

/// A fraction is the number that, times the denominator, gives the numerator.
pub proof fn lemma_frac_is(num: int, den: int, value: real)
    requires
        den != 0,
        num as real == value * den as real,
    ensures
        frac(num, den) == value,
{
    let n = num as real;
    let d = den as real;
    assert(n / d == value) by (nonlinear_arith)
        requires
            d != 0real,
            n == value * d,
    ;
}

/// Halving a fraction doubles its denominator.
proof fn lemma_frac_half(num: int, den: int)
    requires
        den > 0,
    ensures
        frac(num, 2 * den) == frac(num, den) / 2real,
{
    let n = num as real;
    let d = den as real;
    assert((2 * den) as real == 2real * d);
    assert(n / (2real * d) == (n / d) / 2real) by (nonlinear_arith)
        requires
            d > 0real,
    ;
}

/// Fractions are added over the product of their denominators.
proof fn lemma_frac_sum(a: int, b: int, c: int, d: int)
    requires
        b > 0,
        d > 0,
    ensures
        frac(a * d + c * b, b * d) == frac(a, b) + frac(c, d),
{
    let ar = a as real;
    let br = b as real;
    let cr = c as real;
    let dr = d as real;
    assert((a * d + c * b) as real == ar * dr + cr * br) by (nonlinear_arith)
        requires
            ar == a as real,
            br == b as real,
            cr == c as real,
            dr == d as real,
    ;
    assert((b * d) as real == br * dr) by (nonlinear_arith)
        requires
            br == b as real,
            dr == d as real,
    ;
    assert((ar * dr + cr * br) / (br * dr) == ar / br + cr / dr) by (nonlinear_arith)
        requires
            br > 0real,
            dr > 0real,
    ;
}

/// The fraction of a negated numerator is the negated fraction.
proof fn lemma_frac_negate(num: int, den: int)
    requires
        den > 0,
    ensures
        frac(-num, den) == -frac(num, den),
{
    let n = num as real;
    let d = den as real;
    assert((-num) as real == -n);
    assert((-n) / d == -(n / d)) by (nonlinear_arith)
        requires
            d > 0real,
    ;
}

} // verus!
