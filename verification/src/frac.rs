//! Exact rational arithmetic for layout computations.
//!
//! Percentages and normalized coordinates are held as fractions of `i128`
//! integers instead of floating point, so every layout computation in this
//! crate is exact. The basic operations leave fractions unreduced and
//! check that the raw numerator and denominator stay inside
//! [`FRAC_BOUND`], which keeps all intermediate products inside `i128`;
//! where fractions accumulate, [`Frac::reduce`] and [`Frac::add_red`]
//! bring them back to lowest terms.

use vstd::prelude::*;

verus! {

/// Raw numerators and denominators are kept strictly below this bound
/// (2^63), so that any product of two of them fits comfortably in `i128`.
pub const FRAC_BOUND: i128 = 9223372036854775808;

/// The mathematical value of a [`Frac`]: an unreduced fraction of
/// unbounded integers.
pub ghost struct Rat {
    pub num: int,
    pub den: int,
}

/// A well-formed rational has a positive denominator.
pub open spec fn rat_wf(r: Rat) -> bool {
    0 < r.den
}

/// Equality of rationals by cross multiplication.
pub open spec fn rat_eq(a: Rat, b: Rat) -> bool {
    a.num * b.den == b.num * a.den
}

/// Order on rationals by cross multiplication (sound when both are
/// well-formed).
pub open spec fn rat_le(a: Rat, b: Rat) -> bool {
    a.num * b.den <= b.num * a.den
}

/// The unreduced sum of two rationals.
pub open spec fn rat_add(a: Rat, b: Rat) -> Rat {
    Rat { num: a.num * b.den + b.num * a.den, den: a.den * b.den }
}

/// The unreduced difference of two rationals.
pub open spec fn rat_sub(a: Rat, b: Rat) -> Rat {
    Rat { num: a.num * b.den - b.num * a.den, den: a.den * b.den }
}

/// The unreduced product of two rationals.
pub open spec fn rat_mul(a: Rat, b: Rat) -> Rat {
    Rat { num: a.num * b.num, den: a.den * b.den }
}

/// The unreduced quotient of two rationals, with the sign moved into the
/// numerator so the denominator stays positive. Meaningful only when the
/// divisor's numerator is nonzero.
pub open spec fn rat_div(a: Rat, b: Rat) -> Rat {
    if b.num >= 0 {
        Rat { num: a.num * b.den, den: a.den * b.num }
    } else {
        Rat { num: -(a.num * b.den), den: a.den * (-b.num) }
    }
}

/// Half of a rational, taken by doubling the denominator.
pub open spec fn rat_half(a: Rat) -> Rat {
    Rat { num: a.num, den: a.den * 2 }
}

/// The rational with value `n`.
pub open spec fn rat_of_int(n: int) -> Rat {
    Rat { num: n, den: 1 }
}

/// Whether a raw fraction fits the machine representation: numerator
/// strictly between `-FRAC_BOUND` and `FRAC_BOUND`, denominator strictly
/// between `0` and `FRAC_BOUND`.
pub open spec fn rat_in_bounds(r: Rat) -> bool {
    &&& -(FRAC_BOUND as int) < r.num < FRAC_BOUND as int
    &&& 0 < r.den < FRAC_BOUND as int
}

/// A product of two factors below the machine bound fits comfortably in
/// `i128`.
pub proof fn lemma_prod_fits(a: int, b: int)
    by (nonlinear_arith)
    requires
        -9223372036854775808 < a < 9223372036854775808,
        -9223372036854775808 < b < 9223372036854775808,
    ensures
        -85070591730234615847396907784232501249 <= a * b
            <= 85070591730234615847396907784232501249,
{
}

/// An exact rational number, the carrier of all percentages and normalized
/// coordinates in this crate.
#[derive(Clone, Copy, Debug)]
pub struct Frac {
    num: i128,
    den: i128,
}

impl View for Frac {
    type V = Rat;

    closed spec fn view(&self) -> Rat {
        Rat { num: self.num as int, den: self.den as int }
    }
}

impl Frac {
    /// Every `Frac` in existence is in bounds and has a positive
    /// denominator.
    #[verifier::type_invariant]
    pub open spec fn inv(self) -> bool {
        rat_in_bounds(self@)
    }

    /// Build a fraction from a raw numerator and denominator; `None` when
    /// the pair is outside the machine bounds (in particular when the
    /// denominator is not positive).
    pub fn new(num: i128, den: i128) -> (r: Option<Frac>)
        ensures
            rat_in_bounds(Rat { num: num as int, den: den as int }) ==> (r matches Some(f)
                && f@ == Rat { num: num as int, den: den as int }),
            !rat_in_bounds(Rat { num: num as int, den: den as int }) ==> r is None,
    {
        if -FRAC_BOUND < num && num < FRAC_BOUND && 0 < den && den < FRAC_BOUND {
            Some(Frac { num, den })
        } else {
            None
        }
    }

    /// The whole number `n` as a fraction.
    pub fn from_int(n: i32) -> (r: Frac)
        ensures
            r@ == rat_of_int(n as int),
    {
        Frac { num: n as i128, den: 1 }
    }

    /// The raw numerator.
    pub fn num(&self) -> (r: i128)
        ensures
            r as int == self@.num,
    {
        self.num
    }

    /// The raw denominator (always positive).
    pub fn den(&self) -> (r: i128)
        ensures
            r as int == self@.den,
            0 < r,
    {
        proof {
            use_type_invariant(self);
        }
        self.den
    }

    /// Exact sum; `None` when the raw result leaves the machine bounds.
    pub fn add(self, other: Frac) -> (r: Option<Frac>)
        ensures
            rat_in_bounds(rat_add(self@, other@)) ==> (r matches Some(f) && f@ == rat_add(
                self@,
                other@,
            )),
            !rat_in_bounds(rat_add(self@, other@)) ==> r is None,
    {
        proof {
            use_type_invariant(self);
            use_type_invariant(other);
            lemma_prod_fits(self.num as int, other.den as int);
            lemma_prod_fits(other.num as int, self.den as int);
            lemma_prod_fits(self.den as int, other.den as int);
        }
        let n = self.num * other.den + other.num * self.den;
        let d = self.den * other.den;
        Frac::new(n, d)
    }

    /// Exact difference; `None` when the raw result leaves the machine
    /// bounds.
    pub fn sub(self, other: Frac) -> (r: Option<Frac>)
        ensures
            rat_in_bounds(rat_sub(self@, other@)) ==> (r matches Some(f) && f@ == rat_sub(
                self@,
                other@,
            )),
            !rat_in_bounds(rat_sub(self@, other@)) ==> r is None,
    {
        proof {
            use_type_invariant(self);
            use_type_invariant(other);
            lemma_prod_fits(self.num as int, other.den as int);
            lemma_prod_fits(other.num as int, self.den as int);
            lemma_prod_fits(self.den as int, other.den as int);
        }
        let n = self.num * other.den - other.num * self.den;
        let d = self.den * other.den;
        Frac::new(n, d)
    }

    /// Exact product; `None` when the raw result leaves the machine bounds.
    pub fn mul(self, other: Frac) -> (r: Option<Frac>)
        ensures
            rat_in_bounds(rat_mul(self@, other@)) ==> (r matches Some(f) && f@ == rat_mul(
                self@,
                other@,
            )),
            !rat_in_bounds(rat_mul(self@, other@)) ==> r is None,
    {
        proof {
            use_type_invariant(self);
            use_type_invariant(other);
            lemma_prod_fits(self.num as int, other.num as int);
            lemma_prod_fits(self.den as int, other.den as int);
        }
        let n = self.num * other.num;
        let d = self.den * other.den;
        Frac::new(n, d)
    }

    /// Exact quotient; `None` when the divisor is zero or the raw result
    /// leaves the machine bounds.
    pub fn div(self, other: Frac) -> (r: Option<Frac>)
        ensures
            other@.num == 0 ==> r is None,
            other@.num != 0 && rat_in_bounds(rat_div(self@, other@)) ==> (r matches Some(f) && f@
                == rat_div(self@, other@)),
            other@.num != 0 && !rat_in_bounds(rat_div(self@, other@)) ==> r is None,
    {
        proof {
            use_type_invariant(self);
            use_type_invariant(other);
            lemma_prod_fits(self.num as int, other.den as int);
            lemma_prod_fits(self.den as int, other.num as int);
            lemma_prod_fits(self.den as int, -(other.num as int));
        }
        if other.num == 0 {
            None
        } else if other.num > 0 {
            Frac::new(self.num * other.den, self.den * other.num)
        } else {
            Frac::new(-(self.num * other.den), self.den * (-other.num))
        }
    }

    /// Exact half; `None` when doubling the denominator leaves the machine
    /// bounds.
    pub fn half(self) -> (r: Option<Frac>)
        ensures
            rat_in_bounds(rat_half(self@)) ==> (r matches Some(f) && f@ == rat_half(self@)),
            !rat_in_bounds(rat_half(self@)) ==> r is None,
    {
        proof {
            use_type_invariant(self);
        }
        Frac::new(self.num, self.den * 2)
    }

    /// Exact comparison.
    pub fn le(self, other: Frac) -> (r: bool)
        ensures
            r == rat_le(self@, other@),
    {
        proof {
            use_type_invariant(self);
            use_type_invariant(other);
            lemma_prod_fits(self.num as int, other.den as int);
            lemma_prod_fits(other.num as int, self.den as int);
        }
        self.num * other.den <= other.num * self.den
    }
}

impl PartialEq for Frac {
    /// Two fractions are equal when they denote the same rational, whatever
    /// their raw representation.
    fn eq(&self, other: &Frac) -> (r: bool) {
        proof {
            use_type_invariant(self);
            use_type_invariant(other);
            lemma_prod_fits(self.num as int, other.den as int);
            lemma_prod_fits(other.num as int, self.den as int);
        }
        self.num * other.den == other.num * self.den
    }
}

impl vstd::std_specs::cmp::PartialEqSpecImpl for Frac {
    open spec fn obeys_eq_spec() -> bool {
        true
    }

    open spec fn eq_spec(&self, other: &Frac) -> bool {
        rat_eq(self@, other@)
    }
}


/// The greatest common divisor of two nonnegative integers, by Euclid's
/// algorithm.
pub open spec fn spec_gcd(a: int, b: int) -> int
    decreases b,
{
    if b <= 0 {
        a
    } else {
        spec_gcd(b, a % b)
    }
}

/// The gcd divides both arguments and is positive when either is.
pub proof fn lemma_gcd_divides(a: int, b: int)
    requires
        0 <= a,
        0 <= b,
        a > 0 || b > 0,
    ensures
        spec_gcd(a, b) > 0,
        a % spec_gcd(a, b) == 0,
        b % spec_gcd(a, b) == 0,
    decreases b,
{
    let g = spec_gcd(a, b);
    if b <= 0 {
        assert(g == a);
        vstd::arithmetic::div_mod::lemma_mod_self_0(a);
        vstd::arithmetic::div_mod::lemma_small_mod(0nat, a as nat);
    } else {
        vstd::arithmetic::div_mod::lemma_mod_bound(a, b);
        lemma_gcd_divides(b, a % b);
        assert(g == spec_gcd(b, a % b));
        assert(b % g == 0 && (a % b) % g == 0 && g > 0);
        vstd::arithmetic::div_mod::lemma_fundamental_div_mod(a, b);
        vstd::arithmetic::div_mod::lemma_fundamental_div_mod(b, g);
        vstd::arithmetic::div_mod::lemma_fundamental_div_mod(a % b, g);
        let q = (a / b) * (b / g) + (a % b) / g;
        assert(a == g * q) by (nonlinear_arith)
            requires
                a == b * (a / b) + a % b,
                b == g * (b / g) + b % g,
                a % b == g * ((a % b) / g) + (a % b) % g,
                b % g == 0,
                (a % b) % g == 0,
                q == (a / b) * (b / g) + (a % b) / g,
        ;
        vstd::arithmetic::div_mod::lemma_mod_multiples_basic(q, g);
    }
}

/// The raw fraction reduced by the gcd of its numerator's magnitude and
/// its denominator.
pub open spec fn rat_reduce(r: Rat) -> Rat {
    let a = if r.num >= 0 {
        r.num
    } else {
        -r.num
    };
    let g = spec_gcd(a, r.den);
    Rat {
        num: if r.num >= 0 {
            a / g
        } else {
            -(a / g)
        },
        den: r.den / g,
    }
}

/// Reduction does not change the rational a fraction denotes.
pub proof fn lemma_rat_reduce_eq(r: Rat)
    requires
        rat_wf(r),
    ensures
        rat_wf(rat_reduce(r)),
        rat_eq(rat_reduce(r), r),
{
    let a = if r.num >= 0 {
        r.num
    } else {
        -r.num
    };
    let g = spec_gcd(a, r.den);
    lemma_gcd_divides(a, r.den);
    vstd::arithmetic::div_mod::lemma_fundamental_div_mod(a, g);
    vstd::arithmetic::div_mod::lemma_fundamental_div_mod(r.den, g);
    let q = a / g;
    let p = r.den / g;
    assert(a == g * q && r.den == g * p);
    assert(p > 0) by (nonlinear_arith)
        requires
            r.den == g * p,
            r.den > 0,
            g > 0,
    ;
    if r.num >= 0 {
        assert(q * r.den == r.num * p) by (nonlinear_arith)
            requires
                a == g * q,
                r.den == g * p,
                a == r.num,
        ;
    } else {
        assert((-q) * r.den == r.num * p) by (nonlinear_arith)
            requires
                a == g * q,
                r.den == g * p,
                a == -r.num,
        ;
    }
}

/// The Euclidean gcd of two nonnegative machine integers.
fn gcd_i128(a: i128, b: i128) -> (r: i128)
    requires
        0 <= a,
        0 <= b,
    ensures
        r == spec_gcd(a as int, b as int),
{
    let mut x = a;
    let mut y = b;
    while y > 0
        invariant
            0 <= x,
            0 <= y,
            spec_gcd(x as int, y as int) == spec_gcd(a as int, b as int),
        decreases y,
    {
        let t = x % y;
        x = y;
        y = t;
    }
    x
}

impl Frac {
    /// Exact sum, brought to lowest terms; `None` when even the reduced
    /// fraction leaves the machine bounds. Reduction keeps running sums
    /// small, so long chains of additions do not exhaust the bounds.
    pub fn add_red(self, other: Frac) -> (r: Option<Frac>)
        ensures
            rat_in_bounds(rat_reduce(rat_add(self@, other@))) ==> (r matches Some(f) && f@
                == rat_reduce(rat_add(self@, other@))),
            !rat_in_bounds(rat_reduce(rat_add(self@, other@))) ==> r is None,
    {
        proof {
            use_type_invariant(self);
            use_type_invariant(other);
            lemma_prod_fits(self.num as int, other.den as int);
            lemma_prod_fits(other.num as int, self.den as int);
            lemma_prod_fits(self.den as int, other.den as int);
        }
        let n = self.num * other.den + other.num * self.den;
        let d = self.den * other.den;
        proof {
            assert(d > 0) by (nonlinear_arith)
                requires
                    d as int == self.den as int * other.den as int,
                    self.den > 0,
                    other.den > 0,
            ;
        }
        let a = if n >= 0 {
            n
        } else {
            -n
        };
        proof {
            lemma_gcd_divides(a as int, d as int);
        }
        let g = gcd_i128(a, d);
        proof {
            vstd::arithmetic::div_mod::lemma_fundamental_div_mod(a as int, g as int);
            vstd::arithmetic::div_mod::lemma_fundamental_div_mod(d as int, g as int);
            vstd::arithmetic::div_mod::lemma_div_is_ordered_by_denominator(a as int, 1, g as int);
            vstd::arithmetic::div_mod::lemma_div_is_ordered_by_denominator(d as int, 1, g as int);
            vstd::arithmetic::div_mod::lemma_div_basics(a as int);
            vstd::arithmetic::div_mod::lemma_div_basics(d as int);
            assert(d as int / g as int > 0) by (nonlinear_arith)
                requires
                    d as int == g as int * (d as int / g as int),
                    d > 0,
                    g > 0,
            ;
        }
        let q = a / g;
        let dd = d / g;
        let num = if n >= 0 {
            q
        } else {
            -q
        };
        Frac::new(num, dd)
    }

    /// The same rational in lowest terms.
    pub fn reduce(self) -> (r: Frac)
        ensures
            r@ == rat_reduce(self@),
    {
        proof {
            use_type_invariant(self);
        }
        let a = if self.num >= 0 {
            self.num
        } else {
            -self.num
        };
        proof {
            lemma_gcd_divides(a as int, self.den as int);
        }
        let g = gcd_i128(a, self.den);
        proof {
            vstd::arithmetic::div_mod::lemma_fundamental_div_mod(a as int, g as int);
            vstd::arithmetic::div_mod::lemma_fundamental_div_mod(self.den as int, g as int);
            vstd::arithmetic::div_mod::lemma_div_is_ordered_by_denominator(a as int, 1, g as int);
            vstd::arithmetic::div_mod::lemma_div_is_ordered_by_denominator(
                self.den as int,
                1,
                g as int,
            );
            vstd::arithmetic::div_mod::lemma_div_basics(a as int);
            vstd::arithmetic::div_mod::lemma_div_basics(self.den as int);
            assert(self.den as int / g as int > 0) by (nonlinear_arith)
                requires
                    self.den as int == g as int * (self.den as int / g as int),
                    self.den > 0,
                    g > 0,
            ;
        }
        let q = a / g;
        let d = self.den / g;
        let num = if self.num >= 0 {
            q
        } else {
            -q
        };
        Frac { num, den: d }
    }
}

} // verus!
