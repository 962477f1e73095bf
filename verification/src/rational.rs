//! Exact rational numbers: a mathematical model `Q` for specifications and an
//! executable type `Rat` with 64-bit numerator and denominator.  Executable
//! operations are exact; where a result does not fit in 64 bits they return
//! `None` instead of losing precision.

use vstd::prelude::*;

verus! {

/// A mathematical rational number for specifications: an unbounded integer
/// numerator `n` over an unbounded integer denominator `d`.  A value is
/// meaningful only when `d != 0`; every `Q` built from a well-formed `Rat`
/// has `d > 0`.
pub struct Q {
    pub n: int,
    pub d: int,
}

/// The rational `i / 1`.
pub open spec fn q_int(i: int) -> Q {
    Q { n: i, d: 1 }
}

/// Exact sum of two rationals.
pub open spec fn q_add(a: Q, b: Q) -> Q {
    Q { n: a.n * b.d + b.n * a.d, d: a.d * b.d }
}

/// Exact difference of two rationals.
pub open spec fn q_sub(a: Q, b: Q) -> Q {
    Q { n: a.n * b.d - b.n * a.d, d: a.d * b.d }
}

/// Exact product of two rationals.
pub open spec fn q_mul(a: Q, b: Q) -> Q {
    Q { n: a.n * b.n, d: a.d * b.d }
}

/// Exact quotient of two rationals, with the sign moved into the numerator so
/// that a quotient of well-formed values keeps a positive denominator.
/// Meaningful only when `b.n != 0`.
pub open spec fn q_div(a: Q, b: Q) -> Q {
    if b.n >= 0 {
        Q { n: a.n * b.d, d: a.d * b.n }
    } else {
        Q { n: -(a.n * b.d), d: -(a.d * b.n) }
    }
}

/// Equality of rationals by cross-multiplication.
pub open spec fn q_eq(a: Q, b: Q) -> bool {
    a.n * b.d == b.n * a.d
}

/// Strict order on rationals by cross-multiplication; meaningful when both
/// denominators are positive.
pub open spec fn q_lt(a: Q, b: Q) -> bool {
    a.n * b.d < b.n * a.d
}

/// Non-strict order on rationals by cross-multiplication; meaningful when
/// both denominators are positive.
pub open spec fn q_le(a: Q, b: Q) -> bool {
    a.n * b.d <= b.n * a.d
}

/// Whether an unbounded integer fits in an `i64`.
pub open spec fn fits_i64(x: int) -> bool {
    i64::MIN <= x <= i64::MAX
}

/// Whether both parts of a rational fit in an `i64`, so that the value can be
/// held exactly in a `Rat`.
pub open spec fn q_fits(q: Q) -> bool {
    fits_i64(q.n) && fits_i64(q.d)
}

/// An exact rational number held in hardware integers.  Well-formed values
/// keep `den > 0`; the numerator carries the sign.
#[derive(Clone, Copy, PartialEq, Eq, Structural, Debug)]
pub struct Rat {
    pub num: i64,
    pub den: i64,
}

impl Rat {
    /// The mathematical value of this number.
    pub open spec fn q(self) -> Q {
        Q { n: self.num as int, d: self.den as int }
    }

    /// Well-formedness: the denominator is positive.
    pub open spec fn wf(self) -> bool {
        self.den > 0
    }
}

/// The product of an `i64` with a positive `i64` stays comfortably inside
/// `i128`: its magnitude is at most `2^63 * (2^63 - 1)`, so even the sum of
/// two such products fits.
proof fn lemma_num_den_product_bound(n: int, d: int) by (nonlinear_arith)
    requires
        -0x8000_0000_0000_0000 <= n <= 0x7fff_ffff_ffff_ffff,
        0 < d <= 0x7fff_ffff_ffff_ffff,
    ensures
        -0x3fff_ffff_ffff_ffff_8000_0000_0000_0000 <= n * d
            <= 0x3fff_ffff_ffff_ffff_8000_0000_0000_0000,
{
}

/// The product of two `i64` values fits in `i128`.
proof fn lemma_i64_product_bound(x: int, y: int) by (nonlinear_arith)
    requires
        -0x8000_0000_0000_0000 <= x <= 0x7fff_ffff_ffff_ffff,
        -0x8000_0000_0000_0000 <= y <= 0x7fff_ffff_ffff_ffff,
    ensures
        -0x4000_0000_0000_0000_0000_0000_0000_0000 <= x * y
            <= 0x4000_0000_0000_0000_0000_0000_0000_0000,
{
}

/// The product of two positive integers is positive.
proof fn lemma_positive_product(x: int, y: int) by (nonlinear_arith)
    requires
        x > 0,
        y > 0,
    ensures
        x * y > 0,
{
}

/// The product of a positive and a negative integer is negative.
proof fn lemma_mixed_product(x: int, y: int) by (nonlinear_arith)
    requires
        x > 0,
        y < 0,
    ensures
        x * y < 0,
{
}

/// Packs an exact numerator and positive denominator into a `Rat` when both
/// fit in 64 bits.
fn rat_from_parts(n: i128, d: i128) -> (r: Option<Rat>)
    requires
        d > 0,
    ensures
        r is Some <==> (fits_i64(n as int) && fits_i64(d as int)),
        r matches Some(c) ==> c.wf() && c.num as int == n as int && c.den as int == d as int,
{
    if n >= i64::MIN as i128 && n <= i64::MAX as i128 && d <= i64::MAX as i128 {
        Some(Rat { num: n as i64, den: d as i64 })
    } else {
        None
    }
}

/// Exact addition; `None` when the exact result does not fit.
pub fn rat_add(a: Rat, b: Rat) -> (r: Option<Rat>)
    requires
        a.wf(),
        b.wf(),
    ensures
        r is Some <==> q_fits(q_add(a.q(), b.q())),
        r matches Some(c) ==> c.wf() && c.q() == q_add(a.q(), b.q()),
{
    proof {
        lemma_num_den_product_bound(a.num as int, b.den as int);
        lemma_num_den_product_bound(b.num as int, a.den as int);
        lemma_positive_product(a.den as int, b.den as int);
        lemma_num_den_product_bound(a.den as int, b.den as int);
    }
    let n: i128 = (a.num as i128) * (b.den as i128) + (b.num as i128) * (a.den as i128);
    let d: i128 = (a.den as i128) * (b.den as i128);
    rat_from_parts(n, d)
}

/// Exact subtraction; `None` when the exact result does not fit.
pub fn rat_sub(a: Rat, b: Rat) -> (r: Option<Rat>)
    requires
        a.wf(),
        b.wf(),
    ensures
        r is Some <==> q_fits(q_sub(a.q(), b.q())),
        r matches Some(c) ==> c.wf() && c.q() == q_sub(a.q(), b.q()),
{
    proof {
        lemma_num_den_product_bound(a.num as int, b.den as int);
        lemma_num_den_product_bound(b.num as int, a.den as int);
        lemma_positive_product(a.den as int, b.den as int);
        lemma_num_den_product_bound(a.den as int, b.den as int);
    }
    let n: i128 = (a.num as i128) * (b.den as i128) - (b.num as i128) * (a.den as i128);
    let d: i128 = (a.den as i128) * (b.den as i128);
    rat_from_parts(n, d)
}

/// Exact multiplication; `None` when the exact result does not fit.
pub fn rat_mul(a: Rat, b: Rat) -> (r: Option<Rat>)
    requires
        a.wf(),
        b.wf(),
    ensures
        r is Some <==> q_fits(q_mul(a.q(), b.q())),
        r matches Some(c) ==> c.wf() && c.q() == q_mul(a.q(), b.q()),
{
    proof {
        lemma_i64_product_bound(a.num as int, b.num as int);
        lemma_positive_product(a.den as int, b.den as int);
        lemma_num_den_product_bound(a.den as int, b.den as int);
    }
    let n: i128 = (a.num as i128) * (b.num as i128);
    let d: i128 = (a.den as i128) * (b.den as i128);
    rat_from_parts(n, d)
}

/// Exact division; `None` when the divisor is zero or the exact result does
/// not fit.
pub fn rat_div(a: Rat, b: Rat) -> (r: Option<Rat>)
    requires
        a.wf(),
        b.wf(),
    ensures
        r is Some <==> (b.num != 0 && q_fits(q_div(a.q(), b.q()))),
        r matches Some(c) ==> c.wf() && c.q() == q_div(a.q(), b.q()),
{
    if b.num == 0 {
        return None;
    }
    proof {
        lemma_num_den_product_bound(a.num as int, b.den as int);
        lemma_num_den_product_bound(b.num as int, a.den as int);
    }
    let n0: i128 = (a.num as i128) * (b.den as i128);
    let d0: i128 = (a.den as i128) * (b.num as i128);
    if b.num > 0 {
        proof {
            lemma_positive_product(a.den as int, b.num as int);
        }
        rat_from_parts(n0, d0)
    } else {
        proof {
            lemma_mixed_product(a.den as int, b.num as int);
        }
        rat_from_parts(-n0, -d0)
    }
}

/// Exact strict comparison of two well-formed rationals.
pub fn rat_lt(a: Rat, b: Rat) -> (r: bool)
    requires
        a.wf(),
        b.wf(),
    ensures
        r == q_lt(a.q(), b.q()),
{
    proof {
        lemma_num_den_product_bound(a.num as int, b.den as int);
        lemma_num_den_product_bound(b.num as int, a.den as int);
    }
    (a.num as i128) * (b.den as i128) < (b.num as i128) * (a.den as i128)
}

/// Exact equality of two well-formed rationals as numbers (not of their
/// representations).
pub fn rat_eq(a: Rat, b: Rat) -> (r: bool)
    requires
        a.wf(),
        b.wf(),
    ensures
        r == q_eq(a.q(), b.q()),
{
    proof {
        lemma_num_den_product_bound(a.num as int, b.den as int);
        lemma_num_den_product_bound(b.num as int, a.den as int);
    }
    (a.num as i128) * (b.den as i128) == (b.num as i128) * (a.den as i128)
}

/// Rounding of `p / q` (with `q > 0`) to the nearest integer, halves away
/// from zero, as a mathematical function.
pub open spec fn round_half_away(p: int, q: int) -> int {
    if p >= 0 {
        (2 * p + q) / (2 * q)
    } else {
        -((2 * (-p) + q) / (2 * q))
    }
}

/// A rational rounded to two decimal places, halves away from zero.
pub open spec fn q_round2(a: Q) -> Q {
    Q { n: round_half_away(100 * a.n, a.d), d: 100 }
}

/// Rounds a well-formed rational to two decimal places, halves away from
/// zero; `None` when the rounded numerator does not fit.
pub fn rat_round2(a: Rat) -> (r: Option<Rat>)
    requires
        a.wf(),
    ensures
        r is Some <==> fits_i64(q_round2(a.q()).n),
        r matches Some(c) ==> c.wf() && c.q() == q_round2(a.q()),
{
    let t: i128 = 100 * (a.num as i128);
    let d: u128 = a.den as u128;
    if t >= 0 {
        let ta: u128 = t as u128;
        let quo: u128 = (2 * ta + d) / (2 * d);
        assert(quo == (2 * (100 * a.num as int) + a.den as int) / (2 * a.den as int));
        if quo <= i64::MAX as u128 {
            Some(Rat { num: quo as i64, den: 100 })
        } else {
            None
        }
    } else {
        let ta: u128 = (-t) as u128;
        let quo: u128 = (2 * ta + d) / (2 * d);
        assert(quo == (2 * (-(100 * a.num as int)) + a.den as int) / (2 * a.den as int));
        if quo <= 0x8000_0000_0000_0000u128 {
            let neg: i128 = -(quo as i128);
            Some(Rat { num: neg as i64, den: 100 })
        } else {
            None
        }
    }
}

} // verus!
