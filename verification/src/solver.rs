//! The lowest-possible-price solver: a bisection search over the retail
//! price, re-evaluating the margin cascade at a chosen level until the
//! rounded relative margin meets the target.
//!
//! The search keeps the ratio of retail price to net retail (the tax rate)
//! constant: every probe rebuilds the value record with the candidate price
//! and a proportionally rescaled net retail.  A probe at price zero divides
//! by a zero net retail; the probe reports that as a margin above or below
//! every number, by the sign of the absolute margin, or as undefined when the
//! absolute margin is zero as well.  An undefined margin compares as neither
//! above nor below the target.
//!
//! The established behaviour that this solver keeps:
//! - when the margin at price zero already exceeds the target, the upper
//!   bound is set to the sentinel -1 and the search runs below zero; whether
//!   that is a meaningful bracket is an open question of the design, and it
//!   is reproduced, not repaired;
//! - a probe whose rounded margin lands exactly on the target ends the
//!   search at once.
//!
//! Exact bisection never makes the bounds meet, so the search takes an
//! explicit step budget and gives up with `None` when it is spent; it also
//! answers `None` when an exact intermediate value does not fit in 64 bits.

use vstd::prelude::*;

use crate::margins::{
    calculate_cm0, calculate_cm0_absolute, calculate_cm1, calculate_cm1_absolute, calculate_cm2,
    calculate_cm2_absolute, Cm0Values, Cm1Values, Cm2Values, MarginCalculation,
};
use crate::rational::{
    fits_i64, q_add, q_div, q_eq, q_fits, q_int, q_le, q_lt, q_mul, q_round2, rat_add, rat_div,
    rat_eq, rat_lt, rat_mul, rat_round2, Q, Rat,
};

verus! {

/// The margin level at which the solver evaluates the cascade.
#[derive(Clone, Copy, PartialEq, Eq, Structural, Debug)]
pub enum MarginLevel {
    Cm0,
    Cm1,
    Cm2,
}

/// What a probe of the cascade reports: an exact rounded margin, a margin
/// above or below every number (the absolute margin divided by a zero net
/// retail), or no margin at all (zero divided by zero).
#[derive(Clone, Copy, PartialEq, Eq, Structural, Debug)]
pub enum CostMargin {
    Finite(Rat),
    AboveAll,
    BelowAll,
    Undefined,
}

/// The `Rat` whose parts are the two parts of a rational known to fit.
pub open spec fn rat_of_q(q: Q) -> Rat {
    Rat { num: q.n as i64, den: q.d as i64 }
}

/// The ratio of retail price to net retail, held constant during the search.
pub open spec fn tax_rate_q(values: Cm2Values) -> Q {
    q_div(values.retail_price.q(), values.cm1values.cm0values.net_retail.q())
}

/// The value record a probe evaluates: the candidate price with the net
/// retail rescaled at the same tax rate.
pub open spec fn probe_values(values: Cm2Values, price: Rat, net_retail: Rat) -> Cm2Values {
    Cm2Values {
        retail_price: price,
        cm1values: Cm1Values {
            cm0values: Cm0Values { net_retail, ..values.cm1values.cm0values },
            ..values.cm1values
        },
        ..values
    }
}

/// The absolute margin of the cascade at the chosen level.
pub open spec fn level_abs_q(values: Cm2Values, level: MarginLevel) -> Q {
    match level {
        MarginLevel::Cm0 => values.cm1values.cm0values.abs_q(),
        MarginLevel::Cm1 => values.cm1values.abs_q(),
        MarginLevel::Cm2 => values.abs_q(),
    }
}

/// Whether the absolute margin at the chosen level fits at every step.
pub open spec fn level_abs_fits(values: Cm2Values, level: MarginLevel) -> bool {
    match level {
        MarginLevel::Cm0 => values.cm1values.cm0values.abs_fits(),
        MarginLevel::Cm1 => values.cm1values.abs_fits(),
        MarginLevel::Cm2 => values.abs_fits(),
    }
}

/// The relative margin of the cascade at the chosen level.
pub open spec fn level_rel_q(values: Cm2Values, level: MarginLevel) -> Q {
    match level {
        MarginLevel::Cm0 => values.cm1values.cm0values.rel_q(),
        MarginLevel::Cm1 => values.cm1values.rel_q(),
        MarginLevel::Cm2 => values.rel_q(),
    }
}

/// Whether the whole margin calculation at the chosen level fits.
pub open spec fn level_margin_fits(values: Cm2Values, level: MarginLevel) -> bool {
    match level {
        MarginLevel::Cm0 => values.cm1values.cm0values.margin_fits(),
        MarginLevel::Cm1 => values.cm1values.margin_fits(),
        MarginLevel::Cm2 => values.margin_fits(),
    }
}

/// Whether a probe at `price` can be computed exactly: the rescaled net
/// retail fits, and then either the margin itself (net retail nonzero) or
/// the absolute margin alone (net retail zero) fits.
pub open spec fn probe_fits(
    values: Cm2Values,
    level: MarginLevel,
    price: Rat,
    tax_rate: Rat,
) -> bool {
    let net_q = q_div(price.q(), tax_rate.q());
    let pv = probe_values(values, price, rat_of_q(net_q));
    q_fits(net_q) && if net_q.n == 0 {
        level_abs_fits(pv, level)
    } else {
        level_margin_fits(pv, level) && fits_i64(q_round2(level_rel_q(pv, level)).n)
    }
}

/// What a probe at `price` reports.
pub open spec fn probe_result(
    values: Cm2Values,
    level: MarginLevel,
    price: Rat,
    tax_rate: Rat,
) -> CostMargin {
    let net_q = q_div(price.q(), tax_rate.q());
    let pv = probe_values(values, price, rat_of_q(net_q));
    if net_q.n == 0 {
        if level_abs_q(pv, level).n > 0 {
            CostMargin::AboveAll
        } else if level_abs_q(pv, level).n < 0 {
            CostMargin::BelowAll
        } else {
            CostMargin::Undefined
        }
    } else {
        CostMargin::Finite(rat_of_q(q_round2(level_rel_q(pv, level))))
    }
}

/// A probed margin lies strictly above the target.
pub open spec fn margin_above(m: CostMargin, target: Rat) -> bool {
    match m {
        CostMargin::Finite(x) => q_lt(target.q(), x.q()),
        CostMargin::AboveAll => true,
        CostMargin::BelowAll => false,
        CostMargin::Undefined => false,
    }
}

/// A probed margin lies strictly below the target.
pub open spec fn margin_below(m: CostMargin, target: Rat) -> bool {
    match m {
        CostMargin::Finite(x) => q_lt(x.q(), target.q()),
        CostMargin::AboveAll => false,
        CostMargin::BelowAll => true,
        CostMargin::Undefined => false,
    }
}

/// A probed margin settles the search: it equals the target exactly, or it
/// is undefined and so compares as neither above nor below it.
pub open spec fn margin_meets_target(m: CostMargin, target: Rat) -> bool {
    match m {
        CostMargin::Finite(x) => q_eq(x.q(), target.q()),
        CostMargin::AboveAll => false,
        CostMargin::BelowAll => false,
        CostMargin::Undefined => true,
    }
}

/// The midpoint of two rationals, each halved first.
pub open spec fn mid_q(a: Q, b: Q) -> Q {
    q_add(q_div(a, q_int(2)), q_div(b, q_int(2)))
}

/// Whether the midpoint of two rationals can be computed exactly.
pub open spec fn mid_fits(a: Q, b: Q) -> bool {
    q_fits(q_div(a, q_int(2))) && q_fits(q_div(b, q_int(2))) && q_fits(mid_q(a, b))
}

/// The solver's initial upper bound: twice the retail price.
pub open spec fn initial_upper_q(values: Cm2Values) -> Q {
    q_mul(values.retail_price.q(), q_int(2))
}

/// The solver's first probed price: the midpoint of the initial upper bound
/// and zero, which is the retail price itself as a number.
pub open spec fn first_mid_q(values: Cm2Values) -> Q {
    mid_q(initial_upper_q(values), q_int(0))
}

/// The search ends successfully at its very first bisection probe: the exact
/// values along the way fit in 64 bits, the margin at price zero is not above
/// the target (the sentinel branch is not taken), the margin at twice the
/// retail price is not below it (the bracket needs no doubling), and the
/// margin at the first midpoint — the retail price itself, as a number —
/// settles the search.
pub open spec fn exact_hit_at_start(values: Cm2Values, target: Rat, level: MarginLevel) -> bool {
    let tax = rat_of_q(tax_rate_q(values));
    values.retail_price.num != 0 && q_fits(tax_rate_q(values)) && q_fits(initial_upper_q(values))
        && probe_fits(values, level, rat_of_q(q_int(0)), tax) && !margin_above(
        probe_result(values, level, rat_of_q(q_int(0)), tax),
        target,
    ) && probe_fits(values, level, rat_of_q(initial_upper_q(values)), tax) && !margin_below(
        probe_result(values, level, rat_of_q(initial_upper_q(values)), tax),
        target,
    ) && mid_fits(initial_upper_q(values), q_int(0)) && probe_fits(
        values,
        level,
        rat_of_q(first_mid_q(values)),
        tax,
    ) && margin_meets_target(
        probe_result(values, level, rat_of_q(first_mid_q(values)), tax),
        target,
    )
}

/// The absolute margin at the chosen level, dispatched like the original
/// string-keyed selection.
fn calculate_level_absolute(values: Cm2Values, level: MarginLevel) -> (r: Option<Rat>)
    requires
        values.wf(),
    ensures
        r is Some <==> level_abs_fits(values, level),
        r matches Some(c) ==> c.wf() && c.q() == level_abs_q(values, level),
{
    match level {
        MarginLevel::Cm0 => calculate_cm0_absolute(values.cm1values.cm0values),
        MarginLevel::Cm1 => calculate_cm1_absolute(values.cm1values),
        MarginLevel::Cm2 => calculate_cm2_absolute(values),
    }
}

/// The full margin calculation at the chosen level.
fn calculate_level_margin(values: Cm2Values, level: MarginLevel) -> (r: Option<MarginCalculation>)
    requires
        values.wf(),
    ensures
        r is Some <==> level_margin_fits(values, level),
        r matches Some(m) ==> m.wf() && m.relative.q() == level_rel_q(values, level),
{
    match level {
        MarginLevel::Cm0 => calculate_cm0(values.cm1values.cm0values),
        MarginLevel::Cm1 => calculate_cm1(values.cm1values),
        MarginLevel::Cm2 => calculate_cm2(values),
    }
}

/// Rebuilds the record at the candidate price and reports the rounded
/// relative margin at the chosen level, or the sign of the absolute margin
/// where the rescaled net retail is zero.
pub fn calculate_cost_margin_with(
    values: Cm2Values,
    margin_level: MarginLevel,
    retail_price: Rat,
    tax_rate: Rat,
) -> (r: Option<CostMargin>)
    requires
        values.wf(),
        retail_price.wf(),
        tax_rate.wf(),
        tax_rate.num != 0,
    ensures
        r is Some <==> probe_fits(values, margin_level, retail_price, tax_rate),
        r matches Some(m) ==> m == probe_result(values, margin_level, retail_price, tax_rate),
        r matches Some(m) ==> (m matches CostMargin::Finite(x) ==> x.wf()),
{
    let net_retail = match rat_div(retail_price, tax_rate) {
        Some(x) => x,
        None => {
            return None;
        },
    };
    let mut vals = values;
    vals.retail_price = retail_price;
    vals.cm1values.cm0values.net_retail = net_retail;
    proof {
        assert(net_retail == rat_of_q(q_div(retail_price.q(), tax_rate.q())));
        assert(vals == probe_values(
            values,
            retail_price,
            rat_of_q(q_div(retail_price.q(), tax_rate.q())),
        ));
    }
    if net_retail.num == 0 {
        let absolute = match calculate_level_absolute(vals, margin_level) {
            Some(x) => x,
            None => {
                return None;
            },
        };
        if absolute.num > 0 {
            Some(CostMargin::AboveAll)
        } else if absolute.num < 0 {
            Some(CostMargin::BelowAll)
        } else {
            Some(CostMargin::Undefined)
        }
    } else {
        let margin = match calculate_level_margin(vals, margin_level) {
            Some(x) => x,
            None => {
                return None;
            },
        };
        match rat_round2(margin.relative) {
            Some(rounded) => Some(CostMargin::Finite(rounded)),
            None => None,
        }
    }
}

/// Whether a probed margin lies strictly above the target.
fn margin_is_above(m: CostMargin, target: Rat) -> (r: bool)
    requires
        target.wf(),
        m matches CostMargin::Finite(x) ==> x.wf(),
    ensures
        r == margin_above(m, target),
{
    match m {
        CostMargin::Finite(x) => rat_lt(target, x),
        CostMargin::AboveAll => true,
        CostMargin::BelowAll => false,
        CostMargin::Undefined => false,
    }
}

/// Whether a probed margin lies strictly below the target.
fn margin_is_below(m: CostMargin, target: Rat) -> (r: bool)
    requires
        target.wf(),
        m matches CostMargin::Finite(x) ==> x.wf(),
    ensures
        r == margin_below(m, target),
{
    match m {
        CostMargin::Finite(x) => rat_lt(x, target),
        CostMargin::AboveAll => false,
        CostMargin::BelowAll => true,
        CostMargin::Undefined => false,
    }
}

/// The midpoint of the two bounds, each halved first.
pub fn calculate_mid(upper_limit: Rat, lower_limit: Rat) -> (r: Option<Rat>)
    requires
        upper_limit.wf(),
        lower_limit.wf(),
    ensures
        r is Some <==> mid_fits(upper_limit.q(), lower_limit.q()),
        r matches Some(c) ==> c.wf() && c.q() == mid_q(upper_limit.q(), lower_limit.q()),
{
    let two = Rat { num: 2, den: 1 };
    let upper_half = match rat_div(upper_limit, two) {
        Some(x) => x,
        None => {
            return None;
        },
    };
    let lower_half = match rat_div(lower_limit, two) {
        Some(x) => x,
        None => {
            return None;
        },
    };
    rat_add(upper_half, lower_half)
}

/// A product with a positive factor is zero exactly when the other factor is.
proof fn lemma_zero_product(x: int, y: int) by (nonlinear_arith)
    requires
        y > 0,
    ensures
        x * y == 0 <==> x == 0,
{
}

/// The midpoint of two bounds equals either bound, as a number, exactly when
/// the bounds equal each other.
proof fn lemma_midpoint_vs_endpoints(u: Q, l: Q, m: Q)
    requires
        u.d > 0,
        l.d > 0,
        m == mid_q(u, l),
    ensures
        q_eq(m, u) <==> q_eq(u, l),
        q_eq(m, l) <==> q_eq(u, l),
{
    assert(m.n == u.n * (l.d * 2) + l.n * (u.d * 2));
    assert(m.d == (u.d * 2) * (l.d * 2));
    assert((u.n * (l.d * 2) + l.n * (u.d * 2)) * u.d == u.n * ((u.d * 2) * (l.d * 2)) <==> u.n * l.d
        == l.n * u.d) by (nonlinear_arith)
        requires
            u.d > 0,
            l.d > 0,
    ;
    assert((u.n * (l.d * 2) + l.n * (u.d * 2)) * l.d == l.n * ((u.d * 2) * (l.d * 2)) <==> u.n * l.d
        == l.n * u.d) by (nonlinear_arith)
        requires
            u.d > 0,
            l.d > 0,
    ;
}

/// The midpoint of two bounds lies strictly between them, whichever way they
/// are ordered.
proof fn lemma_midpoint_between(u: Q, l: Q, m: Q)
    requires
        u.d > 0,
        l.d > 0,
        m == mid_q(u, l),
    ensures
        q_lt(l, u) ==> q_lt(l, m) && q_lt(m, u),
        q_lt(u, l) ==> q_lt(u, m) && q_lt(m, l),
{
    assert(m.n == u.n * (l.d * 2) + l.n * (u.d * 2));
    assert(m.d == (u.d * 2) * (l.d * 2));
    assert(l.n * u.d < u.n * l.d ==> l.n * ((u.d * 2) * (l.d * 2)) < (u.n * (l.d * 2) + l.n * (u.d
        * 2)) * l.d) by (nonlinear_arith)
        requires
            u.d > 0,
            l.d > 0,
    ;
    assert(l.n * u.d < u.n * l.d ==> (u.n * (l.d * 2) + l.n * (u.d * 2)) * u.d < u.n * ((u.d * 2) * (
    l.d * 2))) by (nonlinear_arith)
        requires
            u.d > 0,
            l.d > 0,
    ;
    assert(u.n * l.d < l.n * u.d ==> u.n * ((u.d * 2) * (l.d * 2)) < (u.n * (l.d * 2) + l.n * (u.d
        * 2)) * u.d) by (nonlinear_arith)
        requires
            u.d > 0,
            l.d > 0,
    ;
    assert(u.n * l.d < l.n * u.d ==> (u.n * (l.d * 2) + l.n * (u.d * 2)) * l.d < l.n * ((u.d * 2) * (
    l.d * 2))) by (nonlinear_arith)
        requires
            u.d > 0,
            l.d > 0,
    ;
}

/// Strict order on rationals composes with non-strict order on either side,
/// denominators positive throughout.
proof fn lemma_q_le_lt_trans(a: Q, b: Q, c: Q)
    requires
        a.d > 0,
        b.d > 0,
        c.d > 0,
    ensures
        q_le(a, b) && q_lt(b, c) ==> q_lt(a, c),
        q_lt(a, b) && q_le(b, c) ==> q_lt(a, c),
{
    assert(a.n * b.d <= b.n * a.d && b.n * c.d < c.n * b.d ==> a.n * c.d < c.n * a.d)
        by (nonlinear_arith)
        requires
            a.d > 0,
            b.d > 0,
            c.d > 0,
    ;
    assert(a.n * b.d < b.n * a.d && b.n * c.d <= c.n * b.d ==> a.n * c.d < c.n * a.d)
        by (nonlinear_arith)
        requires
            a.d > 0,
            b.d > 0,
            c.d > 0,
    ;
}

/// Finds the retail price at which the cascade, evaluated at `margin_level`
/// with the net retail rescaled at the record's own tax rate, yields a
/// rounded relative margin equal to the target, by exponential bracketing and
/// bisection.  `max_steps` bounds the number of probes of each search loop;
/// when it runs out, or when an exact intermediate value does not fit in 64
/// bits, the search answers `None`.
///
/// A successful answer is either the degenerate zero price (kept from the
/// established behaviour for a zero retail price, whose tax rate is zero and
/// every probe undefined) or a price whose probe settles the search: its
/// rounded margin equals the target, or its margin is undefined and compares
/// as neither above nor below the target.  For a nonzero retail price the
/// answer is itself nonzero, so its probe is finite and the rounded margin
/// equals the target exactly.  A success is owed for a zero retail price
/// whenever the tax rate fits, and whenever the search hits the target at its
/// first probe within a step budget of at least one; and a search that never
/// took the sentinel branch from a positive retail price answers a
/// nonnegative price.
#[verifier::loop_isolation(false)]
pub fn calculate_lowest_possible_price(
    values: Cm2Values,
    target_margin: Rat,
    margin_level: MarginLevel,
    max_steps: u64,
) -> (r: Option<Rat>)
    requires
        values.wf(),
        target_margin.wf(),
        values.cm1values.cm0values.net_retail.num != 0,
    ensures
        r matches Some(p) ==> p.wf(),
        r matches Some(p) ==> (values.retail_price.num == 0 && p.q() == q_int(0)) || (
        q_fits(tax_rate_q(values)) && probe_fits(
            values,
            margin_level,
            p,
            rat_of_q(tax_rate_q(values)),
        ) && margin_meets_target(
            probe_result(values, margin_level, p, rat_of_q(tax_rate_q(values))),
            target_margin,
        )),
        values.retail_price.num == 0 && q_fits(tax_rate_q(values)) ==> (r matches Some(p) && p.q()
            == q_int(0)),
        exact_hit_at_start(values, target_margin, margin_level) && max_steps >= 1 ==> r is Some,
        r matches Some(p) ==> (values.retail_price.num != 0 ==> p.num != 0),
        r matches Some(p) ==> (values.retail_price.num > 0 && q_fits(tax_rate_q(values))
            && !margin_above(
            probe_result(values, margin_level, rat_of_q(q_int(0)), rat_of_q(tax_rate_q(values))),
            target_margin,
        ) ==> q_le(q_int(0), p.q())),
{
    let ghost hit = exact_hit_at_start(values, target_margin, margin_level) && max_steps >= 1;
    let ghost nonneg = values.retail_price.num > 0 && q_fits(tax_rate_q(values)) && !margin_above(
        probe_result(values, margin_level, rat_of_q(q_int(0)), rat_of_q(tax_rate_q(values))),
        target_margin,
    );
    let zero = Rat { num: 0, den: 1 };
    let two = Rat { num: 2, den: 1 };
    let net_retail = values.cm1values.cm0values.net_retail;
    let mut upper_limit = match rat_mul(values.retail_price, two) {
        Some(x) => x,
        None => {
            return None;
        },
    };
    let mut lower_limit = zero;
    let tax_rate = match rat_div(values.retail_price, net_retail) {
        Some(x) => x,
        None => {
            return None;
        },
    };
    proof {
        assert(tax_rate == rat_of_q(tax_rate_q(values)));
        assert(zero == rat_of_q(q_int(0)));
        assert(upper_limit == rat_of_q(initial_upper_q(values)));
        lemma_zero_product(values.retail_price.num as int, net_retail.den as int);
    }
    if tax_rate.num == 0 {
        // A zero retail price: the bounds are both zero, every probe is
        // undefined, and the search degenerates to the zero midpoint.
        return Some(zero);
    }
    let first = match calculate_cost_margin_with(values, margin_level, lower_limit, tax_rate) {
        Some(m) => m,
        None => {
            return None;
        },
    };
    if margin_is_above(first, target_margin) {
        // The target is already exceeded at price zero: the sentinel upper
        // bound sends the search below zero.
        proof {
            assert(!hit);
            assert(!nonneg);
        }
        upper_limit = Rat { num: -1, den: 1 };
    }
    let mut steps: u64 = max_steps;
    let mut cur = match calculate_cost_margin_with(values, margin_level, upper_limit, tax_rate) {
        Some(m) => m,
        None => {
            return None;
        },
    };
    while margin_is_below(cur, target_margin)
        invariant
            upper_limit.wf(),
            upper_limit.num != 0,
            cur matches CostMargin::Finite(x) ==> x.wf(),
            hit ==> upper_limit == rat_of_q(initial_upper_q(values)) && cur == probe_result(
                values,
                margin_level,
                upper_limit,
                tax_rate,
            ) && steps == max_steps,
            nonneg ==> upper_limit.num > 0,
        decreases steps,
    {
        proof {
            assert(!hit);
        }
        if steps == 0 {
            return None;
        }
        steps = steps - 1;
        upper_limit = match rat_mul(upper_limit, two) {
            Some(x) => x,
            None => {
                return None;
            },
        };
        cur = match calculate_cost_margin_with(values, margin_level, upper_limit, tax_rate) {
            Some(m) => m,
            None => {
                return None;
            },
        };
    }
    let mut mid = match calculate_mid(upper_limit, lower_limit) {
        Some(x) => x,
        None => {
            return None;
        },
    };
    while !rat_eq(mid, upper_limit) || !rat_eq(mid, lower_limit)
        invariant
            upper_limit.wf(),
            lower_limit.wf(),
            mid.wf(),
            !q_eq(upper_limit.q(), lower_limit.q()),
            mid.q() == mid_q(upper_limit.q(), lower_limit.q()),
            (q_le(q_int(0), lower_limit.q()) && q_lt(lower_limit.q(), upper_limit.q())) || (q_le(
                lower_limit.q(),
                q_int(0),
            ) && q_lt(upper_limit.q(), lower_limit.q())),
            nonneg ==> q_le(q_int(0), lower_limit.q()) && q_lt(lower_limit.q(), upper_limit.q()),
            hit ==> mid == rat_of_q(first_mid_q(values)) && steps >= 1,
        decreases steps,
    {
        if steps == 0 {
            return None;
        }
        steps = steps - 1;
        let cost_margin = match calculate_cost_margin_with(values, margin_level, mid, tax_rate) {
            Some(m) => m,
            None => {
                return None;
            },
        };
        if margin_is_above(cost_margin, target_margin) {
            proof {
                assert(!hit);
                lemma_midpoint_vs_endpoints(upper_limit.q(), lower_limit.q(), mid.q());
                lemma_midpoint_between(upper_limit.q(), lower_limit.q(), mid.q());
            }
            upper_limit = mid;
            mid = match calculate_mid(upper_limit, lower_limit) {
                Some(x) => x,
                None => {
                    return None;
                },
            };
        } else if margin_is_below(cost_margin, target_margin) {
            proof {
                assert(!hit);
                lemma_midpoint_vs_endpoints(upper_limit.q(), lower_limit.q(), mid.q());
                lemma_midpoint_between(upper_limit.q(), lower_limit.q(), mid.q());
                lemma_q_le_lt_trans(q_int(0), lower_limit.q(), mid.q());
                lemma_q_le_lt_trans(mid.q(), lower_limit.q(), q_int(0));
            }
            lower_limit = mid;
            mid = match calculate_mid(upper_limit, lower_limit) {
                Some(x) => x,
                None => {
                    return None;
                },
            };
        } else {
            // The probe settles the search exactly: answer at once.  The
            // answer lies strictly between the bounds, so it is nonzero, and
            // nonnegative where the bounds are.
            proof {
                lemma_midpoint_between(upper_limit.q(), lower_limit.q(), mid.q());
                lemma_q_le_lt_trans(q_int(0), lower_limit.q(), mid.q());
                lemma_q_le_lt_trans(mid.q(), lower_limit.q(), q_int(0));
            }
            return Some(mid);
        }
    }
    // The bounds never meet as numbers, so the midpoint can never equal both:
    // this exit cannot be taken.
    proof {
        lemma_midpoint_vs_endpoints(upper_limit.q(), lower_limit.q(), mid.q());
        assert(false);
    }
    Some(mid)
}

} // verus!
