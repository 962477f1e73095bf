use contribution_margin::margins::{calculate_cm2, Cm0Values, Cm1Values, Cm2Values};
use contribution_margin::rational::{rat_div, rat_eq, Rat};
use contribution_margin::solver::{
    calculate_cost_margin_with, calculate_lowest_possible_price, calculate_mid, CostMargin,
    MarginLevel,
};

fn rat(num: i64, den: i64) -> Rat {
    Rat { num, den }
}

fn scenario_values() -> Cm2Values {
    Cm2Values {
        cm1values: Cm1Values {
            cm0values: Cm0Values {
                shipping_revenue: rat(0, 1),
                net_retail: rat(100, 1),
                wholesale_price: rat(60, 1),
            },
            return_rate: rat(0, 1),
            return_shipping: rat(0, 1),
            return_fulfillment: rat(0, 1),
            cancellation_rate: rat(0, 1),
            depreciation: rat(0, 1),
        },
        outbound_shipping: rat(0, 1),
        inbound_shipping: rat(0, 1),
        packaging: rat(0, 1),
        fulfillment: rat(0, 1),
        payment_cost: rat(0, 1),
        refunds: rat(0, 1),
        retail_price: rat(100, 1),
    }
}

#[test]
fn solver_returns_the_already_satisfying_price() {
    let p = calculate_lowest_possible_price(scenario_values(), rat(40, 1), MarginLevel::Cm2, 100)
        .unwrap();
    assert!(rat_eq(p, rat(100, 1)));
}

#[test]
fn solver_round_trips_the_current_margin() {
    let values = scenario_values();
    let target = calculate_cm2(values).unwrap().relative;
    let p = calculate_lowest_possible_price(values, target, MarginLevel::Cm2, 100).unwrap();
    // Re-probing the answer at the record's own tax rate yields the target
    // margin to two decimals.
    let tax_rate = rat_div(values.retail_price, values.cm1values.cm0values.net_retail).unwrap();
    let probe = calculate_cost_margin_with(values, MarginLevel::Cm2, p, tax_rate).unwrap();
    match probe {
        CostMargin::Finite(m) => assert!(rat_eq(m, rat(40, 1))),
        _ => panic!("expected a finite margin"),
    }
}

#[test]
fn solver_bisects_to_a_higher_price() {
    // The margin at 200 is 70.00 and at 150 exactly 60.00: one bisection step
    // from the bracket (100, 200) lands on it.
    let p = calculate_lowest_possible_price(scenario_values(), rat(60, 1), MarginLevel::Cm2, 100)
        .unwrap();
    assert!(rat_eq(p, rat(150, 1)));
}

#[test]
fn solver_returns_immediately_on_an_exact_hit() {
    // The first midpoint is the retail price itself, whose margin already
    // equals the target: a budget of a single step suffices.
    let p = calculate_lowest_possible_price(scenario_values(), rat(40, 1), MarginLevel::Cm2, 1)
        .unwrap();
    assert!(rat_eq(p, rat(100, 1)));
}

#[test]
fn solver_gives_up_when_the_step_budget_is_spent() {
    // A 50.00 margin needs the price 120, which bisection from (0, 200) only
    // approaches; one step is not enough.
    let r = calculate_lowest_possible_price(scenario_values(), rat(50, 1), MarginLevel::Cm2, 1);
    assert_eq!(r, None);
}

#[test]
fn solver_answers_zero_for_a_zero_retail_price() {
    let values = Cm2Values { retail_price: rat(0, 1), ..scenario_values() };
    let p = calculate_lowest_possible_price(values, rat(40, 1), MarginLevel::Cm2, 100).unwrap();
    assert!(rat_eq(p, rat(0, 1)));
}

#[test]
fn solver_searches_below_zero_when_the_target_is_met_at_price_zero() {
    // With shipping revenue above the wholesale price the margin at price
    // zero is above every target, so the sentinel upper bound -1 sends the
    // search downward; the target -233.33 is the rounded margin at -12.
    let values = Cm2Values {
        cm1values: Cm1Values {
            cm0values: Cm0Values {
                shipping_revenue: rat(50, 1),
                net_retail: rat(100, 1),
                wholesale_price: rat(10, 1),
            },
            ..scenario_values().cm1values
        },
        ..scenario_values()
    };
    let p = calculate_lowest_possible_price(values, rat(-23333, 100), MarginLevel::Cm2, 100)
        .unwrap();
    assert!(rat_eq(p, rat(-12, 1)));
}

#[test]
fn probe_dispatches_on_the_margin_level() {
    // Returns costs of 10 at CM1 leave the CM0 margin untouched.
    let values = Cm2Values {
        cm1values: Cm1Values {
            return_rate: rat(1, 2),
            return_shipping: rat(10, 1),
            return_fulfillment: rat(10, 1),
            ..scenario_values().cm1values
        },
        ..scenario_values()
    };
    let tax_rate = rat_div(values.retail_price, values.cm1values.cm0values.net_retail).unwrap();
    let at_cm0 = calculate_cost_margin_with(values, MarginLevel::Cm0, rat(100, 1), tax_rate)
        .unwrap();
    let at_cm1 = calculate_cost_margin_with(values, MarginLevel::Cm1, rat(100, 1), tax_rate)
        .unwrap();
    assert_eq!(at_cm0, CostMargin::Finite(rat(4000, 100)));
    assert_eq!(at_cm1, CostMargin::Finite(rat(3000, 100)));
}

#[test]
fn probe_at_price_zero_reports_the_sign_of_the_absolute_margin() {
    let values = scenario_values();
    let tax_rate = rat_div(values.retail_price, values.cm1values.cm0values.net_retail).unwrap();
    // At price zero the absolute margin is -60: below every target.
    let low = calculate_cost_margin_with(values, MarginLevel::Cm2, rat(0, 1), tax_rate).unwrap();
    assert_eq!(low, CostMargin::BelowAll);
    // With shipping revenue 50 and wholesale 10 it is +40: above every target.
    let gainful = Cm2Values {
        cm1values: Cm1Values {
            cm0values: Cm0Values {
                shipping_revenue: rat(50, 1),
                net_retail: rat(100, 1),
                wholesale_price: rat(10, 1),
            },
            ..scenario_values().cm1values
        },
        ..scenario_values()
    };
    let high = calculate_cost_margin_with(gainful, MarginLevel::Cm2, rat(0, 1), tax_rate).unwrap();
    assert_eq!(high, CostMargin::AboveAll);
}

#[test]
fn midpoint_halves_each_bound() {
    let m = calculate_mid(rat(200, 1), rat(0, 1)).unwrap();
    assert!(rat_eq(m, rat(100, 1)));
    let n = calculate_mid(rat(-16, 1), rat(-8, 1)).unwrap();
    assert!(rat_eq(n, rat(-12, 1)));
}
