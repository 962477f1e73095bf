use contribution_margin::margins::{
    calculate_cm0, calculate_cm1, calculate_cm2, Cm0Values, Cm1Values, Cm2Values,
};
use contribution_margin::rational::{rat_add, rat_div, rat_eq, rat_mul, rat_round2, Rat};

fn rat(num: i64, den: i64) -> Rat {
    Rat { num, den }
}

fn base_cm0() -> Cm0Values {
    Cm0Values {
        shipping_revenue: rat(0, 1),
        net_retail: rat(100, 1),
        wholesale_price: rat(60, 1),
    }
}

fn base_cm1() -> Cm1Values {
    Cm1Values {
        cm0values: base_cm0(),
        return_rate: rat(0, 1),
        return_shipping: rat(0, 1),
        return_fulfillment: rat(0, 1),
        cancellation_rate: rat(0, 1),
        depreciation: rat(0, 1),
    }
}

fn base_cm2() -> Cm2Values {
    Cm2Values {
        cm1values: base_cm1(),
        outbound_shipping: rat(0, 1),
        inbound_shipping: rat(0, 1),
        packaging: rat(0, 1),
        fulfillment: rat(0, 1),
        payment_cost: rat(0, 1),
        refunds: rat(0, 1),
        retail_price: rat(100, 1),
    }
}

#[test]
fn cm0_basic_scenario() {
    let m = calculate_cm0(base_cm0()).unwrap();
    assert!(rat_eq(m.absolute, rat(40, 1)));
    assert!(rat_eq(m.relative, rat(40, 1)));
}

#[test]
fn cm1_with_zero_deductions_collapses_to_cm0() {
    let m0 = calculate_cm0(base_cm0()).unwrap();
    let m1 = calculate_cm1(base_cm1()).unwrap();
    assert!(rat_eq(m1.absolute, m0.absolute));
    assert!(rat_eq(m1.relative, m0.relative));
}

#[test]
fn cm2_with_zero_costs_collapses_to_cm1() {
    let m1 = calculate_cm1(base_cm1()).unwrap();
    let m2 = calculate_cm2(base_cm2()).unwrap();
    assert!(rat_eq(m2.absolute, m1.absolute));
    assert!(rat_eq(m2.relative, m1.relative));
}

#[test]
fn cm1_subtracts_returns_and_cancellations() {
    let values = Cm1Values {
        cm0values: base_cm0(),
        return_rate: rat(1, 2),
        return_shipping: rat(10, 1),
        return_fulfillment: rat(10, 1),
        cancellation_rate: rat(1, 10),
        depreciation: rat(1, 2),
    };
    // cm0 absolute 40, less 0.5 * 20 = 10, less 0.1 * 0.5 * 100 = 5.
    let m = calculate_cm1(values).unwrap();
    assert!(rat_eq(m.absolute, rat(25, 1)));
    assert!(rat_eq(m.relative, rat(25, 1)));
}

#[test]
fn cm2_subtracts_logistics_payment_and_refunds() {
    let values = Cm2Values {
        outbound_shipping: rat(3, 1),
        inbound_shipping: rat(2, 1),
        packaging: rat(1, 1),
        fulfillment: rat(4, 1),
        payment_cost: rat(1, 50),
        refunds: rat(1, 100),
        ..base_cm2()
    };
    // cm1 absolute 40, less (2 + 1 + 4 + 3) = 10, less 0.02 * (0 + 100) = 2,
    // less 0.01 * 100 = 1.
    let m = calculate_cm2(values).unwrap();
    assert!(rat_eq(m.absolute, rat(27, 1)));
    assert!(rat_eq(m.relative, rat(27, 1)));
}

#[test]
fn cascade_is_deterministic() {
    let a = calculate_cm2(base_cm2()).unwrap();
    let b = calculate_cm2(base_cm2()).unwrap();
    assert_eq!(a, b);
}

#[test]
fn relative_is_absolute_over_net_retail_times_hundred() {
    let values = base_cm0();
    let m = calculate_cm0(values).unwrap();
    let ratio = rat_div(m.absolute, values.net_retail).unwrap();
    let scaled = rat_mul(ratio, rat(100, 1)).unwrap();
    assert!(rat_eq(m.relative, scaled));
}

#[test]
fn zero_net_retail_has_no_relative_margin() {
    let values = Cm0Values { net_retail: rat(0, 1), ..base_cm0() };
    assert_eq!(calculate_cm0(values), None);
}

#[test]
fn overflowing_inputs_are_reported_not_truncated() {
    let values = Cm0Values {
        shipping_revenue: rat(i64::MAX, 1),
        net_retail: rat(i64::MAX, 1),
        wholesale_price: rat(0, 1),
    };
    assert_eq!(calculate_cm0(values), None);
}

#[test]
fn rational_arithmetic_is_exact() {
    let third = rat(1, 3);
    let sum = rat_add(rat_add(third, third).unwrap(), third).unwrap();
    assert!(rat_eq(sum, rat(1, 1)));
}

#[test]
fn rounding_is_to_two_decimals_half_away_from_zero() {
    let a = rat_round2(rat(1, 3)).unwrap();
    assert_eq!(a, rat(33, 100));
    let b = rat_round2(rat(1, 200)).unwrap();
    assert_eq!(b, rat(1, 100));
    let c = rat_round2(rat(-1, 200)).unwrap();
    assert_eq!(c, rat(-1, 100));
    let d = rat_round2(rat(40, 1)).unwrap();
    assert_eq!(d, rat(4000, 100));
}
