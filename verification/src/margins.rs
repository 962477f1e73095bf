//! Value records and the CM0/CM1/CM2 margin cascade.
//!
//! Each level subtracts more cost categories from the one below it and
//! reports an absolute margin (in monetary units) and a relative margin (as a
//! percentage of net retail).  All arithmetic is exact; a calculation returns
//! `None` only when an exact intermediate value does not fit in 64 bits or
//! when the relative margin would divide by a zero net retail.

use vstd::prelude::*;

use crate::rational::{
    q_add, q_div, q_fits, q_int, q_mul, q_sub, rat_add, rat_div, rat_mul, rat_sub, Q, Rat,
};

verus! {

/// Base-level unit economics: what a sale brings in and what the goods cost.
#[derive(Clone, Copy, PartialEq, Eq, Structural, Debug)]
pub struct Cm0Values {
    pub shipping_revenue: Rat,
    pub net_retail: Rat,
    pub wholesale_price: Rat,
}

/// CM0 inputs plus return and cancellation costs.  The rates are fractions by
/// convention; nothing is enforced about their range.
#[derive(Clone, Copy, PartialEq, Eq, Structural, Debug)]
pub struct Cm1Values {
    pub cm0values: Cm0Values,
    pub return_rate: Rat,
    pub return_shipping: Rat,
    pub return_fulfillment: Rat,
    pub cancellation_rate: Rat,
    pub depreciation: Rat,
}

/// CM1 inputs plus logistics, payment and refund costs, and the retail price.
#[derive(Clone, Copy, PartialEq, Eq, Structural, Debug)]
pub struct Cm2Values {
    pub cm1values: Cm1Values,
    pub outbound_shipping: Rat,
    pub inbound_shipping: Rat,
    pub packaging: Rat,
    pub fulfillment: Rat,
    pub payment_cost: Rat,
    pub refunds: Rat,
    pub retail_price: Rat,
}

/// The result of a margin calculation: the absolute margin in monetary units
/// and the relative margin on the 0-100 percentage scale.
#[derive(Clone, Copy, PartialEq, Eq, Structural, Debug)]
pub struct MarginCalculation {
    pub absolute: Rat,
    pub relative: Rat,
}

impl MarginCalculation {
    /// Both fields are well-formed rationals.
    pub open spec fn wf(self) -> bool {
        self.absolute.wf() && self.relative.wf()
    }
}

/// The relative margin as a mathematical value:
/// `(absolute / net_retail) * 100`.
pub open spec fn relative_margin_q(absolute: Q, net_retail: Q) -> Q {
    q_mul(q_div(absolute, net_retail), q_int(100))
}

/// When the relative margin can be computed exactly in 64 bits: the net
/// retail is nonzero and the quotient and product fit.
pub open spec fn relative_margin_fits(absolute: Q, net_retail: Q) -> bool {
    net_retail.n != 0 && q_fits(q_div(absolute, net_retail)) && q_fits(
        q_mul(q_div(absolute, net_retail), q_int(100)),
    )
}

impl Cm0Values {
    /// All fields are well-formed rationals.
    pub open spec fn wf(self) -> bool {
        self.shipping_revenue.wf() && self.net_retail.wf() && self.wholesale_price.wf()
    }

    /// The CM0 absolute margin:
    /// `shipping_revenue + net_retail - wholesale_price`.
    pub open spec fn abs_q(self) -> Q {
        q_sub(q_add(self.shipping_revenue.q(), self.net_retail.q()), self.wholesale_price.q())
    }

    /// The CM0 relative margin.
    pub open spec fn rel_q(self) -> Q {
        relative_margin_q(self.abs_q(), self.net_retail.q())
    }

    /// The exact CM0 absolute margin fits in 64 bits at every step.
    pub open spec fn abs_fits(self) -> bool {
        q_fits(q_add(self.shipping_revenue.q(), self.net_retail.q())) && q_fits(self.abs_q())
    }

    /// The whole CM0 calculation, relative margin included, fits.
    pub open spec fn margin_fits(self) -> bool {
        self.abs_fits() && relative_margin_fits(self.abs_q(), self.net_retail.q())
    }
}

impl Cm1Values {
    /// All fields are well-formed rationals.
    pub open spec fn wf(self) -> bool {
        self.cm0values.wf() && self.return_rate.wf() && self.return_shipping.wf()
            && self.return_fulfillment.wf() && self.cancellation_rate.wf()
            && self.depreciation.wf()
    }

    /// The cost of returns: `return_rate * (return_shipping + return_fulfillment)`.
    pub open spec fn returns_q(self) -> Q {
        q_mul(self.return_rate.q(), q_add(self.return_shipping.q(), self.return_fulfillment.q()))
    }

    /// The cost of cancellations: `cancellation_rate * depreciation * net_retail`.
    pub open spec fn cancellations_q(self) -> Q {
        q_mul(
            q_mul(self.cancellation_rate.q(), self.depreciation.q()),
            self.cm0values.net_retail.q(),
        )
    }

    /// The CM1 absolute margin: CM0 less returns and cancellations.
    pub open spec fn abs_q(self) -> Q {
        q_sub(q_sub(self.cm0values.abs_q(), self.returns_q()), self.cancellations_q())
    }

    /// The CM1 relative margin, over the net retail of the embedded CM0 record.
    pub open spec fn rel_q(self) -> Q {
        relative_margin_q(self.abs_q(), self.cm0values.net_retail.q())
    }

    /// The exact CM1 absolute margin fits in 64 bits at every step.
    pub open spec fn abs_fits(self) -> bool {
        self.cm0values.abs_fits() && q_fits(
            q_add(self.return_shipping.q(), self.return_fulfillment.q()),
        ) && q_fits(self.returns_q()) && q_fits(q_sub(self.cm0values.abs_q(), self.returns_q()))
            && q_fits(q_mul(self.cancellation_rate.q(), self.depreciation.q())) && q_fits(
            self.cancellations_q(),
        ) && q_fits(self.abs_q())
    }

    /// The whole CM1 calculation, relative margin included, fits.
    pub open spec fn margin_fits(self) -> bool {
        self.abs_fits() && relative_margin_fits(self.abs_q(), self.cm0values.net_retail.q())
    }
}

impl Cm2Values {
    /// All fields are well-formed rationals.
    pub open spec fn wf(self) -> bool {
        self.cm1values.wf() && self.outbound_shipping.wf() && self.inbound_shipping.wf()
            && self.packaging.wf() && self.fulfillment.wf() && self.payment_cost.wf()
            && self.refunds.wf() && self.retail_price.wf()
    }

    /// Payment and refund costs:
    /// `payment_cost * (shipping_revenue + retail_price) + refunds * retail_price`.
    pub open spec fn payment_q(self) -> Q {
        q_add(
            q_mul(
                self.payment_cost.q(),
                q_add(self.cm1values.cm0values.shipping_revenue.q(), self.retail_price.q()),
            ),
            q_mul(self.refunds.q(), self.retail_price.q()),
        )
    }

    /// Logistics, payment and reclamation costs: the four fixed cost fields
    /// plus `payment_q`.
    pub open spec fn logistics_q(self) -> Q {
        q_add(
            q_add(
                q_add(
                    q_add(self.inbound_shipping.q(), self.packaging.q()),
                    self.fulfillment.q(),
                ),
                self.outbound_shipping.q(),
            ),
            self.payment_q(),
        )
    }

    /// The CM2 absolute margin: CM1 less logistics, payment and reclamation.
    pub open spec fn abs_q(self) -> Q {
        q_sub(self.cm1values.abs_q(), self.logistics_q())
    }

    /// The CM2 relative margin, over the net retail of the embedded CM0 record.
    pub open spec fn rel_q(self) -> Q {
        relative_margin_q(self.abs_q(), self.cm1values.cm0values.net_retail.q())
    }

    /// The exact CM2 absolute margin fits in 64 bits at every step.
    pub open spec fn abs_fits(self) -> bool {
        self.cm1values.abs_fits() && q_fits(q_add(self.inbound_shipping.q(), self.packaging.q()))
            && q_fits(
            q_add(q_add(self.inbound_shipping.q(), self.packaging.q()), self.fulfillment.q()),
        ) && q_fits(
            q_add(
                q_add(q_add(self.inbound_shipping.q(), self.packaging.q()), self.fulfillment.q()),
                self.outbound_shipping.q(),
            ),
        ) && q_fits(
            q_add(self.cm1values.cm0values.shipping_revenue.q(), self.retail_price.q()),
        ) && q_fits(
            q_mul(
                self.payment_cost.q(),
                q_add(self.cm1values.cm0values.shipping_revenue.q(), self.retail_price.q()),
            ),
        ) && q_fits(q_mul(self.refunds.q(), self.retail_price.q())) && q_fits(self.payment_q())
            && q_fits(self.logistics_q()) && q_fits(self.abs_q())
    }

    /// The whole CM2 calculation, relative margin included, fits.
    pub open spec fn margin_fits(self) -> bool {
        self.abs_fits() && relative_margin_fits(self.abs_q(), self.cm1values.cm0values.net_retail.q())
    }
}

/// What `calculate_cm0` promises of a successful result.
pub open spec fn cm0_post(values: Cm0Values, m: MarginCalculation) -> bool {
    m.wf() && m.absolute.q() == values.abs_q() && m.relative.q() == values.rel_q()
}

/// What `calculate_cm1` promises of a successful result.
pub open spec fn cm1_post(values: Cm1Values, m: MarginCalculation) -> bool {
    m.wf() && m.absolute.q() == values.abs_q() && m.relative.q() == values.rel_q()
}

/// What `calculate_cm2` promises of a successful result.
pub open spec fn cm2_post(values: Cm2Values, m: MarginCalculation) -> bool {
    m.wf() && m.absolute.q() == values.abs_q() && m.relative.q() == values.rel_q()
}

/// The shared relative-margin formula: `(absolute / net_retail) * 100`.
pub fn calculate_relative_margin(absolute: Rat, net_retail: Rat) -> (r: Option<Rat>)
    requires
        absolute.wf(),
        net_retail.wf(),
    ensures
        r is Some <==> relative_margin_fits(absolute.q(), net_retail.q()),
        r matches Some(c) ==> c.wf() && c.q() == relative_margin_q(absolute.q(), net_retail.q()),
{
    let ratio = match rat_div(absolute, net_retail) {
        Some(x) => x,
        None => {
            return None;
        },
    };
    rat_mul(ratio, Rat { num: 100, den: 1 })
}

/// The CM0 absolute margin alone.
pub fn calculate_cm0_absolute(values: Cm0Values) -> (r: Option<Rat>)
    requires
        values.wf(),
    ensures
        r is Some <==> values.abs_fits(),
        r matches Some(c) ==> c.wf() && c.q() == values.abs_q(),
{
    let income = match rat_add(values.shipping_revenue, values.net_retail) {
        Some(x) => x,
        None => {
            return None;
        },
    };
    rat_sub(income, values.wholesale_price)
}

/// The CM0 margin: wholesale cost subtracted from revenue.
pub fn calculate_cm0(values: Cm0Values) -> (r: Option<MarginCalculation>)
    requires
        values.wf(),
    ensures
        r is Some <==> values.margin_fits(),
        r matches Some(m) ==> cm0_post(values, m),
{
    let absolute = match calculate_cm0_absolute(values) {
        Some(x) => x,
        None => {
            return None;
        },
    };
    let relative = match calculate_relative_margin(absolute, values.net_retail) {
        Some(x) => x,
        None => {
            return None;
        },
    };
    Some(MarginCalculation { absolute, relative })
}

/// The CM1 absolute margin alone.
pub fn calculate_cm1_absolute(values: Cm1Values) -> (r: Option<Rat>)
    requires
        values.wf(),
    ensures
        r is Some <==> values.abs_fits(),
        r matches Some(c) ==> c.wf() && c.q() == values.abs_q(),
{
    let cm0_absolute = match calculate_cm0_absolute(values.cm0values) {
        Some(x) => x,
        None => {
            return None;
        },
    };
    let return_costs = match rat_add(values.return_shipping, values.return_fulfillment) {
        Some(x) => x,
        None => {
            return None;
        },
    };
    let return_deduction = match rat_mul(values.return_rate, return_costs) {
        Some(x) => x,
        None => {
            return None;
        },
    };
    let after_returns = match rat_sub(cm0_absolute, return_deduction) {
        Some(x) => x,
        None => {
            return None;
        },
    };
    let cancellation_share = match rat_mul(values.cancellation_rate, values.depreciation) {
        Some(x) => x,
        None => {
            return None;
        },
    };
    let cancellations = match rat_mul(cancellation_share, values.cm0values.net_retail) {
        Some(x) => x,
        None => {
            return None;
        },
    };
    rat_sub(after_returns, cancellations)
}

/// The CM1 margin: CM0 less return and cancellation costs.
pub fn calculate_cm1(values: Cm1Values) -> (r: Option<MarginCalculation>)
    requires
        values.wf(),
    ensures
        r is Some <==> values.margin_fits(),
        r matches Some(m) ==> cm1_post(values, m),
{
    let absolute = match calculate_cm1_absolute(values) {
        Some(x) => x,
        None => {
            return None;
        },
    };
    let relative = match calculate_relative_margin(absolute, values.cm0values.net_retail) {
        Some(x) => x,
        None => {
            return None;
        },
    };
    Some(MarginCalculation { absolute, relative })
}

/// The CM2 absolute margin alone.
pub fn calculate_cm2_absolute(values: Cm2Values) -> (r: Option<Rat>)
    requires
        values.wf(),
    ensures
        r is Some <==> values.abs_fits(),
        r matches Some(c) ==> c.wf() && c.q() == values.abs_q(),
{
    let cm1_absolute = match calculate_cm1_absolute(values.cm1values) {
        Some(x) => x,
        None => {
            return None;
        },
    };
    let in_pack = match rat_add(values.inbound_shipping, values.packaging) {
        Some(x) => x,
        None => {
            return None;
        },
    };
    let in_pack_ful = match rat_add(in_pack, values.fulfillment) {
        Some(x) => x,
        None => {
            return None;
        },
    };
    let fixed_costs = match rat_add(in_pack_ful, values.outbound_shipping) {
        Some(x) => x,
        None => {
            return None;
        },
    };
    let payment_base = match rat_add(values.cm1values.cm0values.shipping_revenue, values.retail_price) {
        Some(x) => x,
        None => {
            return None;
        },
    };
    let payment = match rat_mul(values.payment_cost, payment_base) {
        Some(x) => x,
        None => {
            return None;
        },
    };
    let refund_costs = match rat_mul(values.refunds, values.retail_price) {
        Some(x) => x,
        None => {
            return None;
        },
    };
    let payment_refunds = match rat_add(payment, refund_costs) {
        Some(x) => x,
        None => {
            return None;
        },
    };
    let logistics = match rat_add(fixed_costs, payment_refunds) {
        Some(x) => x,
        None => {
            return None;
        },
    };
    rat_sub(cm1_absolute, logistics)
}

/// The CM2 margin: CM1 less logistics, payment and reclamation costs.
pub fn calculate_cm2(values: Cm2Values) -> (r: Option<MarginCalculation>)
    requires
        values.wf(),
    ensures
        r is Some <==> values.margin_fits(),
        r matches Some(m) ==> cm2_post(values, m),
{
    let absolute = match calculate_cm2_absolute(values) {
        Some(x) => x,
        None => {
            return None;
        },
    };
    let relative = match calculate_relative_margin(absolute, values.cm1values.cm0values.net_retail)
        {
        Some(x) => x,
        None => {
            return None;
        },
    };
    Some(MarginCalculation { absolute, relative })
}

} // verus!
