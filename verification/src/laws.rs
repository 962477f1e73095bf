//! General properties of the margin cascade, stated and proved once for all
//! inputs.

use vstd::prelude::*;

use crate::margins::{
    cm0_post, cm1_post, cm2_post, relative_margin_q, Cm0Values, Cm1Values, Cm2Values,
    MarginCalculation,
};

verus! {

/// The cascade is deterministic: any two results that `calculate_cm0`
/// promises for the same inputs are the same margin, field for field.
pub proof fn lemma_cm0_deterministic(
    values: Cm0Values,
    first: MarginCalculation,
    second: MarginCalculation,
)
    requires
        cm0_post(values, first),
        cm0_post(values, second),
    ensures
        first.absolute.q() == second.absolute.q(),
        first.relative.q() == second.relative.q(),
{
}

/// The cascade is deterministic: any two results that `calculate_cm1`
/// promises for the same inputs are the same margin, field for field.
pub proof fn lemma_cm1_deterministic(
    values: Cm1Values,
    first: MarginCalculation,
    second: MarginCalculation,
)
    requires
        cm1_post(values, first),
        cm1_post(values, second),
    ensures
        first.absolute.q() == second.absolute.q(),
        first.relative.q() == second.relative.q(),
{
}

/// The cascade is deterministic: any two results that `calculate_cm2`
/// promises for the same inputs are the same margin, field for field.
pub proof fn lemma_cm2_deterministic(
    values: Cm2Values,
    first: MarginCalculation,
    second: MarginCalculation,
)
    requires
        cm2_post(values, first),
        cm2_post(values, second),
    ensures
        first.absolute.q() == second.absolute.q(),
        first.relative.q() == second.relative.q(),
{
}

/// At every level the relative margin is the absolute margin divided by that
/// level's net retail, times one hundred.
pub proof fn lemma_relative_margin_formula(v0: Cm0Values, v1: Cm1Values, v2: Cm2Values)
    ensures
        v0.rel_q() == relative_margin_q(v0.abs_q(), v0.net_retail.q()),
        v1.rel_q() == relative_margin_q(v1.abs_q(), v1.cm0values.net_retail.q()),
        v2.rel_q() == relative_margin_q(v2.abs_q(), v2.cm1values.cm0values.net_retail.q()),
{
}

} // verus!
