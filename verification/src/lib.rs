//! Layered contribution-margin calculations (CM0, CM1, CM2) over exact
//! rational arithmetic, together with a bisection solver for the lowest
//! retail price that still reaches a target relative margin.

pub mod rational;
pub mod margins;
pub mod solver;
pub mod laws;
