//! The residual and derivative evaluator: turns each constraint into the
//! closed-form formula to evaluate and the values bound to its symbols.

pub mod terms;
pub mod model;
pub mod residual;
pub mod jacobian;
pub mod properties;
pub mod formulas;
