use vstd::prelude::*;
use crate::ids::EntityRef;
use crate::scalar::Scalar;

verus! {

/// Why a system could not be built, evaluated or solved.
#[derive(Clone, Copy, PartialEq, Eq, Structural, Debug)]
pub enum SolveError {
    /// `referrer` names `missing`, which the entity graph does not hold.
    NotFound { missing: EntityRef, referrer: EntityRef },
    /// The constraint at this list position is of a kind for which no
    /// residual and derivative formulas exist.
    UnsupportedConstraint { constraint: usize },
    /// The formula of the constraint at this list position could not be
    /// evaluated on the values bound to it.
    EvaluationFailure { constraint: usize },
    /// The optimizer stopped without meeting the tolerance; `residual_norm`
    /// is the norm it reached.
    NonConvergence { residual_norm: Scalar },
    /// The linearized system had no unique solution.
    Singular,
}

} // verus!
