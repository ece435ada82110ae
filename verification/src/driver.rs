//! What the optimizer driver decides once the numeric search has stopped:
//! whether the vector it reached counts as a solution, and what is reported
//! when it does not.

use vstd::prelude::*;
use crate::constraint::Problem;
use crate::error::SolveError;
use crate::scalar::Scalar;

verus! {

/// The number of iterations after which a search is stopped.
pub const MAX_ITERATIONS: u64 = 10;

/// How a numeric search came to stop.
#[derive(Clone, Copy, PartialEq, Eq, Structural, Debug)]
pub enum Termination {
    /// The residual norm at the last vector is below the tolerance, however
    /// the search came to stop there.
    ToleranceMet,
    /// The step became negligible while the residual norm was still at or
    /// above the tolerance.
    StepNegligible,
    /// The iteration cap was reached while the residual norm was still at or
    /// above the tolerance.
    IterationCap,
    /// The linearized system had no unique solution.
    Singular,
    /// The evaluator failed with this error.
    EvaluatorError(SolveError),
}

/// The state in which a numeric search stopped.
#[derive(Debug)]
pub struct Exit {
    pub termination: Termination,
    /// The best vector found, one entry per parameter in id order.
    pub best: Vec<Scalar>,
    /// The residual norm at the best vector.
    pub residual_norm: Scalar,
}

/// A search that did not lead to a solution.
#[derive(Debug)]
pub struct Failure {
    pub reason: SolveError,
    /// The best vector found, for the caller to accept, retry from or drop.
    pub best: Vec<Scalar>,
}

/// The error with which a search that stopped in this way is reported, or
/// `None` where what it reached is a solution.
pub open spec fn verdict(termination: Termination, residual_norm: Scalar) -> Option<SolveError> {
    match termination {
        Termination::ToleranceMet => None,
        Termination::StepNegligible => Some(SolveError::NonConvergence { residual_norm }),
        Termination::IterationCap => Some(SolveError::NonConvergence { residual_norm }),
        Termination::Singular => Some(SolveError::Singular),
        Termination::EvaluatorError(e) => Some(e),
    }
}

/// Reports a stopped search: the best vector as the solution where the
/// tolerance was met, and otherwise the failure, which carries the best
/// vector along. Nothing is written back here; a solution is committed by
/// the caller.
pub fn conclude(exit: Exit) -> (r: Result<Vec<Scalar>, Failure>)
    ensures
        match r {
            Ok(solution) => {
                &&& verdict(exit.termination, exit.residual_norm) is None
                &&& solution == exit.best
            },
            Err(failure) => {
                &&& verdict(exit.termination, exit.residual_norm) == Some(failure.reason)
                &&& failure.best == exit.best
            },
        },
{
    let Exit { termination, best, residual_norm } = exit;
    match termination {
        Termination::ToleranceMet => Ok(best),
        Termination::StepNegligible => Err(
            Failure { reason: SolveError::NonConvergence { residual_norm }, best },
        ),
        Termination::IterationCap => Err(
            Failure { reason: SolveError::NonConvergence { residual_norm }, best },
        ),
        Termination::Singular => Err(Failure { reason: SolveError::Singular, best }),
        Termination::EvaluatorError(e) => Err(Failure { reason: e, best }),
    }
}

impl Problem {
    /// Ends a solve: where the stopped search reached a solution, writes it
    /// back into the parameter store; where it did not, leaves the problem
    /// as it is and returns the failure. `exit.best` has one entry per
    /// parameter, in id order.
    pub fn finish(&mut self, exit: Exit) -> (r: Result<(), Failure>)
        requires
            exit.best.len() == old(self).objects.parameters.len(),
        ensures
            final(self).constraints == old(self).constraints,
            match r {
                Ok(_) => {
                    &&& verdict(exit.termination, exit.residual_norm) is None
                    &&& final(self).objects@ == old(self).objects@.committed(exit.best@)
                },
                Err(failure) => {
                    &&& verdict(exit.termination, exit.residual_norm) == Some(failure.reason)
                    &&& failure.best == exit.best
                    &&& final(self).objects == old(self).objects
                },
            },
    {
        match conclude(exit) {
            Ok(solution) => {
                self.objects.commit(&solution);
                Ok(())
            },
            Err(failure) => Err(failure),
        }
    }
}

/// A search is reported as a solution exactly when the tolerance was met,
/// and a failure names non-convergence exactly when the search ran out of
/// iterations or of progress.
pub proof fn verdict_by_termination(termination: Termination, residual_norm: Scalar)
    ensures
        verdict(termination, residual_norm) is None <==> termination is ToleranceMet,
        verdict(termination, residual_norm) is Some ==> (verdict(termination, residual_norm)->0
            is NonConvergence <==> termination is StepNegligible || termination is IterationCap
            || (termination matches Termination::EvaluatorError(e) && e is NonConvergence)),
        termination is Singular ==> verdict(termination, residual_norm) == Some(
            SolveError::Singular,
        ),
{
}

} // verus!
