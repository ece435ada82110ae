use vstd::prelude::*;
use crate::constraint::{Constraint, Problem};
use crate::entities::{Circle, Point};
use crate::error::SolveError;
use crate::evaluator::model::{
    circle_parts, first_error, jacobian_entry, jacobian_row, role_in_circle, system_error,
};
use crate::evaluator::terms::{JacobianRow, JacobianRowView, ResidualTerm, Role};
use crate::ids::ParameterId;
use crate::scalar::Scalar;

verus! {

/// The role that parameter `id` plays in a point-on-circle constraint.
pub fn circle_role(point: &Point, origin: &Point, circle: &Circle, id: ParameterId) -> (r: Option<
    Role,
>)
    ensures
        r == role_in_circle(*point, *origin, *circle, id),
{
    if id == point.x {
        Some(Role::PointX)
    } else if id == point.y {
        Some(Role::PointY)
    } else if id == point.z {
        Some(Role::PointZ)
    } else if id == origin.x {
        Some(Role::OriginX)
    } else if id == origin.y {
        Some(Role::OriginY)
    } else if id == origin.z {
        Some(Role::OriginZ)
    } else if id == circle.radius {
        Some(Role::Radius)
    } else {
        None
    }
}

impl Problem {
    /// The row of the Jacobian for the constraint at list position `index`
    /// while `candidate` is tried.
    pub fn jacobian_at(&self, index: usize, candidate: &Vec<Scalar>) -> (r: Result<
        JacobianRow,
        SolveError,
    >)
        requires
            index < self.constraints.len(),
            candidate.len() == self.objects.parameters.len(),
        ensures
            match r {
                Ok(row) => jacobian_row(
                    self.objects@,
                    self.constraints@[index as int],
                    index,
                    candidate@,
                ) == Ok::<JacobianRowView, SolveError>(row@),
                Err(e) => jacobian_row(
                    self.objects@,
                    self.constraints@[index as int],
                    index,
                    candidate@,
                ) == Err::<JacobianRowView, SolveError>(e),
            },
    {
        match &self.constraints[index] {
            Constraint::PointOnCircle(p, c) => {
                let (point, origin, circle) = match self.objects.lookup_circle(*p, *c, index) {
                    Ok(parts) => parts,
                    Err(e) => { return Err(e); },
                };
                let bindings = match self.objects.bind_circle(
                    &point,
                    &origin,
                    &circle,
                    index,
                    candidate,
                ) {
                    Ok(bindings) => bindings,
                    Err(e) => { return Err(e); },
                };
                let mut roles: Vec<Option<Role>> = Vec::new();
                let mut j: usize = 0;
                while j < self.objects.parameters.len()
                    invariant
                        j <= self.objects.parameters.len(),
                        index < self.constraints.len(),
                        self.constraints@[index as int] == Constraint::PointOnCircle(*p, *c),
                        circle_parts(self.objects@, *p, *c, index) == Ok::<
                            (Point, Point, Circle),
                            SolveError,
                        >((point, origin, circle)),
                        roles.len() == j,
                        forall|k: int|
                            0 <= k < j ==> #[trigger] roles[k] == jacobian_entry(
                                self.objects@,
                                self.constraints@[index as int],
                                index,
                                ParameterId(k as usize),
                            ),
                    decreases self.objects.parameters.len() - j,
                {
                    let role = if self.objects.parameters[j].locked {
                        None
                    } else {
                        circle_role(&point, &origin, &circle, ParameterId(j))
                    };
                    roles.push(role);
                    j += 1;
                }
                let row = JacobianRow { term: ResidualTerm::PointOnCircle(bindings), roles };
                proof {
                    let want = jacobian_row(
                        self.objects@,
                        self.constraints@[index as int],
                        index,
                        candidate@,
                    );
                    assert(want is Ok);
                    assert(want->Ok_0.roles =~= row@.roles);
                }
                Ok(row)
            },
            _ => Err(SolveError::UnsupportedConstraint { constraint: index }),
        }
    }

    /// The Jacobian of the system while `candidate` is tried: one row per
    /// constraint, in list order, and in each row one entry per parameter,
    /// in id order. The entry of a locked parameter is zero in every row.
    ///
    /// Fails exactly when the residuals cannot be built, with the same error.
    pub fn jacobian(&self, candidate: &Vec<Scalar>) -> (r: Result<Vec<JacobianRow>, SolveError>)
        requires
            candidate.len() == self.objects.parameters.len(),
        ensures
            match r {
                Ok(rows) => {
                    &&& system_error(self.objects@, self.constraints@, candidate@) is None
                    &&& rows.len() == self.constraints.len()
                    &&& forall|i: int|
                        0 <= i < rows.len() ==> jacobian_row(
                            self.objects@,
                            #[trigger] self.constraints@[i],
                            i as usize,
                            candidate@,
                        ) == Ok::<JacobianRowView, SolveError>(rows[i]@)
                    &&& forall|i: int, j: int|
                        0 <= i < rows.len() && 0 <= j < self.objects.parameters.len()
                            && self.objects.parameters[j].locked ==> {
                            &&& j < rows[i].roles.len()
                            &&& #[trigger] rows[i].roles[j] is None
                        }
                },
                Err(e) => system_error(self.objects@, self.constraints@, candidate@) == Some(e),
            },
    {
        let mut rows: Vec<JacobianRow> = Vec::new();
        let mut i: usize = 0;
        while i < self.constraints.len()
            invariant
                i <= self.constraints.len(),
                candidate.len() == self.objects.parameters.len(),
                rows.len() == i,
                forall|k: int|
                    0 <= k < i ==> jacobian_row(
                        self.objects@,
                        #[trigger] self.constraints@[k],
                        k as usize,
                        candidate@,
                    ) == Ok::<JacobianRowView, SolveError>(rows[k]@),
                system_error(self.objects@, self.constraints@, candidate@) == first_error(
                    self.objects@,
                    self.constraints@,
                    candidate@,
                    i as int,
                ),
            decreases self.constraints.len() - i,
        {
            match self.jacobian_at(i, candidate) {
                Ok(row) => { rows.push(row); },
                Err(e) => { return Err(e); },
            }
            i += 1;
        }
        proof {
            assert forall|i: int, j: int|
                0 <= i < rows.len() && 0 <= j < self.objects.parameters.len()
                    && self.objects.parameters[j].locked implies j < rows[i].roles.len()
                && #[trigger] rows[i].roles[j] is None by {
                let want = jacobian_row(
                    self.objects@,
                    self.constraints@[i],
                    i as usize,
                    candidate@,
                );
                assert(want == Ok::<JacobianRowView, SolveError>(rows[i]@));
                assert(want->Ok_0.roles[j] == jacobian_entry(
                    self.objects@,
                    self.constraints@[i],
                    i as usize,
                    ParameterId(j as usize),
                ));
            }
        }
        Ok(rows)
    }
}

} // verus!
