use vstd::prelude::*;
use crate::constraint::Constraint;
use crate::entities::{Circle, Point};
use crate::error::SolveError;
use crate::evaluator::terms::{CircleBindings, JacobianRowView, ResidualTerm, Role};
use crate::ids::{CircleId, EntityRef, ParameterId, PointId};
use crate::objects::ObjectsView;
use crate::scalar::Scalar;

verus! {

impl ObjectsView {
    /// The value that stands for parameter `id` while `candidate` is tried:
    /// the stored value of a locked parameter, the candidate's entry of a
    /// free one. `None` where the graph has no such parameter.
    pub open spec fn resolve(self, id: ParameterId, candidate: Seq<Scalar>) -> Option<Scalar> {
        match self.parameter(id) {
            Some(p) => Some(
                if p.locked {
                    p.value
                } else {
                    candidate[id.0 as int]
                },
            ),
            None => None,
        }
    }
}

/// The error for a parameter that constraint `index` needs and the graph
/// does not hold.
pub open spec fn missing_parameter(id: ParameterId, index: usize) -> SolveError {
    SolveError::NotFound {
        missing: EntityRef::Parameter(id),
        referrer: EntityRef::Constraint(index),
    }
}

/// The bindings of a point-on-circle constraint at list position `index`,
/// or the error for the first of the seven parameters, in the order
/// x, y, z, a, b, c, r, that the graph does not hold.
pub open spec fn circle_bindings(
    objects: ObjectsView,
    point: Point,
    origin: Point,
    circle: Circle,
    index: usize,
    candidate: Seq<Scalar>,
) -> Result<CircleBindings, SolveError> {
    if objects.resolve(point.x, candidate) is None {
        Err(missing_parameter(point.x, index))
    } else if objects.resolve(point.y, candidate) is None {
        Err(missing_parameter(point.y, index))
    } else if objects.resolve(point.z, candidate) is None {
        Err(missing_parameter(point.z, index))
    } else if objects.resolve(origin.x, candidate) is None {
        Err(missing_parameter(origin.x, index))
    } else if objects.resolve(origin.y, candidate) is None {
        Err(missing_parameter(origin.y, index))
    } else if objects.resolve(origin.z, candidate) is None {
        Err(missing_parameter(origin.z, index))
    } else if objects.resolve(circle.radius, candidate) is None {
        Err(missing_parameter(circle.radius, index))
    } else {
        Ok(
            CircleBindings {
                x: objects.resolve(point.x, candidate)->0,
                y: objects.resolve(point.y, candidate)->0,
                z: objects.resolve(point.z, candidate)->0,
                a: objects.resolve(origin.x, candidate)->0,
                b: objects.resolve(origin.y, candidate)->0,
                c: objects.resolve(origin.z, candidate)->0,
                r: objects.resolve(circle.radius, candidate)->0,
            },
        )
    }
}

/// The point, the origin and the circle that a point-on-circle constraint at
/// list position `index` speaks of. The point, the circle and the circle's
/// origin are looked up in that order, and the first that the graph does not
/// hold is reported.
pub open spec fn circle_parts(
    objects: ObjectsView,
    p: PointId,
    c: CircleId,
    index: usize,
) -> Result<(Point, Point, Circle), SolveError> {
    let referrer = EntityRef::Constraint(index);
    match objects.point(p) {
        None => Err(SolveError::NotFound { missing: EntityRef::Point(p), referrer }),
        Some(point) => match objects.circle(c) {
            None => Err(SolveError::NotFound { missing: EntityRef::Circle(c), referrer }),
            Some(circle) => match objects.point(circle.origin) {
                None => Err(
                    SolveError::NotFound { missing: EntityRef::Point(circle.origin), referrer },
                ),
                Some(origin) => Ok((point, origin, circle)),
            },
        },
    }
}

/// The residual of `constraint`, which stands at list position `index`,
/// while `candidate` is tried.
///
/// A point-on-circle constraint looks up its entities and then binds their
/// seven parameters; the first lookup that fails is reported. Every other
/// kind is reported as unsupported, whatever it refers to.
pub open spec fn residual_term(
    objects: ObjectsView,
    constraint: Constraint,
    index: usize,
    candidate: Seq<Scalar>,
) -> Result<ResidualTerm, SolveError> {
    match constraint {
        Constraint::PointOnCircle(p, c) => match circle_parts(objects, p, c, index) {
            Err(e) => Err(e),
            Ok((point, origin, circle)) => match circle_bindings(
                objects,
                point,
                origin,
                circle,
                index,
                candidate,
            ) {
                Ok(bindings) => Ok(ResidualTerm::PointOnCircle(bindings)),
                Err(e) => Err(e),
            },
        },
        _ => Err(SolveError::UnsupportedConstraint { constraint: index }),
    }
}

/// The role that parameter `id` plays in a point-on-circle constraint. The
/// seven roles are tried in the order point x, y, z, origin x, y, z, radius,
/// and the first whose parameter is `id` is taken.
pub open spec fn role_in_circle(point: Point, origin: Point, circle: Circle, id: ParameterId)
    -> Option<Role> {
    if id == point.x {
        Some(Role::PointX)
    } else if id == point.y {
        Some(Role::PointY)
    } else if id == point.z {
        Some(Role::PointZ)
    } else if id == origin.x {
        Some(Role::OriginX)
    } else if id == origin.y {
        Some(Role::OriginY)
    } else if id == origin.z {
        Some(Role::OriginZ)
    } else if id == circle.radius {
        Some(Role::Radius)
    } else {
        None
    }
}

/// The entry of the Jacobian for `constraint`, which stands at list position
/// `index`, and parameter `id`: `None` for an entry that is exactly zero.
///
/// The entry of a locked parameter is zero, whether or not the parameter
/// occurs in the constraint, and so is the entry of a parameter that plays
/// no role in the constraint.
pub open spec fn jacobian_entry(
    objects: ObjectsView,
    constraint: Constraint,
    index: usize,
    id: ParameterId,
) -> Option<Role> {
    match objects.parameter(id) {
        None => None,
        Some(parameter) => if parameter.locked {
            None
        } else {
            match constraint {
                Constraint::PointOnCircle(p, c) => match circle_parts(objects, p, c, index) {
                    Ok((point, origin, circle)) => role_in_circle(point, origin, circle, id),
                    Err(_) => None,
                },
                _ => None,
            }
        },
    }
}

/// The row of the Jacobian for `constraint`, which stands at list position
/// `index`, while `candidate` is tried. It has one entry for each parameter
/// of the graph, and fails as the residual of the constraint does.
pub open spec fn jacobian_row(
    objects: ObjectsView,
    constraint: Constraint,
    index: usize,
    candidate: Seq<Scalar>,
) -> Result<JacobianRowView, SolveError> {
    match residual_term(objects, constraint, index, candidate) {
        Err(e) => Err(e),
        Ok(term) => Ok(
            JacobianRowView {
                term,
                roles: Seq::new(
                    objects.parameters.len(),
                    |j: int| jacobian_entry(objects, constraint, index, ParameterId(j as usize)),
                ),
            },
        ),
    }
}

/// The first error among the residuals of the constraints from list position
/// `from` on, if any of them has one.
pub open spec fn first_error(
    objects: ObjectsView,
    constraints: Seq<Constraint>,
    candidate: Seq<Scalar>,
    from: int,
) -> Option<SolveError>
    decreases constraints.len() - from,
{
    if from < 0 || from >= constraints.len() {
        None
    } else {
        match residual_term(objects, constraints[from], from as usize, candidate) {
            Err(e) => Some(e),
            Ok(_) => first_error(objects, constraints, candidate, from + 1),
        }
    }
}

/// The error with which the evaluation of a whole system fails: that of the
/// first constraint, in list order, whose residual has one.
pub open spec fn system_error(
    objects: ObjectsView,
    constraints: Seq<Constraint>,
    candidate: Seq<Scalar>,
) -> Option<SolveError> {
    first_error(objects, constraints, candidate, 0)
}

} // verus!
