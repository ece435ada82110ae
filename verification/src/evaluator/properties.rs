use vstd::prelude::*;
use crate::constraint::Constraint;
use crate::error::SolveError;
use crate::entities::{Circle, Point};
use crate::evaluator::model::{
    circle_bindings, circle_parts, first_error, jacobian_entry, jacobian_row, residual_term,
    role_in_circle, system_error,
};
use crate::evaluator::terms::{JacobianRowView, ResidualTerm, Role};
use crate::free_map::properties::parameter_round_trip;
use crate::free_map::FreeMapView;
use crate::ids::{EntityRef, ParameterId};
use crate::objects::ObjectsView;
use crate::scalar::Scalar;

verus! {

/// Whether all seven parameters of a point-on-circle constraint, whose
/// entities were found, are held by the graph.
pub open spec fn circle_parameters_present(
    objects: ObjectsView,
    constraint: Constraint,
    index: usize,
) -> bool {
    constraint matches Constraint::PointOnCircle(p, c) && circle_parts(objects, p, c, index)
        matches Ok((point, origin, circle)) && {
        &&& point.x.0 < objects.parameters.len()
        &&& point.y.0 < objects.parameters.len()
        &&& point.z.0 < objects.parameters.len()
        &&& origin.x.0 < objects.parameters.len()
        &&& origin.y.0 < objects.parameters.len()
        &&& origin.z.0 < objects.parameters.len()
        &&& circle.radius.0 < objects.parameters.len()
    }
}

/// A residual can be built exactly for a point-on-circle constraint all of
/// whose references resolve; the candidate has no say in it.
pub proof fn residual_is_ok_iff_resolved(
    objects: ObjectsView,
    constraint: Constraint,
    index: usize,
    candidate: Seq<Scalar>,
)
    ensures
        residual_term(objects, constraint, index, candidate) is Ok <==> circle_parameters_present(
            objects,
            constraint,
            index,
        ),
{
}

/// In a graph all of whose references resolve, a point-on-circle constraint
/// between a point and a circle of the graph always has a residual.
pub proof fn residual_of_closed_graph(
    objects: ObjectsView,
    constraint: Constraint,
    index: usize,
    candidate: Seq<Scalar>,
)
    requires
        objects.closed(),
        constraint matches Constraint::PointOnCircle(p, c) && p.0 < objects.points.len() && c.0
            < objects.circles.len(),
    ensures
        residual_term(objects, constraint, index, candidate) is Ok,
{
}

/// A constraint of a kind without formulas never has a residual or a
/// Jacobian row: both report it as unsupported, with its list position.
pub proof fn unsupported_kind_is_reported(
    objects: ObjectsView,
    constraint: Constraint,
    index: usize,
    candidate: Seq<Scalar>,
)
    requires
        !constraint.supported(),
    ensures
        residual_term(objects, constraint, index, candidate) == Err::<ResidualTerm, SolveError>(
            SolveError::UnsupportedConstraint { constraint: index },
        ),
        jacobian_row(objects, constraint, index, candidate) == Err::<JacobianRowView, SolveError>(
            SolveError::UnsupportedConstraint { constraint: index },
        ),
{
}

/// A point-on-circle constraint whose point the graph does not hold is
/// reported as such, naming the point and the constraint.
pub proof fn absent_point_is_reported(
    objects: ObjectsView,
    constraint: Constraint,
    index: usize,
    candidate: Seq<Scalar>,
)
    requires
        constraint matches Constraint::PointOnCircle(p, _) && p.0 >= objects.points.len(),
    ensures
        constraint matches Constraint::PointOnCircle(p, _) && residual_term(
            objects,
            constraint,
            index,
            candidate,
        ) == Err::<ResidualTerm, SolveError>(
            SolveError::NotFound {
                missing: EntityRef::Point(p),
                referrer: EntityRef::Constraint(index),
            },
        ),
{
}

/// Whatever a constraint's residual fails with is either a reference that
/// does not resolve or the constraint's own kind; in both cases the error
/// names the constraint.
pub proof fn residual_errors_name_the_constraint(
    objects: ObjectsView,
    constraint: Constraint,
    index: usize,
    candidate: Seq<Scalar>,
)
    ensures
        residual_term(objects, constraint, index, candidate) matches Err(e) ==> {
            ||| e == (SolveError::UnsupportedConstraint { constraint: index })
            ||| e matches SolveError::NotFound { referrer, .. } && referrer
                == EntityRef::Constraint(index)
        },
{
}

/// Where the seven parameters of a point-on-circle constraint are seven
/// different parameters, each of them plays its own role and no other
/// parameter plays any.
pub proof fn distinct_parameters_have_their_roles(
    point: Point,
    origin: Point,
    circle: Circle,
    id: ParameterId,
)
    requires
        point.x != point.y && point.x != point.z && point.x != origin.x && point.x != origin.y
            && point.x != origin.z && point.x != circle.radius,
        point.y != point.z && point.y != origin.x && point.y != origin.y && point.y != origin.z
            && point.y != circle.radius,
        point.z != origin.x && point.z != origin.y && point.z != origin.z && point.z
            != circle.radius,
        origin.x != origin.y && origin.x != origin.z && origin.x != circle.radius,
        origin.y != origin.z && origin.y != circle.radius,
        origin.z != circle.radius,
    ensures
        role_in_circle(point, origin, circle, id) == Some(Role::PointX) <==> id == point.x,
        role_in_circle(point, origin, circle, id) == Some(Role::PointY) <==> id == point.y,
        role_in_circle(point, origin, circle, id) == Some(Role::PointZ) <==> id == point.z,
        role_in_circle(point, origin, circle, id) == Some(Role::OriginX) <==> id == origin.x,
        role_in_circle(point, origin, circle, id) == Some(Role::OriginY) <==> id == origin.y,
        role_in_circle(point, origin, circle, id) == Some(Role::OriginZ) <==> id == origin.z,
        role_in_circle(point, origin, circle, id) == Some(Role::Radius) <==> id == circle.radius,
{
}

/// The Jacobian entry of a locked parameter is exactly zero, for every
/// constraint, whether or not the parameter occurs in it.
pub proof fn locked_entry_is_zero(
    objects: ObjectsView,
    constraint: Constraint,
    index: usize,
    id: ParameterId,
)
    requires
        objects.parameter(id) matches Some(p) && p.locked,
    ensures
        jacobian_entry(objects, constraint, index, id) is None,
{
}

/// In every Jacobian row, the column of a locked parameter is exactly zero.
pub proof fn locked_column_is_zero(
    objects: ObjectsView,
    constraint: Constraint,
    index: usize,
    candidate: Seq<Scalar>,
    column: int,
)
    requires
        objects.indexable(),
        0 <= column < objects.parameters.len(),
        objects.parameters[column].locked,
        jacobian_row(objects, constraint, index, candidate) is Ok,
    ensures
        jacobian_row(objects, constraint, index, candidate)->Ok_0.roles[column] is None,
{
}

/// A Jacobian row exists exactly when the residual does, and differentiates
/// that residual.
pub proof fn jacobian_row_follows_residual(
    objects: ObjectsView,
    constraint: Constraint,
    index: usize,
    candidate: Seq<Scalar>,
)
    ensures
        match residual_term(objects, constraint, index, candidate) {
            Ok(term) => {
                &&& jacobian_row(objects, constraint, index, candidate) matches Ok(row)
                &&& row.term == term
                &&& row.roles.len() == objects.parameters.len()
            },
            Err(e) => jacobian_row(objects, constraint, index, candidate) == Err::<
                JacobianRowView,
                SolveError,
            >(e),
        },
{
}

/// The candidate's entries for locked parameters are ignored: two candidates
/// that agree on every free parameter give the same residual.
pub proof fn locked_entries_are_ignored(
    objects: ObjectsView,
    constraint: Constraint,
    index: usize,
    first: Seq<Scalar>,
    second: Seq<Scalar>,
)
    requires
        forall|j: int|
            0 <= j < objects.parameters.len() && !objects.parameters[j].locked ==> first[j]
                == second[j],
    ensures
        residual_term(objects, constraint, index, first) == residual_term(
            objects,
            constraint,
            index,
            second,
        ),
{
    match constraint {
        Constraint::PointOnCircle(p, c) => {
            match circle_parts(objects, p, c, index) {
                Ok((point, origin, circle)) => {
                    assert(objects.resolve(point.x, first) == objects.resolve(point.x, second));
                    assert(objects.resolve(point.y, first) == objects.resolve(point.y, second));
                    assert(objects.resolve(point.z, first) == objects.resolve(point.z, second));
                    assert(objects.resolve(origin.x, first) == objects.resolve(origin.x, second));
                    assert(objects.resolve(origin.y, first) == objects.resolve(origin.y, second));
                    assert(objects.resolve(origin.z, first) == objects.resolve(origin.z, second));
                    assert(objects.resolve(circle.radius, first) == objects.resolve(
                        circle.radius,
                        second,
                    ));
                    assert(circle_bindings(objects, point, origin, circle, index, first)
                        == circle_bindings(objects, point, origin, circle, index, second));
                },
                Err(_) => {},
            }
        },
        _ => {},
    }
}

/// Whether a residual can be built, and the error where it cannot, do not
/// depend on the candidate.
pub proof fn residual_failure_ignores_candidate(
    objects: ObjectsView,
    constraint: Constraint,
    index: usize,
    first: Seq<Scalar>,
    second: Seq<Scalar>,
)
    ensures
        residual_term(objects, constraint, index, first) is Ok <==> residual_term(
            objects,
            constraint,
            index,
            second,
        ) is Ok,
        residual_term(objects, constraint, index, first) matches Err(e) ==> residual_term(
            objects,
            constraint,
            index,
            second,
        ) == Err::<ResidualTerm, SolveError>(e),
{
}

/// Whether a system evaluates, and the error where it does not, do not
/// depend on the candidate: a system that evaluates once evaluates at every
/// step of a search.
pub proof fn system_failure_ignores_candidate(
    objects: ObjectsView,
    constraints: Seq<Constraint>,
    first: Seq<Scalar>,
    second: Seq<Scalar>,
)
    ensures
        system_error(objects, constraints, first) == system_error(objects, constraints, second),
{
    first_error_ignores_candidate(objects, constraints, first, second, 0);
}

proof fn first_error_ignores_candidate(
    objects: ObjectsView,
    constraints: Seq<Constraint>,
    first: Seq<Scalar>,
    second: Seq<Scalar>,
    from: int,
)
    ensures
        first_error(objects, constraints, first, from) == first_error(
            objects,
            constraints,
            second,
            from,
        ),
    decreases constraints.len() - from,
{
    if 0 <= from < constraints.len() {
        residual_failure_ignores_candidate(
            objects,
            constraints[from],
            from as usize,
            first,
            second,
        );
        first_error_ignores_candidate(objects, constraints, first, second, from + 1);
    }
}

/// From list position `from` on, the first error is that of the least
/// position whose residual fails, and there is none exactly when every
/// residual from there on can be built.
pub proof fn first_error_is_least(
    objects: ObjectsView,
    constraints: Seq<Constraint>,
    candidate: Seq<Scalar>,
    from: int,
)
    requires
        0 <= from <= constraints.len(),
    ensures
        match first_error(objects, constraints, candidate, from) {
            None => forall|i: int|
                from <= i < constraints.len() ==> residual_term(
                    objects,
                    #[trigger] constraints[i],
                    i as usize,
                    candidate,
                ) is Ok,
            Some(e) => exists|i: int|
                {
                    &&& from <= i < constraints.len()
                    &&& residual_term(objects, #[trigger] constraints[i], i as usize, candidate)
                        == Err::<ResidualTerm, SolveError>(e)
                    &&& forall|k: int|
                        from <= k < i ==> residual_term(
                            objects,
                            #[trigger] constraints[k],
                            k as usize,
                            candidate,
                        ) is Ok
                },
        },
    decreases constraints.len() - from,
{
    if from < constraints.len() {
        first_error_is_least(objects, constraints, candidate, from + 1);
        match residual_term(objects, constraints[from], from as usize, candidate) {
            Err(e) => {
                assert(residual_term(objects, constraints[from], from as usize, candidate)
                    == Err::<ResidualTerm, SolveError>(e));
            },
            Ok(_) => {
                match first_error(objects, constraints, candidate, from + 1) {
                    None => {},
                    Some(e) => {
                        let i = choose|i: int|
                            {
                                &&& from + 1 <= i < constraints.len()
                                &&& residual_term(
                                    objects,
                                    #[trigger] constraints[i],
                                    i as usize,
                                    candidate,
                                ) == Err::<ResidualTerm, SolveError>(e)
                                &&& forall|k: int|
                                    from + 1 <= k < i ==> residual_term(
                                        objects,
                                        #[trigger] constraints[k],
                                        k as usize,
                                        candidate,
                                    ) is Ok
                            };
                        assert(residual_term(objects, constraints[i], i as usize, candidate)
                            == Err::<ResidualTerm, SolveError>(e));
                    },
                }
            },
        }
    }
}

/// A system evaluates exactly when each of its constraints has a residual;
/// otherwise it fails with the error of the first constraint, in list
/// order, that has none.
pub proof fn system_error_is_first_failure(
    objects: ObjectsView,
    constraints: Seq<Constraint>,
    candidate: Seq<Scalar>,
)
    ensures
        match system_error(objects, constraints, candidate) {
            None => forall|i: int|
                0 <= i < constraints.len() ==> residual_term(
                    objects,
                    #[trigger] constraints[i],
                    i as usize,
                    candidate,
                ) is Ok,
            Some(e) => exists|i: int|
                {
                    &&& 0 <= i < constraints.len()
                    &&& residual_term(objects, #[trigger] constraints[i], i as usize, candidate)
                        == Err::<ResidualTerm, SolveError>(e)
                    &&& forall|k: int|
                        0 <= k < i ==> residual_term(
                            objects,
                            #[trigger] constraints[k],
                            k as usize,
                            candidate,
                        ) is Ok
                },
        },
{
    first_error_is_least(objects, constraints, candidate, 0);
}

/// A system that holds a constraint of a kind without formulas never
/// evaluates: no candidate gives it residuals or a Jacobian.
pub proof fn system_with_unsupported_kind_fails(
    objects: ObjectsView,
    constraints: Seq<Constraint>,
    candidate: Seq<Scalar>,
    position: int,
)
    requires
        0 <= position < constraints.len(),
        !constraints[position].supported(),
    ensures
        system_error(objects, constraints, candidate) is Some,
{
    system_error_is_first_failure(objects, constraints, candidate);
    assert(residual_term(objects, constraints[position], position as usize, candidate) is Err);
}

/// Once a solution is written back, the graph's own values stand for every
/// parameter as the solution did before.
pub proof fn committed_graph_resolves_as_solution(
    objects: ObjectsView,
    solution: Seq<Scalar>,
    id: ParameterId,
)
    requires
        solution.len() == objects.parameters.len(),
    ensures
        objects.committed(solution).resolve(id, objects.committed(solution).values())
            == objects.resolve(id, solution),
{
}

/// Once a solution is written back, every constraint has, at the graph's
/// own values, the residual that it had at the solution.
pub proof fn committed_graph_keeps_residual(
    objects: ObjectsView,
    constraint: Constraint,
    index: usize,
    solution: Seq<Scalar>,
)
    requires
        solution.len() == objects.parameters.len(),
    ensures
        residual_term(
            objects.committed(solution),
            constraint,
            index,
            objects.committed(solution).values(),
        ) == residual_term(objects, constraint, index, solution),
{
    let after = objects.committed(solution);
    let values = after.values();
    match constraint {
        Constraint::PointOnCircle(p, c) => {
            assert(circle_parts(after, p, c, index) == circle_parts(objects, p, c, index));
            match circle_parts(objects, p, c, index) {
                Ok((point, origin, circle)) => {
                    committed_graph_resolves_as_solution(objects, solution, point.x);
                    committed_graph_resolves_as_solution(objects, solution, point.y);
                    committed_graph_resolves_as_solution(objects, solution, point.z);
                    committed_graph_resolves_as_solution(objects, solution, origin.x);
                    committed_graph_resolves_as_solution(objects, solution, origin.y);
                    committed_graph_resolves_as_solution(objects, solution, origin.z);
                    committed_graph_resolves_as_solution(objects, solution, circle.radius);
                    assert(circle_bindings(after, point, origin, circle, index, values)
                        == circle_bindings(objects, point, origin, circle, index, solution));
                },
                Err(_) => {},
            }
        },
        _ => {},
    }
}

/// Cutting a Jacobian row down to the free parameters drops zero entries
/// only: every entry with a role stands, unchanged, at the free-variable
/// index of its parameter.
pub proof fn compaction_keeps_every_role(
    map: FreeMapView,
    objects: ObjectsView,
    constraint: Constraint,
    index: usize,
    candidate: Seq<Scalar>,
    column: int,
)
    requires
        map.maps(objects.parameters),
        objects.indexable(),
        0 <= column < objects.parameters.len(),
        jacobian_row(objects, constraint, index, candidate) matches Ok(row) && row.roles[column]
            is Some,
    ensures
        ({
            let roles = jacobian_row(objects, constraint, index, candidate)->Ok_0.roles;
            &&& map.free_of[column] matches Some(k)
            &&& k < map.parameter_of.len()
            &&& map.compacted(roles)[k as int] == roles[column]
        }),
{
    parameter_round_trip(map, objects.parameters, column);
}

} // verus!
