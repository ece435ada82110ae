use vstd::prelude::*;
use crate::entities::{Parameter, Segment};
use crate::ids::{CircleId, ParameterId, PointId, SegmentId};
use crate::objects::ObjectsView;
use crate::scalar::Scalar;

verus! {

/// The first id handed out in each arena is zero: an empty graph holds
/// nothing, and every id is the number of entries stored before it.
pub proof fn empty_graph_holds_nothing()
    ensures
        ObjectsView::empty().parameters.len() == 0,
        ObjectsView::empty().points.len() == 0,
        ObjectsView::empty().segments.len() == 0,
        ObjectsView::empty().circles.len() == 0,
        ObjectsView::empty().closed(),
        ObjectsView::empty().indexable(),
{
}

/// A stored parameter is read back under the id it was given, the next id
/// is one more, and every entry stored before stays as it was.
pub proof fn added_parameter_reads_back(before: ObjectsView, p: Parameter)
    requires
        before.parameters.len() < usize::MAX,
    ensures
        before.with_parameter(p).parameter(ParameterId(before.parameters.len() as usize)) == Some(
            p,
        ),
        before.with_parameter(p).parameters.len() == before.parameters.len() + 1,
        forall|id: ParameterId|
            before.parameter(id) is Some ==> before.with_parameter(p).parameter(id)
                == before.parameter(id),
        before.with_parameter(p).points == before.points,
        before.with_parameter(p).segments == before.segments,
        before.with_parameter(p).circles == before.circles,
        before.closed() ==> before.with_parameter(p).closed(),
{
}

/// A stored point is read back under the id it was given, and so are its
/// three coordinates under consecutive parameter ids; the next point id is
/// one more, and every entry stored before stays as it was.
pub proof fn added_point_reads_back(before: ObjectsView, x: Parameter, y: Parameter, z: Parameter)
    requires
        before.parameters.len() + 3 <= usize::MAX,
        before.points.len() < usize::MAX,
    ensures
        ({
            let after = before.with_point(x, y, z);
            let n = before.parameters.len();
            &&& after.point(PointId(before.points.len() as usize)) matches Some(point)
            &&& point.x.0 == n
            &&& point.y.0 == n + 1
            &&& point.z.0 == n + 2
            &&& after.parameter(point.x) == Some(x)
            &&& after.parameter(point.y) == Some(y)
            &&& after.parameter(point.z) == Some(z)
            &&& after.points.len() == before.points.len() + 1
            &&& after.parameters.len() == n + 3
            &&& forall|id: PointId| before.point(id) is Some ==> after.point(id) == before.point(id)
            &&& forall|id: ParameterId|
                before.parameter(id) is Some ==> after.parameter(id) == before.parameter(id)
            &&& after.segments == before.segments
            &&& after.circles == before.circles
            &&& before.closed() ==> after.closed()
        }),
{
}

/// A stored circle is read back under the id it was given, and so is its
/// radius; the next circle id is one more, and every entry stored before
/// stays as it was. No reference dangles afterwards if none did before and
/// the origin is a point of the graph.
pub proof fn added_circle_reads_back(before: ObjectsView, origin: PointId, radius: Parameter)
    requires
        before.parameters.len() < usize::MAX,
        before.circles.len() < usize::MAX,
    ensures
        ({
            let after = before.with_circle(origin, radius);
            &&& after.circle(CircleId(before.circles.len() as usize)) matches Some(circle)
            &&& circle.origin == origin
            &&& circle.radius.0 == before.parameters.len()
            &&& after.parameter(circle.radius) == Some(radius)
            &&& after.circles.len() == before.circles.len() + 1
            &&& after.parameters.len() == before.parameters.len() + 1
            &&& forall|id: CircleId|
                before.circle(id) is Some ==> after.circle(id) == before.circle(id)
            &&& forall|id: ParameterId|
                before.parameter(id) is Some ==> after.parameter(id) == before.parameter(id)
            &&& after.points == before.points
            &&& after.segments == before.segments
            &&& before.closed() && origin.0 < before.points.len() ==> after.closed()
        }),
{
}

/// A stored segment is read back under the id it was given; the next
/// segment id is one more, and every entry stored before stays as it was.
/// No reference dangles afterwards if none did before and both end points
/// are points of the graph.
pub proof fn added_segment_reads_back(before: ObjectsView, a: PointId, b: PointId)
    requires
        before.segments.len() < usize::MAX,
    ensures
        ({
            let after = before.with_segment(a, b);
            &&& after.segment(SegmentId(before.segments.len() as usize)) == Some(Segment { a, b })
            &&& after.segments.len() == before.segments.len() + 1
            &&& forall|id: SegmentId|
                before.segment(id) is Some ==> after.segment(id) == before.segment(id)
            &&& after.parameters == before.parameters
            &&& after.points == before.points
            &&& after.circles == before.circles
            &&& before.closed() && a.0 < before.points.len() && b.0 < before.points.len()
                ==> after.closed()
        }),
{
}

/// Writing a solution back changes the values of the free parameters and
/// nothing else: which parameters are locked, the values of the locked ones
/// and every entity stay as they were, and no reference comes to dangle.
pub proof fn commit_changes_free_values_only(before: ObjectsView, solution: Seq<Scalar>)
    ensures
        ({
            let after = before.committed(solution);
            &&& after.parameters.len() == before.parameters.len()
            &&& forall|i: int|
                0 <= i < before.parameters.len() ==> {
                    &&& (#[trigger] after.parameters[i]).locked == before.parameters[i].locked
                    &&& after.parameters[i].value == if before.parameters[i].locked {
                        before.parameters[i].value
                    } else {
                        solution[i]
                    }
                }
            &&& after.points == before.points
            &&& after.segments == before.segments
            &&& after.circles == before.circles
            &&& before.closed() ==> after.closed()
        }),
{
}

/// Writing the graph's own values back changes nothing.
pub proof fn committing_own_values_changes_nothing(graph: ObjectsView)
    ensures
        graph.committed(graph.values()) == graph,
{
    assert(graph.committed(graph.values()).parameters =~= graph.parameters);
}

/// Writing the same solution back twice is the same as writing it once.
pub proof fn commit_is_idempotent(graph: ObjectsView, solution: Seq<Scalar>)
    ensures
        graph.committed(solution).committed(solution) == graph.committed(solution),
{
    assert(graph.committed(solution).committed(solution).parameters =~= graph.committed(
        solution,
    ).parameters);
}

} // verus!
