use vstd::prelude::*;
use crate::error::SolveError;
use crate::objects::{Objects, ObjectsView};
use crate::projector::{gathered, DeterminedShape, Projected};

verus! {

/// Projection reads nothing but the content of the graph: two graphs in the
/// same state project to the same shapes in the same order, or fail alike.
pub proof fn same_state_projects_alike(first: &Objects, second: &Objects)
    requires
        first@ == second@,
    ensures
        first@.projection() == second@.projection(),
{
}

/// Where no item fails, gathering keeps every shape at its place.
pub proof fn gathered_keeps_all(items: Seq<Projected>)
    requires
        forall|i: int| 0 <= i < items.len() ==> (#[trigger] items[i]) is Ok,
    ensures
        gathered(items) matches Ok(shapes) && shapes.len() == items.len() && forall|i: int|
            0 <= i < items.len() ==> Ok::<DeterminedShape, SolveError>(#[trigger] shapes[i])
                == items[i],
    decreases items.len(),
{
    if items.len() > 0 {
        let front = items.drop_last();
        assert forall|i: int| 0 <= i < front.len() implies (#[trigger] front[i]) is Ok by {
            assert(front[i] == items[i]);
        }
        gathered_keeps_all(front);
        let shapes = gathered(items)->Ok_0;
        assert forall|i: int| 0 <= i < items.len() implies Ok::<DeterminedShape, SolveError>(
            #[trigger] shapes[i],
        ) == items[i] by {
            if i < front.len() {
                assert(front[i] == items[i]);
            }
        }
    }
}

/// In a graph all of whose references resolve, every marker among those of
/// the first `upto` points is a point shape, and there are at most `upto`.
pub proof fn markers_of_closed_graph(objects: ObjectsView, upto: int)
    requires
        objects.closed(),
        objects.indexable(),
        0 <= upto <= objects.points.len(),
    ensures
        objects.markers(upto).len() <= upto,
        forall|i: int|
            0 <= i < objects.markers(upto).len() ==> ((#[trigger] objects.markers(upto)[i])
                matches Ok(shape) && shape is Point),
    decreases upto,
{
    if upto > 0 {
        markers_of_closed_graph(objects, upto - 1);
        assert(objects.points[upto - 1].x.0 < objects.parameters.len());
    }
}

/// A graph all of whose references resolve always projects: to one line per
/// segment, then one circle per circle, then point markers only, each line
/// and circle standing at the place that its id gives it.
pub proof fn closed_graph_projects(objects: ObjectsView)
    requires
        objects.closed(),
        objects.indexable(),
    ensures
        ({
            let segments = objects.segments.len() as int;
            let circles = objects.circles.len() as int;
            &&& objects.projection() matches Ok(shapes)
            &&& segments + circles <= shapes.len() <= segments + circles + objects.points.len()
            &&& forall|i: int|
                0 <= i < segments ==> (Ok::<DeterminedShape, SolveError>(#[trigger] shapes[i])
                    == objects.line(i) && shapes[i] is Line)
            &&& forall|i: int|
                0 <= i < circles ==> (Ok::<DeterminedShape, SolveError>(
                    #[trigger] shapes[segments + i],
                ) == objects.ring(i) && shapes[segments + i] is Circle)
            &&& forall|i: int|
                segments + circles <= i < shapes.len() ==> (#[trigger] shapes[i]) is Point
        }),
{
    let lines = objects.lines();
    let rings = objects.rings();
    let markers = objects.markers(objects.points.len() as int);
    assert forall|i: int| 0 <= i < lines.len() implies (#[trigger] lines[i]) is Ok by {
        let segment = objects.segments[i];
        assert(objects.points[segment.a.0 as int].x.0 < objects.parameters.len());
        assert(objects.points[segment.b.0 as int].x.0 < objects.parameters.len());
    }
    assert forall|i: int| 0 <= i < rings.len() implies (#[trigger] rings[i]) is Ok by {
        let circle = objects.circles[i];
        assert(objects.points[circle.origin.0 as int].x.0 < objects.parameters.len());
    }
    markers_of_closed_graph(objects, objects.points.len() as int);
    gathered_keeps_all(lines);
    gathered_keeps_all(rings);
    gathered_keeps_all(markers);
    let shapes = objects.projection()->Ok_0;
    let l = gathered(lines)->Ok_0;
    let r = gathered(rings)->Ok_0;
    let m = gathered(markers)->Ok_0;
    assert(shapes == l + r + m);
    assert forall|i: int| 0 <= i < lines.len() implies Ok::<DeterminedShape, SolveError>(
        #[trigger] shapes[i],
    ) == objects.line(i) && shapes[i] is Line by {
        assert(shapes[i] == l[i]);
        assert(lines[i] == objects.line(i));
    }
    assert forall|i: int| 0 <= i < rings.len() implies Ok::<DeterminedShape, SolveError>(
        #[trigger] shapes[lines.len() + i],
    ) == objects.ring(i) && shapes[lines.len() + i] is Circle by {
        assert(shapes[lines.len() + i] == r[i]);
        assert(rings[i] == objects.ring(i));
    }
    assert forall|i: int| lines.len() + rings.len() <= i < shapes.len() implies (
    #[trigger] shapes[i]) is Point by {
        let k = i - lines.len() - rings.len();
        assert(shapes[i] == m[k]);
        assert(Ok::<DeterminedShape, SolveError>(m[k]) == markers[k]);
    }
}

/// No graph projects to a sphere.
pub proof fn projection_has_no_sphere(objects: ObjectsView, i: int)
    requires
        objects.projection() matches Ok(shapes) && 0 <= i < shapes.len(),
    ensures
        !(objects.projection()->Ok_0[i] is Sphere),
{
    let lines = objects.lines();
    let rings = objects.rings();
    let markers = objects.markers(objects.points.len() as int);
    gathered_are_items(lines);
    gathered_are_items(rings);
    gathered_are_items(markers);
    markers_are_points(objects, objects.points.len() as int);
    let l = gathered(lines)->Ok_0;
    let r = gathered(rings)->Ok_0;
    let m = gathered(markers)->Ok_0;
    let shapes = objects.projection()->Ok_0;
    assert(shapes == l + r + m);
    if i < l.len() {
        assert(shapes[i] == l[i]);
        assert(lines[i] == objects.line(i));
    } else if i < l.len() + r.len() {
        assert(shapes[i] == r[i - l.len()]);
        assert(rings[i - l.len()] == objects.ring(i - l.len()));
    } else {
        assert(shapes[i] == m[i - l.len() - r.len()]);
    }
}

/// What gathering returns is the list of the items' shapes.
pub proof fn gathered_are_items(items: Seq<Projected>)
    requires
        gathered(items) is Ok,
    ensures
        gathered(items)->Ok_0.len() == items.len(),
        forall|i: int|
            0 <= i < items.len() ==> Ok::<DeterminedShape, SolveError>(
                #[trigger] gathered(items)->Ok_0[i],
            ) == items[i],
    decreases items.len(),
{
    if items.len() > 0 {
        let front = items.drop_last();
        gathered_are_items(front);
        let shapes = gathered(items)->Ok_0;
        assert forall|i: int| 0 <= i < items.len() implies Ok::<DeterminedShape, SolveError>(
            #[trigger] shapes[i],
        ) == items[i] by {
            if i < front.len() {
                assert(front[i] == items[i]);
                assert(shapes[i] == gathered(front)->Ok_0[i]);
            }
        }
    }
}

/// Every marker that can be determined is a point shape.
pub proof fn markers_are_points(objects: ObjectsView, upto: int)
    ensures
        forall|i: int|
            0 <= i < objects.markers(upto).len() ==> ((#[trigger] objects.markers(upto)[i])
                matches Ok(shape) ==> shape is Point),
    decreases upto,
{
    if upto > 0 {
        markers_are_points(objects, upto - 1);
    }
}

} // verus!
