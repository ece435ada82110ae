//! The shape projector: from an entity graph to the list of concrete shapes
//! that a renderer draws.

pub mod properties;

use vstd::prelude::*;
use crate::entities::Point;
use crate::error::SolveError;
use crate::ids::{CircleId, EntityRef, ParameterId, PointId, SegmentId};
use crate::objects::{Objects, ObjectsView};
use crate::scalar::Scalar;

verus! {

/// A position in space.
#[derive(Clone, Copy, PartialEq, Eq, Structural, Debug)]
pub struct Point3 {
    pub x: Scalar,
    pub y: Scalar,
    pub z: Scalar,
}

/// A fully determined shape, ready for rendering.
#[derive(Clone, Copy, PartialEq, Eq, Structural, Debug)]
pub enum DeterminedShape {
    Point(Point3),
    Line(Point3, Point3),
    Circle { radius: Scalar, origin: Point3 },
    /// Kept for volumetric entities; no entity projects to it yet.
    Sphere { radius: Scalar, origin: Point3 },
}

/// A shape, or why it could not be determined.
pub type Projected = Result<DeterminedShape, SolveError>;

impl ObjectsView {
    /// The stored position of `point`, or the first of its coordinates, in
    /// the order x, y, z, that the graph does not hold.
    pub open spec fn position(self, point: Point) -> Result<Point3, ParameterId> {
        match self.parameter(point.x) {
            None => Err(point.x),
            Some(x) => match self.parameter(point.y) {
                None => Err(point.y),
                Some(y) => match self.parameter(point.z) {
                    None => Err(point.z),
                    Some(z) => Ok(Point3 { x: x.value, y: y.value, z: z.value }),
                },
            },
        }
    }

    /// The stored position of the point that `referrer` names as `id`.
    pub open spec fn position_of(self, id: PointId, referrer: EntityRef) -> Result<
        Point3,
        SolveError,
    > {
        match self.point(id) {
            None => Err(SolveError::NotFound { missing: EntityRef::Point(id), referrer }),
            Some(point) => match self.position(point) {
                Ok(position) => Ok(position),
                Err(parameter) => Err(
                    SolveError::NotFound {
                        missing: EntityRef::Parameter(parameter),
                        referrer: EntityRef::Point(id),
                    },
                ),
            },
        }
    }

    /// The line of the segment at position `i`: its end point `a`, then its
    /// end point `b`.
    pub open spec fn line(self, i: int) -> Projected {
        let referrer = EntityRef::Segment(SegmentId(i as usize));
        match self.position_of(self.segments[i].a, referrer) {
            Err(e) => Err(e),
            Ok(a) => match self.position_of(self.segments[i].b, referrer) {
                Err(e) => Err(e),
                Ok(b) => Ok(DeterminedShape::Line(a, b)),
            },
        }
    }

    /// The shape of the circle at position `i`: its origin is resolved
    /// first, then its radius.
    pub open spec fn ring(self, i: int) -> Projected {
        let referrer = EntityRef::Circle(CircleId(i as usize));
        match self.position_of(self.circles[i].origin, referrer) {
            Err(e) => Err(e),
            Ok(origin) => match self.parameter(self.circles[i].radius) {
                None => Err(
                    SolveError::NotFound {
                        missing: EntityRef::Parameter(self.circles[i].radius),
                        referrer,
                    },
                ),
                Some(radius) => Ok(DeterminedShape::Circle { radius: radius.value, origin }),
            },
        }
    }

    /// The marker of the point at position `i`.
    pub open spec fn marker(self, i: int) -> Projected {
        match self.position(self.points[i]) {
            Ok(position) => Ok(DeterminedShape::Point(position)),
            Err(parameter) => Err(
                SolveError::NotFound {
                    missing: EntityRef::Parameter(parameter),
                    referrer: EntityRef::Point(PointId(i as usize)),
                },
            ),
        }
    }

    /// Whether a segment has `id` as an end point or a circle has it as its
    /// origin.
    pub open spec fn refers_to_point(self, id: PointId) -> bool {
        ||| exists|i: int|
            0 <= i < self.segments.len() && ((#[trigger] self.segments[i]).a == id
                || self.segments[i].b == id)
        ||| exists|i: int| 0 <= i < self.circles.len() && (#[trigger] self.circles[i]).origin == id
    }

    /// The lines of all segments, in id order.
    pub open spec fn lines(self) -> Seq<Projected> {
        Seq::new(self.segments.len(), |i: int| self.line(i))
    }

    /// The shapes of all circles, in id order.
    pub open spec fn rings(self) -> Seq<Projected> {
        Seq::new(self.circles.len(), |i: int| self.ring(i))
    }

    /// The markers of those among the first `upto` points that no segment
    /// and no circle refers to, in id order.
    pub open spec fn markers(self, upto: int) -> Seq<Projected>
        decreases upto,
    {
        if upto <= 0 {
            Seq::empty()
        } else if self.refers_to_point(PointId((upto - 1) as usize)) {
            self.markers(upto - 1)
        } else {
            self.markers(upto - 1).push(self.marker(upto - 1))
        }
    }

    /// The shapes that the graph projects to: the line of every segment,
    /// then the shape of every circle, then the marker of every point that
    /// neither a segment nor a circle refers to, each group in id order.
    /// Where a reference does not resolve, the first failure in that order
    /// takes the place of the list.
    pub open spec fn projection(self) -> Result<Seq<DeterminedShape>, SolveError> {
        match gathered(self.lines()) {
            Err(e) => Err(e),
            Ok(lines) => match gathered(self.rings()) {
                Err(e) => Err(e),
                Ok(rings) => match gathered(self.markers(self.points.len() as int)) {
                    Err(e) => Err(e),
                    Ok(markers) => Ok(lines + rings + markers),
                },
            },
        }
    }
}

/// All shapes of `items`, in order, or the first failure among them.
pub open spec fn gathered(items: Seq<Projected>) -> Result<Seq<DeterminedShape>, SolveError>
    decreases items.len(),
{
    if items.len() == 0 {
        Ok(Seq::empty())
    } else {
        match gathered(items.drop_last()) {
            Err(e) => Err(e),
            Ok(shapes) => match items.last() {
                Ok(shape) => Ok(shapes.push(shape)),
                Err(e) => Err(e),
            },
        }
    }
}

impl Objects {
    /// The stored position of `point`, or the first of its coordinates, in
    /// the order x, y, z, that the graph does not hold.
    pub fn position(&self, point: &Point) -> (r: Result<Point3, ParameterId>)
        ensures
            r == self@.position(*point),
    {
        let x = match self.get_parameter(point.x) {
            Some(p) => p.value,
            None => { return Err(point.x); },
        };
        let y = match self.get_parameter(point.y) {
            Some(p) => p.value,
            None => { return Err(point.y); },
        };
        let z = match self.get_parameter(point.z) {
            Some(p) => p.value,
            None => { return Err(point.z); },
        };
        Ok(Point3 { x, y, z })
    }

    /// The stored position of the point that `referrer` names as `id`.
    pub fn position_of(&self, id: PointId, referrer: EntityRef) -> (r: Result<Point3, SolveError>)
        ensures
            r == self@.position_of(id, referrer),
    {
        match self.get_point(id) {
            None => Err(SolveError::NotFound { missing: EntityRef::Point(id), referrer }),
            Some(point) => match self.position(point) {
                Ok(position) => Ok(position),
                Err(parameter) => Err(
                    SolveError::NotFound {
                        missing: EntityRef::Parameter(parameter),
                        referrer: EntityRef::Point(id),
                    },
                ),
            },
        }
    }

    /// Whether a segment has `id` as an end point or a circle has it as its
    /// origin.
    pub fn refers_to_point(&self, id: PointId) -> (r: bool)
        ensures
            r == self@.refers_to_point(id),
    {
        let mut i: usize = 0;
        while i < self.segments.len()
            invariant
                i <= self.segments.len(),
                forall|k: int|
                    0 <= k < i ==> (#[trigger] self.segments[k]).a != id && self.segments[k].b
                        != id,
            decreases self.segments.len() - i,
        {
            if self.segments[i].a == id || self.segments[i].b == id {
                assert(self@.segments[i as int].a == id || self@.segments[i as int].b == id);
                return true;
            }
            i += 1;
        }
        let mut j: usize = 0;
        while j < self.circles.len()
            invariant
                j <= self.circles.len(),
                forall|k: int|
                    0 <= k < self.segments.len() ==> (#[trigger] self.segments[k]).a != id
                        && self.segments[k].b != id,
                forall|k: int| 0 <= k < j ==> (#[trigger] self.circles[k]).origin != id,
            decreases self.circles.len() - j,
        {
            if self.circles[j].origin == id {
                assert(self@.circles[j as int].origin == id);
                return true;
            }
            j += 1;
        }
        false
    }

    /// The line of the segment at position `i`.
    fn line_at(&self, i: usize) -> (r: Projected)
        requires
            i < self.segments.len(),
        ensures
            r == self@.line(i as int),
    {
        let referrer = EntityRef::Segment(SegmentId(i));
        let a = match self.position_of(self.segments[i].a, referrer) {
            Ok(a) => a,
            Err(e) => { return Err(e); },
        };
        match self.position_of(self.segments[i].b, referrer) {
            Ok(b) => Ok(DeterminedShape::Line(a, b)),
            Err(e) => Err(e),
        }
    }

    /// The shape of the circle at position `i`.
    fn ring_at(&self, i: usize) -> (r: Projected)
        requires
            i < self.circles.len(),
        ensures
            r == self@.ring(i as int),
    {
        let referrer = EntityRef::Circle(CircleId(i));
        let origin = match self.position_of(self.circles[i].origin, referrer) {
            Ok(origin) => origin,
            Err(e) => { return Err(e); },
        };
        match self.get_parameter(self.circles[i].radius) {
            Some(radius) => Ok(DeterminedShape::Circle { radius: radius.value, origin }),
            None => Err(
                SolveError::NotFound {
                    missing: EntityRef::Parameter(self.circles[i].radius),
                    referrer,
                },
            ),
        }
    }

    /// The marker of the point at position `i`.
    fn marker_at(&self, i: usize) -> (r: Projected)
        requires
            i < self.points.len(),
        ensures
            r == self@.marker(i as int),
    {
        match self.position(&self.points[i]) {
            Ok(position) => Ok(DeterminedShape::Point(position)),
            Err(parameter) => Err(
                SolveError::NotFound {
                    missing: EntityRef::Parameter(parameter),
                    referrer: EntityRef::Point(PointId(i)),
                },
            ),
        }
    }

    /// Projects the graph to the shapes that a renderer draws: the line of
    /// every segment, then the shape of every circle, then the marker of
    /// every point that neither a segment nor a circle refers to, each group
    /// in id order. Every position and radius is the stored value of its
    /// parameter.
    ///
    /// Fails where a reference does not resolve, with the first failure in
    /// that order.
    pub fn project(&self) -> (r: Result<Vec<DeterminedShape>, SolveError>)
        ensures
            match r {
                Ok(shapes) => self@.projection() == Ok::<Seq<DeterminedShape>, SolveError>(
                    shapes@,
                ),
                Err(e) => self@.projection() == Err::<Seq<DeterminedShape>, SolveError>(e),
            },
    {
        let mut shapes: Vec<DeterminedShape> = Vec::new();
        let mut i: usize = 0;
        while i < self.segments.len()
            invariant
                i <= self.segments.len(),
                gathered(self@.lines().take(i as int)) == Ok::<Seq<DeterminedShape>, SolveError>(
                    shapes@,
                ),
            decreases self.segments.len() - i,
        {
            proof {
                let items = self@.lines().take(i + 1);
                assert(items.drop_last() =~= self@.lines().take(i as int));
                assert(items.last() == self@.line(i as int));
            }
            match self.line_at(i) {
                Ok(shape) => { shapes.push(shape); },
                Err(e) => {
                    proof {
                        gathered_failure_stays(self@.lines(), i + 1);
                    }
                    return Err(e);
                },
            }
            i += 1;
        }
        assert(self@.lines().take(i as int) =~= self@.lines());
        let ghost lines = shapes@;
        let ghost rings: Seq<DeterminedShape> = Seq::empty();
        assert(shapes@ =~= lines + rings);
        let mut j: usize = 0;
        while j < self.circles.len()
            invariant
                j <= self.circles.len(),
                gathered(self@.lines()) == Ok::<Seq<DeterminedShape>, SolveError>(lines),
                gathered(self@.rings().take(j as int)) == Ok::<Seq<DeterminedShape>, SolveError>(
                    rings,
                ),
                shapes@ == lines + rings,
            decreases self.circles.len() - j,
        {
            proof {
                let items = self@.rings().take(j + 1);
                assert(items.drop_last() =~= self@.rings().take(j as int));
                assert(items.last() == self@.ring(j as int));
            }
            match self.ring_at(j) {
                Ok(shape) => {
                    shapes.push(shape);
                    proof {
                        rings = rings.push(shape);
                        assert(shapes@ =~= lines + rings);
                    }
                },
                Err(e) => {
                    proof {
                        gathered_failure_stays(self@.rings(), j + 1);
                    }
                    return Err(e);
                },
            }
            j += 1;
        }
        assert(self@.rings().take(j as int) =~= self@.rings());
        let ghost markers: Seq<DeterminedShape> = Seq::empty();
        assert(shapes@ =~= lines + rings + markers);
        let mut k: usize = 0;
        while k < self.points.len()
            invariant
                k <= self.points.len(),
                gathered(self@.lines()) == Ok::<Seq<DeterminedShape>, SolveError>(lines),
                gathered(self@.rings()) == Ok::<Seq<DeterminedShape>, SolveError>(rings),
                gathered(self@.markers(k as int)) == Ok::<Seq<DeterminedShape>, SolveError>(
                    markers,
                ),
                shapes@ == lines + rings + markers,
            decreases self.points.len() - k,
        {
            proof {
                let items = self@.markers(k + 1);
                if !self@.refers_to_point(PointId(k)) {
                    assert(items.drop_last() =~= self@.markers(k as int));
                    assert(items.last() == self@.marker(k as int));
                }
            }
            if !self.refers_to_point(PointId(k)) {
                match self.marker_at(k) {
                    Ok(shape) => {
                        shapes.push(shape);
                        proof {
                            markers = markers.push(shape);
                            assert(shapes@ =~= lines + rings + markers);
                        }
                    },
                    Err(e) => {
                        proof {
                            markers_failure_stays(self@, k + 1, self.points.len() as int);
                        }
                        return Err(e);
                    },
                }
            }
            k += 1;
        }
        Ok(shapes)
    }
}

/// Once the first `upto` items hold a failure, the whole list fails with
/// that same failure.
pub proof fn gathered_failure_stays(items: Seq<Projected>, upto: int)
    requires
        0 <= upto <= items.len(),
        gathered(items.take(upto)) is Err,
    ensures
        gathered(items) == gathered(items.take(upto)),
    decreases items.len() - upto,
{
    if upto < items.len() {
        let longer = items.take(upto + 1);
        assert(longer.drop_last() =~= items.take(upto));
        gathered_failure_stays(items, upto + 1);
    } else {
        assert(items.take(upto) =~= items);
    }
}

/// Once the markers of the first `upto` points hold a failure, the markers
/// of any longer prefix fail with that same failure.
pub proof fn markers_failure_stays(objects: ObjectsView, upto: int, all: int)
    requires
        0 <= upto <= all,
        gathered(objects.markers(upto)) is Err,
    ensures
        gathered(objects.markers(all)) == gathered(objects.markers(upto)),
    decreases all - upto,
{
    if upto < all {
        let longer = objects.markers(upto + 1);
        if !objects.refers_to_point(PointId(upto as usize)) {
            assert(longer.drop_last() =~= objects.markers(upto));
        }
        markers_failure_stays(objects, upto + 1, all);
    }
}

} // verus!
