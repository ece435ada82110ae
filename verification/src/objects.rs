use vstd::prelude::*;
use crate::entities::{Circle, Parameter, Point, Segment};
use crate::ids::{CircleId, ParameterId, PointId, SegmentId};
use crate::scalar::Scalar;

pub mod properties;

verus! {

/// The entity graph: the parameter store and the points, segments and circles
/// that refer into it. Every arena only grows, so an id, once handed out,
/// names the same entry for the lifetime of the graph.
#[derive(Debug)]
pub struct Objects {
    pub parameters: Vec<Parameter>,
    pub points: Vec<Point>,
    pub segments: Vec<Segment>,
    pub circles: Vec<Circle>,
}

/// The mathematical content of an entity graph.
pub ghost struct ObjectsView {
    pub parameters: Seq<Parameter>,
    pub points: Seq<Point>,
    pub segments: Seq<Segment>,
    pub circles: Seq<Circle>,
}

impl View for Objects {
    type V = ObjectsView;

    open spec fn view(&self) -> ObjectsView {
        ObjectsView {
            parameters: self.parameters@,
            points: self.points@,
            segments: self.segments@,
            circles: self.circles@,
        }
    }
}

impl ObjectsView {
    /// The graph without any entity.
    pub open spec fn empty() -> ObjectsView {
        ObjectsView {
            parameters: Seq::empty(),
            points: Seq::empty(),
            segments: Seq::empty(),
            circles: Seq::empty(),
        }
    }

    /// The parameter that `id` names, if this graph has one.
    pub open spec fn parameter(self, id: ParameterId) -> Option<Parameter> {
        if id.0 < self.parameters.len() {
            Some(self.parameters[id.0 as int])
        } else {
            None
        }
    }

    /// The point that `id` names, if this graph has one.
    pub open spec fn point(self, id: PointId) -> Option<Point> {
        if id.0 < self.points.len() {
            Some(self.points[id.0 as int])
        } else {
            None
        }
    }

    /// The segment that `id` names, if this graph has one.
    pub open spec fn segment(self, id: SegmentId) -> Option<Segment> {
        if id.0 < self.segments.len() {
            Some(self.segments[id.0 as int])
        } else {
            None
        }
    }

    /// The circle that `id` names, if this graph has one.
    pub open spec fn circle(self, id: CircleId) -> Option<Circle> {
        if id.0 < self.circles.len() {
            Some(self.circles[id.0 as int])
        } else {
            None
        }
    }

    /// The graph after one more parameter was stored.
    pub open spec fn with_parameter(self, p: Parameter) -> ObjectsView {
        ObjectsView { parameters: self.parameters.push(p), ..self }
    }

    /// The graph after one more point was stored, its three coordinates
    /// allocated in the order x, y, z.
    pub open spec fn with_point(self, x: Parameter, y: Parameter, z: Parameter) -> ObjectsView {
        let n = self.parameters.len();
        ObjectsView {
            parameters: self.parameters.push(x).push(y).push(z),
            points: self.points.push(
                Point {
                    x: ParameterId(n as usize),
                    y: ParameterId((n + 1) as usize),
                    z: ParameterId((n + 2) as usize),
                },
            ),
            ..self
        }
    }

    /// The graph after one more circle was stored, its radius allocated as a
    /// new parameter.
    pub open spec fn with_circle(self, origin: PointId, radius: Parameter) -> ObjectsView {
        ObjectsView {
            parameters: self.parameters.push(radius),
            circles: self.circles.push(
                Circle { origin, radius: ParameterId(self.parameters.len() as usize) },
            ),
            ..self
        }
    }

    /// The graph after one more segment was stored.
    pub open spec fn with_segment(self, a: PointId, b: PointId) -> ObjectsView {
        ObjectsView { segments: self.segments.push(Segment { a, b }), ..self }
    }

    /// The current value of every parameter, in id order.
    pub open spec fn values(self) -> Seq<Scalar> {
        Seq::new(self.parameters.len(), |i: int| self.parameters[i].value)
    }

    /// The graph after `solution` was written back: every free parameter
    /// takes the solution's entry for it, every locked one keeps its value,
    /// and no entity changes.
    pub open spec fn committed(self, solution: Seq<Scalar>) -> ObjectsView {
        ObjectsView {
            parameters: Seq::new(
                self.parameters.len(),
                |i: int|
                    if self.parameters[i].locked {
                        self.parameters[i]
                    } else {
                        Parameter { value: solution[i], locked: false }
                    },
            ),
            ..self
        }
    }

    /// Each arena is small enough for a machine to index it.
    pub open spec fn indexable(self) -> bool {
        &&& self.parameters.len() <= usize::MAX
        &&& self.points.len() <= usize::MAX
        &&& self.segments.len() <= usize::MAX
        &&& self.circles.len() <= usize::MAX
    }

    /// Every reference held by an entity of this graph names an entry of
    /// this graph.
    pub open spec fn closed(self) -> bool {
        &&& forall|i: int|
            0 <= i < self.points.len() ==> {
                &&& (#[trigger] self.points[i]).x.0 < self.parameters.len()
                &&& self.points[i].y.0 < self.parameters.len()
                &&& self.points[i].z.0 < self.parameters.len()
            }
        &&& forall|i: int|
            0 <= i < self.segments.len() ==> {
                &&& (#[trigger] self.segments[i]).a.0 < self.points.len()
                &&& self.segments[i].b.0 < self.points.len()
            }
        &&& forall|i: int|
            0 <= i < self.circles.len() ==> {
                &&& (#[trigger] self.circles[i]).origin.0 < self.points.len()
                &&& self.circles[i].radius.0 < self.parameters.len()
            }
    }
}

impl Objects {
    /// A graph without any entity.
    pub fn new() -> (o: Objects)
        ensures
            o@ == ObjectsView::empty(),
    {
        Objects {
            parameters: Vec::new(),
            points: Vec::new(),
            segments: Vec::new(),
            circles: Vec::new(),
        }
    }

    /// Looks a point up by its id; `None` for an id this graph never issued.
    pub fn get_point(&self, id: PointId) -> (r: Option<&Point>)
        ensures
            r == match self@.point(id) {
                Some(p) => Some(&p),
                None => None,
            },
    {
        if id.0 < self.points.len() {
            Some(&self.points[id.0])
        } else {
            None
        }
    }

    /// Looks a circle up by its id; `None` for an id this graph never issued.
    pub fn get_circle(&self, id: CircleId) -> (r: Option<&Circle>)
        ensures
            r == match self@.circle(id) {
                Some(c) => Some(&c),
                None => None,
            },
    {
        if id.0 < self.circles.len() {
            Some(&self.circles[id.0])
        } else {
            None
        }
    }

    /// Looks a segment up by its id; `None` for an id this graph never issued.
    pub fn get_segment(&self, id: SegmentId) -> (r: Option<&Segment>)
        ensures
            r == match self@.segment(id) {
                Some(s) => Some(&s),
                None => None,
            },
    {
        if id.0 < self.segments.len() {
            Some(&self.segments[id.0])
        } else {
            None
        }
    }

    /// Looks a parameter up by its id; `None` for an id this graph never
    /// issued.
    pub fn get_parameter(&self, p: ParameterId) -> (r: Option<&Parameter>)
        ensures
            r == match self@.parameter(p) {
                Some(q) => Some(&q),
                None => None,
            },
    {
        if p.0 < self.parameters.len() {
            Some(&self.parameters[p.0])
        } else {
            None
        }
    }

    /// The current value of every parameter, in id order: the vector from
    /// which a solve starts.
    pub fn values(&self) -> (v: Vec<Scalar>)
        ensures
            v@ == self@.values(),
    {
        let mut v: Vec<Scalar> = Vec::new();
        let mut i: usize = 0;
        while i < self.parameters.len()
            invariant
                i <= self.parameters.len(),
                v.len() == i,
                forall|k: int| 0 <= k < i ==> #[trigger] v[k] == self.parameters[k].value,
            decreases self.parameters.len() - i,
        {
            v.push(self.parameters[i].value);
            i += 1;
        }
        assert(v@ =~= self@.values());
        v
    }

    /// Writes a solution back into the parameter store: every free
    /// parameter takes the solution's entry for it, every locked one keeps
    /// its value. The solution has one entry per parameter, in id order.
    pub fn commit(&mut self, solution: &Vec<Scalar>)
        requires
            solution.len() == old(self).parameters.len(),
        ensures
            final(self)@ == old(self)@.committed(solution@),
    {
        let mut i: usize = 0;
        while i < self.parameters.len()
            invariant
                i <= self.parameters.len(),
                self.parameters.len() == old(self).parameters.len(),
                solution.len() == self.parameters.len(),
                self.points == old(self).points,
                self.segments == old(self).segments,
                self.circles == old(self).circles,
                forall|k: int|
                    0 <= k < i ==> #[trigger] self.parameters[k] == old(self)@.committed(
                        solution@,
                    ).parameters[k],
                forall|k: int|
                    i <= k < self.parameters.len() ==> #[trigger] self.parameters[k] == old(
                        self,
                    ).parameters[k],
            decreases self.parameters.len() - i,
        {
            if !self.parameters[i].locked {
                self.parameters.set(i, Parameter { value: solution[i], locked: false });
            }
            i += 1;
        }
        assert(self@.parameters =~= old(self)@.committed(solution@).parameters);
    }

    /// Stores a parameter and returns its id, which is the number of
    /// parameters stored before it.
    pub fn add_parameter(&mut self, p: Parameter) -> (id: ParameterId)
        ensures
            id.0 == old(self)@.parameters.len(),
            final(self)@ == old(self)@.with_parameter(p),
    {
        self.parameters.push(p);
        ParameterId(self.parameters.len() - 1)
    }

    /// Stores a point, allocating its coordinates as three new parameters in
    /// the order x, y, z, and returns its id, which is the number of points
    /// stored before it.
    pub fn add_point(&mut self, x: Parameter, y: Parameter, z: Parameter) -> (id: PointId)
        ensures
            id.0 == old(self)@.points.len(),
            final(self)@ == old(self)@.with_point(x, y, z),
    {
        let x = self.add_parameter(x);
        let y = self.add_parameter(y);
        let z = self.add_parameter(z);
        self.points.push(Point { x, y, z });
        PointId(self.points.len() - 1)
    }

    /// Stores a circle around `origin`, allocating its radius as a new
    /// parameter, and returns its id, which is the number of circles stored
    /// before it. The origin is not looked up here: a circle around a point
    /// that does not exist is reported when the circle is used.
    pub fn add_circle(&mut self, origin: PointId, radius: Parameter) -> (id: CircleId)
        ensures
            id.0 == old(self)@.circles.len(),
            final(self)@ == old(self)@.with_circle(origin, radius),
    {
        let radius = self.add_parameter(radius);
        self.circles.push(Circle { origin, radius });
        CircleId(self.circles.len() - 1)
    }

    /// Stores a segment between `a` and `b` and returns its id, which is the
    /// number of segments stored before it. The end points are not looked up
    /// here.
    pub fn add_segment(&mut self, a: PointId, b: PointId) -> (id: SegmentId)
        ensures
            id.0 == old(self)@.segments.len(),
            final(self)@ == old(self)@.with_segment(a, b),
    {
        self.segments.push(Segment { a, b });
        SegmentId(self.segments.len() - 1)
    }
}

/// The content of a graph that exists in memory is indexable.
pub proof fn stored_graph_is_indexable(objects: &Objects)
    ensures
        objects@.indexable(),
{
    assert(objects.parameters.len() <= usize::MAX);
    assert(objects.points.len() <= usize::MAX);
    assert(objects.segments.len() <= usize::MAX);
    assert(objects.circles.len() <= usize::MAX);
}

impl Clone for Objects {
    /// A copy in the same state, for a solve to work on while this one
    /// stays as it is.
    fn clone(&self) -> (copy: Objects)
        ensures
            copy@ == self@,
    {
        let copy = Objects {
            parameters: self.parameters.clone(),
            points: self.points.clone(),
            segments: self.segments.clone(),
            circles: self.circles.clone(),
        };
        assert(copy.parameters@ =~= self.parameters@);
        assert(copy.points@ =~= self.points@);
        assert(copy.segments@ =~= self.segments@);
        assert(copy.circles@ =~= self.circles@);
        copy
    }
}

impl Default for Objects {
    fn default() -> (o: Objects)
        ensures
            o@ == ObjectsView::empty(),
    {
        Objects::new()
    }
}

} // verus!
