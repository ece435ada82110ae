use vstd::prelude::*;

verus! {

/// Identity of a parameter: its position in the parameter store.
#[derive(Clone, Copy, PartialEq, Eq, PartialOrd, Ord, Structural, Debug)]
pub struct ParameterId(pub usize);

/// Identity of a point: its position among the points of an entity graph.
#[derive(Clone, Copy, PartialEq, Eq, PartialOrd, Ord, Structural, Debug)]
pub struct PointId(pub usize);

/// Identity of a circle: its position among the circles of an entity graph.
#[derive(Clone, Copy, PartialEq, Eq, PartialOrd, Ord, Structural, Debug)]
pub struct CircleId(pub usize);

/// Identity of a segment: its position among the segments of an entity graph.
#[derive(Clone, Copy, PartialEq, Eq, PartialOrd, Ord, Structural, Debug)]
pub struct SegmentId(pub usize);

/// Names one entity of any kind, or one constraint by its list position.
#[derive(Clone, Copy, PartialEq, Eq, Structural, Debug)]
pub enum EntityRef {
    Parameter(ParameterId),
    Point(PointId),
    Circle(CircleId),
    Segment(SegmentId),
    Constraint(usize),
}

} // verus!
