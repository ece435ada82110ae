use vstd::prelude::*;
use crate::ids::{ParameterId, PointId};
use crate::scalar::Scalar;

verus! {

/// A relation handed to the solver.
#[derive(Clone, Copy, PartialEq, Eq, Structural, Debug)]
pub struct Relation;

/// One scalar degree of freedom.
#[derive(Clone, Copy, PartialEq, Eq, Structural, Debug)]
pub struct Parameter {
    /// Current value of this parameter.
    pub value: Scalar,
    /// Whether the value is an input that the optimizer must leave alone.
    pub locked: bool,
}

impl Parameter {
    /// A parameter whose value the optimizer may not change.
    pub fn fixed(value: Scalar) -> (p: Parameter)
        ensures
            p == (Parameter { value, locked: true }),
    {
        Parameter { value, locked: true }
    }

    /// A parameter that takes part in the search.
    pub fn free(value: Scalar) -> (p: Parameter)
        ensures
            p == (Parameter { value, locked: false }),
    {
        Parameter { value, locked: false }
    }
}

impl vstd::std_specs::convert::FromSpecImpl<Scalar> for Parameter {
    open spec fn obeys_from_spec() -> bool {
        true
    }

    open spec fn from_spec(value: Scalar) -> Parameter {
        Parameter { value, locked: false }
    }
}

impl From<Scalar> for Parameter {
    /// A bare value stands for a free parameter.
    fn from(value: Scalar) -> (p: Parameter) {
        Parameter { value, locked: false }
    }
}

/// A point in space: three references into the parameter store.
#[derive(Clone, Copy, PartialEq, Eq, Structural, Debug)]
pub struct Point {
    pub x: ParameterId,
    pub y: ParameterId,
    pub z: ParameterId,
}

/// A segment between two points.
#[derive(Clone, Copy, PartialEq, Eq, Structural, Debug)]
pub struct Segment {
    pub a: PointId,
    pub b: PointId,
}

/// A circle around a point.
#[derive(Clone, Copy, PartialEq, Eq, Structural, Debug)]
pub struct Circle {
    pub origin: PointId,
    pub radius: ParameterId,
}

} // verus!
