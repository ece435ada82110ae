use vstd::prelude::*;
use crate::ids::{CircleId, PointId, SegmentId};
use crate::objects::Objects;

verus! {

/// The expression tree of `cas_parser`, `parser::ast::Expr`. The library
/// carries such a value and hands it on; it claims nothing about what is
/// inside.
#[verifier::external_type_specification]
#[verifier::external_body]
pub struct ExExpr(cas_parser::parser::ast::Expr);

/// A geometric relation between entities of one graph.
#[derive(Debug)]
pub enum Constraint {
    /// The point lies on the boundary of the circle.
    PointOnCircle(PointId, CircleId),
    /// The point lies on the line through the segment.
    PointOnLine(PointId, SegmentId),
    /// The distance between the two points equals the value of the
    /// expression. The expression is carried as parsed and never inspected.
    Distance(PointId, PointId, cas_parser::parser::ast::Expr),
}

impl Constraint {
    /// Whether residual and derivative formulas exist for this kind.
    pub open spec fn supported(self) -> bool {
        self is PointOnCircle
    }

    /// Whether residual and derivative formulas exist for this kind.
    pub fn is_supported(&self) -> (r: bool)
        ensures
            r == self.supported(),
    {
        match self {
            Constraint::PointOnCircle(_, _) => true,
            Constraint::PointOnLine(_, _) => false,
            Constraint::Distance(_, _, _) => false,
        }
    }
}

/// An entity graph together with the constraints to satisfy on it: what one
/// solve works on.
#[derive(Debug)]
pub struct Problem {
    pub objects: Objects,
    pub constraints: Vec<Constraint>,
}

} // verus!
