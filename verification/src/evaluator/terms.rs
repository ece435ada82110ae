use vstd::prelude::*;
use crate::scalar::Scalar;

verus! {

/// The values bound to the symbols of the point-on-circle formulas: the
/// point is `(x, y, z)`, the circle's origin `(a, b, c)` and its radius `r`.
#[derive(Clone, Copy, PartialEq, Eq, Structural, Debug)]
pub struct CircleBindings {
    pub x: Scalar,
    pub y: Scalar,
    pub z: Scalar,
    pub a: Scalar,
    pub b: Scalar,
    pub c: Scalar,
    pub r: Scalar,
}

/// One residual, as the closed-form formula to evaluate and the values bound
/// to its symbols.
#[derive(Clone, Copy, PartialEq, Eq, Structural, Debug)]
pub enum ResidualTerm {
    /// `sqrt((x-a)^2 + (y-b)^2 + (z-c)^2) - r`
    PointOnCircle(CircleBindings),
}

/// The part that a parameter plays inside a point-on-circle constraint, which
/// selects the partial-derivative formula of the residual with respect to it.
/// With `d = sqrt((x-a)^2 + (y-b)^2 + (z-c)^2)`:
#[derive(Clone, Copy, PartialEq, Eq, Structural, Debug)]
pub enum Role {
    /// `(x-a) / d`
    PointX,
    /// `(y-b) / d`
    PointY,
    /// `(z-c) / d`
    PointZ,
    /// `(a-x) / d`
    OriginX,
    /// `(b-y) / d`
    OriginY,
    /// `(c-z) / d`
    OriginZ,
    /// `-1`
    Radius,
}

/// One row of the Jacobian: the residual it differentiates and, for each
/// parameter in id order, the role that selects the entry's formula. An
/// entry without a role is exactly zero.
#[derive(Debug)]
pub struct JacobianRow {
    pub term: ResidualTerm,
    pub roles: Vec<Option<Role>>,
}

/// The mathematical content of a Jacobian row.
pub ghost struct JacobianRowView {
    pub term: ResidualTerm,
    pub roles: Seq<Option<Role>>,
}

impl View for JacobianRow {
    type V = JacobianRowView;

    open spec fn view(&self) -> JacobianRowView {
        JacobianRowView { term: self.term, roles: self.roles@ }
    }
}

} // verus!
