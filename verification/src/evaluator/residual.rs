use vstd::prelude::*;
use crate::constraint::{Constraint, Problem};
use crate::entities::{Circle, Point};
use crate::error::SolveError;
use crate::evaluator::model::{
    circle_bindings, circle_parts, first_error, missing_parameter, residual_term, system_error,
};
use crate::evaluator::terms::{CircleBindings, ResidualTerm};
use crate::ids::{CircleId, EntityRef, ParameterId, PointId};
use crate::objects::Objects;
use crate::scalar::Scalar;

verus! {

impl Objects {
    /// The value that stands for parameter `id` while `candidate` is tried:
    /// the stored value of a locked parameter, the candidate's entry of a
    /// free one.
    pub fn resolve(&self, id: ParameterId, candidate: &Vec<Scalar>) -> (r: Option<Scalar>)
        requires
            candidate.len() == self.parameters.len(),
        ensures
            r == self@.resolve(id, candidate@),
    {
        match self.get_parameter(id) {
            Some(p) => {
                if p.locked {
                    Some(p.value)
                } else {
                    Some(candidate[id.0])
                }
            },
            None => None,
        }
    }

    /// Looks up the point, the origin and the circle of a point-on-circle
    /// constraint at list position `index`.
    pub fn lookup_circle(&self, p: PointId, c: CircleId, index: usize) -> (r: Result<
        (Point, Point, Circle),
        SolveError,
    >)
        ensures
            r == circle_parts(self@, p, c, index),
    {
        let referrer = EntityRef::Constraint(index);
        let point = match self.get_point(p) {
            Some(point) => *point,
            None => {
                return Err(SolveError::NotFound { missing: EntityRef::Point(p), referrer });
            },
        };
        let circle = match self.get_circle(c) {
            Some(circle) => *circle,
            None => {
                return Err(SolveError::NotFound { missing: EntityRef::Circle(c), referrer });
            },
        };
        match self.get_point(circle.origin) {
            Some(origin) => Ok((point, *origin, circle)),
            None => Err(
                SolveError::NotFound { missing: EntityRef::Point(circle.origin), referrer },
            ),
        }
    }

    /// Binds one symbol of the constraint at list position `index` to the
    /// value that stands for parameter `id`.
    fn bind(&self, id: ParameterId, index: usize, candidate: &Vec<Scalar>) -> (r: Result<
        Scalar,
        SolveError,
    >)
        requires
            candidate.len() == self.parameters.len(),
        ensures
            r == match self@.resolve(id, candidate@) {
                Some(v) => Ok::<Scalar, SolveError>(v),
                None => Err(missing_parameter(id, index)),
            },
    {
        match self.resolve(id, candidate) {
            Some(v) => Ok(v),
            None => Err(
                SolveError::NotFound {
                    missing: EntityRef::Parameter(id),
                    referrer: EntityRef::Constraint(index),
                },
            ),
        }
    }

    /// Binds the seven symbols of a point-on-circle constraint at list
    /// position `index`.
    pub fn bind_circle(
        &self,
        point: &Point,
        origin: &Point,
        circle: &Circle,
        index: usize,
        candidate: &Vec<Scalar>,
    ) -> (r: Result<CircleBindings, SolveError>)
        requires
            candidate.len() == self.parameters.len(),
        ensures
            r == circle_bindings(self@, *point, *origin, *circle, index, candidate@),
    {
        let x = match self.bind(point.x, index, candidate) {
            Ok(v) => v,
            Err(e) => { return Err(e); },
        };
        let y = match self.bind(point.y, index, candidate) {
            Ok(v) => v,
            Err(e) => { return Err(e); },
        };
        let z = match self.bind(point.z, index, candidate) {
            Ok(v) => v,
            Err(e) => { return Err(e); },
        };
        let a = match self.bind(origin.x, index, candidate) {
            Ok(v) => v,
            Err(e) => { return Err(e); },
        };
        let b = match self.bind(origin.y, index, candidate) {
            Ok(v) => v,
            Err(e) => { return Err(e); },
        };
        let c = match self.bind(origin.z, index, candidate) {
            Ok(v) => v,
            Err(e) => { return Err(e); },
        };
        let r = match self.bind(circle.radius, index, candidate) {
            Ok(v) => v,
            Err(e) => { return Err(e); },
        };
        Ok(CircleBindings { x, y, z, a, b, c, r })
    }
}

impl Problem {
    /// The residual of the constraint at list position `index` while
    /// `candidate` is tried.
    pub fn residual_at(&self, index: usize, candidate: &Vec<Scalar>) -> (r: Result<
        ResidualTerm,
        SolveError,
    >)
        requires
            index < self.constraints.len(),
            candidate.len() == self.objects.parameters.len(),
        ensures
            r == residual_term(self.objects@, self.constraints@[index as int], index, candidate@),
    {
        match &self.constraints[index] {
            Constraint::PointOnCircle(p, c) => {
                let (point, origin, circle) = match self.objects.lookup_circle(*p, *c, index) {
                    Ok(parts) => parts,
                    Err(e) => { return Err(e); },
                };
                match self.objects.bind_circle(&point, &origin, &circle, index, candidate) {
                    Ok(bindings) => Ok(ResidualTerm::PointOnCircle(bindings)),
                    Err(e) => Err(e),
                }
            },
            _ => Err(SolveError::UnsupportedConstraint { constraint: index }),
        }
    }

    /// The residuals of the system while `candidate` is tried: one per
    /// constraint, in list order. The candidate has one entry per parameter,
    /// in id order; the entries of locked parameters are ignored.
    ///
    /// Fails with the error of the first constraint, in list order, whose
    /// residual cannot be built.
    pub fn residual(&self, candidate: &Vec<Scalar>) -> (r: Result<Vec<ResidualTerm>, SolveError>)
        requires
            candidate.len() == self.objects.parameters.len(),
        ensures
            match r {
                Ok(terms) => {
                    &&& system_error(self.objects@, self.constraints@, candidate@) is None
                    &&& terms.len() == self.constraints.len()
                    &&& forall|i: int|
                        0 <= i < terms.len() ==> residual_term(
                            self.objects@,
                            #[trigger] self.constraints@[i],
                            i as usize,
                            candidate@,
                        ) == Ok::<ResidualTerm, SolveError>(terms[i])
                },
                Err(e) => system_error(self.objects@, self.constraints@, candidate@) == Some(e),
            },
    {
        let mut terms: Vec<ResidualTerm> = Vec::new();
        let mut i: usize = 0;
        while i < self.constraints.len()
            invariant
                i <= self.constraints.len(),
                candidate.len() == self.objects.parameters.len(),
                terms.len() == i,
                forall|k: int|
                    0 <= k < i ==> residual_term(
                        self.objects@,
                        #[trigger] self.constraints@[k],
                        k as usize,
                        candidate@,
                    ) == Ok::<ResidualTerm, SolveError>(terms[k]),
                system_error(self.objects@, self.constraints@, candidate@) == first_error(
                    self.objects@,
                    self.constraints@,
                    candidate@,
                    i as int,
                ),
            decreases self.constraints.len() - i,
        {
            match self.residual_at(i, candidate) {
                Ok(term) => { terms.push(term); },
                Err(e) => { return Err(e); },
            }
            i += 1;
        }
        Ok(terms)
    }
}

} // verus!
