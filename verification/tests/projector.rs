use fncad::entities::{Parameter, Point};
use fncad::error::SolveError;
use fncad::ids::{CircleId, EntityRef, ParameterId, PointId, SegmentId};
use fncad::objects::Objects;
use fncad::projector::{DeterminedShape, Point3};
use fncad::scalar::Scalar;

fn s(v: f64) -> Scalar {
    Scalar::from_bits(v.to_bits())
}

fn at(x: f64, y: f64, z: f64) -> Point3 {
    Point3 { x: s(x), y: s(y), z: s(z) }
}

fn add(objects: &mut Objects, x: f64, y: f64, z: f64) -> PointId {
    objects.add_point(Parameter::free(s(x)), Parameter::fixed(s(y)), Parameter::free(s(z)))
}

fn scene() -> Objects {
    let mut objects = Objects::new();
    let a = add(&mut objects, 0.0, -1.0, -2.0);
    let lone = add(&mut objects, 0.5, 0.5, 0.0);
    let b = add(&mut objects, -1.0, 1.0, -1.0);
    let c = add(&mut objects, 1.0, 1.0, -1.0);
    let centre = add(&mut objects, -3.0, 3.0, -3.0);
    objects.add_circle(centre, Parameter::free(s(0.5)));
    objects.add_segment(a, b);
    objects.add_segment(b, c);
    objects.add_segment(c, a);
    add(&mut objects, 9.0, 9.0, 9.0);
    assert_eq!(lone, PointId(1));
    objects
}

#[test]
fn segments_come_first_then_circles_then_unreferenced_points() {
    let shapes = scene().project().unwrap();
    assert_eq!(
        shapes,
        vec![
            DeterminedShape::Line(at(0.0, -1.0, -2.0), at(-1.0, 1.0, -1.0)),
            DeterminedShape::Line(at(-1.0, 1.0, -1.0), at(1.0, 1.0, -1.0)),
            DeterminedShape::Line(at(1.0, 1.0, -1.0), at(0.0, -1.0, -2.0)),
            DeterminedShape::Circle { radius: s(0.5), origin: at(-3.0, 3.0, -3.0) },
            DeterminedShape::Point(at(0.5, 0.5, 0.0)),
            DeterminedShape::Point(at(9.0, 9.0, 9.0)),
        ]
    );
}

#[test]
fn projecting_twice_gives_the_same_shapes() {
    let objects = scene();
    let first = objects.project();
    let second = objects.project();
    assert_eq!(first, second);
    assert_eq!(objects.clone().project(), first);
}

#[test]
fn a_failed_projection_fails_alike_twice() {
    let mut objects = scene();
    objects.add_segment(PointId(0), PointId(77));
    assert_eq!(objects.project(), objects.project());
    assert!(objects.project().is_err());
}

#[test]
fn an_empty_graph_projects_to_nothing() {
    assert_eq!(Objects::new().project(), Ok(vec![]));
}

#[test]
fn projection_reads_the_committed_values() {
    let mut objects = Objects::new();
    let origin = objects.add_point(Parameter::fixed(s(0.0)), Parameter::fixed(s(0.0)), Parameter::fixed(s(0.0)));
    let point = objects.add_point(Parameter::free(s(-50.0)), Parameter::free(s(0.0)), Parameter::free(s(0.0)));
    objects.add_circle(origin, Parameter::free(s(25.0)));
    objects.commit(&vec![s(1.0), s(1.0), s(1.0), s(-37.5), s(0.0), s(0.0), s(37.5)]);
    assert_eq!(
        objects.project().unwrap(),
        vec![
            DeterminedShape::Circle { radius: s(37.5), origin: at(0.0, 0.0, 0.0) },
            DeterminedShape::Point(at(-37.5, 0.0, 0.0)),
        ]
    );
    assert_eq!(objects.position_of(point, EntityRef::Constraint(0)), Ok(at(-37.5, 0.0, 0.0)));
}

#[test]
fn a_degenerate_segment_projects_to_a_line_between_equal_ends() {
    let mut objects = Objects::new();
    let a = add(&mut objects, 1.0, 2.0, 3.0);
    objects.add_segment(a, a);
    assert_eq!(
        objects.project().unwrap(),
        vec![DeterminedShape::Line(at(1.0, 2.0, 3.0), at(1.0, 2.0, 3.0))]
    );
}

#[test]
fn refers_to_point_sees_segments_and_circles() {
    let objects = scene();
    assert!(objects.refers_to_point(PointId(0)));
    assert!(!objects.refers_to_point(PointId(1)));
    assert!(objects.refers_to_point(PointId(2)));
    assert!(objects.refers_to_point(PointId(3)));
    assert!(objects.refers_to_point(PointId(4)));
    assert!(!objects.refers_to_point(PointId(5)));
    assert!(!objects.refers_to_point(PointId(6)));
}

#[test]
fn a_segment_to_a_missing_point_is_not_found() {
    let mut objects = scene();
    objects.add_segment(PointId(0), PointId(77));
    assert_eq!(
        objects.project(),
        Err(SolveError::NotFound {
            missing: EntityRef::Point(PointId(77)),
            referrer: EntityRef::Segment(SegmentId(3)),
        })
    );
}

#[test]
fn a_circle_around_a_missing_point_is_not_found() {
    let mut objects = Objects::new();
    objects.add_circle(PointId(0), Parameter::free(s(1.0)));
    assert_eq!(
        objects.project(),
        Err(SolveError::NotFound {
            missing: EntityRef::Point(PointId(0)),
            referrer: EntityRef::Circle(CircleId(0)),
        })
    );
}

#[test]
fn a_circle_with_a_missing_radius_is_not_found() {
    let mut objects = Objects::new();
    let origin = add(&mut objects, 0.0, 0.0, 0.0);
    objects.add_circle(origin, Parameter::free(s(1.0)));
    objects.circles[0].radius = ParameterId(12);
    assert_eq!(
        objects.project(),
        Err(SolveError::NotFound {
            missing: EntityRef::Parameter(ParameterId(12)),
            referrer: EntityRef::Circle(CircleId(0)),
        })
    );
}

#[test]
fn a_point_with_a_missing_coordinate_is_not_found() {
    let mut objects = Objects::new();
    add(&mut objects, 0.0, 0.0, 0.0);
    objects.points.push(Point { x: ParameterId(0), y: ParameterId(1), z: ParameterId(30) });
    assert_eq!(
        objects.project(),
        Err(SolveError::NotFound {
            missing: EntityRef::Parameter(ParameterId(30)),
            referrer: EntityRef::Point(PointId(1)),
        })
    );
    assert_eq!(objects.position(&objects.points[1]), Err(ParameterId(30)));
    assert_eq!(objects.position(&objects.points[0]), Ok(at(0.0, 0.0, 0.0)));
}

#[test]
fn segments_fail_before_circles_and_circles_before_points() {
    let mut objects = Objects::new();
    add(&mut objects, 0.0, 0.0, 0.0);
    objects.points.push(Point { x: ParameterId(40), y: ParameterId(1), z: ParameterId(2) });
    objects.add_circle(PointId(8), Parameter::free(s(1.0)));
    assert_eq!(
        objects.project(),
        Err(SolveError::NotFound {
            missing: EntityRef::Point(PointId(8)),
            referrer: EntityRef::Circle(CircleId(0)),
        })
    );
    objects.add_segment(PointId(0), PointId(1));
    assert_eq!(
        objects.project(),
        Err(SolveError::NotFound {
            missing: EntityRef::Parameter(ParameterId(40)),
            referrer: EntityRef::Point(PointId(1)),
        })
    );
    objects.add_segment(PointId(5), PointId(1));
    assert_eq!(
        objects.project(),
        Err(SolveError::NotFound {
            missing: EntityRef::Parameter(ParameterId(40)),
            referrer: EntityRef::Point(PointId(1)),
        })
    );
}

#[test]
fn no_projection_holds_a_sphere() {
    let shapes = scene().project().unwrap();
    assert!(shapes.iter().all(|shape| !matches!(shape, DeterminedShape::Sphere { .. })));
}
