use fncad::constraint::{Constraint, Problem};
use fncad::entities::Parameter;
use fncad::evaluator::terms::Role;
use fncad::free_map::FreeMap;
use fncad::ids::ParameterId;
use fncad::objects::Objects;
use fncad::scalar::Scalar;

fn s(v: f64) -> Scalar {
    Scalar::from_bits(v.to_bits())
}

/// Parameters 0..6 with locks L F L F F L F.
fn mixed() -> Objects {
    let mut objects = Objects::new();
    for (k, locked) in [true, false, true, false, false, true, false].iter().enumerate() {
        let value = s(10.0 * k as f64);
        objects.add_parameter(if *locked { Parameter::fixed(value) } else { Parameter::free(value) });
    }
    objects
}

#[test]
fn free_indices_count_the_free_parameters_before() {
    let map = FreeMap::build(&mixed());
    assert_eq!(map.parameter_len(), 7);
    assert_eq!(map.free_len(), 4);
    assert_eq!(map.free_index(ParameterId(0)), None);
    assert_eq!(map.free_index(ParameterId(1)), Some(0));
    assert_eq!(map.free_index(ParameterId(2)), None);
    assert_eq!(map.free_index(ParameterId(3)), Some(1));
    assert_eq!(map.free_index(ParameterId(4)), Some(2));
    assert_eq!(map.free_index(ParameterId(5)), None);
    assert_eq!(map.free_index(ParameterId(6)), Some(3));
    assert_eq!(map.free_index(ParameterId(7)), None);
}

#[test]
fn free_indices_lead_back_to_their_parameters() {
    let map = FreeMap::build(&mixed());
    assert_eq!(map.parameter_at(0), Some(ParameterId(1)));
    assert_eq!(map.parameter_at(1), Some(ParameterId(3)));
    assert_eq!(map.parameter_at(2), Some(ParameterId(4)));
    assert_eq!(map.parameter_at(3), Some(ParameterId(6)));
    assert_eq!(map.parameter_at(4), None);
    for k in 0..map.free_len() {
        let id = map.parameter_at(k).unwrap();
        assert_eq!(map.free_index(id), Some(k));
    }
}

#[test]
fn compact_keeps_the_entries_of_free_parameters() {
    let objects = mixed();
    let map = FreeMap::build(&objects);
    let full: Vec<Scalar> = (0..7).map(|k| s(k as f64)).collect();
    assert_eq!(map.compact(&full), vec![s(1.0), s(3.0), s(4.0), s(6.0)]);
    assert_eq!(map.compact(&objects.values()), vec![s(10.0), s(30.0), s(40.0), s(60.0)]);
}

#[test]
fn expand_fills_in_the_stored_values_of_locked_parameters() {
    let objects = mixed();
    let map = FreeMap::build(&objects);
    let free = vec![s(-1.0), s(-2.0), s(-3.0), s(-4.0)];
    assert_eq!(
        map.expand(&objects, &free),
        vec![s(0.0), s(-1.0), s(20.0), s(-2.0), s(-3.0), s(50.0), s(-4.0)]
    );
}

#[test]
fn compact_undoes_expand() {
    let objects = mixed();
    let map = FreeMap::build(&objects);
    let free = vec![s(0.5), s(1.5), s(2.5), s(3.5)];
    assert_eq!(map.compact(&map.expand(&objects, &free)), free);
}

#[test]
fn expand_after_compact_resolves_every_parameter() {
    let objects = mixed();
    let map = FreeMap::build(&objects);
    let full: Vec<Scalar> = (0..7).map(|k| s(k as f64 + 0.25)).collect();
    let again = map.expand(&objects, &map.compact(&full));
    for k in 0..7 {
        assert_eq!(Some(again[k]), objects.resolve(ParameterId(k), &full));
    }
    assert_eq!(again, vec![s(0.0), s(1.25), s(20.0), s(3.25), s(4.25), s(50.0), s(6.25)]);
}

#[test]
fn a_graph_without_free_parameters_has_an_empty_search_vector() {
    let mut objects = Objects::new();
    objects.add_point(Parameter::fixed(s(1.0)), Parameter::fixed(s(2.0)), Parameter::fixed(s(3.0)));
    let map = FreeMap::build(&objects);
    assert_eq!(map.free_len(), 0);
    assert_eq!(map.parameter_len(), 3);
    assert_eq!(map.parameter_at(0), None);
    assert_eq!(map.compact(&objects.values()), vec![]);
    assert_eq!(map.expand(&objects, &vec![]), vec![s(1.0), s(2.0), s(3.0)]);
}

#[test]
fn an_empty_graph_has_an_empty_mapping() {
    let objects = Objects::new();
    let map = FreeMap::build(&objects);
    assert_eq!(map.free_len(), 0);
    assert_eq!(map.parameter_len(), 0);
    assert_eq!(map.free_index(ParameterId(0)), None);
    assert_eq!(map.expand(&objects, &vec![]), vec![]);
}

#[test]
fn all_free_parameters_map_to_themselves() {
    let mut objects = Objects::new();
    objects.add_point(Parameter::free(s(1.0)), Parameter::free(s(2.0)), Parameter::free(s(3.0)));
    let map = FreeMap::build(&objects);
    for k in 0..3 {
        assert_eq!(map.free_index(ParameterId(k)), Some(k));
        assert_eq!(map.parameter_at(k), Some(ParameterId(k)));
    }
    let full = vec![s(7.0), s(8.0), s(9.0)];
    assert_eq!(map.compact(&full), full);
    assert_eq!(map.expand(&objects, &full), full);
}

#[test]
fn a_compacted_jacobian_row_keeps_every_role() {
    let mut objects = Objects::new();
    let origin = objects.add_point(Parameter::fixed(s(0.0)), Parameter::free(s(0.0)), Parameter::fixed(s(0.0)));
    let point = objects.add_point(Parameter::free(s(1.0)), Parameter::fixed(s(2.0)), Parameter::free(s(3.0)));
    let circle = objects.add_circle(origin, Parameter::free(s(25.0)));
    objects.add_parameter(Parameter::free(s(0.0)));
    let map = FreeMap::build(&objects);
    let candidate = objects.values();
    let problem = Problem { objects, constraints: vec![Constraint::PointOnCircle(point, circle)] };
    let rows = problem.jacobian(&candidate).unwrap();
    assert_eq!(
        map.compact(&rows[0].roles),
        vec![Some(Role::OriginY), Some(Role::PointX), Some(Role::PointZ), Some(Role::Radius), None]
    );
    let kept = rows[0].roles.iter().filter(|role| role.is_some()).count();
    assert_eq!(kept, 4);
}
