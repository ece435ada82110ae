use cas_parser::parser::ast::{Expr, Literal};
use cas_parser::parser::token::op::{BinOpKind, UnaryOpKind};
use fncad::constraint::{Constraint, Problem};
use fncad::driver::{conclude, Exit, Termination, MAX_ITERATIONS};
use fncad::entities::Parameter;
use fncad::error::SolveError;
use fncad::evaluator::formulas::expression_or_failure;
use fncad::evaluator::terms::{CircleBindings, JacobianRow, ResidualTerm, Role};
use fncad::objects::Objects;
use fncad::scalar::Scalar;

fn s(v: f64) -> Scalar {
    Scalar::from_bits(v.to_bits())
}

fn f(v: Scalar) -> f64 {
    f64::from_bits(v.to_bits())
}

/// Evaluates the arithmetic that the formulas of the table are made of.
fn eval(expr: &Expr, env: &[(char, Scalar)]) -> f64 {
    match expr {
        Expr::Literal(Literal::Integer(n)) => n.value.parse().unwrap(),
        Expr::Literal(Literal::Float(n)) => n.value.parse().unwrap(),
        Expr::Literal(Literal::Symbol(symbol)) => {
            let mut chars = symbol.name.chars();
            let name = chars.next().unwrap();
            assert!(chars.next().is_none(), "symbol {} has more than one letter", symbol.name);
            let bound = env.iter().find(|(n, _)| *n == name);
            f(bound.unwrap().1)
        }
        Expr::Paren(paren) => eval(&paren.expr, env),
        Expr::Unary(unary) => match unary.op.kind {
            UnaryOpKind::Neg => -eval(&unary.operand, env),
            other => panic!("operator {:?} is not arithmetic", other),
        },
        Expr::Binary(binary) => {
            let lhs = eval(&binary.lhs, env);
            let rhs = eval(&binary.rhs, env);
            match binary.op.kind {
                BinOpKind::Add => lhs + rhs,
                BinOpKind::Sub => lhs - rhs,
                BinOpKind::Mul => lhs * rhs,
                BinOpKind::Div => lhs / rhs,
                BinOpKind::Exp => lhs.powf(rhs),
                other => panic!("operator {:?} is not arithmetic", other),
            }
        }
        Expr::Call(call) => {
            assert_eq!(call.name.name, "sqrt");
            assert_eq!(call.args.len(), 1);
            eval(&call.args[0], env).sqrt()
        }
        other => panic!("expression {:?} is not arithmetic", other),
    }
}

fn residual_value(term: &ResidualTerm, index: usize) -> f64 {
    let expression = term.expression(index).unwrap();
    eval(&expression, &term.bindings().symbols())
}

fn partial_value(row: &JacobianRow, column: usize, index: usize) -> f64 {
    match row.roles[column] {
        None => 0.0,
        Some(role) => eval(&role.expression(index).unwrap(), &row.term.bindings().symbols()),
    }
}

fn circle_term(point: (f64, f64, f64), origin: (f64, f64, f64), radius: f64) -> ResidualTerm {
    ResidualTerm::PointOnCircle(CircleBindings {
        x: s(point.0),
        y: s(point.1),
        z: s(point.2),
        a: s(origin.0),
        b: s(origin.1),
        c: s(origin.2),
        r: s(radius),
    })
}

fn all_free(point: (f64, f64, f64), origin: (f64, f64, f64), radius: f64) -> Problem {
    let mut objects = Objects::new();
    let o = objects.add_point(Parameter::free(s(origin.0)), Parameter::free(s(origin.1)), Parameter::free(s(origin.2)));
    let p = objects.add_point(Parameter::free(s(point.0)), Parameter::free(s(point.1)), Parameter::free(s(point.2)));
    let c = objects.add_circle(o, Parameter::free(s(radius)));
    Problem { objects, constraints: vec![Constraint::PointOnCircle(p, c)] }
}

#[test]
fn every_formula_of_the_table_parses() {
    let term = circle_term((1.0, 2.0, 3.0), (0.0, 0.0, 0.0), 1.0);
    assert!(term.expression(0).is_ok());
    for role in [
        Role::PointX,
        Role::PointY,
        Role::PointZ,
        Role::OriginX,
        Role::OriginY,
        Role::OriginZ,
        Role::Radius,
    ] {
        assert!(role.expression(0).is_ok(), "{:?}", role);
    }
}

#[test]
fn formula_texts_are_those_of_the_table() {
    let term = circle_term((1.0, 2.0, 3.0), (0.0, 0.0, 0.0), 1.0);
    assert_eq!(term.formula(), "sqrt((x-a)^2 + (y-b)^2 + (z-c)^2) - r");
    assert_eq!(Role::PointX.formula(), "(x-a) / sqrt((x-a)^2 + (y-b)^2 + (z-c)^2)");
    assert_eq!(Role::PointY.formula(), "(y-b) / sqrt((x-a)^2 + (y-b)^2 + (z-c)^2)");
    assert_eq!(Role::PointZ.formula(), "(z-c) / sqrt((x-a)^2 + (y-b)^2 + (z-c)^2)");
    assert_eq!(Role::OriginX.formula(), "(a-x) / sqrt((x-a)^2 + (y-b)^2 + (z-c)^2)");
    assert_eq!(Role::OriginY.formula(), "(b-y) / sqrt((x-a)^2 + (y-b)^2 + (z-c)^2)");
    assert_eq!(Role::OriginZ.formula(), "(c-z) / sqrt((x-a)^2 + (y-b)^2 + (z-c)^2)");
    assert_eq!(Role::Radius.formula(), "-1");
}

#[test]
fn the_parsed_formula_is_not_the_text_handed_in() {
    let expression = Role::Radius.expression(0).unwrap();
    match expression {
        Expr::Unary(unary) => {
            assert_eq!(unary.op.kind, UnaryOpKind::Neg);
            assert!(matches!(*unary.operand, Expr::Literal(Literal::Integer(_))));
        }
        other => panic!("unexpected expression {:?}", other),
    }
    let term = circle_term((1.0, 2.0, 3.0), (0.0, 0.0, 0.0), 1.0);
    match term.expression(0).unwrap() {
        Expr::Binary(binary) => {
            assert_eq!(binary.op.kind, BinOpKind::Sub);
            assert!(matches!(*binary.lhs, Expr::Call(_)));
        }
        other => panic!("unexpected expression {:?}", other),
    }
}

#[test]
fn a_rejected_formula_is_an_evaluation_failure() {
    assert_eq!(
        expression_or_failure(Err(Vec::new()), 3),
        Err(SolveError::EvaluationFailure { constraint: 3 })
    );
    let parsed = Role::Radius.expression(0).unwrap();
    assert_eq!(expression_or_failure(Ok(parsed.clone()), 3), Ok(parsed));
}

#[test]
fn the_seven_symbols_are_named() {
    let bindings = CircleBindings { x: s(1.0), y: s(2.0), z: s(3.0), a: s(4.0), b: s(5.0), c: s(6.0), r: s(7.0) };
    assert_eq!(
        bindings.symbols(),
        vec![
            ('x', s(1.0)),
            ('y', s(2.0)),
            ('z', s(3.0)),
            ('a', s(4.0)),
            ('b', s(5.0)),
            ('c', s(6.0)),
            ('r', s(7.0)),
        ]
    );
    assert_eq!(ResidualTerm::PointOnCircle(bindings).bindings(), bindings);
}

#[test]
fn residual_is_zero_on_the_circle() {
    assert!(residual_value(&circle_term((3.0, 4.0, 0.0), (0.0, 0.0, 0.0), 5.0), 0).abs() < 1e-9);
    assert!(residual_value(&circle_term((2.0, 3.0, 3.0), (1.0, 1.0, 1.0), 3.0), 0).abs() < 1e-9);
    assert!(residual_value(&circle_term((0.0, -7.5, 0.0), (0.0, 0.0, 0.0), 7.5), 0).abs() < 1e-9);
}

#[test]
fn residual_is_distance_minus_radius() {
    assert_eq!(residual_value(&circle_term((-50.0, 0.0, 0.0), (0.0, 0.0, 0.0), 25.0), 0), 25.0);
    assert_eq!(residual_value(&circle_term((3.0, 4.0, 0.0), (0.0, 0.0, 0.0), 1.0), 0), 4.0);
    assert_eq!(residual_value(&circle_term((0.0, 0.0, 3.0), (0.0, 0.0, 0.0), 5.0), 0), -2.0);
    assert_eq!(residual_value(&circle_term((4.0, 6.0, 13.0), (1.0, 2.0, 1.0), 3.0), 0), 10.0);
}

#[test]
fn partial_derivatives_have_their_closed_form_values() {
    let problem = all_free((3.0, 4.0, 0.0), (0.0, 0.0, 0.0), 5.0);
    let candidate = problem.objects.values();
    let rows = problem.jacobian(&candidate).unwrap();
    let row = &rows[0];
    let values: Vec<f64> = (0..7).map(|j| partial_value(row, j, 0)).collect();
    assert_eq!(values, vec![-0.6, -0.8, 0.0, 0.6, 0.8, 0.0, -1.0]);
}

#[test]
fn jacobian_matches_central_differences() {
    let samples = [
        ((3.0, 4.0, 0.0), (0.0, 0.0, 0.0), 5.0),
        ((-50.0, 0.0, 0.0), (0.0, 0.0, 0.0), 25.0),
        ((1.5, -2.25, 4.0), (0.5, 3.0, -1.0), 2.0),
        ((10.0, 10.0, 10.0), (-3.0, 7.0, 2.5), 40.0),
    ];
    let h = 1e-6;
    for (point, origin, radius) in samples {
        let problem = all_free(point, origin, radius);
        let candidate = problem.objects.values();
        let rows = problem.jacobian(&candidate).unwrap();
        for column in 0..candidate.len() {
            let mut up = candidate.clone();
            up[column] = s(f(candidate[column]) + h);
            let mut down = candidate.clone();
            down[column] = s(f(candidate[column]) - h);
            let above = residual_value(&problem.residual(&up).unwrap()[0], 0);
            let below = residual_value(&problem.residual(&down).unwrap()[0], 0);
            let numeric = (above - below) / (2.0 * h);
            let analytic = partial_value(&rows[0], column, 0);
            assert!(
                (numeric - analytic).abs() < 1e-5,
                "column {}: numeric {} analytic {}",
                column,
                numeric,
                analytic
            );
        }
    }
}

#[test]
fn a_locked_parameter_has_a_zero_derivative_numerically_too() {
    let mut objects = Objects::new();
    let o = objects.add_point(Parameter::fixed(s(0.0)), Parameter::fixed(s(0.0)), Parameter::fixed(s(0.0)));
    let p = objects.add_point(Parameter::free(s(3.0)), Parameter::fixed(s(4.0)), Parameter::free(s(0.0)));
    let c = objects.add_circle(o, Parameter::fixed(s(5.0)));
    let problem = Problem { objects, constraints: vec![Constraint::PointOnCircle(p, c)] };
    let candidate = problem.objects.values();
    let rows = problem.jacobian(&candidate).unwrap();
    for column in [0, 1, 2, 4, 6] {
        assert_eq!(partial_value(&rows[0], column, 0), 0.0);
        let mut moved = candidate.clone();
        moved[column] = s(f(candidate[column]) + 1.0);
        assert_eq!(problem.residual(&moved), problem.residual(&candidate));
    }
    assert_eq!(partial_value(&rows[0], 3, 0), 0.6);
}

/// One Gauss-Newton step on the least-norm solution of the linearized
/// system, for a system of one constraint.
fn step(problem: &Problem, candidate: &[Scalar]) -> (Vec<Scalar>, f64) {
    let candidate = candidate.to_vec();
    let residual = residual_value(&problem.residual(&candidate).unwrap()[0], 0);
    let rows = problem.jacobian(&candidate).unwrap();
    let gradient: Vec<f64> = (0..candidate.len()).map(|j| partial_value(&rows[0], j, 0)).collect();
    let norm: f64 = gradient.iter().map(|g| g * g).sum();
    let next = candidate
        .iter()
        .zip(&gradient)
        .map(|(value, g)| s(f(*value) - g * residual / norm))
        .collect();
    (next, residual.abs())
}

#[test]
fn the_point_on_circle_sketch_converges() {
    let mut objects = Objects::new();
    let origin = objects.add_point(Parameter::fixed(s(0.0)), Parameter::fixed(s(0.0)), Parameter::fixed(s(0.0)));
    let point = objects.add_point(Parameter::free(s(-50.0)), Parameter::free(s(0.0)), Parameter::free(s(0.0)));
    let circle = objects.add_circle(origin, Parameter::free(s(25.0)));
    let mut problem = Problem { objects, constraints: vec![Constraint::PointOnCircle(point, circle)] };

    let tolerance = 1e-9;
    let mut best = problem.objects.values();
    let mut norm = residual_value(&problem.residual(&best).unwrap()[0], 0).abs();
    let mut iterations = 0;
    while norm >= tolerance && iterations < MAX_ITERATIONS {
        let (next, _) = step(&problem, &best);
        best = next;
        norm = residual_value(&problem.residual(&best).unwrap()[0], 0).abs();
        iterations += 1;
    }
    let termination = if norm < tolerance { Termination::ToleranceMet } else { Termination::IterationCap };
    let solution = conclude(Exit { termination, best, residual_norm: s(norm) }).unwrap();
    problem.objects.commit(&solution);

    let values = problem.objects.values();
    let residual = residual_value(&problem.residual(&values).unwrap()[0], 0);
    assert!(residual.abs() < tolerance, "residual {}", residual);
    assert_eq!(&values[0..3], &[s(0.0), s(0.0), s(0.0)]);
    let x = f(values[3]);
    let y = f(values[4]);
    let z = f(values[5]);
    let r = f(values[6]);
    assert!(((x * x + y * y + z * z).sqrt() - r).abs() < tolerance);
    assert!(iterations <= MAX_ITERATIONS);
}
