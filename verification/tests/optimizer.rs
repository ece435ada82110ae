use argmin::solver::gradientdescent::SteepestDescent;
use argmin::solver::linesearch::MoreThuenteLineSearch;
use cas_parser::parser::ast::{Expr, Literal};
use cas_parser::parser::token::op::{BinOpKind, UnaryOpKind};
use fncad::constraint::{Constraint, Problem};
use fncad::driver::{Exit, Termination, MAX_ITERATIONS};
use fncad::entities::Parameter;
use fncad::free_map::FreeMap;
use fncad::objects::Objects;
use fncad::scalar::Scalar;
use nalgebra::DVector;

fn s(v: f64) -> Scalar {
    Scalar::from_bits(v.to_bits())
}

fn f(v: Scalar) -> f64 {
    f64::from_bits(v.to_bits())
}

fn eval(expr: &Expr, env: &[(char, Scalar)]) -> f64 {
    match expr {
        Expr::Literal(Literal::Integer(n)) => n.value.parse().unwrap(),
        Expr::Literal(Literal::Float(n)) => n.value.parse().unwrap(),
        Expr::Literal(Literal::Symbol(symbol)) => {
            let name = symbol.name.chars().next().unwrap();
            f(env.iter().find(|(n, _)| *n == name).unwrap().1)
        }
        Expr::Paren(paren) => eval(&paren.expr, env),
        Expr::Unary(unary) => match unary.op.kind {
            UnaryOpKind::Neg => -eval(&unary.operand, env),
            other => panic!("operator {:?} is not arithmetic", other),
        },
        Expr::Binary(binary) => {
            let lhs = eval(&binary.lhs, env);
            let rhs = eval(&binary.rhs, env);
            match binary.op.kind {
                BinOpKind::Add => lhs + rhs,
                BinOpKind::Sub => lhs - rhs,
                BinOpKind::Mul => lhs * rhs,
                BinOpKind::Div => lhs / rhs,
                BinOpKind::Exp => lhs.powf(rhs),
                other => panic!("operator {:?} is not arithmetic", other),
            }
        }
        Expr::Call(call) => {
            assert_eq!(call.name.name, "sqrt");
            eval(&call.args[0], env).sqrt()
        }
        other => panic!("expression {:?} is not arithmetic", other),
    }
}

struct System<'a> {
    problem: &'a Problem,
    map: FreeMap,
}

impl System<'_> {
    fn candidate(&self, param: &DVector<f64>) -> Vec<Scalar> {
        let free: Vec<Scalar> = param.iter().map(|v| s(*v)).collect();
        self.map.expand(&self.problem.objects, &free)
    }

    fn residual_sum(&self, param: &DVector<f64>) -> f64 {
        let terms = self.problem.residual(&self.candidate(param)).unwrap();
        terms
            .iter()
            .enumerate()
            .map(|(i, term)| eval(&term.expression(i).unwrap(), &term.bindings().symbols()))
            .sum()
    }
}

impl argmin::core::CostFunction for System<'_> {
    type Param = DVector<f64>;
    type Output = f64;

    fn cost(&self, param: &Self::Param) -> Result<f64, argmin::core::Error> {
        Ok(self.residual_sum(param).abs())
    }
}

impl argmin::core::Gradient for System<'_> {
    type Param = DVector<f64>;
    type Gradient = DVector<f64>;

    fn gradient(&self, param: &Self::Param) -> Result<DVector<f64>, argmin::core::Error> {
        let rows = self.problem.jacobian(&self.candidate(param)).unwrap();
        let mut gradient = DVector::zeros(self.map.free_len());
        for (i, row) in rows.iter().enumerate() {
            let symbols = row.term.bindings().symbols();
            for (k, role) in self.map.compact(&row.roles).into_iter().enumerate() {
                if let Some(role) = role {
                    gradient[k] += eval(&role.expression(i).unwrap(), &symbols);
                }
            }
        }
        if self.residual_sum(param) < 0.0 {
            gradient = -gradient;
        }
        Ok(gradient)
    }
}

#[test]
fn steepest_descent_solves_the_point_on_circle_sketch() {
    let mut objects = Objects::new();
    let origin = objects.add_point(Parameter::fixed(s(0.0)), Parameter::fixed(s(0.0)), Parameter::fixed(s(0.0)));
    let point = objects.add_point(Parameter::free(s(-50.0)), Parameter::free(s(0.0)), Parameter::free(s(0.0)));
    let circle = objects.add_circle(origin, Parameter::free(s(25.0)));
    let mut problem = Problem { objects, constraints: vec![Constraint::PointOnCircle(point, circle)] };

    let tolerance = 1e-9;
    let map = FreeMap::build(&problem.objects);
    let start: Vec<Scalar> = map.compact(&problem.objects.values());
    let params = DVector::from_iterator(start.len(), start.iter().map(|v| f(*v)));
    let exit = {
        let system = System { problem: &problem, map };
        let solver = SteepestDescent::new(MoreThuenteLineSearch::new());
        let result = argmin::core::Executor::new(system, solver)
            .configure(|state| state.param(params).max_iters(MAX_ITERATIONS).target_cost(tolerance))
            .run()
            .unwrap();
        let state = result.state();
        let best = argmin::core::State::get_best_param(state).unwrap();
        let best: Vec<Scalar> = best.iter().map(|v| s(*v)).collect();
        let norm = argmin::core::State::get_best_cost(state);
        let reason = argmin::core::State::get_termination_reason(state);
        assert!(argmin::core::State::get_iter(state) <= MAX_ITERATIONS);
        let termination = if norm < tolerance {
            Termination::ToleranceMet
        } else if reason == Some(&argmin::core::TerminationReason::MaxItersReached) {
            Termination::IterationCap
        } else {
            Termination::StepNegligible
        };
        let map = FreeMap::build(&problem.objects);
        Exit { termination, best: map.expand(&problem.objects, &best), residual_norm: s(norm) }
    };
    problem.finish(exit).unwrap();

    let values = problem.objects.values();
    assert_eq!(&values[0..3], &[s(0.0), s(0.0), s(0.0)]);
    let distance = (f(values[3]).powi(2) + f(values[4]).powi(2) + f(values[5]).powi(2)).sqrt();
    assert!((distance - f(values[6])).abs() < tolerance);
}
