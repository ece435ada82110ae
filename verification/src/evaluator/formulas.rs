//! The table of closed-form formulas, one for the residual of each supported
//! constraint kind and one for each role a parameter can play in it, and
//! their parsed form.

use vstd::prelude::*;
use cas_parser::parser::ast::Expr;
use cas_parser::parser::Parser;
use crate::error::SolveError;
use crate::evaluator::terms::{CircleBindings, ResidualTerm, Role};
use crate::scalar::Scalar;

verus! {

/// The parse error of `cas_parser`, `parser::error::Error`. The library only
/// tells that there was one.
#[verifier::external_type_specification]
#[verifier::external_body]
pub struct ExParseError(cas_parser::parser::error::Error);

/// The text of the formula of a residual, over the symbols of its bindings.
pub open spec fn residual_text(term: ResidualTerm) -> Seq<char> {
    match term {
        ResidualTerm::PointOnCircle(_) => "sqrt((x-a)^2 + (y-b)^2 + (z-c)^2) - r"@,
    }
}

/// The text of the partial derivative of the point-on-circle residual with
/// respect to the parameter that plays `role`.
pub open spec fn partial_text(role: Role) -> Seq<char> {
    match role {
        Role::PointX => "(x-a) / sqrt((x-a)^2 + (y-b)^2 + (z-c)^2)"@,
        Role::PointY => "(y-b) / sqrt((x-a)^2 + (y-b)^2 + (z-c)^2)"@,
        Role::PointZ => "(z-c) / sqrt((x-a)^2 + (y-b)^2 + (z-c)^2)"@,
        Role::OriginX => "(a-x) / sqrt((x-a)^2 + (y-b)^2 + (z-c)^2)"@,
        Role::OriginY => "(b-y) / sqrt((x-a)^2 + (y-b)^2 + (z-c)^2)"@,
        Role::OriginZ => "(c-z) / sqrt((x-a)^2 + (y-b)^2 + (z-c)^2)"@,
        Role::Radius => "-1"@,
    }
}

/// Whether `source` is one of the texts of the table.
pub open spec fn in_table(source: Seq<char>) -> bool {
    ||| exists|term: ResidualTerm| source == residual_text(term)
    ||| exists|role: Role| source == partial_text(role)
}

/// What `cas_parser` makes of a formula text: the expression that
/// `Parser::try_parse_full` returns for it, or `None` where it returns
/// errors. Nothing else is known of it here.
pub uninterp spec fn parsed(source: Seq<char>) -> Option<Expr>;

/// Parses a text of the table with `Parser::new(source).try_parse_full::<Expr>()`
/// of `cas_parser`. Believed, not proved: the parser reads nothing but the
/// text, so the same text always gives the same outcome. Which outcome a
/// text gives is not stated.
#[verifier::external_body]
fn parse(source: &str) -> (outcome: Result<Expr, Vec<cas_parser::parser::error::Error>>)
    requires
        in_table(source@),
    ensures
        match outcome {
            Ok(expression) => parsed(source@) == Some(expression),
            Err(_) => parsed(source@) is None,
        },
{
    Parser::new(source).try_parse_full::<Expr>()
}

/// What the library reports for the outcome of parsing the formula of the
/// constraint at list position `index`: the expression, or an evaluation
/// failure that names the constraint.
pub fn expression_or_failure(
    outcome: Result<Expr, Vec<cas_parser::parser::error::Error>>,
    index: usize,
) -> (r: Result<Expr, SolveError>)
    ensures
        r == match outcome {
            Ok(expression) => Ok::<Expr, SolveError>(expression),
            Err(_) => Err(SolveError::EvaluationFailure { constraint: index }),
        },
{
    match outcome {
        Ok(expression) => Ok(expression),
        Err(_) => Err(SolveError::EvaluationFailure { constraint: index }),
    }
}

/// The expression that stands for `source`, a text of the table, in the
/// constraint at list position `index`.
pub open spec fn expression_of(source: Seq<char>, index: usize) -> Result<Expr, SolveError> {
    match parsed(source) {
        Some(expression) => Ok(expression),
        None => Err(SolveError::EvaluationFailure { constraint: index }),
    }
}

impl ResidualTerm {
    /// The text of the formula of this residual.
    pub fn formula(&self) -> (text: &'static str)
        ensures
            text@ == residual_text(*self),
    {
        match self {
            ResidualTerm::PointOnCircle(_) => "sqrt((x-a)^2 + (y-b)^2 + (z-c)^2) - r",
        }
    }

    /// The values bound to the symbols of the formula.
    pub fn bindings(&self) -> (bindings: CircleBindings)
        ensures
            *self == ResidualTerm::PointOnCircle(bindings),
    {
        match self {
            ResidualTerm::PointOnCircle(bindings) => *bindings,
        }
    }

    /// The parsed formula of this residual, which belongs to the constraint
    /// at list position `index`; an evaluation failure where the parser
    /// rejects the text.
    pub fn expression(&self, index: usize) -> (r: Result<Expr, SolveError>)
        ensures
            r == expression_of(residual_text(*self), index),
    {
        let text = self.formula();
        expression_or_failure(parse(text), index)
    }
}

impl Role {
    /// The text of the partial derivative for this role.
    pub fn formula(&self) -> (text: &'static str)
        ensures
            text@ == partial_text(*self),
    {
        match self {
            Role::PointX => "(x-a) / sqrt((x-a)^2 + (y-b)^2 + (z-c)^2)",
            Role::PointY => "(y-b) / sqrt((x-a)^2 + (y-b)^2 + (z-c)^2)",
            Role::PointZ => "(z-c) / sqrt((x-a)^2 + (y-b)^2 + (z-c)^2)",
            Role::OriginX => "(a-x) / sqrt((x-a)^2 + (y-b)^2 + (z-c)^2)",
            Role::OriginY => "(b-y) / sqrt((x-a)^2 + (y-b)^2 + (z-c)^2)",
            Role::OriginZ => "(c-z) / sqrt((x-a)^2 + (y-b)^2 + (z-c)^2)",
            Role::Radius => "-1",
        }
    }

    /// The parsed partial derivative for this role in the constraint at
    /// list position `index`; an evaluation failure where the parser rejects
    /// the text.
    pub fn expression(&self, index: usize) -> (r: Result<Expr, SolveError>)
        ensures
            r == expression_of(partial_text(*self), index),
    {
        let text = self.formula();
        expression_or_failure(parse(text), index)
    }
}

impl CircleBindings {
    /// What a point-on-circle formula is evaluated against: each symbol of
    /// the formula with the value bound to it.
    pub fn symbols(&self) -> (env: Vec<(char, Scalar)>)
        ensures
            env@ == seq![
                ('x', self.x),
                ('y', self.y),
                ('z', self.z),
                ('a', self.a),
                ('b', self.b),
                ('c', self.c),
                ('r', self.r),
            ],
    {
        let mut env: Vec<(char, Scalar)> = Vec::new();
        env.push(('x', self.x));
        env.push(('y', self.y));
        env.push(('z', self.z));
        env.push(('a', self.a));
        env.push(('b', self.b));
        env.push(('c', self.c));
        env.push(('r', self.r));
        assert(env@ =~= seq![
            ('x', self.x),
            ('y', self.y),
            ('z', self.z),
            ('a', self.a),
            ('b', self.b),
            ('c', self.c),
            ('r', self.r),
        ]);
        env
    }
}

} // verus!
