//! The operation set and request validation.
//!
//! A request names an operation and supplies up to two operands (`a` and
//! `b`) or a single `value`.  Validation resolves the operation name, checks
//! that exactly the operands it needs are present, and reports unknown names
//! or missing operands as request-level errors — those map to a bad-request
//! response in the HTTP front end, distinct from the engine's own domain
//! errors.

use vstd::prelude::*;

use crate::text::str_eq;

verus! {

/// One calculator operation, as named in a request.
#[derive(Clone, Copy, Debug, PartialEq, Eq, Structural)]
pub enum Op {
    Add,
    Subtract,
    Multiply,
    Divide,
    Power,
    Sqrt,
    Sin,
    Cos,
    Tan,
    Ln,
    Log10,
    DegreesToRadians,
    RadiansToDegrees,
    Square,
    Reciprocal,
    Factorial,
    Abs,
    Pi,
    E,
}

/// How many operands an operation consumes: the pair `a`, `b`; the single
/// `value`; or none at all.
#[derive(Clone, Copy, Debug, PartialEq, Eq, Structural)]
pub enum Arity {
    Binary,
    Unary,
    Nullary,
}

/// A malformed request: the front ends answer both variants with a
/// bad-request status instead of a calculation result.
#[derive(Clone, Copy, Debug, PartialEq, Eq, Structural)]
pub enum RequestError {
    UnknownOperation,
    MissingOperand,
}

/// The operation a request name denotes, or `None` for an unknown name.
pub open spec fn op_of_name(name: Seq<char>) -> Option<Op> {
    if name == "add"@ {
        Some(Op::Add)
    } else if name == "subtract"@ {
        Some(Op::Subtract)
    } else if name == "multiply"@ {
        Some(Op::Multiply)
    } else if name == "divide"@ {
        Some(Op::Divide)
    } else if name == "power"@ {
        Some(Op::Power)
    } else if name == "sqrt"@ {
        Some(Op::Sqrt)
    } else if name == "sin"@ {
        Some(Op::Sin)
    } else if name == "cos"@ {
        Some(Op::Cos)
    } else if name == "tan"@ {
        Some(Op::Tan)
    } else if name == "ln"@ {
        Some(Op::Ln)
    } else if name == "log10"@ {
        Some(Op::Log10)
    } else if name == "degrees_to_radians"@ {
        Some(Op::DegreesToRadians)
    } else if name == "radians_to_degrees"@ {
        Some(Op::RadiansToDegrees)
    } else if name == "square"@ {
        Some(Op::Square)
    } else if name == "reciprocal"@ {
        Some(Op::Reciprocal)
    } else if name == "factorial"@ {
        Some(Op::Factorial)
    } else if name == "pi"@ {
        Some(Op::Pi)
    } else if name == "e"@ {
        Some(Op::E)
    } else if name == "abs"@ {
        Some(Op::Abs)
    } else {
        None
    }
}

/// The operands each operation requires.
pub open spec fn arity_of(op: Op) -> Arity {
    match op {
        Op::Add => Arity::Binary,
        Op::Subtract => Arity::Binary,
        Op::Multiply => Arity::Binary,
        Op::Divide => Arity::Binary,
        Op::Power => Arity::Binary,
        Op::Sqrt => Arity::Unary,
        Op::Sin => Arity::Unary,
        Op::Cos => Arity::Unary,
        Op::Tan => Arity::Unary,
        Op::Ln => Arity::Unary,
        Op::Log10 => Arity::Unary,
        Op::DegreesToRadians => Arity::Unary,
        Op::RadiansToDegrees => Arity::Unary,
        Op::Square => Arity::Unary,
        Op::Reciprocal => Arity::Unary,
        Op::Factorial => Arity::Unary,
        Op::Abs => Arity::Unary,
        Op::Pi => Arity::Nullary,
        Op::E => Arity::Nullary,
    }
}

/// What a request is worth: the resolved operation when its name is known
/// and the operands it needs are present, else the request-level error.
/// `has_a`, `has_b` and `has_value` say which operand fields the request
/// filled.
pub open spec fn spec_validate(
    name: Seq<char>,
    has_a: bool,
    has_b: bool,
    has_value: bool,
) -> Result<Op, RequestError> {
    match op_of_name(name) {
        Some(op) => match arity_of(op) {
            Arity::Binary => if has_a && has_b {
                Ok(op)
            } else {
                Err(RequestError::MissingOperand)
            },
            Arity::Unary => if has_value {
                Ok(op)
            } else {
                Err(RequestError::MissingOperand)
            },
            Arity::Nullary => Ok(op),
        },
        None => Err(RequestError::UnknownOperation),
    }
}

/// Resolves a request's operation name.
pub fn parse_operation(name: &str) -> (r: Option<Op>)
    ensures
        r == op_of_name(name@),
{
    if str_eq(name, "add") {
        Some(Op::Add)
    } else if str_eq(name, "subtract") {
        Some(Op::Subtract)
    } else if str_eq(name, "multiply") {
        Some(Op::Multiply)
    } else if str_eq(name, "divide") {
        Some(Op::Divide)
    } else if str_eq(name, "power") {
        Some(Op::Power)
    } else if str_eq(name, "sqrt") {
        Some(Op::Sqrt)
    } else if str_eq(name, "sin") {
        Some(Op::Sin)
    } else if str_eq(name, "cos") {
        Some(Op::Cos)
    } else if str_eq(name, "tan") {
        Some(Op::Tan)
    } else if str_eq(name, "ln") {
        Some(Op::Ln)
    } else if str_eq(name, "log10") {
        Some(Op::Log10)
    } else if str_eq(name, "degrees_to_radians") {
        Some(Op::DegreesToRadians)
    } else if str_eq(name, "radians_to_degrees") {
        Some(Op::RadiansToDegrees)
    } else if str_eq(name, "square") {
        Some(Op::Square)
    } else if str_eq(name, "reciprocal") {
        Some(Op::Reciprocal)
    } else if str_eq(name, "factorial") {
        Some(Op::Factorial)
    } else if str_eq(name, "pi") {
        Some(Op::Pi)
    } else if str_eq(name, "e") {
        Some(Op::E)
    } else if str_eq(name, "abs") {
        Some(Op::Abs)
    } else {
        None
    }
}

/// The operands `op` requires.
pub fn required_arity(op: Op) -> (r: Arity)
    ensures
        r == arity_of(op),
{
    match op {
        Op::Add | Op::Subtract | Op::Multiply | Op::Divide | Op::Power => Arity::Binary,
        Op::Pi | Op::E => Arity::Nullary,
        _ => Arity::Unary,
    }
}

/// Validates a request: resolves the operation name and checks that the
/// operands it needs are present.
pub fn validate_request(name: &str, has_a: bool, has_b: bool, has_value: bool) -> (r: Result<
    Op,
    RequestError,
>)
    ensures
        r == spec_validate(name@, has_a, has_b, has_value),
{
    match parse_operation(name) {
        Some(op) => match required_arity(op) {
            Arity::Binary => if has_a && has_b {
                Ok(op)
            } else {
                Err(RequestError::MissingOperand)
            },
            Arity::Unary => if has_value {
                Ok(op)
            } else {
                Err(RequestError::MissingOperand)
            },
            Arity::Nullary => Ok(op),
        },
        None => Err(RequestError::UnknownOperation),
    }
}

} // verus!
