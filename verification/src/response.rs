//! The calculation response: the expression text each operation shows and
//! the assembly of a success or failure outcome.
//!
//! The numeric operands arrive here twice: as text, already rendered by the
//! caller (rendering an `f64` in decimal is floating-point work), and — for
//! the result — as the 64-bit encoding of the computed value.  The exact
//! expression templates are part of the observable contract, so they are
//! stated literally, template by template.

use vstd::prelude::*;

use crate::domain::{spec_error_message, CalcError, error_message};
use crate::ops::Op;
use crate::text::{concat2, concat3};

verus! {

/// The expression text an operation displays, built from the rendered
/// operands: `a` and `b` for a binary operation, `value` for a unary one.
pub open spec fn spec_expression(op: Op, a: Seq<char>, b: Seq<char>, value: Seq<char>) -> Seq<
    char,
> {
    match op {
        Op::Add => a + " + "@ + b,
        Op::Subtract => a + " - "@ + b,
        Op::Multiply => a + " × "@ + b,
        Op::Divide => a + " ÷ "@ + b,
        Op::Power => a + " ^ "@ + b,
        Op::Sqrt => "√"@ + value,
        Op::Sin => "sin("@ + value + "°)"@,
        Op::Cos => "cos("@ + value + "°)"@,
        Op::Tan => "tan("@ + value + "°)"@,
        Op::Ln => "ln("@ + value + ")"@,
        Op::Log10 => "log("@ + value + ")"@,
        Op::DegreesToRadians => value + "° → rad"@,
        Op::RadiansToDegrees => value + " rad → °"@,
        Op::Square => value + "²"@,
        Op::Reciprocal => "1/"@ + value,
        Op::Factorial => value + "!"@,
        Op::Abs => "|"@ + value + "|"@,
        Op::Pi => "π"@,
        Op::E => "e"@,
    }
}

/// Builds the expression text for `op` from the rendered operands.
pub fn expression(op: Op, a: &str, b: &str, value: &str) -> (r: String)
    ensures
        r@ == spec_expression(op, a@, b@, value@),
{
    match op {
        Op::Add => concat3(a, " + ", b),
        Op::Subtract => concat3(a, " - ", b),
        Op::Multiply => concat3(a, " × ", b),
        Op::Divide => concat3(a, " ÷ ", b),
        Op::Power => concat3(a, " ^ ", b),
        Op::Sqrt => concat2("√", value),
        Op::Sin => concat3("sin(", value, "°)"),
        Op::Cos => concat3("cos(", value, "°)"),
        Op::Tan => concat3("tan(", value, "°)"),
        Op::Ln => concat3("ln(", value, ")"),
        Op::Log10 => concat3("log(", value, ")"),
        Op::DegreesToRadians => concat2(value, "° → rad"),
        Op::RadiansToDegrees => concat2(value, " rad → °"),
        Op::Square => concat2(value, "²"),
        Op::Reciprocal => concat2("1/", value),
        Op::Factorial => concat2(value, "!"),
        Op::Abs => concat3("|", value, "|"),
        Op::Pi => "π".to_owned(),
        Op::E => "e".to_owned(),
    }
}

/// The outcome of one calculation, as the front ends report it: the
/// encoding of the numeric result, the expression text, whether the
/// operation succeeded, and the error message when it did not.
pub struct CalcResponse {
    pub result_bits: u64,
    pub expression: String,
    pub success: bool,
    pub error: Option<String>,
}

/// Assembles the response for a calculation that succeeded with the value
/// encoded by `result_bits`.
pub fn ok_response(op: Op, a: &str, b: &str, value: &str, result_bits: u64) -> (r: CalcResponse)
    ensures
        r.result_bits == result_bits,
        r.expression@ == spec_expression(op, a@, b@, value@),
        r.success,
        r.error is None,
{
    CalcResponse {
        result_bits,
        expression: expression(op, a, b, value),
        success: true,
        error: None,
    }
}

/// Assembles the response for a calculation whose domain check failed: the
/// result reads as zero, the expression is still shown, and the error
/// message is the one `op` gives to `e`.
pub fn error_response(op: Op, a: &str, b: &str, value: &str, e: CalcError) -> (r: CalcResponse)
    ensures
        r.result_bits == 0,
        r.expression@ == spec_expression(op, a@, b@, value@),
        !r.success,
        r.error matches Some(m) && m@ == spec_error_message(op, e),
{
    CalcResponse {
        result_bits: 0,
        expression: expression(op, a, b, value),
        success: false,
        error: Some(error_message(op, e)),
    }
}

} // verus!
