//! The engine's domain policy: which operand values an operation rejects,
//! and the message each rejection carries.
//!
//! Every check is an exact floating-point comparison, decided on the
//! operands' 64-bit encodings (see [`crate::fbits`]).  Two operations read
//! an auxiliary value that only floating-point arithmetic can produce — the
//! cosine of the angle for the tangent, the floor of the operand for the
//! factorial — so the caller computes that value and passes its encoding in;
//! the decision itself is made here.

use vstd::prelude::*;

use crate::fbits::{check_float_eq, check_le_zero, check_lt_zero, check_zero, float_eq, is_zero,
    le_zero, lt_zero};
use crate::ops::Op;

verus! {

/// A domain-validation failure of the engine.  The front ends report these
/// as a failed calculation, never as a transport error.
#[derive(Clone, Copy, Debug, PartialEq, Eq, Structural)]
pub enum CalcError {
    /// Division (or reciprocal) with a divisor that is exactly zero.
    DivisionByZero,
    /// Square root of a value strictly below zero.
    NegativeInput,
    /// Logarithm of a value at or below zero.
    NonPositiveInput,
    /// Tangent of an angle whose cosine is exactly zero.
    UndefinedTangent,
    /// Factorial of a negative or non-integral value.
    InvalidFactorialInput,
}

/// The domain error `op` raises on the given operand encodings, if any.
///
/// `b` is the encoding of the second operand of a binary operation and
/// `value` the encoding of a unary operation's operand.  `aux` is the
/// encoding of the auxiliary value two checks read: for [`Op::Tan`] the
/// cosine of the angle in radians, for [`Op::Factorial`] the floor of the
/// operand.  Operations without a restricted domain never fail.
pub open spec fn spec_domain_error(op: Op, b: u64, value: u64, aux: u64) -> Option<CalcError> {
    match op {
        Op::Divide => if is_zero(b) {
            Some(CalcError::DivisionByZero)
        } else {
            None
        },
        Op::Reciprocal => if is_zero(value) {
            Some(CalcError::DivisionByZero)
        } else {
            None
        },
        Op::Sqrt => if lt_zero(value) {
            Some(CalcError::NegativeInput)
        } else {
            None
        },
        Op::Ln => if le_zero(value) {
            Some(CalcError::NonPositiveInput)
        } else {
            None
        },
        Op::Log10 => if le_zero(value) {
            Some(CalcError::NonPositiveInput)
        } else {
            None
        },
        Op::Tan => if is_zero(aux) {
            Some(CalcError::UndefinedTangent)
        } else {
            None
        },
        Op::Factorial => if lt_zero(value) || !float_eq(value, aux) {
            Some(CalcError::InvalidFactorialInput)
        } else {
            None
        },
        _ => None,
    }
}

/// Runs the domain check of `op` on the operand encodings; `None` means the
/// operation may proceed.  See [`spec_domain_error`] for the reading of the
/// arguments.
pub fn domain_check(op: Op, b: u64, value: u64, aux: u64) -> (r: Option<CalcError>)
    ensures
        r == spec_domain_error(op, b, value, aux),
{
    match op {
        Op::Divide => if check_zero(b) {
            Some(CalcError::DivisionByZero)
        } else {
            None
        },
        Op::Reciprocal => if check_zero(value) {
            Some(CalcError::DivisionByZero)
        } else {
            None
        },
        Op::Sqrt => if check_lt_zero(value) {
            Some(CalcError::NegativeInput)
        } else {
            None
        },
        Op::Ln | Op::Log10 => if check_le_zero(value) {
            Some(CalcError::NonPositiveInput)
        } else {
            None
        },
        Op::Tan => if check_zero(aux) {
            Some(CalcError::UndefinedTangent)
        } else {
            None
        },
        Op::Factorial => if check_lt_zero(value) || !check_float_eq(value, aux) {
            Some(CalcError::InvalidFactorialInput)
        } else {
            None
        },
        _ => None,
    }
}

/// The human-readable message for a domain error, as the front ends show
/// it.  Two errors word their message by operation: a zero divisor speaks
/// of division except for the reciprocal, and a non-positive logarithm
/// operand names the natural logarithm only for `ln`.
pub open spec fn spec_error_message(op: Op, e: CalcError) -> Seq<char> {
    match e {
        CalcError::DivisionByZero => if op == Op::Reciprocal {
            "Cannot divide by zero"@
        } else {
            "Division by zero is not allowed"@
        },
        CalcError::NegativeInput => "Cannot calculate square root of negative number"@,
        CalcError::NonPositiveInput => if op == Op::Log10 {
            "Logarithm is only defined for positive numbers"@
        } else {
            "Natural logarithm is only defined for positive numbers"@
        },
        CalcError::UndefinedTangent => "Tangent is undefined for this angle"@,
        CalcError::InvalidFactorialInput => "Factorial is only defined for non-negative integers"@,
    }
}

/// Renders the message for a domain error raised by `op`.
pub fn error_message(op: Op, e: CalcError) -> (r: String)
    ensures
        r@ == spec_error_message(op, e),
{
    match e {
        CalcError::DivisionByZero => if matches!(op, Op::Reciprocal) {
            "Cannot divide by zero".to_owned()
        } else {
            "Division by zero is not allowed".to_owned()
        },
        CalcError::NegativeInput => "Cannot calculate square root of negative number".to_owned(),
        CalcError::NonPositiveInput => if matches!(op, Op::Log10) {
            "Logarithm is only defined for positive numbers".to_owned()
        } else {
            "Natural logarithm is only defined for positive numbers".to_owned()
        },
        CalcError::UndefinedTangent => "Tangent is undefined for this angle".to_owned(),
        CalcError::InvalidFactorialInput => "Factorial is only defined for non-negative integers"
            .to_owned(),
    }
}

} // verus!
