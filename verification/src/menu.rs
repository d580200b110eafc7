//! The interactive front end's decisions: menu rendering, choice dispatch
//! and the history lines the session records.
//!
//! The interactive loop itself blocks on console input and therefore lives
//! outside the verified engine; it consults these functions for every
//! choice it dispatches and every line of text it shows or records.

use vstd::prelude::*;

use crate::ops::Op;
use crate::text::{concat4, concat5, str_eq};

verus! {

/// One top-level menu selection.
#[derive(Clone, Copy, Debug, PartialEq, Eq, Structural)]
pub enum MenuChoice {
    BasicOps,
    PowerOp,
    SqrtOp,
    TrigOps,
    LogOps,
    AngleConv,
    MemoryOps,
    HistoryView,
    Exit,
    Invalid,
}

/// One selection in the memory sub-menu.
#[derive(Clone, Copy, Debug, PartialEq, Eq, Structural)]
pub enum MemoryChoice {
    StoreValue,
    RecallValue,
    ClearValue,
}

/// The menu entry a trimmed input line selects; anything but `1`–`9` is
/// invalid.
pub open spec fn menu_choice_of(s: Seq<char>) -> MenuChoice {
    if s == "1"@ {
        MenuChoice::BasicOps
    } else if s == "2"@ {
        MenuChoice::PowerOp
    } else if s == "3"@ {
        MenuChoice::SqrtOp
    } else if s == "4"@ {
        MenuChoice::TrigOps
    } else if s == "5"@ {
        MenuChoice::LogOps
    } else if s == "6"@ {
        MenuChoice::AngleConv
    } else if s == "7"@ {
        MenuChoice::MemoryOps
    } else if s == "8"@ {
        MenuChoice::HistoryView
    } else if s == "9"@ {
        MenuChoice::Exit
    } else {
        MenuChoice::Invalid
    }
}

/// Dispatches a top-level menu input.
pub fn parse_menu_choice(s: &str) -> (r: MenuChoice)
    ensures
        r == menu_choice_of(s@),
{
    if str_eq(s, "1") {
        MenuChoice::BasicOps
    } else if str_eq(s, "2") {
        MenuChoice::PowerOp
    } else if str_eq(s, "3") {
        MenuChoice::SqrtOp
    } else if str_eq(s, "4") {
        MenuChoice::TrigOps
    } else if str_eq(s, "5") {
        MenuChoice::LogOps
    } else if str_eq(s, "6") {
        MenuChoice::AngleConv
    } else if str_eq(s, "7") {
        MenuChoice::MemoryOps
    } else if str_eq(s, "8") {
        MenuChoice::HistoryView
    } else if str_eq(s, "9") {
        MenuChoice::Exit
    } else {
        MenuChoice::Invalid
    }
}

/// The basic-operations sub-menu: `1`–`4` select the four arithmetic
/// operations.
pub open spec fn basic_choice_of(s: Seq<char>) -> Option<Op> {
    if s == "1"@ {
        Some(Op::Add)
    } else if s == "2"@ {
        Some(Op::Subtract)
    } else if s == "3"@ {
        Some(Op::Multiply)
    } else if s == "4"@ {
        Some(Op::Divide)
    } else {
        None
    }
}

/// Dispatches a basic-operations sub-menu input.
pub fn parse_basic_choice(s: &str) -> (r: Option<Op>)
    ensures
        r == basic_choice_of(s@),
{
    if str_eq(s, "1") {
        Some(Op::Add)
    } else if str_eq(s, "2") {
        Some(Op::Subtract)
    } else if str_eq(s, "3") {
        Some(Op::Multiply)
    } else if str_eq(s, "4") {
        Some(Op::Divide)
    } else {
        None
    }
}

/// The trigonometry sub-menu: `1`–`3` select sine, cosine, tangent.
pub open spec fn trig_choice_of(s: Seq<char>) -> Option<Op> {
    if s == "1"@ {
        Some(Op::Sin)
    } else if s == "2"@ {
        Some(Op::Cos)
    } else if s == "3"@ {
        Some(Op::Tan)
    } else {
        None
    }
}

/// Dispatches a trigonometry sub-menu input.
pub fn parse_trig_choice(s: &str) -> (r: Option<Op>)
    ensures
        r == trig_choice_of(s@),
{
    if str_eq(s, "1") {
        Some(Op::Sin)
    } else if str_eq(s, "2") {
        Some(Op::Cos)
    } else if str_eq(s, "3") {
        Some(Op::Tan)
    } else {
        None
    }
}

/// The logarithm sub-menu: `1` selects the natural logarithm, `2` the
/// base-10 logarithm.
pub open spec fn log_choice_of(s: Seq<char>) -> Option<Op> {
    if s == "1"@ {
        Some(Op::Ln)
    } else if s == "2"@ {
        Some(Op::Log10)
    } else {
        None
    }
}

/// Dispatches a logarithm sub-menu input.
pub fn parse_log_choice(s: &str) -> (r: Option<Op>)
    ensures
        r == log_choice_of(s@),
{
    if str_eq(s, "1") {
        Some(Op::Ln)
    } else if str_eq(s, "2") {
        Some(Op::Log10)
    } else {
        None
    }
}

/// The angle-conversion sub-menu: `1` converts degrees to radians, `2` the
/// other way.
pub open spec fn angle_choice_of(s: Seq<char>) -> Option<Op> {
    if s == "1"@ {
        Some(Op::DegreesToRadians)
    } else if s == "2"@ {
        Some(Op::RadiansToDegrees)
    } else {
        None
    }
}

/// Dispatches an angle-conversion sub-menu input.
pub fn parse_angle_choice(s: &str) -> (r: Option<Op>)
    ensures
        r == angle_choice_of(s@),
{
    if str_eq(s, "1") {
        Some(Op::DegreesToRadians)
    } else if str_eq(s, "2") {
        Some(Op::RadiansToDegrees)
    } else {
        None
    }
}

/// The memory sub-menu: store, recall, clear.
pub open spec fn memory_choice_of(s: Seq<char>) -> Option<MemoryChoice> {
    if s == "1"@ {
        Some(MemoryChoice::StoreValue)
    } else if s == "2"@ {
        Some(MemoryChoice::RecallValue)
    } else if s == "3"@ {
        Some(MemoryChoice::ClearValue)
    } else {
        None
    }
}

/// Dispatches a memory sub-menu input.
pub fn parse_memory_choice(s: &str) -> (r: Option<MemoryChoice>)
    ensures
        r == memory_choice_of(s@),
{
    if str_eq(s, "1") {
        Some(MemoryChoice::StoreValue)
    } else if str_eq(s, "2") {
        Some(MemoryChoice::RecallValue)
    } else if str_eq(s, "3") {
        Some(MemoryChoice::ClearValue)
    } else {
        None
    }
}

/// The operations the interactive session records in the history after a
/// successful computation.
pub open spec fn menu_logs(op: Op) -> bool {
    match op {
        Op::Add => true,
        Op::Subtract => true,
        Op::Multiply => true,
        Op::Divide => true,
        Op::Power => true,
        Op::Sqrt => true,
        Op::Sin => true,
        Op::Cos => true,
        Op::Tan => true,
        Op::Ln => true,
        Op::Log10 => true,
        Op::DegreesToRadians => true,
        Op::RadiansToDegrees => true,
        _ => false,
    }
}

/// The history line the interactive session records for `op`, built from
/// the rendered operands and the rendered result.
pub open spec fn spec_session_line(
    op: Op,
    a: Seq<char>,
    b: Seq<char>,
    value: Seq<char>,
    result: Seq<char>,
) -> Seq<char> {
    match op {
        Op::Add => a + " + "@ + b + " = "@ + result,
        Op::Subtract => a + " - "@ + b + " = "@ + result,
        Op::Multiply => a + " * "@ + b + " = "@ + result,
        Op::Divide => a + " / "@ + b + " = "@ + result,
        Op::Power => a + " ^ "@ + b + " = "@ + result,
        Op::Sqrt => "√"@ + value + " = "@ + result,
        Op::Sin => "sin("@ + value + "°) = "@ + result,
        Op::Cos => "cos("@ + value + "°) = "@ + result,
        Op::Tan => "tan("@ + value + "°) = "@ + result,
        Op::Ln => "ln("@ + value + ") = "@ + result,
        Op::Log10 => "log10("@ + value + ") = "@ + result,
        Op::DegreesToRadians => value + "° = "@ + result + " radians"@,
        Op::RadiansToDegrees => value + " radians = "@ + result + "°"@,
        _ => Seq::<char>::empty(),
    }
}

/// Builds the history line the interactive session records for `op`.
pub fn session_line(op: Op, a: &str, b: &str, value: &str, result: &str) -> (r: String)
    requires
        menu_logs(op),
    ensures
        r@ == spec_session_line(op, a@, b@, value@, result@),
{
    match op {
        Op::Add => concat5(a, " + ", b, " = ", result),
        Op::Subtract => concat5(a, " - ", b, " = ", result),
        Op::Multiply => concat5(a, " * ", b, " = ", result),
        Op::Divide => concat5(a, " / ", b, " = ", result),
        Op::Power => concat5(a, " ^ ", b, " = ", result),
        Op::Sqrt => concat4("√", value, " = ", result),
        Op::Sin => concat4("sin(", value, "°) = ", result),
        Op::Cos => concat4("cos(", value, "°) = ", result),
        Op::Tan => concat4("tan(", value, "°) = ", result),
        Op::Ln => concat4("ln(", value, ") = ", result),
        Op::Log10 => concat4("log10(", value, ") = ", result),
        Op::DegreesToRadians => concat4(value, "° = ", result, " radians"),
        _ => concat4(value, " radians = ", result, "°"),
    }
}

/// The lines of the top-level menu, exactly as the session shows them.
pub fn menu_lines() -> (r: Vec<String>)
    ensures
        r.deep_view() == seq![
            "=== Scientific Calculator ==="@,
            "1. Basic Operations (+, -, *, /)"@,
            "2. Power"@,
            "3. Square Root"@,
            "4. Trigonometric Functions"@,
            "5. Logarithms"@,
            "6. Angle Conversion"@,
            "7. Memory Operations"@,
            "8. Show History"@,
            "9. Exit"@,
            "============================="@,
        ],
{
    let mut lines: Vec<String> = Vec::new();
    lines.push("=== Scientific Calculator ===".to_owned());
    lines.push("1. Basic Operations (+, -, *, /)".to_owned());
    lines.push("2. Power".to_owned());
    lines.push("3. Square Root".to_owned());
    lines.push("4. Trigonometric Functions".to_owned());
    lines.push("5. Logarithms".to_owned());
    lines.push("6. Angle Conversion".to_owned());
    lines.push("7. Memory Operations".to_owned());
    lines.push("8. Show History".to_owned());
    lines.push("9. Exit".to_owned());
    lines.push("=============================".to_owned());
    proof {
        assert(lines.deep_view() =~= seq![
            "=== Scientific Calculator ==="@,
            "1. Basic Operations (+, -, *, /)"@,
            "2. Power"@,
            "3. Square Root"@,
            "4. Trigonometric Functions"@,
            "5. Logarithms"@,
            "6. Angle Conversion"@,
            "7. Memory Operations"@,
            "8. Show History"@,
            "9. Exit"@,
            "============================="@,
        ]);
    }
    lines
}

} // verus!
