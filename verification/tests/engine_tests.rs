// The stateful engine: factorial, the memory register and the bounded
// history with first-in-first-out eviction.

use sci_calc::engine::Calculator;
use sci_calc::factorial::factorial;

#[test]
fn factorial_base_cases() {
    assert_eq!(factorial(0), 1);
    assert_eq!(factorial(1), 1);
}

#[test]
fn factorial_of_five_is_120() {
    assert_eq!(factorial(5), 120);
}

#[test]
fn factorial_largest_exact_value() {
    assert_eq!(factorial(20), 2_432_902_008_176_640_000);
}

#[test]
fn factorial_wraps_past_twenty() {
    // 21! = 51090942171709440000, which exceeds 2^64 and wraps.
    assert_eq!(factorial(21), 51090942171709440000u128 as u64);
    assert_eq!(factorial(21), 14197454024290336768);
}

#[test]
fn new_engine_is_empty() {
    let c = Calculator::new();
    assert_eq!(c.recall_memory(), 0);
    assert_eq!(f64::from_bits(c.recall_memory()), 0.0);
    assert_eq!(c.history_len(), 0);
}

#[test]
fn history_keeps_ten_lines_and_evicts_the_oldest() {
    let mut c = Calculator::new();
    for i in 1..=11 {
        let line = format!("line{}", i);
        c.add_to_history(&line);
    }
    assert_eq!(c.history_len(), 10);
    assert_eq!(c.history_line(0).as_str(), "line2");
    assert_eq!(c.history_line(9).as_str(), "line11");
}

#[test]
fn history_below_capacity_keeps_everything() {
    let mut c = Calculator::new();
    for i in 1..=10 {
        let line = format!("line{}", i);
        c.add_to_history(&line);
    }
    assert_eq!(c.history_len(), 10);
    assert_eq!(c.history_line(0).as_str(), "line1");
    assert_eq!(c.history_line(9).as_str(), "line10");
}

#[test]
fn store_memory_overwrites_and_logs() {
    let mut c = Calculator::new();
    let v: f64 = 2.5;
    c.store_memory(v.to_bits(), &format!("{}", v));
    assert_eq!(f64::from_bits(c.recall_memory()), 2.5);
    assert_eq!(c.history_len(), 1);
    assert_eq!(c.history_line(0).as_str(), "Stored 2.5 in memory");
}

#[test]
fn clear_memory_resets_and_logs() {
    let mut c = Calculator::new();
    let v: f64 = -7.25;
    c.store_memory(v.to_bits(), &format!("{}", v));
    c.clear_memory();
    assert_eq!(f64::from_bits(c.recall_memory()), 0.0);
    assert_eq!(c.history_len(), 2);
    assert_eq!(c.history_line(0).as_str(), "Stored -7.25 in memory");
    assert_eq!(c.history_line(1).as_str(), "Memory cleared");
}

#[test]
fn recall_memory_leaves_no_history_entry() {
    let mut c = Calculator::new();
    let v: f64 = 3.0;
    c.store_memory(v.to_bits(), &format!("{}", v));
    let before = c.history_len();
    let _ = c.recall_memory();
    assert_eq!(c.history_len(), before);
}

#[test]
fn show_history_renders_empty_message() {
    let c = Calculator::new();
    let lines = c.show_history();
    assert_eq!(
        lines,
        vec![
            "=== Calculation History ===".to_string(),
            "No operations in history".to_string(),
            "==========================".to_string(),
        ]
    );
}

#[test]
fn show_history_renders_two_digit_ordinals() {
    let mut c = Calculator::new();
    for i in 1..=10 {
        let line = format!("line{}", i);
        c.add_to_history(&line);
    }
    let lines = c.show_history();
    assert_eq!(lines.len(), 12);
    assert_eq!(lines[1], "1. line1");
    assert_eq!(lines[10], "10. line10");
}

#[test]
fn show_history_numbers_entries_from_one() {
    let mut c = Calculator::new();
    c.add_to_history("2 + 3 = 5");
    c.add_to_history("√16 = 4");
    let lines = c.show_history();
    assert_eq!(
        lines,
        vec![
            "=== Calculation History ===".to_string(),
            "1. 2 + 3 = 5".to_string(),
            "2. √16 = 4".to_string(),
            "==========================".to_string(),
        ]
    );
}
