//! A verified scientific-calculator engine.
//!
//! The engine performs arithmetic, trigonometric, logarithmic and
//! angle-conversion operations, keeps a single memory register, and records a
//! bounded log of recent operations.  Every decision the engine makes —
//! which operations exist, which operands they need, when a domain check
//! fails and with which message, how expressions and history lines are
//! rendered, how the history evicts its oldest entry — is implemented and
//! proved here.
//!
//! Floating-point arithmetic itself cannot be verified; the engine therefore
//! works on the 64-bit IEEE-754 encodings of its operands (see [`fbits`]),
//! and the thin front ends perform the actual `f64` computations, consulting
//! the engine for every check and every piece of rendered text.

pub mod domain;
pub mod engine;
pub mod factorial;
pub mod fbits;
pub mod menu;
pub mod ops;
pub mod response;
pub mod text;
