//! Post-mortem diagnostics for a windowed-register microcontroller core:
//! fault-cause decoding, a register snapshot with a stable text layout, and a
//! bounded frame-pointer stack walk.
pub mod cause;
pub mod chain;
pub mod context;
pub mod walk;
