//! Machine-mode runtime logic for a single RISC-V hart: early boot steps,
//! the diagnostic logger, trap delegation and memory protection, the
//! supervisor dispatch state machine and the final power action.
//!
//! Every decision is a verified function from plain values to plain values;
//! the code that touches registers and devices lives outside this library.

pub mod boot;
pub mod delegation;
pub mod dispatch;
pub mod heap;
pub mod logging;
pub mod pmp;
pub mod power;
