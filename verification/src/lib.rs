//! An interpreter core for the CHIP-8 virtual machine.
//!
//! The crate holds the machine state, the instruction decoder and the
//! fetch-decode-execute cycle. Windowing, keyboard polling and pacing are
//! left to the host program, which drives one cycle per loop iteration and
//! exchanges plain values with the core.
//!
//! - `machine` is the mathematical model: the state and what a cycle makes
//!   of it.
//! - `opcodes` decodes instruction words.
//! - `chip_eight` is the interpreter, proved to do what the model says.
//! - `user_interface` maps the keyboard to the keypad and the display to
//!   squares of a window.
//! - `laws` proves what holds of every state and every program.
use vstd::prelude::*;

pub mod chip_eight;
pub mod laws;
pub mod machine;
pub mod opcodes;
mod random;
pub mod user_interface;

verus! {

/// Number of pixel columns of the display.
pub const DISPLAY_WIDTH: usize = 64;

/// Number of pixel rows of the display.
pub const DISPLAY_HEIGHT: usize = 32;

/// Number of cells of the display buffer, one per pixel, row after row.
pub const DISPLAY_SIZE: usize = 2048;

} // verus!
