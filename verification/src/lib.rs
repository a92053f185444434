//! An interpreter for a fixed 8-bit virtual machine with a 4096-byte memory,
//! sixteen byte registers, a sixteen-level call stack, two countdown timers,
//! a sixteen-key pad and a 64 by 32 monochrome display.
//!
//! [`Emulator`] owns the whole machine and advances it one instruction per
//! call. Its contracts are stated over [`MachineState`], the mathematical
//! model of the machine, and over the transition functions of the `model`
//! module.

pub mod alu;
pub mod display;
pub mod font;
pub mod instruction;
pub mod keypad;
pub mod laws;
pub mod machine;
pub mod model;
mod rng;

pub use alu::{add_with_carry, shift_left, shift_right, subtract_with_borrow};
pub use display::{pixel_position, SCREEN_HEIGHT, SCREEN_WIDTH};
pub use font::{FONTSET, FONTSET_SIZE};
pub use instruction::{decode, Instruction};
pub use keypad::keypress_to_button_code;
pub use machine::Emulator;
pub use model::{Fault, MachineState};
