//! An interpreter core for the CHIP-8 virtual machine: registers, memory,
//! call stack, timers, keypad snapshot and a 64x32 monochrome display, driven
//! one instruction at a time.
//!
//! Every executable function carries a contract over the mathematical model
//! of the machine defined in [`state`], and Verus proves each body against it.

pub mod constants;
pub mod opcode;
pub mod dispatch;
pub mod display;
pub mod fault;
pub mod state;
mod random;
pub mod chip8;
pub mod instructions;
pub mod platform;
pub mod laws;

pub use constants::{
    FONTSET, FONTSET_SIZE, FONTSET_START_ADDRESS, START_ADDRESS, VIDEO_HEIGHT, VIDEO_WIDTH,
};
pub use chip8::{config_chip8_tables, Chip8};
pub use dispatch::{OpFunction, Slot};
pub use fault::{Fault, LoadError};
pub use platform::{key_map, process_input, InputEvent};
