//! Conditions under which an instruction cannot be executed.

use vstd::prelude::*;

verus! {

/// Why the machine cannot execute its next instruction.
#[derive(Clone, Copy, Debug, PartialEq, Eq, Structural)]
pub enum Fault {
    /// The program counter would leave the range in which an instruction can
    /// be fetched or the range of a 16-bit value.
    ProgramCounter,
    /// A call with all sixteen stack slots in use, or a return with a stack
    /// pointer above sixteen.
    StackOverflow,
    /// A return with no call outstanding.
    StackUnderflow,
    /// An access through the index register beyond the end of memory.
    MemoryAccess,
    /// A sprite pixel beyond the last cell of the display.
    DisplayAccess,
    /// A key number above fifteen.
    Keypad,
    /// An addition to the index register beyond its 32 bits.
    IndexOverflow,
}

/// Why a program image cannot be loaded.
#[derive(Clone, Copy, Debug, PartialEq, Eq, Structural)]
pub enum LoadError {
    /// The image has more bytes than program space, which runs from 0x200
    /// to the end of memory.
    TooLarge,
}

} // verus!
