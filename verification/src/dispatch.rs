//! Handlers and the two-level table that selects one for an instruction word.
//!
//! The class nibble of a word indexes the primary table. A primary slot names
//! either a handler or one of four secondary tables, which are indexed by the
//! lowest nibble (tables `0`, `8` and `E`) or by the low byte (table `F`).

use vstd::prelude::*;
use crate::opcode::{class_of, kk_of, n_of};

verus! {

/// Names one instruction handler.
#[derive(Clone, Copy, Debug, PartialEq, Eq, Structural)]
pub enum OpFunction {
    /// Does nothing: the handler of every unmapped slot.
    Null,
    /// Clear the display.
    Op00E0,
    /// Return from a subroutine.
    Op00EE,
    /// Jump to `nnn`.
    Op1nnn,
    /// Call the subroutine at `nnn`.
    Op2nnn,
    /// Skip the next instruction if `Vx == kk`.
    Op3xkk,
    /// Skip the next instruction if `Vx != kk`.
    Op4xkk,
    /// Skip the next instruction if `Vx == Vy`.
    Op5xy0,
    /// `Vx = kk`.
    Op6xkk,
    /// `Vx += kk`, wrapping.
    Op7xkk,
    /// `Vx = Vy`.
    Op8xy0,
    /// `Vx |= Vy`.
    Op8xy1,
    /// `Vx &= Vy`.
    Op8xy2,
    /// `Vx ^= Vy`.
    Op8xy3,
    /// `Vx += Vy` with carry in `VF`.
    Op8xy4,
    /// `Vx -= Vy` with "no borrow" in `VF`.
    Op8xy5,
    /// `Vx >>= 1` with the lost bit in `VF`.
    Op8xy6,
    /// `Vx = Vy - Vx` with "no borrow" in `VF`.
    Op8xy7,
    /// `Vx <<= 1` with the lost bit in `VF`.
    Op8xyE,
    /// Skip the next instruction if `Vx != Vy`.
    Op9xy0,
    /// `I = nnn`.
    OpAnnn,
    /// Jump to `V0 + nnn`.
    OpBnnn,
    /// `Vx = random & kk`.
    OpCxkk,
    /// Draw an `n`-row sprite at `(Vx, Vy)`.
    OpDxyn,
    /// Skip the next instruction if key `Vx` is down.
    OpEx9E,
    /// Skip the next instruction if key `Vx` is up.
    OpExA1,
    /// `Vx = delay timer`.
    OpFx07,
    /// Wait for a key and store its number in `Vx`.
    OpFx0A,
    /// `delay timer = Vx`.
    OpFx15,
    /// `sound timer = Vx`.
    OpFx18,
    /// `I += Vx`.
    OpFx1E,
    /// `I =` address of the glyph for digit `Vx`.
    OpFx29,
    /// Store the decimal digits of `Vx` at `I`, `I + 1`, `I + 2`.
    OpFx33,
    /// Store `V0..=Vx` at `I`.
    OpFx55,
    /// Load `V0..=Vx` from `I`.
    OpFx65,
}

/// What a slot of the primary table selects.
#[derive(Clone, Copy, Debug, PartialEq, Eq, Structural)]
pub enum Slot {
    /// A handler.
    Direct(OpFunction),
    /// The secondary table of class `0`, indexed by the lowest nibble.
    Table0,
    /// The secondary table of class `8`, indexed by the lowest nibble.
    Table8,
    /// The secondary table of class `E`, indexed by the lowest nibble.
    TableE,
    /// The secondary table of class `F`, indexed by the low byte.
    TableF,
}

/// Number of slots in the primary table.
pub const PRIMARY_SLOTS: usize = 16;

/// Number of slots in each secondary table that is indexed by a nibble.
pub const NIBBLE_SLOTS: usize = 15;

/// Number of slots in the secondary table that is indexed by the low byte.
pub const BYTE_SLOTS: usize = 102;

/// The slot that the standard primary table holds for a class nibble.
pub open spec fn primary_slot(class: int) -> Slot {
    if class == 0x0 {
        Slot::Table0
    } else if class == 0x1 {
        Slot::Direct(OpFunction::Op1nnn)
    } else if class == 0x2 {
        Slot::Direct(OpFunction::Op2nnn)
    } else if class == 0x3 {
        Slot::Direct(OpFunction::Op3xkk)
    } else if class == 0x4 {
        Slot::Direct(OpFunction::Op4xkk)
    } else if class == 0x5 {
        Slot::Direct(OpFunction::Op5xy0)
    } else if class == 0x6 {
        Slot::Direct(OpFunction::Op6xkk)
    } else if class == 0x7 {
        Slot::Direct(OpFunction::Op7xkk)
    } else if class == 0x8 {
        Slot::Table8
    } else if class == 0x9 {
        Slot::Direct(OpFunction::Op9xy0)
    } else if class == 0xA {
        Slot::Direct(OpFunction::OpAnnn)
    } else if class == 0xB {
        Slot::Direct(OpFunction::OpBnnn)
    } else if class == 0xC {
        Slot::Direct(OpFunction::OpCxkk)
    } else if class == 0xD {
        Slot::Direct(OpFunction::OpDxyn)
    } else if class == 0xE {
        Slot::TableE
    } else if class == 0xF {
        Slot::TableF
    } else {
        Slot::Direct(OpFunction::Null)
    }
}

/// The handler that the standard table `0` holds for a lowest nibble.
pub open spec fn table_0_slot(n: int) -> OpFunction {
    if n == 0x0 {
        OpFunction::Op00E0
    } else if n == 0xE {
        OpFunction::Op00EE
    } else {
        OpFunction::Null
    }
}

/// The handler that the standard table `8` holds for a lowest nibble.
pub open spec fn table_8_slot(n: int) -> OpFunction {
    if n == 0x0 {
        OpFunction::Op8xy0
    } else if n == 0x1 {
        OpFunction::Op8xy1
    } else if n == 0x2 {
        OpFunction::Op8xy2
    } else if n == 0x3 {
        OpFunction::Op8xy3
    } else if n == 0x4 {
        OpFunction::Op8xy4
    } else if n == 0x5 {
        OpFunction::Op8xy5
    } else if n == 0x6 {
        OpFunction::Op8xy6
    } else if n == 0x7 {
        OpFunction::Op8xy7
    } else if n == 0xE {
        OpFunction::Op8xyE
    } else {
        OpFunction::Null
    }
}

/// The handler that the standard table `E` holds for a lowest nibble.
pub open spec fn table_e_slot(n: int) -> OpFunction {
    if n == 0x1 {
        OpFunction::OpExA1
    } else if n == 0xE {
        OpFunction::OpEx9E
    } else {
        OpFunction::Null
    }
}

/// The handler that the standard table `F` holds for a low byte.
pub open spec fn table_f_slot(kk: int) -> OpFunction {
    if kk == 0x07 {
        OpFunction::OpFx07
    } else if kk == 0x0A {
        OpFunction::OpFx0A
    } else if kk == 0x15 {
        OpFunction::OpFx15
    } else if kk == 0x18 {
        OpFunction::OpFx18
    } else if kk == 0x1E {
        OpFunction::OpFx1E
    } else if kk == 0x29 {
        OpFunction::OpFx29
    } else if kk == 0x33 {
        OpFunction::OpFx33
    } else if kk == 0x55 {
        OpFunction::OpFx55
    } else if kk == 0x65 {
        OpFunction::OpFx65
    } else {
        OpFunction::Null
    }
}

/// The handler that the standard tables select for an instruction word.
pub open spec fn standard_handler(opcode: u16) -> OpFunction {
    match primary_slot(class_of(opcode)) {
        Slot::Direct(op) => op,
        Slot::Table0 => table_0_slot(n_of(opcode)),
        Slot::Table8 => table_8_slot(n_of(opcode)),
        Slot::TableE => table_e_slot(n_of(opcode)),
        Slot::TableF => table_f_slot(kk_of(opcode)),
    }
}

} // verus!
