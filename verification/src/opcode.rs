//! Fields of a 16-bit instruction word.
//!
//! A word is four nibbles, high to low: the class, `x`, `y` and `n`. The low
//! byte is `kk` and the low twelve bits are `nnn`. The specification
//! functions give each field arithmetically; the executable ones extract it
//! with masks and shifts and are proved to agree.

use vstd::prelude::*;

verus! {

/// The class of an instruction: its highest nibble.
pub open spec fn class_of(opcode: u16) -> int {
    opcode as int / 4096
}

/// The second nibble: the index of register `Vx`.
pub open spec fn x_of(opcode: u16) -> int {
    (opcode as int / 256) % 16
}

/// The third nibble: the index of register `Vy`.
pub open spec fn y_of(opcode: u16) -> int {
    (opcode as int / 16) % 16
}

/// The lowest nibble.
pub open spec fn n_of(opcode: u16) -> int {
    opcode as int % 16
}

/// The low byte.
pub open spec fn kk_of(opcode: u16) -> int {
    opcode as int % 256
}

/// The low twelve bits.
pub open spec fn nnn_of(opcode: u16) -> int {
    opcode as int % 4096
}

/// The word whose high byte is `hi` and whose low byte is `lo`.
pub open spec fn word_of(hi: u8, lo: u8) -> int {
    hi as int * 256 + lo as int
}

pub fn class(opcode: u16) -> (c: usize)
    ensures
        c == class_of(opcode),
        c < 16,
{
    assert((opcode & 0xF000) >> 12 == opcode / 4096) by (bit_vector);
    ((opcode & 0xF000) >> 12) as usize
}

pub fn x(opcode: u16) -> (x: usize)
    ensures
        x == x_of(opcode),
        x < 16,
{
    assert((opcode & 0x0F00) >> 8 == (opcode / 256) % 16) by (bit_vector);
    ((opcode & 0x0F00) >> 8) as usize
}

pub fn y(opcode: u16) -> (y: usize)
    ensures
        y == y_of(opcode),
        y < 16,
{
    assert((opcode & 0x00F0) >> 4 == (opcode / 16) % 16) by (bit_vector);
    ((opcode & 0x00F0) >> 4) as usize
}

pub fn n(opcode: u16) -> (n: usize)
    ensures
        n == n_of(opcode),
        n < 16,
{
    assert(opcode & 0x000F == opcode % 16) by (bit_vector);
    (opcode & 0x000F) as usize
}

pub fn kk(opcode: u16) -> (kk: u8)
    ensures
        kk == kk_of(opcode),
{
    assert(opcode & 0x00FF == opcode % 256) by (bit_vector);
    (opcode & 0x00FF) as u8
}

pub fn nnn(opcode: u16) -> (nnn: u16)
    ensures
        nnn == nnn_of(opcode),
        nnn < 4096,
{
    assert(opcode & 0x0FFF == opcode % 4096) by (bit_vector);
    opcode & 0x0FFF
}

/// Combines two bytes, the high one first, into a word.
pub fn word(hi: u8, lo: u8) -> (w: u16)
    ensures
        w == word_of(hi, lo),
{
    assert(((hi as u16) << 8) | (lo as u16) == (hi as u16) * 256 + (lo as u16)) by (bit_vector);
    ((hi as u16) << 8) | (lo as u16)
}

} // verus!
