//! The instruction set: one function per instruction, each reading its
//! operands from the current instruction word.
//!
//! Three rules hold throughout. An instruction that sets a flag reads its
//! operands first, then writes the flag to `VF`, then writes its result to
//! `Vx`; with `x = F` the result therefore replaces the flag. An instruction
//! that could reach beyond an array of the machine or beyond the range of a
//! register excludes that in its `requires`: such a state is a fault, which
//! `Chip8::fault_of` detects. And no instruction changes anything that its
//! contract does not name.

use vstd::prelude::*;
use crate::chip8::Chip8;
use crate::constants::{FONTSET_START_ADDRESS, PIXEL_ON, VIDEO_HEIGHT, VIDEO_WIDTH};
use crate::display::{
    collides, covers, draw, fits, lemma_draw_next_row, lemma_draw_nothing, sprite_bit,
};
use crate::opcode;
use crate::opcode::n_of;
use crate::random::random_byte;
use crate::state::{first_pressed, State};

verus! {

#[allow(non_snake_case)]
impl Chip8 {
    /// CLS: turns every display cell off.
    pub fn OP_00E0(&mut self)
        ensures
            final(self)@ == old(self)@.op_00e0(),
    {
        self.display = [0; 2048];
    }

    /// RET: pops the newest return address into the program counter.
    pub fn OP_00EE(&mut self)
        requires
            0 < old(self).sp <= 16,
        ensures
            final(self)@ == old(self)@.op_00ee(),
    {
        self.sp -= 1;
        self.pc = self.stack[self.sp as usize];
    }

    /// JP addr: jumps to `nnn`.
    pub fn OP_1nnn(&mut self)
        ensures
            final(self)@ == old(self)@.op_1nnn(),
    {
        self.pc = opcode::nnn(self.opcode);
    }

    /// CALL addr: pushes the program counter and jumps to `nnn`.
    pub fn OP_2nnn(&mut self)
        requires
            old(self).sp < 16,
        ensures
            final(self)@ == old(self)@.op_2nnn(),
    {
        let address = opcode::nnn(self.opcode);
        self.stack[self.sp as usize] = self.pc;
        self.sp += 1;
        self.pc = address;
    }

    /// SE Vx, byte: skips the next instruction if `Vx == kk`.
    pub fn OP_3xkk(&mut self)
        requires
            old(self)@.vx() == old(self)@.kk() ==> old(self).pc <= 0xFFFD,
        ensures
            final(self)@ == old(self)@.op_3xkk(),
    {
        let vx = opcode::x(self.opcode);
        let byte = opcode::kk(self.opcode);
        if self.registers[vx] == byte {
            self.pc += 2;
        }
    }

    /// SNE Vx, byte: skips the next instruction if `Vx != kk`.
    pub fn OP_4xkk(&mut self)
        requires
            old(self)@.vx() != old(self)@.kk() ==> old(self).pc <= 0xFFFD,
        ensures
            final(self)@ == old(self)@.op_4xkk(),
    {
        let vx = opcode::x(self.opcode);
        let byte = opcode::kk(self.opcode);
        if self.registers[vx] != byte {
            self.pc += 2;
        }
    }

    /// SE Vx, Vy: skips the next instruction if `Vx == Vy`.
    pub fn OP_5xy0(&mut self)
        requires
            old(self)@.vx() == old(self)@.vy() ==> old(self).pc <= 0xFFFD,
        ensures
            final(self)@ == old(self)@.op_5xy0(),
    {
        let vx = opcode::x(self.opcode);
        let vy = opcode::y(self.opcode);
        if self.registers[vx] == self.registers[vy] {
            self.pc += 2;
        }
    }

    /// LD Vx, byte: `Vx = kk`.
    pub fn OP_6xkk(&mut self)
        ensures
            final(self)@ == old(self)@.op_6xkk(),
    {
        let vx = opcode::x(self.opcode);
        let byte = opcode::kk(self.opcode);
        self.registers[vx] = byte;
    }

    /// ADD Vx, byte: `Vx = (Vx + kk) mod 256`; no flag is touched.
    pub fn OP_7xkk(&mut self)
        ensures
            final(self)@ == old(self)@.op_7xkk(),
    {
        let vx = opcode::x(self.opcode);
        let byte = opcode::kk(self.opcode);
        self.registers[vx] = self.registers[vx].wrapping_add(byte);
    }

    /// LD Vx, Vy: `Vx = Vy`.
    pub fn OP_8xy0(&mut self)
        ensures
            final(self)@ == old(self)@.op_8xy0(),
    {
        let vx = opcode::x(self.opcode);
        let vy = opcode::y(self.opcode);
        self.registers[vx] = self.registers[vy];
    }

    /// OR Vx, Vy: `Vx = Vx | Vy`; no flag is touched.
    pub fn OP_8xy1(&mut self)
        ensures
            final(self)@ == old(self)@.op_8xy1(),
    {
        let vx = opcode::x(self.opcode);
        let vy = opcode::y(self.opcode);
        self.registers[vx] |= self.registers[vy];
    }

    /// AND Vx, Vy: `Vx = Vx & Vy`; no flag is touched.
    pub fn OP_8xy2(&mut self)
        ensures
            final(self)@ == old(self)@.op_8xy2(),
    {
        let vx = opcode::x(self.opcode);
        let vy = opcode::y(self.opcode);
        self.registers[vx] &= self.registers[vy];
    }

    /// XOR Vx, Vy: `Vx = Vx ^ Vy`; no flag is touched.
    pub fn OP_8xy3(&mut self)
        ensures
            final(self)@ == old(self)@.op_8xy3(),
    {
        let vx = opcode::x(self.opcode);
        let vy = opcode::y(self.opcode);
        self.registers[vx] ^= self.registers[vy];
    }

    /// ADD Vx, Vy: `VF` becomes 1 if the sum exceeds 255, else 0, and then
    /// `Vx` becomes the sum modulo 256. With `x = F` the sum therefore
    /// replaces the flag.
    pub fn OP_8xy4(&mut self)
        ensures
            final(self)@ == old(self)@.op_8xy4(),
            final(self).registers@[old(self)@.x()] == (old(self)@.vx() + old(self)@.vy()) % 256,
            old(self)@.x() != 0xF ==> (final(self).registers@[0xF] == 1 <==> old(self)@.vx() + old(
                self,
            )@.vy() > 255),
            old(self)@.x() != 0xF ==> final(self).registers@[0xF] <= 1,
    {
        let vx = opcode::x(self.opcode);
        let vy = opcode::y(self.opcode);
        let sum: u16 = self.registers[vx] as u16 + self.registers[vy] as u16;
        if sum > 255 {
            self.registers[0xF] = 1;
        } else {
            self.registers[0xF] = 0;
        }
        self.registers[vx] = (sum % 256) as u8;
    }

    /// SUB Vx, Vy: `VF` becomes 1 if `Vx >= Vy`, else 0, and then `Vx`
    /// becomes `(Vx - Vy) mod 256`. With `x = F` the difference therefore
    /// replaces the flag.
    pub fn OP_8xy5(&mut self)
        ensures
            final(self)@ == old(self)@.op_8xy5(),
            final(self).registers@[old(self)@.x()] == (old(self)@.vx() - old(self)@.vy()) % 256,
            old(self)@.x() != 0xF ==> (final(self).registers@[0xF] == 1 <==> old(self)@.vx()
                >= old(self)@.vy()),
            old(self)@.x() != 0xF ==> final(self).registers@[0xF] <= 1,
    {
        let vx = opcode::x(self.opcode);
        let vy = opcode::y(self.opcode);
        let minuend = self.registers[vx];
        let subtrahend = self.registers[vy];
        if minuend >= subtrahend {
            self.registers[0xF] = 1;
        } else {
            self.registers[0xF] = 0;
        }
        self.registers[vx] = minuend.wrapping_sub(subtrahend);
    }

    /// SHR Vx: `VF` becomes bit 0 of `Vx`, and then `Vx` becomes `Vx >> 1`.
    /// With `x = F` the shifted value therefore replaces the flag.
    pub fn OP_8xy6(&mut self)
        ensures
            final(self)@ == old(self)@.op_8xy6(),
            final(self).registers@[old(self)@.x()] == old(self)@.vx() >> 1u8,
            final(self).registers@[old(self)@.x()] == old(self)@.vx() / 2,
            old(self)@.x() != 0xF ==> final(self).registers@[0xF] == old(self)@.vx() & 1u8,
            old(self)@.x() != 0xF ==> final(self).registers@[0xF] == old(self)@.vx() % 2,
    {
        let vx = opcode::x(self.opcode);
        let value = self.registers[vx];
        assert(value & 1u8 == value % 2 && value >> 1u8 == value / 2) by (bit_vector);
        self.registers[0xF] = value & 0x1;
        self.registers[vx] = value >> 1;
    }

    /// SUBN Vx, Vy: `VF` becomes 1 if `Vy >= Vx`, else 0, and then `Vx`
    /// becomes `(Vy - Vx) mod 256`. With `x = F` the difference therefore
    /// replaces the flag.
    pub fn OP_8xy7(&mut self)
        ensures
            final(self)@ == old(self)@.op_8xy7(),
            final(self).registers@[old(self)@.x()] == (old(self)@.vy() - old(self)@.vx()) % 256,
            old(self)@.x() != 0xF ==> (final(self).registers@[0xF] == 1 <==> old(self)@.vy()
                >= old(self)@.vx()),
            old(self)@.x() != 0xF ==> final(self).registers@[0xF] <= 1,
    {
        let vx = opcode::x(self.opcode);
        let vy = opcode::y(self.opcode);
        let minuend = self.registers[vy];
        let subtrahend = self.registers[vx];
        if minuend >= subtrahend {
            self.registers[0xF] = 1;
        } else {
            self.registers[0xF] = 0;
        }
        self.registers[vx] = minuend.wrapping_sub(subtrahend);
    }

    /// SHL Vx: `VF` becomes bit 7 of `Vx`, and then `Vx` becomes
    /// `(Vx << 1) mod 256`. With `x = F` the shifted value therefore replaces
    /// the flag.
    pub fn OP_8xyE(&mut self)
        ensures
            final(self)@ == old(self)@.op_8xye(),
            final(self).registers@[old(self)@.x()] == old(self)@.vx() << 1u8,
            final(self).registers@[old(self)@.x()] == (old(self)@.vx() * 2) % 256,
            old(self)@.x() != 0xF ==> final(self).registers@[0xF] == (old(self)@.vx() & 0x80u8)
                >> 7u8,
            old(self)@.x() != 0xF ==> final(self).registers@[0xF] == old(self)@.vx() / 128,
    {
        let vx = opcode::x(self.opcode);
        let value = self.registers[vx];
        assert((value & 0x80u8) >> 7u8 == value / 128 && value << 1u8 == (value * 2) % 256)
            by (bit_vector);
        self.registers[0xF] = (value & 0x80) >> 7;
        self.registers[vx] = value << 1;
    }

    /// SNE Vx, Vy: skips the next instruction if `Vx != Vy`.
    pub fn OP_9xy0(&mut self)
        requires
            old(self)@.vx() != old(self)@.vy() ==> old(self).pc <= 0xFFFD,
        ensures
            final(self)@ == old(self)@.op_9xy0(),
    {
        let vx = opcode::x(self.opcode);
        let vy = opcode::y(self.opcode);
        if self.registers[vx] != self.registers[vy] {
            self.pc += 2;
        }
    }

    /// LD I, addr: `I = nnn`.
    pub fn OP_Annn(&mut self)
        ensures
            final(self)@ == old(self)@.op_annn(),
    {
        self.index = opcode::nnn(self.opcode) as u32;
    }

    /// JP V0, addr: jumps to `V0 + nnn`.
    pub fn OP_Bnnn(&mut self)
        ensures
            final(self)@ == old(self)@.op_bnnn(),
    {
        let address = opcode::nnn(self.opcode);
        self.pc = self.registers[0] as u16 + address;
    }

    /// The deterministic part of RND: `Vx = random & kk` for a byte that
    /// the caller supplies.
    pub fn store_masked(&mut self, random: u8)
        ensures
            final(self)@ == old(self)@.op_cxkk(random),
    {
        let vx = opcode::x(self.opcode);
        let byte = opcode::kk(self.opcode);
        self.registers[vx] = random & byte;
    }

    /// RND Vx, byte: `Vx = random & kk` for a freshly drawn random byte.
    /// Whatever byte is drawn, only `Vx` changes.
    pub fn OP_Cxkk(&mut self)
        ensures
            exists|random: u8| final(self)@ == #[trigger] old(self)@.op_cxkk(random),
    {
        let random = random_byte();
        self.store_masked(random);
        assert(self@ == old(self)@.op_cxkk(random));
    }

    /// Inverts the display cells under the set pixels of one sprite row
    /// whose leftmost pixel lies on cell `start`, and tells whether a cell
    /// that was on went off.
    fn draw_row(&mut self, row: u8, start: usize) -> (hit: bool)
        requires
            fits(2048, seq![row], start as int),
        ensures
            final(self)@ == (State {
                display: draw(old(self).display@, seq![row], start as int),
                ..old(self)@
            }),
            hit == collides(old(self).display@, seq![row], start as int),
    {
        let ghost before = self.display@;
        let ghost sprite = seq![row];
        let mut hit = false;
        let mut column: u8 = 0;
        while column < 8
            invariant
                column <= 8,
                before == old(self).display@,
                sprite == seq![row],
                fits(2048, sprite, start as int),
                self@ == (State { display: self.display@, ..old(self)@ }),
                forall|cell: int|
                    #![trigger before[cell]]
                    0 <= cell < 2048 ==> self.display@[cell] == if cell < start + column && covers(
                        sprite,
                        start as int,
                        cell,
                    ) {
                        before[cell] ^ 0xFFFF_FFFFu32
                    } else {
                        before[cell]
                    },
                hit <==> exists|cell: int|
                    0 <= cell < start + column && #[trigger] covers(sprite, start as int, cell)
                        && before[cell] == 0xFFFF_FFFFu32,
            decreases 8 - column,
        {
            let ghost cell = start + column;
            let ghost old_display = self.display@;
            assert((cell - start) / 64 == 0 && (cell - start) % 64 == column);
            assert(covers(sprite, start as int, cell) <==> sprite_bit(row, column as int));
            if row & (0x80u8 >> column) != 0 {
                let at = start + column as usize;
                if self.display[at] == PIXEL_ON {
                    hit = true;
                }
                self.display[at] ^= PIXEL_ON;
            }
            assert forall|other: int| 0 <= other < 2048 implies self.display@[other] == if other
                < start + column + 1 && covers(sprite, start as int, other) {
                before[other] ^ 0xFFFF_FFFFu32
            } else {
                before[other]
            } by {
                if other != cell {
                    assert(self.display@[other] == old_display[other]);
                }
            }
            column += 1;
        }
        proof {
            assert forall|cell: int| covers(sprite, start as int, cell) implies cell < start
                + 8 by {
                let offset = cell - start;
                assert(offset / 64 == 0);
            }
            assert(self.display@ =~= draw(before, sprite, start as int));
        }
        hit
    }

    /// DRW Vx, Vy, nibble: draws the `n`-row sprite stored at `I` with its
    /// top-left pixel at column `Vx mod 64` of line `Vy mod 32`.
    ///
    /// Each set sprite pixel inverts one display cell. Rows that would lie
    /// below the last line are not drawn. `VF` becomes 1 if any cell that
    /// was on went off, else 0.
    ///
    /// Columns are not clipped: a row that starts right of column 56 runs on
    /// into the next line. The rows that are drawn must lie in memory, and
    /// on the last line no set pixel may lie past the last cell.
    pub fn OP_Dxyn(&mut self)
        requires
            old(self)@.sprite_rows() > 0 ==> old(self).index + old(self)@.sprite_rows() <= 4096,
            fits(2048, old(self)@.sprite(), old(self)@.sprite_origin()),
        ensures
            final(self)@ == old(self)@.op_dxyn(),
    {
        let vx = opcode::x(self.opcode);
        let vy = opcode::y(self.opcode);
        let height = opcode::n(self.opcode);
        let x_pos = (self.registers[vx] % VIDEO_WIDTH) as usize;
        let y_pos = (self.registers[vy] % VIDEO_HEIGHT) as usize;
        let ghost sprite = self@.sprite();
        let ghost origin = self@.sprite_origin();
        let ghost before = self.display@;
        self.registers[0xF] = 0;
        proof {
            lemma_draw_nothing(before, origin);
            assert(sprite.take(0) =~= Seq::<u8>::empty());
        }
        let mut row: usize = 0;
        while row < height && y_pos + row < VIDEO_HEIGHT as usize
            invariant
                row <= sprite.len() == old(self)@.sprite_rows(),
                height == n_of(old(self).opcode),
                x_pos == old(self)@.sprite_x(),
                y_pos == old(self)@.sprite_y(),
                origin == 64 * y_pos + x_pos,
                x_pos < 64,
                y_pos < 32,
                sprite == old(self)@.sprite(),
                before == old(self).display@,
                fits(2048, sprite, origin),
                sprite.len() > 0 ==> old(self).index + sprite.len() <= 4096,
                self@ == (State {
                    display: self.display@,
                    registers: self.registers@,
                    ..old(self)@
                }),
                self.display@ == draw(before, sprite.take(row as int), origin),
                self.registers@ == old(self).registers@.update(
                    0xF,
                    if collides(before, sprite.take(row as int), origin) {
                        1u8
                    } else {
                        0u8
                    },
                ),
            decreases sprite.len() - row,
        {
            let sprite_byte = self.memory[self.index as usize + row];
            let start = (y_pos + row) * 64 + x_pos;
            proof {
                assert(sprite_byte == sprite[row as int]);
                assert forall|cell: int| covers(seq![sprite_byte], start as int, cell) implies cell
                    < 2048 by {
                    let offset = cell - start;
                    assert(offset / 64 == 0);
                    assert((cell - origin) / 64 == row && (cell - origin) % 64 == offset % 64);
                    assert(covers(sprite, origin, cell));
                }
                lemma_draw_next_row(before, sprite, origin, row as int);
            }
            let hit = self.draw_row(sprite_byte, start);
            if hit {
                self.registers[0xF] = 1;
            }
            row += 1;
        }
        proof {
            assert(sprite.take(row as int) =~= sprite);
        }
    }

    /// SKP Vx: skips the next instruction if key number `Vx` is down.
    pub fn OP_Ex9E(&mut self)
        requires
            old(self)@.vx() < 16,
            old(self).keypad@[old(self)@.vx() as int] != 0 ==> old(self).pc <= 0xFFFD,
        ensures
            final(self)@ == old(self)@.op_ex9e(),
    {
        let vx = opcode::x(self.opcode);
        let key = self.registers[vx];
        if self.keypad[key as usize] != 0 {
            self.pc += 2;
        }
    }

    /// SKNP Vx: skips the next instruction if key number `Vx` is up.
    pub fn OP_ExA1(&mut self)
        requires
            old(self)@.vx() < 16,
            old(self).keypad@[old(self)@.vx() as int] == 0 ==> old(self).pc <= 0xFFFD,
        ensures
            final(self)@ == old(self)@.op_exa1(),
    {
        let vx = opcode::x(self.opcode);
        let key = self.registers[vx];
        if self.keypad[key as usize] == 0 {
            self.pc += 2;
        }
    }

    /// LD Vx, DT: `Vx = delay timer`.
    pub fn OP_Fx07(&mut self)
        ensures
            final(self)@ == old(self)@.op_fx07(),
    {
        let vx = opcode::x(self.opcode);
        self.registers[vx] = self.delay_timer;
    }

    /// The lowest number of a key that is down, or 16 if none is.
    pub fn first_pressed_key(&self) -> (key: u8)
        ensures
            key == first_pressed(self.keypad@, 0),
            key <= 16,
            key < 16 ==> self.keypad@[key as int] != 0,
            forall|k: int| 0 <= k < key ==> self.keypad@[k] == 0,
    {
        let mut key: u8 = 0;
        while key < 16 && self.keypad[key as usize] == 0
            invariant
                key <= 16,
                forall|k: int| 0 <= k < key ==> self.keypad@[k] == 0,
                first_pressed(self.keypad@, 0) == first_pressed(self.keypad@, key as int),
            decreases 16 - key,
        {
            key += 1;
        }
        key
    }

    /// LD Vx, K: stores in `Vx` the lowest number of a key that is down.
    /// With no key down it moves the program counter back by one
    /// instruction, so that the next cycle executes this instruction again.
    pub fn OP_Fx0A(&mut self)
        requires
            old(self).pc >= 2 || first_pressed(old(self).keypad@, 0) < 16,
        ensures
            final(self)@ == old(self)@.op_fx0a(),
            forall|k: int|
                0 <= k < 16 && old(self).keypad@[k] != 0 && (forall|j: int|
                    0 <= j < k ==> old(self).keypad@[j] == 0) ==> final(self)@ == old(
                    self,
                )@.with_vx(k as u8),
            (forall|k: int| 0 <= k < 16 ==> old(self).keypad@[k] == 0) ==> final(self)@ == (State {
                pc: (old(self).pc - 2) as u16,
                ..old(self)@
            }),
    {
        let vx = opcode::x(self.opcode);
        let key = self.first_pressed_key();
        if key < 16 {
            self.registers[vx] = key;
        } else {
            self.pc -= 2;
        }
    }

    /// LD DT, Vx: `delay timer = Vx`.
    pub fn OP_Fx15(&mut self)
        ensures
            final(self)@ == old(self)@.op_fx15(),
    {
        let vx = opcode::x(self.opcode);
        self.delay_timer = self.registers[vx];
    }

    /// LD ST, Vx: `sound timer = Vx`.
    pub fn OP_Fx18(&mut self)
        ensures
            final(self)@ == old(self)@.op_fx18(),
    {
        let vx = opcode::x(self.opcode);
        self.sound_timer = self.registers[vx];
    }

    /// ADD I, Vx: `I = I + Vx`; no flag is touched.
    pub fn OP_Fx1E(&mut self)
        requires
            old(self).index + old(self)@.vx() <= 0xFFFF_FFFF,
        ensures
            final(self)@ == old(self)@.op_fx1e(),
    {
        let vx = opcode::x(self.opcode);
        self.index += self.registers[vx] as u32;
    }

    /// LD F, Vx: `I =` the address of the five-byte glyph for `Vx`.
    pub fn OP_Fx29(&mut self)
        ensures
            final(self)@ == old(self)@.op_fx29(),
            final(self).index == 0x50 + 5 * old(self)@.vx(),
    {
        let vx = opcode::x(self.opcode);
        let digit = self.registers[vx];
        self.index = FONTSET_START_ADDRESS as u32 + 5 * (digit as u32);
    }

    /// LD B, Vx: stores the hundreds, tens and units of `Vx` at `I`,
    /// `I + 1` and `I + 2`.
    pub fn OP_Fx33(&mut self)
        requires
            old(self).index + 2 < 4096,
        ensures
            final(self)@ == old(self)@.op_fx33(),
            100 * final(self).memory@[old(self).index as int] + 10 * final(self).memory@[old(
                self,
            ).index + 1] + final(self).memory@[old(self).index + 2] == old(self)@.vx(),
            final(self).memory@[old(self).index + 1] <= 9,
            final(self).memory@[old(self).index + 2] <= 9,
    {
        let vx = opcode::x(self.opcode);
        let mut value = self.registers[vx];
        let at = self.index as usize;
        self.memory[at + 2] = value % 10;
        value /= 10;
        self.memory[at + 1] = value % 10;
        value /= 10;
        self.memory[at] = value % 10;
    }

    /// LD [I], Vx: copies registers `V0..=Vx` to memory at `I..=I + x`.
    pub fn OP_Fx55(&mut self)
        requires
            old(self).index + old(self)@.x() < 4096,
        ensures
            final(self)@ == old(self)@.op_fx55(),
    {
        let vx = opcode::x(self.opcode);
        let at = self.index as usize;
        let mut i: usize = 0;
        while i <= vx
            invariant
                i <= vx + 1,
                vx < 16,
                at + vx < 4096,
                at == self.index,
                vx == old(self)@.x(),
                self@ == (State { memory: self.memory@, ..old(self)@ }),
                forall|a: int|
                    0 <= a < 4096 ==> self.memory@[a] == if at <= a < at + i {
                        old(self).registers@[a - at]
                    } else {
                        old(self).memory@[a]
                    },
            decreases vx + 1 - i,
        {
            self.memory[at + i] = self.registers[i];
            i += 1;
        }
    }

    /// LD Vx, [I]: copies memory at `I..=I + x` to registers `V0..=Vx`.
    pub fn OP_Fx65(&mut self)
        requires
            old(self).index + old(self)@.x() < 4096,
        ensures
            final(self)@ == old(self)@.op_fx65(),
    {
        let vx = opcode::x(self.opcode);
        let at = self.index as usize;
        let mut i: usize = 0;
        while i <= vx
            invariant
                i <= vx + 1,
                vx < 16,
                at + vx < 4096,
                at == self.index,
                vx == old(self)@.x(),
                self@ == (State { registers: self.registers@, ..old(self)@ }),
                forall|r: int|
                    0 <= r < 16 ==> self.registers@[r] == if r < i {
                        old(self).memory@[at + r]
                    } else {
                        old(self).registers@[r]
                    },
            decreases vx + 1 - i,
        {
            self.registers[i] = self.memory[at + i];
            i += 1;
        }
    }

    /// Does nothing: the handler of an instruction word that no table maps.
    pub fn OP_null(&mut self)
        ensures
            final(self)@ == old(self)@,
    {
    }
}

} // verus!
