//! The mathematical model of the machine: its state as sequences and
//! integers, and each instruction as a function from state to state.

use vstd::prelude::*;
use crate::constants::FONTSET;
use crate::dispatch::{
    primary_slot, table_0_slot, table_8_slot, table_e_slot, table_f_slot, OpFunction, Slot,
};
use crate::display::{collides, draw, fits};
use crate::fault::Fault;
use crate::opcode::{class_of, kk_of, n_of, nnn_of, word_of, x_of, y_of};

verus! {

/// The state of a machine.
#[verifier::ext_equal]
pub struct State {
    /// Registers `V0` to `VF`.
    pub registers: Seq<u8>,
    /// The 4096 bytes of memory.
    pub memory: Seq<u8>,
    /// The index register `I`.
    pub index: u32,
    /// The address of the next instruction.
    pub pc: u16,
    /// The sixteen return addresses.
    pub stack: Seq<u16>,
    /// The number of return addresses in use.
    pub sp: u16,
    pub delay_timer: u8,
    pub sound_timer: u8,
    /// One entry per key, nonzero while the key is down.
    pub keypad: Seq<u8>,
    /// The 64x32 cells of the display, row by row.
    pub display: Seq<u32>,
    /// The instruction word fetched last.
    pub opcode: u16,
    /// The primary dispatch table, indexed by the class nibble.
    pub table: Seq<Slot>,
    pub table_0: Seq<OpFunction>,
    pub table_8: Seq<OpFunction>,
    pub table_e: Seq<OpFunction>,
    pub table_f: Seq<OpFunction>,
}

/// The lowest key number from `from` on whose key is down, or 16 if there is
/// none.
pub open spec fn first_pressed(keypad: Seq<u8>, from: int) -> int
    decreases 16 - from,
{
    if from >= 16 {
        16
    } else if keypad[from] != 0 {
        from
    } else {
        first_pressed(keypad, from + 1)
    }
}

/// What `first_pressed` finds is the lowest key at or above `from` that is
/// down: no lower one is, and it is 16 exactly when none is.
pub proof fn lemma_first_pressed(keypad: Seq<u8>, from: int)
    requires
        0 <= from <= 16,
    ensures
        from <= first_pressed(keypad, from) <= 16,
        first_pressed(keypad, from) < 16 ==> keypad[first_pressed(keypad, from)] != 0,
        forall|k: int| from <= k < first_pressed(keypad, from) ==> keypad[k] == 0,
    decreases 16 - from,
{
    if from < 16 && keypad[from] == 0 {
        lemma_first_pressed(keypad, from + 1);
    }
}

impl State {
    /// Every sequence has the length of the array that it stands for.
    pub open spec fn wf(self) -> bool {
        &&& self.registers.len() == 16
        &&& self.memory.len() == 4096
        &&& self.stack.len() == 16
        &&& self.keypad.len() == 16
        &&& self.display.len() == 2048
        &&& self.table.len() == 16
        &&& self.table_0.len() == 15
        &&& self.table_8.len() == 15
        &&& self.table_e.len() == 15
        &&& self.table_f.len() == 102
    }

    /// The register index in the second nibble of the current word.
    pub open spec fn x(self) -> int {
        x_of(self.opcode)
    }

    /// The register index in the third nibble of the current word.
    pub open spec fn y(self) -> int {
        y_of(self.opcode)
    }

    /// The value of register `Vx`.
    pub open spec fn vx(self) -> u8 {
        self.registers[self.x()]
    }

    /// The value of register `Vy`.
    pub open spec fn vy(self) -> u8 {
        self.registers[self.y()]
    }

    /// The low byte of the current word.
    pub open spec fn kk(self) -> u8 {
        kk_of(self.opcode) as u8
    }

    /// The low twelve bits of the current word.
    pub open spec fn nnn(self) -> u16 {
        nnn_of(self.opcode) as u16
    }

    /// This state with register `Vx` set to `value`.
    pub open spec fn with_vx(self, value: u8) -> State {
        State { registers: self.registers.update(self.x(), value), ..self }
    }

    /// This state with `VF` set to `flag` and then `Vx` set to `value`.
    pub open spec fn with_flag_then_vx(self, flag: u8, value: u8) -> State {
        State { registers: self.registers.update(0xF, flag).update(self.x(), value), ..self }
    }

    /// This state with the program counter moved past one more instruction
    /// if `skip` holds.
    pub open spec fn skip_if(self, skip: bool) -> State {
        if skip {
            State { pc: (self.pc + 2) as u16, ..self }
        } else {
            self
        }
    }

    /// Clear the display.
    pub open spec fn op_00e0(self) -> State {
        State { display: Seq::new(2048, |cell: int| 0u32), ..self }
    }

    /// Return: pop the newest return address into the program counter.
    pub open spec fn op_00ee(self) -> State {
        State { sp: (self.sp - 1) as u16, pc: self.stack[self.sp - 1], ..self }
    }

    /// Jump to `nnn`.
    pub open spec fn op_1nnn(self) -> State {
        State { pc: self.nnn(), ..self }
    }

    /// Call: push the program counter and jump to `nnn`.
    pub open spec fn op_2nnn(self) -> State {
        State {
            stack: self.stack.update(self.sp as int, self.pc),
            sp: (self.sp + 1) as u16,
            pc: self.nnn(),
            ..self
        }
    }

    /// Skip if `Vx == kk`.
    pub open spec fn op_3xkk(self) -> State {
        self.skip_if(self.vx() == self.kk())
    }

    /// Skip if `Vx != kk`.
    pub open spec fn op_4xkk(self) -> State {
        self.skip_if(self.vx() != self.kk())
    }

    /// Skip if `Vx == Vy`.
    pub open spec fn op_5xy0(self) -> State {
        self.skip_if(self.vx() == self.vy())
    }

    /// `Vx = kk`.
    pub open spec fn op_6xkk(self) -> State {
        self.with_vx(self.kk())
    }

    /// `Vx = (Vx + kk) mod 256`.
    pub open spec fn op_7xkk(self) -> State {
        self.with_vx(((self.vx() + self.kk()) % 256) as u8)
    }

    /// `Vx = Vy`.
    pub open spec fn op_8xy0(self) -> State {
        self.with_vx(self.vy())
    }

    /// `Vx = Vx | Vy`.
    pub open spec fn op_8xy1(self) -> State {
        self.with_vx(self.vx() | self.vy())
    }

    /// `Vx = Vx & Vy`.
    pub open spec fn op_8xy2(self) -> State {
        self.with_vx(self.vx() & self.vy())
    }

    /// `Vx = Vx ^ Vy`.
    pub open spec fn op_8xy3(self) -> State {
        self.with_vx(self.vx() ^ self.vy())
    }

    /// `VF = 1` if `Vx + Vy > 255`, else 0; then `Vx = (Vx + Vy) mod 256`,
    /// both from the values before the instruction.
    pub open spec fn op_8xy4(self) -> State {
        let sum = self.vx() + self.vy();
        self.with_flag_then_vx(if sum > 255 { 1u8 } else { 0u8 }, (sum % 256) as u8)
    }

    /// `VF = 1` if `Vx >= Vy`, else 0; then `Vx = (Vx - Vy) mod 256`, both
    /// from the values before the instruction.
    pub open spec fn op_8xy5(self) -> State {
        self.with_flag_then_vx(
            if self.vx() >= self.vy() { 1u8 } else { 0u8 },
            ((self.vx() - self.vy()) % 256) as u8,
        )
    }

    /// `VF =` bit 0 of `Vx`; then `Vx = Vx >> 1`, both from the value before
    /// the instruction.
    pub open spec fn op_8xy6(self) -> State {
        self.with_flag_then_vx(self.vx() & 1u8, self.vx() >> 1u8)
    }

    /// `VF = 1` if `Vy >= Vx`, else 0; then `Vx = (Vy - Vx) mod 256`, both
    /// from the values before the instruction.
    pub open spec fn op_8xy7(self) -> State {
        self.with_flag_then_vx(
            if self.vy() >= self.vx() { 1u8 } else { 0u8 },
            ((self.vy() - self.vx()) % 256) as u8,
        )
    }

    /// `VF =` bit 7 of `Vx`; then `Vx = (Vx << 1) mod 256`, both from the
    /// value before the instruction.
    pub open spec fn op_8xye(self) -> State {
        self.with_flag_then_vx((self.vx() & 0x80u8) >> 7u8, self.vx() << 1u8)
    }

    /// Skip if `Vx != Vy`.
    pub open spec fn op_9xy0(self) -> State {
        self.skip_if(self.vx() != self.vy())
    }

    /// `I = nnn`.
    pub open spec fn op_annn(self) -> State {
        State { index: self.nnn() as u32, ..self }
    }

    /// Jump to `V0 + nnn`.
    pub open spec fn op_bnnn(self) -> State {
        State { pc: (self.registers[0] + self.nnn()) as u16, ..self }
    }

    /// `Vx = random & kk`, for the random byte that was drawn.
    pub open spec fn op_cxkk(self, random: u8) -> State {
        self.with_vx(random & self.kk())
    }

    /// The column of the display at which a sprite is drawn: `Vx mod 64`.
    pub open spec fn sprite_x(self) -> int {
        self.vx() as int % 64
    }

    /// The line of the display at which a sprite is drawn: `Vy mod 32`.
    pub open spec fn sprite_y(self) -> int {
        self.vy() as int % 32
    }

    /// The cell under the top-left pixel of the sprite.
    pub open spec fn sprite_origin(self) -> int {
        64 * self.sprite_y() + self.sprite_x()
    }

    /// The number of sprite rows that are drawn: `n`, less the rows that
    /// would lie below the last line of the display.
    pub open spec fn sprite_rows(self) -> int {
        if n_of(self.opcode) <= 32 - self.sprite_y() {
            n_of(self.opcode)
        } else {
            32 - self.sprite_y()
        }
    }

    /// The rows of the sprite that are drawn: the bytes of memory from `I` on.
    pub open spec fn sprite(self) -> Seq<u8> {
        Seq::new(self.sprite_rows() as nat, |row: int| self.memory[self.index + row])
    }

    /// Draw: invert every display cell under a set sprite pixel; `VF = 1` if
    /// a cell that was on is turned off, else 0.
    pub open spec fn op_dxyn(self) -> State {
        State {
            display: draw(self.display, self.sprite(), self.sprite_origin()),
            registers: self.registers.update(
                0xF,
                if collides(self.display, self.sprite(), self.sprite_origin()) {
                    1u8
                } else {
                    0u8
                },
            ),
            ..self
        }
    }

    /// Skip if key number `Vx` is down.
    pub open spec fn op_ex9e(self) -> State {
        self.skip_if(self.keypad[self.vx() as int] != 0)
    }

    /// Skip if key number `Vx` is up.
    pub open spec fn op_exa1(self) -> State {
        self.skip_if(self.keypad[self.vx() as int] == 0)
    }

    /// `Vx = delay timer`.
    pub open spec fn op_fx07(self) -> State {
        self.with_vx(self.delay_timer)
    }

    /// Wait for a key: `Vx =` the lowest number of a key that is down; with
    /// no key down, move the program counter back onto this instruction.
    pub open spec fn op_fx0a(self) -> State {
        let key = first_pressed(self.keypad, 0);
        if key < 16 {
            self.with_vx(key as u8)
        } else {
            State { pc: (self.pc - 2) as u16, ..self }
        }
    }

    /// `delay timer = Vx`.
    pub open spec fn op_fx15(self) -> State {
        State { delay_timer: self.vx(), ..self }
    }

    /// `sound timer = Vx`.
    pub open spec fn op_fx18(self) -> State {
        State { sound_timer: self.vx(), ..self }
    }

    /// `I = I + Vx`.
    pub open spec fn op_fx1e(self) -> State {
        State { index: (self.index + self.vx()) as u32, ..self }
    }

    /// `I =` the address of the glyph for `Vx`: `0x50 + 5 * Vx`.
    pub open spec fn op_fx29(self) -> State {
        State { index: (0x50 + 5 * self.vx()) as u32, ..self }
    }

    /// Store the hundreds, tens and units of `Vx` at `I`, `I + 1`, `I + 2`.
    pub open spec fn op_fx33(self) -> State {
        let value = self.vx() as int;
        let at = self.index as int;
        State {
            memory: self.memory.update(at + 2, (value % 10) as u8).update(
                at + 1,
                (value / 10 % 10) as u8,
            ).update(at, (value / 100) as u8),
            ..self
        }
    }

    /// Store registers `V0..=Vx` at `I..=I + x`.
    pub open spec fn op_fx55(self) -> State {
        State {
            memory: Seq::new(
                4096,
                |at: int|
                    if self.index <= at <= self.index + self.x() {
                        self.registers[at - self.index]
                    } else {
                        self.memory[at]
                    },
            ),
            ..self
        }
    }

    /// Load registers `V0..=Vx` from `I..=I + x`.
    pub open spec fn op_fx65(self) -> State {
        State {
            registers: Seq::new(
                16,
                |i: int|
                    if i <= self.x() {
                        self.memory[self.index + i]
                    } else {
                        self.registers[i]
                    },
            ),
            ..self
        }
    }

    /// What handler `op` does to this state; `random` is the byte drawn if
    /// the handler draws one.
    pub open spec fn execute(self, op: OpFunction, random: u8) -> State {
        match op {
            OpFunction::Null => self,
            OpFunction::Op00E0 => self.op_00e0(),
            OpFunction::Op00EE => self.op_00ee(),
            OpFunction::Op1nnn => self.op_1nnn(),
            OpFunction::Op2nnn => self.op_2nnn(),
            OpFunction::Op3xkk => self.op_3xkk(),
            OpFunction::Op4xkk => self.op_4xkk(),
            OpFunction::Op5xy0 => self.op_5xy0(),
            OpFunction::Op6xkk => self.op_6xkk(),
            OpFunction::Op7xkk => self.op_7xkk(),
            OpFunction::Op8xy0 => self.op_8xy0(),
            OpFunction::Op8xy1 => self.op_8xy1(),
            OpFunction::Op8xy2 => self.op_8xy2(),
            OpFunction::Op8xy3 => self.op_8xy3(),
            OpFunction::Op8xy4 => self.op_8xy4(),
            OpFunction::Op8xy5 => self.op_8xy5(),
            OpFunction::Op8xy6 => self.op_8xy6(),
            OpFunction::Op8xy7 => self.op_8xy7(),
            OpFunction::Op8xyE => self.op_8xye(),
            OpFunction::Op9xy0 => self.op_9xy0(),
            OpFunction::OpAnnn => self.op_annn(),
            OpFunction::OpBnnn => self.op_bnnn(),
            OpFunction::OpCxkk => self.op_cxkk(random),
            OpFunction::OpDxyn => self.op_dxyn(),
            OpFunction::OpEx9E => self.op_ex9e(),
            OpFunction::OpExA1 => self.op_exa1(),
            OpFunction::OpFx07 => self.op_fx07(),
            OpFunction::OpFx0A => self.op_fx0a(),
            OpFunction::OpFx15 => self.op_fx15(),
            OpFunction::OpFx18 => self.op_fx18(),
            OpFunction::OpFx1E => self.op_fx1e(),
            OpFunction::OpFx29 => self.op_fx29(),
            OpFunction::OpFx33 => self.op_fx33(),
            OpFunction::OpFx55 => self.op_fx55(),
            OpFunction::OpFx65 => self.op_fx65(),
        }
    }

    /// Whether a conditional skip can move the program counter on.
    pub open spec fn skip_fault(self, skip: bool) -> Option<Fault> {
        if skip && self.pc > 0xFFFD {
            Some(Fault::ProgramCounter)
        } else {
            None
        }
    }

    /// Whether `Vx` is a key number.
    pub open spec fn key_fault(self) -> Option<Fault> {
        if self.vx() >= 16 {
            Some(Fault::Keypad)
        } else {
            None
        }
    }

    /// Whether the sprite can be read from memory and drawn inside the display.
    pub open spec fn draw_fault(self) -> Option<Fault> {
        if self.sprite_rows() > 0 && self.index + self.sprite_rows() > 4096 {
            Some(Fault::MemoryAccess)
        } else if !fits(2048, self.sprite(), self.sprite_origin()) {
            Some(Fault::DisplayAccess)
        } else {
            None
        }
    }

    /// Why handler `op` cannot be executed in this state, if it cannot.
    pub open spec fn fault_of(self, op: OpFunction) -> Option<Fault> {
        match op {
            OpFunction::Op00EE => if self.sp == 0 {
                Some(Fault::StackUnderflow)
            } else if self.sp > 16 {
                Some(Fault::StackOverflow)
            } else {
                None
            },
            OpFunction::Op2nnn => if self.sp >= 16 {
                Some(Fault::StackOverflow)
            } else {
                None
            },
            OpFunction::Op3xkk => self.skip_fault(self.vx() == self.kk()),
            OpFunction::Op4xkk => self.skip_fault(self.vx() != self.kk()),
            OpFunction::Op5xy0 => self.skip_fault(self.vx() == self.vy()),
            OpFunction::Op9xy0 => self.skip_fault(self.vx() != self.vy()),
            OpFunction::OpDxyn => self.draw_fault(),
            OpFunction::OpEx9E => if self.key_fault() is Some {
                self.key_fault()
            } else {
                self.skip_fault(self.keypad[self.vx() as int] != 0)
            },
            OpFunction::OpExA1 => if self.key_fault() is Some {
                self.key_fault()
            } else {
                self.skip_fault(self.keypad[self.vx() as int] == 0)
            },
            OpFunction::OpFx0A => if first_pressed(self.keypad, 0) >= 16 && self.pc < 2 {
                Some(Fault::ProgramCounter)
            } else {
                None
            },
            OpFunction::OpFx1E => if self.index + self.vx() > 0xFFFF_FFFF {
                Some(Fault::IndexOverflow)
            } else {
                None
            },
            OpFunction::OpFx33 => if self.index + 2 >= 4096 {
                Some(Fault::MemoryAccess)
            } else {
                None
            },
            OpFunction::OpFx55 => if self.index + self.x() >= 4096 {
                Some(Fault::MemoryAccess)
            } else {
                None
            },
            OpFunction::OpFx65 => if self.index + self.x() >= 4096 {
                Some(Fault::MemoryAccess)
            } else {
                None
            },
            _ => None,
        }
    }

    /// The handler that table `0` selects for the current word: the slot of
    /// its lowest nibble, or the no-op where the table has no such slot.
    pub open spec fn table_0_handler(self) -> OpFunction {
        if n_of(self.opcode) < 15 {
            self.table_0[n_of(self.opcode)]
        } else {
            OpFunction::Null
        }
    }

    /// The handler that table `8` selects for the current word.
    pub open spec fn table_8_handler(self) -> OpFunction {
        if n_of(self.opcode) < 15 {
            self.table_8[n_of(self.opcode)]
        } else {
            OpFunction::Null
        }
    }

    /// The handler that table `E` selects for the current word.
    pub open spec fn table_e_handler(self) -> OpFunction {
        if n_of(self.opcode) < 15 {
            self.table_e[n_of(self.opcode)]
        } else {
            OpFunction::Null
        }
    }

    /// The handler that table `F` selects for the current word: the slot of
    /// its low byte, or the no-op where the table has no such slot.
    pub open spec fn table_f_handler(self) -> OpFunction {
        if kk_of(self.opcode) < 102 {
            self.table_f[kk_of(self.opcode)]
        } else {
            OpFunction::Null
        }
    }

    /// The handler that the tables select for the current word.
    pub open spec fn handler(self) -> OpFunction {
        match self.table[class_of(self.opcode)] {
            Slot::Direct(op) => op,
            Slot::Table0 => self.table_0_handler(),
            Slot::Table8 => self.table_8_handler(),
            Slot::TableE => self.table_e_handler(),
            Slot::TableF => self.table_f_handler(),
        }
    }

    /// Fetch: read the word at the program counter, high byte first, and
    /// move the program counter past it.
    pub open spec fn fetch(self) -> State {
        State {
            opcode: word_of(self.memory[self.pc as int], self.memory[self.pc + 1]) as u16,
            pc: (self.pc + 2) as u16,
            ..self
        }
    }

    /// Tick: each timer that is not zero goes down by one.
    pub open spec fn tick(self) -> State {
        State {
            delay_timer: if self.delay_timer > 0 {
                (self.delay_timer - 1) as u8
            } else {
                0u8
            },
            sound_timer: if self.sound_timer > 0 {
                (self.sound_timer - 1) as u8
            } else {
                0u8
            },
            ..self
        }
    }

    /// Why this state cannot run a cycle, if it cannot.
    pub open spec fn cycle_fault(self) -> Option<Fault> {
        if self.pc + 1 >= 4096 {
            Some(Fault::ProgramCounter)
        } else {
            self.fetch().fault_of(self.fetch().handler())
        }
    }

    /// One cycle: fetch, execute the handler that the tables select, tick.
    pub open spec fn cycle(self, random: u8) -> State {
        let fetched = self.fetch();
        fetched.execute(fetched.handler(), random).tick()
    }

    /// This state with every dispatch table in its standard form.
    pub open spec fn with_standard_tables(self) -> State {
        State {
            table: Seq::new(16, |class: int| primary_slot(class)),
            table_0: Seq::new(15, |n: int| table_0_slot(n)),
            table_8: Seq::new(15, |n: int| table_8_slot(n)),
            table_e: Seq::new(15, |n: int| table_e_slot(n)),
            table_f: Seq::new(102, |kk: int| table_f_slot(kk)),
            ..self
        }
    }

    /// Whether every dispatch table is in its standard form.
    pub open spec fn has_standard_tables(self) -> bool {
        self == self.with_standard_tables()
    }

    /// This state with the built-in font copied to its place in memory.
    pub open spec fn with_font(self) -> State {
        State {
            memory: Seq::new(
                4096,
                |at: int|
                    if 0x50 <= at < 0x50 + 80 {
                        FONTSET@[at - 0x50]
                    } else {
                        self.memory[at]
                    },
            ),
            ..self
        }
    }

    /// This state with a program image copied to the start of program space.
    pub open spec fn with_image(self, image: Seq<u8>) -> State {
        State {
            memory: Seq::new(
                4096,
                |at: int|
                    if 0x200 <= at < 0x200 + image.len() {
                        image[at - 0x200]
                    } else {
                        self.memory[at]
                    },
            ),
            ..self
        }
    }
}

} // verus!
