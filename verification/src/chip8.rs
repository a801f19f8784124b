//! The machine: its state as arrays, how it is set up, and the cycle that
//! fetches an instruction word, selects its handler through the dispatch
//! tables and runs it. The handlers are in [`crate::instructions`]; what each
//! function does is stated over the model in [`crate::state`].

use vstd::prelude::*;
use crate::constants::{
    FONTSET, FONTSET_SIZE, FONTSET_START_ADDRESS, MEMORY_SIZE, START_ADDRESS, VIDEO_HEIGHT,
    VIDEO_WIDTH,
};
use crate::dispatch::{OpFunction, Slot, BYTE_SLOTS, NIBBLE_SLOTS};
use crate::display::{covers, sprite_bit};
use crate::fault::{Fault, LoadError};
use crate::opcode;
use crate::state::State;

verus! {

/// A CHIP-8 machine.
///
/// The fields are public: a front end writes the keypad before a cycle and
/// reads the display after it.
#[derive(Debug)]
pub struct Chip8 {
    /// Registers `V0` to `VF`; `VF` doubles as the flag register.
    pub registers: [u8; 16],
    /// Memory. The font lies at 0x050, programs start at 0x200.
    pub memory: [u8; 4096],
    /// The index register `I`.
    pub index: u32,
    /// The address of the next instruction.
    pub pc: u16,
    /// The return addresses of the calls that have not returned.
    pub stack: [u16; 16],
    /// The number of return addresses on the stack.
    pub sp: u16,
    pub delay_timer: u8,
    pub sound_timer: u8,
    /// One entry per key, nonzero while the key is down.
    pub keypad: [u8; 16],
    /// The display, row by row, 64 cells per row: 0 for a cell that is off,
    /// all bits set for one that is on.
    pub display: [u32; 2048],
    /// The instruction word fetched last.
    pub opcode: u16,
    /// The primary dispatch table, indexed by the class nibble.
    pub table: [Slot; 16],
    /// The secondary table of class `0`, indexed by the lowest nibble.
    pub table_0: [OpFunction; 15],
    /// The secondary table of class `8`, indexed by the lowest nibble.
    pub table_8: [OpFunction; 15],
    /// The secondary table of class `E`, indexed by the lowest nibble.
    pub table_e: [OpFunction; 15],
    /// The secondary table of class `F`, indexed by the low byte.
    pub table_f: [OpFunction; 102],
}

impl View for Chip8 {
    type V = State;

    open spec fn view(&self) -> State {
        State {
            registers: self.registers@,
            memory: self.memory@,
            index: self.index,
            pc: self.pc,
            stack: self.stack@,
            sp: self.sp,
            delay_timer: self.delay_timer,
            sound_timer: self.sound_timer,
            keypad: self.keypad@,
            display: self.display@,
            opcode: self.opcode,
            table: self.table@,
            table_0: self.table_0@,
            table_8: self.table_8@,
            table_e: self.table_e@,
            table_f: self.table_f@,
        }
    }
}

/// The state of a machine that was just created: everything zero, the
/// program counter at the start of program space, every table slot a no-op.
pub open spec fn initial_state() -> State {
    State {
        registers: Seq::new(16, |i: int| 0u8),
        memory: Seq::new(4096, |i: int| 0u8),
        index: 0,
        pc: 0x200,
        stack: Seq::new(16, |i: int| 0u16),
        sp: 0,
        delay_timer: 0,
        sound_timer: 0,
        keypad: Seq::new(16, |i: int| 0u8),
        display: Seq::new(2048, |i: int| 0u32),
        opcode: 0,
        table: Seq::new(16, |i: int| Slot::Direct(OpFunction::Null)),
        table_0: Seq::new(15, |i: int| OpFunction::Null),
        table_8: Seq::new(15, |i: int| OpFunction::Null),
        table_e: Seq::new(15, |i: int| OpFunction::Null),
        table_f: Seq::new(102, |i: int| OpFunction::Null),
    }
}

impl Chip8 {
    /// The model of a machine is always well formed: the lengths of its
    /// sequences are those of the arrays.
    pub proof fn lemma_view_wf(&self)
        ensures
            self@.wf(),
    {
    }

    /// Creates a machine in its initial state.
    pub fn new() -> (chip8: Chip8)
        ensures
            chip8@ == initial_state(),
    {
        Chip8 {
            registers: [0; 16],
            memory: [0; 4096],
            index: 0,
            pc: START_ADDRESS,
            stack: [0; 16],
            sp: 0,
            delay_timer: 0,
            sound_timer: 0,
            keypad: [0; 16],
            display: [0; 2048],
            opcode: 0,
            table: [Slot::Direct(OpFunction::Null); 16],
            table_0: [OpFunction::Null; 15],
            table_8: [OpFunction::Null; 15],
            table_e: [OpFunction::Null; 15],
            table_f: [OpFunction::Null; 102],
        }
    }

    /// Copies a program image to memory, its first byte to address 0x200.
    ///
    /// An image that is longer than program space is refused and the machine
    /// is left as it was. Otherwise byte `i` of the image is at address
    /// `0x200 + i` afterwards and nothing else has changed.
    pub fn load_rom(&mut self, image: &[u8]) -> (loaded: Result<(), LoadError>)
        ensures
            image@.len() <= 4096 - 0x200 ==> loaded == Ok::<(), LoadError>(()) && final(self)@
                == old(self)@.with_image(image@),
            image@.len() > 4096 - 0x200 ==> loaded == Err::<(), LoadError>(LoadError::TooLarge)
                && final(self)@ == old(self)@,
            loaded is Ok ==> forall|i: int|
                0 <= i < image@.len() ==> final(self).memory@[0x200 + i] == image@[i],
            loaded is Ok ==> forall|at: int|
                0 <= at < 4096 && !(0x200 <= at < 0x200 + image@.len()) ==> final(self).memory@[at]
                    == old(self).memory@[at],
    {
        if image.len() > MEMORY_SIZE - START_ADDRESS as usize {
            return Err(LoadError::TooLarge);
        }
        let mut i: usize = 0;
        while i < image.len()
            invariant
                i <= image@.len() <= 4096 - 0x200,
                self@ == (State { memory: self.memory@, ..old(self)@ }),
                forall|at: int|
                    0 <= at < 4096 ==> self.memory@[at] == if 0x200 <= at < 0x200 + i {
                        image@[at - 0x200]
                    } else {
                        old(self).memory@[at]
                    },
            decreases image@.len() - i,
        {
            self.memory[START_ADDRESS as usize + i] = image[i];
            i += 1;
        }
        Ok(())
    }

    /// Copies the built-in font to memory, its first byte to address 0x50.
    pub fn load_fontset(&mut self)
        ensures
            final(self)@ == old(self)@.with_font(),
            forall|i: int| 0 <= i < 80 ==> final(self).memory@[0x50 + i] == FONTSET@[i],
    {
        let mut i: usize = 0;
        while i < FONTSET_SIZE as usize
            invariant
                i <= 80,
                self@ == (State { memory: self.memory@, ..old(self)@ }),
                forall|at: int|
                    0 <= at < 4096 ==> self.memory@[at] == if 0x50 <= at < 0x50 + i {
                        FONTSET@[at - 0x50]
                    } else {
                        old(self).memory@[at]
                    },
            decreases 80 - i,
        {
            self.memory[FONTSET_START_ADDRESS as usize + i] = FONTSET[i];
            i += 1;
        }
    }

    /// The handler that the tables select for the current word.
    pub fn handler(&self) -> (op: OpFunction)
        ensures
            op == self@.handler(),
    {
        let low = opcode::n(self.opcode);
        let byte = opcode::kk(self.opcode) as usize;
        match self.table[opcode::class(self.opcode)] {
            Slot::Direct(op_function) => op_function,
            Slot::Table0 => if low < NIBBLE_SLOTS {
                self.table_0[low]
            } else {
                OpFunction::Null
            },
            Slot::Table8 => if low < NIBBLE_SLOTS {
                self.table_8[low]
            } else {
                OpFunction::Null
            },
            Slot::TableE => if low < NIBBLE_SLOTS {
                self.table_e[low]
            } else {
                OpFunction::Null
            },
            Slot::TableF => if byte < BYTE_SLOTS {
                self.table_f[byte]
            } else {
                OpFunction::Null
            },
        }
    }

    /// Why a skip cannot move the program counter on, if it cannot.
    fn skip_fault(&self, skip: bool) -> (fault: Option<Fault>)
        ensures
            fault == self@.skip_fault(skip),
    {
        if skip && self.pc > 0xFFFD {
            Some(Fault::ProgramCounter)
        } else {
            None
        }
    }

    /// Why the sprite of a draw instruction cannot be drawn, if it cannot.
    fn draw_fault(&self) -> (fault: Option<Fault>)
        ensures
            fault == self@.draw_fault(),
    {
        let vx = opcode::x(self.opcode);
        let vy = opcode::y(self.opcode);
        let height = opcode::n(self.opcode);
        let x_pos = (self.registers[vx] % VIDEO_WIDTH) as usize;
        let y_pos = (self.registers[vy] % VIDEO_HEIGHT) as usize;
        let rows = if height <= VIDEO_HEIGHT as usize - y_pos {
            height
        } else {
            VIDEO_HEIGHT as usize - y_pos
        };
        if rows > 0 && self.index > (MEMORY_SIZE - rows) as u32 {
            return Some(Fault::MemoryAccess);
        }
        let ghost sprite = self@.sprite();
        let ghost origin = self@.sprite_origin();
        if rows == 0 || y_pos + rows < VIDEO_HEIGHT as usize {
            proof {
                assert forall|cell: int| covers(sprite, origin, cell) implies cell < 2048 by {
                    let offset = cell - origin;
                    assert(offset / 64 < rows && offset % 64 < 8);
                }
            }
            return None;
        }
        let last = self.memory[self.index as usize + rows - 1];
        let mut column: u8 = 0;
        while column < 8
            invariant
                column <= 8,
                x_pos < 64,
                rows > 0,
                y_pos + rows == 32,
                origin == 64 * y_pos + x_pos,
                sprite == self@.sprite(),
                origin == self@.sprite_origin(),
                rows == self@.sprite_rows(),
                self.index + rows <= 4096,
                sprite[rows - 1] == last,
                forall|c: int| 0 <= c < column && sprite_bit(last, c) ==> x_pos + c < 64,
            decreases 8 - column,
        {
            if last & (0x80u8 >> column) != 0 && x_pos + column as usize >= VIDEO_WIDTH as usize {
                proof {
                    let cell = origin + 64 * (rows - 1) + column;
                    assert((cell - origin) / 64 == rows - 1 && (cell - origin) % 64 == column);
                    assert(sprite_bit(last, column as int));
                    assert(covers(sprite, origin, cell));
                    assert(cell >= 2048);
                }
                return Some(Fault::DisplayAccess);
            }
            column += 1;
        }
        proof {
            assert forall|cell: int| covers(sprite, origin, cell) implies cell < 2048 by {
                let offset = cell - origin;
                assert(offset / 64 < rows && offset % 64 < 8);
                if offset / 64 == rows - 1 {
                    assert(sprite_bit(last, offset % 64));
                }
            }
        }
        None
    }

    /// Why handler `op` cannot be executed in this state, if it cannot.
    pub fn fault_of(&self, op: OpFunction) -> (fault: Option<Fault>)
        ensures
            fault == self@.fault_of(op),
    {
        let vx = opcode::x(self.opcode);
        let vy = opcode::y(self.opcode);
        let byte = opcode::kk(self.opcode);
        match op {
            OpFunction::Op00EE => if self.sp == 0 {
                Some(Fault::StackUnderflow)
            } else if self.sp > 16 {
                Some(Fault::StackOverflow)
            } else {
                None
            },
            OpFunction::Op2nnn => if self.sp >= 16 {
                Some(Fault::StackOverflow)
            } else {
                None
            },
            OpFunction::Op3xkk => self.skip_fault(self.registers[vx] == byte),
            OpFunction::Op4xkk => self.skip_fault(self.registers[vx] != byte),
            OpFunction::Op5xy0 => self.skip_fault(self.registers[vx] == self.registers[vy]),
            OpFunction::Op9xy0 => self.skip_fault(self.registers[vx] != self.registers[vy]),
            OpFunction::OpDxyn => self.draw_fault(),
            OpFunction::OpEx9E => if self.registers[vx] >= 16 {
                Some(Fault::Keypad)
            } else {
                self.skip_fault(self.keypad[self.registers[vx] as usize] != 0)
            },
            OpFunction::OpExA1 => if self.registers[vx] >= 16 {
                Some(Fault::Keypad)
            } else {
                self.skip_fault(self.keypad[self.registers[vx] as usize] == 0)
            },
            OpFunction::OpFx0A => if self.pc < 2 && self.first_pressed_key() >= 16 {
                Some(Fault::ProgramCounter)
            } else {
                None
            },
            OpFunction::OpFx1E => if self.index > u32::MAX - self.registers[vx] as u32 {
                Some(Fault::IndexOverflow)
            } else {
                None
            },
            OpFunction::OpFx33 => if self.index >= 4094 {
                Some(Fault::MemoryAccess)
            } else {
                None
            },
            OpFunction::OpFx55 => if self.index >= 4096 - vx as u32 {
                Some(Fault::MemoryAccess)
            } else {
                None
            },
            OpFunction::OpFx65 => if self.index >= 4096 - vx as u32 {
                Some(Fault::MemoryAccess)
            } else {
                None
            },
            _ => None,
        }
    }

    /// Runs the handler that `op` names.
    ///
    /// The outcome is that of the model for some random byte; only RND
    /// depends on which.
    pub fn execute(&mut self, op: OpFunction)
        requires
            old(self)@.fault_of(op) is None,
        ensures
            exists|random: u8| final(self)@ == #[trigger] old(self)@.execute(op, random),
    {
        match op {
            OpFunction::Null => self.OP_null(),
            OpFunction::Op00E0 => self.OP_00E0(),
            OpFunction::Op00EE => self.OP_00EE(),
            OpFunction::Op1nnn => self.OP_1nnn(),
            OpFunction::Op2nnn => self.OP_2nnn(),
            OpFunction::Op3xkk => self.OP_3xkk(),
            OpFunction::Op4xkk => self.OP_4xkk(),
            OpFunction::Op5xy0 => self.OP_5xy0(),
            OpFunction::Op6xkk => self.OP_6xkk(),
            OpFunction::Op7xkk => self.OP_7xkk(),
            OpFunction::Op8xy0 => self.OP_8xy0(),
            OpFunction::Op8xy1 => self.OP_8xy1(),
            OpFunction::Op8xy2 => self.OP_8xy2(),
            OpFunction::Op8xy3 => self.OP_8xy3(),
            OpFunction::Op8xy4 => self.OP_8xy4(),
            OpFunction::Op8xy5 => self.OP_8xy5(),
            OpFunction::Op8xy6 => self.OP_8xy6(),
            OpFunction::Op8xy7 => self.OP_8xy7(),
            OpFunction::Op8xyE => self.OP_8xyE(),
            OpFunction::Op9xy0 => self.OP_9xy0(),
            OpFunction::OpAnnn => self.OP_Annn(),
            OpFunction::OpBnnn => self.OP_Bnnn(),
            OpFunction::OpCxkk => self.OP_Cxkk(),
            OpFunction::OpDxyn => self.OP_Dxyn(),
            OpFunction::OpEx9E => self.OP_Ex9E(),
            OpFunction::OpExA1 => self.OP_ExA1(),
            OpFunction::OpFx07 => self.OP_Fx07(),
            OpFunction::OpFx0A => self.OP_Fx0A(),
            OpFunction::OpFx15 => self.OP_Fx15(),
            OpFunction::OpFx18 => self.OP_Fx18(),
            OpFunction::OpFx1E => self.OP_Fx1E(),
            OpFunction::OpFx29 => self.OP_Fx29(),
            OpFunction::OpFx33 => self.OP_Fx33(),
            OpFunction::OpFx55 => self.OP_Fx55(),
            OpFunction::OpFx65 => self.OP_Fx65(),
        }
        proof {
            if op == OpFunction::OpCxkk {
                let random = choose|random: u8| self@ == #[trigger] old(self)@.op_cxkk(random);
                assert(self@ == old(self)@.execute(op, random));
            } else {
                assert(self@ == old(self)@.execute(op, 0u8));
            }
        }
    }

    /// Runs the handler that table `0` holds for the lowest nibble of the
    /// current word; a nibble without a slot does nothing.
    pub fn table_0_fn(&mut self)
        requires
            old(self)@.fault_of(old(self)@.table_0_handler()) is None,
        ensures
            exists|random: u8|
                final(self)@ == #[trigger] old(self)@.execute(
                    old(self)@.table_0_handler(),
                    random,
                ),
    {
        let index = opcode::n(self.opcode);
        if index < NIBBLE_SLOTS {
            let op_function = self.table_0[index];
            self.execute(op_function);
        } else {
            assert(self@ == old(self)@.execute(OpFunction::Null, 0u8));
        }
    }

    /// Runs the handler that table `8` holds for the lowest nibble of the
    /// current word; a nibble without a slot does nothing.
    pub fn table_8_fn(&mut self)
        requires
            old(self)@.fault_of(old(self)@.table_8_handler()) is None,
        ensures
            exists|random: u8|
                final(self)@ == #[trigger] old(self)@.execute(
                    old(self)@.table_8_handler(),
                    random,
                ),
    {
        let index = opcode::n(self.opcode);
        if index < NIBBLE_SLOTS {
            let op_function = self.table_8[index];
            self.execute(op_function);
        } else {
            assert(self@ == old(self)@.execute(OpFunction::Null, 0u8));
        }
    }

    /// Runs the handler that table `E` holds for the lowest nibble of the
    /// current word; a nibble without a slot does nothing.
    pub fn table_e_fn(&mut self)
        requires
            old(self)@.fault_of(old(self)@.table_e_handler()) is None,
        ensures
            exists|random: u8|
                final(self)@ == #[trigger] old(self)@.execute(
                    old(self)@.table_e_handler(),
                    random,
                ),
    {
        let index = opcode::n(self.opcode);
        if index < NIBBLE_SLOTS {
            let op_function = self.table_e[index];
            self.execute(op_function);
        } else {
            assert(self@ == old(self)@.execute(OpFunction::Null, 0u8));
        }
    }

    /// Runs the handler that table `F` holds for the low byte of the
    /// current word; a byte without a slot does nothing.
    pub fn table_f_fn(&mut self)
        requires
            old(self)@.fault_of(old(self)@.table_f_handler()) is None,
        ensures
            exists|random: u8|
                final(self)@ == #[trigger] old(self)@.execute(
                    old(self)@.table_f_handler(),
                    random,
                ),
    {
        let index = opcode::kk(self.opcode) as usize;
        if index < BYTE_SLOTS {
            let op_function = self.table_f[index];
            self.execute(op_function);
        } else {
            assert(self@ == old(self)@.execute(OpFunction::Null, 0u8));
        }
    }

    /// Runs what the primary table selects for the class nibble of the
    /// current word: a handler, or the lookup in a secondary table.
    pub fn dispatch(&mut self)
        requires
            old(self)@.fault_of(old(self)@.handler()) is None,
        ensures
            exists|random: u8|
                final(self)@ == #[trigger] old(self)@.execute(old(self)@.handler(), random),
    {
        match self.table[opcode::class(self.opcode)] {
            Slot::Direct(op_function) => self.execute(op_function),
            Slot::Table0 => self.table_0_fn(),
            Slot::Table8 => self.table_8_fn(),
            Slot::TableE => self.table_e_fn(),
            Slot::TableF => self.table_f_fn(),
        }
    }

    /// Runs one cycle: fetches the word at the program counter, moves the
    /// program counter past it, runs the handler that the tables select for
    /// the word, and lets each timer that is not zero go down by one.
    ///
    /// The outcome is that of the model for some random byte; only RND
    /// depends on which. The machine must be able to run the cycle: the
    /// word must lie in memory and its handler must find no fault.
    /// `try_cycle` makes that test itself.
    pub fn cycle(&mut self)
        requires
            old(self)@.cycle_fault() is None,
        ensures
            exists|random: u8| final(self)@ == #[trigger] old(self)@.cycle(random),
    {
        let pc = self.pc as usize;
        self.opcode = opcode::word(self.memory[pc], self.memory[pc + 1]);
        self.pc += 2;
        assert(self@ == old(self)@.fetch());
        let ghost fetched = self@;
        self.dispatch();
        let ghost random = choose|random: u8|
            self@ == #[trigger] fetched.execute(fetched.handler(), random);
        if self.delay_timer > 0 {
            self.delay_timer -= 1;
        }
        if self.sound_timer > 0 {
            self.sound_timer -= 1;
        }
        assert(self@ == old(self)@.cycle(random));
    }

    /// Runs one cycle if the machine can run one, and otherwise reports why
    /// it cannot and leaves the machine as it was.
    pub fn try_cycle(&mut self) -> (outcome: Result<(), Fault>)
        ensures
            old(self)@.cycle_fault() is None ==> outcome == Ok::<(), Fault>(()) && exists|
                random: u8,
            |
                final(self)@ == #[trigger] old(self)@.cycle(random),
            old(self)@.cycle_fault() is Some ==> outcome == Err::<(), Fault>(
                old(self)@.cycle_fault()->0,
            ) && final(self)@ == old(self)@,
    {
        if self.pc >= 4095 {
            return Err(Fault::ProgramCounter);
        }
        let before = self.opcode;
        let at = self.pc as usize;
        self.opcode = opcode::word(self.memory[at], self.memory[at + 1]);
        self.pc += 2;
        assert(self@ == old(self)@.fetch());
        let fault = self.fault_of(self.handler());
        // The check is made on the fetched word; the cycle fetches it again.
        self.opcode = before;
        self.pc -= 2;
        assert(self@ == old(self)@);
        match fault {
            Some(fault) => Err(fault),
            None => {
                self.cycle();
                Ok(())
            },
        }
    }
}

/// Puts every dispatch table of `chip8` in its standard form: the primary
/// table maps each class nibble to its handler or secondary table, and each
/// secondary table maps the slots of its instructions to their handlers and
/// every other slot to the no-op. Nothing but the tables changes.
pub fn config_chip8_tables(chip8: &mut Chip8)
    ensures
        final(chip8)@ == old(chip8)@.with_standard_tables(),
        final(chip8)@.has_standard_tables(),
{
    chip8.table[0x0] = Slot::Table0;
    chip8.table[0x1] = Slot::Direct(OpFunction::Op1nnn);
    chip8.table[0x2] = Slot::Direct(OpFunction::Op2nnn);
    chip8.table[0x3] = Slot::Direct(OpFunction::Op3xkk);
    chip8.table[0x4] = Slot::Direct(OpFunction::Op4xkk);
    chip8.table[0x5] = Slot::Direct(OpFunction::Op5xy0);
    chip8.table[0x6] = Slot::Direct(OpFunction::Op6xkk);
    chip8.table[0x7] = Slot::Direct(OpFunction::Op7xkk);
    chip8.table[0x8] = Slot::Table8;
    chip8.table[0x9] = Slot::Direct(OpFunction::Op9xy0);
    chip8.table[0xA] = Slot::Direct(OpFunction::OpAnnn);
    chip8.table[0xB] = Slot::Direct(OpFunction::OpBnnn);
    chip8.table[0xC] = Slot::Direct(OpFunction::OpCxkk);
    chip8.table[0xD] = Slot::Direct(OpFunction::OpDxyn);
    chip8.table[0xE] = Slot::TableE;
    chip8.table[0xF] = Slot::TableF;

    chip8.table_0 = [OpFunction::Null; 15];
    chip8.table_8 = [OpFunction::Null; 15];
    chip8.table_e = [OpFunction::Null; 15];

    chip8.table_0[0x0] = OpFunction::Op00E0;
    chip8.table_0[0xE] = OpFunction::Op00EE;

    chip8.table_8[0x0] = OpFunction::Op8xy0;
    chip8.table_8[0x1] = OpFunction::Op8xy1;
    chip8.table_8[0x2] = OpFunction::Op8xy2;
    chip8.table_8[0x3] = OpFunction::Op8xy3;
    chip8.table_8[0x4] = OpFunction::Op8xy4;
    chip8.table_8[0x5] = OpFunction::Op8xy5;
    chip8.table_8[0x6] = OpFunction::Op8xy6;
    chip8.table_8[0x7] = OpFunction::Op8xy7;
    chip8.table_8[0xE] = OpFunction::Op8xyE;

    chip8.table_e[0x1] = OpFunction::OpExA1;
    chip8.table_e[0xE] = OpFunction::OpEx9E;

    chip8.table_f = [OpFunction::Null; 102];

    chip8.table_f[0x07] = OpFunction::OpFx07;
    chip8.table_f[0x0A] = OpFunction::OpFx0A;
    chip8.table_f[0x15] = OpFunction::OpFx15;
    chip8.table_f[0x18] = OpFunction::OpFx18;
    chip8.table_f[0x1E] = OpFunction::OpFx1E;
    chip8.table_f[0x29] = OpFunction::OpFx29;
    chip8.table_f[0x33] = OpFunction::OpFx33;
    chip8.table_f[0x55] = OpFunction::OpFx55;
    chip8.table_f[0x65] = OpFunction::OpFx65;
}

} // verus!
