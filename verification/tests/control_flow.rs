use chip8::Chip8;

#[test]
fn jump_sets_the_program_counter() {
    let mut machine = Chip8::new();
    machine.opcode = 0x1ABC;
    machine.OP_1nnn();
    assert_eq!(machine.pc, 0xABC);
    assert_eq!(machine.sp, 0);
}

#[test]
fn call_pushes_the_program_counter() {
    let mut machine = Chip8::new();
    machine.pc = 0x202;
    machine.opcode = 0x2300;
    machine.OP_2nnn();
    assert_eq!(machine.pc, 0x300);
    assert_eq!(machine.sp, 1);
    assert_eq!(machine.stack[0], 0x202);
}

#[test]
fn call_then_return_restores_the_program_counter() {
    let mut machine = Chip8::new();
    machine.pc = 0x246;
    machine.opcode = 0x2F00;
    machine.OP_2nnn();
    machine.opcode = 0x00EE;
    machine.OP_00EE();
    assert_eq!(machine.pc, 0x246);
    assert_eq!(machine.sp, 0);
}

#[test]
fn nested_calls_return_in_reverse_order() {
    let mut machine = Chip8::new();
    for depth in 0..16u16 {
        machine.pc = 0x200 + 2 * depth;
        machine.opcode = 0x2400;
        machine.OP_2nnn();
    }
    assert_eq!(machine.sp, 16);
    for depth in (0..16u16).rev() {
        machine.OP_00EE();
        assert_eq!(machine.pc, 0x200 + 2 * depth);
    }
    assert_eq!(machine.sp, 0);
}

#[test]
fn skip_if_equal_immediate() {
    let mut machine = Chip8::new();
    machine.registers[4] = 0x33;
    machine.opcode = 0x3433;
    machine.OP_3xkk();
    assert_eq!(machine.pc, 0x202);
    machine.opcode = 0x3434;
    machine.OP_3xkk();
    assert_eq!(machine.pc, 0x202);
}

#[test]
fn skip_if_not_equal_immediate() {
    let mut machine = Chip8::new();
    machine.registers[4] = 0x33;
    machine.opcode = 0x4433;
    machine.OP_4xkk();
    assert_eq!(machine.pc, 0x200);
    machine.opcode = 0x4434;
    machine.OP_4xkk();
    assert_eq!(machine.pc, 0x202);
}

#[test]
fn skip_if_registers_equal() {
    let mut machine = Chip8::new();
    machine.registers[1] = 8;
    machine.registers[2] = 8;
    machine.registers[3] = 9;
    machine.opcode = 0x5120;
    machine.OP_5xy0();
    assert_eq!(machine.pc, 0x202);
    machine.opcode = 0x5130;
    machine.OP_5xy0();
    assert_eq!(machine.pc, 0x202);
}

#[test]
fn skip_if_registers_differ() {
    let mut machine = Chip8::new();
    machine.registers[1] = 8;
    machine.registers[2] = 8;
    machine.registers[3] = 9;
    machine.opcode = 0x9120;
    machine.OP_9xy0();
    assert_eq!(machine.pc, 0x200);
    machine.opcode = 0x9130;
    machine.OP_9xy0();
    assert_eq!(machine.pc, 0x202);
}

#[test]
fn jump_with_offset_adds_register_zero() {
    let mut machine = Chip8::new();
    machine.registers[0] = 0xFF;
    machine.opcode = 0xBFFF;
    machine.OP_Bnnn();
    assert_eq!(machine.pc, 0x10FE);
}

#[test]
fn set_index() {
    let mut machine = Chip8::new();
    machine.opcode = 0xA123;
    machine.OP_Annn();
    assert_eq!(machine.index, 0x123);
}

#[test]
fn skip_if_key_down() {
    let mut machine = Chip8::new();
    machine.registers[2] = 0xB;
    machine.keypad[0xB] = 1;
    machine.opcode = 0xE29E;
    machine.OP_Ex9E();
    assert_eq!(machine.pc, 0x202);
    machine.keypad[0xB] = 0;
    machine.OP_Ex9E();
    assert_eq!(machine.pc, 0x202);
}

#[test]
fn skip_if_key_up() {
    let mut machine = Chip8::new();
    machine.registers[2] = 0xB;
    machine.keypad[0xB] = 1;
    machine.opcode = 0xE2A1;
    machine.OP_ExA1();
    assert_eq!(machine.pc, 0x200);
    machine.keypad[0xB] = 0;
    machine.OP_ExA1();
    assert_eq!(machine.pc, 0x202);
}

#[test]
fn wait_for_key_takes_the_lowest_key_down() {
    let mut machine = Chip8::new();
    machine.pc = 0x202;
    machine.keypad[7] = 1;
    machine.keypad[3] = 1;
    machine.keypad[0xF] = 1;
    machine.opcode = 0xF50A;
    machine.OP_Fx0A();
    assert_eq!(machine.registers[5], 3);
    assert_eq!(machine.pc, 0x202);
    assert_eq!(machine.first_pressed_key(), 3);
}

#[test]
fn wait_for_key_finds_each_key() {
    for key in 0..16usize {
        let mut machine = Chip8::new();
        machine.pc = 0x202;
        machine.registers[5] = 0xEE;
        machine.keypad[key] = 0xFF;
        machine.opcode = 0xF50A;
        machine.OP_Fx0A();
        assert_eq!(machine.registers[5], key as u8);
        assert_eq!(machine.pc, 0x202);
    }
}

#[test]
fn wait_for_key_rewinds_without_a_key() {
    let mut machine = Chip8::new();
    machine.pc = 0x202;
    machine.registers[5] = 0xEE;
    machine.opcode = 0xF50A;
    machine.OP_Fx0A();
    assert_eq!(machine.registers[5], 0xEE);
    assert_eq!(machine.pc, 0x200);
    assert_eq!(machine.first_pressed_key(), 16);
}

#[test]
fn timers_transfer() {
    let mut machine = Chip8::new();
    machine.registers[1] = 0x42;
    machine.opcode = 0xF115;
    machine.OP_Fx15();
    assert_eq!(machine.delay_timer, 0x42);
    assert_eq!(machine.sound_timer, 0);
    machine.registers[1] = 0x17;
    machine.opcode = 0xF118;
    machine.OP_Fx18();
    assert_eq!(machine.sound_timer, 0x17);
    assert_eq!(machine.delay_timer, 0x42);
    machine.opcode = 0xF907;
    machine.OP_Fx07();
    assert_eq!(machine.registers[9], 0x42);
}

#[test]
fn null_handler_changes_nothing() {
    let mut machine = Chip8::new();
    machine.registers[3] = 3;
    machine.opcode = 0x5555;
    machine.OP_null();
    assert_eq!(machine.registers[3], 3);
    assert_eq!(machine.pc, 0x200);
    assert_eq!(machine.opcode, 0x5555);
}
