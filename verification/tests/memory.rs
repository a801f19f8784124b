use chip8::{Chip8, LoadError, FONTSET};

#[test]
fn new_machine_is_all_zero() {
    let machine = Chip8::new();
    assert_eq!(machine.pc, 0x200);
    assert_eq!(machine.index, 0);
    assert_eq!(machine.sp, 0);
    assert_eq!(machine.opcode, 0);
    assert_eq!(machine.delay_timer, 0);
    assert_eq!(machine.sound_timer, 0);
    assert!(machine.registers.iter().all(|r| *r == 0));
    assert!(machine.memory.iter().all(|b| *b == 0));
    assert!(machine.stack.iter().all(|a| *a == 0));
    assert!(machine.keypad.iter().all(|k| *k == 0));
    assert!(machine.display.iter().all(|c| *c == 0));
}

#[test]
fn load_rom_places_bytes_from_0x200() {
    let mut machine = Chip8::new();
    let image: Vec<u8> = (0..100u32).map(|i| (i * 7 + 1) as u8).collect();
    assert_eq!(machine.load_rom(&image), Ok(()));
    for (i, byte) in image.iter().enumerate() {
        assert_eq!(machine.memory[0x200 + i], *byte);
    }
    for at in 0..4096usize {
        if at < 0x200 || at >= 0x200 + image.len() {
            assert_eq!(machine.memory[at], 0);
        }
    }
    assert_eq!(machine.pc, 0x200);
}

#[test]
fn load_rom_keeps_the_font() {
    let mut machine = Chip8::new();
    machine.load_fontset();
    assert_eq!(machine.load_rom(&[0x12, 0x00]), Ok(()));
    for i in 0..80usize {
        assert_eq!(machine.memory[0x50 + i], FONTSET[i]);
    }
    assert_eq!(machine.memory[0x200], 0x12);
    assert_eq!(machine.memory[0x201], 0x00);
    assert_eq!(machine.memory[0x202], 0x00);
}

#[test]
fn load_rom_accepts_an_empty_image() {
    let mut machine = Chip8::new();
    machine.memory[0x200] = 9;
    assert_eq!(machine.load_rom(&[]), Ok(()));
    assert_eq!(machine.memory[0x200], 9);
}

#[test]
fn load_rom_accepts_a_full_image() {
    let mut machine = Chip8::new();
    let image = vec![0xAB; 4096 - 0x200];
    assert_eq!(machine.load_rom(&image), Ok(()));
    assert_eq!(machine.memory[0x1FF], 0);
    assert_eq!(machine.memory[0x200], 0xAB);
    assert_eq!(machine.memory[4095], 0xAB);
}

#[test]
fn load_rom_refuses_an_image_that_is_too_large() {
    let mut machine = Chip8::new();
    machine.memory[0x200] = 9;
    let image = vec![0xAB; 4096 - 0x200 + 1];
    assert_eq!(machine.load_rom(&image), Err(LoadError::TooLarge));
    assert_eq!(machine.memory[0x200], 9);
    assert_eq!(machine.memory[0x201], 0);
    assert_eq!(machine.memory[4095], 0);
}

#[test]
fn load_fontset_places_the_font_at_0x50() {
    let mut machine = Chip8::new();
    machine.load_fontset();
    for i in 0..80usize {
        assert_eq!(machine.memory[0x50 + i], FONTSET[i]);
    }
    for at in 0..4096usize {
        if at < 0x50 || at >= 0xA0 {
            assert_eq!(machine.memory[at], 0);
        }
    }
}

#[test]
fn font_glyphs_are_the_standard_ones() {
    assert_eq!(FONTSET.len(), 80);
    assert_eq!(&FONTSET[0..5], &[0xF0, 0x90, 0x90, 0x90, 0xF0]);
    assert_eq!(&FONTSET[5..10], &[0x20, 0x60, 0x20, 0x20, 0x70]);
    assert_eq!(&FONTSET[35..40], &[0xF0, 0x10, 0x20, 0x40, 0x40]);
    assert_eq!(&FONTSET[75..80], &[0xF0, 0x80, 0xF0, 0x80, 0x80]);
}

#[test]
fn font_address_of_digit_zero_and_nine() {
    let mut machine = Chip8::new();
    machine.registers[0] = 0;
    machine.opcode = 0xF029;
    machine.OP_Fx29();
    assert_eq!(machine.index, 0x50);
    machine.registers[0] = 9;
    machine.OP_Fx29();
    assert_eq!(machine.index, 0x50 + 45);
}

#[test]
fn font_address_of_the_largest_byte() {
    let mut machine = Chip8::new();
    machine.registers[3] = 255;
    machine.opcode = 0xF329;
    machine.OP_Fx29();
    assert_eq!(machine.index, 0x50 + 5 * 255);
}

#[test]
fn add_register_to_index() {
    let mut machine = Chip8::new();
    machine.index = 0xFFF;
    machine.registers[2] = 0xFF;
    machine.registers[0xF] = 5;
    machine.opcode = 0xF21E;
    machine.OP_Fx1E();
    assert_eq!(machine.index, 0x10FE);
    assert_eq!(machine.registers[0xF], 5);
}

#[test]
fn store_decimal_digits() {
    let mut machine = Chip8::new();
    machine.index = 0x300;
    machine.registers[7] = 254;
    machine.opcode = 0xF733;
    machine.OP_Fx33();
    assert_eq!(machine.memory[0x300], 2);
    assert_eq!(machine.memory[0x301], 5);
    assert_eq!(machine.memory[0x302], 4);
    assert_eq!(machine.memory[0x303], 0);
}

#[test]
fn store_decimal_digits_of_small_values() {
    let mut machine = Chip8::new();
    machine.index = 4093;
    machine.memory[4093] = 9;
    machine.memory[4094] = 9;
    machine.memory[4095] = 9;
    machine.registers[7] = 7;
    machine.opcode = 0xF733;
    machine.OP_Fx33();
    assert_eq!(machine.memory[4093], 0);
    assert_eq!(machine.memory[4094], 0);
    assert_eq!(machine.memory[4095], 7);
}

#[test]
fn block_store_includes_the_last_register() {
    let mut machine = Chip8::new();
    for i in 0..16usize {
        machine.registers[i] = 0x10 + i as u8;
    }
    machine.index = 0x400;
    machine.opcode = 0xF355;
    machine.OP_Fx55();
    assert_eq!(&machine.memory[0x400..0x405], &[0x10, 0x11, 0x12, 0x13, 0]);
    assert_eq!(machine.memory[0x3FF], 0);
    assert_eq!(machine.index, 0x400);
}

#[test]
fn block_store_of_register_zero_only() {
    let mut machine = Chip8::new();
    machine.registers[0] = 0xAA;
    machine.registers[1] = 0xBB;
    machine.index = 4095;
    machine.opcode = 0xF055;
    machine.OP_Fx55();
    assert_eq!(machine.memory[4095], 0xAA);
    assert_eq!(machine.memory[4094], 0);
}

#[test]
fn block_load_includes_the_last_register() {
    let mut machine = Chip8::new();
    for i in 0..16usize {
        machine.memory[0x400 + i] = 0x20 + i as u8;
        machine.registers[i] = 0xEE;
    }
    machine.index = 0x400;
    machine.opcode = 0xF265;
    machine.OP_Fx65();
    assert_eq!(&machine.registers[0..4], &[0x20, 0x21, 0x22, 0xEE]);
    assert_eq!(machine.index, 0x400);
}

#[test]
fn block_store_then_load_of_all_registers() {
    let mut machine = Chip8::new();
    for i in 0..16usize {
        machine.registers[i] = 0xF0 + i as u8;
    }
    machine.index = 0xFF0;
    machine.opcode = 0xFF55;
    machine.OP_Fx55();
    for i in 0..16usize {
        machine.registers[i] = 0;
    }
    machine.opcode = 0xFF65;
    machine.OP_Fx65();
    for i in 0..16usize {
        assert_eq!(machine.registers[i], 0xF0 + i as u8);
        assert_eq!(machine.memory[0xFF0 + i], 0xF0 + i as u8);
    }
}
