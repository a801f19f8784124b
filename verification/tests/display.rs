use chip8::{config_chip8_tables, Chip8, Fault};

const ON: u32 = 0xFFFF_FFFF;

fn cell(machine: &Chip8, x: usize, y: usize) -> u32 {
    machine.display[y * 64 + x]
}

fn lit_cells(machine: &Chip8) -> usize {
    machine.display.iter().filter(|c| **c != 0).count()
}

fn draw_setup(x: u8, y: u8, sprite: &[u8]) -> Chip8 {
    let mut machine = Chip8::new();
    machine.index = 0x300;
    for (i, row) in sprite.iter().enumerate() {
        machine.memory[0x300 + i] = *row;
    }
    machine.registers[1] = x;
    machine.registers[2] = y;
    machine.opcode = 0xD120 | sprite.len() as u16;
    machine
}

#[test]
fn clear_turns_every_cell_off() {
    let mut machine = Chip8::new();
    machine.display = [ON; 2048];
    machine.opcode = 0x00E0;
    machine.OP_00E0();
    assert!(machine.display.iter().all(|c| *c == 0));
}

#[test]
fn clear_by_cycle_turns_every_cell_off() {
    let mut machine = Chip8::new();
    config_chip8_tables(&mut machine);
    machine.display = [ON; 2048];
    machine.memory[0x200] = 0x00;
    machine.memory[0x201] = 0xE0;
    machine.cycle();
    assert!(machine.display.iter().all(|c| *c == 0));
    assert_eq!(machine.pc, 0x202);
}

#[test]
fn draw_sets_the_sprite_pixels() {
    let mut machine = draw_setup(3, 2, &[0b1010_0001, 0b1111_1111]);
    machine.registers[0xF] = 7;
    machine.OP_Dxyn();
    let first: Vec<u32> = (3..11).map(|x| cell(&machine, x, 2)).collect();
    assert_eq!(first, vec![ON, 0, ON, 0, 0, 0, 0, ON]);
    for x in 3..11 {
        assert_eq!(cell(&machine, x, 3), ON);
    }
    assert_eq!(lit_cells(&machine), 11);
    assert_eq!(machine.registers[0xF], 0);
    assert_eq!(machine.index, 0x300);
}

#[test]
fn draw_twice_restores_the_display_and_collides() {
    let mut machine = draw_setup(10, 5, &[0xF0, 0x90, 0x90, 0x90, 0xF0]);
    machine.display[5 * 64 + 40] = ON;
    let before = machine.display;
    machine.OP_Dxyn();
    assert_eq!(machine.registers[0xF], 0);
    assert_ne!(machine.display, before);
    assert_eq!(cell(&machine, 10, 5), ON);
    machine.OP_Dxyn();
    assert_eq!(machine.registers[0xF], 1);
    assert_eq!(machine.display, before);
}

#[test]
fn draw_twice_of_an_empty_sprite_does_not_collide() {
    let mut machine = draw_setup(10, 5, &[0x00, 0x00]);
    machine.OP_Dxyn();
    assert_eq!(machine.registers[0xF], 0);
    machine.OP_Dxyn();
    assert_eq!(machine.registers[0xF], 0);
    assert_eq!(lit_cells(&machine), 0);
}

#[test]
fn draw_collision_is_kept_over_later_rows() {
    let mut machine = draw_setup(0, 0, &[0x80, 0x80, 0x80]);
    machine.display[0] = ON;
    machine.OP_Dxyn();
    assert_eq!(machine.registers[0xF], 1);
    assert_eq!(cell(&machine, 0, 0), 0);
    assert_eq!(cell(&machine, 0, 1), ON);
    assert_eq!(cell(&machine, 0, 2), ON);
}

#[test]
fn draw_position_wraps_modulo_the_display_size() {
    let mut machine = draw_setup(64 + 5, 32 + 4, &[0x80]);
    machine.OP_Dxyn();
    assert_eq!(cell(&machine, 5, 4), ON);
    assert_eq!(lit_cells(&machine), 1);
}

#[test]
fn draw_clips_rows_below_the_last_line() {
    let mut machine = draw_setup(0, 30, &[0xFF, 0xFF, 0xFF, 0xFF]);
    machine.OP_Dxyn();
    for x in 0..8 {
        assert_eq!(cell(&machine, x, 30), ON);
        assert_eq!(cell(&machine, x, 31), ON);
        assert_eq!(cell(&machine, x, 0), 0);
        assert_eq!(cell(&machine, x, 1), 0);
    }
    assert_eq!(lit_cells(&machine), 16);
}

#[test]
fn draw_on_the_last_line_draws_one_row() {
    let mut machine = draw_setup(8, 31, &[0xFF, 0xFF]);
    machine.OP_Dxyn();
    for x in 8..16 {
        assert_eq!(cell(&machine, x, 31), ON);
    }
    assert_eq!(lit_cells(&machine), 8);
}

#[test]
fn draw_reads_no_memory_for_clipped_rows() {
    let mut machine = draw_setup(0, 31, &[]);
    machine.index = 4095;
    machine.memory[4095] = 0x80;
    machine.opcode = 0xD12F;
    assert_eq!(machine.fault_of(chip8::OpFunction::OpDxyn), None);
    machine.OP_Dxyn();
    assert_eq!(cell(&machine, 0, 31), ON);
    assert_eq!(lit_cells(&machine), 1);
}

#[test]
fn draw_of_no_rows_only_clears_the_flag() {
    let mut machine = draw_setup(0, 0, &[]);
    machine.registers[0xF] = 1;
    machine.index = 0xFFFF_FFFF;
    assert_eq!(machine.fault_of(chip8::OpFunction::OpDxyn), None);
    machine.OP_Dxyn();
    assert_eq!(machine.registers[0xF], 0);
    assert_eq!(lit_cells(&machine), 0);
}

#[test]
fn draw_near_the_right_edge_runs_into_the_next_line() {
    let mut machine = draw_setup(60, 3, &[0xFF]);
    machine.OP_Dxyn();
    for x in 60..64 {
        assert_eq!(cell(&machine, x, 3), ON);
    }
    for x in 0..4 {
        assert_eq!(cell(&machine, x, 4), ON);
    }
    assert_eq!(lit_cells(&machine), 8);
}

#[test]
fn draw_beyond_the_last_cell_is_a_fault() {
    let machine = draw_setup(60, 31, &[0xFF]);
    assert_eq!(machine.fault_of(chip8::OpFunction::OpDxyn), Some(Fault::DisplayAccess));
    let machine = draw_setup(60, 31, &[0xF0]);
    assert_eq!(machine.fault_of(chip8::OpFunction::OpDxyn), None);
    let machine = draw_setup(60, 30, &[0xFF, 0xF0]);
    assert_eq!(machine.fault_of(chip8::OpFunction::OpDxyn), None);
    let machine = draw_setup(60, 30, &[0xF0, 0x08]);
    assert_eq!(machine.fault_of(chip8::OpFunction::OpDxyn), Some(Fault::DisplayAccess));
}

#[test]
fn draw_up_to_the_last_cell() {
    let mut machine = draw_setup(56, 31, &[0xFF]);
    assert_eq!(machine.fault_of(chip8::OpFunction::OpDxyn), None);
    machine.OP_Dxyn();
    assert_eq!(machine.display[2047], ON);
    assert_eq!(lit_cells(&machine), 8);
}

#[test]
fn draw_past_the_end_of_memory_is_a_fault() {
    let mut machine = draw_setup(0, 0, &[]);
    machine.index = 4094;
    machine.opcode = 0xD123;
    assert_eq!(machine.fault_of(chip8::OpFunction::OpDxyn), Some(Fault::MemoryAccess));
    machine.opcode = 0xD122;
    assert_eq!(machine.fault_of(chip8::OpFunction::OpDxyn), None);
}

#[test]
fn draw_a_font_glyph() {
    let mut machine = Chip8::new();
    machine.load_fontset();
    machine.registers[0] = 0xA;
    machine.opcode = 0xF029;
    machine.OP_Fx29();
    machine.registers[1] = 0;
    machine.registers[2] = 0;
    machine.opcode = 0xD125;
    machine.OP_Dxyn();
    let rows: Vec<u8> = (0..5)
        .map(|y| (0..8).fold(0u8, |row, x| (row << 1) | (cell(&machine, x, y) & 1) as u8))
        .collect();
    assert_eq!(rows, vec![0xF0, 0x90, 0xF0, 0x90, 0x90]);
}
