use chip8::opcode;
use chip8::platform::KEY_ESCAPE;
use chip8::{key_map, process_input, InputEvent};

fn code(key: char) -> i32 {
    key as i32
}

#[test]
fn key_map_covers_the_sixteen_keys() {
    let layout = [
        ('x', 0x0),
        ('1', 0x1),
        ('2', 0x2),
        ('3', 0x3),
        ('q', 0x4),
        ('w', 0x5),
        ('e', 0x6),
        ('a', 0x7),
        ('s', 0x8),
        ('d', 0x9),
        ('z', 0xA),
        ('c', 0xB),
        ('4', 0xC),
        ('r', 0xD),
        ('f', 0xE),
        ('v', 0xF),
    ];
    for (key, index) in layout {
        assert_eq!(key_map(code(key)), Some(index));
    }
}

#[test]
fn key_map_knows_no_other_key() {
    let mapped = "x123qweasdzc4rfv";
    let mut count = 0;
    for key in -300..1000 {
        match key_map(key) {
            Some(index) => {
                assert!(index < 16);
                assert!(mapped.contains(char::from_u32(key as u32).unwrap()));
                count += 1;
            }
            None => {}
        }
    }
    assert_eq!(count, 16);
    assert_eq!(key_map(KEY_ESCAPE), None);
    assert_eq!(key_map(code('X')), None);
    assert_eq!(key_map(code('5')), None);
    assert_eq!(key_map(i32::MAX), None);
    assert_eq!(key_map(i32::MIN), None);
}

#[test]
fn process_input_sets_and_clears_keys() {
    let mut keys = [0u8; 16];
    let quit = process_input(
        &mut keys,
        &[
            InputEvent::KeyDown(code('x')),
            InputEvent::KeyDown(code('v')),
            InputEvent::KeyDown(code('q')),
            InputEvent::KeyUp(code('v')),
            InputEvent::Other,
        ],
    );
    assert!(!quit);
    let mut expected = [0u8; 16];
    expected[0] = 1;
    expected[4] = 1;
    assert_eq!(keys, expected);
}

#[test]
fn process_input_takes_events_in_order() {
    let mut keys = [0u8; 16];
    process_input(&mut keys, &[InputEvent::KeyUp(code('a')), InputEvent::KeyDown(code('a'))]);
    assert_eq!(keys[7], 1);
    process_input(&mut keys, &[InputEvent::KeyDown(code('a')), InputEvent::KeyUp(code('a'))]);
    assert_eq!(keys[7], 0);
}

#[test]
fn process_input_ignores_unmapped_keys() {
    let mut keys = [0u8; 16];
    keys[3] = 1;
    let quit =
        process_input(&mut keys, &[InputEvent::KeyDown(code('p')), InputEvent::KeyUp(code('5'))]);
    assert!(!quit);
    let mut expected = [0u8; 16];
    expected[3] = 1;
    assert_eq!(keys, expected);
}

#[test]
fn process_input_quits_on_close_and_on_escape() {
    let mut keys = [0u8; 16];
    assert!(process_input(&mut keys, &[InputEvent::Quit]));
    assert!(process_input(&mut keys, &[InputEvent::KeyDown(KEY_ESCAPE)]));
    assert!(!process_input(&mut keys, &[InputEvent::KeyUp(KEY_ESCAPE)]));
    assert!(!process_input(&mut keys, &[]));
    assert_eq!(keys, [0u8; 16]);
}

#[test]
fn process_input_handles_the_events_after_a_quit() {
    let mut keys = [0u8; 16];
    let quit = process_input(
        &mut keys,
        &[InputEvent::KeyDown(code('1')), InputEvent::Quit, InputEvent::KeyDown(code('2'))],
    );
    assert!(quit);
    assert_eq!(keys[1], 1);
    assert_eq!(keys[2], 1);
}

#[test]
fn opcode_fields() {
    let word = 0xD7A3;
    assert_eq!(opcode::class(word), 0xD);
    assert_eq!(opcode::x(word), 0x7);
    assert_eq!(opcode::y(word), 0xA);
    assert_eq!(opcode::n(word), 0x3);
    assert_eq!(opcode::kk(word), 0xA3);
    assert_eq!(opcode::nnn(word), 0x7A3);
    assert_eq!(opcode::word(0xD7, 0xA3), 0xD7A3);
    assert_eq!(opcode::word(0xFF, 0xFF), 0xFFFF);
    assert_eq!(opcode::word(0x00, 0x01), 0x0001);
}
