//! From keyboard events to the keypad snapshot of the machine.
//!
//! A key is named by its key code, the number that the windowing layer
//! gives it: for a printable key, the code of the character it types.

use vstd::prelude::*;

verus! {

/// The key code of the escape key.
pub const KEY_ESCAPE: i32 = 27;

/// What the window reported.
#[derive(Clone, Copy, Debug, PartialEq, Eq, Structural)]
pub enum InputEvent {
    /// The window was asked to close.
    Quit,
    /// A key, given by its key code, went down.
    KeyDown(i32),
    /// A key, given by its key code, went up.
    KeyUp(i32),
    /// Anything else.
    Other,
}

/// The keypad number of a key, for the sixteen keys that have one:
///
/// ```text
///   keyboard      keypad
///   1 2 3 4       1 2 3 C
///   q w e r       4 5 6 D
///   a s d f       7 8 9 E
///   z x c v       A 0 B F
/// ```
pub open spec fn key_index(key: i32) -> Option<usize> {
    if key == 120 {
        Some(0x0usize)
    } else if key == 49 {
        Some(0x1usize)
    } else if key == 50 {
        Some(0x2usize)
    } else if key == 51 {
        Some(0x3usize)
    } else if key == 113 {
        Some(0x4usize)
    } else if key == 119 {
        Some(0x5usize)
    } else if key == 101 {
        Some(0x6usize)
    } else if key == 97 {
        Some(0x7usize)
    } else if key == 115 {
        Some(0x8usize)
    } else if key == 100 {
        Some(0x9usize)
    } else if key == 122 {
        Some(0xAusize)
    } else if key == 99 {
        Some(0xBusize)
    } else if key == 52 {
        Some(0xCusize)
    } else if key == 114 {
        Some(0xDusize)
    } else if key == 102 {
        Some(0xEusize)
    } else if key == 118 {
        Some(0xFusize)
    } else {
        None
    }
}

/// Whether an event asks the program to end: the window closing, or the
/// escape key going down.
pub open spec fn asks_to_quit(event: InputEvent) -> bool {
    event == InputEvent::Quit || event == InputEvent::KeyDown(KEY_ESCAPE)
}

/// The keypad after one event: a mapped key that goes down sets its entry
/// to 1, one that goes up sets it to 0, and nothing else changes anything.
pub open spec fn keys_after_event(keys: Seq<u8>, event: InputEvent) -> Seq<u8> {
    match event {
        InputEvent::KeyDown(key) => match key_index(key) {
            Some(index) => keys.update(index as int, 1u8),
            None => keys,
        },
        InputEvent::KeyUp(key) => match key_index(key) {
            Some(index) => keys.update(index as int, 0u8),
            None => keys,
        },
        _ => keys,
    }
}

/// The keypad after a sequence of events, taken in order.
pub open spec fn keys_after(keys: Seq<u8>, events: Seq<InputEvent>) -> Seq<u8>
    decreases events.len(),
{
    if events.len() == 0 {
        keys
    } else {
        keys_after_event(keys_after(keys, events.drop_last()), events.last())
    }
}

/// Maps a key code to its keypad number.
pub fn key_map(key: i32) -> (index: Option<usize>)
    ensures
        index == key_index(key),
        index is Some ==> index->0 < 16,
{
    match key {
        120 => Some(0x0),
        49 => Some(0x1),
        50 => Some(0x2),
        51 => Some(0x3),
        113 => Some(0x4),
        119 => Some(0x5),
        101 => Some(0x6),
        97 => Some(0x7),
        115 => Some(0x8),
        100 => Some(0x9),
        122 => Some(0xA),
        99 => Some(0xB),
        52 => Some(0xC),
        114 => Some(0xD),
        102 => Some(0xE),
        118 => Some(0xF),
        _ => None,
    }
}

/// Applies a batch of events to the keypad snapshot, in order, and tells
/// whether any of them asks the program to end.
pub fn process_input(keys: &mut [u8; 16], events: &[InputEvent]) -> (quit: bool)
    ensures
        final(keys)@ == keys_after(old(keys)@, events@),
        quit <==> exists|i: int| 0 <= i < events@.len() && asks_to_quit(#[trigger] events@[i]),
{
    let mut quit = false;
    let mut done: usize = 0;
    while done < events.len()
        invariant
            done <= events@.len(),
            keys@ == keys_after(old(keys)@, events@.take(done as int)),
            quit <==> exists|i: int| 0 <= i < done && asks_to_quit(#[trigger] events@[i]),
        decreases events@.len() - done,
    {
        proof {
            assert(events@.take(done + 1).drop_last() =~= events@.take(done as int));
        }
        match events[done] {
            InputEvent::Quit => {
                quit = true;
            },
            InputEvent::KeyDown(key) => {
                if key == KEY_ESCAPE {
                    quit = true;
                } else if let Some(index) = key_map(key) {
                    keys[index] = 1;
                }
            },
            InputEvent::KeyUp(key) => {
                if let Some(index) = key_map(key) {
                    keys[index] = 0;
                }
            },
            InputEvent::Other => {},
        }
        done += 1;
    }
    proof {
        assert(events@.take(done as int) =~= events@);
    }
    quit
}

} // verus!
