//! Laws of the model that relate several instructions or several states.

use vstd::prelude::*;
use crate::dispatch::{standard_handler, OpFunction};
use crate::display::{lemma_draw_twice, lemma_invert, lights};
use crate::state::State;

verus! {

/// A call that is followed at once by a return leaves the program counter
/// and the stack pointer as they were before the call, and the return finds
/// the stack pointer in the range in which it can pop.
pub proof fn lemma_call_then_return(s: State)
    requires
        s.wf(),
        s.sp < 16,
    ensures
        0 < s.op_2nnn().sp <= 16,
        s.op_2nnn().op_00ee().pc == s.pc,
        s.op_2nnn().op_00ee().sp == s.sp,
{
}

/// Drawing a sprite twice at the same position leaves the display as it
/// was, and the second drawing sets the flag exactly when the first turned a
/// cell on.
///
/// The position is read from `Vx` and `Vy` and the first drawing writes
/// `VF`, so the second drawing is at the same position unless a position
/// register is `VF` and the flag moves it.
pub proof fn lemma_draw_twice_restores(s: State)
    requires
        s.wf(),
        s.op_dxyn().sprite_x() == s.sprite_x(),
        s.op_dxyn().sprite_y() == s.sprite_y(),
    ensures
        s.draw_fault() is None ==> s.op_dxyn().draw_fault() is None,
        s.op_dxyn().op_dxyn().display == s.display,
        s.op_dxyn().op_dxyn().registers[0xF] == 1 <==> lights(
            s.display,
            s.sprite(),
            s.sprite_origin(),
        ),
        s.op_dxyn().op_dxyn().registers[0xF] <= 1,
{
    let once = s.op_dxyn();
    assert(once.sprite() =~= s.sprite());
    assert(once.sprite_origin() == s.sprite_origin());
    lemma_draw_twice(s.display, s.sprite(), s.sprite_origin());
}

/// Drawing leaves the position of the sprite where it was if neither
/// position register is the flag register.
pub proof fn lemma_draw_keeps_position(s: State)
    requires
        s.wf(),
        s.x() != 0xF,
        s.y() != 0xF,
    ensures
        s.op_dxyn().sprite_x() == s.sprite_x(),
        s.op_dxyn().sprite_y() == s.sprite_y(),
{
}

/// Loading an image into a memory whose program space is all zero puts byte
/// `i` of the image at address `0x200 + i` and leaves every other byte of
/// program space zero.
pub proof fn lemma_load_into_empty_program_space(s: State, image: Seq<u8>)
    requires
        s.wf(),
        image.len() <= 4096 - 0x200,
        forall|at: int| 0x200 <= at < 4096 ==> s.memory[at] == 0,
    ensures
        forall|i: int| 0 <= i < image.len() ==> s.with_image(image).memory[0x200 + i] == image[i],
        forall|at: int|
            0x200 + image.len() <= at < 4096 ==> s.with_image(image).memory[at] == 0,
        forall|at: int| 0 <= at < 0x200 ==> s.with_image(image).memory[at] == s.memory[at],
{
}

/// The font and a program image do not overlap: loading either leaves the
/// bytes of the other alone, in whichever order they are loaded.
pub proof fn lemma_font_and_image_commute(s: State, image: Seq<u8>)
    requires
        s.wf(),
        image.len() <= 4096 - 0x200,
    ensures
        s.with_font().with_image(image) == s.with_image(image).with_font(),
{
    assert(s.with_font().with_image(image).memory =~= s.with_image(image).with_font().memory);
}

/// A tick takes one from each timer that is not zero, so two ticks in a row
/// never take a timer below zero.
pub proof fn lemma_tick_once(s: State)
    ensures
        s.tick().delay_timer == if s.delay_timer == 0 {
            0
        } else {
            s.delay_timer - 1
        },
        s.tick().sound_timer == if s.sound_timer == 0 {
            0
        } else {
            s.sound_timer - 1
        },
        s.tick().tick().delay_timer == if s.delay_timer <= 1 {
            0
        } else {
            s.delay_timer - 2
        },
{
}

/// With the standard tables, the handler of the current word is the one that
/// `standard_handler` names, and a word that no table maps changes nothing.
pub proof fn lemma_standard_dispatch(s: State, random: u8)
    requires
        s.wf(),
        s.has_standard_tables(),
    ensures
        s.handler() == standard_handler(s.opcode),
        standard_handler(s.opcode) == OpFunction::Null ==> s.execute(s.handler(), random) == s,
{
}

/// Whether every display cell is either off or on.
pub open spec fn display_is_canonical(s: State) -> bool {
    forall|cell: int|
        0 <= cell < s.display.len() ==> s.display[cell] == 0u32 || s.display[cell]
            == 0xFFFF_FFFFu32
}

/// No instruction takes the stack pointer above sixteen.
pub proof fn lemma_stack_stays_bounded(s: State, op: OpFunction, random: u8)
    requires
        s.wf(),
        s.sp <= 16,
        s.fault_of(op) is None,
    ensures
        s.execute(op, random).sp <= 16,
        s.execute(op, random).wf(),
{
}

/// No instruction leaves a display cell in a state other than off or on.
pub proof fn lemma_display_stays_canonical(s: State, op: OpFunction, random: u8)
    requires
        s.wf(),
        display_is_canonical(s),
    ensures
        display_is_canonical(s.execute(op, random)),
{
    if op == OpFunction::OpDxyn {
        let after = s.op_dxyn();
        assert forall|cell: int| 0 <= cell < after.display.len() implies after.display[cell] == 0u32
            || after.display[cell] == 0xFFFF_FFFFu32 by {
            lemma_invert(s.display[cell]);
        }
    }
}

/// A cycle keeps both: the stack pointer stays at sixteen or below and the
/// display stays canonical.
pub proof fn lemma_cycle_keeps_invariants(s: State, random: u8)
    requires
        s.wf(),
        s.sp <= 16,
        display_is_canonical(s),
        s.cycle_fault() is None,
    ensures
        s.cycle(random).wf(),
        s.cycle(random).sp <= 16,
        display_is_canonical(s.cycle(random)),
{
    let fetched = s.fetch();
    lemma_stack_stays_bounded(fetched, fetched.handler(), random);
    lemma_display_stays_canonical(fetched, fetched.handler(), random);
}

} // verus!
