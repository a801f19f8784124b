//! The display as a row-major sequence of cells, and what drawing a sprite
//! does to it.
//!
//! A sprite is a sequence of rows, one byte each, the leftmost pixel in the
//! most significant bit. It is drawn at an origin, the number of the cell
//! under its top-left pixel. Pixel `column` of row `row` lands on cell
//! `origin + 64 * row + column`: a row that starts close to the right edge
//! runs on into the next line.

use vstd::prelude::*;

verus! {

/// Whether pixel `column` (0 is leftmost) of a sprite row is set.
pub open spec fn sprite_bit(row: u8, column: int) -> bool {
    0 <= column < 8 && row & (0x80u8 >> (column as u8)) != 0
}

/// Whether a set pixel of `sprite`, drawn at `origin`, lands on `cell`.
pub open spec fn covers(sprite: Seq<u8>, origin: int, cell: int) -> bool {
    let offset = cell - origin;
    &&& 0 <= offset
    &&& offset / 64 < sprite.len()
    &&& sprite_bit(sprite[offset / 64], offset % 64)
}

/// Whether every set pixel of `sprite`, drawn at `origin`, lands inside a
/// display of `cells` cells.
pub open spec fn fits(cells: int, sprite: Seq<u8>, origin: int) -> bool {
    forall|cell: int| covers(sprite, origin, cell) ==> cell < cells
}

/// The display after `sprite` is drawn at `origin`: every covered cell is
/// inverted, every other cell is kept.
pub open spec fn draw(display: Seq<u32>, sprite: Seq<u8>, origin: int) -> Seq<u32> {
    Seq::new(
        display.len(),
        |cell: int|
            if covers(sprite, origin, cell) {
                display[cell] ^ 0xFFFF_FFFFu32
            } else {
                display[cell]
            },
    )
}

/// Whether drawing `sprite` at `origin` turns off a cell that is on.
pub open spec fn collides(display: Seq<u32>, sprite: Seq<u8>, origin: int) -> bool {
    exists|cell: int|
        0 <= cell < display.len() && #[trigger] covers(sprite, origin, cell) && display[cell]
            == 0xFFFF_FFFFu32
}

/// Whether drawing `sprite` at `origin` turns on a cell that is off.
pub open spec fn lights(display: Seq<u32>, sprite: Seq<u8>, origin: int) -> bool {
    exists|cell: int|
        0 <= cell < display.len() && #[trigger] covers(sprite, origin, cell) && display[cell] == 0u32
}

/// Inverting a cell twice gives the cell back, and inverting yields an "on"
/// cell exactly from an "off" cell.
pub proof fn lemma_invert(cell: u32)
    ensures
        (cell ^ 0xFFFF_FFFFu32) ^ 0xFFFF_FFFFu32 == cell,
        (cell ^ 0xFFFF_FFFFu32 == 0xFFFF_FFFFu32) <==> cell == 0u32,
        (cell ^ 0xFFFF_FFFFu32 == 0u32) <==> cell == 0xFFFF_FFFFu32,
{
    assert((cell ^ 0xFFFF_FFFFu32) ^ 0xFFFF_FFFFu32 == cell) by (bit_vector);
    assert((cell ^ 0xFFFF_FFFFu32 == 0xFFFF_FFFFu32) <==> cell == 0u32) by (bit_vector);
    assert((cell ^ 0xFFFF_FFFFu32 == 0u32) <==> cell == 0xFFFF_FFFFu32) by (bit_vector);
}

/// Drawing the same sprite twice at the same origin restores the display, and
/// the second drawing collides exactly when the first turned a cell on.
pub proof fn lemma_draw_twice(display: Seq<u32>, sprite: Seq<u8>, origin: int)
    ensures
        draw(draw(display, sprite, origin), sprite, origin) == display,
        collides(draw(display, sprite, origin), sprite, origin) <==> lights(
            display,
            sprite,
            origin,
        ),
{
    let once = draw(display, sprite, origin);
    let twice = draw(once, sprite, origin);
    assert forall|cell: int| 0 <= cell < display.len() implies twice[cell] == display[cell] by {
        lemma_invert(display[cell]);
    }
    assert(twice =~= display);
    if lights(display, sprite, origin) {
        let cell = choose|cell: int|
            0 <= cell < display.len() && #[trigger] covers(sprite, origin, cell) && display[cell]
                == 0u32;
        lemma_invert(display[cell]);
        assert(covers(sprite, origin, cell) && once[cell] == 0xFFFF_FFFFu32);
    }
    if collides(once, sprite, origin) {
        let cell = choose|cell: int|
            0 <= cell < once.len() && #[trigger] covers(sprite, origin, cell) && once[cell]
                == 0xFFFF_FFFFu32;
        lemma_invert(display[cell]);
        assert(covers(sprite, origin, cell) && display[cell] == 0u32);
    }
}

/// Drawing the first `rows + 1` rows of a sprite is drawing its first `rows`
/// rows and then row number `rows` alone, 64 cells further on for each row
/// above it; the two drawings touch no common cell.
pub proof fn lemma_draw_next_row(display: Seq<u32>, sprite: Seq<u8>, origin: int, rows: int)
    requires
        0 <= rows < sprite.len(),
        0 <= origin,
    ensures
        draw(draw(display, sprite.take(rows), origin), seq![sprite[rows]], origin + 64 * rows)
            == draw(display, sprite.take(rows + 1), origin),
        collides(display, sprite.take(rows + 1), origin) <==> collides(
            display,
            sprite.take(rows),
            origin,
        ) || collides(
            draw(display, sprite.take(rows), origin),
            seq![sprite[rows]],
            origin + 64 * rows,
        ),
{
    let above = sprite.take(rows);
    let row = seq![sprite[rows]];
    let both = sprite.take(rows + 1);
    let start = origin + 64 * rows;
    let partly = draw(display, above, origin);
    assert forall|cell: int|
        covers(both, origin, cell) <==> covers(above, origin, cell) || covers(row, start, cell) by {
        let offset = cell - origin;
        if covers(row, start, cell) {
            assert((cell - start) / 64 == 0);
            assert(offset / 64 == rows && offset % 64 == (cell - start) % 64);
        }
        if covers(both, origin, cell) && !covers(above, origin, cell) {
            assert(offset / 64 == rows);
            assert(0 <= offset % 64 < 8);
            assert(cell - start == offset % 64);
            assert((cell - start) / 64 == 0 && (cell - start) % 64 == offset % 64);
        }
    }
    assert forall|cell: int| !(covers(above, origin, cell) && covers(row, start, cell)) by {
        if covers(row, start, cell) {
            assert((cell - start) / 64 == 0);
            assert((cell - origin) / 64 == rows);
        }
    }
    assert(draw(partly, row, start) =~= draw(display, both, origin));
    if collides(display, both, origin) {
        let cell = choose|cell: int|
            0 <= cell < display.len() && #[trigger] covers(both, origin, cell) && display[cell]
                == 0xFFFF_FFFFu32;
        if covers(row, start, cell) {
            assert(partly[cell] == display[cell]);
            assert(collides(partly, row, start));
        } else {
            assert(covers(above, origin, cell));
        }
    }
    if collides(display, above, origin) {
        let cell = choose|cell: int|
            0 <= cell < display.len() && #[trigger] covers(above, origin, cell) && display[cell]
                == 0xFFFF_FFFFu32;
        assert(covers(both, origin, cell));
    }
    if collides(partly, row, start) {
        let cell = choose|cell: int|
            0 <= cell < partly.len() && #[trigger] covers(row, start, cell) && partly[cell]
                == 0xFFFF_FFFFu32;
        assert(partly[cell] == display[cell]);
        assert(covers(both, origin, cell));
    }
}

/// Drawing no rows changes nothing and collides with nothing.
pub proof fn lemma_draw_nothing(display: Seq<u32>, origin: int)
    ensures
        draw(display, Seq::empty(), origin) == display,
        !collides(display, Seq::empty(), origin),
{
    assert(draw(display, Seq::<u8>::empty(), origin) =~= display);
}

} // verus!
