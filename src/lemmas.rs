//! Facts about the console model that hold for every state and input.

use crate::vga_buffer::{
    after_byte, after_string, blank_cell, is_console, is_grid, is_printable, place, sanitize, scroll_up,
    Console, ScreenChar, BUFFER_HEIGHT, BUFFER_WIDTH, PLACEHOLDER,
};
use crate::color::ColorCode;
use vstd::prelude::*;

verus! {

/// The cell just left of the cursor on the bottom row.
pub open spec fn last_written(s: Console) -> ScreenChar {
    s.grid[BUFFER_HEIGHT - 1][s.column - 1]
}

/// Each byte keeps a state valid.
pub proof fn lemma_after_byte_valid(s: Console, b: u8)
    requires
        is_console(s),
    ensures
        is_console(after_byte(s, b)),
        after_byte(s, b).color == s.color,
        b != 0x0a ==> after_byte(s, b).column >= 1,
{
    lemma_scroll_fidelity(s.grid, s.color);
}

/// Any string keeps a state valid and its colour.
pub proof fn lemma_after_string_valid(s: Console, bs: Seq<u8>)
    requires
        is_console(s),
    ensures
        is_console(after_string(s, bs)),
        after_string(s, bs).color == s.color,
    decreases bs.len(),
{
    if bs.len() > 0 {
        lemma_after_string_valid(s, bs.drop_last());
        lemma_after_byte_valid(after_string(s, bs.drop_last()), sanitize(bs.last()));
    }
}

/// Scroll fidelity: after a scroll every row holds what the row below it
/// held, and the bottom row is blank in the current colour.
pub proof fn lemma_scroll_fidelity(g: Seq<Seq<ScreenChar>>, color: ColorCode)
    requires
        is_grid(g),
    ensures
        is_grid(scroll_up(g, color)),
        forall|r: int| 1 <= r < BUFFER_HEIGHT ==> #[trigger] scroll_up(g, color)[r - 1] == g[r],
        forall|c: int|
            0 <= c < BUFFER_WIDTH ==> #[trigger] scroll_up(g, color)[BUFFER_HEIGHT - 1][c]
                == blank_cell(color),
{
    let h = scroll_up(g, color);
    assert forall|r: int| 0 <= r < BUFFER_HEIGHT implies #[trigger] h[r].len() == BUFFER_WIDTH by {
        if r < BUFFER_HEIGHT - 1 {
            assert(h[r] == g[r + 1]);
        }
    }
}

/// A newline, whatever the cursor column, scrolls the grid and moves the
/// cursor to column 0.
pub proof fn lemma_newline_scrolls(s: Console, bs: Seq<u8>)
    ensures
        after_string(s, bs.push(0x0a)) == (Console {
            column: 0,
            color: after_string(s, bs).color,
            grid: scroll_up(after_string(s, bs).grid, after_string(s, bs).color),
        }),
{
    assert(bs.push(0x0a).drop_last() =~= bs);
}

/// Colour stamping: any byte but newline lands just left of the new cursor,
/// in the writer's current colour, whatever the cell held before.
pub proof fn lemma_color_stamping(s: Console, b: u8)
    requires
        is_console(s),
        b != 0x0a,
    ensures
        last_written(after_byte(s, b)) == (ScreenChar { ascii_character: b, color_code: s.color }),
        after_byte(s, b).color == s.color,
{
    lemma_scroll_fidelity(s.grid, s.color);
}

/// A printable byte or a newline at the end of a string is written as it
/// is; a printable one then stands just left of the cursor.
pub proof fn lemma_printable_passthrough(s: Console, bs: Seq<u8>, b: u8)
    requires
        is_console(s),
        is_printable(b) || b == 0x0a,
    ensures
        after_string(s, bs.push(b)) == after_byte(after_string(s, bs), b),
        is_printable(b) ==> last_written(after_string(s, bs.push(b))) == (ScreenChar {
            ascii_character: b,
            color_code: s.color,
        }),
{
    assert(bs.push(b).drop_last() =~= bs);
    lemma_after_string_valid(s, bs);
    if is_printable(b) {
        lemma_color_stamping(after_string(s, bs), b);
    }
}

/// A byte that is neither printable nor a newline at the end of a string is
/// written as the placeholder, which then stands just left of the cursor.
pub proof fn lemma_substitution(s: Console, bs: Seq<u8>, b: u8)
    requires
        is_console(s),
        !is_printable(b),
        b != 0x0a,
    ensures
        after_string(s, bs.push(b)) == after_byte(after_string(s, bs), PLACEHOLDER),
        last_written(after_string(s, bs.push(b))) == (ScreenChar {
            ascii_character: PLACEHOLDER,
            color_code: s.color,
        }),
{
    assert(bs.push(b).drop_last() =~= bs);
    lemma_after_string_valid(s, bs);
    lemma_color_stamping(after_string(s, bs), PLACEHOLDER);
}

/// Printable bytes that fit in the rest of the row move the cursor by their
/// number and never scroll.
pub proof fn lemma_printable_advance(s: Console, bs: Seq<u8>)
    requires
        is_console(s),
        s.column + bs.len() <= BUFFER_WIDTH,
        forall|k: int| 0 <= k < bs.len() ==> is_printable(#[trigger] bs[k]),
    ensures
        after_string(s, bs).column == s.column + bs.len(),
    decreases bs.len(),
{
    if bs.len() > 0 {
        let front = bs.drop_last();
        assert(forall|k: int| 0 <= k < front.len() ==> #[trigger] front[k] == bs[k]);
        lemma_printable_advance(s, front);
        assert(is_printable(bs[bs.len() - 1]));
    }
}

/// Wrap: from the start of a row, `BUFFER_WIDTH` printable bytes fill it, and
/// one more printable byte first scrolls the grid, then stands in column 0
/// of the bottom row.
pub proof fn lemma_wrap(s: Console, bs: Seq<u8>)
    requires
        is_console(s),
        s.column == 0,
        bs.len() == BUFFER_WIDTH + 1,
        forall|k: int| 0 <= k < bs.len() ==> is_printable(#[trigger] bs[k]),
    ensures
        after_string(s, bs.take(BUFFER_WIDTH as int)).column == BUFFER_WIDTH,
        after_string(s, bs) == (Console {
            column: 1,
            color: s.color,
            grid: place(
                scroll_up(after_string(s, bs.take(BUFFER_WIDTH as int)).grid, s.color),
                0,
                ScreenChar { ascii_character: bs[BUFFER_WIDTH as int], color_code: s.color },
            ),
        }),
{
    let front = bs.take(BUFFER_WIDTH as int);
    assert(forall|k: int| 0 <= k < front.len() ==> #[trigger] front[k] == bs[k]);
    lemma_printable_advance(s, front);
    lemma_after_string_valid(s, front);
    assert(bs.drop_last() =~= front);
    assert(is_printable(bs[BUFFER_WIDTH as int]));
}

} // verus!
