//! The console writer: a 25 x 80 grid of character cells, each held behind a
//! volatile wrapper so that every load and store of a cell is performed.

use crate::color::{Color, ColorCode};
use volatile::Volatile;
use vstd::prelude::*;
use vstd::string::StringSliceAdditionalSpecFns;

verus! {

/// Number of rows of the grid.
pub const BUFFER_HEIGHT: usize = 25;

/// Number of columns of the grid.
pub const BUFFER_WIDTH: usize = 80;

/// Number of cells of the grid.
pub const BUFFER_CELLS: usize = BUFFER_HEIGHT * BUFFER_WIDTH;

/// The byte stored in place of one that the font cannot render.
pub const PLACEHOLDER: u8 = 0xfe;

/// One cell of the grid: a character byte and its colour attribute.
#[derive(Debug, Clone, Copy, PartialEq, Eq, Structural)]
pub struct ScreenChar {
    pub ascii_character: u8,
    pub color_code: ColorCode,
}

#[verifier::external_type_specification]
#[verifier::external_body]
#[verifier::reject_recursive_types(T)]
pub struct ExVolatile<T: Copy>(Volatile<T>);

/// The cell that a volatile wrapper holds.
pub uninterp spec fn volatile_cell(v: Volatile<ScreenChar>) -> ScreenChar;

/// Relies on volatile::Volatile::new: the wrapper holds the value it is made with.
#[verifier::external_body]
fn new_cell(c: ScreenChar) -> (r: Volatile<ScreenChar>)
    ensures
        volatile_cell(r) == c,
{
    Volatile::new(c)
}

/// Relies on volatile::Volatile::read: a volatile load returns the held value.
#[verifier::external_body]
fn read_cell(v: &Volatile<ScreenChar>) -> (r: ScreenChar)
    ensures
        r == volatile_cell(*v),
{
    v.read()
}

/// Relies on volatile::Volatile::write: a volatile store replaces the held value.
#[verifier::external_body]
fn write_cell(v: &mut Volatile<ScreenChar>, c: ScreenChar)
    ensures
        volatile_cell(*final(v)) == c,
{
    v.write(c)
}

/// The blank cell: a space in the given colour.
pub open spec fn blank_cell(color: ColorCode) -> ScreenChar {
    ScreenChar { ascii_character: 0x20, color_code: color }
}

/// A row of blank cells.
pub open spec fn blank_row(color: ColorCode) -> Seq<ScreenChar> {
    Seq::new(BUFFER_WIDTH as nat, |c: int| blank_cell(color))
}

/// A grid of the right shape: `BUFFER_HEIGHT` rows of `BUFFER_WIDTH` cells.
pub open spec fn is_grid(g: Seq<Seq<ScreenChar>>) -> bool {
    &&& g.len() == BUFFER_HEIGHT
    &&& forall|r: int| 0 <= r < BUFFER_HEIGHT ==> #[trigger] g[r].len() == BUFFER_WIDTH
}

/// The grid as rows, read from its cells in row-major order.
pub open spec fn rows_of(cells: Seq<ScreenChar>) -> Seq<Seq<ScreenChar>> {
    Seq::new(
        BUFFER_HEIGHT as nat,
        |r: int| Seq::new(BUFFER_WIDTH as nat, |c: int| cells[r * BUFFER_WIDTH + c]),
    )
}

/// Scroll-up: every row moves one up, the top row is lost and the bottom row
/// becomes blank in the given colour.
pub open spec fn scroll_up(g: Seq<Seq<ScreenChar>>, color: ColorCode) -> Seq<Seq<ScreenChar>> {
    g.subrange(1, g.len() as int).push(blank_row(color))
}

/// The grid with `ch` placed in column `col` of the bottom row.
pub open spec fn place(g: Seq<Seq<ScreenChar>>, col: int, ch: ScreenChar) -> Seq<Seq<ScreenChar>> {
    g.update(BUFFER_HEIGHT - 1, g[BUFFER_HEIGHT - 1].update(col, ch))
}

/// A console's state in the model: cursor column, current colour and grid.
pub struct Console {
    pub column: nat,
    pub color: ColorCode,
    pub grid: Seq<Seq<ScreenChar>>,
}

/// A state that a writer can be in: a full grid and a cursor within the row.
pub open spec fn is_console(s: Console) -> bool {
    is_grid(s.grid) && s.column <= BUFFER_WIDTH
}

/// A blank grid in the given colour with the cursor at column 0.
pub open spec fn fresh(color: ColorCode) -> Console {
    Console {
        column: 0,
        color,
        grid: Seq::new(BUFFER_HEIGHT as nat, |row: int| blank_row(color)),
    }
}

/// The state after one byte reaches the writer: a newline scrolls and moves
/// the cursor to column 0; any other byte first scrolls if the bottom row is
/// full, then lands at the cursor in the current colour.
pub open spec fn after_byte(s: Console, b: u8) -> Console {
    if b == 0x0a {
        Console { column: 0, color: s.color, grid: scroll_up(s.grid, s.color) }
    } else if s.column >= BUFFER_WIDTH {
        Console {
            column: 1,
            color: s.color,
            grid: place(
                scroll_up(s.grid, s.color),
                0,
                ScreenChar { ascii_character: b, color_code: s.color },
            ),
        }
    } else {
        Console {
            column: s.column + 1,
            color: s.color,
            grid: place(
                s.grid,
                s.column as int,
                ScreenChar { ascii_character: b, color_code: s.color },
            ),
        }
    }
}

/// Printable ASCII: from space to tilde.
pub open spec fn is_printable(b: u8) -> bool {
    0x20 <= b <= 0x7e
}

/// The byte that a string's byte is written as: printable bytes and newline
/// pass unchanged, every other byte becomes the placeholder.
pub open spec fn sanitize(b: u8) -> u8 {
    if is_printable(b) || b == 0x0a {
        b
    } else {
        PLACEHOLDER
    }
}

/// The state after each byte of `bs`, sanitised, reaches the writer in order.
pub open spec fn after_string(s: Console, bs: Seq<u8>) -> Console
    decreases bs.len(),
{
    if bs.len() == 0 {
        s
    } else {
        after_byte(after_string(s, bs.drop_last()), sanitize(bs.last()))
    }
}

/// The cells of the grid, in row-major order.
struct Buffer {
    chars: Vec<Volatile<ScreenChar>>,
}

/// Writes bytes at the cursor on the bottom row of the grid.
pub struct Writer {
    column_position: usize,
    color_code: ColorCode,
    buffer: Buffer,
}

impl Writer {
    /// The writer's invariant: a full grid and a cursor within the row.
    pub closed spec fn wf(self) -> bool {
        &&& self.buffer.chars@.len() == BUFFER_CELLS
        &&& self.column_position <= BUFFER_WIDTH
    }

    /// The cell at index `i` in row-major order.
    closed spec fn cell(self, i: int) -> ScreenChar {
        volatile_cell(self.buffer.chars@[i])
    }

    /// The cells, in row-major order.
    closed spec fn cells(self) -> Seq<ScreenChar> {
        Seq::new(BUFFER_CELLS as nat, |i: int| self.cell(i))
    }

    /// The writer in the model.
    pub closed spec fn view(self) -> Console {
        Console {
            column: self.column_position as nat,
            color: self.color_code,
            grid: rows_of(self.cells()),
        }
    }

    /// A well-formed writer is in a valid state of the model.
    pub proof fn lemma_view_is_console(&self)
        requires
            self.wf(),
        ensures
            is_console(self.view()),
    {
    }

    /// A writer over a blank grid (spaces in `color_code`), with the cursor
    /// at the start of the bottom row.
    pub fn new(color_code: ColorCode) -> (r: Writer)
        ensures
            r.wf(),
            r.view() == fresh(color_code),
    {
        let blank = ScreenChar { ascii_character: 0x20, color_code };
        let mut chars: Vec<Volatile<ScreenChar>> = Vec::new();
        let mut i: usize = 0;
        while i < BUFFER_CELLS
            invariant
                i <= BUFFER_CELLS,
                chars@.len() == i,
                blank == blank_cell(color_code),
                forall|k: int| 0 <= k < i ==> volatile_cell(#[trigger] chars@[k]) == blank,
            decreases BUFFER_CELLS - i,
        {
            chars.push(new_cell(blank));
            i += 1;
        }
        let r = Writer { column_position: 0, color_code, buffer: Buffer { chars } };
        assert(r.view().grid =~~= fresh(color_code).grid) by {
            assert forall|row: int, c: int| 0 <= row < BUFFER_HEIGHT && 0 <= c < BUFFER_WIDTH implies
                #[trigger] r.view().grid[row][c] == blank_cell(color_code) by {
                assert(r.cell(row * BUFFER_WIDTH + c) == blank);
            }
        }
        r
    }

    /// Writes one byte. A newline scrolls the grid up and moves the cursor to
    /// column 0. Any other byte is stored at the cursor on the bottom row in
    /// the current colour, after a scroll if the row is full, and the cursor
    /// moves one column right.
    pub fn write_byte(&mut self, byte: u8)
        requires
            old(self).wf(),
        ensures
            final(self).wf(),
            final(self).view() == after_byte(old(self).view(), byte),
    {
        if byte == 0x0a {
            self.new_line();
        } else {
            if self.column_position >= BUFFER_WIDTH {
                self.new_line();
            }
            let row = BUFFER_HEIGHT - 1;
            let col = self.column_position;
            let color_code = self.color_code;
            let ghost prev = *self;
            let ch = ScreenChar { ascii_character: byte, color_code };
            write_cell(&mut self.buffer.chars[row * BUFFER_WIDTH + col], ch);
            self.column_position += 1;
            assert(self.view().grid =~~= place(prev.view().grid, col as int, ch)) by {
                assert forall|r: int, c: int| 0 <= r < BUFFER_HEIGHT && 0 <= c < BUFFER_WIDTH implies
                    #[trigger] self.view().grid[r][c] == place(prev.view().grid, col as int, ch)[r][c] by {
                    let i = r * BUFFER_WIDTH + c;
                    if i != (BUFFER_HEIGHT - 1) * BUFFER_WIDTH + col {
                        assert(self.buffer.chars@[i] == prev.buffer.chars@[i]);
                    }
                }
            }
        }
    }

    /// Writes each byte of `s` in order: printable ASCII and newline as they
    /// are, every other byte as the placeholder.
    pub fn write_string(&mut self, s: &str)
        requires
            old(self).wf(),
        ensures
            final(self).wf(),
            final(self).view() == after_string(old(self).view(), s.spec_bytes()),
    {
        let bytes = s.as_bytes();
        let mut i: usize = 0;
        while i < bytes.len()
            invariant
                i <= bytes@.len(),
                bytes@ == s.spec_bytes(),
                self.wf(),
                self.view() == after_string(old(self).view(), bytes@.subrange(0, i as int)),
            decreases bytes@.len() - i,
        {
            let byte = bytes[i];
            proof {
                let next = bytes@.subrange(0, i + 1);
                assert(next.drop_last() =~= bytes@.subrange(0, i as int));
                assert(next.last() == byte);
            }
            if (0x20 <= byte && byte <= 0x7e) || byte == 0x0a {
                self.write_byte(byte);
            } else {
                self.write_byte(PLACEHOLDER);
            }
            i += 1;
        }
        assert(bytes@.subrange(0, i as int) =~= bytes@);
    }

    /// The cursor column.
    pub fn column_position(&self) -> (r: usize)
        ensures
            r == self.view().column,
    {
        self.column_position
    }

    /// The current colour attribute.
    pub fn color_code(&self) -> (r: ColorCode)
        ensures
            r == self.view().color,
    {
        self.color_code
    }

    /// The cell at `row`, `col`, or `None` outside the grid.
    pub fn read_char(&self, row: usize, col: usize) -> (r: Option<ScreenChar>)
        requires
            self.wf(),
        ensures
            row < BUFFER_HEIGHT && col < BUFFER_WIDTH ==> r == Some(self.view().grid[row as int][col as int]),
            !(row < BUFFER_HEIGHT && col < BUFFER_WIDTH) ==> r is None,
    {
        if row < BUFFER_HEIGHT && col < BUFFER_WIDTH {
            Some(read_cell(&self.buffer.chars[row * BUFFER_WIDTH + col]))
        } else {
            None
        }
    }

    /// Shifts all lines one line up and clears the last row.
    fn new_line(&mut self)
        requires
            old(self).wf(),
        ensures
            final(self).wf(),
            final(self).view() == (Console {
                column: 0,
                color: old(self).view().color,
                grid: scroll_up(old(self).view().grid, old(self).view().color),
            }),
    {
        let mut row: usize = 1;
        while row < BUFFER_HEIGHT
            invariant
                1 <= row <= BUFFER_HEIGHT,
                self.wf(),
                self.color_code == old(self).color_code,
                self.column_position == old(self).column_position,
                forall|i: int|
                    0 <= i < (row - 1) * BUFFER_WIDTH ==> volatile_cell(#[trigger] self.buffer.chars@[i])
                        == old(self).cell(i + BUFFER_WIDTH),
                forall|i: int|
                    (row - 1) * BUFFER_WIDTH <= i < BUFFER_CELLS ==> volatile_cell(
                        #[trigger] self.buffer.chars@[i],
                    ) == old(self).cell(i),
            decreases BUFFER_HEIGHT - row,
        {
            let mut col: usize = 0;
            while col < BUFFER_WIDTH
                invariant
                    1 <= row < BUFFER_HEIGHT,
                    0 <= col <= BUFFER_WIDTH,
                    self.wf(),
                    self.color_code == old(self).color_code,
                    self.column_position == old(self).column_position,
                    forall|i: int|
                        0 <= i < (row - 1) * BUFFER_WIDTH + col ==> volatile_cell(
                            #[trigger] self.buffer.chars@[i],
                        ) == old(self).cell(i + BUFFER_WIDTH),
                    forall|i: int|
                        (row - 1) * BUFFER_WIDTH + col <= i < BUFFER_CELLS ==> volatile_cell(
                            #[trigger] self.buffer.chars@[i],
                        ) == old(self).cell(i),
                decreases BUFFER_WIDTH - col,
            {
                let character = read_cell(&self.buffer.chars[row * BUFFER_WIDTH + col]);
                write_cell(&mut self.buffer.chars[(row - 1) * BUFFER_WIDTH + col], character);
                col += 1;
            }
            row += 1;
        }
        let ghost mid = *self;
        self.clear_row(BUFFER_HEIGHT - 1);
        self.column_position = 0;
        let ghost color = self.color_code;
        assert forall|r: int, c: int| 0 <= r < BUFFER_HEIGHT && 0 <= c < BUFFER_WIDTH implies
            #[trigger] self.view().grid[r][c] == scroll_up(rows_of(old(self).cells()), color)[r][c] by {
            let i = r * BUFFER_WIDTH + c;
            if r < BUFFER_HEIGHT - 1 {
                assert(mid.cell(i) == old(self).cell(i + BUFFER_WIDTH));
            }
        }
        assert(self.view().grid =~~= scroll_up(rows_of(old(self).cells()), color));
    }

    /// Clears a row by overwriting it with blank characters.
    fn clear_row(&mut self, row: usize)
        requires
            old(self).wf(),
            row < BUFFER_HEIGHT,
        ensures
            final(self).wf(),
            final(self).color_code == old(self).color_code,
            final(self).column_position == old(self).column_position,
            forall|i: int|
                row * BUFFER_WIDTH <= i < row * BUFFER_WIDTH + BUFFER_WIDTH ==> volatile_cell(
                    #[trigger] final(self).buffer.chars@[i],
                ) == blank_cell(old(self).color_code),
            forall|i: int|
                0 <= i < BUFFER_CELLS && !(row * BUFFER_WIDTH <= i < row * BUFFER_WIDTH + BUFFER_WIDTH)
                    ==> volatile_cell(#[trigger] final(self).buffer.chars@[i]) == old(self).cell(i),
    {
        let blank = ScreenChar { ascii_character: 0x20, color_code: self.color_code };
        let mut col: usize = 0;
        while col < BUFFER_WIDTH
            invariant
                row < BUFFER_HEIGHT,
                0 <= col <= BUFFER_WIDTH,
                self.wf(),
                self.color_code == old(self).color_code,
                self.column_position == old(self).column_position,
                blank == blank_cell(self.color_code),
                forall|i: int|
                    row * BUFFER_WIDTH <= i < row * BUFFER_WIDTH + col ==> volatile_cell(
                        #[trigger] self.buffer.chars@[i],
                    ) == blank,
                forall|i: int|
                    0 <= i < BUFFER_CELLS && !(row * BUFFER_WIDTH <= i < row * BUFFER_WIDTH + col)
                        ==> volatile_cell(#[trigger] self.buffer.chars@[i]) == old(self).cell(i),
            decreases BUFFER_WIDTH - col,
        {
            write_cell(&mut self.buffer.chars[row * BUFFER_WIDTH + col], blank);
            col += 1;
        }
    }
}

/// A writer in yellow on black, fresh, that has written the start-up
/// greeting: the byte `H`, then the strings "ello!@ " and "W\u{c3}\u{b6}rld!".
pub fn print_to_screen() -> (r: Writer)
    ensures
        r.wf(),
        r.view() == after_string(
            after_string(
                after_byte(
                    fresh(ColorCode::spec_new(Color::Yellow, Color::Black)),
                    0x48,
                ),
                "ello!@ ".spec_bytes(),
            ),
            "W\u{c3}\u{b6}rld!".spec_bytes(),
        ),
{
    let mut writer = Writer::new(ColorCode::new(Color::Yellow, Color::Black));
    writer.write_byte(0x48);
    writer.write_string("ello!@ ");
    writer.write_string("W\u{c3}\u{b6}rld!");
    writer
}

} // verus!
