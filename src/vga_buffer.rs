use vstd::prelude::*;
use vstd::string::StringSliceAdditionalSpecFns;

verus! {

/// Number of rows of the character grid.
pub const BUFFER_HEIGHT: usize = 25;

/// Number of columns of the character grid.
pub const BUFFER_WIDTH: usize = 80;

/// Number of cells of the character grid.
pub const BUFFER_CELLS: usize = 2000;

/// Code point written for a byte that the grid cannot show.
pub const UNPRINTABLE: u8 = 0xfe;

/// The colours a cell can take.
#[derive(Debug, Clone, Copy, PartialEq, Eq, Structural)]
pub enum Color {
    Black,
    Blue,
    Green,
    Cyan,
    Red,
    Magenta,
    Brown,
    LightGray,
    DarkGray,
    LightBlue,
    LightGreen,
    LightCyan,
    LightRed,
    Pink,
    Yellow,
    White,
}

impl Color {
    /// The 4-bit hardware number of the colour.
    pub open spec fn spec_index(self) -> u8 {
        match self {
            Color::Black => 0,
            Color::Blue => 1,
            Color::Green => 2,
            Color::Cyan => 3,
            Color::Red => 4,
            Color::Magenta => 5,
            Color::Brown => 6,
            Color::LightGray => 7,
            Color::DarkGray => 8,
            Color::LightBlue => 9,
            Color::LightGreen => 10,
            Color::LightCyan => 11,
            Color::LightRed => 12,
            Color::Pink => 13,
            Color::Yellow => 14,
            Color::White => 15,
        }
    }

    /// The 4-bit hardware number of the colour.
    pub fn index(self) -> (r: u8)
        ensures
            r == self.spec_index(),
    {
        match self {
            Color::Black => 0,
            Color::Blue => 1,
            Color::Green => 2,
            Color::Cyan => 3,
            Color::Red => 4,
            Color::Magenta => 5,
            Color::Brown => 6,
            Color::LightGray => 7,
            Color::DarkGray => 8,
            Color::LightBlue => 9,
            Color::LightGreen => 10,
            Color::LightCyan => 11,
            Color::LightRed => 12,
            Color::Pink => 13,
            Color::Yellow => 14,
            Color::White => 15,
        }
    }
}

/// Attribute byte of a cell: background colour in the high four bits,
/// foreground colour in the low four.
#[derive(Debug, Clone, Copy, PartialEq, Eq, Structural)]
pub struct ColorCode(u8);

impl ColorCode {
    /// The attribute byte.
    pub closed spec fn spec_value(self) -> u8 {
        self.0
    }

    /// The attribute byte for `foreground` on `background`.
    pub closed spec fn spec_new(foreground: Color, background: Color) -> ColorCode {
        ColorCode((background.spec_index() * 16 + foreground.spec_index()) as u8)
    }

    /// The attribute byte for `foreground` on `background`.
    pub fn new(foreground: Color, background: Color) -> (r: ColorCode)
        ensures
            r == ColorCode::spec_new(foreground, background),
            r.spec_value() == background.spec_index() * 16 + foreground.spec_index(),
    {
        let f: u8 = foreground.index();
        let b: u8 = background.index();
        ColorCode(b * 16 + f)
    }

    /// The attribute byte.
    pub fn value(&self) -> (r: u8)
        ensures
            r == self.spec_value(),
    {
        self.0
    }
}

/// One cell of the grid: a code point and its colours.
#[derive(Debug, Clone, Copy)]
pub struct ScreenChar {
    pub ascii_character: u8,
    pub color_code: ColorCode,
}

/// Cells compare by code point alone; the colours do not count.
impl PartialEq for ScreenChar {
    fn eq(&self, other: &ScreenChar) -> (r: bool) {
        self.ascii_character == other.ascii_character
    }
}

impl vstd::std_specs::cmp::PartialEqSpecImpl for ScreenChar {
    open spec fn obeys_eq_spec() -> bool {
        true
    }

    open spec fn eq_spec(&self, other: &ScreenChar) -> bool {
        self.ascii_character == other.ascii_character
    }
}

/// Position in the flat grid of the cell at `row`, `col`.
pub open spec fn cell_index(row: int, col: int) -> int {
    row * BUFFER_WIDTH + col
}

/// A blank cell in colour `color`.
pub open spec fn blank(color: ColorCode) -> ScreenChar {
    ScreenChar { ascii_character: 32, color_code: color }
}

/// The grid moved up by one row, with a blank last row.
pub open spec fn scrolled(cells: Seq<ScreenChar>, color: ColorCode) -> Seq<ScreenChar> {
    Seq::new(
        BUFFER_CELLS as nat,
        |i: int|
            if i < cell_index(BUFFER_HEIGHT - 1, 0) {
                cells[i + BUFFER_WIDTH]
            } else {
                blank(color)
            },
    )
}

/// Cells and cursor column after one byte of text is written in colour `color`.
pub open spec fn byte_effect(
    state: (Seq<ScreenChar>, nat),
    byte: u8,
    color: ColorCode,
) -> (Seq<ScreenChar>, nat) {
    if byte == 10 {
        (scrolled(state.0, color), 0)
    } else {
        let cells = if state.1 >= BUFFER_WIDTH { scrolled(state.0, color) } else { state.0 };
        let col: nat = if state.1 >= BUFFER_WIDTH { 0 } else { state.1 };
        (
            cells.update(
                cell_index(BUFFER_HEIGHT - 1, col as int),
                ScreenChar { ascii_character: byte, color_code: color },
            ),
            col + 1,
        )
    }
}

/// The byte that text output writes for `byte`: printable ASCII and newline
/// as they are, anything else as a block.
pub open spec fn shown_byte(byte: u8) -> u8 {
    if (0x20 <= byte && byte <= 0x7e) || byte == 10 {
        byte
    } else {
        UNPRINTABLE
    }
}

/// Cells and cursor column after `bytes` are written in order.
pub open spec fn bytes_effect(
    state: (Seq<ScreenChar>, nat),
    bytes: Seq<u8>,
    color: ColorCode,
) -> (Seq<ScreenChar>, nat)
    decreases bytes.len(),
{
    if bytes.len() == 0 {
        state
    } else {
        byte_effect(bytes_effect(state, bytes.drop_last(), color), shown_byte(bytes.last()), color)
    }
}

/// Cursor of text placed by `write_string_at` after one more byte: a newline
/// moves to the start of the next row, and a byte at the end of a row wraps.
pub open spec fn text_step(cursor: (nat, nat), byte: u8) -> (nat, nat) {
    if byte == 10 {
        (cursor.0 + 1, 0)
    } else {
        let at = text_write_pos(cursor);
        (at.0, at.1 + 1)
    }
}

/// Where `write_string_at` puts a byte other than newline when its cursor
/// stands at `cursor`.
pub open spec fn text_write_pos(cursor: (nat, nat)) -> (nat, nat) {
    if cursor.1 >= BUFFER_WIDTH {
        (cursor.0 + 1, 0)
    } else {
        cursor
    }
}

/// Cursor after `bytes` are placed from `start`.
pub open spec fn text_cursor(start: (nat, nat), bytes: Seq<u8>) -> (nat, nat)
    decreases bytes.len(),
{
    if bytes.len() == 0 {
        start
    } else {
        text_step(text_cursor(start, bytes.drop_last()), bytes.last())
    }
}

/// Every byte of `bytes` placed from `start` lands inside the grid, and no
/// newline moves the cursor further than one row past it.
pub open spec fn text_fits(start: (nat, nat), bytes: Seq<u8>) -> bool
    decreases bytes.len(),
{
    if bytes.len() == 0 {
        true
    } else {
        &&& text_fits(start, bytes.drop_last())
        &&& if bytes.last() == 10 {
            text_cursor(start, bytes.drop_last()).0 < BUFFER_HEIGHT
        } else {
            text_write_pos(text_cursor(start, bytes.drop_last())).0 < BUFFER_HEIGHT
        }
    }
}

/// Cells after `bytes` are placed from `start` in colour `color`.
pub open spec fn text_effect(
    cells: Seq<ScreenChar>,
    start: (nat, nat),
    bytes: Seq<u8>,
    color: ColorCode,
) -> Seq<ScreenChar>
    decreases bytes.len(),
{
    if bytes.len() == 0 {
        cells
    } else {
        let before = text_effect(cells, start, bytes.drop_last(), color);
        if bytes.last() == 10 {
            before
        } else {
            let at = text_write_pos(text_cursor(start, bytes.drop_last()));
            before.update(
                cell_index(at.0 as int, at.1 as int),
                ScreenChar { ascii_character: bytes.last(), color_code: color },
            )
        }
    }
}

/// Text that fits keeps fitting when cut short.
proof fn lemma_text_fits_prefix(start: (nat, nat), bytes: Seq<u8>, k: int)
    requires
        text_fits(start, bytes),
        0 <= k <= bytes.len(),
    ensures
        text_fits(start, bytes.take(k)),
    decreases bytes.len(),
{
    if k < bytes.len() {
        assert(bytes.drop_last().take(k) =~= bytes.take(k));
        lemma_text_fits_prefix(start, bytes.drop_last(), k);
    } else {
        assert(bytes.take(k) =~= bytes);
    }
}

/// An in-memory character grid of `BUFFER_HEIGHT` rows and `BUFFER_WIDTH`
/// columns, with a text cursor on its last row.
pub struct Writer {
    column_position: usize,
    color_code: ColorCode,
    cells: Vec<ScreenChar>,
}

impl Writer {
    /// The cells, row by row.
    pub closed spec fn cells(&self) -> Seq<ScreenChar> {
        self.cells@
    }

    /// Column of the text cursor on the last row.
    pub closed spec fn column(&self) -> nat {
        self.column_position as nat
    }

    /// Colour of the text that the writer puts out.
    pub closed spec fn color(&self) -> ColorCode {
        self.color_code
    }

    /// The grid has its size and the cursor stays within one past the last column.
    pub open spec fn wf(&self) -> bool {
        &&& self.cells().len() == BUFFER_CELLS
        &&& self.column() <= BUFFER_WIDTH
    }

    /// The cell at `row`, `col`.
    pub open spec fn cell(&self, row: int, col: int) -> ScreenChar {
        self.cells()[cell_index(row, col)]
    }

    /// A blank grid in colour `color_code`, with the cursor at the first column.
    pub fn new(color_code: ColorCode) -> (r: Writer)
        ensures
            r.wf(),
            r.cells() == Seq::new(BUFFER_CELLS as nat, |i: int| blank(color_code)),
            r.column() == 0,
            r.color() == color_code,
    {
        let mut cells: Vec<ScreenChar> = Vec::new();
        let mut i: usize = 0;
        while i < BUFFER_CELLS
            invariant
                i <= BUFFER_CELLS,
                cells@ == Seq::new(i as nat, |j: int| blank(color_code)),
            decreases BUFFER_CELLS - i,
        {
            cells.push(ScreenChar { ascii_character: 32, color_code });
            i = i + 1;
            assert(cells@ =~= Seq::new(i as nat, |j: int| blank(color_code)));
        }
        Writer { column_position: 0, color_code, cells }
    }

    /// Move every row up by one, blank the last row and put the cursor at its start.
    fn new_line(&mut self)
        requires
            old(self).wf(),
        ensures
            final(self).wf(),
            final(self).color() == old(self).color(),
            final(self).cells() == scrolled(old(self).cells(), old(self).color()),
            final(self).column() == 0,
    {
        let mut i: usize = 0;
        let bound: usize = (BUFFER_HEIGHT - 1) * BUFFER_WIDTH;
        while i < bound
            invariant
                bound == cell_index(BUFFER_HEIGHT - 1, 0),
                i <= bound,
                old(self).cells@.len() == BUFFER_CELLS,
                self.cells@.len() == BUFFER_CELLS,
                self.color_code == old(self).color_code,
                self.column_position == old(self).column_position,
                forall|j: int| 0 <= j < i ==> self.cells@[j] == old(self).cells@[j + BUFFER_WIDTH],
                forall|j: int| i <= j < BUFFER_CELLS ==> self.cells@[j] == old(self).cells@[j],
            decreases bound - i,
        {
            let c: ScreenChar = self.cells[i + BUFFER_WIDTH];
            self.cells.set(i, c);
            i = i + 1;
        }
        self.column_position = 0;
        let ghost moved = self.cells();
        self.clear_row(BUFFER_HEIGHT - 1);
        assert forall|j: int| 0 <= j < BUFFER_CELLS implies self.cells@[j] == scrolled(
            old(self).cells(),
            old(self).color(),
        )[j] by {
            assert(self.cells()[j] == self.cells@[j]);
            if j < bound {
                assert(moved[j] == old(self).cells@[j + BUFFER_WIDTH]);
                assert(self.cells()[j] == moved[j]);
            } else {
                assert(self.cells()[j] == blank(old(self).color()));
            }
        }
        assert(self.cells@ =~= scrolled(old(self).cells(), old(self).color()));
    }

    /// Blank every cell of `row` in the writer's colour.
    fn clear_row(&mut self, row: usize)
        requires
            old(self).wf(),
            row < BUFFER_HEIGHT,
        ensures
            final(self).wf(),
            final(self).color() == old(self).color(),
            final(self).column() == old(self).column(),
            forall|j: int|
                0 <= j < BUFFER_CELLS ==> #[trigger] final(self).cells()[j] == if cell_index(
                    row as int,
                    0,
                ) <= j < cell_index(row as int + 1, 0) {
                    blank(old(self).color())
                } else {
                    old(self).cells()[j]
                },
    {
        let blank_char = ScreenChar { ascii_character: 32, color_code: self.color_code };
        let start: usize = row * BUFFER_WIDTH;
        let mut col: usize = 0;
        while col < BUFFER_WIDTH
            invariant
                start == cell_index(row as int, 0),
                row < BUFFER_HEIGHT,
                col <= BUFFER_WIDTH,
                self.cells@.len() == BUFFER_CELLS,
                self.color_code == old(self).color_code,
                self.column_position == old(self).column_position,
                blank_char == blank(self.color_code),
                forall|j: int|
                    0 <= j < BUFFER_CELLS ==> #[trigger] self.cells@[j] == if start <= j < start
                        + col {
                        blank_char
                    } else {
                        old(self).cells@[j]
                    },
            decreases BUFFER_WIDTH - col,
        {
            self.cells.set(start + col, blank_char);
            col = col + 1;
        }
    }

    /// Blank the whole grid in the writer's colour; the cursor stays.
    pub fn clear_screen(&mut self)
        requires
            old(self).wf(),
        ensures
            final(self).wf(),
            final(self).color() == old(self).color(),
            final(self).column() == old(self).column(),
            final(self).cells() == Seq::new(BUFFER_CELLS as nat, |i: int| blank(old(self).color())),
    {
        let mut row: usize = 0;
        while row < BUFFER_HEIGHT
            invariant
                row <= BUFFER_HEIGHT,
                self.wf(),
                self.color_code == old(self).color_code,
                self.column_position == old(self).column_position,
                forall|j: int|
                    0 <= j < cell_index(row as int, 0) ==> #[trigger] self.cells()[j] == blank(
                        self.color_code,
                    ),
            decreases BUFFER_HEIGHT - row,
        {
            self.clear_row(row);
            row = row + 1;
            assert forall|j: int|
                0 <= j < cell_index(row as int, 0) implies #[trigger] self.cells()[j] == blank(
                self.color_code,
            ) by {
                if j < cell_index(row as int - 1, 0) {
                    assert(self.cells()[j] == self.cells()[j]);
                }
            }
        }
        assert forall|j: int| 0 <= j < BUFFER_CELLS implies self.cells@[j] == blank(
            old(self).color(),
        ) by {
            assert(self.cells()[j] == blank(self.color_code));
        }
        assert(self.cells@ =~= Seq::new(BUFFER_CELLS as nat, |i: int| blank(old(self).color())));
    }

    /// Put `character` into the cell at `row`, `col`.
    pub fn write_character_at(&mut self, character: ScreenChar, row: usize, col: usize)
        requires
            old(self).wf(),
            row < BUFFER_HEIGHT,
            col < BUFFER_WIDTH,
        ensures
            final(self).wf(),
            final(self).color() == old(self).color(),
            final(self).column() == old(self).column(),
            final(self).cells() == old(self).cells().update(
                cell_index(row as int, col as int),
                character,
            ),
    {
        self.cells.set(row * BUFFER_WIDTH + col, character);
    }

    /// The cell at `row`, `col`.
    pub fn read_character_at(&self, row: usize, col: usize) -> (r: ScreenChar)
        requires
            self.wf(),
            row < BUFFER_HEIGHT,
            col < BUFFER_WIDTH,
        ensures
            r == self.cell(row as int, col as int),
    {
        self.cells[row * BUFFER_WIDTH + col]
    }

    /// Write `byte` at the cursor on the last row, moving to a fresh row
    /// first when the cursor is past the last column; a newline moves to a
    /// fresh row.
    pub fn write_byte(&mut self, byte: u8)
        requires
            old(self).wf(),
        ensures
            final(self).wf(),
            final(self).color() == old(self).color(),
            (final(self).cells(), final(self).column()) == byte_effect(
                (old(self).cells(), old(self).column()),
                byte,
                old(self).color(),
            ),
    {
        if byte == 10 {
            self.new_line();
        } else {
            if self.column_position >= BUFFER_WIDTH {
                self.new_line();
            }
            let row: usize = BUFFER_HEIGHT - 1;
            let col: usize = self.column_position;
            let color_code = self.color_code;
            self.cells.set(row * BUFFER_WIDTH + col, ScreenChar { ascii_character: byte, color_code });
            self.column_position = col + 1;
        }
    }

    /// Write the bytes of `s` as text at the cursor; a byte that is neither
    /// printable ASCII nor a newline shows as a block.
    pub fn write_string(&mut self, s: &str)
        requires
            old(self).wf(),
        ensures
            final(self).wf(),
            final(self).color() == old(self).color(),
            (final(self).cells(), final(self).column()) == bytes_effect(
                (old(self).cells(), old(self).column()),
                s.spec_bytes(),
                old(self).color(),
            ),
    {
        let bytes: &[u8] = s.as_bytes();
        let mut i: usize = 0;
        while i < bytes.len()
            invariant
                bytes@ == s.spec_bytes(),
                i <= bytes@.len(),
                self.wf(),
                self.color() == old(self).color(),
                (self.cells(), self.column()) == bytes_effect(
                    (old(self).cells(), old(self).column()),
                    bytes@.take(i as int),
                    old(self).color(),
                ),
            decreases bytes@.len() - i,
        {
            let byte: u8 = bytes[i];
            let shown: u8 = if (0x20 <= byte && byte <= 0x7e) || byte == 10 {
                byte
            } else {
                UNPRINTABLE
            };
            self.write_byte(shown);
            assert(bytes@.take(i + 1).drop_last() =~= bytes@.take(i as int));
            i = i + 1;
        }
        assert(bytes@.take(i as int) =~= bytes@);
    }

    /// Place the bytes of `string` from `row`, `col` on, in the writer's
    /// colour: a newline moves to the start of the next row, and a row that
    /// is full continues on the next. The cursor of text output stays.
    pub fn write_string_at(&mut self, string: &str, row: usize, col: usize)
        requires
            old(self).wf(),
            row < BUFFER_HEIGHT,
            col < BUFFER_WIDTH,
            text_fits((row as nat, col as nat), string.spec_bytes()),
        ensures
            final(self).wf(),
            final(self).color() == old(self).color(),
            final(self).column() == old(self).column(),
            final(self).cells() == text_effect(
                old(self).cells(),
                (row as nat, col as nat),
                string.spec_bytes(),
                old(self).color(),
            ),
    {
        let bytes: &[u8] = string.as_bytes();
        let ghost start = (row as nat, col as nat);
        let mut current_row: usize = row;
        let mut current_col: usize = col;
        let mut i: usize = 0;
        while i < bytes.len()
            invariant
                bytes@ == string.spec_bytes(),
                text_fits(start, bytes@),
                i <= bytes@.len(),
                self.wf(),
                self.color() == old(self).color(),
                self.column() == old(self).column(),
                current_row <= BUFFER_HEIGHT,
                current_col <= BUFFER_WIDTH,
                (current_row as nat, current_col as nat) == text_cursor(start, bytes@.take(i as int)),
                self.cells() == text_effect(old(self).cells(), start, bytes@.take(i as int), old(self).color()),
            decreases bytes@.len() - i,
        {
            let byte: u8 = bytes[i];
            proof {
                lemma_text_fits_prefix(start, bytes@, i + 1);
                assert(bytes@.take(i + 1).drop_last() =~= bytes@.take(i as int));
            }
            if byte == 10 {
                current_row = current_row + 1;
                current_col = 0;
            } else {
                if current_col >= BUFFER_WIDTH {
                    current_col = 0;
                    current_row = current_row + 1;
                }
                let color_code = self.color_code;
                self.cells.set(
                    current_row * BUFFER_WIDTH + current_col,
                    ScreenChar { ascii_character: byte, color_code },
                );
                current_col = current_col + 1;
            }
            i = i + 1;
        }
        assert(bytes@.take(i as int) =~= bytes@);
    }
}

} // verus!
