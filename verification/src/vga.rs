//! A writer for the 80 x 25 text screen.
//!
//! The writer owns a copy of the screen's cells. Writing moves a cursor from
//! left to right and top to bottom; when the cursor would leave the last row,
//! every row moves up by one and the last row is blanked. What the screen
//! shows after a write is given by a step function on [`Screen`], the view of
//! a writer.

use vstd::prelude::*;
use vstd::string::StringSliceAdditionalSpecFns;

verus! {

/// Number of rows of the screen.
pub const BUFFER_HEIGHT: usize = 25;

/// Number of columns of the screen.
pub const BUFFER_WIDTH: usize = 80;

/// Number of cells of the screen.
pub const BUFFER_CELLS: usize = 2000;

/// Byte shown in place of one that cannot be printed.
pub const UNPRINTABLE: u8 = 0xfe;

/// The sixteen colours of text mode.
#[derive(Clone, Copy, Debug, PartialEq, Eq, Structural)]
pub enum Color {
    Black,
    Blue,
    Green,
    Cyan,
    Red,
    Magenta,
    Brown,
    LightGray,
    DarkGray,
    LightBlue,
    LightGreen,
    LightCyan,
    LightRed,
    Pink,
    Yellow,
    White,
}

impl Color {
    /// The four-bit number of the colour.
    pub open spec fn spec_code(self) -> u8 {
        match self {
            Color::Black => 0,
            Color::Blue => 1,
            Color::Green => 2,
            Color::Cyan => 3,
            Color::Red => 4,
            Color::Magenta => 5,
            Color::Brown => 6,
            Color::LightGray => 7,
            Color::DarkGray => 8,
            Color::LightBlue => 9,
            Color::LightGreen => 10,
            Color::LightCyan => 11,
            Color::LightRed => 12,
            Color::Pink => 13,
            Color::Yellow => 14,
            Color::White => 15,
        }
    }

    #[verifier::when_used_as_spec(spec_code)]
    pub fn code(self) -> (c: u8)
        ensures
            c == self.spec_code(),
            c <= 15,
    {
        match self {
            Color::Black => 0,
            Color::Blue => 1,
            Color::Green => 2,
            Color::Cyan => 3,
            Color::Red => 4,
            Color::Magenta => 5,
            Color::Brown => 6,
            Color::LightGray => 7,
            Color::DarkGray => 8,
            Color::LightBlue => 9,
            Color::LightGreen => 10,
            Color::LightCyan => 11,
            Color::LightRed => 12,
            Color::Pink => 13,
            Color::Yellow => 14,
            Color::White => 15,
        }
    }
}

/// Foreground and background colour of a cell in one byte: background in the
/// high four bits, foreground in the low four.
#[derive(Clone, Copy, Debug, PartialEq, Eq, Structural)]
pub struct ColorCode(pub u8);

impl ColorCode {
    /// The code for text in `fg` on a background of `bg`.
    pub fn new(fg: Color, bg: Color) -> (c: ColorCode)
        ensures
            c.0 == (bg.spec_code() << 4) | fg.spec_code(),
            c.0 == 16 * bg.spec_code() + fg.spec_code(),
    {
        let b: u8 = bg.code();
        let f: u8 = fg.code();
        assert(((b << 4) | f) == 16 * b + f) by (bit_vector)
            requires
                b <= 15,
                f <= 15,
        ;
        ColorCode((b << 4) | f)
    }
}

/// One cell of the screen: a character and its colours.
#[derive(Clone, Copy, Debug, PartialEq, Eq, Structural)]
pub struct ScreenChar(pub u8, pub ColorCode);

/// The byte shown for `byte`: itself if it is printable ASCII or a line
/// feed, a filled box otherwise.
pub open spec fn shown(byte: u8) -> u8 {
    if (0x20 <= byte <= 0x7e) || byte == 0x0a {
        byte
    } else {
        UNPRINTABLE
    }
}

/// What a writer holds: the cursor, the colours of new text, and the cells in
/// row-major order.
pub struct Screen {
    pub row: int,
    pub column: int,
    pub color: ColorCode,
    pub cells: Seq<ScreenChar>,
}

impl Screen {
    /// The cell in row `row` and column `column`.
    pub open spec fn cell(self, row: int, column: int) -> ScreenChar {
        self.cells[row * 80 + column]
    }

    /// The screen after the cursor went to the start of the next line. On the
    /// last row the text moves up instead: the top row is lost and the last
    /// row is blank.
    pub open spec fn new_line(self) -> Screen {
        if self.row < 24 {
            Screen { row: self.row + 1, column: 0, ..self }
        } else {
            Screen {
                column: 0,
                cells: Seq::new(
                    2000,
                    |i: int|
                        if i < 1920 {
                            self.cells[i + 80]
                        } else {
                            ScreenChar(0x20, self.color)
                        },
                ),
                ..self
            }
        }
    }

    /// The screen after `byte` was written: a line feed starts a new line;
    /// any other byte goes to the cell under the cursor, after a new line if
    /// the row was full, and the cursor moves one column to the right.
    pub open spec fn write_byte(self, byte: u8) -> Screen {
        if byte == 0x0a {
            self.new_line()
        } else {
            let at = if self.column >= 80 {
                self.new_line()
            } else {
                self
            };
            Screen {
                column: at.column + 1,
                cells: at.cells.update(at.row * 80 + at.column, ScreenChar(byte, at.color)),
                ..at
            }
        }
    }

    /// The screen after the bytes of a text were written in order, each as
    /// the byte shown for it.
    pub open spec fn write_bytes(self, bytes: Seq<u8>) -> Screen
        decreases bytes.len(),
    {
        if bytes.len() == 0 {
            self
        } else {
            self.write_bytes(bytes.drop_last()).write_byte(shown(bytes.last()))
        }
    }

    /// The cursor is on the screen, or just past the end of a row, and there
    /// are 2000 cells.
    pub open spec fn wf(self) -> bool {
        &&& 0 <= self.row < 25
        &&& 0 <= self.column <= 80
        &&& self.cells.len() == 2000
    }
}

/// Writing a line feed or a byte keeps the cursor and the cells in bounds.
pub proof fn lemma_step_wf(s: Screen, byte: u8)
    requires
        s.wf(),
    ensures
        s.new_line().wf(),
        s.write_byte(byte).wf(),
{
}

/// The writer.
pub struct VGAWriter {
    row: usize,
    column: usize,
    color: ColorCode,
    buffer: [ScreenChar; 2000],
}

impl View for VGAWriter {
    type V = Screen;

    closed spec fn view(&self) -> Screen {
        Screen {
            row: self.row as int,
            column: self.column as int,
            color: self.color,
            cells: self.buffer@,
        }
    }
}

impl VGAWriter {
    #[verifier::type_invariant]
    spec fn cursor_in_bounds(self) -> bool {
        self.row < 25 && self.column <= 80
    }

    /// A writer with the cursor in the top left corner of a blank screen,
    /// writing in `color`.
    pub fn new(color: ColorCode) -> (w: VGAWriter)
        ensures
            w@.wf(),
            w@.row == 0,
            w@.column == 0,
            w@.color == color,
            forall|i: int| 0 <= i < 2000 ==> #[trigger] w@.cells[i] == ScreenChar(0x20, color),
    {
        VGAWriter { row: 0, column: 0, color, buffer: [ScreenChar(0x20, color);2000] }
    }

    /// Row of the cursor.
    pub fn row(&self) -> (r: usize)
        ensures
            r == self@.row,
            r < 25,
    {
        proof {
            use_type_invariant(self);
        }
        self.row
    }

    /// Column of the cursor; 80 when the row is full.
    pub fn column(&self) -> (c: usize)
        ensures
            c == self@.column,
            c <= 80,
    {
        proof {
            use_type_invariant(self);
        }
        self.column
    }

    /// Colours of the text written from now on.
    pub fn color(&self) -> (c: ColorCode)
        ensures
            c == self@.color,
    {
        self.color
    }

    /// The cell in row `row` and column `column`.
    pub fn cell(&self, row: usize, column: usize) -> (c: ScreenChar)
        requires
            row < 25,
            column < 80,
        ensures
            c == self@.cell(row as int, column as int),
    {
        self.buffer[row * BUFFER_WIDTH + column]
    }

    /// All cells, row by row.
    pub fn cells(&self) -> (cells: &[ScreenChar; 2000])
        ensures
            cells@ == self@.cells,
    {
        &self.buffer
    }

    /// Moves the cursor to the start of the next line, scrolling the text up
    /// by one row if the cursor is on the last row.
    pub fn new_line(&mut self)
        ensures
            final(self)@ == old(self)@.new_line(),
            final(self)@.wf(),
    {
        proof {
            use_type_invariant(&*self);
        }
        if self.row < BUFFER_HEIGHT - 1 {
            self.row += 1;
            self.column = 0;
            return ;
        }
        let mut i: usize = 0;
        while i < 1920
            invariant
                i <= 1920,
                self.row == old(self).row < 25,
                self.column == old(self).column <= 80,
                self.color == old(self).color,
                forall|j: int| 0 <= j < i ==> #[trigger] self.buffer@[j] == old(self).buffer@[j + 80],
                forall|j: int| i <= j < 2000 ==> #[trigger] self.buffer@[j] == old(self).buffer@[j],
            decreases 1920 - i,
        {
            self.buffer[i] = self.buffer[i + BUFFER_WIDTH];
            i += 1;
        }
        let chr = ScreenChar(0x20, self.color);
        while i < 2000
            invariant
                1920 <= i <= 2000,
                chr == ScreenChar(0x20, old(self).color),
                self.row == old(self).row < 25,
                self.column == old(self).column <= 80,
                self.color == old(self).color,
                forall|j: int|
                    0 <= j < 1920 ==> #[trigger] self.buffer@[j] == old(self).buffer@[j + 80],
                forall|j: int| 1920 <= j < i ==> #[trigger] self.buffer@[j] == chr,
            decreases 2000 - i,
        {
            self.buffer[i] = chr;
            i += 1;
        }
        self.column = 0;
        assert(self@.cells =~= old(self)@.new_line().cells);
    }

    /// Writes one byte at the cursor. A line feed starts a new line; any
    /// other byte is stored as it is.
    pub fn write_byte(&mut self, byte: u8)
        ensures
            final(self)@ == old(self)@.write_byte(byte),
            final(self)@.wf(),
    {
        proof {
            use_type_invariant(&*self);
        }
        if byte == 0x0a {
            self.new_line();
        } else {
            if self.column >= BUFFER_WIDTH {
                self.new_line();
            }
            proof {
                use_type_invariant(&*self);
            }
            self.buffer[self.row * BUFFER_WIDTH + self.column] = ScreenChar(byte, self.color);
            self.column += 1;
        }
    }

    /// Writes the bytes of `s` in order. Printable ASCII and line feeds are
    /// written as they are, every other byte as a filled box.
    pub fn write_str(&mut self, s: &str)
        ensures
            final(self)@ == old(self)@.write_bytes(s.spec_bytes()),
            final(self)@.wf(),
    {
        proof {
            use_type_invariant(&*self);
        }
        let bytes = s.as_bytes();
        let mut i: usize = 0;
        while i < bytes.len()
            invariant
                i <= bytes@.len(),
                bytes@ == s.spec_bytes(),
                self@.wf(),
                self@ == old(self)@.write_bytes(bytes@.take(i as int)),
            decreases bytes@.len() - i,
        {
            let byte = bytes[i];
            assert(bytes@.take(i + 1).drop_last() =~= bytes@.take(i as int));
            assert(bytes@.take(i + 1).last() == byte);
            if (0x20 <= byte && byte <= 0x7e) || byte == 0x0a {
                self.write_byte(byte);
            } else {
                self.write_byte(UNPRINTABLE);
            }
            i += 1;
        }
        assert(bytes@.take(i as int) =~= bytes@);
    }
}

/// Prints `text` through `writer`.
pub fn _print(writer: &mut VGAWriter, text: &str)
    ensures
        final(writer)@ == old(writer)@.write_bytes(text.spec_bytes()),
{
    writer.write_str(text)
}

} // verus!
