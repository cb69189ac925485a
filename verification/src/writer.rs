//! The writer: the cursor, the color and the exclusive borrow of the screen.

use vstd::prelude::*;
use vstd::string::StringSliceAdditionalSpecFns;
use crate::cell::{
    cell_at, on_screen, read_cell, rows_of, write_cell, Buffer, ScreenChar, BLANK, BUFFER_HEIGHT,
    BUFFER_WIDTH,
};
use crate::color::ColorCode;
use crate::screen::{blank_row, Screen, NEWLINE, PLACEHOLDER};

verus! {

/// Writes bytes to the bottom row of the screen, in one color.
///
/// The screen is cleared when the first byte is written. The writer holds
/// the screen exclusively for as long as it lives.
pub struct Writer {
    initialized: bool,
    column_position: usize,
    color_code: ColorCode,
    buffer: &'static mut Buffer,
}

/// `core::fmt::Error`, the error of a formatting operation. It carries nothing.
#[verifier::external_type_specification]
#[verifier::external_body]
pub struct ExFmtError(core::fmt::Error);

impl View for Writer {
    type V = Screen;

    closed spec fn view(&self) -> Screen {
        Screen {
            initialized: self.initialized,
            column: self.column_position as nat,
            color_code: self.color_code,
            rows: rows_of(self.grid()),
        }
    }
}

impl Writer {
    #[verifier::type_invariant]
    spec fn column_on_row(&self) -> bool {
        self.column_position <= BUFFER_WIDTH
    }

    spec fn grid(&self) -> Buffer {
        *self.buffer
    }

    /// A writer over a screen, in a color, with the column at the left
    /// margin. The screen keeps what it shows until the first byte is written.
    pub fn new(buffer: &'static mut Buffer, color_code: ColorCode) -> (writer: Writer)
        ensures
            !writer@.initialized,
            writer@.column == 0,
            writer@.color_code == color_code,
            writer@.rows == rows_of(*old(buffer)),
            writer@.wf(),
    {
        Writer { initialized: false, column_position: 0, color_code, buffer }
    }

    /// Sets one cell to the two bytes given and leaves every other cell as
    /// it is.
    fn set_cell(&mut self, row: usize, col: usize, pair: [u8; 2])
        requires
            row < BUFFER_HEIGHT,
            col < BUFFER_WIDTH,
        ensures
            final(self).initialized == old(self).initialized,
            final(self).column_position == old(self).column_position,
            final(self).color_code == old(self).color_code,
            forall|r: int, c: int|
                on_screen(r, c) ==> #[trigger] cell_at(final(self).grid(), r, c) == (
                if r == row && c == col {
                    ScreenChar::of_bytes(pair@)
                } else {
                    cell_at(old(self).grid(), r, c)
                }),
    {
        proof {
            use_type_invariant(&*self);
        }
        write_cell(&mut self.buffer[row][col], pair);
    }

    /// The two bytes of one cell.
    fn get_cell(&self, row: usize, col: usize) -> (pair: [u8; 2])
        requires
            row < BUFFER_HEIGHT,
            col < BUFFER_WIDTH,
        ensures
            ScreenChar::of_bytes(pair@) == cell_at(self.grid(), row as int, col as int),
    {
        read_cell(&self.buffer[row][col])
    }

    /// Overwrites one row with blank cells in the current color.
    pub fn clear_row(&mut self, row: usize)
        requires
            row < BUFFER_HEIGHT,
        ensures
            final(self)@ == old(self)@.clear_row(row as int),
            final(self)@.wf(),
    {
        let blank = ScreenChar { ascii_character: BLANK, color_code: self.color_code };
        let pair = blank.to_bytes();
        proof {
            use_type_invariant(&*self);
        }
        let mut col: usize = 0;
        while col < BUFFER_WIDTH
            invariant
                row < BUFFER_HEIGHT,
                col <= BUFFER_WIDTH,
                self.column_position <= BUFFER_WIDTH,
                pair@ == ScreenChar::blank(self.color_code).bytes(),
                self.initialized == old(self).initialized,
                self.column_position == old(self).column_position,
                self.color_code == old(self).color_code,
                forall|r: int, c: int|
                    on_screen(r, c) ==> #[trigger] cell_at(self.grid(), r, c) == (
                    if r == row && c < col {
                        ScreenChar::blank(self.color_code)
                    } else {
                        cell_at(old(self).grid(), r, c)
                    }),
            decreases BUFFER_WIDTH - col,
        {
            self.set_cell(row, col, pair);
            col += 1;
        }
        assert(self@.rows =~~= old(self)@.clear_row(row as int).rows);
    }

    /// Overwrites the whole screen with blank cells in the current color.
    pub fn fill_buffer(&mut self)
        ensures
            final(self)@ == old(self)@.fill_buffer(),
            final(self)@.wf(),
    {
        proof {
            use_type_invariant(&*self);
        }
        let mut row: usize = 0;
        while row < BUFFER_HEIGHT
            invariant
                row <= BUFFER_HEIGHT,
                self.column_position <= BUFFER_WIDTH,
                self.initialized == old(self).initialized,
                self.column_position == old(self).column_position,
                self.color_code == old(self).color_code,
                forall|r: int|
                    0 <= r < BUFFER_HEIGHT ==> #[trigger] self@.rows[r] == (if r < row {
                        blank_row(self.color_code)
                    } else {
                        old(self)@.rows[r]
                    }),
            decreases BUFFER_HEIGHT - row,
        {
            self.clear_row(row);
            row += 1;
        }
        assert(self@.rows =~= old(self)@.fill_buffer().rows);
    }

    /// Scrolls the screen up by one row: each row takes what the row below
    /// it showed, the bottom row becomes blank and the column goes back to
    /// the left margin. What the top row showed is lost.
    pub fn new_line(&mut self)
        ensures
            final(self)@ == old(self)@.new_line(),
            final(self)@.wf(),
            final(self)@.column == 0,
            final(self)@.initialized == old(self)@.initialized,
            final(self)@.color_code == old(self)@.color_code,
            forall|row: int|
                0 <= row < BUFFER_HEIGHT - 1 ==> #[trigger] final(self)@.rows[row] == old(
                    self,
                )@.rows[row + 1],
            final(self)@.rows[BUFFER_HEIGHT - 1] == blank_row(old(self)@.color_code),
    {
        proof {
            use_type_invariant(&*self);
        }
        let mut row: usize = 1;
        while row < BUFFER_HEIGHT
            invariant
                1 <= row <= BUFFER_HEIGHT,
                self.initialized == old(self).initialized,
                self.color_code == old(self).color_code,
                self.column_position <= BUFFER_WIDTH,
                row > 1 ==> self.column_position == 0,
                forall|r: int, c: int|
                    on_screen(r, c) ==> #[trigger] cell_at(self.grid(), r, c) == (
                    if r < row - 1 {
                        cell_at(old(self).grid(), r + 1, c)
                    } else {
                        cell_at(old(self).grid(), r, c)
                    }),
            decreases BUFFER_HEIGHT - row,
        {
            let mut col: usize = 0;
            while col < BUFFER_WIDTH
                invariant
                    1 <= row < BUFFER_HEIGHT,
                    col <= BUFFER_WIDTH,
                    self.initialized == old(self).initialized,
                    self.color_code == old(self).color_code,
                    self.column_position <= BUFFER_WIDTH,
                    row > 1 ==> self.column_position == 0,
                    forall|r: int, c: int|
                        on_screen(r, c) ==> #[trigger] cell_at(self.grid(), r, c) == (
                        if r < row - 1 || (r == row - 1 && c < col) {
                            cell_at(old(self).grid(), r + 1, c)
                        } else {
                            cell_at(old(self).grid(), r, c)
                        }),
                decreases BUFFER_WIDTH - col,
            {
                let character = self.get_cell(row, col);
                self.set_cell(row - 1, col, character);
                col += 1;
            }
            let ghost copied = self.grid();
            self.column_position = 0;
            assert(self.grid() == copied);
            row += 1;
        }
        let ghost shifted = self@;
        self.clear_row(BUFFER_HEIGHT - 1);
        assert forall|r: int| 0 <= r < BUFFER_HEIGHT - 1 implies #[trigger] shifted.rows[r]
            =~= old(self)@.rows[r + 1] by {
        }
        assert(self@.rows =~= old(self)@.new_line().rows);
    }

    /// Writes one byte. The first byte ever written clears the screen
    /// first. A line feed scrolls the screen; any other byte is put at the
    /// column on the bottom row, after a scroll if that row is full, and the
    /// column moves one to the right.
    pub fn write_byte(&mut self, byte: u8)
        ensures
            final(self)@ == old(self)@.write_byte(byte),
            final(self)@.wf(),
    {
        proof {
            use_type_invariant(&*self);
        }
        if self.initialized == false {
            self.fill_buffer();
            self.initialized = true;
        }
        if byte == NEWLINE {
            self.new_line();
        } else {
            if self.column_position >= BUFFER_WIDTH {
                self.new_line();
            }
            let row: usize = BUFFER_HEIGHT - 1;
            let col: usize = self.column_position;
            let ghost before = self@;
            let character = ScreenChar { ascii_character: byte, color_code: self.color_code };
            self.set_cell(row, col, character.to_bytes());
            let ghost written = self.grid();
            self.column_position += 1;
            assert(self.grid() == written);
            assert(self@.rows =~~= before.put(byte).rows);
        }
    }

    /// Writes a text byte by byte. A byte that is neither printable ASCII
    /// nor a line feed is written as the placeholder code.
    pub fn write_string(&mut self, s: &str)
        ensures
            final(self)@ == old(self)@.write_string(s.spec_bytes()),
            final(self)@.wf(),
    {
        let bytes = s.as_bytes();
        proof {
            use_type_invariant(&*self);
        }
        let mut i: usize = 0;
        while i < bytes.len()
            invariant
                i <= bytes.len(),
                self@.wf(),
                bytes@ == s.spec_bytes(),
                self@ == old(self)@.write_string(bytes@.take(i as int)),
            decreases bytes.len() - i,
        {
            let byte = bytes[i];
            proof {
                assert(bytes@.take(i + 1).drop_last() =~= bytes@.take(i as int));
            }
            if (0x20 <= byte && byte <= 0x7e) || byte == NEWLINE {
                self.write_byte(byte);
            } else {
                self.write_byte(PLACEHOLDER);
            }
            i += 1;
        }
        assert(bytes@.take(bytes.len() as int) =~= bytes@);
    }

    /// What the cell at a row and a column shows.
    pub fn char_at(&self, row: usize, col: usize) -> (character: ScreenChar)
        requires
            row < BUFFER_HEIGHT,
            col < BUFFER_WIDTH,
        ensures
            character == self@.rows[row as int][col as int],
    {
        ScreenChar::from_bytes(self.get_cell(row, col))
    }

    /// The column of the bottom row that the next byte goes to. It is the
    /// width of the screen when the bottom row is full.
    pub fn column_position(&self) -> (column: usize)
        ensures
            column == self@.column,
            self@.wf(),
    {
        proof {
            use_type_invariant(self);
        }
        self.column_position
    }
}

impl core::fmt::Write for Writer {
    /// Writes a text as [`Writer::write_string`] does. It never fails.
    fn write_str(&mut self, s: &str) -> (result: Result<(), core::fmt::Error>)
        ensures
            result is Ok,
            final(self)@ == old(self)@.write_string(s.spec_bytes()),
            final(self)@.wf(),
    {
        self.write_string(s);
        Ok(())
    }
}

} // verus!
