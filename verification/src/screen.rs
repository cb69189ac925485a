//! The screen as a mathematical value, and what each operation of the writer
//! does to it.

use vstd::prelude::*;
use crate::cell::{ScreenChar, BUFFER_HEIGHT, BUFFER_WIDTH};
use crate::color::ColorCode;

verus! {

/// The line feed, the one control code that the writer acts on.
pub const NEWLINE: u8 = 0x0a;

/// The code shown in place of a byte that the hardware font cannot show.
pub const PLACEHOLDER: u8 = 0xfe;

/// Whether the hardware font shows a byte as it is: the printable ASCII
/// range, from the space to the tilde.
pub open spec fn printable(byte: u8) -> bool {
    0x20 <= byte <= 0x7e
}

/// The byte that is written for a byte of a text: printable bytes and the
/// line feed stand for themselves, every other byte becomes the placeholder.
pub open spec fn shown_byte(byte: u8) -> u8 {
    if printable(byte) || byte == NEWLINE {
        byte
    } else {
        PLACEHOLDER
    }
}

/// A row of blank cells in one color.
pub open spec fn blank_row(color_code: ColorCode) -> Seq<ScreenChar> {
    Seq::new(BUFFER_WIDTH as nat, |col: int| ScreenChar::blank(color_code))
}

/// The state of a writer: what the screen shows, where the next byte goes on
/// the bottom row, in which color, and whether the screen was cleared yet.
pub struct Screen {
    /// False until the first byte is written.
    pub initialized: bool,
    /// The column of the bottom row that the next byte goes to.
    pub column: nat,
    /// The color of every cell that is written or cleared.
    pub color_code: ColorCode,
    /// The rows from top to bottom, each from left to right.
    pub rows: Seq<Seq<ScreenChar>>,
}

impl Screen {
    /// The screen has its fixed size and the column is on the bottom row or
    /// just behind its last cell.
    pub open spec fn wf(self) -> bool {
        &&& self.column <= BUFFER_WIDTH
        &&& self.rows.len() == BUFFER_HEIGHT
        &&& forall|row: int|
            0 <= row < BUFFER_HEIGHT ==> (#[trigger] self.rows[row]).len() == BUFFER_WIDTH
    }

    /// One row overwritten with blank cells in the current color.
    pub open spec fn clear_row(self, row: int) -> Screen {
        Screen { rows: self.rows.update(row, blank_row(self.color_code)), ..self }
    }

    /// Every row overwritten with blank cells in the current color.
    pub open spec fn fill_buffer(self) -> Screen {
        Screen {
            rows: Seq::new(BUFFER_HEIGHT as nat, |row: int| blank_row(self.color_code)),
            ..self
        }
    }

    /// The screen scrolled up by one row: the top row is lost, the bottom
    /// row is blank and the column is back at the left margin.
    pub open spec fn new_line(self) -> Screen {
        Screen {
            column: 0,
            rows: Seq::new(
                BUFFER_HEIGHT as nat,
                |row: int|
                    if row < BUFFER_HEIGHT - 1 {
                        self.rows[row + 1]
                    } else {
                        blank_row(self.color_code)
                    },
            ),
            ..self
        }
    }

    /// The screen once it has been cleared for the first write: unchanged if
    /// that happened before.
    pub open spec fn started(self) -> Screen {
        if self.initialized {
            self
        } else {
            Screen { initialized: true, ..self.fill_buffer() }
        }
    }

    /// One cell of the bottom row set to a character in the current color,
    /// and the column moved one to the right.
    pub open spec fn put(self, byte: u8) -> Screen {
        let cell = ScreenChar { ascii_character: byte, color_code: self.color_code };
        let bottom = BUFFER_HEIGHT - 1;
        Screen {
            column: self.column + 1,
            rows: self.rows.update(bottom, self.rows[bottom].update(self.column as int, cell)),
            ..self
        }
    }

    /// One byte written: a line feed scrolls; any other byte goes to the
    /// column on the bottom row, after a scroll if that row is full.
    pub open spec fn write_byte(self, byte: u8) -> Screen {
        let s = self.started();
        if byte == NEWLINE {
            s.new_line()
        } else if s.column >= BUFFER_WIDTH {
            s.new_line().put(byte)
        } else {
            s.put(byte)
        }
    }

    /// The bytes of a text written one after the other, each as
    /// [`shown_byte`] gives it.
    pub open spec fn write_string(self, bytes: Seq<u8>) -> Screen
        decreases bytes.len(),
    {
        if bytes.len() == 0 {
            self
        } else {
            self.write_string(bytes.drop_last()).write_byte(shown_byte(bytes.last()))
        }
    }
}

} // verus!
