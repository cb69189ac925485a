//! A writer for the 80 x 25 text mode screen of the PC: it puts bytes on the
//! bottom row in one color, wraps at the right margin and scrolls the screen
//! up by one row at each line end.

pub mod cell;
pub mod color;
pub mod laws;
pub mod print;
pub mod screen;
pub mod writer;

pub use cell::{Buffer, ScreenChar, BUFFER_HEIGHT, BUFFER_WIDTH};
pub use color::{Color, ColorCode};
pub use print::{_print, PrintError};
pub use screen::Screen;
pub use writer::Writer;
