use core::fmt;
use spin::mutex::SpinMutex;
use vga_buffer::{
    Buffer, Color, ColorCode, PrintError, Writer, _print, BUFFER_HEIGHT, BUFFER_WIDTH,
};
use volatile::Volatile;

fn shared_writer() -> SpinMutex<Writer> {
    let grid: Buffer = core::array::from_fn(|_| core::array::from_fn(|_| Volatile::new([0, 0])));
    let screen: &'static mut Buffer = Box::leak(Box::new(grid));
    SpinMutex::new(Writer::new(screen, ColorCode::new(Color::Blue, Color::LightGray)))
}

fn println(writer: &SpinMutex<Writer>, message: &str) {
    assert_eq!(_print(writer, &format!("{}\n", message)), Ok(()));
}

fn row_text(writer: &SpinMutex<Writer>, row: usize) -> String {
    let w = writer.lock();
    let text: String =
        (0..BUFFER_WIDTH).map(|col| char::from(w.char_at(row, col).ascii_character)).collect();
    text.trim_end().to_string()
}

/// A value that writes a part of itself and then fails to format.
struct Broken;

impl fmt::Display for Broken {
    fn fmt(&self, f: &mut fmt::Formatter<'_>) -> fmt::Result {
        f.write_str("half")?;
        Err(fmt::Error)
    }
}

/// A value that formats itself in several pieces.
struct Pieces;

impl fmt::Display for Pieces {
    fn fmt(&self, f: &mut fmt::Formatter<'_>) -> fmt::Result {
        f.write_str("one ")?;
        f.write_str("two ")?;
        f.write_str("three")
    }
}

#[test]
fn test_println_clears_line() {
    let writer = shared_writer();
    println(&writer, "Print some string");
    assert_eq!(row_text(&writer, BUFFER_HEIGHT - 2), "Print some string");
    assert_eq!(row_text(&writer, BUFFER_HEIGHT - 1), "");
}

#[test]
fn test_println_simple() {
    let writer = shared_writer();
    println(&writer, "test_println_simple output");
    assert_eq!(row_text(&writer, BUFFER_HEIGHT - 2), "test_println_simple output");
}

#[test]
fn test_println_many() {
    let writer = shared_writer();
    for i in 0..200 {
        println(&writer, &format!("test_println_many output {}", i));
    }
    for row in 0..BUFFER_HEIGHT - 1 {
        assert_eq!(row_text(&writer, row), format!("test_println_many output {}", 176 + row));
    }
    assert_eq!(row_text(&writer, BUFFER_HEIGHT - 1), "");
}

#[test]
fn test_println_output() {
    let writer = shared_writer();
    let s = "Some long-but-single-line text";
    println(&writer, s);
    for (i, c) in s.chars().enumerate() {
        let screen_char = writer.lock().char_at(BUFFER_HEIGHT - 2, i);
        assert_eq!(char::from(screen_char.ascii_character), c);
    }
}

#[test]
fn print_adds_no_line_feed() {
    let writer = shared_writer();
    assert_eq!(_print(&writer, "Hello world"), Ok(()));
    assert_eq!(_print(&writer, "!"), Ok(()));
    assert_eq!(row_text(&writer, BUFFER_HEIGHT - 1), "Hello world!");
    assert_eq!(row_text(&writer, BUFFER_HEIGHT - 2), "");
    assert_eq!(writer.lock().column_position(), 12);
}

#[test]
fn print_formats_values() {
    let writer = shared_writer();
    assert_eq!(_print(&writer, &42), Ok(()));
    assert_eq!(_print(&writer, &' '), Ok(()));
    assert_eq!(_print(&writer, &true), Ok(()));
    assert_eq!(_print(&writer, &Pieces), Ok(()));
    assert_eq!(row_text(&writer, BUFFER_HEIGHT - 1), "42 trueone two three");
}

#[test]
fn print_releases_the_lock() {
    let writer = shared_writer();
    assert_eq!(_print(&writer, "first"), Ok(()));
    assert!(!writer.is_locked());
    assert_eq!(_print(&writer, &Broken), Err(PrintError::Format));
    assert!(!writer.is_locked());
    assert!(writer.try_lock().is_some());
}

#[test]
fn a_value_that_fails_to_format_is_an_error() {
    let writer = shared_writer();
    assert_eq!(_print(&writer, &Broken), Err(PrintError::Format));
    assert_eq!(row_text(&writer, BUFFER_HEIGHT - 1), "half");
}

#[test]
fn the_lock_admits_one_holder_at_a_time() {
    let writer = shared_writer();
    let first = writer.lock();
    assert!(writer.is_locked());
    assert!(writer.try_lock().is_none());
    drop(first);
    assert!(writer.try_lock().is_some());
    assert!(!writer.is_locked());
}
