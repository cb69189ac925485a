//! What holds of the screen whatever is written to it.

use vstd::prelude::*;
use crate::cell::{on_screen, ScreenChar, BUFFER_HEIGHT, BUFFER_WIDTH};
use crate::color::ColorCode;
use crate::screen::{blank_row, printable, shown_byte, Screen, NEWLINE, PLACEHOLDER};

verus! {

/// Every byte of a text is printable.
pub open spec fn all_printable(bytes: Seq<u8>) -> bool {
    forall|i: int| 0 <= i < bytes.len() ==> printable(#[trigger] bytes[i])
}

/// Every cell of a screen holds a code that the hardware font shows: a
/// printable byte or the placeholder.
pub open spec fn displayable(s: Screen) -> bool {
    forall|row: int, col: int|
        on_screen(row, col) ==> {
            let code = (#[trigger] s.rows[row][col]).ascii_character;
            printable(code) || code == PLACEHOLDER
        }
}

/// Clearing the screen twice in a row leaves what clearing it once leaves,
/// and so does the clearing before the first write.
pub proof fn lemma_fill_idempotent(s: Screen)
    ensures
        s.fill_buffer().fill_buffer() == s.fill_buffer(),
        s.started().started() == s.started(),
{
    assert(s.fill_buffer().fill_buffer().rows =~= s.fill_buffer().rows);
}

/// A scroll keeps the screen well-formed: rows 1 to the bottom move up by
/// one, the bottom row is blank in the current color and the column is 0.
pub proof fn lemma_new_line(s: Screen)
    requires
        s.wf(),
    ensures
        s.new_line().wf(),
        s.new_line().column == 0,
        s.new_line().color_code == s.color_code,
        s.new_line().initialized == s.initialized,
        forall|row: int|
            0 <= row < BUFFER_HEIGHT - 1 ==> #[trigger] s.new_line().rows[row] == s.rows[row + 1],
        s.new_line().rows[BUFFER_HEIGHT - 1] == blank_row(s.color_code),
{
}

/// Writing one byte keeps the screen well-formed and the color, and leaves
/// the screen cleared for the first write.
pub proof fn lemma_write_byte_wf(s: Screen, byte: u8)
    requires
        s.wf(),
    ensures
        s.write_byte(byte).wf(),
        s.write_byte(byte).initialized,
        s.write_byte(byte).color_code == s.color_code,
{
    lemma_new_line(s.started());
}

/// Writing a text keeps the screen well-formed and the color.
pub proof fn lemma_write_string_wf(s: Screen, bytes: Seq<u8>)
    requires
        s.wf(),
    ensures
        s.write_string(bytes).wf(),
        s.write_string(bytes).color_code == s.color_code,
        s.write_string(bytes).initialized == (s.initialized || bytes.len() > 0),
    decreases bytes.len(),
{
    if bytes.len() > 0 {
        lemma_write_string_wf(s, bytes.drop_last());
        lemma_write_byte_wf(s.write_string(bytes.drop_last()), shown_byte(bytes.last()));
    }
}

/// Writing a text in two pieces is writing the whole text.
pub proof fn lemma_write_string_concat(s: Screen, first: Seq<u8>, second: Seq<u8>)
    ensures
        s.write_string(first + second) == s.write_string(first).write_string(second),
    decreases second.len(),
{
    if second.len() == 0 {
        assert(first + second =~= first);
    } else {
        assert((first + second).drop_last() =~= first + second.drop_last());
        assert((first + second).last() == second.last());
        lemma_write_string_concat(s, first, second.drop_last());
    }
}

/// Printable bytes that still fit on the bottom row go there one after the
/// other, from the column on, in the current color; the column ends behind
/// the last of them and no other cell changes but by the clearing before
/// the first write.
pub proof fn lemma_write_on_row(s: Screen, bytes: Seq<u8>)
    requires
        s.wf(),
        all_printable(bytes),
        s.column + bytes.len() <= BUFFER_WIDTH,
    ensures
        s.write_string(bytes).wf(),
        s.write_string(bytes).column == s.column + bytes.len(),
        s.write_string(bytes).color_code == s.color_code,
        forall|i: int|
            0 <= i < bytes.len() ==> s.write_string(bytes).rows[BUFFER_HEIGHT - 1][s.column + i]
                == (ScreenChar { ascii_character: #[trigger] bytes[i], color_code: s.color_code }),
        bytes.len() > 0 ==> forall|row: int, col: int|
            on_screen(row, col) && !(row == BUFFER_HEIGHT - 1 && s.column <= col < s.column
                + bytes.len()) ==> #[trigger] s.write_string(bytes).rows[row][col]
                == s.started().rows[row][col],
    decreases bytes.len(),
{
    if bytes.len() > 0 {
        let front = bytes.drop_last();
        let before = s.write_string(front);
        lemma_write_on_row(s, front);
        lemma_write_string_wf(s, front);
        assert(printable(bytes[bytes.len() - 1]));
        let after = before.write_byte(shown_byte(bytes.last()));
        assert(after == before.started().put(bytes.last()));
        let bottom = after.rows[BUFFER_HEIGHT - 1];
        assert forall|i: int| 0 <= i < bytes.len() implies bottom[s.column + i] == (ScreenChar {
            ascii_character: #[trigger] bytes[i],
            color_code: s.color_code,
        }) by {
            if i < front.len() {
                assert(front[i] == bytes[i]);
            }
        }
    }
}

/// A line of printable bytes that fits on the bottom row is found
/// unchanged one row higher, at the columns it was written to, after the
/// scroll of a line feed.
pub proof fn lemma_line_survives_scroll(s: Screen, bytes: Seq<u8>)
    requires
        s.wf(),
        all_printable(bytes),
        s.column + bytes.len() <= BUFFER_WIDTH,
    ensures
        forall|i: int|
            0 <= i < bytes.len() ==> s.write_string(bytes).write_byte(NEWLINE).rows[BUFFER_HEIGHT
                - 2][s.column + i] == (ScreenChar {
                ascii_character: #[trigger] bytes[i],
                color_code: s.color_code,
            }),
        s.write_string(bytes).write_byte(NEWLINE).column == 0,
{
    lemma_write_on_row(s, bytes);
    lemma_write_string_wf(s, bytes);
    let written = s.write_string(bytes);
    lemma_new_line(written.started());
}

/// Printable bytes that do not fit on the bottom row wrap: the first byte
/// that does not fit goes to column 0 of the bottom row after a scroll, and
/// the bytes before it are found one row higher.
pub proof fn lemma_overflow_wraps(s: Screen, bytes: Seq<u8>)
    requires
        s.wf(),
        all_printable(bytes),
        s.column + bytes.len() > BUFFER_WIDTH,
    ensures
        ({
            let fit = BUFFER_WIDTH - s.column;
            let wrapped = s.write_string(bytes.take(fit + 1));
            &&& wrapped.column == 1
            &&& wrapped.rows[BUFFER_HEIGHT - 1][0] == (ScreenChar {
                ascii_character: bytes[fit],
                color_code: s.color_code,
            })
            &&& forall|i: int|
                0 <= i < fit ==> wrapped.rows[BUFFER_HEIGHT - 2][s.column + i] == (ScreenChar {
                    ascii_character: #[trigger] bytes[i],
                    color_code: s.color_code,
                })
            &&& s.write_string(bytes) == wrapped.write_string(bytes.skip(fit + 1))
        }),
{
    let fit = BUFFER_WIDTH - s.column;
    let head = bytes.take(fit + 1);
    let front = bytes.take(fit);
    assert(head.drop_last() =~= front);
    assert(head.last() == bytes[fit]);
    assert(printable(bytes[fit]));
    assert forall|i: int| 0 <= i < front.len() implies printable(#[trigger] front[i]) by {
        assert(front[i] == bytes[i]);
    }
    lemma_write_on_row(s, front);
    lemma_write_string_wf(s, front);
    let full = s.write_string(front);
    lemma_new_line(full.started());
    let wrapped = s.write_string(head);
    assert(wrapped == full.started().new_line().put(bytes[fit]));
    assert forall|i: int| 0 <= i < fit implies wrapped.rows[BUFFER_HEIGHT - 2][s.column + i] == (
    ScreenChar { ascii_character: #[trigger] bytes[i], color_code: s.color_code }) by {
        assert(front[i] == bytes[i]);
    }
    assert(head + bytes.skip(fit + 1) =~= bytes);
    lemma_write_string_concat(s, head, bytes.skip(fit + 1));
}

/// A byte of a text that is neither printable nor a line feed is written as
/// the placeholder: the cell it goes to holds the placeholder code, and so
/// not the byte, unless the byte is the placeholder code itself.
pub proof fn lemma_unprintable_becomes_placeholder(s: Screen, byte: u8)
    requires
        s.wf(),
        !printable(byte),
        byte != NEWLINE,
    ensures
        s.write_string(seq![byte]) == s.write_byte(PLACEHOLDER),
        ({
            let written = s.write_string(seq![byte]);
            let cell = written.rows[BUFFER_HEIGHT - 1][written.column - 1];
            &&& written.column >= 1
            &&& cell.ascii_character == PLACEHOLDER
            &&& byte != PLACEHOLDER ==> cell.ascii_character != byte
        }),
{
    let one = seq![byte];
    assert(one.drop_last() =~= Seq::<u8>::empty());
    assert(one.last() == byte);
    assert(s.write_string(one.drop_last()) == s);
    lemma_new_line(s.started());
}

/// A text never puts a code on the screen that the hardware font cannot
/// show: once a text has been written to a screen that showed none, or
/// that was not written to before, the screen shows none.
pub proof fn lemma_write_string_displayable(s: Screen, bytes: Seq<u8>)
    requires
        s.wf(),
        s.initialized ==> displayable(s),
        bytes.len() > 0,
    ensures
        displayable(s.write_string(bytes)),
    decreases bytes.len(),
{
    let front = bytes.drop_last();
    let before = s.write_string(front);
    lemma_write_string_wf(s, front);
    if front.len() > 0 {
        lemma_write_string_displayable(s, front);
    }
    let ready = before.started();
    assert(displayable(ready));
    lemma_new_line(ready);
    let byte = shown_byte(bytes.last());
    assert(displayable(ready.new_line())) by {
        assert forall|row: int, col: int|
            on_screen(row, col) implies printable(
            (#[trigger] ready.new_line().rows[row][col]).ascii_character,
        ) || ready.new_line().rows[row][col].ascii_character == PLACEHOLDER by {
            if row < BUFFER_HEIGHT - 1 {
                assert(ready.new_line().rows[row] == ready.rows[row + 1]);
                let below = ready.rows[row + 1][col];
            }
        }
    }
    if byte != NEWLINE {
        let target = if ready.column >= BUFFER_WIDTH {
            ready.new_line()
        } else {
            ready
        };
        assert forall|row: int, col: int|
            on_screen(row, col) implies printable(
            (#[trigger] target.put(byte).rows[row][col]).ascii_character,
        ) || target.put(byte).rows[row][col].ascii_character == PLACEHOLDER by {
            let kept = target.rows[row][col];
        }
    }
}

/// A row that shows a line from the left margin on and blank cells behind it.
pub open spec fn line_row(line: Seq<u8>, color_code: ColorCode) -> Seq<ScreenChar> {
    Seq::new(
        BUFFER_WIDTH as nat,
        |col: int|
            if col < line.len() {
                ScreenChar { ascii_character: line[col], color_code }
            } else {
                ScreenChar::blank(color_code)
            },
    )
}

/// Lines written one after the other, each followed by a line feed.
pub open spec fn write_lines(s: Screen, lines: Seq<Seq<u8>>) -> Screen
    decreases lines.len(),
{
    if lines.len() == 0 {
        s
    } else {
        write_lines(s, lines.drop_last()).write_string(lines.last()).write_byte(NEWLINE)
    }
}

/// The bottom row is free for a new line: the column is at the left margin
/// and the row is blank, or will be when the first write clears the screen.
pub open spec fn at_line_start(s: Screen) -> bool {
    &&& s.wf()
    &&& s.column == 0
    &&& s.started().rows[BUFFER_HEIGHT - 1] == blank_row(s.color_code)
}

/// A line feed behind a text is written with the text.
pub proof fn lemma_line_feed_last(s: Screen, line: Seq<u8>)
    ensures
        s.write_string(line.push(NEWLINE)) == s.write_string(line).write_byte(NEWLINE),
{
    assert(line.push(NEWLINE).drop_last() =~= line);
}

/// A printable line that fits on a row, written on a free bottom row and
/// followed by a line feed, ends up alone on the row above the bottom row;
/// the rows above move up by one and the bottom row is free again.
pub proof fn lemma_line_scrolls_in(s: Screen, line: Seq<u8>)
    requires
        at_line_start(s),
        all_printable(line),
        line.len() <= BUFFER_WIDTH,
    ensures
        ({
            let after = s.write_string(line).write_byte(NEWLINE);
            &&& at_line_start(after)
            &&& after.initialized
            &&& after.color_code == s.color_code
            &&& after.rows[BUFFER_HEIGHT - 2] == line_row(line, s.color_code)
            &&& forall|row: int|
                0 <= row < BUFFER_HEIGHT - 2 ==> #[trigger] after.rows[row] == s.started().rows[row
                    + 1]
        }),
{
    let written = s.write_string(line);
    let after = written.write_byte(NEWLINE);
    lemma_write_on_row(s, line);
    lemma_write_string_wf(s, line);
    lemma_new_line(written.started());
    assert(after.rows[BUFFER_HEIGHT - 2] =~= line_row(line, s.color_code)) by {
        assert(after.rows[BUFFER_HEIGHT - 2] == written.started().rows[BUFFER_HEIGHT - 1]);
        assert forall|col: int| 0 <= col < BUFFER_WIDTH implies written.started().rows[BUFFER_HEIGHT
            - 1][col] == line_row(line, s.color_code)[col] by {
            if col < line.len() {
                assert(written.rows[BUFFER_HEIGHT - 1][s.column + col] == (ScreenChar {
                    ascii_character: line[col],
                    color_code: s.color_code,
                }));
            } else if line.len() > 0 {
                assert(written.rows[BUFFER_HEIGHT - 1][col] == s.started().rows[BUFFER_HEIGHT
                    - 1][col]);
            }
        }
    }
    assert forall|row: int| 0 <= row < BUFFER_HEIGHT - 2 implies #[trigger] after.rows[row]
        == s.started().rows[row + 1] by {
        assert(after.rows[row] == written.started().rows[row + 1]);
        if line.len() > 0 {
            let kept = written.rows[row + 1];
            assert forall|col: int| 0 <= col < BUFFER_WIDTH implies #[trigger] kept[col]
                == s.started().rows[row + 1][col] by {
                assert(written.rows[row + 1][col] == s.started().rows[row + 1][col]);
            }
            assert(kept =~= s.started().rows[row + 1]);
        }
    }
}

/// Of printable lines that each fit on a row, written from a free bottom
/// row on, the screen shows the last ones, as many as there are rows above
/// the bottom row, in the order they were written and the newest lowest.
/// The lines before them are lost.
pub proof fn lemma_last_lines_visible(s: Screen, lines: Seq<Seq<u8>>)
    requires
        at_line_start(s),
        forall|k: int|
            0 <= k < lines.len() ==> all_printable(#[trigger] lines[k]) && lines[k].len()
                <= BUFFER_WIDTH,
    ensures
        at_line_start(write_lines(s, lines)),
        write_lines(s, lines).color_code == s.color_code,
        forall|j: int|
            0 <= j < lines.len() && j < BUFFER_HEIGHT - 1 ==> write_lines(
                s,
                lines,
            ).rows[BUFFER_HEIGHT - 2 - j] == line_row(
                #[trigger] lines[lines.len() - 1 - j],
                s.color_code,
            ),
        lines.len() > 0 ==> forall|row: int|
            0 <= row < BUFFER_HEIGHT - 1 - lines.len() ==> #[trigger] write_lines(
                s,
                lines,
            ).rows[row] == s.started().rows[row + lines.len()],
    decreases lines.len(),
{
    if lines.len() > 0 {
        let earlier = lines.drop_last();
        let before = write_lines(s, earlier);
        lemma_last_lines_visible(s, earlier);
        lemma_line_scrolls_in(before, lines.last());
        let after = write_lines(s, lines);
        let count = lines.len();
        assert forall|j: int| 0 <= j < count && j < BUFFER_HEIGHT - 1 implies after.rows[
            BUFFER_HEIGHT - 2 - j
        ] == line_row(#[trigger] lines[count - 1 - j], s.color_code) by {
            if j > 0 {
                assert(after.rows[BUFFER_HEIGHT - 2 - j] == before.started().rows[BUFFER_HEIGHT
                    - 2 - j + 1]);
                assert(earlier[earlier.len() - 1 - (j - 1)] == lines[lines.len() - 1 - j]);
            }
        }
        assert forall|row: int| 0 <= row < BUFFER_HEIGHT - 1 - count implies #[trigger] after.rows[
            row
        ] == s.started().rows[row + count] by {
            assert(after.rows[row] == before.started().rows[row + 1]);
            if earlier.len() > 0 {
                assert(before.rows[row + 1] == s.started().rows[row + 1 + earlier.len()]);
            }
        }
    }
}

} // verus!
