//! One screen cell and the grid of cells that the hardware shows.
//!
//! A cell is two bytes in memory, the character code first and the attribute
//! byte second. Every access to a cell goes through `volatile::Volatile`, so
//! that no read or write is dropped or reordered.

use vstd::prelude::*;
use volatile::Volatile;
use crate::color::ColorCode;

verus! {

/// Number of rows of the screen.
pub const BUFFER_HEIGHT: usize = 25;

/// Number of columns of the screen.
pub const BUFFER_WIDTH: usize = 80;

/// The character code that clears a cell.
pub const BLANK: u8 = 0x20;

/// `volatile::Volatile`, a wrapper of one value whose reads and writes are
/// volatile. Nothing inside it is visible to a proof: what a cell holds is
/// named by [`stored`].
#[verifier::external_type_specification]
#[verifier::external_body]
#[verifier::reject_recursive_types(T)]
pub struct ExVolatile<T: Copy>(Volatile<T>);

/// The two bytes that a cell holds, the character code first. This is a
/// name only: all that is known of it is what the contracts of the cell's
/// read and write say, and those are taken from the documentation of
/// `Volatile`, not proved.
pub uninterp spec fn stored(cell: Volatile<[u8; 2]>) -> Seq<u8>;

/// The screen: `BUFFER_HEIGHT` rows of `BUFFER_WIDTH` cells, row 0 on top.
pub type Buffer = [[Volatile<[u8; 2]>; BUFFER_WIDTH]; BUFFER_HEIGHT];

/// What one cell shows: a character code in a color.
#[derive(Debug, Clone, Copy, PartialEq, Eq, Structural)]
pub struct ScreenChar {
    pub ascii_character: u8,
    pub color_code: ColorCode,
}

impl ScreenChar {
    /// The blank cell of a color: a space in that color.
    pub open spec fn blank(color_code: ColorCode) -> ScreenChar {
        ScreenChar { ascii_character: BLANK, color_code }
    }

    /// The two bytes of a cell in memory order.
    pub open spec fn bytes(self) -> Seq<u8> {
        seq![self.ascii_character, self.color_code.0]
    }

    /// The cell that two bytes in memory order show.
    pub open spec fn of_bytes(pair: Seq<u8>) -> ScreenChar {
        ScreenChar { ascii_character: pair[0], color_code: ColorCode(pair[1]) }
    }

    /// Reading back the bytes of a cell gives the cell.
    pub proof fn lemma_bytes_round_trip(self)
        ensures
            ScreenChar::of_bytes(self.bytes()) == self,
            self.bytes().len() == 2,
    {
    }

    /// The two bytes to store for a cell.
    pub(crate) fn to_bytes(self) -> (pair: [u8; 2])
        ensures
            pair@ == self.bytes(),
    {
        let pair: [u8; 2] = [self.ascii_character, self.color_code.0];
        assert(pair@ =~= self.bytes());
        pair
    }

    /// The cell that two stored bytes show.
    pub(crate) fn from_bytes(pair: [u8; 2]) -> (c: ScreenChar)
        ensures
            c == ScreenChar::of_bytes(pair@),
    {
        ScreenChar { ascii_character: pair[0], color_code: ColorCode(pair[1]) }
    }
}

/// What a cell shows.
pub open spec fn shown(cell: Volatile<[u8; 2]>) -> ScreenChar {
    ScreenChar::of_bytes(stored(cell))
}

/// Whether a row and a column name a cell of the screen.
pub open spec fn on_screen(row: int, col: int) -> bool {
    0 <= row < BUFFER_HEIGHT && 0 <= col < BUFFER_WIDTH
}

/// What the cell at a row and a column of a grid shows.
pub open spec fn cell_at(grid: Buffer, row: int, col: int) -> ScreenChar {
    shown(grid[row][col])
}

/// What a grid shows, row by row from the top.
pub open spec fn rows_of(grid: Buffer) -> Seq<Seq<ScreenChar>> {
    Seq::new(
        BUFFER_HEIGHT as nat,
        |row: int| Seq::new(BUFFER_WIDTH as nat, |col: int| cell_at(grid, row, col)),
    )
}

/// `Volatile::read`: a volatile read that returns a copy of the value held.
/// Taken on trust: the bytes returned are the bytes that the cell holds.
#[verifier::external_body]
pub(crate) fn read_cell(cell: &Volatile<[u8; 2]>) -> (pair: [u8; 2])
    ensures
        pair@ == stored(*cell),
{
    cell.read()
}

/// `Volatile::write`: a volatile write that sets the value held to `pair`.
/// Taken on trust: the cell then holds the bytes given, and the write never
/// panics.
#[verifier::external_body]
pub(crate) fn write_cell(cell: &mut Volatile<[u8; 2]>, pair: [u8; 2])
    ensures
        stored(*final(cell)) == pair@,
    no_unwind
{
    cell.write(pair)
}

} // verus!
