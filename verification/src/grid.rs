//! The grid: 25 rows of 80 character cells, each held in a volatile wrapper so
//! that every read and write reaches the device memory.

use vstd::prelude::*;
use volatile::Volatile;
use crate::cell::ScreenChar;

verus! {

/// Number of rows of the display.
pub const BUFFER_HEIGHT: usize = 25;

/// Number of columns of the display.
pub const BUFFER_WIDTH: usize = 80;

/// The device memory: rows of cells, row 0 at the lowest address, each cell
/// two bytes (character code, then attribute).
pub type Cells = [[Volatile<[u8; 2]>; BUFFER_WIDTH]; BUFFER_HEIGHT];

/// `volatile::Volatile`, a wrapper whose reads and writes are volatile
/// accesses to the wrapped value. Opaque to the verifier.
#[verifier::external_type_specification]
#[verifier::external_body]
#[verifier::reject_recursive_types(T)]
pub struct ExVolatile<T: Copy>(Volatile<T>);

/// The two bytes that a volatile cell holds: character code and attribute.
/// The device only reads the cells, so a cell holds what was last written to it.
pub uninterp spec fn held(cell: Volatile<[u8; 2]>) -> (u8, u8);

/// `Volatile::read`: a volatile read that returns a copy of the wrapped
/// value. Trusted: the bytes returned are the bytes the cell holds.
#[verifier::external_body]
fn read_volatile(cell: &Volatile<[u8; 2]>) -> (bytes: [u8; 2])
    ensures
        (bytes[0], bytes[1]) == held(*cell),
{
    cell.read()
}

/// `Volatile::write`: a volatile write that sets the wrapped value.
/// Trusted: afterwards the cell holds the bytes written, and the call does
/// not panic.
#[verifier::external_body]
fn write_volatile(cell: &mut Volatile<[u8; 2]>, bytes: [u8; 2])
    ensures
        held(*final(cell)) == (bytes[0], bytes[1]),
    no_unwind
{
    cell.write(bytes)
}

/// What a grid shows: rows of cells.
pub type Picture = Seq<Seq<ScreenChar>>;

/// A picture has the dimensions of the display.
pub open spec fn full_size(picture: Picture) -> bool {
    &&& picture.len() == BUFFER_HEIGHT
    &&& forall|row: int| 0 <= row < BUFFER_HEIGHT ==> (#[trigger] picture[row]).len() == BUFFER_WIDTH
}

/// The picture that device memory holds.
pub open spec fn picture_of(cells: Cells) -> Picture {
    Seq::new(
        BUFFER_HEIGHT as nat,
        |row: int|
            Seq::new(
                BUFFER_WIDTH as nat,
                |col: int| ScreenChar::spec_from_pair(held(cells@[row]@[col])),
            ),
    )
}

/// The grid of the display, with exclusive access to its memory.
pub struct Buffer {
    chars: &'static mut Cells,
}

impl View for Buffer {
    type V = Picture;

    closed spec fn view(&self) -> Picture {
        picture_of(*self.chars)
    }
}

impl Buffer {
    /// Every grid shows a picture of the display's dimensions.
    pub broadcast proof fn lemma_full_size(&self)
        ensures
            #[trigger] full_size(self@),
    {
    }

    /// Takes over the device memory.
    pub fn new(chars: &'static mut Cells) -> (buffer: Buffer)
        ensures
            buffer@ == picture_of(*old(chars)),
            full_size(buffer@),
    {
        Buffer { chars }
    }

    /// The cell at `(row, col)`, by one volatile read.
    pub fn read(&self, row: usize, col: usize) -> (cell: ScreenChar)
        requires
            row < BUFFER_HEIGHT,
            col < BUFFER_WIDTH,
        ensures
            cell == self@[row as int][col as int],
    {
        let bytes = read_volatile(&self.chars[row][col]);
        ScreenChar::from_bytes(bytes)
    }

    /// Stores `cell` at `(row, col)` by one volatile write; every other cell
    /// keeps its content.
    pub fn write(&mut self, row: usize, col: usize, cell: ScreenChar)
        requires
            row < BUFFER_HEIGHT,
            col < BUFFER_WIDTH,
        ensures
            final(self)@ == old(self)@.update(
                row as int,
                old(self)@[row as int].update(col as int, cell),
            ),
            full_size(final(self)@),
        no_unwind
    {
        write_volatile(&mut self.chars[row][col], cell.to_bytes());
        proof {
            cell.lemma_pair_round_trip();
            let before = old(self)@;
            let after = self@;
            let expected = before.update(row as int, before[row as int].update(col as int, cell));
            assert forall|r: int| 0 <= r < BUFFER_HEIGHT implies #[trigger] after[r]
                =~= expected[r] by {}
        }
    }
}

} // verus!
