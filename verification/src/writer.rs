//! The writer: a cursor in the last row of the grid, the attribute in use,
//! and the emission of bytes with line wrap and scrolling.

use vstd::prelude::*;
use vstd::string::StringSliceAdditionalSpecFns;
use crate::cell::ScreenChar;
use crate::color::{packed, Color, ColorCode};
use crate::grid::{full_size, Buffer, BUFFER_HEIGHT, BUFFER_WIDTH};
use crate::screen::{Screen, LINE_FEED, PLACEHOLDER};

verus! {

/// Writes bytes to the last row of the display, scrolling the rows above.
pub struct Writer {
    column_position: usize,
    color_code: ColorCode,
    buffer: Buffer,
}

impl View for Writer {
    type V = Screen;

    closed spec fn view(&self) -> Screen {
        Screen {
            column: self.column_position as int,
            color: self.color_code,
            picture: self.buffer@,
        }
    }
}

impl Writer {
    /// The cursor never stands further right than just behind the last column.
    #[verifier::type_invariant]
    spec fn cursor_in_row(self) -> bool {
        self.column_position <= BUFFER_WIDTH
    }

    /// A writer on `buffer` with the cursor at column 0 of the last row and
    /// the default attribute, yellow on black. The picture is left as it is.
    pub fn new(buffer: Buffer) -> (writer: Writer)
        ensures
            writer@.wf(),
            writer@.column == 0,
            writer@.color@ == packed(Color::Yellow, Color::Black),
            writer@.picture == buffer@,
    {
        proof {
            buffer.lemma_full_size();
        }
        Writer {
            column_position: 0,
            color_code: ColorCode::new(Color::Yellow, Color::Black),
            buffer,
        }
    }

    /// The column of the cursor in the last row; it equals the width when
    /// the last row is full.
    pub fn column_position(&self) -> (column: usize)
        ensures
            column == self@.column,
            column <= BUFFER_WIDTH,
            self@.wf(),
    {
        proof {
            use_type_invariant(self);
            self.buffer.lemma_full_size();
        }
        self.column_position
    }

    /// The attribute in which bytes are placed and rows are blanked.
    pub fn color_code(&self) -> (color_code: ColorCode)
        ensures
            color_code == self@.color,
    {
        self.color_code
    }

    /// Changes the attribute for what is written from now on. What the
    /// screen shows stays as it is.
    pub fn set_color_code(&mut self, color_code: ColorCode)
        ensures
            final(self)@ == (Screen { color: color_code, ..old(self)@ }),
    {
        proof {
            use_type_invariant(&*self);
        }
        self.color_code = color_code;
    }

    /// The cell that the screen shows at `(row, col)`, or `None` where the
    /// position is outside the display.
    pub fn char_at(&self, row: usize, col: usize) -> (cell: Option<ScreenChar>)
        ensures
            row < BUFFER_HEIGHT && col < BUFFER_WIDTH ==> cell == Some(
                self@.cell(row as int, col as int),
            ),
            !(row < BUFFER_HEIGHT && col < BUFFER_WIDTH) ==> cell is None,
    {
        if row < BUFFER_HEIGHT && col < BUFFER_WIDTH {
            Some(self.buffer.read(row, col))
        } else {
            None
        }
    }

    /// Fills `row` with spaces in the current attribute.
    pub fn clear_row(&mut self, row: usize)
        requires
            row < BUFFER_HEIGHT,
        ensures
            final(self)@ == old(self)@.cleared(row as int),
            final(self)@.wf(),
    {
        proof {
            use_type_invariant(&*self);
            self.buffer.lemma_full_size();
        }
        let ghost start = self@;
        let blank = ScreenChar::blank(self.color_code);
        for col in 0..BUFFER_WIDTH
            invariant
                row < BUFFER_HEIGHT,
                start.wf(),
                blank == start.blank(),
                self.column_position == start.column,
                self.color_code == start.color,
                full_size(self.buffer@),
                forall|r: int, c: int|
                    0 <= r < BUFFER_HEIGHT && 0 <= c < BUFFER_WIDTH ==> #[trigger] self.buffer@[r][c]
                        == if r == row && c < col {
                        blank
                    } else {
                        start.picture[r][c]
                    },
        {
            self.buffer.write(row, col, blank);
        }
        proof {
            let goal = start.cleared(row as int);
            assert forall|r: int| 0 <= r < BUFFER_HEIGHT implies #[trigger] self.buffer@[r]
                =~= goal.picture[r] by {}
            assert(self.buffer@ =~= goal.picture);
        }
    }

    /// Scrolls: moves every row up by one, blanks the last row and puts the
    /// cursor at its start. What the top row showed is lost.
    pub fn new_line(&mut self)
        ensures
            final(self)@ == old(self)@.scrolled(),
            final(self)@.wf(),
            final(self)@.column == 0,
            forall|col: int|
                0 <= col < BUFFER_WIDTH ==> #[trigger] final(self)@.last_row()[col] == old(
                    self,
                )@.blank(),
            forall|row: int|
                0 <= row < BUFFER_HEIGHT - 1 ==> #[trigger] final(self)@.picture[row] == old(
                    self,
                )@.picture[row + 1],
    {
        proof {
            use_type_invariant(&*self);
            self.buffer.lemma_full_size();
        }
        let ghost start = self@;
        for row in 1..BUFFER_HEIGHT
            invariant
                start.wf(),
                self.column_position == start.column,
                self.color_code == start.color,
                full_size(self.buffer@),
                forall|r: int, c: int|
                    0 <= r < BUFFER_HEIGHT && 0 <= c < BUFFER_WIDTH ==> #[trigger] self.buffer@[r][c]
                        == if r < row - 1 {
                        start.picture[r + 1][c]
                    } else {
                        start.picture[r][c]
                    },
        {
            for col in 0..BUFFER_WIDTH
                invariant
                    1 <= row < BUFFER_HEIGHT,
                    start.wf(),
                    self.column_position == start.column,
                    self.color_code == start.color,
                    full_size(self.buffer@),
                    forall|r: int, c: int|
                        0 <= r < BUFFER_HEIGHT && 0 <= c < BUFFER_WIDTH
                            ==> #[trigger] self.buffer@[r][c] == if r < row - 1 || (r == row - 1
                            && c < col) {
                            start.picture[r + 1][c]
                        } else {
                            start.picture[r][c]
                        },
            {
                let character = self.buffer.read(row, col);
                self.buffer.write(row - 1, col, character);
            }
        }
        self.clear_row(BUFFER_HEIGHT - 1);
        self.column_position = 0;
        proof {
            let goal = start.scrolled();
            assert forall|r: int| 0 <= r < BUFFER_HEIGHT implies #[trigger] self.buffer@[r]
                =~= goal.picture[r] by {}
            assert(self.buffer@ =~= goal.picture);
        }
    }

    /// Emits one byte. A line feed scrolls. Any other byte is placed under
    /// the cursor in the last row, after a scroll if that row is full, and the
    /// cursor moves one column on.
    pub fn write_byte(&mut self, byte: u8)
        ensures
            final(self)@ == old(self)@.after_byte(byte),
            final(self)@.wf(),
    {
        proof {
            use_type_invariant(&*self);
            self.buffer.lemma_full_size();
        }
        match byte {
            LINE_FEED => self.new_line(),
            byte => {
                if self.column_position >= BUFFER_WIDTH {
                    self.new_line();
                }
                let row = BUFFER_HEIGHT - 1;
                let col = self.column_position;

                let color_code = self.color_code;
                self.buffer.write(row, col, ScreenChar { ascii_character: byte, color_code });
                self.column_position += 1;
            },
        }
    }

    /// Writes a string byte by byte. A byte that is neither printable ASCII
    /// nor a line feed is shown as the placeholder glyph.
    pub fn write_string(&mut self, s: &str)
        ensures
            final(self)@ == old(self)@.after_string(s.spec_bytes()),
            final(self)@.wf(),
    {
        proof {
            use_type_invariant(&*self);
            self.buffer.lemma_full_size();
        }
        let ghost start = self@;
        let bytes = s.as_bytes();
        for i in 0..bytes.len()
            invariant
                bytes@ == s.spec_bytes(),
                self@.wf(),
                self@ == start.after_string(bytes@.take(i as int)),
        {
            let byte = bytes[i];
            proof {
                assert(bytes@.take(i + 1).drop_last() =~= bytes@.take(i as int));
            }
            match byte {
                0x20..=0x7e | LINE_FEED => self.write_byte(byte),
                _ => self.write_byte(PLACEHOLDER),
            }
        }
        proof {
            assert(bytes@.take(bytes@.len() as int) =~= bytes@);
        }
    }

    /// Writes a string as `write_string` does; the form that formatted
    /// output goes through. It never fails.
    pub fn write_str(&mut self, s: &str) -> (result: Result<(), core::fmt::Error>)
        ensures
            result is Ok,
            final(self)@ == old(self)@.after_string(s.spec_bytes()),
            final(self)@.wf(),
    {
        self.write_string(s);
        Ok(())
    }
}

/// `core::fmt::Error`, the error of a formatting sink. Opaque to the verifier.
#[verifier::external_type_specification]
#[verifier::external_body]
pub struct ExFmtError(core::fmt::Error);

} // verus!
