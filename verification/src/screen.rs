//! The mathematical model of the display: what the screen shows, where the
//! cursor stands, and how one byte changes both.

use vstd::prelude::*;
use crate::cell::{ScreenChar, BLANK};
use crate::color::ColorCode;
use crate::grid::{full_size, Picture, BUFFER_HEIGHT, BUFFER_WIDTH};

verus! {

/// The line-feed byte, which ends a line.
pub const LINE_FEED: u8 = 0x0a;

/// The glyph shown in place of a byte that the display cannot show.
pub const PLACEHOLDER: u8 = 0xfe;

/// The bytes with a glyph of their own: printable ASCII.
pub open spec fn is_printable(byte: u8) -> bool {
    0x20 <= byte <= 0x7e
}

/// The byte that is emitted for `byte`: itself if it is printable or a line
/// feed, the placeholder otherwise.
pub open spec fn displayed(byte: u8) -> u8 {
    if is_printable(byte) || byte == LINE_FEED {
        byte
    } else {
        PLACEHOLDER
    }
}

/// The state of a writer: the cursor's column in the last row, the attribute
/// in use, and the picture on the screen.
pub struct Screen {
    pub column: int,
    pub color: ColorCode,
    pub picture: Picture,
}

impl Screen {
    /// The picture has the display's dimensions and the cursor stands in the
    /// last row or just behind its end.
    pub open spec fn wf(self) -> bool {
        &&& 0 <= self.column <= BUFFER_WIDTH
        &&& full_size(self.picture)
    }

    /// The cell at `(row, col)`.
    pub open spec fn cell(self, row: int, col: int) -> ScreenChar {
        self.picture[row][col]
    }

    /// The last row, in which the cursor stands.
    pub open spec fn last_row(self) -> Seq<ScreenChar> {
        self.picture[BUFFER_HEIGHT - 1]
    }

    /// A space in the current attribute.
    pub open spec fn blank(self) -> ScreenChar {
        ScreenChar::spec_blank(self.color)
    }

    /// A row of spaces in the current attribute.
    pub open spec fn blank_row(self) -> Seq<ScreenChar> {
        Seq::new(BUFFER_WIDTH as nat, |col: int| self.blank())
    }

    /// The state with `row` filled with spaces in the current attribute.
    pub open spec fn cleared(self, row: int) -> Screen {
        Screen { picture: self.picture.update(row, self.blank_row()), ..self }
    }

    /// The state after a scroll: every row but the last shows what the row
    /// below it showed, the last row is blank, and the cursor is at column 0.
    /// What the top row showed is gone.
    pub open spec fn scrolled(self) -> Screen {
        Screen {
            column: 0,
            color: self.color,
            picture: Seq::new(
                BUFFER_HEIGHT as nat,
                |row: int|
                    if row + 1 < BUFFER_HEIGHT {
                        self.picture[row + 1]
                    } else {
                        self.blank_row()
                    },
            ),
        }
    }

    /// The state with `byte` placed under the cursor, in the current
    /// attribute, and the cursor moved one column on.
    pub open spec fn placed(self, byte: u8) -> Screen {
        Screen {
            column: self.column + 1,
            color: self.color,
            picture: self.picture.update(
                BUFFER_HEIGHT - 1,
                self.picture[BUFFER_HEIGHT - 1].update(
                    self.column,
                    ScreenChar { ascii_character: byte, color_code: self.color },
                ),
            ),
        }
    }

    /// Emitting `byte` scrolls the screen: it is a line feed, or the last row
    /// is full.
    pub open spec fn scrolls_on(self, byte: u8) -> bool {
        byte == LINE_FEED || self.column >= BUFFER_WIDTH
    }

    /// The state after `byte` is emitted: a line feed scrolls; any other byte
    /// is placed under the cursor, after a scroll if the last row is full.
    pub open spec fn after_byte(self, byte: u8) -> Screen {
        if byte == LINE_FEED {
            self.scrolled()
        } else if self.column >= BUFFER_WIDTH {
            self.scrolled().placed(byte)
        } else {
            self.placed(byte)
        }
    }

    /// The state after the bytes of a string are written in order, each one
    /// emitted as `displayed` gives it.
    pub open spec fn after_string(self, bytes: Seq<u8>) -> Screen
        decreases bytes.len(),
    {
        if bytes.len() == 0 {
            self
        } else {
            self.after_string(bytes.drop_last()).after_byte(displayed(bytes.last()))
        }
    }

    /// The number of scrolls that happen while the bytes of a string are
    /// written.
    pub open spec fn scrolls_during(self, bytes: Seq<u8>) -> nat
        decreases bytes.len(),
    {
        if bytes.len() == 0 {
            0
        } else {
            let before = self.after_string(bytes.drop_last());
            let earlier = self.scrolls_during(bytes.drop_last());
            if before.scrolls_on(displayed(bytes.last())) {
                earlier + 1
            } else {
                earlier
            }
        }
    }

    /// A scroll keeps the attribute, puts the cursor at column 0, leaves the
    /// last row blank in the current attribute, and gives every other row the
    /// content of the row below it.
    pub proof fn lemma_scrolled(self)
        requires
            self.wf(),
        ensures
            self.scrolled().wf(),
            self.scrolled().column == 0,
            self.scrolled().color == self.color,
            forall|col: int|
                0 <= col < BUFFER_WIDTH ==> #[trigger] self.scrolled().last_row()[col]
                    == self.blank(),
            forall|row: int|
                0 <= row < BUFFER_HEIGHT - 1 ==> #[trigger] self.scrolled().picture[row]
                    == self.picture[row + 1],
    {
    }

    /// Emitting a byte keeps the state well formed and keeps the attribute.
    pub proof fn lemma_after_byte_wf(self, byte: u8)
        requires
            self.wf(),
        ensures
            self.after_byte(byte).wf(),
            self.after_byte(byte).color == self.color,
    {
    }

    /// A line feed scrolls exactly once and puts the cursor at column 0,
    /// wherever the cursor stood.
    pub proof fn lemma_line_feed(self)
        ensures
            self.scrolls_on(LINE_FEED),
            self.after_byte(LINE_FEED) == self.scrolled(),
            self.after_byte(LINE_FEED).column == 0,
            self.after_string(seq![LINE_FEED]) == self.scrolled(),
            self.scrolls_during(seq![LINE_FEED]) == 1,
    {
        let line = seq![LINE_FEED];
        assert(self.after_string(line.drop_last()) == self);
        assert(self.scrolls_during(line.drop_last()) == 0);
    }

    /// Writing one more byte after a string is emitting what is displayed for it.
    pub proof fn lemma_after_string_push(self, bytes: Seq<u8>, byte: u8)
        ensures
            self.after_string(bytes.push(byte)) == self.after_string(bytes).after_byte(
                displayed(byte),
            ),
            self.scrolls_during(bytes.push(byte)) == self.scrolls_during(bytes) + if self.after_string(
                bytes,
            ).scrolls_on(displayed(byte)) {
                1nat
            } else {
                0nat
            },
    {
        assert(bytes.push(byte).drop_last() =~= bytes);
    }

    /// Writing two strings one after the other is writing their concatenation.
    pub proof fn lemma_after_string_concat(self, first: Seq<u8>, second: Seq<u8>)
        ensures
            self.after_string(first + second) == self.after_string(first).after_string(second),
            self.scrolls_during(first + second) == self.scrolls_during(first) + self.after_string(
                first,
            ).scrolls_during(second),
        decreases second.len(),
    {
        if second.len() > 0 {
            self.lemma_after_string_concat(first, second.drop_last());
            assert((first + second).drop_last() =~= first + second.drop_last());
        }
    }

    /// Writing a string keeps the state well formed and keeps the attribute.
    pub proof fn lemma_after_string_wf(self, bytes: Seq<u8>)
        requires
            self.wf(),
        ensures
            self.after_string(bytes).wf(),
            self.after_string(bytes).color == self.color,
        decreases bytes.len(),
    {
        if bytes.len() > 0 {
            self.lemma_after_string_wf(bytes.drop_last());
            self.after_string(bytes.drop_last()).lemma_after_byte_wf(displayed(bytes.last()));
        }
    }

    /// Printable bytes that fit behind the cursor in the last row are placed
    /// there unchanged and in order, in the current attribute. The cursor
    /// moves on by their number, nothing scrolls, and every other cell keeps
    /// its content.
    pub proof fn lemma_line_of_printables(self, bytes: Seq<u8>)
        requires
            self.wf(),
            all_printable(bytes),
            self.column + bytes.len() <= BUFFER_WIDTH,
        ensures
            self.after_string(bytes).wf(),
            self.after_string(bytes).column == self.column + bytes.len(),
            self.after_string(bytes).color == self.color,
            self.scrolls_during(bytes) == 0,
            forall|i: int|
                0 <= i < bytes.len() ==> #[trigger] self.after_string(bytes).last_row()[self.column
                    + i] == (ScreenChar { ascii_character: bytes[i], color_code: self.color }),
            forall|row: int, col: int|
                0 <= row < BUFFER_HEIGHT && 0 <= col < BUFFER_WIDTH && !(row == BUFFER_HEIGHT - 1
                    && self.column <= col < self.column + bytes.len()) ==> #[trigger] self.after_string(
                    bytes,
                ).picture[row][col] == self.picture[row][col],
        decreases bytes.len(),
    {
        if bytes.len() > 0 {
            let front = bytes.drop_last();
            let before = self.after_string(front);
            self.lemma_line_of_printables(front);
            let after = self.after_string(bytes);
            assert forall|i: int| 0 <= i < bytes.len() implies #[trigger] after.last_row()[self.column
                + i] == (ScreenChar { ascii_character: bytes[i], color_code: self.color }) by {
                if i < front.len() {
                    assert(before.last_row()[self.column + i] == (ScreenChar {
                        ascii_character: front[i],
                        color_code: self.color,
                    }));
                }
            }
        }
    }

    /// On a fresh line, printable bytes fewer than a row holds are placed
    /// unchanged and in order from column 0 of the last row, and the cursor
    /// ends at the column that equals their number.
    pub proof fn lemma_short_line(self, bytes: Seq<u8>)
        requires
            self.wf(),
            self.column == 0,
            all_printable(bytes),
            bytes.len() < BUFFER_WIDTH,
        ensures
            self.after_string(bytes).column == bytes.len(),
            forall|i: int|
                0 <= i < bytes.len() ==> #[trigger] self.after_string(bytes).last_row()[i] == (
                ScreenChar { ascii_character: bytes[i], color_code: self.color }),
    {
        self.lemma_line_of_printables(bytes);
        assert forall|i: int| 0 <= i < bytes.len() implies #[trigger] self.after_string(
            bytes,
        ).last_row()[i] == (ScreenChar { ascii_character: bytes[i], color_code: self.color }) by {
            assert(self.after_string(bytes).last_row()[self.column + i] == (ScreenChar {
                ascii_character: bytes[i],
                color_code: self.color,
            }));
        }
    }

    /// A byte that is neither printable nor a line feed is stored as the
    /// placeholder glyph, in the cell where the cursor stood. What is stored
    /// differs from the byte, unless the byte is the placeholder's own code.
    pub proof fn lemma_placeholder(self, byte: u8)
        requires
            self.wf(),
            !is_printable(byte),
            byte != LINE_FEED,
        ensures
            displayed(byte) == PLACEHOLDER,
            byte != PLACEHOLDER ==> displayed(byte) != byte,
            self.after_string(seq![byte]) == self.after_byte(PLACEHOLDER),
            self.after_string(seq![byte]).last_row()[self.after_string(seq![byte]).column - 1] == (
            ScreenChar { ascii_character: PLACEHOLDER, color_code: self.color }),
    {
        let one = seq![byte];
        assert(self.after_string(one.drop_last()) == self);
    }

    /// Whatever is written, a cell that changes shows a printable byte or the
    /// placeholder: if the picture shows only such glyphs, it still does after
    /// any string.
    pub proof fn lemma_only_glyphs(self, bytes: Seq<u8>)
        requires
            self.wf(),
            shows_glyphs(self.picture),
        ensures
            shows_glyphs(self.after_string(bytes).picture),
        decreases bytes.len(),
    {
        if bytes.len() > 0 {
            self.lemma_only_glyphs(bytes.drop_last());
            self.lemma_after_string_wf(bytes.drop_last());
        }
    }

    /// On a fresh line, a full row of printable bytes and one more scroll the
    /// screen exactly once: the full row moves up to the row above the last,
    /// the extra byte stands at column 0 of the last row with blanks behind
    /// it, and every row further up shows what the row below it showed.
    pub proof fn lemma_wrap(self, bytes: Seq<u8>)
        requires
            self.wf(),
            self.column == 0,
            all_printable(bytes),
            bytes.len() == BUFFER_WIDTH + 1,
        ensures
            self.scrolls_during(bytes) == 1,
            self.scrolls_during(bytes.drop_last()) == 0,
            self.after_string(bytes) == self.after_string(bytes.drop_last()).scrolled().placed(
                bytes.last(),
            ),
            self.after_string(bytes).wf(),
            self.after_string(bytes).column == 1,
            self.after_string(bytes).last_row()[0] == (ScreenChar {
                ascii_character: bytes.last(),
                color_code: self.color,
            }),
            forall|col: int|
                1 <= col < BUFFER_WIDTH ==> #[trigger] self.after_string(bytes).last_row()[col]
                    == self.blank(),
            forall|col: int|
                0 <= col < BUFFER_WIDTH ==> #[trigger] self.after_string(bytes).picture[BUFFER_HEIGHT
                    - 2][col] == (ScreenChar { ascii_character: bytes[col], color_code: self.color }),
            forall|row: int|
                0 <= row < BUFFER_HEIGHT - 2 ==> #[trigger] self.after_string(bytes).picture[row]
                    == self.picture[row + 1],
    {
        let front = bytes.drop_last();
        let full = self.after_string(front);
        self.lemma_line_of_printables(front);
        let after = self.after_string(bytes);
        assert forall|col: int| 0 <= col < BUFFER_WIDTH implies #[trigger] after.picture[BUFFER_HEIGHT
            - 2][col] == (ScreenChar { ascii_character: bytes[col], color_code: self.color }) by {
            assert(full.last_row()[self.column + col] == (ScreenChar {
                ascii_character: front[col],
                color_code: self.color,
            }));
        }
        assert forall|row: int| 0 <= row < BUFFER_HEIGHT - 2 implies #[trigger] after.picture[row]
            =~= self.picture[row + 1] by {}
    }
}

/// Every byte of the sequence is printable.
pub open spec fn all_printable(bytes: Seq<u8>) -> bool {
    forall|i: int| 0 <= i < bytes.len() ==> is_printable(#[trigger] bytes[i])
}

/// Every cell of the picture shows a printable byte or the placeholder.
pub open spec fn shows_glyphs(picture: Picture) -> bool {
    forall|row: int, col: int|
        0 <= row < BUFFER_HEIGHT && 0 <= col < BUFFER_WIDTH ==> {
            let shown = (#[trigger] picture[row][col]).ascii_character;
            is_printable(shown) || shown == PLACEHOLDER
        }
}

} // verus!
