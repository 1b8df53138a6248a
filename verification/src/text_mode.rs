//! The character-cell variant of the console.
//!
//! The frame is a grid of cells of two bytes each: the character, then its
//! attribute. There is no font and no blending: a character is stored as it
//! is, with the current attribute beside it. The control syntax is reduced to
//! line feed, tab and the selection of one of three palette entries by
//! `ESC c R`, `ESC c G` or `ESC c B`.
//!
//! The cursor may stand outside the grid: a line feed or a tab moves it
//! without looking at the edges. A character written there is not stored, as
//! the frame has no such cell; the cursor is brought back into the grid after
//! the character.

use crate::scroll::{shift_up, shifted_up, zero_from};
use vstd::prelude::*;

verus! {

/// Bytes of one cell: the character and its attribute.
pub const CELL_BYTES: usize = 2;

/// The attribute that a new console writes with: light cyan on black.
pub const DEFAULT_ATTRIBUTE: u8 = 0x0b;

/// Palette entry selected by `R`.
pub const ATTRIBUTE_RED: u8 = 0x0c;

/// Palette entry selected by `G`.
pub const ATTRIBUTE_GREEN: u8 = 0x0a;

/// Palette entry selected by `B`.
pub const ATTRIBUTE_BLUE: u8 = 0x09;

/// Columns between two tab stops.
pub const TAB_STOP: usize = 8;

/// Opens a palette directive.
pub const ESC: u8 = 0x1b;

/// Follows `ESC` in a palette directive: the letter `c`.
pub const DIRECTIVE_COLOR: u8 = 0x63;

/// The letter `R`.
pub const LETTER_RED: u8 = 0x52;

/// The letter `G`.
pub const LETTER_GREEN: u8 = 0x47;

/// The letter `B`.
pub const LETTER_BLUE: u8 = 0x42;

/// Moves the cursor to the start of the next row.
pub const LINE_FEED: u8 = 0x0a;

/// Moves the cursor to the next tab stop.
pub const TAB: u8 = 0x09;

/// The attribute that the palette letter `letter` selects; `current` where
/// the letter names no palette entry.
pub open spec fn palette(letter: u8, current: u8) -> u8 {
    if letter == LETTER_RED {
        ATTRIBUTE_RED
    } else if letter == LETTER_GREEN {
        ATTRIBUTE_GREEN
    } else if letter == LETTER_BLUE {
        ATTRIBUTE_BLUE
    } else {
        current
    }
}

/// Looks a palette letter up.
pub fn select_attribute(letter: u8, current: u8) -> (attribute: u8)
    ensures
        attribute == palette(letter, current),
{
    if letter == LETTER_RED {
        ATTRIBUTE_RED
    } else if letter == LETTER_GREEN {
        ATTRIBUTE_GREEN
    } else if letter == LETTER_BLUE {
        ATTRIBUTE_BLUE
    } else {
        current
    }
}

/// The next tab stop behind column `x`.
pub open spec fn next_tab_stop(x: int) -> int {
    (x + TAB_STOP) / (TAB_STOP as int) * TAB_STOP
}

/// The character-cell console as a value.
pub struct TextModel {
    /// The bytes of the grid, row after row, two for each cell.
    pub cells: Seq<u8>,
    /// Cells per row.
    pub width: int,
    /// Rows.
    pub height: int,
    /// Column of the cursor.
    pub cursor_x: int,
    /// Row of the cursor.
    pub cursor_y: int,
    /// The attribute that characters are written with.
    pub color: u8,
}

impl TextModel {
    /// The grid has at least one row, and the frame holds exactly its cells.
    pub open spec fn wf(self) -> bool {
        &&& 0 <= self.width
        &&& 0 < self.height
        &&& self.cells.len() == self.width * self.height * CELL_BYTES
        &&& 0 <= self.cursor_x
        &&& 0 <= self.cursor_y
    }

    /// Index of the cell under the cursor, counted in cells.
    pub open spec fn position(self) -> int {
        self.cursor_y * self.width + self.cursor_x
    }

    /// The cursor stands on a cell of the frame.
    pub open spec fn on_grid(self) -> bool {
        0 <= self.position() < self.width * self.height
    }

    /// Stores `c` and the current attribute in the cell under the cursor, if
    /// the frame has that cell.
    pub open spec fn store(self, c: u8) -> TextModel {
        if self.on_grid() {
            TextModel {
                cells: self.cells.update(self.position() * CELL_BYTES, c).update(
                    self.position() * CELL_BYTES + 1,
                    self.color,
                ),
                ..self
            }
        } else {
            self
        }
    }

    /// Moves every row up by one and blanks the last row.
    pub open spec fn scroll_up(self) -> TextModel {
        TextModel { cells: shifted_up(self.cells, self.width * CELL_BYTES), ..self }
    }

    /// The cursor one cell on: at the end of a row it goes to the start of
    /// the next, and below the last row the grid scrolls up and the cursor
    /// goes to the last row.
    pub open spec fn advance(self) -> TextModel {
        let stepped = TextModel { cursor_x: self.cursor_x + 1, ..self };
        let wrapped = if stepped.cursor_x >= stepped.width {
            TextModel { cursor_x: 0, cursor_y: stepped.cursor_y + 1, ..stepped }
        } else {
            stepped
        };
        if wrapped.cursor_y >= wrapped.height {
            TextModel { cursor_y: wrapped.height - 1, ..wrapped.scroll_up() }
        } else {
            wrapped
        }
    }

    /// Writes `c` at the cursor and moves the cursor on.
    pub open spec fn write_char(self, c: u8) -> TextModel {
        self.store(c).advance()
    }

    /// Blanks every cell. The cursor and the attribute stay.
    pub open spec fn clear_screen(self) -> TextModel {
        TextModel { cells: Seq::new(self.cells.len(), |i: int| 0u8), ..self }
    }

    /// The same console writing with `color`.
    pub open spec fn set_color(self, color: u8) -> TextModel {
        TextModel { color, ..self }
    }

    /// Writes `text` from index `from` on.
    ///
    /// A line feed moves the cursor to the start of the next row and a tab to
    /// the next tab stop, both without scrolling or wrapping. `ESC c` and a
    /// third byte select an attribute from the palette and take three bytes;
    /// an `ESC` that opens no such directive is skipped. Every other byte is
    /// written as a character.
    pub open spec fn write_from(self, text: Seq<u8>, from: int) -> TextModel
        decreases text.len() - from,
    {
        if from < 0 || from >= text.len() {
            self
        } else if text[from] == LINE_FEED {
            TextModel { cursor_x: 0, cursor_y: self.cursor_y + 1, ..self }.write_from(
                text,
                from + 1,
            )
        } else if text[from] == TAB {
            TextModel { cursor_x: next_tab_stop(self.cursor_x), ..self }.write_from(
                text,
                from + 1,
            )
        } else if text[from] == ESC {
            if from + 2 < text.len() && text[from + 1] == DIRECTIVE_COLOR {
                self.set_color(palette(text[from + 2], self.color)).write_from(text, from + 3)
            } else {
                self.write_from(text, from + 1)
            }
        } else {
            self.write_char(text[from]).write_from(text, from + 1)
        }
    }

    /// Writes the whole of `text`.
    pub open spec fn write_str(self, text: Seq<u8>) -> TextModel {
        self.write_from(text, 0)
    }

    /// The cursor can take `steps` more bytes of text without leaving the
    /// range of the machine's integers: a byte moves it down by one row at
    /// most, and to the right by one tab stop at most.
    pub open spec fn has_room(self, steps: int) -> bool {
        &&& self.cursor_x + TAB_STOP * steps <= usize::MAX
        &&& self.cursor_y + steps <= usize::MAX
    }
}

/// Writing a character keeps the grid and the size of the frame, and leaves
/// the cursor on a row of the grid; in a grid with columns it leaves the
/// cursor on a cell.
pub proof fn lemma_write_char_returns_to_grid(s: TextModel, c: u8)
    requires
        s.wf(),
    ensures
        s.write_char(c).wf(),
        s.write_char(c).cells.len() == s.cells.len(),
        s.write_char(c).width == s.width,
        s.write_char(c).height == s.height,
        s.write_char(c).color == s.color,
        s.write_char(c).cursor_y < s.height,
        s.width > 0 ==> s.write_char(c).cursor_x < s.width && s.write_char(c).on_grid(),
{
    let after = s.write_char(c);
    if s.width > 0 {
        assert(after.cursor_y * s.width + s.width <= s.width * s.height) by (nonlinear_arith)
            requires
                0 <= after.cursor_y,
                after.cursor_y + 1 <= s.height,
                0 < s.width,
        ;
        assert(0 <= after.cursor_y * s.width) by (nonlinear_arith)
            requires
                0 <= after.cursor_y,
                0 < s.width,
        ;
    }
}

/// A character written on the grid is stored with the current attribute in
/// the two bytes of the cell under the cursor, and no other byte changes.
pub proof fn lemma_store_on_grid(s: TextModel, c: u8)
    requires
        s.wf(),
        s.on_grid(),
    ensures
        0 <= s.position() * CELL_BYTES,
        s.position() * CELL_BYTES + 1 < s.cells.len(),
        s.store(c).cells[s.position() * CELL_BYTES] == c,
        s.store(c).cells[s.position() * CELL_BYTES + 1] == s.color,
        forall|i: int|
            0 <= i < s.cells.len() && i != s.position() * CELL_BYTES && i != s.position()
                * CELL_BYTES + 1 ==> s.store(c).cells[i] == s.cells[i],
        s.store(c).cells.len() == s.cells.len(),
{
    let p = s.position();
    let cells = s.width * s.height;
    assert(p * CELL_BYTES + 1 < cells * CELL_BYTES) by (nonlinear_arith)
        requires
            0 <= p < cells,
    ;
}

/// A cursor off the grid stores nothing.
pub proof fn lemma_store_off_grid(s: TextModel, c: u8)
    requires
        !s.on_grid(),
    ensures
        s.store(c) == s,
{
}

/// A console on a grid of character cells.
///
/// The writer owns the frame. Every value of this type has a grid of at
/// least one row and a frame of exactly the grid's cells.
pub struct FrameBufferWriter {
    framebuffer: Vec<u8>,
    width: usize,
    height: usize,
    cursor_x: usize,
    cursor_y: usize,
    color: u8,
}

impl View for FrameBufferWriter {
    type V = TextModel;

    closed spec fn view(&self) -> TextModel {
        TextModel {
            cells: self.framebuffer@,
            width: self.width as int,
            height: self.height as int,
            cursor_x: self.cursor_x as int,
            cursor_y: self.cursor_y as int,
            color: self.color,
        }
    }
}

/// A frame of `len` bytes holds exactly the cells of a grid of `width`
/// columns and `height` rows, and the grid has a row.
pub open spec fn holds_grid(len: int, width: int, height: int) -> bool {
    0 < height && len == width * height * CELL_BYTES
}

/// Decides whether a frame of `len` bytes holds a grid of `width` columns
/// and `height` rows.
pub fn fits_grid(len: usize, width: usize, height: usize) -> (ok: bool)
    ensures
        ok == holds_grid(len as int, width as int, height as int),
{
    if height == 0 {
        return false;
    }
    match width.checked_mul(height) {
        None => {
            assert(width * height * CELL_BYTES >= width * height) by (nonlinear_arith)
                requires
                    0 <= width * height,
            ;
            false
        },
        Some(cells) => match cells.checked_mul(CELL_BYTES) {
            None => false,
            Some(bytes) => bytes == len,
        },
    }
}

impl FrameBufferWriter {
    #[verifier::type_invariant]
    spec fn inv(self) -> bool {
        self@.wf()
    }

    /// Makes a console on `framebuffer`, a grid of `width` columns and
    /// `height` rows, with the cursor in the top left cell and the default
    /// attribute. The frame is taken as it is.
    pub fn new(framebuffer: Vec<u8>, width: usize, height: usize) -> (writer: FrameBufferWriter)
        requires
            holds_grid(framebuffer.len() as int, width as int, height as int),
        ensures
            writer@ == (TextModel {
                cells: framebuffer@,
                width: width as int,
                height: height as int,
                cursor_x: 0,
                cursor_y: 0,
                color: DEFAULT_ATTRIBUTE,
            }),
            writer@.wf(),
    {
        FrameBufferWriter {
            framebuffer,
            width,
            height,
            cursor_x: 0,
            cursor_y: 0,
            color: DEFAULT_ATTRIBUTE,
        }
    }

    /// Stores `c` and the current attribute in the cell under the cursor, if
    /// the frame has that cell.
    fn store(&mut self, c: u8)
        ensures
            final(self)@ == old(self)@.store(c),
            final(self)@.cells.len() == old(self)@.cells.len(),
    {
        proof {
            use_type_invariant(&*self);
            assert(self.width * self.height * CELL_BYTES == self.framebuffer.len());
        }
        if self.cursor_y >= self.height {
            assert(self.cursor_y * self.width >= self.height * self.width) by (nonlinear_arith)
                requires
                    self.cursor_y >= self.height,
                    self.width >= 0,
            ;
            assert(self.height * self.width == self.width * self.height) by (nonlinear_arith);
            return ;
        }
        assert(self.cursor_y * self.width + self.width <= self.width * self.height)
            by (nonlinear_arith)
            requires
                self.cursor_y + 1 <= self.height,
                self.width >= 0,
        ;
        assert(0 <= self.cursor_y * self.width) by (nonlinear_arith);
        assert(self.width * self.height <= self.width * self.height * CELL_BYTES)
            by (nonlinear_arith)
            requires
                0 <= self.width * self.height,
        ;
        let row_start: usize = self.cursor_y * self.width;
        let cells: usize = self.width * self.height;
        if self.cursor_x >= cells - row_start {
            return ;
        }
        let position: usize = row_start + self.cursor_x;
        let color: u8 = self.color;
        self.framebuffer[position * CELL_BYTES] = c;
        self.framebuffer[position * CELL_BYTES + 1] = color;
    }

    /// Moves every row up by one and blanks the last row.
    fn scroll_up(&mut self)
        ensures
            final(self)@ == old(self)@.scroll_up(),
            final(self)@.cells.len() == old(self)@.cells.len(),
    {
        proof {
            use_type_invariant(&*self);
            assert(self.width * self.height * CELL_BYTES == self.framebuffer.len());
            assert(self.width * CELL_BYTES <= self.width * self.height * CELL_BYTES)
                by (nonlinear_arith)
                requires
                    1 <= self.height,
                    0 <= self.width,
            ;
        }
        let row_bytes: usize = self.width * CELL_BYTES;
        shift_up(&mut self.framebuffer, row_bytes);
    }

    /// Writes `c` at the cursor with the current attribute and moves the
    /// cursor one cell on. At the end of a row the cursor goes to the start
    /// of the next; below the last row the grid scrolls up by one row and the
    /// cursor goes to the last row. A cursor outside the grid stores nothing.
    pub fn write_char(&mut self, c: u8)
        requires
            old(self)@.has_room(1),
        ensures
            final(self)@ == old(self)@.write_char(c),
            final(self)@.wf(),
            final(self)@.cells.len() == old(self)@.cells.len(),
            final(self)@.cursor_y < final(self)@.height,
            final(self)@.cursor_x <= old(self)@.cursor_x + 1,
            final(self)@.cursor_y <= old(self)@.cursor_y + 1,
    {
        self.store(c);
        proof {
            use_type_invariant(&*self);
        }
        let next_x: usize = self.cursor_x + 1;
        if next_x >= self.width {
            self.cursor_x = 0;
            self.cursor_y = self.cursor_y + 1;
        } else {
            self.cursor_x = next_x;
        }
        if self.cursor_y >= self.height {
            self.scroll_up();
            proof {
                use_type_invariant(&*self);
            }
            self.cursor_y = self.height - 1;
        }
    }

    /// Blanks every cell. The cursor and the attribute stay.
    pub fn clear_screen(&mut self)
        ensures
            final(self)@ == old(self)@.clear_screen(),
            final(self)@.wf(),
    {
        proof {
            use_type_invariant(&*self);
        }
        zero_from(&mut self.framebuffer, 0);
        assert(self.framebuffer@ =~= Seq::new(old(self)@.cells.len(), |i: int| 0u8));
    }

    /// Selects the attribute that characters are written with from now on.
    pub fn set_color(&mut self, color: u8)
        ensures
            final(self)@ == old(self)@.set_color(color),
            final(self)@.wf(),
    {
        proof {
            use_type_invariant(&*self);
        }
        self.color = color;
    }

    /// Writes `text`, interpreting line feeds, tabs and palette directives.
    pub fn write_str(&mut self, text: &[u8])
        requires
            old(self)@.has_room(text@.len() as int),
        ensures
            final(self)@ == old(self)@.write_str(text@),
            final(self)@.wf(),
            final(self)@.cells.len() == old(self)@.cells.len(),
    {
        proof {
            use_type_invariant(&*self);
        }
        let len: usize = text.len();
        let mut i: usize = 0;
        while i < len
            invariant
                i <= len,
                len == text@.len(),
                self@.wf(),
                self@.cells.len() == old(self)@.cells.len(),
                self@.has_room(len - i),
                old(self)@.write_str(text@) == self@.write_from(text@, i as int),
            decreases len - i,
        {
            proof {
                use_type_invariant(&*self);
            }
            let byte: u8 = text[i];
            if byte == LINE_FEED {
                self.cursor_x = 0;
                self.cursor_y = self.cursor_y + 1;
            } else if byte == TAB {
                self.cursor_x = (self.cursor_x + TAB_STOP) / TAB_STOP * TAB_STOP;
            } else if byte == ESC {
                if len - i > 2 && text[i + 1] == DIRECTIVE_COLOR {
                    let color: u8 = select_attribute(text[i + 2], self.color);
                    self.set_color(color);
                    i = i + 2;
                }
            } else {
                self.write_char(byte);
            }
            i = i + 1;
        }
    }

    /// Decides whether the cursor can take `steps` more bytes of text.
    pub fn has_room(&self, steps: usize) -> (ok: bool)
        ensures
            ok == self@.has_room(steps as int),
    {
        let right: Option<usize> = match TAB_STOP.checked_mul(steps) {
            Some(columns) => self.cursor_x.checked_add(columns),
            None => None,
        };
        let down: Option<usize> = self.cursor_y.checked_add(steps);
        right.is_some() && down.is_some()
    }

    /// Cells per row.
    pub fn width(&self) -> (width: usize)
        ensures
            width == self@.width,
    {
        self.width
    }

    /// Rows of the grid.
    pub fn height(&self) -> (height: usize)
        ensures
            height == self@.height,
    {
        self.height
    }

    /// Column and row of the cursor.
    pub fn cursor(&self) -> (at: (usize, usize))
        ensures
            at.0 == self@.cursor_x,
            at.1 == self@.cursor_y,
    {
        (self.cursor_x, self.cursor_y)
    }

    /// The attribute that characters are written with.
    pub fn color(&self) -> (color: u8)
        ensures
            color == self@.color,
    {
        self.color
    }

    /// The bytes of the grid.
    pub fn buffer(&self) -> (bytes: &Vec<u8>)
        ensures
            bytes@ == self@.cells,
    {
        &self.framebuffer
    }
}

} // verus!
