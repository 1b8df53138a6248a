//! The mathematical state of the console and what each operation does to it.
//!
//! The executable writer is specified against these functions: each of its
//! operations ends in the state that the function of the same name gives.

use crate::escape::{parse, Directive, ParserState};
use crate::font::glyph_for;
use crate::geometry::{
    whole_lines, FrameBufferInfo, BORDER_PADDING, CHAR_RASTER_HEIGHT, CHAR_RASTER_WIDTH,
    LETTER_SPACING, LINE_HEIGHT,
};
use crate::pixel::{spec_default_color, spec_highlight_color, with_pixel, Color};
use crate::scroll::{moved_to_front, shifted_up};
use vstd::prelude::*;

verus! {

/// The console as a value: the frame, its geometry, the cursor, the view
/// offset, the drawing colour, and how often the frame has scrolled forward.
pub struct ConsoleModel {
    /// The bytes of the frame, row after row.
    pub buffer: Seq<u8>,
    /// The geometry of the frame.
    pub info: FrameBufferInfo,
    /// Pixel column of the cursor: the left edge of the next glyph.
    pub x_pos: int,
    /// Pixel row of the cursor: the top edge of the next glyph.
    pub y_pos: int,
    /// Pixel rows by which the view is moved back.
    pub scroll_offset: int,
    /// The colour that glyphs are drawn in.
    pub color: Color,
    /// Forward scrolls since the console was made.
    pub scrolls: nat,
}

/// A frame of `len` bytes, all zero.
pub open spec fn blank(len: nat) -> Seq<u8> {
    Seq::new(len, |i: int| 0u8)
}

impl ConsoleModel {
    /// The state is well formed: the geometry describes the frame, the cursor
    /// lies inside the border on a text line, and the view offset is a whole
    /// number of text lines.
    pub open spec fn wf(self) -> bool {
        &&& self.info.describes(self.buffer.len() as int)
        &&& BORDER_PADDING <= self.x_pos < self.info.width
        &&& BORDER_PADDING <= self.y_pos < self.info.height
        &&& whole_lines(self.y_pos - BORDER_PADDING)
        &&& 0 <= self.scroll_offset
        &&& whole_lines(self.scroll_offset)
    }

    /// The console as it is made: a blank frame, the cursor in the top left
    /// corner inside the border, the default colour.
    pub open spec fn initial(len: nat, info: FrameBufferInfo) -> ConsoleModel {
        ConsoleModel {
            buffer: blank(len),
            info,
            x_pos: BORDER_PADDING as int,
            y_pos: BORDER_PADDING as int,
            scroll_offset: 0,
            color: spec_default_color(),
            scrolls: 0,
        }
    }

    /// Blanks the frame and puts the cursor and the view back to the start.
    /// The colour stays.
    pub open spec fn clear(self) -> ConsoleModel {
        ConsoleModel {
            buffer: blank(self.buffer.len()),
            x_pos: BORDER_PADDING as int,
            y_pos: BORDER_PADDING as int,
            scroll_offset: 0,
            ..self
        }
    }

    /// The same console drawing in `color`.
    pub open spec fn with_color(self, color: Color) -> ConsoleModel {
        ConsoleModel { color, ..self }
    }

    /// The pixel `(x, y)` is visible.
    pub open spec fn in_bounds(self, x: int, y: int) -> bool {
        0 <= x < self.info.width && 0 <= y < self.info.height
    }

    /// Index of the first byte of the pixel `(x, y)`.
    pub open spec fn byte_offset(self, x: int, y: int) -> int {
        (y * self.info.stride + x) * self.info.bytes_per_pixel
    }

    /// Byte `k` of the pixel `(x, y)`.
    pub open spec fn channel_at(self, x: int, y: int, k: int) -> u8 {
        self.buffer[self.byte_offset(x, y) + k]
    }

    /// Draws the pixel `(x, y)` in the current colour at `intensity`. A pixel
    /// outside the visible area is clipped: nothing changes.
    pub open spec fn write_pixel(self, x: int, y: int, intensity: u8) -> ConsoleModel {
        if self.in_bounds(x, y) {
            ConsoleModel {
                buffer: with_pixel(
                    self.buffer,
                    self.byte_offset(x, y),
                    self.info.bytes_per_pixel as int,
                    self.color,
                    intensity,
                ),
                ..self
            }
        } else {
            self
        }
    }

    /// Draws the first `n` pixels of the glyph row `row`, from `(x, y)` to
    /// the right.
    pub open spec fn draw_row(self, row: Seq<u8>, x: int, y: int, n: nat) -> ConsoleModel
        decreases n,
    {
        if n == 0 {
            self
        } else {
            self.draw_row(row, x, y, (n - 1) as nat).write_pixel(x + n - 1, y, row[n - 1])
        }
    }

    /// Draws the first `n` rows of `glyph` with its top left corner at
    /// `(x, y)`.
    pub open spec fn draw_rows(self, glyph: Seq<Seq<u8>>, x: int, y: int, n: nat) -> ConsoleModel
        decreases n,
    {
        if n == 0 {
            self
        } else {
            self.draw_rows(glyph, x, y, (n - 1) as nat).draw_row(
                glyph[n - 1],
                x,
                y + n - 1,
                glyph[n - 1].len(),
            )
        }
    }

    /// Draws `glyph` with its top left corner at the cursor. The cursor stays.
    pub open spec fn draw_glyph(self, glyph: Seq<Seq<u8>>) -> ConsoleModel {
        self.draw_rows(glyph, self.x_pos, self.y_pos, glyph.len())
    }

    /// Puts the cursor back to the first column.
    pub open spec fn carriage_return(self) -> ConsoleModel {
        ConsoleModel { x_pos: BORDER_PADDING as int, ..self }
    }

    /// Moves the frame up by one text line, blanks the line that this
    /// exposes at the bottom, and moves the cursor up with the text.
    pub open spec fn scroll_forward(self) -> ConsoleModel {
        ConsoleModel {
            buffer: shifted_up(self.buffer, self.info.line_bytes()),
            y_pos: self.y_pos - LINE_HEIGHT,
            scrolls: self.scrolls + 1,
            ..self
        }
    }

    /// A forward scroll is due after the cursor has moved down one line.
    pub open spec fn newline_scrolls(self) -> bool {
        self.y_pos + LINE_HEIGHT >= self.info.height
    }

    /// Moves the cursor to the start of the next text line, and scrolls
    /// forward if that line lies below the frame.
    pub open spec fn newline(self) -> ConsoleModel {
        let moved = ConsoleModel {
            x_pos: BORDER_PADDING as int,
            y_pos: self.y_pos + LINE_HEIGHT,
            ..self
        };
        if self.newline_scrolls() {
            moved.scroll_forward()
        } else {
            moved
        }
    }

    /// Draws `glyph` as the next character. Starts a new line first if the
    /// cell would reach the right edge, scrolls forward first if it would
    /// reach the bottom edge, draws, moves the cursor one cell to the right,
    /// and starts a new line if the next cell would reach the right edge.
    pub open spec fn put_glyph(self, glyph: Seq<Seq<u8>>) -> ConsoleModel {
        let wrapped = if self.x_pos + CHAR_RASTER_WIDTH >= self.info.width {
            self.newline()
        } else {
            self
        };
        let raised = if wrapped.y_pos + CHAR_RASTER_HEIGHT + BORDER_PADDING
            >= wrapped.info.height {
            wrapped.scroll_forward()
        } else {
            wrapped
        };
        let drawn = raised.draw_glyph(glyph);
        let advanced = ConsoleModel {
            x_pos: drawn.x_pos + CHAR_RASTER_WIDTH + LETTER_SPACING,
            ..drawn
        };
        if advanced.x_pos + CHAR_RASTER_WIDTH >= advanced.info.width {
            advanced.newline()
        } else {
            advanced
        }
    }

    /// Draws the glyph of `c`, or the backup glyph where the font lacks `c`.
    pub open spec fn write_printable(self, c: char) -> ConsoleModel {
        self.put_glyph(glyph_for(c))
    }

    /// Moves the cursor four cells on, as four spaces would.
    pub open spec fn indent_tab(self) -> ConsoleModel {
        self.write_printable(' ').write_printable(' ').write_printable(' ').write_printable(' ')
    }

    /// Writes one character: a line feed starts a new line, a carriage return
    /// goes back to the first column, a tab indents, anything else is drawn.
    pub open spec fn write_char(self, c: char) -> ConsoleModel {
        if c == '\n' {
            self.newline()
        } else if c == '\r' {
            self.carriage_return()
        } else if c == '\t' {
            self.indent_tab()
        } else {
            self.write_printable(c)
        }
    }

    /// Writes the characters of `text` one after the other, with no escape
    /// syntax.
    pub open spec fn write_str(self, text: Seq<char>) -> ConsoleModel
        decreases text.len(),
    {
        if text.len() == 0 {
            self
        } else {
            self.write_char(text[0]).write_str(text.drop_first())
        }
    }

    /// Carries out one directive of the escape parser.
    pub open spec fn apply(self, directive: Directive) -> ConsoleModel {
        match directive {
            Directive::Pending => self,
            Directive::Highlight => self.with_color(spec_highlight_color()),
            Directive::Reset => self.with_color(spec_default_color()),
            Directive::Newline => self.newline(),
            Directive::Tab => self.indent_tab(),
            Directive::Render(c) => self.write_char(c),
        }
    }

    /// Prints `text` with the parser starting in `state`.
    pub open spec fn print_from(self, state: ParserState, text: Seq<char>) -> ConsoleModel
        decreases text.len(),
    {
        if text.len() == 0 {
            self
        } else {
            let (next, directive) = parse(state, text[0]);
            self.apply(directive).print_from(next, text.drop_first())
        }
    }

    /// Prints `text`, interpreting its escape syntax. A directive left open
    /// at the end of the text is dropped.
    pub open spec fn print(self, text: Seq<char>) -> ConsoleModel {
        self.print_from(ParserState::Normal, text)
    }

    /// Copies the frame-sized window that starts `scroll_offset` rows into
    /// the buffer to the front, if the buffer holds such a window.
    pub open spec fn redraw(self) -> ConsoleModel {
        let start = self.scroll_offset * self.info.stride_bytes();
        let frame = self.info.height * self.info.stride_bytes();
        if start + frame <= self.buffer.len() {
            ConsoleModel { buffer: moved_to_front(self.buffer, start, frame), ..self }
        } else {
            self
        }
    }

    /// Moves the view back up by one text line, if it was moved at all.
    pub open spec fn scroll_up(self) -> ConsoleModel {
        if self.scroll_offset >= LINE_HEIGHT {
            ConsoleModel { scroll_offset: self.scroll_offset - LINE_HEIGHT, ..self }.redraw()
        } else {
            self
        }
    }

    /// Moves the view down by one text line, if rows lie below it.
    pub open spec fn scroll_down(self) -> ConsoleModel {
        if self.scroll_offset + self.info.height < self.info.height {
            ConsoleModel { scroll_offset: self.scroll_offset + LINE_HEIGHT, ..self }.redraw()
        } else {
            self
        }
    }
}

} // verus!
