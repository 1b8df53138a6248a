//! The console writer: the one owner of the frame and the only way to draw
//! text into it.

use crate::escape::{parse_step, Directive, ParserState};
use crate::font::{backup_available, get_char_raster, has_glyph, Glyph, BACKUP_CHAR};
use crate::geometry::{
    lemma_frame_bytes, lemma_pixel_in_frame, lemma_whole_lines, FrameBufferInfo, BORDER_PADDING,
    CHAR_RASTER_HEIGHT, CHAR_RASTER_WIDTH, LETTER_SPACING, LINE_HEIGHT,
};
use crate::laws::{
    lemma_draw_row_keeps_state, lemma_draw_rows_keeps_state, lemma_newline, lemma_put_glyph,
    lemma_scroll_forward, lemma_write_pixel_keeps_state, only_pixels_differ,
};
use crate::model::{blank, ConsoleModel};
use crate::pixel::{default_color, highlight_color, store_pixel, Color};
use crate::scroll::{move_to_front, shift_up, zero_from};
use vstd::prelude::*;

verus! {

/// A text console on a frame of pixels.
///
/// The writer owns the frame. Every value of this type is well formed: its
/// geometry describes its frame, its cursor lies inside the border on a text
/// line, and the font has the backup glyph.
pub struct FrameBufferWriter {
    framebuffer: Vec<u8>,
    info: FrameBufferInfo,
    x_pos: usize,
    y_pos: usize,
    scroll_offset: usize,
    current_color: Color,
    scrolls: Ghost<nat>,
}

impl View for FrameBufferWriter {
    type V = ConsoleModel;

    closed spec fn view(&self) -> ConsoleModel {
        ConsoleModel {
            buffer: self.framebuffer@,
            info: self.info,
            x_pos: self.x_pos as int,
            y_pos: self.y_pos as int,
            scroll_offset: self.scroll_offset as int,
            color: self.current_color,
            scrolls: self.scrolls@,
        }
    }
}

impl FrameBufferWriter {
    #[verifier::type_invariant]
    spec fn inv(self) -> bool {
        self@.wf() && has_glyph(BACKUP_CHAR)
    }

    /// Makes a console on `framebuffer` and clears it.
    ///
    /// The geometry has to describe the frame, and the font has to hold the
    /// backup glyph: a console cannot be made on anything else.
    pub fn new(framebuffer: Vec<u8>, info: FrameBufferInfo) -> (writer: FrameBufferWriter)
        requires
            info.describes(framebuffer.len() as int),
            has_glyph(BACKUP_CHAR),
        ensures
            writer@ == ConsoleModel::initial(framebuffer@.len(), info),
            writer@.wf(),
    {
        proof {
            lemma_whole_lines(0);
        }
        let mut writer = FrameBufferWriter {
            framebuffer,
            info,
            x_pos: BORDER_PADDING,
            y_pos: BORDER_PADDING,
            scroll_offset: 0,
            current_color: default_color(),
            scrolls: Ghost(0),
        };
        writer.clear();
        writer
    }

    /// Makes a console on `framebuffer` if the geometry describes the frame
    /// and the font holds the backup glyph; `None` otherwise.
    pub fn try_new(framebuffer: Vec<u8>, info: FrameBufferInfo) -> (made: Option<
        FrameBufferWriter,
    >)
        ensures
            made is Some <==> info.describes(framebuffer.len() as int) && has_glyph(BACKUP_CHAR),
            made matches Some(writer) ==> writer@ == ConsoleModel::initial(
                framebuffer@.len(),
                info,
            ) && writer@.wf(),
    {
        if info.fits(framebuffer.len()) && backup_available() {
            Some(FrameBufferWriter::new(framebuffer, info))
        } else {
            None
        }
    }

    /// Blanks the frame and puts the cursor and the view back to the start.
    pub fn clear(&mut self)
        ensures
            final(self)@ == old(self)@.clear(),
            final(self)@.wf(),
            final(self)@.x_pos == BORDER_PADDING,
            final(self)@.y_pos == BORDER_PADDING,
            final(self)@.buffer == blank(old(self)@.buffer.len()),
    {
        proof {
            use_type_invariant(&*self);
            lemma_whole_lines(0);
        }
        self.x_pos = BORDER_PADDING;
        self.y_pos = BORDER_PADDING;
        self.scroll_offset = 0;
        zero_from(&mut self.framebuffer, 0);
        assert(self.framebuffer@ =~= blank(old(self)@.buffer.len()));
    }

    /// Draws the pixel `(x, y)` in the current colour at `intensity`.
    ///
    /// A pixel outside the visible area is clipped and nothing changes. A
    /// pixel inside gets `color[k] * intensity / 255` in byte `k` for each of
    /// the three channels that fits into a pixel, and zero in any byte beyond
    /// them; no other byte of the frame changes.
    pub fn write_pixel(&mut self, x: usize, y: usize, intensity: u8)
        ensures
            final(self)@ == old(self)@.write_pixel(x as int, y as int, intensity),
            final(self)@.wf(),
            x >= old(self)@.info.width || y >= old(self)@.info.height ==> final(self)@ == old(
                self,
            )@,
    {
        proof {
            use_type_invariant(&*self);
            lemma_write_pixel_keeps_state(self@, x as int, y as int, intensity);
        }
        if x >= self.info.width || y >= self.info.height {
            return ;
        }
        let bytes_per_pixel: usize = self.info.bytes_per_pixel;
        if bytes_per_pixel == 0 {
            assert(old(self)@.write_pixel(x as int, y as int, intensity).buffer
                =~= self.framebuffer@);
            return ;
        }
        proof {
            lemma_pixel_in_frame(self.info, x as int, y as int);
            let pixels = self.info.stride * self.info.height;
            let bpp = bytes_per_pixel as int;
            assert(pixels <= pixels * bpp) by (nonlinear_arith)
                requires
                    0 <= pixels,
                    1 <= bpp,
            ;
            let index = y * self.info.stride + x;
            assert(index * bpp <= pixels * bpp) by (nonlinear_arith)
                requires
                    0 <= index < pixels,
                    1 <= bpp,
            ;
            assert(0 <= y * self.info.stride) by (nonlinear_arith);
            assert(pixels * bpp == self.framebuffer.len());
        }
        let pixel_offset: usize = y * self.info.stride + x;
        let byte_offset: usize = pixel_offset * bytes_per_pixel;
        store_pixel(
            &mut self.framebuffer,
            byte_offset,
            bytes_per_pixel,
            &self.current_color,
            intensity,
        );
    }
    /// Puts the cursor back to the first column of its line.
    pub fn carriage_return(&mut self)
        ensures
            final(self)@ == old(self)@.carriage_return(),
            final(self)@.wf(),
    {
        proof {
            use_type_invariant(&*self);
        }
        self.x_pos = BORDER_PADDING;
    }

    /// Bytes of one text line of the frame.
    fn line_bytes(&self) -> (bytes: usize)
        ensures
            bytes == self@.info.line_bytes(),
            bytes <= self@.buffer.len(),
    {
        proof {
            use_type_invariant(&*self);
            lemma_frame_bytes(self.info);
            assert(self.info.byte_len() == self.framebuffer.len());
        }
        let stride_bytes: usize = self.info.stride * self.info.bytes_per_pixel;
        LINE_HEIGHT * stride_bytes
    }

    /// Scrolls forward by one text line: moves the frame up by the bytes of
    /// one line, blanks the line that this exposes at the bottom, and moves
    /// the cursor up by one line. The cursor has to stand below the first
    /// text line. The frame keeps its size.
    pub fn scroll(&mut self)
        requires
            old(self)@.y_pos >= BORDER_PADDING + LINE_HEIGHT,
        ensures
            final(self)@ == old(self)@.scroll_forward(),
            final(self)@.wf(),
            final(self)@.buffer.len() == old(self)@.buffer.len(),
    {
        proof {
            use_type_invariant(&*self);
            lemma_scroll_forward(self@);
        }
        let shift: usize = self.line_bytes();
        shift_up(&mut self.framebuffer, shift);
        self.y_pos = self.y_pos - LINE_HEIGHT;
        self.scrolls = Ghost((self.scrolls@ + 1) as nat);
    }

    /// Moves the cursor to the start of the next text line. If that line
    /// would start at or below the bottom edge, the frame scrolls forward by
    /// one line instead and the cursor keeps its row.
    pub fn newline(&mut self)
        ensures
            final(self)@ == old(self)@.newline(),
            final(self)@.wf(),
            final(self)@.buffer.len() == old(self)@.buffer.len(),
    {
        proof {
            use_type_invariant(&*self);
            lemma_newline(self@);
        }
        if self.info.height - self.y_pos <= LINE_HEIGHT {
            let shift: usize = self.line_bytes();
            shift_up(&mut self.framebuffer, shift);
            self.scrolls = Ghost((self.scrolls@ + 1) as nat);
        } else {
            self.y_pos = self.y_pos + LINE_HEIGHT;
        }
        self.x_pos = BORDER_PADDING;
    }

    /// Draws `glyph` with its top left corner at the cursor, pixel by pixel
    /// in the current colour. Pixels outside the visible area are clipped.
    /// The cursor stays where it is.
    pub fn write_rendered_char(&mut self, glyph: &Glyph)
        ensures
            final(self)@ == old(self)@.draw_glyph(glyph@),
            final(self)@.wf(),
            only_pixels_differ(old(self)@, final(self)@),
    {
        proof {
            use_type_invariant(&*self);
        }
        let left: usize = self.x_pos;
        let top: usize = self.y_pos;
        let columns_left: usize = self.info.width - left;
        let rows_left: usize = self.info.height - top;
        let rows: usize = glyph.rows.len();
        let mut gy: usize = 0;
        while gy < rows
            invariant
                gy <= rows,
                rows == glyph.rows@.len(),
                old(self)@.wf(),
                left == old(self)@.x_pos,
                top == old(self)@.y_pos,
                columns_left == old(self)@.info.width - left,
                rows_left == old(self)@.info.height - top,
                self@ == old(self)@.draw_rows(glyph@, left as int, top as int, gy as nat),
            decreases rows - gy,
        {
            let row: &Vec<u8> = &glyph.rows[gy];
            let columns: usize = row.len();
            let ghost before_row = self@;
            proof {
                lemma_draw_rows_keeps_state(
                    old(self)@,
                    glyph@,
                    left as int,
                    top as int,
                    gy as nat,
                );
            }
            let mut gx: usize = 0;
            while gx < columns
                invariant
                    gx <= columns,
                    columns == row@.len(),
                    row@ == glyph@[gy as int],
                    gy < rows,
                    before_row.wf(),
                    only_pixels_differ(old(self)@, before_row),
                    left == old(self)@.x_pos,
                    top == old(self)@.y_pos,
                    columns_left == old(self)@.info.width - left,
                    rows_left == old(self)@.info.height - top,
                    self@ == before_row.draw_row(row@, left as int, top + gy, gx as nat),
                decreases columns - gx,
            {
                proof {
                    lemma_draw_row_keeps_state(
                        before_row,
                        row@,
                        left as int,
                        top + gy,
                        gx as nat,
                    );
                }
                if gx < columns_left && gy < rows_left {
                    self.write_pixel(left + gx, top + gy, row[gx]);
                }
                gx = gx + 1;
            }
            gy = gy + 1;
        }
        proof {
            lemma_draw_rows_keeps_state(old(self)@, glyph@, left as int, top as int, rows as nat);
        }
    }

    /// Draws `glyph` as the next character of the text.
    ///
    /// If the cell would reach the right edge, a new line is started first;
    /// if it would reach the bottom edge, the frame scrolls forward first.
    /// The glyph is drawn at the cursor, the cursor moves one cell to the
    /// right, and a new line is started if the next cell would reach the
    /// right edge.
    pub fn write_glyph(&mut self, glyph: &Glyph)
        ensures
            final(self)@ == old(self)@.put_glyph(glyph@),
            final(self)@.wf(),
            final(self)@.buffer.len() == old(self)@.buffer.len(),
    {
        proof {
            use_type_invariant(&*self);
            lemma_put_glyph(self@, glyph@);
        }
        if self.info.width - self.x_pos <= CHAR_RASTER_WIDTH {
            self.newline();
        }
        proof {
            use_type_invariant(&*self);
            lemma_whole_lines(self.y_pos - BORDER_PADDING);
        }
        if self.info.height - self.y_pos <= CHAR_RASTER_HEIGHT + BORDER_PADDING {
            self.scroll();
        }
        self.write_rendered_char(glyph);
        proof {
            use_type_invariant(&*self);
        }
        if self.info.width - self.x_pos <= CHAR_RASTER_WIDTH + LETTER_SPACING + CHAR_RASTER_WIDTH {
            self.newline();
        } else {
            self.x_pos = self.x_pos + (CHAR_RASTER_WIDTH + LETTER_SPACING);
        }
    }

    /// Draws the glyph of `c`, or the backup glyph where the font lacks `c`.
    pub fn write_printable(&mut self, c: char)
        ensures
            final(self)@ == old(self)@.write_printable(c),
            final(self)@.wf(),
            final(self)@.buffer.len() == old(self)@.buffer.len(),
    {
        proof {
            use_type_invariant(&*self);
        }
        let glyph = get_char_raster(c);
        self.write_glyph(&glyph);
    }

    /// Moves the cursor four cells on by drawing four spaces, which wrap and
    /// scroll as any character does.
    pub fn indent_tab(&mut self)
        ensures
            final(self)@ == old(self)@.indent_tab(),
            final(self)@.wf(),
            final(self)@.buffer.len() == old(self)@.buffer.len(),
    {
        self.write_printable(' ');
        self.write_printable(' ');
        self.write_printable(' ');
        self.write_printable(' ');
    }

    /// Writes one character: a line feed starts a new line, a carriage return
    /// goes back to the first column, a tab indents, and any other character
    /// is drawn.
    pub fn write_char(&mut self, c: char)
        ensures
            final(self)@ == old(self)@.write_char(c),
            final(self)@.wf(),
            final(self)@.buffer.len() == old(self)@.buffer.len(),
    {
        if c == '\n' {
            self.newline();
        } else if c == '\r' {
            self.carriage_return();
        } else if c == '\t' {
            self.indent_tab();
        } else {
            self.write_printable(c);
        }
    }

    /// Carries out one directive of the escape parser.
    pub fn apply(&mut self, directive: Directive)
        ensures
            final(self)@ == old(self)@.apply(directive),
            final(self)@.wf(),
            final(self)@.buffer.len() == old(self)@.buffer.len(),
    {
        proof {
            use_type_invariant(&*self);
        }
        match directive {
            Directive::Pending => {},
            Directive::Highlight => {
                self.current_color = highlight_color();
            },
            Directive::Reset => {
                self.current_color = default_color();
            },
            Directive::Newline => {
                self.newline();
            },
            Directive::Tab => {
                self.indent_tab();
            },
            Directive::Render(c) => {
                self.write_char(c);
            },
        }
    }

    /// Prints `text`, interpreting its escape syntax.
    ///
    /// A backslash and the character after it form a directive: `c` selects
    /// the highlight colour, `r` the default colour, and any other character
    /// is dropped while the backslash itself is drawn. A backslash at the end
    /// of the text has no effect. A line feed starts a new line, a tab
    /// indents, and every other character is written as by `write_char`.
    pub fn print(&mut self, text: &str)
        ensures
            final(self)@ == old(self)@.print(text@),
            final(self)@.wf(),
            final(self)@.buffer.len() == old(self)@.buffer.len(),
    {
        proof {
            use_type_invariant(&*self);
        }
        let mut state = ParserState::Normal;
        let ghost mut done: int = 0;
        assert(text@.skip(0) =~= text@);
        for c in it: text.chars()
            invariant
                it.seq() == text@,
                done == it.index(),
                0 <= done <= text@.len(),
                self@.wf(),
                self@.buffer.len() == old(self)@.buffer.len(),
                old(self)@.print(text@) == self@.print_from(state, text@.skip(done)),
        {
            assert(c == text@[done]);
            let ghost rest = text@.skip(done);
            assert(rest.len() > 0 && rest[0] == c);
            assert(rest.drop_first() =~= text@.skip(done + 1));
            let (next, directive) = parse_step(state, c);
            self.apply(directive);
            state = next;
            proof {
                done = done + 1;
            }
        }
        assert(text@.skip(done).len() == 0);
    }

    /// Writes the characters of `text` one after the other, as by
    /// `write_char`, with no escape syntax.
    pub fn write_str(&mut self, text: &str)
        ensures
            final(self)@ == old(self)@.write_str(text@),
            final(self)@.wf(),
            final(self)@.buffer.len() == old(self)@.buffer.len(),
    {
        proof {
            use_type_invariant(&*self);
        }
        let ghost mut done: int = 0;
        assert(text@.skip(0) =~= text@);
        for c in it: text.chars()
            invariant
                it.seq() == text@,
                done == it.index(),
                0 <= done <= text@.len(),
                self@.wf(),
                self@.buffer.len() == old(self)@.buffer.len(),
                old(self)@.write_str(text@) == self@.write_str(text@.skip(done)),
        {
            assert(c == text@[done]);
            let ghost rest = text@.skip(done);
            assert(rest.len() > 0 && rest[0] == c);
            assert(rest.drop_first() =~= text@.skip(done + 1));
            self.write_char(c);
            proof {
                done = done + 1;
            }
        }
        assert(text@.skip(done).len() == 0);
    }

    /// Copies the frame-sized window that starts `scroll_offset` rows into
    /// the buffer to the front of the buffer, if the buffer holds such a
    /// window. The buffer holds the visible frame and nothing else, so the
    /// only such window is the frame itself.
    pub fn redraw(&mut self)
        ensures
            final(self)@ == old(self)@.redraw(),
            final(self)@.wf(),
    {
        proof {
            use_type_invariant(&*self);
            lemma_frame_bytes(self.info);
            assert(self.info.byte_len() == self.framebuffer.len());
        }
        let stride_bytes: usize = self.info.stride * self.info.bytes_per_pixel;
        let frame: usize = self.info.height * stride_bytes;
        match self.scroll_offset.checked_mul(stride_bytes) {
            Some(start) => {
                if start <= self.framebuffer.len() - frame {
                    move_to_front(&mut self.framebuffer, start, frame);
                }
            },
            None => {},
        }
    }

    /// Moves the view back up by one text line and redraws, if the view was
    /// moved down before.
    pub fn scroll_up(&mut self)
        ensures
            final(self)@ == old(self)@.scroll_up(),
            final(self)@.wf(),
    {
        proof {
            use_type_invariant(&*self);
        }
        if self.scroll_offset >= LINE_HEIGHT {
            proof {
                lemma_whole_lines(self.scroll_offset as int);
            }
            self.scroll_offset = self.scroll_offset - LINE_HEIGHT;
            self.redraw();
        }
    }

    /// Moves the view down by one text line and redraws, if rows lie below
    /// the view. The buffer holds no rows below the visible frame, so the
    /// view never moves.
    pub fn scroll_down(&mut self)
        ensures
            final(self)@ == old(self)@.scroll_down(),
            final(self)@ == old(self)@,
            final(self)@.wf(),
    {
        proof {
            use_type_invariant(&*self);
        }
        let visible: usize = self.height();
        if self.scroll_offset < self.info.height - visible {
            self.scroll_offset = self.scroll_offset + LINE_HEIGHT;
            self.redraw();
        }
    }

    /// Visible pixels per row.
    pub fn width(&self) -> (width: usize)
        ensures
            width == self@.info.width,
    {
        self.info.width
    }

    /// Visible pixel rows.
    pub fn height(&self) -> (height: usize)
        ensures
            height == self@.info.height,
    {
        self.info.height
    }

    /// The geometry of the frame.
    pub fn info(&self) -> (info: FrameBufferInfo)
        ensures
            info == self@.info,
    {
        self.info
    }

    /// Pixel column of the cursor.
    pub fn x_pos(&self) -> (x: usize)
        ensures
            x == self@.x_pos,
            BORDER_PADDING <= x < self@.info.width,
    {
        proof {
            use_type_invariant(self);
        }
        self.x_pos
    }

    /// Pixel row of the cursor.
    pub fn y_pos(&self) -> (y: usize)
        ensures
            y == self@.y_pos,
            BORDER_PADDING <= y < self@.info.height,
    {
        proof {
            use_type_invariant(self);
        }
        self.y_pos
    }

    /// Pixel rows by which the view is moved back.
    pub fn scroll_offset(&self) -> (offset: usize)
        ensures
            offset == self@.scroll_offset,
    {
        self.scroll_offset
    }

    /// The colour that glyphs are drawn in.
    pub fn current_color(&self) -> (color: Color)
        ensures
            color == self@.color,
    {
        self.current_color
    }

    /// The bytes of the frame.
    pub fn buffer(&self) -> (bytes: &Vec<u8>)
        ensures
            bytes@ == self@.buffer,
    {
        &self.framebuffer
    }

    /// Gives the frame back and ends the console.
    pub fn into_buffer(self) -> (bytes: Vec<u8>)
        ensures
            bytes@ == self@.buffer,
    {
        self.framebuffer
    }
}

} // verus!
