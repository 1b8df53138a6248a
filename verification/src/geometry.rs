//! Device geometry and the layout constants of the console.

use vstd::prelude::*;

verus! {

/// Blank pixel rows between two text lines.
pub const LINE_SPACING: usize = 2;

/// Blank pixel columns between two glyphs.
pub const LETTER_SPACING: usize = 0;

/// Distance of the first cursor position from the top and left edges.
pub const BORDER_PADDING: usize = 1;

/// Pixel rows of every glyph of the console font.
pub const CHAR_RASTER_HEIGHT: usize = 16;

/// Pixel columns of every glyph of the console font.
pub const CHAR_RASTER_WIDTH: usize = 9;

/// Pixel rows by which the cursor moves from one text line to the next.
pub const LINE_HEIGHT: usize = CHAR_RASTER_HEIGHT + LINE_SPACING;

/// Cells by which a tab moves the cursor.
pub const TAB_WIDTH: usize = 4;

/// How the colour channels of a pixel are encoded by the device.
#[derive(Clone, Copy, Debug, PartialEq, Eq)]
pub enum PixelFormat {
    Rgb,
    Bgr,
    U8,
    Unknown { red_position: u8, green_position: u8, blue_position: u8 },
}

/// Immutable description of a frame buffer.
#[derive(Clone, Copy, Debug, PartialEq, Eq)]
pub struct FrameBufferInfo {
    /// Visible pixels per row.
    pub width: usize,
    /// Visible pixel rows.
    pub height: usize,
    /// Pixels from the start of one row to the start of the next.
    pub stride: usize,
    /// Bytes that encode one pixel.
    pub bytes_per_pixel: usize,
    /// Channel order of the device; carried along, never interpreted.
    pub pixel_format: PixelFormat,
}

impl FrameBufferInfo {
    /// Bytes from the start of one pixel row to the start of the next.
    pub open spec fn stride_bytes(self) -> int {
        self.stride * self.bytes_per_pixel
    }

    /// Bytes of the whole frame.
    pub open spec fn byte_len(self) -> int {
        self.stride * self.height * self.bytes_per_pixel
    }

    /// Bytes of one text line: `LINE_HEIGHT` pixel rows.
    pub open spec fn line_bytes(self) -> int {
        LINE_HEIGHT * self.stride_bytes()
    }

    /// The geometry offers a cursor column inside the border, rows no longer
    /// than the stride, and room for one text line below the border.
    pub open spec fn valid(self) -> bool {
        &&& BORDER_PADDING < self.width
        &&& self.width <= self.stride
        &&& BORDER_PADDING + LINE_HEIGHT <= self.height
    }

    /// The geometry is valid and describes a region of exactly `len` bytes.
    pub open spec fn describes(self, len: int) -> bool {
        self.valid() && self.byte_len() == len
    }

    /// Decides whether this geometry is valid for a region of `len` bytes.
    pub fn fits(&self, len: usize) -> (ok: bool)
        ensures
            ok == self.describes(len as int),
    {
        if self.width <= BORDER_PADDING || self.width > self.stride {
            return false;
        }
        if self.height < BORDER_PADDING + LINE_HEIGHT {
            return false;
        }
        let stride: usize = self.stride;
        let height: usize = self.height;
        let bpp: usize = self.bytes_per_pixel;
        if bpp == 0 {
            assert(stride * height * 0 == 0) by (nonlinear_arith);
            return len == 0;
        }
        match stride.checked_mul(height) {
            None => {
                assert(stride * height * bpp >= stride * height) by (nonlinear_arith)
                    requires
                        bpp >= 1,
                ;
                false
            },
            Some(pixels) => match pixels.checked_mul(bpp) {
                None => false,
                Some(bytes) => bytes == len,
            },
        }
    }
}

/// `rows` is a whole number of text lines.
pub open spec fn whole_lines(rows: int) -> bool {
    rows % (LINE_HEIGHT as int) == 0
}

/// Whole numbers of text lines: zero is one, they are closed under steps of
/// one line, and the least positive one is one line.
pub proof fn lemma_whole_lines(rows: int)
    ensures
        whole_lines(0),
        whole_lines(rows) ==> whole_lines(rows + LINE_HEIGHT),
        whole_lines(rows) ==> whole_lines(rows - LINE_HEIGHT),
        whole_lines(rows) && rows > 0 ==> rows >= LINE_HEIGHT,
{
    assert(LINE_HEIGHT == 18);
    if rows % 18 == 0 {
        assert((rows + 18) % 18 == 0);
        assert((rows - 18) % 18 == 0);
    }
}

/// The frame is `height` rows of `stride_bytes` bytes, and a valid geometry
/// holds at least one text line.
pub proof fn lemma_frame_bytes(info: FrameBufferInfo)
    ensures
        info.height * info.stride_bytes() == info.byte_len(),
        0 <= info.stride_bytes(),
        0 <= info.byte_len(),
        info.valid() ==> info.stride_bytes() <= info.byte_len(),
        info.valid() ==> 0 <= info.line_bytes() <= info.byte_len(),
{
    let s = info.stride as int;
    let h = info.height as int;
    let b = info.bytes_per_pixel as int;
    assert(h * (s * b) == s * h * b) by (nonlinear_arith);
    assert(0 <= s * b) by (nonlinear_arith)
        requires
            0 <= s,
            0 <= b,
    ;
    assert(0 <= s * h * b) by (nonlinear_arith)
        requires
            0 <= s,
            0 <= h,
            0 <= b,
    ;
    if info.valid() {
        assert(LINE_HEIGHT * (s * b) <= h * (s * b)) by (nonlinear_arith)
            requires
                LINE_HEIGHT <= h,
                0 <= s * b,
        ;
        assert(s * b <= h * (s * b)) by (nonlinear_arith)
            requires
                1 <= h,
                0 <= s * b,
        ;
    }
}

/// A pixel inside the visible area lies inside the frame: its index is below
/// the number of pixels, and its bytes end at or before the end of the frame.
pub proof fn lemma_pixel_in_frame(info: FrameBufferInfo, x: int, y: int)
    requires
        info.width <= info.stride,
        0 <= x < info.width,
        0 <= y < info.height,
    ensures
        0 <= y * info.stride + x < info.stride * info.height,
        0 <= (y * info.stride + x) * info.bytes_per_pixel,
        (y * info.stride + x) * info.bytes_per_pixel + info.bytes_per_pixel <= info.byte_len(),
{
    let s = info.stride as int;
    let h = info.height as int;
    let b = info.bytes_per_pixel as int;
    assert(0 <= y * s) by (nonlinear_arith)
        requires
            0 <= y,
            0 <= s,
    ;
    assert(y * s + s <= s * h) by (nonlinear_arith)
        requires
            0 <= y,
            y + 1 <= h,
            0 <= s,
    ;
    let p = y * s + x;
    assert(0 <= p * b) by (nonlinear_arith)
        requires
            0 <= p,
            0 <= b,
    ;
    assert(p * b + b <= (s * h) * b) by (nonlinear_arith)
        requires
            p + 1 <= s * h,
            0 <= b,
    ;
}

} // verus!
