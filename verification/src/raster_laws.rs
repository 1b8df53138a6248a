//! What drawing and scrolling do to each pixel of the frame.
//!
//! Every byte of a frame is byte `k` of one pixel `(x, y)`, with `x` below
//! the stride, `y` below the height and `k` below the bytes of a pixel. The
//! laws below say, for each such byte, what an operation leaves in it.

use crate::font::is_cell;
use crate::geometry::{
    lemma_frame_bytes, FrameBufferInfo, BORDER_PADDING, CHAR_RASTER_HEIGHT, CHAR_RASTER_WIDTH,
    LETTER_SPACING, LINE_HEIGHT,
};
use crate::laws::{lemma_draw_row_keeps_state, lemma_draw_rows_keeps_state, only_pixels_differ};
use crate::model::ConsoleModel;
use crate::pixel::pixel_byte;
use vstd::prelude::*;

verus! {

/// `(x, y, k)` addresses a byte of the frame: byte `k` of the pixel in
/// column `x`, padding columns included, of row `y`.
pub open spec fn addresses_byte(info: FrameBufferInfo, x: int, y: int, k: int) -> bool {
    &&& 0 <= x < info.stride
    &&& 0 <= y < info.height
    &&& 0 <= k < info.bytes_per_pixel
}

/// The first `rows` rows of the glyph, drawn with the top left corner at
/// `(left, top)`, have a pixel at `(x, y)`.
pub open spec fn rows_cover(
    glyph: Seq<Seq<u8>>,
    rows: int,
    left: int,
    top: int,
    x: int,
    y: int,
) -> bool {
    &&& top <= y < top + rows
    &&& left <= x < left + glyph[y - top].len()
}

/// Distinct bytes have distinct addresses: the index of byte `k` of a pixel
/// lies inside the bytes of the pixel `(qx, qy)` only for that pixel.
pub proof fn lemma_addresses_are_distinct(
    info: FrameBufferInfo,
    x: int,
    y: int,
    k: int,
    qx: int,
    qy: int,
)
    requires
        addresses_byte(info, x, y, k),
        0 <= qx < info.stride,
        0 <= qy,
    ensures
        ((qy * info.stride + qx) * info.bytes_per_pixel <= (y * info.stride + x)
            * info.bytes_per_pixel + k < (qy * info.stride + qx) * info.bytes_per_pixel
            + info.bytes_per_pixel) <==> (x == qx && y == qy),
{
    let s = info.stride as int;
    let b = info.bytes_per_pixel as int;
    let p = y * s + x;
    let q = qy * s + qx;
    if p < q {
        assert(p * b + b <= q * b) by (nonlinear_arith)
            requires
                p + 1 <= q,
                0 <= b,
        ;
    }
    if p > q {
        assert(q * b + b <= p * b) by (nonlinear_arith)
            requires
                q + 1 <= p,
                0 <= b,
        ;
    }
    if y < qy {
        assert(y * s + s <= qy * s) by (nonlinear_arith)
            requires
                y + 1 <= qy,
                0 <= s,
        ;
    }
    if y > qy {
        assert(qy * s + s <= y * s) by (nonlinear_arith)
            requires
                qy + 1 <= y,
                0 <= s,
        ;
    }
}

/// Every byte of the frame has an address.
pub proof fn lemma_every_byte_has_an_address(info: FrameBufferInfo, i: int)
    requires
        0 <= i < info.byte_len(),
    ensures
        exists|x: int, y: int, k: int|
            addresses_byte(info, x, y, k) && i == #[trigger] byte_index(info, x, y, k),
{
    let s = info.stride as int;
    let h = info.height as int;
    let b = info.bytes_per_pixel as int;
    assert(b > 0 && s > 0) by (nonlinear_arith)
        requires
            0 <= i < s * h * b,
            0 <= s,
            0 <= h,
            0 <= b,
    ;
    let p = i / b;
    let k = i % b;
    vstd::arithmetic::div_mod::lemma_fundamental_div_mod(i, b);
    vstd::arithmetic::div_mod::lemma_mod_bound(i, b);
    let y = p / s;
    let x = p % s;
    vstd::arithmetic::div_mod::lemma_fundamental_div_mod(p, s);
    vstd::arithmetic::div_mod::lemma_mod_bound(p, s);
    assert(0 <= p) by (nonlinear_arith)
        requires
            i == b * p + k,
            0 <= i,
            0 <= k < b,
    ;
    assert(p < s * h) by (nonlinear_arith)
        requires
            i == b * p + k,
            i < s * h * b,
            0 <= k,
            0 < b,
    ;
    assert(0 <= y < h) by (nonlinear_arith)
        requires
            p == s * y + x,
            0 <= p < s * h,
            0 <= x < s,
    ;
    assert(byte_index(info, x, y, k) == i) by (nonlinear_arith)
        requires
            i == b * p + k,
            p == s * y + x,
            byte_index(info, x, y, k) == (y * s + x) * b + k,
    ;
    assert(addresses_byte(info, x, y, k));
}

/// Index of byte `k` of the pixel `(x, y)` in the frame.
pub open spec fn byte_index(info: FrameBufferInfo, x: int, y: int, k: int) -> int {
    (y * info.stride + x) * info.bytes_per_pixel + k
}

/// The address of a byte lies inside the frame.
pub proof fn lemma_address_in_frame(info: FrameBufferInfo, x: int, y: int, k: int)
    requires
        addresses_byte(info, x, y, k),
    ensures
        0 <= byte_index(info, x, y, k) < info.byte_len(),
{
    let s = info.stride as int;
    let h = info.height as int;
    let b = info.bytes_per_pixel as int;
    let p = y * s + x;
    assert(0 <= y * s) by (nonlinear_arith)
        requires
            0 <= y,
            0 <= s,
    ;
    assert(y * s + s <= s * h) by (nonlinear_arith)
        requires
            y + 1 <= h,
            0 <= s,
    ;
    assert(0 <= p * b) by (nonlinear_arith)
        requires
            0 <= p,
            0 <= b,
    ;
    assert(p * b + b <= (s * h) * b) by (nonlinear_arith)
        requires
            p + 1 <= s * h,
            0 <= b,
    ;
}

/// Byte `k` of the pixel `(x, y)` after the pixel `(qx, qy)` was drawn at
/// `intensity`: the encoded pixel in the bytes of a visible target, and what
/// was there before everywhere else.
pub open spec fn after_pixel(
    s: ConsoleModel,
    qx: int,
    qy: int,
    intensity: u8,
    x: int,
    y: int,
    k: int,
) -> u8 {
    if x == qx && y == qy && s.in_bounds(qx, qy) {
        pixel_byte(s.color, intensity, k)
    } else {
        s.channel_at(x, y, k)
    }
}

/// Byte `k` of the pixel `(x, y)` after the first `n` pixels of `row` were
/// drawn from `(left, top)` to the right.
pub open spec fn after_row(
    s: ConsoleModel,
    row: Seq<u8>,
    n: int,
    left: int,
    top: int,
    x: int,
    y: int,
    k: int,
) -> u8 {
    if y == top && left <= x < left + n && x < s.info.width {
        pixel_byte(s.color, row[x - left], k)
    } else {
        s.channel_at(x, y, k)
    }
}

/// Byte `k` of the pixel `(x, y)` after the first `rows` rows of `glyph`
/// were drawn with the top left corner at `(left, top)`: the encoded glyph
/// pixel where these rows have a visible pixel, and what was there before
/// everywhere else.
pub open spec fn after_rows(
    s: ConsoleModel,
    glyph: Seq<Seq<u8>>,
    rows: int,
    left: int,
    top: int,
    x: int,
    y: int,
    k: int,
) -> u8 {
    if rows_cover(glyph, rows, left, top, x, y) && x < s.info.width {
        pixel_byte(s.color, glyph[y - top][x - left], k)
    } else {
        s.channel_at(x, y, k)
    }
}

/// Byte `k` of the pixel `(x, y)` after a forward scroll: what the byte one
/// text line below held, and zero in the last text line.
pub open spec fn after_scroll(s: ConsoleModel, x: int, y: int, k: int) -> u8 {
    if y + LINE_HEIGHT < s.info.height {
        s.channel_at(x, y + LINE_HEIGHT, k)
    } else {
        0u8
    }
}

/// What a drawn pixel leaves in each byte of the frame.
pub proof fn lemma_write_pixel_bytes(s: ConsoleModel, qx: int, qy: int, intensity: u8)
    requires
        s.wf(),
    ensures
        forall|x: int, y: int, k: int|
            addresses_byte(s.info, x, y, k) ==> #[trigger] s.write_pixel(
                qx,
                qy,
                intensity,
            ).channel_at(x, y, k) == after_pixel(s, qx, qy, intensity, x, y, k),
{
    let drawn = s.write_pixel(qx, qy, intensity);
    assert forall|x: int, y: int, k: int| addresses_byte(s.info, x, y, k) implies (
    #[trigger] drawn.channel_at(x, y, k)) == after_pixel(s, qx, qy, intensity, x, y, k) by {
        lemma_address_in_frame(s.info, x, y, k);
        if s.in_bounds(qx, qy) {
            lemma_addresses_are_distinct(s.info, x, y, k, qx, qy);
        }
    }
}

/// What part of a drawn glyph row leaves in each byte of the frame.
pub proof fn lemma_draw_row_bytes(s: ConsoleModel, row: Seq<u8>, left: int, top: int, n: nat)
    requires
        s.wf(),
        0 <= left,
        n <= row.len(),
    ensures
        forall|x: int, y: int, k: int|
            addresses_byte(s.info, x, y, k) ==> #[trigger] s.draw_row(row, left, top, n).channel_at(
                x,
                y,
                k,
            ) == after_row(s, row, n as int, left, top, x, y, k),
    decreases n,
{
    if n > 0 {
        let before = s.draw_row(row, left, top, (n - 1) as nat);
        let drawn = s.draw_row(row, left, top, n);
        lemma_draw_row_bytes(s, row, left, top, (n - 1) as nat);
        lemma_draw_row_keeps_state(s, row, left, top, (n - 1) as nat);
        lemma_write_pixel_bytes(before, left + n - 1, top, row[n - 1]);
        assert(drawn == before.write_pixel(left + n - 1, top, row[n - 1]));
        assert forall|x: int, y: int, k: int| addresses_byte(s.info, x, y, k) implies (
        #[trigger] drawn.channel_at(x, y, k)) == after_row(s, row, n as int, left, top, x, y, k) by {
            assert(drawn.channel_at(x, y, k) == after_pixel(
                before,
                left + n - 1,
                top,
                row[n - 1],
                x,
                y,
                k,
            ));
            assert(before.channel_at(x, y, k) == after_row(s, row, n - 1, left, top, x, y, k));
        }
    }
}

/// What the first rows of a drawn glyph leave in each byte of the frame.
pub proof fn lemma_draw_rows_bytes(
    s: ConsoleModel,
    glyph: Seq<Seq<u8>>,
    left: int,
    top: int,
    n: nat,
)
    requires
        s.wf(),
        0 <= left,
        0 <= top,
        n <= glyph.len(),
    ensures
        forall|x: int, y: int, k: int|
            addresses_byte(s.info, x, y, k) ==> #[trigger] s.draw_rows(glyph, left, top, n).channel_at(
                x,
                y,
                k,
            ) == after_rows(s, glyph, n as int, left, top, x, y, k),
    decreases n,
{
    if n > 0 {
        let before = s.draw_rows(glyph, left, top, (n - 1) as nat);
        let drawn = s.draw_rows(glyph, left, top, n);
        let row = glyph[n - 1];
        lemma_draw_rows_bytes(s, glyph, left, top, (n - 1) as nat);
        lemma_draw_rows_keeps_state(s, glyph, left, top, (n - 1) as nat);
        lemma_draw_row_bytes(before, row, left, top + n - 1, row.len());
        assert(drawn == before.draw_row(row, left, top + n - 1, row.len()));
        assert forall|x: int, y: int, k: int| addresses_byte(s.info, x, y, k) implies (
        #[trigger] drawn.channel_at(x, y, k)) == after_rows(
            s,
            glyph,
            n as int,
            left,
            top,
            x,
            y,
            k,
        ) by {
            assert(drawn.channel_at(x, y, k) == after_row(
                before,
                row,
                row.len() as int,
                left,
                top + n - 1,
                x,
                y,
                k,
            ));
            assert(before.channel_at(x, y, k) == after_rows(s, glyph, n - 1, left, top, x, y, k));
        }
    }
}

/// A drawn glyph leaves, in every byte of the frame, the encoded glyph pixel
/// where the glyph has a visible pixel, and what was there before everywhere
/// else. Glyph pixels right of the visible width or below the frame are
/// clipped.
pub proof fn lemma_draw_glyph_bytes(s: ConsoleModel, glyph: Seq<Seq<u8>>)
    requires
        s.wf(),
    ensures
        forall|x: int, y: int, k: int|
            addresses_byte(s.info, x, y, k) ==> #[trigger] s.draw_glyph(glyph).channel_at(x, y, k)
                == after_rows(s, glyph, glyph.len() as int, s.x_pos, s.y_pos, x, y, k),
        only_pixels_differ(s, s.draw_glyph(glyph)),
{
    lemma_draw_rows_bytes(s, glyph, s.x_pos, s.y_pos, glyph.len());
    lemma_draw_rows_keeps_state(s, glyph, s.x_pos, s.y_pos, glyph.len());
}

/// The character cell at the cursor has a pixel at `(x, y)`.
pub open spec fn in_cell_at_cursor(s: ConsoleModel, x: int, y: int) -> bool {
    &&& s.x_pos <= x < s.x_pos + CHAR_RASTER_WIDTH
    &&& s.y_pos <= y < s.y_pos + CHAR_RASTER_HEIGHT
}

/// There is room at the cursor for one character and the next: neither the
/// line nor the frame ends before them.
pub open spec fn has_room_for_cell(s: ConsoleModel) -> bool {
    &&& s.x_pos + CHAR_RASTER_WIDTH + LETTER_SPACING + CHAR_RASTER_WIDTH < s.info.width
    &&& s.y_pos + CHAR_RASTER_HEIGHT + BORDER_PADDING < s.info.height
}

/// Byte `k` of the pixel `(x, y)` after `glyph` was drawn into the cell at
/// the cursor.
pub open spec fn after_cell(s: ConsoleModel, glyph: Seq<Seq<u8>>, x: int, y: int, k: int) -> u8 {
    if in_cell_at_cursor(s, x, y) {
        pixel_byte(s.color, glyph[y - s.y_pos][x - s.x_pos], k)
    } else {
        s.channel_at(x, y, k)
    }
}

/// Where there is room, a character is drawn in place: its glyph fills the
/// cell at the cursor and nothing else changes in the frame, and the cursor
/// moves to the cell immediately to the right, on the same line.
pub proof fn lemma_put_glyph_in_place(s: ConsoleModel, glyph: Seq<Seq<u8>>)
    requires
        s.wf(),
        is_cell(glyph),
        has_room_for_cell(s),
    ensures
        s.put_glyph(glyph).x_pos == s.x_pos + CHAR_RASTER_WIDTH,
        s.put_glyph(glyph).y_pos == s.y_pos,
        s.put_glyph(glyph).scrolls == s.scrolls,
        s.put_glyph(glyph).color == s.color,
        s.put_glyph(glyph).buffer == s.draw_glyph(glyph).buffer,
        forall|x: int, y: int, k: int|
            addresses_byte(s.info, x, y, k) ==> #[trigger] s.put_glyph(glyph).channel_at(x, y, k)
                == after_cell(s, glyph, x, y, k),
{
    lemma_draw_glyph_bytes(s, glyph);
    let drawn = s.draw_glyph(glyph);
    let placed = s.put_glyph(glyph);
    assert(placed == (ConsoleModel {
        x_pos: s.x_pos + CHAR_RASTER_WIDTH + LETTER_SPACING,
        ..drawn
    }));
    assert forall|x: int, y: int, k: int| addresses_byte(s.info, x, y, k) implies (
    #[trigger] placed.channel_at(x, y, k)) == after_cell(s, glyph, x, y, k) by {
        assert(placed.channel_at(x, y, k) == drawn.channel_at(x, y, k));
        if s.y_pos <= y < s.y_pos + glyph.len() {
            assert(glyph[y - s.y_pos].len() == CHAR_RASTER_WIDTH);
        }
    }
}

/// A forward scroll moves every pixel up by one text line: a byte takes what
/// the byte one line below held, and the bytes of the last line are zero.
pub proof fn lemma_scroll_forward_bytes(s: ConsoleModel)
    requires
        s.wf(),
    ensures
        forall|x: int, y: int, k: int|
            addresses_byte(s.info, x, y, k) ==> #[trigger] s.scroll_forward().channel_at(x, y, k)
                == after_scroll(s, x, y, k),
{
    let scrolled = s.scroll_forward();
    assert forall|x: int, y: int, k: int| addresses_byte(s.info, x, y, k) implies (
    #[trigger] scrolled.channel_at(x, y, k)) == after_scroll(s, x, y, k) by {
        let w = s.info.stride as int;
        let b = s.info.bytes_per_pixel as int;
        let h = s.info.height as int;
        lemma_address_in_frame(s.info, x, y, k);
        lemma_frame_bytes(s.info);
        assert((y * w + x) * b + k + LINE_HEIGHT * (w * b) == ((y + LINE_HEIGHT) * w + x) * b + k)
            by (nonlinear_arith);
        if y + LINE_HEIGHT < h {
            lemma_address_in_frame(s.info, x, y + LINE_HEIGHT, k);
        } else {
            assert(((y + LINE_HEIGHT) * w + x) * b + k >= w * h * b) by (nonlinear_arith)
                requires
                    y + LINE_HEIGHT >= h,
                    0 <= x,
                    0 <= k,
                    0 <= w,
                    0 <= b,
                    0 <= h,
            ;
        }
    }
}

} // verus!
