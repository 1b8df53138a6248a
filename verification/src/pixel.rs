//! Colours and the encoding of one blended pixel.

use vstd::prelude::*;

verus! {

/// Colour channels of a pixel are stored in this many leading bytes; any
/// further byte of a pixel is padding.
pub const CHANNELS: usize = 3;

/// A drawing colour. Channel `k` of a colour goes to byte `k` of a pixel:
/// `red` first, then `green`, then `blue`.
#[derive(Clone, Copy, Debug, PartialEq, Eq)]
pub struct Color {
    pub red: u8,
    pub green: u8,
    pub blue: u8,
}

/// The colour that text is drawn in until an escape directive changes it.
pub open spec fn spec_default_color() -> Color {
    Color { red: 255, green: 0, blue: 0 }
}

/// The colour that the highlight directive selects.
pub open spec fn spec_highlight_color() -> Color {
    Color { red: 0, green: 0, blue: 255 }
}

/// The colour that text is drawn in until an escape directive changes it.
#[verifier::when_used_as_spec(spec_default_color)]
pub fn default_color() -> (color: Color)
    ensures
        color == spec_default_color(),
{
    Color { red: 255, green: 0, blue: 0 }
}

/// The colour that the highlight directive selects.
#[verifier::when_used_as_spec(spec_highlight_color)]
pub fn highlight_color() -> (color: Color)
    ensures
        color == spec_highlight_color(),
{
    Color { red: 0, green: 0, blue: 255 }
}

impl Color {
    /// Channel `k` of the colour, for `k` in `0..CHANNELS`.
    pub open spec fn channel(self, k: int) -> u8 {
        if k == 0 {
            self.red
        } else if k == 1 {
            self.green
        } else {
            self.blue
        }
    }

    /// Channel `k` of the colour.
    pub fn get_channel(&self, k: usize) -> (v: u8)
        requires
            k < CHANNELS,
        ensures
            v == self.channel(k as int),
        no_unwind
    {
        if k == 0 {
            self.red
        } else if k == 1 {
            self.green
        } else {
            self.blue
        }
    }
}

/// A channel scaled by a glyph intensity: `channel * intensity / 255`,
/// rounded down.
pub open spec fn blend(channel: u8, intensity: u8) -> u8 {
    ((channel as int * intensity as int) / 255) as u8
}

/// Byte `k` of a pixel drawn in `color` at `intensity`: the blended channel
/// for the first `CHANNELS` bytes, zero for padding bytes.
pub open spec fn pixel_byte(color: Color, intensity: u8, k: int) -> u8 {
    if 0 <= k < CHANNELS {
        blend(color.channel(k), intensity)
    } else {
        0
    }
}

/// The `bytes_per_pixel` bytes of a pixel drawn in `color` at `intensity`.
pub open spec fn pixel_bytes(color: Color, intensity: u8, bytes_per_pixel: int) -> Seq<u8> {
    Seq::new(bytes_per_pixel as nat, |k: int| pixel_byte(color, intensity, k))
}

/// `buf` with the pixel of `bytes_per_pixel` bytes at `offset` drawn in
/// `color` at `intensity`; every other byte stays.
pub open spec fn with_pixel(
    buf: Seq<u8>,
    offset: int,
    bytes_per_pixel: int,
    color: Color,
    intensity: u8,
) -> Seq<u8> {
    Seq::new(
        buf.len(),
        |i: int|
            if offset <= i < offset + bytes_per_pixel {
                pixel_byte(color, intensity, i - offset)
            } else {
                buf[i]
            },
    )
}

/// Scales a channel by a glyph intensity.
pub fn blend_channel(channel: u8, intensity: u8) -> (v: u8)
    ensures
        v == blend(channel, intensity),
        v as int == (channel as int * intensity as int) / 255,
        v <= channel,
        v <= intensity,
    no_unwind
{
    let wide_channel: u16 = channel as u16;
    let wide_intensity: u16 = intensity as u16;
    assert(wide_channel * wide_intensity <= 255 * 255) by (nonlinear_arith)
        requires
            wide_channel <= 255,
            wide_intensity <= 255,
    ;
    assert(wide_channel * wide_intensity <= 255 * wide_channel) by (nonlinear_arith)
        requires
            0 <= wide_channel,
            0 <= wide_intensity <= 255,
    ;
    assert(wide_channel * wide_intensity <= 255 * wide_intensity) by (nonlinear_arith)
        requires
            0 <= wide_channel <= 255,
            0 <= wide_intensity,
    ;
    let product: u16 = wide_channel * wide_intensity;
    let scaled: u16 = product / 255;
    scaled as u8
}

/// Computes byte `k` of a pixel drawn in `color` at `intensity`.
pub fn encode_byte(color: &Color, intensity: u8, k: usize) -> (v: u8)
    ensures
        v == pixel_byte(*color, intensity, k as int),
    no_unwind
{
    if k < CHANNELS {
        blend_channel(color.get_channel(k), intensity)
    } else {
        0
    }
}

/// Stores the pixel of `bytes_per_pixel` bytes at `offset`, drawn in `color`
/// at `intensity`, one byte after the other.
pub fn store_pixel(
    buf: &mut Vec<u8>,
    offset: usize,
    bytes_per_pixel: usize,
    color: &Color,
    intensity: u8,
)
    requires
        offset + bytes_per_pixel <= old(buf).len(),
    ensures
        final(buf)@ == with_pixel(
            old(buf)@,
            offset as int,
            bytes_per_pixel as int,
            *color,
            intensity,
        ),
        final(buf).len() == old(buf).len(),
    no_unwind
{
    let mut k: usize = 0;
    while k < bytes_per_pixel
        invariant
            k <= bytes_per_pixel,
            offset + bytes_per_pixel <= buf.len(),
            buf.len() == old(buf).len(),
            buf@ == with_pixel(old(buf)@, offset as int, k as int, *color, intensity),
        decreases bytes_per_pixel - k,
    {
        let byte: u8 = encode_byte(color, intensity, k);
        buf[offset + k] = byte;
        k = k + 1;
        assert(buf@ =~= with_pixel(old(buf)@, offset as int, k as int, *color, intensity));
    }
}

/// What a stored pixel holds: its bytes are the encoded pixel, and no byte
/// outside the pixel has changed.
pub proof fn lemma_with_pixel(
    buf: Seq<u8>,
    offset: int,
    bytes_per_pixel: int,
    color: Color,
    intensity: u8,
)
    requires
        0 <= offset,
        0 <= bytes_per_pixel,
        offset + bytes_per_pixel <= buf.len(),
    ensures
        with_pixel(buf, offset, bytes_per_pixel, color, intensity).len() == buf.len(),
        with_pixel(buf, offset, bytes_per_pixel, color, intensity).subrange(
            offset,
            offset + bytes_per_pixel,
        ) == pixel_bytes(color, intensity, bytes_per_pixel),
        forall|i: int|
            0 <= i < buf.len() && !(offset <= i < offset + bytes_per_pixel) ==> with_pixel(
                buf,
                offset,
                bytes_per_pixel,
                color,
                intensity,
            )[i] == buf[i],
{
    assert(with_pixel(buf, offset, bytes_per_pixel, color, intensity).subrange(
        offset,
        offset + bytes_per_pixel,
    ) =~= pixel_bytes(color, intensity, bytes_per_pixel));
}

} // verus!
