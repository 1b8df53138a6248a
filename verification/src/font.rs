//! The console font: a fixed table of pre-rasterized glyphs.
//!
//! The table itself belongs to the `noto_sans_mono_bitmap` crate. This module
//! names what the table holds for a character and adds the substitution of a
//! backup glyph for characters that the table lacks.

use crate::geometry::{CHAR_RASTER_HEIGHT, CHAR_RASTER_WIDTH};
use noto_sans_mono_bitmap::{get_raster, FontWeight, RasterHeight};
use vstd::prelude::*;

verus! {

/// Drawn in place of a character that the font lacks.
pub const BACKUP_CHAR: char = '\u{FFFD}';

/// The raster of one character: rows of pixel intensities, top row first.
#[derive(Clone, Debug)]
pub struct Glyph {
    pub rows: Vec<Vec<u8>>,
}

impl View for Glyph {
    type V = Seq<Seq<u8>>;

    open spec fn view(&self) -> Seq<Seq<u8>> {
        Seq::new(self.rows@.len(), |i: int| self.rows@[i]@)
    }
}

impl Glyph {
    /// Pixel rows of the glyph.
    pub fn height(&self) -> (rows: usize)
        ensures
            rows == self@.len(),
    {
        self.rows.len()
    }

    /// Pixel columns of the glyph: the length of its first row.
    pub fn width(&self) -> (columns: usize)
        ensures
            self@.len() == 0 ==> columns == 0,
            self@.len() > 0 ==> columns == self@[0].len(),
            is_cell(self@) ==> columns == CHAR_RASTER_WIDTH,
    {
        if self.rows.len() == 0 {
            0
        } else {
            self.rows[0].len()
        }
    }
}

/// The raster fills one character cell: `CHAR_RASTER_HEIGHT` rows of
/// `CHAR_RASTER_WIDTH` pixels.
pub open spec fn is_cell(raster: Seq<Seq<u8>>) -> bool {
    &&& raster.len() == CHAR_RASTER_HEIGHT
    &&& forall|i: int| 0 <= i < raster.len() ==> (#[trigger] raster[i]).len() == CHAR_RASTER_WIDTH
}

/// The raster that the font table holds for `c` at regular weight and raster
/// height 16, or `None` where the table has no entry for `c`.
pub uninterp spec fn font_raster(c: char) -> Option<Seq<Seq<u8>>>;

/// The font table has an entry for `c`.
pub open spec fn has_glyph(c: char) -> bool {
    font_raster(c) is Some
}

/// The raster drawn for `c`: its own where the font has one, else that of
/// [`BACKUP_CHAR`].
pub open spec fn glyph_for(c: char) -> Seq<Seq<u8>> {
    match font_raster(c) {
        Some(raster) => raster,
        None => font_raster(BACKUP_CHAR).unwrap(),
    }
}

/// Looks `c` up in the font table, by `noto_sans_mono_bitmap::get_raster` at
/// `FontWeight::Regular` and `RasterHeight::Size16`, and copies the raster
/// found. Trusted: the result is the table's entry for `c`, which
/// [`font_raster`] names, and an entry fills one character cell, as every
/// raster of that weight and height has 16 rows of 9 pixels.
#[verifier::external_body]
fn lookup_raster(c: char) -> (r: Option<Glyph>)
    ensures
        r matches Some(glyph) ==> font_raster(c) == Some(glyph@),
        r matches Some(glyph) ==> is_cell(glyph@),
        r is None ==> font_raster(c) is None,
{
    match get_raster(c, FontWeight::Regular, RasterHeight::Size16) {
        Some(found) => {
            let mut rows: Vec<Vec<u8>> = Vec::new();
            for row in found.raster() {
                rows.push(row.to_vec());
            }
            Some(Glyph { rows })
        },
        None => None,
    }
}

/// The glyph drawn for `c`, for a font that has `c` or the backup character.
/// A font with neither is a broken configuration; callers rule it out.
pub fn get_char_raster(c: char) -> (glyph: Glyph)
    requires
        has_glyph(c) || has_glyph(BACKUP_CHAR),
    ensures
        glyph@ == glyph_for(c),
        is_cell(glyph@),
{
    match lookup_raster(c) {
        Some(glyph) => glyph,
        None => match lookup_raster(BACKUP_CHAR) {
            Some(glyph) => glyph,
            // Not reached: the font has the backup character.
            None => Glyph { rows: Vec::new() },
        },
    }
}

/// The glyph drawn for `c`, or `None` where the font has neither `c` nor the
/// backup character.
pub fn rasterize(c: char) -> (r: Option<Glyph>)
    ensures
        r is Some <==> has_glyph(c) || has_glyph(BACKUP_CHAR),
        r matches Some(glyph) ==> glyph@ == glyph_for(c) && is_cell(glyph@),
{
    match lookup_raster(c) {
        Some(glyph) => Some(glyph),
        None => match lookup_raster(BACKUP_CHAR) {
            Some(_) => Some(get_char_raster(c)),
            None => None,
        },
    }
}

/// Whether the font holds the backup character.
pub fn backup_available() -> (ok: bool)
    ensures
        ok == has_glyph(BACKUP_CHAR),
{
    lookup_raster(BACKUP_CHAR).is_some()
}

} // verus!
