//! A text console that renders characters into a linear pixel buffer.
//!
//! The console owns a byte buffer laid out as rows of pixels, a cursor, a
//! drawing colour and a fixed monospaced font. Text is printed glyph by glyph;
//! a small in-band escape syntax switches the drawing colour, and the buffer
//! scrolls by one text line whenever the cursor would leave it.
//!
//! - [`writer`] holds the console itself, [`text_mode`] its character-cell
//!   variant;
//! - [`model`] is the console as a mathematical value, against which every
//!   operation of the writer is specified;
//! - [`laws`] and [`raster_laws`] prove what holds of the console in every
//!   state;
//! - [`font`], [`pixel`], [`scroll`] and [`escape`] are the parts that the
//!   writer is made of: glyph lookup, pixel encoding, moving the frame, and
//!   the control syntax of the text;
//! - [`geometry`] describes the frame, and [`halt`] what happens when the
//!   system cannot go on.

pub mod escape;
pub mod font;
pub mod geometry;
pub mod halt;
pub mod laws;
pub mod model;
pub mod pixel;
pub mod raster_laws;
pub mod scroll;
pub mod text_mode;
pub mod writer;
