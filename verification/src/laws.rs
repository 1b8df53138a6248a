//! What holds of the console in every state: the laws of its operations,
//! proved over [`ConsoleModel`].

use crate::escape::{parse, Directive, ParserState, ESCAPE_CHAR};
use crate::geometry::{
    lemma_frame_bytes, lemma_pixel_in_frame, lemma_whole_lines, BORDER_PADDING, CHAR_RASTER_HEIGHT,
    CHAR_RASTER_WIDTH, LINE_HEIGHT,
};
use crate::model::ConsoleModel;
use crate::pixel::{lemma_with_pixel, pixel_bytes, spec_default_color, spec_highlight_color};
use crate::scroll::lemma_move_whole_is_identity;
use vstd::prelude::*;

verus! {

/// `after` differs from `before` in the content of the frame at most: the
/// geometry, the cursor, the view, the colour, the scroll count and the
/// length of the frame are the same.
pub open spec fn only_pixels_differ(before: ConsoleModel, after: ConsoleModel) -> bool {
    &&& after.buffer.len() == before.buffer.len()
    &&& after.info == before.info
    &&& after.x_pos == before.x_pos
    &&& after.y_pos == before.y_pos
    &&& after.scroll_offset == before.scroll_offset
    &&& after.color == before.color
    &&& after.scrolls == before.scrolls
}

/// A pixel inside the visible area is stored as its encoded bytes at its
/// offset, and no other byte of the frame changes.
pub proof fn lemma_write_pixel_in_bounds(s: ConsoleModel, x: int, y: int, intensity: u8)
    requires
        s.wf(),
        s.in_bounds(x, y),
    ensures
        0 <= s.byte_offset(x, y),
        s.byte_offset(x, y) + s.info.bytes_per_pixel <= s.buffer.len(),
        s.write_pixel(x, y, intensity).buffer.subrange(
            s.byte_offset(x, y),
            s.byte_offset(x, y) + s.info.bytes_per_pixel,
        ) == pixel_bytes(s.color, intensity, s.info.bytes_per_pixel as int),
        forall|i: int|
            0 <= i < s.buffer.len() && !(s.byte_offset(x, y) <= i < s.byte_offset(x, y)
                + s.info.bytes_per_pixel) ==> s.write_pixel(x, y, intensity).buffer[i]
                == s.buffer[i],
        only_pixels_differ(s, s.write_pixel(x, y, intensity)),
        s.write_pixel(x, y, intensity).wf(),
{
    lemma_pixel_in_frame(s.info, x, y);
    lemma_with_pixel(
        s.buffer,
        s.byte_offset(x, y),
        s.info.bytes_per_pixel as int,
        s.color,
        intensity,
    );
}

/// A pixel outside the visible area is clipped: the console stays as it is.
pub proof fn lemma_write_pixel_clipped(s: ConsoleModel, x: int, y: int, intensity: u8)
    requires
        x >= s.info.width || y >= s.info.height,
    ensures
        s.write_pixel(x, y, intensity) == s,
{
}

/// Drawing a pixel changes the content of the frame at most, and keeps the
/// state well formed.
pub proof fn lemma_write_pixel_keeps_state(s: ConsoleModel, x: int, y: int, intensity: u8)
    requires
        s.wf(),
    ensures
        only_pixels_differ(s, s.write_pixel(x, y, intensity)),
        s.write_pixel(x, y, intensity).wf(),
{
    if s.in_bounds(x, y) {
        lemma_write_pixel_in_bounds(s, x, y, intensity);
    }
}

/// Drawing part of a glyph row changes the content of the frame at most.
pub proof fn lemma_draw_row_keeps_state(s: ConsoleModel, row: Seq<u8>, x: int, y: int, n: nat)
    requires
        s.wf(),
    ensures
        only_pixels_differ(s, s.draw_row(row, x, y, n)),
        s.draw_row(row, x, y, n).wf(),
    decreases n,
{
    if n > 0 {
        lemma_draw_row_keeps_state(s, row, x, y, (n - 1) as nat);
        lemma_write_pixel_keeps_state(
            s.draw_row(row, x, y, (n - 1) as nat),
            x + n - 1,
            y,
            row[n - 1],
        );
    }
}

/// Drawing rows of a glyph changes the content of the frame at most.
pub proof fn lemma_draw_rows_keeps_state(
    s: ConsoleModel,
    glyph: Seq<Seq<u8>>,
    x: int,
    y: int,
    n: nat,
)
    requires
        s.wf(),
    ensures
        only_pixels_differ(s, s.draw_rows(glyph, x, y, n)),
        s.draw_rows(glyph, x, y, n).wf(),
    decreases n,
{
    if n > 0 {
        lemma_draw_rows_keeps_state(s, glyph, x, y, (n - 1) as nat);
        lemma_draw_row_keeps_state(
            s.draw_rows(glyph, x, y, (n - 1) as nat),
            glyph[n - 1],
            x,
            y + n - 1,
            glyph[n - 1].len(),
        );
    }
}

/// Drawing a glyph changes the content of the frame at most: the cursor does
/// not move and the frame keeps its size.
pub proof fn lemma_draw_glyph_keeps_state(s: ConsoleModel, glyph: Seq<Seq<u8>>)
    requires
        s.wf(),
    ensures
        only_pixels_differ(s, s.draw_glyph(glyph)),
        s.draw_glyph(glyph).wf(),
{
    lemma_draw_rows_keeps_state(s, glyph, s.x_pos, s.y_pos, glyph.len());
}

/// Clearing always ends with the cursor at the border padding, the view at
/// the start and a frame of zeros of the same size; it keeps the colour.
pub proof fn lemma_clear(s: ConsoleModel)
    requires
        s.wf(),
    ensures
        s.clear().wf(),
        s.clear().x_pos == BORDER_PADDING,
        s.clear().y_pos == BORDER_PADDING,
        s.clear().scroll_offset == 0,
        s.clear().buffer.len() == s.buffer.len(),
        forall|i: int| 0 <= i < s.buffer.len() ==> s.clear().buffer[i] == 0u8,
        s.clear().color == s.color,
        s.clear().clear() == s.clear(),
{
    lemma_whole_lines(0);
}

/// A forward scroll keeps the size of the frame. Below the first text line it
/// keeps the state well formed.
pub proof fn lemma_scroll_forward(s: ConsoleModel)
    requires
        s.wf(),
        s.y_pos >= BORDER_PADDING + LINE_HEIGHT,
    ensures
        s.scroll_forward().wf(),
        s.scroll_forward().buffer.len() == s.buffer.len(),
        s.scroll_forward().scrolls == s.scrolls + 1,
        s.scroll_forward().y_pos == s.y_pos - LINE_HEIGHT,
{
    lemma_whole_lines(s.y_pos - BORDER_PADDING);
}

/// A new line keeps the state well formed and the size of the frame, puts
/// the cursor into the first column, and scrolls exactly when the next text
/// line would start below the frame; the cursor then stays on its row.
pub proof fn lemma_newline(s: ConsoleModel)
    requires
        s.wf(),
    ensures
        s.newline().wf(),
        s.newline().buffer.len() == s.buffer.len(),
        s.newline().x_pos == BORDER_PADDING,
        s.newline_scrolls() ==> s.newline().y_pos == s.y_pos && s.newline().scrolls == s.scrolls
            + 1,
        !s.newline_scrolls() ==> s.newline().y_pos == s.y_pos + LINE_HEIGHT && s.newline().scrolls
            == s.scrolls && s.newline().buffer == s.buffer,
{
    lemma_whole_lines(s.y_pos - BORDER_PADDING);
}

/// Drawing a character keeps the state well formed and the size of the frame.
pub proof fn lemma_put_glyph(s: ConsoleModel, glyph: Seq<Seq<u8>>)
    requires
        s.wf(),
    ensures
        s.put_glyph(glyph).wf(),
        s.put_glyph(glyph).buffer.len() == s.buffer.len(),
        s.put_glyph(glyph).color == s.color,
        s.put_glyph(glyph).info == s.info,
{
    let wrapped = if s.x_pos + CHAR_RASTER_WIDTH >= s.info.width {
        s.newline()
    } else {
        s
    };
    lemma_newline(s);
    let raised = if wrapped.y_pos + CHAR_RASTER_HEIGHT + BORDER_PADDING >= wrapped.info.height {
        wrapped.scroll_forward()
    } else {
        wrapped
    };
    if wrapped.y_pos + CHAR_RASTER_HEIGHT + BORDER_PADDING >= wrapped.info.height {
        lemma_whole_lines(wrapped.y_pos - BORDER_PADDING);
        lemma_scroll_forward(wrapped);
    }
    lemma_draw_glyph_keeps_state(raised, glyph);
    let drawn = raised.draw_glyph(glyph);
    lemma_newline(drawn);
}

/// Writing a character keeps the state well formed and the size of the frame.
pub proof fn lemma_write_char(s: ConsoleModel, c: char)
    requires
        s.wf(),
    ensures
        s.write_char(c).wf(),
        s.write_char(c).buffer.len() == s.buffer.len(),
        s.write_char(c).color == s.color,
{
    lemma_newline(s);
    let space = crate::font::glyph_for(' ');
    lemma_put_glyph(s, space);
    lemma_put_glyph(s.put_glyph(space), space);
    lemma_put_glyph(s.put_glyph(space).put_glyph(space), space);
    lemma_put_glyph(s.put_glyph(space).put_glyph(space).put_glyph(space), space);
    lemma_put_glyph(s, crate::font::glyph_for(c));
}

/// Carrying out a directive keeps the state well formed and the size of the
/// frame.
pub proof fn lemma_apply(s: ConsoleModel, directive: Directive)
    requires
        s.wf(),
    ensures
        s.apply(directive).wf(),
        s.apply(directive).buffer.len() == s.buffer.len(),
{
    lemma_newline(s);
    lemma_write_char(s, '\t');
    match directive {
        Directive::Render(c) => {
            lemma_write_char(s, c);
        },
        _ => {},
    }
}

/// Printing keeps the state well formed, whatever the text and wherever the
/// parser starts: the cursor stays inside the border and the frame is never
/// resized.
pub proof fn lemma_print_from(s: ConsoleModel, state: ParserState, text: Seq<char>)
    requires
        s.wf(),
    ensures
        s.print_from(state, text).wf(),
        s.print_from(state, text).buffer.len() == s.buffer.len(),
    decreases text.len(),
{
    if text.len() > 0 {
        let (next, directive) = parse(state, text[0]);
        lemma_apply(s, directive);
        lemma_print_from(s.apply(directive), next, text.drop_first());
    }
}

/// Printing a text that starts with `c` carries out what `c` asks for and
/// prints the rest from the state that `c` leaves the parser in.
pub proof fn lemma_print_from_first(s: ConsoleModel, state: ParserState, c: char, rest: Seq<char>)
    ensures
        s.print_from(state, seq![c] + rest) == s.apply(parse(state, c).1).print_from(
            parse(state, c).0,
            rest,
        ),
{
    let text = seq![c] + rest;
    assert(text.len() > 0);
    assert(text[0] == c);
    assert(text.drop_first() =~= rest);
}

/// The state of the parser after `text`, from `state`.
pub open spec fn parser_after(state: ParserState, text: Seq<char>) -> ParserState
    decreases text.len(),
{
    if text.len() == 0 {
        state
    } else {
        parser_after(parse(state, text[0]).0, text.drop_first())
    }
}

/// Printing a text in two parts: the second part is printed from the state
/// that the first part leaves the console and the parser in.
pub proof fn lemma_print_from_concat(
    s: ConsoleModel,
    state: ParserState,
    first: Seq<char>,
    second: Seq<char>,
)
    ensures
        s.print_from(state, first + second) == s.print_from(state, first).print_from(
            parser_after(state, first),
            second,
        ),
    decreases first.len(),
{
    if first.len() == 0 {
        assert(first + second =~= second);
    } else {
        let (next, directive) = parse(state, first[0]);
        assert((first + second)[0] == first[0]);
        assert((first + second).drop_first() =~= first.drop_first() + second);
        lemma_print_from_concat(s.apply(directive), next, first.drop_first(), second);
    }
}

/// Two calls of `print` give what one call on the joined text gives, unless
/// the first text ends inside a directive: a backslash at the end of a text
/// is dropped, and does not reach into the next text.
pub proof fn lemma_print_twice(s: ConsoleModel, first: Seq<char>, second: Seq<char>)
    requires
        parser_after(ParserState::Normal, first) == ParserState::Normal,
    ensures
        s.print(first).print(second) == s.print(first + second),
{
    lemma_print_from_concat(s, ParserState::Normal, first, second);
}

/// The highlight directive followed at once by the reset directive leaves
/// the console drawing in the default colour, and changes nothing else:
/// what is printed after them is printed as from the same state with the
/// default colour.
pub proof fn lemma_highlight_then_reset(s: ConsoleModel, rest: Seq<char>)
    ensures
        s.print(seq![ESCAPE_CHAR, 'c', ESCAPE_CHAR, 'r'] + rest) == s.with_color(
            spec_default_color(),
        ).print(rest),
{
    let highlighted = s.with_color(spec_highlight_color());
    let t3 = seq!['r'] + rest;
    let t2 = seq![ESCAPE_CHAR] + t3;
    let t1 = seq!['c'] + t2;
    let t0 = seq![ESCAPE_CHAR] + t1;
    assert(t0 =~= seq![ESCAPE_CHAR, 'c', ESCAPE_CHAR, 'r'] + rest);
    lemma_print_from_first(s, ParserState::Normal, ESCAPE_CHAR, t1);
    lemma_print_from_first(s, ParserState::Escape, 'c', t2);
    lemma_print_from_first(highlighted, ParserState::Normal, ESCAPE_CHAR, t3);
    lemma_print_from_first(highlighted, ParserState::Escape, 'r', rest);
    assert(highlighted.with_color(spec_default_color()) == s.with_color(spec_default_color()));
}

/// After the highlight directive and the reset directive the console is as
/// it was, with the default colour as its drawing colour.
pub proof fn lemma_highlight_then_reset_alone(s: ConsoleModel)
    ensures
        s.print(seq![ESCAPE_CHAR, 'c', ESCAPE_CHAR, 'r']) == s.with_color(spec_default_color()),
        s.print(seq![ESCAPE_CHAR, 'c', ESCAPE_CHAR, 'r']).color == spec_default_color(),
{
    let empty = Seq::<char>::empty();
    assert(seq![ESCAPE_CHAR, 'c', ESCAPE_CHAR, 'r'] + empty =~= seq![
        ESCAPE_CHAR,
        'c',
        ESCAPE_CHAR,
        'r',
    ]);
    lemma_highlight_then_reset(s, empty);
}

/// A backslash followed by a character that selects no directive draws the
/// backslash and drops the character.
pub proof fn lemma_unknown_directive_draws_backslash(s: ConsoleModel, c: char)
    requires
        c != 'c',
        c != 'r',
    ensures
        s.print(seq![ESCAPE_CHAR, c]) == s.write_printable(ESCAPE_CHAR),
{
    let empty = Seq::<char>::empty();
    let t1 = seq![c] + empty;
    assert(seq![ESCAPE_CHAR] + t1 =~= seq![ESCAPE_CHAR, c]);
    lemma_print_from_first(s, ParserState::Normal, ESCAPE_CHAR, t1);
    lemma_print_from_first(s, ParserState::Escape, c, empty);
}

/// A backslash at the end of the text has no effect.
pub proof fn lemma_trailing_backslash_is_dropped(s: ConsoleModel)
    ensures
        s.print(seq![ESCAPE_CHAR]) == s,
{
    let empty = Seq::<char>::empty();
    assert(seq![ESCAPE_CHAR] + empty =~= seq![ESCAPE_CHAR]);
    lemma_print_from_first(s, ParserState::Normal, ESCAPE_CHAR, empty);
}

/// A text of `n` line feeds.
pub open spec fn line_feeds(n: nat) -> Seq<char> {
    Seq::new(n, |i: int| '\n')
}

/// Rows by which the cursor would stand below the last row of the frame
/// after `n` new lines, had the frame never scrolled.
pub open spec fn rows_past_frame(s: ConsoleModel, n: nat) -> int {
    s.y_pos + n * LINE_HEIGHT - (s.info.height - 1)
}

/// Forward scrolls that `n` new lines cause: none while the cursor stays
/// inside the frame, then the rows past the frame divided by the height of a
/// line, rounded up.
pub open spec fn scrolls_due(s: ConsoleModel, n: nat) -> int {
    if rows_past_frame(s, n) <= 0 {
        0
    } else {
        (rows_past_frame(s, n) + LINE_HEIGHT - 1) / (LINE_HEIGHT as int)
    }
}

/// Printing `n` line feeds scrolls the frame forward exactly
/// `scrolls_due(s, n)` times, and the frame keeps its size.
pub proof fn lemma_line_feeds_scroll(s: ConsoleModel, n: nat)
    requires
        s.wf(),
    ensures
        s.print(line_feeds(n)).scrolls == s.scrolls + scrolls_due(s, n),
        s.print(line_feeds(n)).buffer.len() == s.buffer.len(),
        s.print(line_feeds(n)).wf(),
    decreases n,
{
    lemma_print_from(s, ParserState::Normal, line_feeds(n));
    if n > 0 {
        let rest = line_feeds((n - 1) as nat);
        assert(line_feeds(n) =~= seq!['\n'] + rest);
        lemma_print_from_first(s, ParserState::Normal, '\n', rest);
        lemma_newline(s);
        let next = s.newline();
        lemma_line_feeds_scroll(next, (n - 1) as nat);
        assert(n * LINE_HEIGHT == (n - 1) * LINE_HEIGHT + LINE_HEIGHT) by (nonlinear_arith);
        if s.newline_scrolls() {
            assert(rows_past_frame(next, (n - 1) as nat) == rows_past_frame(s, n) - LINE_HEIGHT);
            assert(rows_past_frame(s, n) >= 1) by (nonlinear_arith)
                requires
                    n >= 1,
                    s.y_pos + LINE_HEIGHT >= s.info.height,
                    rows_past_frame(s, n) == s.y_pos + n * LINE_HEIGHT - (s.info.height - 1),
            ;
        } else {
            assert(rows_past_frame(next, (n - 1) as nat) == rows_past_frame(s, n));
        }
    } else {
        assert(line_feeds(0).len() == 0);
    }
}

/// The buffer holds the visible frame and nothing else, so a redraw finds no
/// other window to show: it leaves the console as it is.
pub proof fn lemma_redraw_shows_the_frame(s: ConsoleModel)
    requires
        s.wf(),
    ensures
        s.redraw() == s,
{
    lemma_frame_bytes(s.info);
    let start = s.scroll_offset * s.info.stride_bytes();
    let frame = s.info.height * s.info.stride_bytes();
    assert(0 <= start) by (nonlinear_arith)
        requires
            0 <= s.scroll_offset,
            0 <= s.info.stride_bytes(),
            start == s.scroll_offset * s.info.stride_bytes(),
    ;
    if start + frame <= s.buffer.len() {
        assert(start == 0);
        lemma_move_whole_is_identity(s.buffer);
    }
}

/// No rows lie below the visible frame, so the view never moves down; moving
/// it up changes the view offset only.
pub proof fn lemma_view_scrolling(s: ConsoleModel)
    requires
        s.wf(),
    ensures
        s.scroll_down() == s,
        s.scroll_up().buffer == s.buffer,
        s.scroll_up().wf(),
        s.scroll_offset >= LINE_HEIGHT ==> s.scroll_up().scroll_offset == s.scroll_offset
            - LINE_HEIGHT,
        s.scroll_offset < LINE_HEIGHT ==> s.scroll_up() == s,
{
    if s.scroll_offset >= LINE_HEIGHT {
        let moved = ConsoleModel { scroll_offset: s.scroll_offset - LINE_HEIGHT, ..s };
        lemma_whole_lines(s.scroll_offset);
        lemma_redraw_shows_the_frame(moved);
    }
}

} // verus!
