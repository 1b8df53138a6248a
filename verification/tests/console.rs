use fbconsole::escape::Directive;
use fbconsole::font::{get_char_raster, rasterize, Glyph, BACKUP_CHAR};
use fbconsole::geometry::{
    FrameBufferInfo, PixelFormat, BORDER_PADDING, CHAR_RASTER_HEIGHT, CHAR_RASTER_WIDTH,
    LINE_HEIGHT, LINE_SPACING,
};
use fbconsole::pixel::{blend_channel, default_color, highlight_color, Color};
use fbconsole::writer::FrameBufferWriter;
use noto_sans_mono_bitmap::{get_raster, get_raster_width, FontWeight, RasterHeight};

fn info(width: usize, height: usize, stride: usize, bytes_per_pixel: usize) -> FrameBufferInfo {
    FrameBufferInfo { width, height, stride, bytes_per_pixel, pixel_format: PixelFormat::Rgb }
}

fn console(width: usize, height: usize, stride: usize, bytes_per_pixel: usize) -> FrameBufferWriter {
    let buffer = vec![0xAAu8; stride * height * bytes_per_pixel];
    FrameBufferWriter::try_new(buffer, info(width, height, stride, bytes_per_pixel))
        .expect("a console on a well-formed frame")
}

fn raster_of(c: char) -> Vec<Vec<u8>> {
    get_raster(c, FontWeight::Regular, RasterHeight::Size16)
        .expect("a glyph of the font")
        .raster()
        .iter()
        .map(|row| row.to_vec())
        .collect()
}

/// The frame that holds exactly the given glyphs, each with its top left
/// corner at the given pixel, drawn in `color`.
fn expected_frame(
    geometry: &FrameBufferInfo,
    color: Color,
    glyphs: &[(char, usize, usize)],
) -> Vec<u8> {
    let mut frame = vec![0u8; geometry.stride * geometry.height * geometry.bytes_per_pixel];
    let channels = [color.red, color.green, color.blue];
    for &(c, left, top) in glyphs {
        let raster = raster_of(c);
        for (gy, row) in raster.iter().enumerate() {
            for (gx, &intensity) in row.iter().enumerate() {
                let (x, y) = (left + gx, top + gy);
                if x >= geometry.width || y >= geometry.height {
                    continue;
                }
                let offset = (y * geometry.stride + x) * geometry.bytes_per_pixel;
                for k in 0..geometry.bytes_per_pixel {
                    frame[offset + k] = if k < 3 {
                        (channels[k] as u16 * intensity as u16 / 255) as u8
                    } else {
                        0
                    };
                }
            }
        }
    }
    frame
}

#[test]
fn font_constants_match_the_font() {
    assert_eq!(CHAR_RASTER_WIDTH, get_raster_width(FontWeight::Regular, RasterHeight::Size16));
    assert_eq!(CHAR_RASTER_HEIGHT, RasterHeight::Size16.val());
    assert_eq!(LINE_HEIGHT, CHAR_RASTER_HEIGHT + LINE_SPACING);
    assert_eq!(LINE_HEIGHT, 18);
    assert_eq!(BORDER_PADDING, 1);
    assert_eq!(BACKUP_CHAR, '\u{FFFD}');
}

#[test]
fn rasterize_gives_the_glyph_of_the_font() {
    let glyph = rasterize('A').expect("the font has A");
    assert_eq!(glyph.rows, raster_of('A'));
    assert_eq!(glyph.rows.len(), 16);
    assert!(glyph.rows.iter().all(|row| row.len() == 9));
    assert_eq!(glyph.rows[3], vec![0, 0, 0, 165, 249, 15, 0, 0, 0]);
    assert_ne!(rasterize('B').unwrap().rows, glyph.rows);
}

#[test]
fn glyph_of_the_font_fills_one_cell() {
    for c in [' ', 'A', '~', '\\', BACKUP_CHAR, '\u{e9}', '\u{0}'] {
        let glyph = rasterize(c).expect("the font has the backup glyph");
        assert_eq!(glyph.height(), CHAR_RASTER_HEIGHT, "rows of {:?}", c);
        assert_eq!(glyph.width(), CHAR_RASTER_WIDTH, "columns of {:?}", c);
        assert!(glyph.rows.iter().all(|row| row.len() == CHAR_RASTER_WIDTH));
    }
    assert_eq!(Glyph { rows: vec![] }.width(), 0);
    assert_eq!(Glyph { rows: vec![] }.height(), 0);
    assert_eq!(Glyph { rows: vec![vec![1, 2], vec![3]] }.width(), 2);
    assert_eq!(Glyph { rows: vec![vec![1, 2], vec![3]] }.height(), 2);
}

#[test]
fn rasterize_substitutes_the_backup_glyph() {
    assert!(get_raster('\u{e9}', FontWeight::Regular, RasterHeight::Size16).is_none());
    let glyph = rasterize('\u{e9}').expect("the font has the backup glyph");
    assert_eq!(glyph.rows, raster_of(BACKUP_CHAR));
    let direct = get_char_raster('\u{7}');
    assert_eq!(direct.rows, raster_of(BACKUP_CHAR));
    assert_eq!(get_char_raster('z').rows, raster_of('z'));
}

#[test]
fn blend_is_truncating_division_by_255() {
    assert_eq!(blend_channel(255, 255), 255);
    assert_eq!(blend_channel(255, 128), 128);
    assert_eq!(blend_channel(200, 100), 78);
    assert_eq!(blend_channel(1, 254), 0);
    assert_eq!(blend_channel(0, 255), 0);
    assert_eq!(blend_channel(255, 0), 0);
    assert_eq!(blend_channel(254, 254), 253);
}

#[test]
fn colors_of_the_escape_protocol() {
    assert_eq!(default_color(), Color { red: 255, green: 0, blue: 0 });
    assert_eq!(highlight_color(), Color { red: 0, green: 0, blue: 255 });
}

#[test]
fn geometry_fits_only_its_own_frame() {
    let geometry = info(640, 480, 640, 4);
    assert!(geometry.fits(640 * 480 * 4));
    assert!(!geometry.fits(640 * 480 * 4 - 1));
    assert!(!geometry.fits(640 * 480 * 4 + 1));
    assert!(!geometry.fits(0));
    // A stride longer than the width is padding at the end of each row.
    assert!(info(640, 480, 700, 3).fits(700 * 480 * 3));
    // Rows longer than the stride overlap.
    assert!(!info(640, 480, 639, 4).fits(639 * 480 * 4));
    // No cursor column inside the border.
    assert!(!info(1, 480, 640, 4).fits(640 * 480 * 4));
    assert!(info(2, 480, 640, 4).fits(640 * 480 * 4));
    // No room for one text line below the border.
    assert!(!info(640, 18, 640, 4).fits(640 * 18 * 4));
    assert!(info(640, 19, 640, 4).fits(640 * 19 * 4));
    // A product beyond the address space describes no frame.
    assert!(!info(2, usize::MAX, usize::MAX, 4).fits(16));
    assert!(!info(2, 19, usize::MAX / 19, 2).fits(16));
    // Pixels of no bytes make an empty frame.
    assert!(info(640, 480, 640, 0).fits(0));
    assert!(!info(640, 480, 640, 0).fits(1));
}

#[test]
fn try_new_refuses_a_frame_that_the_geometry_does_not_describe() {
    assert!(FrameBufferWriter::try_new(vec![0u8; 100], info(640, 480, 640, 4)).is_none());
    assert!(FrameBufferWriter::try_new(vec![0u8; 640 * 480 * 4], info(640, 480, 640, 4)).is_some());
    assert!(FrameBufferWriter::try_new(vec![0u8; 640 * 10 * 4], info(640, 10, 640, 4)).is_none());
}

#[test]
fn new_clears_the_frame() {
    let writer = console(64, 40, 70, 3);
    assert_eq!(writer.x_pos(), BORDER_PADDING);
    assert_eq!(writer.y_pos(), BORDER_PADDING);
    assert_eq!(writer.scroll_offset(), 0);
    assert_eq!(writer.current_color(), default_color());
    assert_eq!(writer.buffer().len(), 70 * 40 * 3);
    assert!(writer.buffer().iter().all(|&b| b == 0));
    assert_eq!(writer.width(), 64);
    assert_eq!(writer.height(), 40);
    assert_eq!(writer.info(), info(64, 40, 70, 3));
}

#[test]
fn write_pixel_stores_the_blended_channels() {
    let mut writer = console(64, 40, 70, 4);
    writer.print("\\c");
    writer.write_pixel(5, 7, 200);
    let offset = (7 * 70 + 5) * 4;
    let mut expected = vec![0u8; 70 * 40 * 4];
    expected[offset + 2] = 200;
    assert_eq!(writer.buffer(), &expected);

    let mut writer = console(64, 40, 70, 4);
    writer.write_pixel(63, 39, 100);
    let offset = (39 * 70 + 63) * 4;
    assert_eq!(&writer.buffer()[offset..offset + 4], &[100, 0, 0, 0]);
    writer.write_pixel(0, 0, 255);
    assert_eq!(&writer.buffer()[0..4], &[255, 0, 0, 0]);
}

#[test]
fn write_pixel_overwrites_every_byte_of_the_pixel() {
    let mut writer = console(64, 40, 64, 4);
    writer.write_pixel(3, 3, 255);
    writer.print("\\c");
    writer.write_pixel(3, 3, 255);
    let offset = (3 * 64 + 3) * 4;
    assert_eq!(&writer.buffer()[offset..offset + 4], &[0, 0, 255, 0]);
}

#[test]
fn write_pixel_truncates_to_the_bytes_of_a_pixel() {
    for bytes_per_pixel in 0..7usize {
        let mut writer = console(20, 20, 24, bytes_per_pixel);
        writer.write_pixel(2, 1, 51);
        let offset = (24 + 2) * bytes_per_pixel;
        let mut expected = vec![0u8; 24 * 20 * bytes_per_pixel];
        if bytes_per_pixel > 0 {
            expected[offset] = 51;
        }
        assert_eq!(writer.buffer(), &expected, "bytes per pixel: {}", bytes_per_pixel);
    }
    let mut writer = console(20, 20, 24, 2);
    writer.print("\\c");
    writer.write_pixel(2, 1, 255);
    assert!(writer.buffer().iter().all(|&b| b == 0));
}

#[test]
fn write_pixel_clips_what_is_not_visible() {
    let mut writer = console(64, 40, 70, 4);
    writer.write_pixel(1, 1, 255);
    let before = writer.buffer().clone();
    for &(x, y) in &[(64, 0), (0, 40), (64, 40), (69, 5), (70, 5), (usize::MAX, 0), (0, usize::MAX), (usize::MAX, usize::MAX)] {
        writer.write_pixel(x, y, 255);
        assert_eq!(writer.buffer(), &before, "pixel ({}, {})", x, y);
    }
    assert_eq!(writer.x_pos(), BORDER_PADDING);
    assert_eq!(writer.y_pos(), BORDER_PADDING);
}

#[test]
fn clear_blanks_the_frame_and_resets_the_cursor() {
    let mut writer = console(640, 480, 640, 4);
    writer.print("some text\nand more \\c of it");
    assert!(writer.buffer().iter().any(|&b| b != 0));
    let color = writer.current_color();
    writer.clear();
    assert_eq!((writer.x_pos(), writer.y_pos()), (BORDER_PADDING, BORDER_PADDING));
    assert_eq!(writer.scroll_offset(), 0);
    assert_eq!(writer.buffer().len(), 640 * 480 * 4);
    assert!(writer.buffer().iter().all(|&b| b == 0));
    assert_eq!(writer.current_color(), color);
    assert_eq!(color, highlight_color());
}

#[test]
fn print_two_lines() {
    let geometry = info(640, 480, 640, 4);
    let mut writer = console(640, 480, 640, 4);
    writer.print("AB\nCD");
    let second_row = BORDER_PADDING + CHAR_RASTER_HEIGHT + LINE_SPACING;
    let expected = expected_frame(
        &geometry,
        default_color(),
        &[
            ('A', BORDER_PADDING, BORDER_PADDING),
            ('B', BORDER_PADDING + CHAR_RASTER_WIDTH, BORDER_PADDING),
            ('C', BORDER_PADDING, second_row),
            ('D', BORDER_PADDING + CHAR_RASTER_WIDTH, second_row),
        ],
    );
    assert_eq!(writer.buffer(), &expected);
    assert_eq!(second_row, 19);
    assert_eq!(writer.x_pos(), BORDER_PADDING + 2 * CHAR_RASTER_WIDTH);
    assert_eq!(writer.y_pos(), second_row);
}

#[test]
fn unknown_directive_draws_the_backslash_and_drops_the_character() {
    let geometry = info(640, 480, 640, 4);
    let mut writer = console(640, 480, 640, 4);
    writer.print("\\z");
    let expected = expected_frame(&geometry, default_color(), &[('\\', 1, 1)]);
    assert_eq!(writer.buffer(), &expected);
    assert_eq!(writer.x_pos(), BORDER_PADDING + CHAR_RASTER_WIDTH);
    assert_eq!(writer.y_pos(), BORDER_PADDING);
    assert_eq!(writer.current_color(), default_color());

    writer.print("\\\\x");
    let expected = expected_frame(
        &geometry,
        default_color(),
        &[('\\', 1, 1), ('\\', 10, 1), ('x', 19, 1)],
    );
    assert_eq!(writer.buffer(), &expected);
}

#[test]
fn trailing_backslash_has_no_effect() {
    let mut writer = console(640, 480, 640, 4);
    writer.print("\\");
    assert!(writer.buffer().iter().all(|&b| b == 0));
    assert_eq!((writer.x_pos(), writer.y_pos()), (1, 1));
    // The open directive does not reach into the next text.
    writer.print("c");
    let expected = expected_frame(&info(640, 480, 640, 4), default_color(), &[('c', 1, 1)]);
    assert_eq!(writer.buffer(), &expected);
    assert_eq!(writer.current_color(), default_color());
}

#[test]
fn highlight_then_reset_restores_the_default_color() {
    let geometry = info(640, 480, 640, 4);
    let mut writer = console(640, 480, 640, 4);
    writer.print("\\c\\rAB");
    assert_eq!(writer.current_color(), default_color());
    let expected = expected_frame(&geometry, default_color(), &[('A', 1, 1), ('B', 10, 1)]);
    assert_eq!(writer.buffer(), &expected);

    let mut plain = console(640, 480, 640, 4);
    plain.print("AB");
    assert_eq!(writer.buffer(), plain.buffer());
    assert_eq!((writer.x_pos(), writer.y_pos()), (plain.x_pos(), plain.y_pos()));
}

#[test]
fn highlight_colors_the_glyphs_that_follow() {
    let mut writer = console(640, 480, 640, 3);
    writer.print("a\\cb\\rc");
    let geometry = info(640, 480, 640, 3);
    let mut expected = expected_frame(&geometry, default_color(), &[('a', 1, 1), ('c', 19, 1)]);
    let highlighted = expected_frame(&geometry, highlight_color(), &[('b', 10, 1)]);
    for (byte, &other) in expected.iter_mut().zip(highlighted.iter()) {
        *byte |= other;
    }
    assert_eq!(writer.buffer(), &expected);
    assert_eq!(writer.current_color(), default_color());
}

#[test]
fn missing_glyph_is_drawn_as_the_backup_glyph() {
    let geometry = info(640, 480, 640, 4);
    let mut writer = console(640, 480, 640, 4);
    writer.print("a\u{e9}b");
    let expected = expected_frame(
        &geometry,
        default_color(),
        &[('a', 1, 1), (BACKUP_CHAR, 10, 1), ('b', 19, 1)],
    );
    assert_eq!(writer.buffer(), &expected);
}

#[test]
fn tab_advances_four_cells() {
    let mut writer = console(640, 480, 640, 4);
    writer.print("\t");
    assert_eq!(writer.x_pos(), BORDER_PADDING + 4 * CHAR_RASTER_WIDTH);
    assert_eq!(writer.y_pos(), BORDER_PADDING);
    writer.print("x");
    let expected = expected_frame(&info(640, 480, 640, 4), default_color(), &[('x', 37, 1)]);
    assert_eq!(writer.buffer(), &expected);

    let mut spaces = console(640, 480, 640, 4);
    spaces.print("    x");
    assert_eq!(spaces.buffer(), writer.buffer());
    assert_eq!(spaces.x_pos(), writer.x_pos());

    let mut by_char = console(640, 480, 640, 4);
    by_char.write_char('\t');
    by_char.indent_tab();
    assert_eq!(by_char.x_pos(), BORDER_PADDING + 8 * CHAR_RASTER_WIDTH);
}

#[test]
fn tab_wraps_like_printable_characters() {
    // Width 30: after the third space the next cell would reach the right
    // edge, so the fourth space is drawn on the next line.
    let mut writer = console(30, 60, 40, 1);
    writer.print("\t");
    assert_eq!((writer.x_pos(), writer.y_pos()), (10, 19));
}

#[test]
fn line_wraps_before_the_right_edge() {
    // Width 28: the cells at 1 and 10 fit, the cell at 19 would touch the edge.
    let mut writer = console(28, 100, 32, 3);
    writer.print("a");
    assert_eq!((writer.x_pos(), writer.y_pos()), (10, 1));
    writer.print("b");
    assert_eq!((writer.x_pos(), writer.y_pos()), (1, 19));
    writer.print("c");
    assert_eq!((writer.x_pos(), writer.y_pos()), (10, 19));
    let expected =
        expected_frame(&info(28, 100, 32, 3), default_color(), &[('a', 1, 1), ('b', 10, 1), ('c', 1, 19)]);
    assert_eq!(writer.buffer(), &expected);
}

#[test]
fn narrow_frame_clips_the_glyph() {
    let mut writer = console(5, 60, 8, 2);
    writer.print("M");
    // The cell never fits: a new line before and after the glyph.
    assert_eq!((writer.x_pos(), writer.y_pos()), (1, 37));
    let expected = expected_frame(&info(5, 60, 8, 2), default_color(), &[('M', 1, 19)]);
    assert_eq!(writer.buffer(), &expected);
    assert!(writer.buffer().iter().any(|&b| b != 0));
}

#[test]
fn newline_moves_down_one_line_until_the_frame_ends() {
    let mut writer = console(640, 480, 640, 1);
    let mut expected_row = BORDER_PADDING;
    for _ in 0..26 {
        writer.newline();
        expected_row += LINE_HEIGHT;
        assert_eq!(writer.y_pos(), expected_row);
    }
    assert_eq!(expected_row, 469);
    for _ in 0..10 {
        writer.newline();
        assert_eq!(writer.y_pos(), 469);
        assert_eq!(writer.x_pos(), BORDER_PADDING);
    }
}

/// Forward scrolls seen from outside: a marker pixel in the last row moves
/// up by one line with each of them.
fn scrolls_of_line_feeds(height: usize, line_feeds: usize) -> usize {
    let mut writer = console(20, height, 20, 1);
    let marker_row = height - 1;
    writer.write_pixel(0, marker_row, 255);
    let text: String = std::iter::repeat('\n').take(line_feeds).collect();
    writer.print(&text);
    assert_eq!(writer.buffer().len(), 20 * height);
    let lit: Vec<usize> =
        writer.buffer().iter().enumerate().filter(|(_, &b)| b != 0).map(|(i, _)| i).collect();
    assert_eq!(lit.len(), 1, "the marker is still in the frame");
    assert_eq!(lit[0] % 20, 0);
    let row = lit[0] / 20;
    assert_eq!((marker_row - row) % LINE_HEIGHT, 0);
    (marker_row - row) / LINE_HEIGHT
}

#[test]
fn line_feeds_scroll_once_per_line_past_the_frame() {
    // Height 480: the cursor rows are 1, 19, ..., 469; 26 line feeds fit.
    assert_eq!(scrolls_of_line_feeds(480, 0), 0);
    assert_eq!(scrolls_of_line_feeds(480, 26), 0);
    assert_eq!(scrolls_of_line_feeds(480, 27), 1);
    assert_eq!(scrolls_of_line_feeds(480, 30), 4);
    // Rows past the last row: 1 + 30 * 18 - 479 = 62, and 62 / 18 rounds up to 4.
    assert_eq!((1 + 30 * 18 - 479 + 17) / 18, 4);
    // Height 19 holds one text line: every line feed scrolls.
    assert_eq!(scrolls_of_line_feeds(19, 1), 1);
    // Height 37 holds the cursor rows 1 and 19: the second line feed would
    // put the cursor on row 37, one row past the last.
    assert_eq!(scrolls_of_line_feeds(37, 1), 0);
    assert_eq!(scrolls_of_line_feeds(37, 2), 1);
    // Height 38 holds row 37 as well.
    assert_eq!(scrolls_of_line_feeds(38, 2), 0);
    assert_eq!(scrolls_of_line_feeds(38, 3), 1);
    assert_eq!(scrolls_of_line_feeds(100, 9), 4);
}

#[test]
fn scroll_moves_the_frame_up_by_one_line() {
    let mut writer = console(30, 60, 32, 2);
    writer.print("\nq");
    assert_eq!((writer.x_pos(), writer.y_pos()), (10, 19));
    let before = writer.buffer().clone();
    writer.scroll();
    let shift = LINE_HEIGHT * 32 * 2;
    let mut expected = before[shift..].to_vec();
    expected.extend(std::iter::repeat(0u8).take(shift));
    assert_eq!(writer.buffer(), &expected);
    assert_eq!((writer.x_pos(), writer.y_pos()), (10, 1));
    let shown = expected_frame(&info(30, 60, 32, 2), default_color(), &[('q', 1, 1)]);
    assert_eq!(writer.buffer(), &shown);
}

#[test]
fn glyph_at_the_bottom_scrolls_first() {
    // Height 60: cursor rows 1, 19, 37, 55. A glyph at row 55 would pass the
    // bottom edge, so the frame scrolls and the glyph lands on row 37.
    let mut writer = console(100, 60, 100, 1);
    writer.print("a\n\n\n");
    assert_eq!(writer.y_pos(), 55);
    writer.print("b");
    assert_eq!((writer.x_pos(), writer.y_pos()), (10, 37));
    let expected = expected_frame(&info(100, 60, 100, 1), default_color(), &[('b', 1, 37)]);
    assert_eq!(writer.buffer(), &expected);
}

#[test]
fn carriage_return_goes_back_to_the_first_column() {
    let mut writer = console(640, 480, 640, 4);
    writer.print("abc\n");
    writer.print("de");
    assert_eq!((writer.x_pos(), writer.y_pos()), (19, 19));
    writer.write_char('\r');
    assert_eq!((writer.x_pos(), writer.y_pos()), (1, 19));
    writer.print("xy\rz");
    assert_eq!((writer.x_pos(), writer.y_pos()), (10, 19));
    writer.carriage_return();
    assert_eq!((writer.x_pos(), writer.y_pos()), (1, 19));
}

#[test]
fn write_str_knows_no_directives() {
    let geometry = info(640, 480, 640, 4);
    let mut writer = console(640, 480, 640, 4);
    writer.write_str("\\c1\n2");
    assert_eq!(writer.current_color(), default_color());
    let expected = expected_frame(
        &geometry,
        default_color(),
        &[('\\', 1, 1), ('c', 10, 1), ('1', 19, 1), ('2', 1, 19)],
    );
    assert_eq!(writer.buffer(), &expected);
}

#[test]
fn write_rendered_char_keeps_the_cursor() {
    let mut writer = console(640, 480, 640, 4);
    let glyph = rasterize('W').unwrap();
    writer.write_rendered_char(&glyph);
    assert_eq!((writer.x_pos(), writer.y_pos()), (1, 1));
    let expected = expected_frame(&info(640, 480, 640, 4), default_color(), &[('W', 1, 1)]);
    assert_eq!(writer.buffer(), &expected);
    writer.write_glyph(&glyph);
    assert_eq!((writer.x_pos(), writer.y_pos()), (10, 1));
    assert_eq!(writer.buffer(), &expected);
}

#[test]
fn write_glyph_draws_any_raster() {
    let mut writer = console(19, 40, 20, 1);
    let glyph = Glyph { rows: vec![vec![255, 0, 255], vec![], vec![10; 30]] };
    writer.write_glyph(&glyph);
    let mut expected = vec![0u8; 20 * 40];
    expected[20 + 1] = 255;
    expected[20 + 3] = 255;
    for x in 1..19 {
        expected[3 * 20 + x] = 10;
    }
    assert_eq!(writer.buffer(), &expected);
    // The next cell would reach the right edge.
    assert_eq!((writer.x_pos(), writer.y_pos()), (1, 19));
}

#[test]
fn apply_carries_out_each_directive() {
    let mut writer = console(640, 480, 640, 4);
    writer.apply(Directive::Pending);
    assert_eq!((writer.x_pos(), writer.y_pos()), (1, 1));
    assert_eq!(writer.current_color(), default_color());
    writer.apply(Directive::Highlight);
    assert_eq!(writer.current_color(), highlight_color());
    writer.apply(Directive::Reset);
    assert_eq!(writer.current_color(), default_color());
    writer.apply(Directive::Newline);
    assert_eq!((writer.x_pos(), writer.y_pos()), (1, 19));
    writer.apply(Directive::Tab);
    assert_eq!((writer.x_pos(), writer.y_pos()), (37, 19));
    writer.apply(Directive::Render('k'));
    assert_eq!((writer.x_pos(), writer.y_pos()), (46, 19));
    writer.apply(Directive::Render('\n'));
    assert_eq!((writer.x_pos(), writer.y_pos()), (1, 37));
    let expected = expected_frame(&info(640, 480, 640, 4), default_color(), &[('k', 37, 19)]);
    assert_eq!(writer.buffer(), &expected);
}

#[test]
fn print_in_two_calls_equals_one_call() {
    let mut once = console(200, 100, 200, 3);
    once.print("ab\\cc\nd\\ze\tf\\rg");
    let mut twice = console(200, 100, 200, 3);
    twice.print("ab\\cc\nd");
    twice.print("\\ze\tf\\rg");
    assert_eq!(once.buffer(), twice.buffer());
    assert_eq!((once.x_pos(), once.y_pos()), (twice.x_pos(), twice.y_pos()));
    assert_eq!(once.current_color(), twice.current_color());
    // Cut inside a directive, the backslash is lost and `c` is drawn.
    let mut cut = console(200, 100, 200, 3);
    cut.print("ab\\");
    cut.print("cc\nd\\ze\tf\\rg");
    assert_ne!(once.buffer(), cut.buffer());
}

#[test]
fn view_scrolling_finds_nothing_beyond_the_frame() {
    let mut writer = console(100, 60, 100, 3);
    writer.print("history\nis not kept\n\n\nscrolled");
    let before = writer.buffer().clone();
    let cursor = (writer.x_pos(), writer.y_pos());
    writer.scroll_up();
    writer.scroll_down();
    writer.redraw();
    writer.scroll_down();
    writer.scroll_up();
    assert_eq!(writer.buffer(), &before);
    assert_eq!(writer.scroll_offset(), 0);
    assert_eq!((writer.x_pos(), writer.y_pos()), cursor);
}

#[test]
fn into_buffer_gives_the_frame_back() {
    let mut writer = console(30, 30, 30, 1);
    writer.write_pixel(2, 0, 9);
    let frame = writer.into_buffer();
    assert_eq!(frame.len(), 900);
    assert_eq!(frame[2], 9);
}

#[test]
fn many_lines_keep_the_frame_size() {
    let mut writer = console(640, 480, 640, 4);
    for i in 0..45 {
        writer.print("How far\nline of text\n\\chighlighted\\b \tIndented Text");
        assert_eq!(writer.buffer().len(), 640 * 480 * 4, "round {}", i);
        assert!(writer.x_pos() >= 1 && writer.x_pos() < 640);
        assert!(writer.y_pos() >= 1 && writer.y_pos() < 480);
        assert_eq!((writer.y_pos() - 1) % LINE_HEIGHT, 0);
    }
}
