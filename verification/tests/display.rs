use shinobi::display::{
    can_render, decode_image, ramp_glyph, ramp_index, render_ascii, render_grid, scaled_height,
    PixelGrid, Rgb, MAX_SIDE,
};

fn grid(width: u32, height: u32, pixels: &[(u8, u8, u8)]) -> PixelGrid {
    let mut rgba = Vec::new();
    for (r, g, b) in pixels {
        rgba.extend_from_slice(&[*r, *g, *b, 255]);
    }
    PixelGrid::from_rgba(width, height, rgba).expect("four bytes to a pixel")
}

const BLACK: (u8, u8, u8) = (0, 0, 0);
const WHITE: (u8, u8, u8) = (255, 255, 255);

#[test]
fn black_is_darkest_and_white_is_blank() {
    assert_eq!(ramp_index(0, 0, 0), 0);
    assert_eq!(ramp_index(255, 255, 255), 9);
    assert_eq!(ramp_glyph(0), '@');
    assert_eq!(ramp_glyph(9), ' ');
}

#[test]
fn ramp_index_follows_the_weighted_luminance() {
    // 299 * 255 = 76245 thousandths, times 9 over 255000 is 2.69
    assert_eq!(ramp_index(255, 0, 0), 2);
    // 587 * 255 = 149685 thousandths, times 9 over 255000 is 5.28
    assert_eq!(ramp_index(0, 255, 0), 5);
    // 114 * 255 = 29070 thousandths, times 9 over 255000 is 1.02
    assert_eq!(ramp_index(0, 0, 255), 1);
    assert_eq!(ramp_index(128, 128, 128), 4);
    assert_eq!(ramp_index(254, 254, 254), 8);
}

#[test]
fn ramp_glyphs_run_from_dense_to_blank() {
    let glyphs: String = (0..10).map(ramp_glyph).collect();
    assert_eq!(glyphs, "@%#*+=-:. ");
}

#[test]
fn ramp_never_steps_back_as_grey_gets_lighter() {
    let mut last = 0;
    for v in 0..=255u8 {
        let idx = ramp_index(v, v, v);
        assert!(idx >= last);
        assert!(idx < 10);
        last = idx;
    }
    assert_eq!(last, 9);
}

#[test]
fn scaled_height_halves_the_proportional_height() {
    assert_eq!(scaled_height(100, 100, 60), 30);
    assert_eq!(scaled_height(60, 120, 60), 60);
    assert_eq!(scaled_height(200, 100, 60), 15);
    // 3 * 60 / (2 * 8) = 11.25
    assert_eq!(scaled_height(8, 3, 60), 11);
    // 5 * 3 / (2 * 3) = 2.5, and a half rounds up
    assert_eq!(scaled_height(3, 5, 3), 3);
}

#[test]
fn scaled_height_is_at_least_one_and_at_most_the_largest_number() {
    assert_eq!(scaled_height(1000, 1, 10), 1);
    assert_eq!(scaled_height(5, 0, 60), 1);
    assert_eq!(scaled_height(1, u32::MAX, 60), u32::MAX);
}

#[test]
fn grid_needs_four_bytes_to_a_pixel() {
    assert!(PixelGrid::from_rgba(2, 2, vec![0; 16]).is_some());
    assert!(PixelGrid::from_rgba(2, 2, vec![0; 15]).is_none());
    assert!(PixelGrid::from_rgba(2, 2, vec![0; 17]).is_none());
    assert!(PixelGrid::from_rgba(0, 7, Vec::new()).is_some());
}

#[test]
fn pixel_reads_the_colour_at_a_column_and_row() {
    let g = grid(2, 2, &[(1, 2, 3), (4, 5, 6), (7, 8, 9), (10, 11, 12)]);
    assert_eq!(g.pixel(0, 0), Rgb { r: 1, g: 2, b: 3 });
    assert_eq!(g.pixel(1, 0), Rgb { r: 4, g: 5, b: 6 });
    assert_eq!(g.pixel(0, 1), Rgb { r: 7, g: 8, b: 9 });
    assert_eq!(g.pixel(1, 1), Rgb { r: 10, g: 11, b: 12 });
}

#[test]
fn plain_rendering_is_one_glyph_per_pixel_and_one_line_per_row() {
    let g = grid(3, 2, &[BLACK, (128, 128, 128), WHITE, WHITE, (255, 0, 0), BLACK]);
    assert_eq!(render_grid(&g, false), "@+ \n #@\n");
}

#[test]
fn rendering_of_no_rows_is_empty() {
    let g = grid(3, 0, &[]);
    assert_eq!(render_grid(&g, false), "");
    let h = grid(0, 2, &[]);
    assert_eq!(render_grid(&h, false), "\n\n");
}

fn is_basic_code(style: &str) -> bool {
    let b = style.as_bytes();
    b.len() == 2 && (b[0] == b'3' || b[0] == b'9') && (b'0'..=b'7').contains(&b[1])
}

// the cells of one line of coloured text, each as (style, glyph); a bare glyph has no style
fn cells(line: &str) -> Vec<(Option<String>, char)> {
    let mut out = Vec::new();
    let mut rest = line;
    while let Some(c) = rest.chars().next() {
        if c == '\u{1b}' {
            let end = rest.find('m').expect("a style ends with m");
            let style = rest[2..end].to_string();
            let glyph = rest[end + 1..].chars().next().expect("a glyph");
            let after = &rest[end + 1 + glyph.len_utf8()..];
            assert!(after.starts_with("\u{1b}[0m"));
            out.push((Some(style), glyph));
            rest = &after[4..];
        } else {
            out.push((None, c));
            rest = &rest[c.len_utf8()..];
        }
    }
    out
}

#[test]
fn coloured_rendering_wraps_each_glyph_in_the_colour_of_its_pixel() {
    colored::control::set_override(true);
    let g = grid(3, 1, &[BLACK, (200, 30, 7), WHITE]);
    let text = render_grid(&g, true);
    colored::control::unset_override();
    assert!(text.ends_with('\n'));
    let found = cells(text.trim_end_matches('\n'));
    assert_eq!(found.len(), 3);
    let glyphs: String = found.iter().map(|(_, glyph)| *glyph).collect();
    assert_eq!(format!("{glyphs}\n"), render_grid(&g, false));
    let colours = ["38;2;0;0;0", "38;2;200;30;7", "38;2;255;255;255"];
    for ((style, _), colour) in found.iter().zip(colours) {
        let style = style.as_ref().expect("colour is on");
        assert!(style == colour || is_basic_code(style), "{style}");
    }
}

#[test]
fn coloured_rendering_is_bare_when_colour_is_off() {
    colored::control::set_override(false);
    let g = grid(2, 1, &[BLACK, WHITE]);
    let text = render_grid(&g, true);
    colored::control::unset_override();
    assert_eq!(text, "@ \n");
}

#[test]
fn ascii_art_of_an_image_without_pixels_is_empty() {
    let g = grid(0, 0, &[]);
    assert_eq!(render_ascii(&g, 60, false), "");
    let one = grid(1, 1, &[BLACK]);
    assert_eq!(render_ascii(&one, 0, false), "");
}

#[test]
fn ascii_art_resizes_before_it_maps_pixels() {
    // left half black, right half white, four columns and two rows
    let g = grid(4, 2, &[BLACK, BLACK, WHITE, WHITE, BLACK, BLACK, WHITE, WHITE]);
    assert!(can_render(&g, 2));
    assert_eq!(scaled_height(4, 2, 2), 1);
    let text = render_ascii(&g, 2, false);
    let glyphs: Vec<char> = text.chars().collect();
    assert_eq!(glyphs.len(), 3);
    assert_eq!(glyphs[2], '\n');
    let ramp = "@%#*+=-:. ";
    let left = ramp.find(glyphs[0]).expect("a glyph of the ramp");
    let right = ramp.find(glyphs[1]).expect("a glyph of the ramp");
    // the filter blends neighbours, so the halves are dark and light, not black and white
    assert!(left < 5 && right >= 5);
}

#[test]
fn ascii_art_of_a_uniform_image_is_uniform() {
    let g = grid(6, 6, &[WHITE; 36]);
    assert!(can_render(&g, 4));
    assert_eq!(render_ascii(&g, 4, false), "    \n    \n");
}

#[test]
fn huge_renderings_are_refused_by_the_size_check() {
    let g = grid(1, 1, &[BLACK]);
    assert!(can_render(&g, 60));
    let tall = PixelGrid { width: 1, height: u32::MAX, rgba: Vec::new() };
    assert!(!can_render(&tall, u32::MAX));
}

#[test]
fn no_side_may_be_longer_than_the_longest_side() {
    assert_eq!(MAX_SIDE, 65536);
    let wide = PixelGrid { width: MAX_SIDE, height: 1, rgba: Vec::new() };
    assert!(can_render(&wide, 60));
    assert!(can_render(&wide, MAX_SIDE));
    assert!(!can_render(&wide, MAX_SIDE + 1));
    let wider = PixelGrid { width: MAX_SIDE + 1, height: 1, rgba: Vec::new() };
    assert!(!can_render(&wider, 60));
    let high = PixelGrid { width: 1, height: MAX_SIDE + 1, rgba: Vec::new() };
    assert!(!can_render(&high, 1));
    // one column of 4000 rows at 60 columns wide would take 120000 rows
    let narrow = PixelGrid { width: 1, height: 4000, rgba: Vec::new() };
    assert!(!can_render(&narrow, 60));
    // a zero size is drawn as no text at all, whatever the other sizes
    let empty = PixelGrid { width: 0, height: u32::MAX, rgba: Vec::new() };
    assert!(can_render(&empty, u32::MAX));
}

#[test]
fn decoding_a_png_gives_its_pixels() {
    let mut img = image::RgbaImage::new(2, 1);
    img.put_pixel(0, 0, image::Rgba([10, 20, 30, 255]));
    img.put_pixel(1, 0, image::Rgba([200, 210, 220, 255]));
    let mut bytes = std::io::Cursor::new(Vec::new());
    image::DynamicImage::ImageRgba8(img)
        .write_to(&mut bytes, image::ImageOutputFormat::Png)
        .expect("encodes");
    let g = decode_image(bytes.get_ref()).expect("decodes");
    assert_eq!((g.width, g.height), (2, 1));
    assert_eq!(g.rgba, vec![10, 20, 30, 255, 200, 210, 220, 255]);
}

#[test]
fn decoding_bytes_that_are_no_image_gives_nothing() {
    assert!(decode_image(b"not an image at all").is_none());
    assert!(decode_image(&[]).is_none());
}

#[test]
fn widest_image_is_stretched_without_losing_a_pixel() {
    // two columns wider than the image, at the longest side there is
    let g = grid(MAX_SIDE - 2, 1, &vec![WHITE; (MAX_SIDE - 2) as usize]);
    assert!(can_render(&g, MAX_SIDE));
    let text = render_ascii(&g, MAX_SIDE, false);
    assert_eq!(text.len(), MAX_SIDE as usize + 1);
    assert!(text.trim_end_matches('\n').chars().all(|c| c == ' '));
    // and squeezed by two columns
    let wide = grid(MAX_SIDE, 1, &vec![BLACK; MAX_SIDE as usize]);
    assert!(can_render(&wide, MAX_SIDE - 2));
    let squeezed = render_ascii(&wide, MAX_SIDE - 2, false);
    assert_eq!(squeezed.len(), MAX_SIDE as usize - 1);
    assert!(squeezed.trim_end_matches('\n').chars().all(|c| c == '@'));
}
