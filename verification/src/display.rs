//! Terminal rendering: token artwork as rows of glyphs chosen by luminance.

use vstd::prelude::*;
use vstd::string::StrSliceExecFns;
use vstd::string::StringExecFns;
use crate::address::base58_text;
use crate::jutsu::dossier::{assess, is_assessment_of, Assessment};
use crate::model::{DossierReport, UnmaskReport};
use crate::text::decimal;

verus! {

/// Number of glyphs on the luminance ramp.
pub const RAMP_LEN: usize = 10;

/// The ramp, from the glyph for the darkest pixels to the blank for the
/// lightest.
pub open spec fn ramp() -> Seq<char> {
    seq!['@', '%', '#', '*', '+', '=', '-', ':', '.', ' ']
}

/// Weighted luminance of a pixel in thousandths: `299 R + 587 G + 114 B`.
pub open spec fn luminance_milli(r: u8, g: u8, b: u8) -> int {
    299 * (r as int) + 587 * (g as int) + 114 * (b as int)
}

/// Position on the ramp of a luminance given in thousandths: the luminance
/// scaled linearly from `0..=255` onto `0..=9`, rounded down.
pub open spec fn ramp_position(lum_milli: int) -> int {
    (lum_milli * 9) / 255000
}

/// The glyph that stands for a pixel.
pub open spec fn glyph_of(r: u8, g: u8, b: u8) -> char {
    ramp()[ramp_position(luminance_milli(r, g, b))]
}

/// Ramp position of a pixel, from the darkest glyph (0) to the blank (9).
pub fn ramp_index(r: u8, g: u8, b: u8) -> (idx: usize)
    ensures
        idx as int == ramp_position(luminance_milli(r, g, b)),
        idx < RAMP_LEN,
{
    let lum: u32 = 299 * (r as u32) + 587 * (g as u32) + 114 * (b as u32);
    ((lum * 9) / 255000) as usize
}

/// The glyph at a position of the ramp.
pub fn ramp_glyph(idx: usize) -> (glyph: char)
    requires
        idx < RAMP_LEN,
    ensures
        glyph == ramp()[idx as int],
{
    match idx {
        0 => '@',
        1 => '%',
        2 => '#',
        3 => '*',
        4 => '+',
        5 => '=',
        6 => '-',
        7 => ':',
        8 => '.',
        _ => ' ',
    }
}

/// The mapping from luminance to the ramp is monotonic: of two pixels,
/// the darker one never stands later on the ramp than the lighter one.
pub proof fn lemma_darker_is_earlier(r1: u8, g1: u8, b1: u8, r2: u8, g2: u8, b2: u8)
    requires
        luminance_milli(r1, g1, b1) <= luminance_milli(r2, g2, b2),
    ensures
        ramp_position(luminance_milli(r1, g1, b1)) <= ramp_position(luminance_milli(r2, g2, b2)),
        0 <= ramp_position(luminance_milli(r1, g1, b1)),
        ramp_position(luminance_milli(r2, g2, b2)) < RAMP_LEN,
{
}

/// Where a glyph stands on the ramp: the first position that holds it.
pub open spec fn position_on_ramp(glyph: char) -> int {
    choose|i: int| 0 <= i < ramp().len() && ramp()[i] == glyph
}

/// Of two pixels, the darker one never gets a glyph that stands later on
/// the ramp, from dense to sparse, than the glyph of the lighter one.
pub proof fn lemma_darker_glyph_is_denser(r1: u8, g1: u8, b1: u8, r2: u8, g2: u8, b2: u8)
    requires
        luminance_milli(r1, g1, b1) <= luminance_milli(r2, g2, b2),
    ensures
        position_on_ramp(glyph_of(r1, g1, b1)) <= position_on_ramp(glyph_of(r2, g2, b2)),
        position_on_ramp(glyph_of(r1, g1, b1)) == ramp_position(luminance_milli(r1, g1, b1)),
        position_on_ramp(glyph_of(r2, g2, b2)) == ramp_position(luminance_milli(r2, g2, b2)),
{
    lemma_position_of_glyph(ramp_position(luminance_milli(r1, g1, b1)));
    lemma_position_of_glyph(ramp_position(luminance_milli(r2, g2, b2)));
}

proof fn lemma_position_of_glyph(i: int)
    requires
        0 <= i < RAMP_LEN,
    ensures
        position_on_ramp(ramp()[i]) == i,
{
    let glyph = ramp()[i];
    let found = position_on_ramp(glyph);
    assert(0 <= found < ramp().len() && ramp()[found] == glyph);
    assert(forall|a: int, b: int|
        0 <= a < b < 10 ==> #[trigger] ramp()[a] != #[trigger] ramp()[b]);
}

/// The number of rows an image of `width` by `height` pixels takes when
/// it is drawn `columns` glyphs wide: half of what keeps its proportions,
/// since a glyph is about twice as tall as it is wide, rounded to the nearest
/// whole number (a half rounds up), and at least one.
pub open spec fn scaled_rows(width: u32, height: u32, columns: u32) -> int {
    let rounded = (height as int * columns as int + width as int) / (2 * width as int);
    if rounded < 1 {
        1
    } else if rounded > u32::MAX {
        u32::MAX as int
    } else {
        rounded
    }
}

/// The number of rows an image takes when it is drawn `columns` glyphs wide.
pub fn scaled_height(width: u32, height: u32, columns: u32) -> (rows: u32)
    requires
        width > 0,
    ensures
        rows as int == scaled_rows(width, height, columns),
        rows >= 1,
{
    assert(height as int * columns as int <= 0xffff_ffff * 0xffff_ffff) by (nonlinear_arith)
        requires
            0 <= height <= 0xffff_ffff,
            0 <= columns <= 0xffff_ffff,
    ;
    let doubled: u128 = (height as u128) * (columns as u128) + (width as u128);
    let rounded: u128 = doubled / (2 * (width as u128));
    if rounded < 1 {
        1
    } else if rounded > u32::MAX as u128 {
        u32::MAX
    } else {
        rounded as u32
    }
}

/// An image as rows of pixels, four bytes to a pixel: red, green, blue
/// and alpha.
#[derive(Debug)]
pub struct PixelGrid {
    pub width: u32,
    pub height: u32,
    pub rgba: Vec<u8>,
}

/// An image as a value: its size and the bytes of its pixels.
pub struct Picture {
    pub width: u32,
    pub height: u32,
    pub rgba: Seq<u8>,
}

impl Picture {
    /// The colour of the pixel in column `x` of row `y`.
    pub open spec fn color_at(self, x: int, y: int) -> Rgb {
        let at = 4 * (y * self.width + x);
        Rgb { r: self.rgba[at], g: self.rgba[at + 1], b: self.rgba[at + 2] }
    }
}

impl View for PixelGrid {
    type V = Picture;

    open spec fn view(&self) -> Picture {
        Picture { width: self.width, height: self.height, rgba: self.rgba@ }
    }
}

/// One pixel's colour.
#[derive(Debug, Clone, Copy, PartialEq, Eq, Structural)]
pub struct Rgb {
    pub r: u8,
    pub g: u8,
    pub b: u8,
}

/// The number of bytes that hold an image of `width` by `height` pixels.
pub open spec fn byte_len(width: u32, height: u32) -> int {
    4 * (width as int * height as int)
}

impl PixelGrid {
    /// The bytes are exactly those of `width * height` pixels.
    pub open spec fn wf(&self) -> bool {
        self.rgba@.len() == byte_len(self.width, self.height)
    }

    /// An image of the given size over the given bytes, where they are
    /// the bytes of that many pixels.
    pub fn from_rgba(width: u32, height: u32, rgba: Vec<u8>) -> (grid: Option<PixelGrid>)
        ensures
            grid is Some <==> rgba@.len() == byte_len(width, height),
            grid matches Some(g) ==> g.width == width && g.height == height && g.rgba@ == rgba@
                && g.wf(),
    {
        assert(width as int * height as int <= 0xffff_ffff * 0xffff_ffff) by (nonlinear_arith)
            requires
                0 <= width <= 0xffff_ffff,
                0 <= height <= 0xffff_ffff,
        ;
        let wanted: u128 = 4 * ((width as u128) * (height as u128));
        if rgba.len() as u128 == wanted {
            Some(PixelGrid { width, height, rgba })
        } else {
            None
        }
    }

    /// The colour of the pixel in column `x` of row `y`.
    pub fn pixel(&self, x: u32, y: u32) -> (color: Rgb)
        requires
            self.wf(),
            x < self.width,
            y < self.height,
        ensures
            color == self@.color_at(x as int, y as int),
    {
        let ghost (xi, yi, w, h) = (x as int, y as int, self.width as int, self.height as int);
        assert(0 <= yi * w && yi * w + xi < w * h) by (nonlinear_arith)
            requires
                0 <= xi < w,
                0 <= yi < h,
        ;
        let len = self.rgba.len();
        assert(4 * (w * h) == len);
        let at: usize = 4 * ((y as usize) * (self.width as usize) + (x as usize));
        Rgb { r: self.rgba[at], g: self.rgba[at + 1], b: self.rgba[at + 2] }
    }
}

/// The sequence that ends a painted cell.
pub open spec fn reset_sequence() -> Seq<char> {
    seq!['\u{1b}', '[', '0', 'm']
}

/// The style that asks a terminal for a colour by its red, green and
/// blue: `38;2;R;G;B`, each number in decimal.
pub open spec fn truecolor_style(color: Rgb) -> Seq<char> {
    "38;2;"@ + decimal(color.r as nat) + ";"@ + decimal(color.g as nat) + ";"@ + decimal(
        color.b as nat,
    )
}

/// The style of one of the sixteen basic colours: `30` to `37`, or `90`
/// to `97`.
pub open spec fn is_basic_style(style: Seq<char>) -> bool {
    &&& style.len() == 2
    &&& (style[0] == '3' || style[0] == '9')
    &&& 0x30 <= style[1] as u32 <= 0x37
}

/// A glyph between the sequence that sets a style and the sequence that
/// resets it.
pub open spec fn styled(glyph: char, style: Seq<char>) -> Seq<char> {
    seq!['\u{1b}', '['] + style + seq!['m', glyph] + reset_sequence()
}

/// `cell` shows `glyph` in `color`, as far as the terminal goes along:
/// in that very colour, in one of the sixteen basic colours, or bare.
pub open spec fn is_painted(cell: Seq<char>, glyph: char, color: Rgb) -> bool {
    ||| cell == seq![glyph]
    ||| cell == styled(glyph, truecolor_style(color))
    ||| exists|style: Seq<char>| is_basic_style(style) && cell == styled(glyph, style)
}

/// The glyph that a cell shows: the only character of a bare cell, and
/// the character before the reset sequence of a painted one.
pub open spec fn shown_glyph(cell: Seq<char>) -> char {
    if cell.len() == 1 {
        cell[0]
    } else {
        cell[cell.len() - 5]
    }
}

/// The cells of a row, one after the other.
pub open spec fn joined(cells: Seq<Seq<char>>) -> Seq<char>
    decreases cells.len(),
{
    if cells.len() == 0 {
        Seq::empty()
    } else {
        joined(cells.drop_last()) + cells.last()
    }
}

/// The rows of a picture as text: each row's cells, then a line feed.
pub open spec fn rows_text(rows: Seq<Seq<Seq<char>>>) -> Seq<char>
    decreases rows.len(),
{
    if rows.len() == 0 {
        Seq::empty()
    } else {
        rows_text(rows.drop_last()) + joined(rows.last()) + seq!['\n']
    }
}

/// The glyph that stands for the pixel in column `x` of row `y`.
pub open spec fn glyph_at(grid: Picture, x: int, y: int) -> char {
    let color = grid.color_at(x, y);
    glyph_of(color.r, color.g, color.b)
}

/// The picture of an image in bare glyphs: one cell of one glyph for
/// each pixel.
pub open spec fn plain_rows(grid: Picture) -> Seq<Seq<Seq<char>>> {
    Seq::new(
        grid.height as nat,
        |y: int| Seq::new(grid.width as nat, |x: int| seq![glyph_at(grid, x, y)]),
    )
}

/// `rows` is a picture of an image in colour: one cell for each pixel,
/// which shows the pixel's glyph in the pixel's colour.
pub open spec fn is_painting_of(rows: Seq<Seq<Seq<char>>>, grid: Picture) -> bool {
    &&& rows.len() == grid.height
    &&& forall|y: int| 0 <= y < rows.len() ==> (#[trigger] rows[y]).len() == grid.width
    &&& forall|x: int, y: int|
        0 <= y < grid.height && 0 <= x < grid.width ==> is_painted(
            #[trigger] rows[y][x],
            glyph_at(grid, x, y),
            grid.color_at(x, y),
        )
}

/// `text` is a picture of an image in colour.
pub open spec fn is_painted_text(text: Seq<char>, grid: Picture) -> bool {
    exists|rows: Seq<Seq<Seq<char>>>| is_painting_of(rows, grid) && text == rows_text(rows)
}

/// `Colorize::truecolor` of the crate `colored`, written out: the glyph in
/// the given colour. Whether and how the colour is written depends on the
/// terminal and the environment. Where colours are off, the glyph stands
/// alone. Where they are on, the glyph stands between a style and the reset
/// sequence: the style is `38;2;R;G;B` where the terminal is known to take
/// it, and else that of the nearest of the sixteen basic colours.
#[verifier::external_body]
fn paint(glyph: char, color: Rgb) -> (cell: String)
    ensures
        is_painted(cell@, glyph, color),
{
    let bare = glyph.to_string();
    format!("{}", colored::Colorize::truecolor(bare.as_str(), color.r, color.g, color.b))
}

/// The glyph at a position of the ramp, as text.
fn ramp_text(idx: usize) -> (text: &'static str)
    requires
        idx < RAMP_LEN,
    ensures
        text@ == seq![ramp()[idx as int]],
{
    proof {
        reveal_strlit("@");
        reveal_strlit("%");
        reveal_strlit("#");
        reveal_strlit("*");
        reveal_strlit("+");
        reveal_strlit("=");
        reveal_strlit("-");
        reveal_strlit(":");
        reveal_strlit(".");
        reveal_strlit(" ");
    }
    let text = match idx {
        0 => "@",
        1 => "%",
        2 => "#",
        3 => "*",
        4 => "+",
        5 => "=",
        6 => "-",
        7 => ":",
        8 => ".",
        _ => " ",
    };
    assert(text@ =~= seq![ramp()[idx as int]]);
    text
}

/// Draws an image, one glyph to a pixel and one line to a row of pixels.
/// In colour, each glyph is written in the colour of its pixel.
pub fn render_grid(grid: &PixelGrid, colorize: bool) -> (text: String)
    requires
        grid.wf(),
    ensures
        !colorize ==> text@ == rows_text(plain_rows(grid@)),
        colorize ==> is_painted_text(text@, grid@),
{
    let mut out = String::new();
    let ghost mut rows: Seq<Seq<Seq<char>>> = Seq::empty();
    let mut y: u32 = 0;
    while y < grid.height
        invariant
            y <= grid.height,
            grid.wf(),
            out@ == rows_text(rows),
            rows.len() == y,
            forall|j: int| 0 <= j < rows.len() ==> (#[trigger] rows[j]).len() == grid.width,
            forall|i: int, j: int|
                0 <= j < y && 0 <= i < grid.width ==> if colorize {
                    is_painted(#[trigger] rows[j][i], glyph_at(grid@, i, j), grid@.color_at(i, j))
                } else {
                    rows[j][i] == seq![glyph_at(grid@, i, j)]
                },
        decreases grid.height - y,
    {
        let ghost mut row: Seq<Seq<char>> = Seq::empty();
        let ghost done = out@;
        let mut x: u32 = 0;
        assert(done + joined(row) =~= done);
        while x < grid.width
            invariant
                x <= grid.width,
                y < grid.height,
                grid.wf(),
                out@ == done + joined(row),
                row.len() == x,
                forall|i: int|
                    0 <= i < x ==> if colorize {
                        is_painted(
                            #[trigger] row[i],
                            glyph_at(grid@, i, y as int),
                            grid@.color_at(i, y as int),
                        )
                    } else {
                        row[i] == seq![glyph_at(grid@, i, y as int)]
                    },
            decreases grid.width - x,
        {
            let color = grid.pixel(x, y);
            let idx = ramp_index(color.r, color.g, color.b);
            let ghost before = row;
            if colorize {
                let cell = paint(ramp_glyph(idx), color);
                out.append(cell.as_str());
                proof {
                    row = row.push(cell@);
                }
            } else {
                out.append(ramp_text(idx));
                proof {
                    row = row.push(seq![glyph_at(grid@, x as int, y as int)]);
                }
            }
            proof {
                assert(row.drop_last() =~= before);
                assert(out@ =~= done + joined(row));
            }
            x += 1;
        }
        out.append("\n");
        proof {
            reveal_strlit("\n");
            let ghost earlier = rows;
            rows = rows.push(row);
            assert(rows.drop_last() =~= earlier);
            assert("\n"@ =~= seq!['\n']);
            assert(out@ =~= rows_text(rows));
        }
        y += 1;
    }
    proof {
        if colorize {
            assert(is_painting_of(rows, grid@));
        } else {
            let plain = plain_rows(grid@);
            assert(rows.len() == plain.len());
            assert forall|j: int| 0 <= j < rows.len() implies rows[j] == plain[j] by {
                assert(rows[j].len() == plain[j].len());
                assert forall|i: int| 0 <= i < rows[j].len() implies rows[j][i] == plain[j][i] by {
                    assert(rows[j][i] == seq![glyph_at(grid@, i, j)]);
                }
                assert(rows[j] =~= plain[j]);
            }
            assert(rows =~= plain);
        }
    }
    out
}

/// A picture in colour shows the glyphs of the picture in bare glyphs:
/// take the colour sequences away, and the two are the same.
pub proof fn lemma_painting_shows_plain_glyphs(rows: Seq<Seq<Seq<char>>>, grid: Picture)
    requires
        is_painting_of(rows, grid),
    ensures
        rows.len() == plain_rows(grid).len(),
        forall|y: int| 0 <= y < rows.len() ==> (#[trigger] rows[y]).len() == plain_rows(grid)[y].len(),
        forall|x: int, y: int|
            0 <= y < grid.height && 0 <= x < grid.width ==> seq![
                shown_glyph(#[trigger] rows[y][x]),
            ] == plain_rows(grid)[y][x],
{
    assert forall|x: int, y: int| 0 <= y < grid.height && 0 <= x < grid.width implies seq![
        shown_glyph(#[trigger] rows[y][x]),
    ] == plain_rows(grid)[y][x] by {
        let cell = rows[y][x];
        let glyph = glyph_at(grid, x, y);
        assert(is_painted(cell, glyph, grid.color_at(x, y)));
        lemma_painted_shows(cell, glyph, grid.color_at(x, y));
    }
}

proof fn lemma_painted_shows(cell: Seq<char>, glyph: char, color: Rgb)
    requires
        is_painted(cell, glyph, color),
    ensures
        shown_glyph(cell) == glyph,
{
    if cell == seq![glyph] {
    } else if cell == styled(glyph, truecolor_style(color)) {
        lemma_styled_shows(glyph, truecolor_style(color));
    } else {
        let style = choose|style: Seq<char>| is_basic_style(style) && cell == styled(glyph, style);
        lemma_styled_shows(glyph, style);
    }
}

proof fn lemma_styled_shows(glyph: char, style: Seq<char>)
    ensures
        styled(glyph, style).len() == style.len() + 8,
        shown_glyph(styled(glyph, style)) == glyph,
{
}

/// The pixels that `DynamicImage::resize_exact` of the crate `image`
/// gives, with its triangle filter, for an image of `width` by `height`
/// pixels and a new size.
pub uninterp spec fn resampled(
    width: u32,
    height: u32,
    rgba: Seq<u8>,
    new_width: u32,
    new_height: u32,
) -> Seq<u8>;

/// The longest side of an image that is resized, before and after. The
/// resize works out positions in single precision, which stops telling
/// neighbouring pixels apart far above this.
pub const MAX_SIDE: u32 = 65536;

/// An image can be drawn `columns` glyphs wide: no side is longer than
/// `MAX_SIDE`, before or after the resize, and what is allocated on the way
/// can be addressed.
pub open spec fn renderable(img: Picture, columns: u32) -> bool {
    let rows = scaled_rows(img.width, img.height, columns);
    img.width > 0 && img.height > 0 && columns > 0 ==> {
        &&& img.width <= MAX_SIDE
        &&& img.height <= MAX_SIDE
        &&& columns <= MAX_SIDE
        &&& rows <= MAX_SIDE
        &&& 16 * (img.width * rows) <= isize::MAX
        &&& 16 * (columns * rows) <= isize::MAX
    }
}

/// `DynamicImage::resize_exact` of the crate `image`, with the triangle
/// filter, on an RGBA image: the pixels of the image at its new size,
/// four bytes for each. The sizes are bounded so that the buffers the
/// crate allocates on the way, of 16 bytes to a pixel, can be addressed,
/// and so that its single-precision positions keep every output pixel
/// within half a pixel of a source pixel, which then has a weight.
#[verifier::external_body]
fn resample(grid: &PixelGrid, new_width: u32, new_height: u32) -> (rgba: Vec<u8>)
    requires
        grid.wf(),
        grid.width > 0,
        grid.height > 0,
        new_width > 0,
        new_height > 0,
        grid.width <= MAX_SIDE,
        grid.height <= MAX_SIDE,
        new_width <= MAX_SIDE,
        new_height <= MAX_SIDE,
        16 * (grid.width * new_height) <= isize::MAX,
        16 * (new_width * new_height) <= isize::MAX,
    ensures
        rgba@ == resampled(grid.width, grid.height, grid.rgba@, new_width, new_height),
        rgba@.len() == byte_len(new_width, new_height),
{
    let source = image::RgbaImage::from_raw(grid.width, grid.height, grid.rgba.clone()).unwrap();
    let filter = image::imageops::FilterType::Triangle;
    image::DynamicImage::ImageRgba8(source).resize_exact(new_width, new_height, filter)
        .into_rgba8().into_raw()
}

/// `image::io::Reader::decode` of the crate `image`, after
/// `with_guessed_format`: the image that a file's bytes hold, converted to
/// RGBA bytes, with its width and height. Nothing is promised of it: what
/// comes of the same bytes may differ from one machine to another.
#[verifier::external_body]
fn decode_rgba(bytes: &[u8]) -> (image: Option<(u32, u32, Vec<u8>)>) {
    let reader = image::io::Reader::new(std::io::Cursor::new(bytes));
    let rgba = reader.with_guessed_format().ok()?.decode().ok()?.into_rgba8();
    Some((rgba.width(), rgba.height(), rgba.into_raw()))
}

/// Decodes the bytes of an image file. There is no image where the
/// bytes do not decode, and none where the decoder hands back other than
/// four bytes to a pixel; an image that comes back is well-formed.
pub fn decode_image(bytes: &[u8]) -> (grid: Option<PixelGrid>)
    ensures
        grid matches Some(g) ==> g.wf(),
{
    match decode_rgba(bytes) {
        Some((width, height, rgba)) => PixelGrid::from_rgba(width, height, rgba),
        None => None,
    }
}

/// Whether an image can be drawn `columns` glyphs wide.
pub fn can_render(img: &PixelGrid, columns: u32) -> (b: bool)
    ensures
        b == renderable(img@, columns),
{
    if img.width == 0 || img.height == 0 || columns == 0 {
        return true;
    }
    let rows = scaled_height(img.width, img.height, columns) as u128;
    let ghost (w, c, r) = (img.width as int, columns as int, rows as int);
    assert(0 <= w * r <= 0xffff_ffff * 0xffff_ffff && 0 <= c * r <= 0xffff_ffff * 0xffff_ffff)
        by (nonlinear_arith)
        requires
            0 <= w <= 0xffff_ffff,
            0 <= c <= 0xffff_ffff,
            0 <= r <= 0xffff_ffff,
    ;
    let limit = isize::MAX as u128;
    img.width <= MAX_SIDE && img.height <= MAX_SIDE && columns <= MAX_SIDE && rows <= MAX_SIDE as u128
        && 16 * ((img.width as u128) * rows) <= limit && 16 * ((columns as u128) * rows) <= limit
}

/// Draws an image `width` glyphs wide: the image is resized to that many
/// columns and to half the rows that would keep its proportions, and each
/// pixel of the result becomes one glyph. An image without pixels, or a
/// width of zero, gives no text at all.
pub fn render_ascii(img: &PixelGrid, width: u32, colorize: bool) -> (text: String)
    requires
        img.wf(),
        renderable(img@, width),
    ensures
        img.width == 0 || img.height == 0 || width == 0 ==> text@ == Seq::<char>::empty(),
        img.width > 0 && img.height > 0 && width > 0 ==> {
            let rows = scaled_rows(img.width, img.height, width) as u32;
            let small = Picture {
                width,
                height: rows,
                rgba: resampled(img.width, img.height, img.rgba@, width, rows),
            };
            if colorize {
                is_painted_text(text@, small)
            } else {
                text@ == rows_text(plain_rows(small))
            }
        },
{
    if img.width == 0 || img.height == 0 || width == 0 {
        return String::new();
    }
    let rows = scaled_height(img.width, img.height, width);
    let rgba = resample(img, width, rows);
    let small = PixelGrid { width, height: rows, rgba };
    render_grid(&small, colorize)
}

/// The most collections that a dossier lists.
pub const TOP_COLLECTIONS: usize = 10;

/// The most characters of an image URI that are shown.
pub const URI_SHOWN: usize = 45;

/// The columns that artwork is drawn in.
pub const ART_COLUMNS: u32 = 60;

/// A wallet address as a dossier shows it: one of more than ten
/// characters is cut down to its first four and its last four.
pub open spec fn abbreviated_wallet(address: Seq<char>) -> Seq<char> {
    if address.len() > 10 {
        address.take(4) + "..."@ + address.skip(address.len() - 4)
    } else {
        address
    }
}

/// An image URI as a report shows it: one of more than 45 characters is
/// cut off after the 45th.
pub open spec fn abbreviated_uri(uri: Seq<char>) -> Seq<char> {
    if uri.len() > URI_SHOWN {
        uri.take(URI_SHOWN as int) + "..."@
    } else {
        uri
    }
}

/// What a report says of whether the metadata can still change.
pub open spec fn mutability_text(is_mutable: bool) -> Seq<char> {
    if is_mutable {
        "Mutable ⚠️  CAUTION"@
    } else {
        "Frozen ✓ VERIFIED"@
    }
}

/// A wallet address as a dossier shows it.
pub fn abbreviate_wallet(address: &str) -> (shown: String)
    ensures
        shown@ == abbreviated_wallet(address@),
{
    let n = address.unicode_len();
    if n > 10 {
        let mut shown = String::from_str(address.substring_char(0, 4));
        shown.append("...");
        shown.append(address.substring_char(n - 4, n));
        shown
    } else {
        String::from_str(address)
    }
}

/// An image URI as a report shows it.
pub fn abbreviate_uri(uri: &str) -> (shown: String)
    ensures
        shown@ == abbreviated_uri(uri@),
{
    let n = uri.unicode_len();
    if n > URI_SHOWN {
        let mut shown = String::from_str(uri.substring_char(0, URI_SHOWN));
        shown.append("...");
        shown
    } else {
        String::from_str(uri)
    }
}

/// What a report says of whether the metadata can still change.
pub fn mutability_label(is_mutable: bool) -> (label: &'static str)
    ensures
        label@ == mutability_text(is_mutable),
{
    if is_mutable {
        "Mutable ⚠️  CAUTION"
    } else {
        "Frozen ✓ VERIFIED"
    }
}

/// One line of a dossier: a collection, its rank and its count.
#[derive(Debug)]
pub struct SheetRow {
    pub rank: usize,
    pub name: String,
    pub count: u32,
}

/// What a printed dossier says.
#[derive(Debug)]
pub struct DossierSheet {
    pub wallet: String,
    pub total_nfts: u32,
    pub rows: Vec<SheetRow>,
    pub assessment: Assessment,
}

/// `sheet` is what the printed `report` says: the wallet abbreviated, the
/// total, the first ten collections with their ranks from 1, and the
/// assessment.
pub open spec fn is_sheet_of(sheet: DossierSheet, report: DossierReport) -> bool {
    &&& sheet.wallet@ == abbreviated_wallet(report.wallet_address@)
    &&& sheet.total_nfts == report.total_nfts
    &&& sheet.rows@.len() == if report.collections@.len() < TOP_COLLECTIONS {
        report.collections@.len()
    } else {
        TOP_COLLECTIONS as nat
    }
    &&& forall|i: int|
        0 <= i < sheet.rows@.len() ==> {
            &&& (#[trigger] sheet.rows@[i]).rank == i + 1
            &&& sheet.rows@[i].name@ == report.collections@[i].name@
            &&& sheet.rows@[i].count == report.collections@[i].count
        }
    &&& is_assessment_of(sheet.assessment, report)
}

/// Lays out what a printed dossier says.
pub fn dossier_sheet(report: &DossierReport) -> (sheet: DossierSheet)
    ensures
        is_sheet_of(sheet, *report),
{
    let shown = if report.collections.len() < TOP_COLLECTIONS {
        report.collections.len()
    } else {
        TOP_COLLECTIONS
    };
    let mut rows: Vec<SheetRow> = Vec::new();
    let mut i: usize = 0;
    while i < shown
        invariant
            i <= shown <= report.collections@.len(),
            shown <= TOP_COLLECTIONS,
            rows@.len() == i,
            forall|j: int|
                0 <= j < i ==> {
                    &&& (#[trigger] rows@[j]).rank == j + 1
                    &&& rows@[j].name@ == report.collections@[j].name@
                    &&& rows@[j].count == report.collections@[j].count
                },
        decreases shown - i,
    {
        let summary = &report.collections[i];
        rows.push(SheetRow { rank: i + 1, name: summary.name.clone(), count: summary.count });
        i += 1;
    }
    DossierSheet {
        wallet: abbreviate_wallet(report.wallet_address.as_str()),
        total_nfts: report.total_nfts,
        rows,
        assessment: assess(report),
    }
}

/// What a printed report on a mint says.
#[derive(Debug)]
pub struct UnmaskSheet {
    pub name: String,
    pub update_authority: String,
    pub is_mutable: bool,
    pub state: &'static str,
    pub image_uri: String,
    pub attributes: Vec<SheetTrait>,
    pub has_artwork: bool,
}

/// One trait as a report prints it.
#[derive(Debug)]
pub struct SheetTrait {
    pub trait_type: String,
    pub value: String,
}

/// `sheet` is what the printed `report` says: the off-chain name, the
/// update authority in base58, whether the metadata can change, the image
/// URI abbreviated, every trait in order, and whether artwork came with it.
pub open spec fn is_unmask_sheet_of(sheet: UnmaskSheet, report: UnmaskReport) -> bool {
    &&& sheet.name@ == report.off_chain.name@
    &&& sheet.update_authority@ == base58_text(report.on_chain.update_authority@)
    &&& sheet.is_mutable == report.on_chain.is_mutable
    &&& sheet.state@ == mutability_text(report.on_chain.is_mutable)
    &&& sheet.image_uri@ == abbreviated_uri(report.off_chain.image@)
    &&& sheet.attributes@.len() == report.off_chain.attributes@.len()
    &&& forall|i: int|
        0 <= i < sheet.attributes@.len() ==> {
            &&& (#[trigger] sheet.attributes@[i]).trait_type@
                == report.off_chain.attributes@[i].trait_type@
            &&& sheet.attributes@[i].value@ == report.off_chain.attributes@[i].value@
        }
    &&& sheet.has_artwork == report.image_data is Some
}

/// Lays out what a printed report on a mint says.
pub fn unmask_sheet(report: &UnmaskReport) -> (sheet: UnmaskSheet)
    ensures
        is_unmask_sheet_of(sheet, *report),
{
    let mut attributes: Vec<SheetTrait> = Vec::new();
    let mut i: usize = 0;
    while i < report.off_chain.attributes.len()
        invariant
            i <= report.off_chain.attributes@.len(),
            attributes@.len() == i,
            forall|j: int|
                0 <= j < i ==> {
                    &&& (#[trigger] attributes@[j]).trait_type@
                        == report.off_chain.attributes@[j].trait_type@
                    &&& attributes@[j].value@ == report.off_chain.attributes@[j].value@
                },
        decreases report.off_chain.attributes@.len() - i,
    {
        let attribute = &report.off_chain.attributes[i];
        attributes.push(
            SheetTrait { trait_type: attribute.trait_type.clone(), value: attribute.value.clone() },
        );
        i += 1;
    }
    UnmaskSheet {
        name: report.off_chain.name.clone(),
        update_authority: report.on_chain.update_authority.to_base58(),
        is_mutable: report.on_chain.is_mutable,
        state: mutability_label(report.on_chain.is_mutable),
        image_uri: abbreviate_uri(report.off_chain.image.as_str()),
        attributes,
        has_artwork: report.image_data.is_some(),
    }
}

} // verus!
