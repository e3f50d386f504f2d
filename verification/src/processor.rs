//! Conversion of a raw pixel buffer into a grid of cells.
//!
//! The buffer holds three bytes (red, green, blue) per pixel, row by row. A
//! buffer may be shorter than its frame: a pixel that cannot be read whole is
//! black. Each cell depends on its own pixels only, so any range of cells can
//! be computed apart from the rest.

use vstd::prelude::*;
use crate::cell::{
    black, rgb_distance_sq, CellData, Color, RgbColor, GLYPH_LEFT_HALF, GLYPH_LOWER_LEFT,
    GLYPH_LOWER_RIGHT, GLYPH_SPACE, GLYPH_UPPER_HALF, GLYPH_UPPER_LEFT, GLYPH_UPPER_RIGHT,
};
use crate::quantizer::{palette_index, ColorQuantizer};

verus! {

/// How pixels are grouped into cells.
#[derive(Clone, Copy, PartialEq, Eq, Structural, Debug)]
pub enum GlyphStrategy {
    /// One cell for a pixel and the pixel below it, drawn as an upper half
    /// block: the glyph's colour is the upper pixel, the rest the lower one.
    HalfBlock,
    /// One cell for a block of two by two pixels, drawn with the shape that
    /// comes closest to the four of them.
    QuadBlock,
}

/// What kind of colour the cells carry.
#[derive(Clone, Copy, PartialEq, Eq, Structural, Debug)]
pub enum ColorMode {
    /// 24-bit colours as they are in the buffer.
    TrueColor,
    /// Palette entries.
    Palette,
    /// Palette entries, each pixel shifted by an ordered-dither offset before
    /// the lookup to break up banding.
    DitheredPalette,
}

/// A way of dividing the four pixels of a block between foreground and
/// background.
#[derive(Clone, Copy, PartialEq, Eq, Structural, Debug)]
pub enum Shape {
    /// All four pixels alike.
    Solid,
    /// Upper row against lower row.
    Horizontal,
    /// Left column against right column.
    Vertical,
    /// The upper left pixel against the other three.
    UpperLeft,
    /// The upper right pixel against the other three.
    UpperRight,
    /// The lower left pixel against the other three.
    LowerLeft,
    /// The lower right pixel against the other three.
    LowerRight,
}

/// The four pixels of a block.
#[derive(Clone, Copy, PartialEq, Eq, Structural, Debug)]
pub struct Quad {
    /// Upper left pixel.
    pub tl: RgbColor,
    /// Upper right pixel.
    pub tr: RgbColor,
    /// Lower left pixel.
    pub bl: RgbColor,
    /// Lower right pixel.
    pub br: RgbColor,
}

/// Cells in a frame above which work is split into chunks of a fixed size.
pub const LARGE_FRAME_CELLS: usize = 10000;

/// Chunk size used for large frames.
pub const LARGE_FRAME_CHUNK: usize = 2000;

/// The 8x8 ordered-dither threshold matrix, row by row. Its entries are the
/// numbers 0 to 63.
pub open spec fn bayer_table() -> Seq<u8> {
    seq![
        0u8, 32u8, 8u8, 40u8, 2u8, 34u8, 10u8, 42u8,
        48u8, 16u8, 56u8, 24u8, 50u8, 18u8, 58u8, 26u8,
        12u8, 44u8, 4u8, 36u8, 14u8, 46u8, 6u8, 38u8,
        60u8, 28u8, 52u8, 20u8, 62u8, 30u8, 54u8, 22u8,
        3u8, 35u8, 11u8, 43u8, 1u8, 33u8, 9u8, 41u8,
        51u8, 19u8, 59u8, 27u8, 49u8, 17u8, 57u8, 25u8,
        15u8, 47u8, 7u8, 39u8, 13u8, 45u8, 5u8, 37u8,
        63u8, 31u8, 55u8, 23u8, 61u8, 29u8, 53u8, 21u8,
    ]
}

/// Threshold for the pixel at column `x` of row `y`.
pub open spec fn bayer_threshold(x: int, y: int) -> int {
    bayer_table()[(y % 8) * 8 + (x % 8)] as int
}

/// A channel moved by the dither offset of a threshold. The offset is
/// `(threshold - 31.5) * 32 / 63`, between -16 and +16; the sum is held to
/// 0..255 and rounded toward zero. Computed here on values scaled by 63.
pub open spec fn dither_channel(c: u8, threshold: int) -> u8 {
    let scaled = c * 63 + (2 * threshold - 63) * 16;
    if scaled <= 0 {
        0u8
    } else if scaled >= 255 * 63 {
        255u8
    } else {
        (scaled / 63) as u8
    }
}

/// A colour with each channel moved by the dither offset.
pub open spec fn dither_rgb(c: RgbColor, threshold: int) -> RgbColor {
    RgbColor(
        dither_channel(c.0, threshold),
        dither_channel(c.1, threshold),
        dither_channel(c.2, threshold),
    )
}

/// Where the pixel at column `x` of row `y` starts in a buffer of the given
/// width.
pub open spec fn pixel_offset(width: int, x: int, y: int) -> int {
    (y * width + x) * 3
}

/// The pixel at column `x` of row `y`: its three bytes if the buffer holds
/// all of them, black if not. A pixel that was read is dithered on request.
pub open spec fn sample_pixel(pixels: Seq<u8>, width: int, x: int, y: int, dither: bool)
    -> RgbColor {
    let off = pixel_offset(width, x, y);
    if 0 <= off && off + 2 < pixels.len() {
        let c = RgbColor(pixels[off], pixels[off + 1], pixels[off + 2]);
        if dither {
            dither_rgb(c, bayer_threshold(x, y))
        } else {
            c
        }
    } else {
        black()
    }
}

/// Channel-wise mean of two colours, rounded down.
pub open spec fn mean2(a: RgbColor, b: RgbColor) -> RgbColor {
    RgbColor(((a.0 + b.0) / 2) as u8, ((a.1 + b.1) / 2) as u8, ((a.2 + b.2) / 2) as u8)
}

/// Channel-wise mean of three colours, rounded down.
pub open spec fn mean3(a: RgbColor, b: RgbColor, c: RgbColor) -> RgbColor {
    RgbColor(
        ((a.0 + b.0 + c.0) / 3) as u8,
        ((a.1 + b.1 + c.1) / 3) as u8,
        ((a.2 + b.2 + c.2) / 3) as u8,
    )
}

/// Channel-wise mean of the four pixels of a block, rounded down.
pub open spec fn mean4(q: Quad) -> RgbColor {
    RgbColor(
        ((q.tl.0 + q.tr.0 + q.bl.0 + q.br.0) / 4) as u8,
        ((q.tl.1 + q.tr.1 + q.bl.1 + q.br.1) / 4) as u8,
        ((q.tl.2 + q.tr.2 + q.bl.2 + q.br.2) / 4) as u8,
    )
}

/// Foreground colour of a shape laid over a block: the mean of the pixels on
/// its foreground side.
pub open spec fn shape_fg(shape: Shape, q: Quad) -> RgbColor {
    match shape {
        Shape::Solid => mean4(q),
        Shape::Horizontal => mean2(q.tl, q.tr),
        Shape::Vertical => mean2(q.tl, q.bl),
        Shape::UpperLeft => q.tl,
        Shape::UpperRight => q.tr,
        Shape::LowerLeft => q.bl,
        Shape::LowerRight => q.br,
    }
}

/// Background colour of a shape laid over a block: the mean of the pixels on
/// its background side.
pub open spec fn shape_bg(shape: Shape, q: Quad) -> RgbColor {
    match shape {
        Shape::Solid => mean4(q),
        Shape::Horizontal => mean2(q.bl, q.br),
        Shape::Vertical => mean2(q.tr, q.br),
        Shape::UpperLeft => mean3(q.tr, q.bl, q.br),
        Shape::UpperRight => mean3(q.tl, q.bl, q.br),
        Shape::LowerLeft => mean3(q.tl, q.tr, q.br),
        Shape::LowerRight => mean3(q.tl, q.tr, q.bl),
    }
}

/// Whether the shape puts the upper left pixel on its foreground side.
pub open spec fn inks_tl(shape: Shape) -> bool {
    shape is Solid || shape is Horizontal || shape is Vertical || shape is UpperLeft
}

/// Whether the shape puts the upper right pixel on its foreground side.
pub open spec fn inks_tr(shape: Shape) -> bool {
    shape is Solid || shape is Horizontal || shape is UpperRight
}

/// Whether the shape puts the lower left pixel on its foreground side.
pub open spec fn inks_bl(shape: Shape) -> bool {
    shape is Solid || shape is Vertical || shape is LowerLeft
}

/// Whether the shape puts the lower right pixel on its foreground side.
pub open spec fn inks_br(shape: Shape) -> bool {
    shape is Solid || shape is LowerRight
}

/// Summed squared colour error of a shape against the block it stands for:
/// each pixel is compared with the colour of the side it lies on.
pub open spec fn shape_error(shape: Shape, q: Quad) -> int {
    let fg = shape_fg(shape, q);
    let bg = shape_bg(shape, q);
    rgb_distance_sq(q.tl, if inks_tl(shape) { fg } else { bg })
        + rgb_distance_sq(q.tr, if inks_tr(shape) { fg } else { bg })
        + rgb_distance_sq(q.bl, if inks_bl(shape) { fg } else { bg })
        + rgb_distance_sq(q.br, if inks_br(shape) { fg } else { bg })
}

/// Whether the four pixels differ from one another by no more than the
/// tolerance (a squared distance).
pub open spec fn is_solid(q: Quad, tolerance: int) -> bool {
    &&& rgb_distance_sq(q.tl, q.tr) <= tolerance
    &&& rgb_distance_sq(q.tl, q.bl) <= tolerance
    &&& rgb_distance_sq(q.tl, q.br) <= tolerance
    &&& rgb_distance_sq(q.tr, q.bl) <= tolerance
    &&& rgb_distance_sq(q.tr, q.br) <= tolerance
    &&& rgb_distance_sq(q.bl, q.br) <= tolerance
}

/// The second shape if its error is strictly smaller, else the first.
pub open spec fn closer(first: Shape, second: Shape, q: Quad) -> Shape {
    if shape_error(second, q) < shape_error(first, q) {
        second
    } else {
        first
    }
}

/// The split with the least error. Among splits of equal error the one
/// named first in this list wins: horizontal, vertical, upper left, upper
/// right, lower left, lower right.
pub open spec fn best_split(q: Quad) -> Shape {
    closer(
        closer(
            closer(
                closer(closer(Shape::Horizontal, Shape::Vertical, q), Shape::UpperLeft, q),
                Shape::UpperRight,
                q,
            ),
            Shape::LowerLeft,
            q,
        ),
        Shape::LowerRight,
        q,
    )
}

/// The shape that stands for a block: solid where the pixels are alike
/// within the tolerance, the best split otherwise.
pub open spec fn nearest_shape(q: Quad, tolerance: int) -> Shape {
    if is_solid(q, tolerance) {
        Shape::Solid
    } else {
        best_split(q)
    }
}

/// The glyph that draws a shape. A solid cell is a space: only its
/// background shows.
pub open spec fn shape_glyph(shape: Shape) -> char {
    match shape {
        Shape::Solid => GLYPH_SPACE,
        Shape::Horizontal => GLYPH_UPPER_HALF,
        Shape::Vertical => GLYPH_LEFT_HALF,
        Shape::UpperLeft => GLYPH_UPPER_LEFT,
        Shape::UpperRight => GLYPH_UPPER_RIGHT,
        Shape::LowerLeft => GLYPH_LOWER_LEFT,
        Shape::LowerRight => GLYPH_LOWER_RIGHT,
    }
}

/// A colour in the form that the mode asks for.
pub open spec fn mode_color(mode: ColorMode, c: RgbColor) -> Color {
    if mode is TrueColor {
        Color::Rgb(c)
    } else {
        Color::Indexed(palette_index(c.0, c.1, c.2) as u8)
    }
}

/// Chunk size for splitting a frame of `total` cells among `threads`
/// workers: a fixed size for large frames, an even share for small ones,
/// never zero.
pub open spec fn chunk_len(total: int, threads: int) -> int {
    if total > LARGE_FRAME_CELLS {
        LARGE_FRAME_CHUNK as int
    } else {
        let workers = if threads < 1 {
            1
        } else {
            threads
        };
        let share = total / workers;
        if share < 1 {
            1
        } else {
            share
        }
    }
}

/// The best split has the least error of all six splits.
pub proof fn lemma_best_split_is_minimal(q: Quad, other: Shape)
    requires
        !(other is Solid),
    ensures
        !(best_split(q) is Solid),
        shape_error(best_split(q), q) <= shape_error(other, q),
{
}

/// On the four pixels of a block that are all the same colour every shape
/// is exact, and the block is solid at every tolerance.
pub proof fn lemma_uniform_block_is_solid(c: RgbColor, tolerance: int)
    requires
        tolerance >= 0,
    ensures
        nearest_shape(Quad { tl: c, tr: c, bl: c, br: c }, tolerance) == Shape::Solid,
        shape_fg(Shape::Solid, Quad { tl: c, tr: c, bl: c, br: c }) == c,
        shape_error(Shape::Solid, Quad { tl: c, tr: c, bl: c, br: c }) == 0,
{
}

/// Turns pixel buffers of one size into cell grids.
#[derive(Clone, Copy, PartialEq, Eq, Structural, Debug)]
pub struct FrameProcessor {
    /// Width of the pixel buffer.
    pub width: usize,
    /// Height of the pixel buffer.
    pub height: usize,
    /// How pixels are grouped into cells.
    pub strategy: GlyphStrategy,
    /// What kind of colour the cells carry.
    pub color_mode: ColorMode,
    /// Squared colour distance up to which the pixels of a block count as
    /// alike (quad-block strategy only).
    pub solid_tolerance: u32,
}

impl FrameProcessor {
    /// Number of cell columns.
    pub open spec fn cols(self) -> int {
        if self.strategy is HalfBlock {
            self.width as int
        } else {
            self.width as int / 2
        }
    }

    /// Number of cell rows.
    pub open spec fn rows(self) -> int {
        self.height as int / 2
    }

    /// Number of cells in a grid.
    pub open spec fn grid_len(self) -> int {
        self.cols() * self.rows()
    }

    /// Whether pixels are dithered as they are read.
    pub open spec fn dithers(self) -> bool {
        self.color_mode is DitheredPalette
    }

    /// The pixel at column `x` of row `y`, as the cells see it.
    pub open spec fn pixel(self, pixels: Seq<u8>, x: int, y: int) -> RgbColor {
        sample_pixel(pixels, self.width as int, x, y, self.dithers())
    }

    /// The block of pixels under the cell at column `cx` of row `cy`
    /// (quad-block strategy).
    pub open spec fn quad_at(self, pixels: Seq<u8>, cx: int, cy: int) -> Quad {
        Quad {
            tl: self.pixel(pixels, 2 * cx, 2 * cy),
            tr: self.pixel(pixels, 2 * cx + 1, 2 * cy),
            bl: self.pixel(pixels, 2 * cx, 2 * cy + 1),
            br: self.pixel(pixels, 2 * cx + 1, 2 * cy + 1),
        }
    }

    /// The cell that a block of pixels becomes.
    pub open spec fn quad_cell(self, q: Quad) -> CellData {
        let shape = nearest_shape(q, self.solid_tolerance as int);
        CellData {
            glyph: shape_glyph(shape),
            fg: mode_color(self.color_mode, shape_fg(shape, q)),
            bg: mode_color(self.color_mode, shape_bg(shape, q)),
        }
    }

    /// Cell number `i` of the grid, counted row by row.
    pub open spec fn cell_at(self, pixels: Seq<u8>, i: int) -> CellData {
        let cx = i % self.cols();
        let cy = i / self.cols();
        if self.strategy is HalfBlock {
            CellData {
                glyph: GLYPH_UPPER_HALF,
                fg: mode_color(self.color_mode, self.pixel(pixels, cx, 2 * cy)),
                bg: mode_color(self.color_mode, self.pixel(pixels, cx, 2 * cy + 1)),
            }
        } else {
            self.quad_cell(self.quad_at(pixels, cx, cy))
        }
    }

    /// The grid that a pixel buffer becomes.
    pub open spec fn grid(self, pixels: Seq<u8>) -> Seq<CellData> {
        Seq::new(self.grid_len() as nat, |i: int| self.cell_at(pixels, i))
    }

    /// A processor for buffers of the given size, with the half-block
    /// strategy and 24-bit colour.
    pub fn new(width: usize, height: usize) -> (p: Self)
        ensures
            p == (FrameProcessor {
                width,
                height,
                strategy: GlyphStrategy::HalfBlock,
                color_mode: ColorMode::TrueColor,
                solid_tolerance: 0,
            }),
    {
        FrameProcessor {
            width,
            height,
            strategy: GlyphStrategy::HalfBlock,
            color_mode: ColorMode::TrueColor,
            solid_tolerance: 0,
        }
    }

    /// The same processor with another glyph strategy.
    pub fn with_strategy(self, strategy: GlyphStrategy) -> (p: Self)
        ensures
            p == (FrameProcessor { strategy, ..self }),
    {
        FrameProcessor { strategy, ..self }
    }

    /// The same processor with another colour mode.
    pub fn with_color_mode(self, color_mode: ColorMode) -> (p: Self)
        ensures
            p == (FrameProcessor { color_mode, ..self }),
    {
        FrameProcessor { color_mode, ..self }
    }

    /// The same processor with another tolerance for solid blocks.
    pub fn with_solid_tolerance(self, solid_tolerance: u32) -> (p: Self)
        ensures
            p == (FrameProcessor { solid_tolerance, ..self }),
    {
        FrameProcessor { solid_tolerance, ..self }
    }

    /// Number of cell columns.
    pub fn columns(&self) -> (n: usize)
        ensures
            n == self.cols(),
    {
        match self.strategy {
            GlyphStrategy::HalfBlock => self.width,
            GlyphStrategy::QuadBlock => self.width / 2,
        }
    }

    /// Number of cells in a grid, if the number fits the machine.
    pub fn checked_cell_count(&self) -> (n: Option<usize>)
        ensures
            match n {
                Some(count) => count == self.grid_len(),
                None => self.grid_len() > usize::MAX,
            },
    {
        self.columns().checked_mul(self.height / 2)
    }

    /// Number of cells in a grid.
    pub fn cell_count(&self) -> (n: usize)
        requires
            self.grid_len() <= usize::MAX,
        ensures
            n == self.grid_len(),
    {
        self.columns() * (self.height / 2)
    }
}

/// Threshold of the dither matrix for the pixel at column `x` of row `y`.
fn bayer_at(x: usize, y: usize) -> (t: u8)
    ensures
        t == bayer_threshold(x as int, y as int),
        t < 64,
{
    let table: [u8; 64] = [
        0, 32, 8, 40, 2, 34, 10, 42,
        48, 16, 56, 24, 50, 18, 58, 26,
        12, 44, 4, 36, 14, 46, 6, 38,
        60, 28, 52, 20, 62, 30, 54, 22,
        3, 35, 11, 43, 1, 33, 9, 41,
        51, 19, 59, 27, 49, 17, 57, 25,
        15, 47, 7, 39, 13, 45, 5, 37,
        63, 31, 55, 23, 61, 29, 53, 21,
    ];
    assert(table@ =~= bayer_table());
    table[(y % 8) * 8 + (x % 8)]
}

/// Moves one channel by the dither offset of a threshold.
fn dither_value(c: u8, threshold: u8) -> (d: u8)
    requires
        threshold < 64,
    ensures
        d == dither_channel(c, threshold as int),
{
    let scaled: i32 = c as i32 * 63 + (2 * threshold as i32 - 63) * 16;
    if scaled <= 0 {
        0
    } else if scaled >= 255 * 63 {
        255
    } else {
        (scaled / 63) as u8
    }
}

/// Reads the pixel at column `x` of row `y`, black where the buffer does not
/// hold it.
fn read_pixel(pixels: &[u8], width: usize, x: usize, y: usize, dither: bool) -> (c: RgbColor)
    ensures
        c == sample_pixel(pixels@, width as int, x as int, y as int, dither),
{
    let none: RgbColor = RgbColor(0, 0, 0);
    let len: usize = pixels.len();
    let row: usize = match y.checked_mul(width) {
        Some(v) => v,
        None => {
            return none;
        },
    };
    let at: usize = match row.checked_add(x) {
        Some(v) => v,
        None => {
            return none;
        },
    };
    let off: usize = match at.checked_mul(3) {
        Some(v) => v,
        None => {
            return none;
        },
    };
    let last: usize = match off.checked_add(2) {
        Some(v) => v,
        None => {
            return none;
        },
    };
    if last < len {
        let r: u8 = pixels[off];
        let g: u8 = pixels[off + 1];
        let b: u8 = pixels[off + 2];
        if dither {
            let t: u8 = bayer_at(x, y);
            RgbColor(dither_value(r, t), dither_value(g, t), dither_value(b, t))
        } else {
            RgbColor(r, g, b)
        }
    } else {
        none
    }
}

/// Mean of two colours.
fn average2(a: RgbColor, b: RgbColor) -> (m: RgbColor)
    ensures
        m == mean2(a, b),
{
    RgbColor(
        ((a.0 as u16 + b.0 as u16) / 2) as u8,
        ((a.1 as u16 + b.1 as u16) / 2) as u8,
        ((a.2 as u16 + b.2 as u16) / 2) as u8,
    )
}

/// Mean of three colours.
fn average3(a: RgbColor, b: RgbColor, c: RgbColor) -> (m: RgbColor)
    ensures
        m == mean3(a, b, c),
{
    RgbColor(
        ((a.0 as u16 + b.0 as u16 + c.0 as u16) / 3) as u8,
        ((a.1 as u16 + b.1 as u16 + c.1 as u16) / 3) as u8,
        ((a.2 as u16 + b.2 as u16 + c.2 as u16) / 3) as u8,
    )
}

/// Mean of the four pixels of a block.
fn average4(q: Quad) -> (m: RgbColor)
    ensures
        m == mean4(q),
{
    RgbColor(
        ((q.tl.0 as u16 + q.tr.0 as u16 + q.bl.0 as u16 + q.br.0 as u16) / 4) as u8,
        ((q.tl.1 as u16 + q.tr.1 as u16 + q.bl.1 as u16 + q.br.1 as u16) / 4) as u8,
        ((q.tl.2 as u16 + q.tr.2 as u16 + q.bl.2 as u16 + q.br.2 as u16) / 4) as u8,
    )
}

impl Shape {
    /// Foreground and background colour of the shape laid over a block.
    pub fn colors(self, q: Quad) -> (pair: (RgbColor, RgbColor))
        ensures
            pair.0 == shape_fg(self, q),
            pair.1 == shape_bg(self, q),
    {
        match self {
            Shape::Solid => {
                let m: RgbColor = average4(q);
                (m, m)
            },
            Shape::Horizontal => (average2(q.tl, q.tr), average2(q.bl, q.br)),
            Shape::Vertical => (average2(q.tl, q.bl), average2(q.tr, q.br)),
            Shape::UpperLeft => (q.tl, average3(q.tr, q.bl, q.br)),
            Shape::UpperRight => (q.tr, average3(q.tl, q.bl, q.br)),
            Shape::LowerLeft => (q.bl, average3(q.tl, q.tr, q.br)),
            Shape::LowerRight => (q.br, average3(q.tl, q.tr, q.bl)),
        }
    }

    /// Summed squared colour error of the shape against a block.
    pub fn error(self, q: Quad) -> (e: u32)
        ensures
            e == shape_error(self, q),
    {
        let (fg, bg) = self.colors(q);
        let (tl, tr, bl, br) = match self {
            Shape::Solid => (fg, fg, fg, fg),
            Shape::Horizontal => (fg, fg, bg, bg),
            Shape::Vertical => (fg, bg, fg, bg),
            Shape::UpperLeft => (fg, bg, bg, bg),
            Shape::UpperRight => (bg, fg, bg, bg),
            Shape::LowerLeft => (bg, bg, fg, bg),
            Shape::LowerRight => (bg, bg, bg, fg),
        };
        q.tl.distance_sq(tl) + q.tr.distance_sq(tr) + q.bl.distance_sq(bl) + q.br.distance_sq(br)
    }

    /// The glyph that draws the shape.
    pub fn glyph(self) -> (c: char)
        ensures
            c == shape_glyph(self),
    {
        match self {
            Shape::Solid => GLYPH_SPACE,
            Shape::Horizontal => GLYPH_UPPER_HALF,
            Shape::Vertical => GLYPH_LEFT_HALF,
            Shape::UpperLeft => GLYPH_UPPER_LEFT,
            Shape::UpperRight => GLYPH_UPPER_RIGHT,
            Shape::LowerLeft => GLYPH_LOWER_LEFT,
            Shape::LowerRight => GLYPH_LOWER_RIGHT,
        }
    }
}

impl Quad {
    /// Whether the four pixels are alike within the tolerance.
    pub fn is_uniform(self, tolerance: u32) -> (alike: bool)
        ensures
            alike == is_solid(self, tolerance as int),
    {
        self.tl.distance_sq(self.tr) <= tolerance && self.tl.distance_sq(self.bl) <= tolerance
            && self.tl.distance_sq(self.br) <= tolerance && self.tr.distance_sq(self.bl)
            <= tolerance && self.tr.distance_sq(self.br) <= tolerance && self.bl.distance_sq(
            self.br,
        ) <= tolerance
    }

    /// The second shape if it comes strictly closer to the block, else the
    /// first.
    fn pick(self, first: Shape, second: Shape) -> (s: Shape)
        ensures
            s == closer(first, second, self),
    {
        if second.error(self) < first.error(self) {
            second
        } else {
            first
        }
    }

    /// The shape that stands for the block.
    pub fn nearest_shape(self, tolerance: u32) -> (s: Shape)
        ensures
            s == nearest_shape(self, tolerance as int),
    {
        if self.is_uniform(tolerance) {
            return Shape::Solid;
        }
        let s: Shape = self.pick(Shape::Horizontal, Shape::Vertical);
        let s: Shape = self.pick(s, Shape::UpperLeft);
        let s: Shape = self.pick(s, Shape::UpperRight);
        let s: Shape = self.pick(s, Shape::LowerLeft);
        self.pick(s, Shape::LowerRight)
    }
}

/// Chunk size for splitting a frame of `total` cells among `threads` workers.
pub fn chunk_size(total: usize, threads: usize) -> (n: usize)
    ensures
        n == chunk_len(total as int, threads as int),
        n >= 1,
{
    if total > LARGE_FRAME_CELLS {
        LARGE_FRAME_CHUNK
    } else {
        let workers: usize = if threads < 1 {
            1
        } else {
            threads
        };
        let share: usize = total / workers;
        if share < 1 {
            1
        } else {
            share
        }
    }
}

impl FrameProcessor {
    /// A colour in the form that the processor's mode asks for.
    fn color(&self, c: RgbColor) -> (out: Color)
        ensures
            out == mode_color(self.color_mode, c),
    {
        match self.color_mode {
            ColorMode::TrueColor => Color::Rgb(c),
            _ => Color::Indexed(ColorQuantizer::quantize_rgb(c.0, c.1, c.2)),
        }
    }

    /// Whether pixels are dithered as they are read.
    fn dither_on(&self) -> (d: bool)
        ensures
            d == self.dithers(),
    {
        match self.color_mode {
            ColorMode::DitheredPalette => true,
            _ => false,
        }
    }

    /// Cell number `i` of the grid that the buffer becomes.
    pub fn cell(&self, pixels: &[u8], i: usize) -> (c: CellData)
        requires
            i < self.grid_len() <= usize::MAX,
        ensures
            c == self.cell_at(pixels@, i as int),
    {
        let cols: usize = self.columns();
        assert(cols > 0 && self.rows() > 0) by (nonlinear_arith)
            requires
                0 <= i < self.cols() * self.rows(),
                cols == self.cols(),
                self.cols() >= 0,
                self.rows() >= 0,
        ;
        let cx: usize = i % cols;
        let cy: usize = i / cols;
        assert(cy < self.rows()) by (nonlinear_arith)
            requires
                cy == i as int / self.cols(),
                0 <= i < self.cols() * self.rows(),
                self.cols() > 0,
        ;
        let dither: bool = self.dither_on();
        match self.strategy {
            GlyphStrategy::HalfBlock => {
                let top: RgbColor = read_pixel(pixels, self.width, cx, 2 * cy, dither);
                let bottom: RgbColor = read_pixel(pixels, self.width, cx, 2 * cy + 1, dither);
                CellData { glyph: GLYPH_UPPER_HALF, fg: self.color(top), bg: self.color(bottom) }
            },
            GlyphStrategy::QuadBlock => {
                let q: Quad = Quad {
                    tl: read_pixel(pixels, self.width, 2 * cx, 2 * cy, dither),
                    tr: read_pixel(pixels, self.width, 2 * cx + 1, 2 * cy, dither),
                    bl: read_pixel(pixels, self.width, 2 * cx, 2 * cy + 1, dither),
                    br: read_pixel(pixels, self.width, 2 * cx + 1, 2 * cy + 1, dither),
                };
                let shape: Shape = q.nearest_shape(self.solid_tolerance);
                let (fg, bg) = shape.colors(q);
                CellData { glyph: shape.glyph(), fg: self.color(fg), bg: self.color(bg) }
            },
        }
    }

    /// The cells from number `start` up to, not including, number `end`.
    pub fn process_range(&self, pixels: &[u8], start: usize, end: usize) -> (cells: Vec<CellData>)
        requires
            start <= end <= self.grid_len() <= usize::MAX,
        ensures
            cells@ == self.grid(pixels@).subrange(start as int, end as int),
    {
        let mut cells: Vec<CellData> = Vec::with_capacity(end - start);
        let mut i: usize = start;
        while i < end
            invariant
                start <= i <= end <= self.grid_len() <= usize::MAX,
                cells@.len() == i - start,
                forall|k: int|
                    0 <= k < cells@.len() ==> cells@[k] == self.cell_at(pixels@, start + k),
            decreases end - i,
        {
            let c: CellData = self.cell(pixels, i);
            cells.push(c);
            i = i + 1;
        }
        assert(cells@ =~= self.grid(pixels@).subrange(start as int, end as int));
        cells
    }

    /// The grid that the buffer becomes.
    pub fn process_frame(&self, pixels: &[u8]) -> (cells: Vec<CellData>)
        requires
            self.grid_len() <= usize::MAX,
        ensures
            cells@ == self.grid(pixels@),
            cells@.len() == self.grid_len(),
    {
        let total: usize = self.cell_count();
        let cells: Vec<CellData> = self.process_range(pixels, 0, total);
        assert(self.grid(pixels@).subrange(0, total as int) =~= self.grid(pixels@));
        cells
    }

    /// Overwrites a grid of the right length with the grid that the buffer
    /// becomes. A grid of any other length is left as it is.
    pub fn process_frame_into(&self, pixels: &[u8], cells: &mut Vec<CellData>)
        requires
            self.grid_len() <= usize::MAX,
        ensures
            old(cells)@.len() == self.grid_len() ==> final(cells)@ == self.grid(pixels@),
            old(cells)@.len() != self.grid_len() ==> final(cells)@ == old(cells)@,
    {
        let total: usize = self.cell_count();
        if cells.len() != total {
            return ;
        }
        let mut i: usize = 0;
        while i < total
            invariant
                i <= total == self.grid_len() <= usize::MAX,
                cells@.len() == total,
                forall|k: int| 0 <= k < i ==> cells@[k] == self.cell_at(pixels@, k),
            decreases total - i,
        {
            let c: CellData = self.cell(pixels, i);
            cells[i] = c;
            i = i + 1;
        }
        assert(cells@ =~= self.grid(pixels@));
    }
}

/// A processor never reads past the last pixel row that a cell stands on:
/// the grid of a buffer is the grid of its first `width * height * 3` bytes.
pub proof fn lemma_grid_reads_frame_only(p: FrameProcessor, pixels: Seq<u8>)
    requires
        pixels.len() >= p.width * p.height * 3,
    ensures
        p.grid(pixels) == p.grid(pixels.subrange(0, p.width * p.height * 3)),
{
    let n = p.width * p.height * 3;
    let head = pixels.subrange(0, n);
    assert forall|i: int| 0 <= i < p.grid_len() implies p.cell_at(pixels, i) == p.cell_at(
        head,
        i,
    ) by {
        lemma_cell_reads_frame_only(p, pixels, i);
    }
    assert(p.grid(pixels) =~= p.grid(head));
}

/// One cell of the grid depends on the first `width * height * 3` bytes
/// only.
proof fn lemma_cell_reads_frame_only(p: FrameProcessor, pixels: Seq<u8>, i: int)
    requires
        pixels.len() >= p.width * p.height * 3,
        0 <= i < p.grid_len(),
    ensures
        p.cell_at(pixels, i) == p.cell_at(pixels.subrange(0, p.width * p.height * 3), i),
{
    let n = p.width * p.height * 3;
    let head = pixels.subrange(0, n);
    let w = p.width as int;
    let h = p.height as int;
    let cols = p.cols();
    let rows = p.rows();
    assert(cols > 0 && rows > 0) by (nonlinear_arith)
        requires
            0 <= i < cols * rows,
            cols >= 0,
            rows >= 0,
    ;
    let cx = i % cols;
    let cy = i / cols;
    assert(0 <= cy < rows) by (nonlinear_arith)
        requires
            cy == i / cols,
            0 <= i < cols * rows,
            cols > 0,
    ;
    assert forall|x: int, y: int| 0 <= x < w && 0 <= y < h implies sample_pixel(
        pixels,
        w,
        x,
        y,
        p.dithers(),
    ) == sample_pixel(head, w, x, y, p.dithers()) by {
        assert(0 <= pixel_offset(w, x, y) && pixel_offset(w, x, y) + 2 < n) by (nonlinear_arith)
            requires
                0 <= x < w,
                0 <= y < h,
                n == w * h * 3,
        ;
    }
    if p.strategy is HalfBlock {
        assert(0 <= cx < w && 2 * cy + 1 < h);
        assert(p.pixel(pixels, cx, 2 * cy) == p.pixel(head, cx, 2 * cy));
        assert(p.pixel(pixels, cx, 2 * cy + 1) == p.pixel(head, cx, 2 * cy + 1));
    } else {
        assert(0 <= 2 * cx + 1 < w && 2 * cy + 1 < h);
        assert(p.pixel(pixels, 2 * cx, 2 * cy) == p.pixel(head, 2 * cx, 2 * cy));
        assert(p.pixel(pixels, 2 * cx + 1, 2 * cy) == p.pixel(head, 2 * cx + 1, 2 * cy));
        assert(p.pixel(pixels, 2 * cx, 2 * cy + 1) == p.pixel(head, 2 * cx, 2 * cy + 1));
        assert(p.pixel(pixels, 2 * cx + 1, 2 * cy + 1) == p.pixel(head, 2 * cx + 1, 2 * cy + 1));
    }
}

} // verus!
