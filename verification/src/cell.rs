//! The cell model: what one character position of a rendered frame holds.
//!
//! A frame is a row-major sequence of cells. A cell is a glyph from a small
//! alphabet of block characters with a foreground and a background colour.
//! Colours are either 24-bit triples or palette entries; a session uses one
//! kind throughout.

use vstd::prelude::*;

verus! {

/// A 24-bit colour: red, green, blue.
#[derive(Clone, Copy, PartialEq, Eq, Structural, Debug)]
pub struct RgbColor(pub u8, pub u8, pub u8);

/// A cell colour in one of the two forms a session may use.
#[derive(Clone, Copy, PartialEq, Eq, Structural, Debug)]
pub enum Color {
    /// 24-bit colour, for terminals that take it.
    Rgb(RgbColor),
    /// An entry of the 256-colour palette.
    Indexed(u8),
}

/// One character cell of a rendered frame.
#[derive(Clone, Copy, PartialEq, Eq, Structural, Debug)]
pub struct CellData {
    /// The glyph drawn in the cell.
    pub glyph: char,
    /// Colour of the glyph's inked part.
    pub fg: Color,
    /// Colour of the rest of the cell.
    pub bg: Color,
}

/// An empty cell.
pub const GLYPH_SPACE: char = ' ';

/// A cell inked all over.
pub const GLYPH_FULL_BLOCK: char = '\u{2588}';

/// The upper half inked.
pub const GLYPH_UPPER_HALF: char = '\u{2580}';

/// The left half inked.
pub const GLYPH_LEFT_HALF: char = '\u{258C}';

/// A triangle filling the upper left corner.
pub const GLYPH_UPPER_LEFT: char = '\u{25E4}';

/// A triangle filling the upper right corner.
pub const GLYPH_UPPER_RIGHT: char = '\u{25E5}';

/// A triangle filling the lower left corner.
pub const GLYPH_LOWER_LEFT: char = '\u{25E3}';

/// A triangle filling the lower right corner.
pub const GLYPH_LOWER_RIGHT: char = '\u{25E2}';

/// Whether a character belongs to the alphabet that frames are drawn with.
pub open spec fn is_glyph(c: char) -> bool {
    ||| c == GLYPH_SPACE
    ||| c == GLYPH_FULL_BLOCK
    ||| c == GLYPH_UPPER_HALF
    ||| c == GLYPH_LEFT_HALF
    ||| c == GLYPH_UPPER_LEFT
    ||| c == GLYPH_UPPER_RIGHT
    ||| c == GLYPH_LOWER_LEFT
    ||| c == GLYPH_LOWER_RIGHT
}

/// Black as a 24-bit colour.
pub open spec fn black() -> RgbColor {
    RgbColor(0, 0, 0)
}

/// The cell that stands for "nothing drawn yet": a black space.
pub open spec fn blank_cell() -> CellData {
    CellData { glyph: GLYPH_SPACE, fg: Color::Rgb(black()), bg: Color::Rgb(black()) }
}

/// Squared Euclidean distance between two 24-bit colours.
pub open spec fn rgb_distance_sq(a: RgbColor, b: RgbColor) -> int {
    (a.0 - b.0) * (a.0 - b.0) + (a.1 - b.1) * (a.1 - b.1) + (a.2 - b.2) * (a.2 - b.2)
}

/// A distance is zero exactly between a colour and itself, and never
/// negative.
pub proof fn lemma_distance_zero_iff_equal(a: RgbColor, b: RgbColor)
    ensures
        rgb_distance_sq(a, b) >= 0,
        rgb_distance_sq(a, b) == 0 <==> a == b,
{
    let dr = a.0 - b.0;
    let dg = a.1 - b.1;
    let db = a.2 - b.2;
    assert(dr * dr >= 0 && (dr * dr == 0 <==> dr == 0)) by (nonlinear_arith);
    assert(dg * dg >= 0 && (dg * dg == 0 <==> dg == 0)) by (nonlinear_arith);
    assert(db * db >= 0 && (db * db == 0 <==> db == 0)) by (nonlinear_arith);
}

impl RgbColor {
    /// Squared Euclidean distance to another colour.
    pub fn distance_sq(self, other: RgbColor) -> (d: u32)
        ensures
            d == rgb_distance_sq(self, other),
            d <= 195075,
    {
        let dr: i32 = self.0 as i32 - other.0 as i32;
        let dg: i32 = self.1 as i32 - other.1 as i32;
        let db: i32 = self.2 as i32 - other.2 as i32;
        assert(0 <= dr * dr <= 65025) by (nonlinear_arith)
            requires
                -255 <= dr <= 255,
        ;
        assert(0 <= dg * dg <= 65025) by (nonlinear_arith)
            requires
                -255 <= dg <= 255,
        ;
        assert(0 <= db * db <= 65025) by (nonlinear_arith)
            requires
                -255 <= db <= 255,
        ;
        (dr * dr + dg * dg + db * db) as u32
    }
}

impl CellData {
    /// The blank cell.
    pub fn blank() -> (c: CellData)
        ensures
            c == blank_cell(),
    {
        CellData {
            glyph: GLYPH_SPACE,
            fg: Color::Rgb(RgbColor(0, 0, 0)),
            bg: Color::Rgb(RgbColor(0, 0, 0)),
        }
    }
}

impl Default for CellData {
    fn default() -> (c: CellData)
        ensures
            c == blank_cell(),
    {
        CellData::blank()
    }
}

} // verus!
