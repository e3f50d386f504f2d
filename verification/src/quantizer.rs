//! Reduction of 24-bit colour to the 256-colour terminal palette.
//!
//! The palette has three parts: sixteen standard colours (0 to 15), a
//! 6x6x6 colour cube (16 to 231) and a ramp of 24 grays (232 to 255). A colour
//! whose channels lie close together goes to the gray ramp, every other colour
//! to the cube. The quantizer never answers with one of the sixteen standard
//! colours, whose appearance differs from terminal to terminal.

use vstd::prelude::*;

verus! {

/// Two channels closer together than this count as equal when deciding
/// whether a colour is a gray.
pub const GRAY_TOLERANCE: u8 = 8;

/// Number of entries of the lookup table: one for each 24-bit colour.
pub const LUT_LEN: usize = 16777216;

/// Distance between two channel values.
pub open spec fn channel_gap(a: u8, b: u8) -> int {
    if a >= b {
        a - b
    } else {
        b - a
    }
}

/// Whether all three channels lie within the gray tolerance of one another.
pub open spec fn is_grayish(r: u8, g: u8, b: u8) -> bool {
    &&& channel_gap(r, g) < GRAY_TOLERANCE
    &&& channel_gap(r, b) < GRAY_TOLERANCE
    &&& channel_gap(g, b) < GRAY_TOLERANCE
}

/// Mean of the three channels, rounded down.
pub open spec fn gray_level(r: u8, g: u8, b: u8) -> int {
    (r + g + b) / 3
}

/// Palette entry for a gray of the given level (0 to 255). The darkest levels
/// go to the cube's black, the brightest to the cube's white, the rest to one
/// of the 24 steps of the ramp.
pub open spec fn gray_index(level: int) -> int {
    if level < 8 {
        16
    } else if level > 238 {
        231
    } else {
        let step = (level - 8) * 24 / 230;
        232 + if step > 23 {
            23
        } else {
            step
        }
    }
}

/// Position of a channel value along one axis of the colour cube (0 to 5).
pub open spec fn cube_bucket(c: u8) -> int {
    c * 6 / 256
}

/// Palette entry of the cube cell that holds the colour.
pub open spec fn cube_index(r: u8, g: u8, b: u8) -> int {
    16 + 36 * cube_bucket(r) + 6 * cube_bucket(g) + cube_bucket(b)
}

/// The palette entry that stands for a 24-bit colour.
pub open spec fn palette_index(r: u8, g: u8, b: u8) -> int {
    if is_grayish(r, g, b) {
        gray_index(gray_level(r, g, b))
    } else {
        cube_index(r, g, b)
    }
}

/// Channel value shown by position `k` (0 to 5) of a cube axis.
pub open spec fn cube_level(k: int) -> int {
    if k == 0 {
        0
    } else {
        55 + k * 40
    }
}

/// One of the sixteen standard colours, in its usual approximation.
pub open spec fn standard_rgb(index: int) -> (u8, u8, u8) {
    if index == 0 {
        (0u8, 0u8, 0u8)
    } else if index == 1 {
        (128u8, 0u8, 0u8)
    } else if index == 2 {
        (0u8, 128u8, 0u8)
    } else if index == 3 {
        (128u8, 128u8, 0u8)
    } else if index == 4 {
        (0u8, 0u8, 128u8)
    } else if index == 5 {
        (128u8, 0u8, 128u8)
    } else if index == 6 {
        (0u8, 128u8, 128u8)
    } else if index == 7 {
        (192u8, 192u8, 192u8)
    } else if index == 8 {
        (128u8, 128u8, 128u8)
    } else if index == 9 {
        (255u8, 0u8, 0u8)
    } else if index == 10 {
        (0u8, 255u8, 0u8)
    } else if index == 11 {
        (255u8, 255u8, 0u8)
    } else if index == 12 {
        (0u8, 0u8, 255u8)
    } else if index == 13 {
        (255u8, 0u8, 255u8)
    } else if index == 14 {
        (0u8, 255u8, 255u8)
    } else {
        (255u8, 255u8, 255u8)
    }
}

/// The colour that a palette entry shows.
pub open spec fn palette_rgb(index: u8) -> (u8, u8, u8) {
    if index < 16 {
        standard_rgb(index as int)
    } else if index < 232 {
        let i = index - 16;
        (cube_level(i / 36) as u8, cube_level((i / 6) % 6) as u8, cube_level(i % 6) as u8)
    } else {
        let gray = 8 + (index - 232) * 10;
        (gray as u8, gray as u8, gray as u8)
    }
}

/// Place of a colour in the lookup table.
pub open spec fn lut_slot(r: u8, g: u8, b: u8) -> int {
    r * 65536 + g * 256 + b
}

/// Whether a table holds, at the slot of every colour, that colour's palette
/// entry.
pub open spec fn is_color_lut(lut: Seq<u8>) -> bool {
    &&& lut.len() == LUT_LEN
    &&& forall|r: u8, g: u8, b: u8| #[trigger]
        lut[lut_slot(r, g, b)] == palette_index(r, g, b)
}

/// Every colour has a palette entry outside the sixteen standard colours.
pub proof fn lemma_palette_index_in_range(r: u8, g: u8, b: u8)
    ensures
        16 <= palette_index(r, g, b) <= 255,
{
    let level = gray_level(r, g, b);
    assert(0 <= level <= 255);
    if 8 <= level <= 238 {
        assert(0 <= (level - 8) * 24 / 230);
    }
    assert(0 <= cube_bucket(r) <= 5);
    assert(0 <= cube_bucket(g) <= 5);
    assert(0 <= cube_bucket(b) <= 5);
}

/// Black goes to the darkest entry of the palette and white to the
/// brightest: the entries that show exactly black and exactly white.
pub proof fn lemma_black_and_white()
    ensures
        palette_index(0, 0, 0) == 16,
        palette_index(255, 255, 255) == 231,
        palette_rgb(16) == (0u8, 0u8, 0u8),
        palette_rgb(231) == (255u8, 255u8, 255u8),
{
}

/// No entry is darker than the one black goes to, and none brighter than the
/// one white goes to.
pub proof fn lemma_extremes_of_palette(index: u8)
    ensures
        palette_rgb(index).0 >= palette_rgb(16).0,
        palette_rgb(index).1 >= palette_rgb(16).1,
        palette_rgb(index).2 >= palette_rgb(16).2,
        palette_rgb(index).0 <= palette_rgb(231).0,
        palette_rgb(index).1 <= palette_rgb(231).1,
        palette_rgb(index).2 <= palette_rgb(231).2,
{
}

/// Maps 24-bit colours to palette entries, by classification or through a
/// table built once.
pub struct ColorQuantizer {
    lut: Vec<u8>,
}

impl ColorQuantizer {
    #[verifier::type_invariant]
    spec fn table_is_complete(self) -> bool {
        is_color_lut(self.lut@)
    }

    /// Distance between two channel values.
    fn gap(a: u8, b: u8) -> (d: u8)
        ensures
            d == channel_gap(a, b),
    {
        if a >= b {
            a - b
        } else {
            b - a
        }
    }

    /// Classifies one colour: near-grays go to the gray ramp, the rest to
    /// the colour cube.
    pub fn rgb_to_ansi256(r: u8, g: u8, b: u8) -> (index: u8)
        ensures
            index == palette_index(r, g, b),
            index >= 16,
    {
        proof {
            lemma_palette_index_in_range(r, g, b);
        }
        if Self::gap(r, g) < GRAY_TOLERANCE && Self::gap(r, b) < GRAY_TOLERANCE && Self::gap(g, b)
            < GRAY_TOLERANCE {
            let level: u16 = (r as u16 + g as u16 + b as u16) / 3;
            if level < 8 {
                return 16;
            } else if level > 238 {
                return 231;
            } else {
                let step: u16 = (level - 8) * 24 / 230;
                let step: u16 = if step > 23 {
                    23
                } else {
                    step
                };
                return (232 + step) as u8;
            }
        }
        let r6: u16 = r as u16 * 6 / 256;
        let g6: u16 = g as u16 * 6 / 256;
        let b6: u16 = b as u16 * 6 / 256;
        (16 + 36 * r6 + 6 * g6 + b6) as u8
    }

    /// The palette entry of a colour, computed without a table.
    pub fn quantize_rgb(r: u8, g: u8, b: u8) -> (index: u8)
        ensures
            index == palette_index(r, g, b),
            index >= 16,
    {
        Self::rgb_to_ansi256(r, g, b)
    }

    /// Builds the table that holds the palette entry of every 24-bit colour,
    /// red in the high byte of the slot number and blue in the low one.
    pub fn build_lut() -> (lut: Vec<u8>)
        ensures
            is_color_lut(lut@),
    {
        let mut lut: Vec<u8> = Vec::with_capacity(LUT_LEN);
        let mut slot: usize = 0;
        while slot < LUT_LEN
            invariant
                slot <= LUT_LEN,
                lut@.len() == slot,
                forall|r: u8, g: u8, b: u8|
                    lut_slot(r, g, b) < slot ==> #[trigger] lut@[lut_slot(r, g, b)]
                        == palette_index(r, g, b),
            decreases LUT_LEN - slot,
        {
            let r: u8 = (slot / 65536) as u8;
            let g: u8 = ((slot / 256) % 256) as u8;
            let b: u8 = (slot % 256) as u8;
            let index: u8 = Self::rgb_to_ansi256(r, g, b);
            let ghost before = lut@;
            lut.push(index);
            proof {
                assert(lut_slot(r, g, b) == slot);
                assert forall|r2: u8, g2: u8, b2: u8| lut_slot(r2, g2, b2) < slot + 1 implies #[trigger] lut@[lut_slot(
                    r2,
                    g2,
                    b2,
                )] == palette_index(r2, g2, b2) by {
                    if lut_slot(r2, g2, b2) == slot {
                        assert(r2 == r && g2 == g && b2 == b);
                    } else {
                        assert(lut@[lut_slot(r2, g2, b2)] == before[lut_slot(r2, g2, b2)]);
                    }
                }
            }
            slot = slot + 1;
        }
        lut
    }

    /// The table that the quantizer answers from.
    pub closed spec fn table(&self) -> Seq<u8> {
        self.lut@
    }

    /// A quantizer that answers from a freshly built table: one that holds,
    /// at the slot of every colour, that colour's palette entry.
    pub fn new() -> (q: Self)
        ensures
            is_color_lut(q.table()),
    {
        ColorQuantizer { lut: Self::build_lut() }
    }

    /// The palette entry of a colour, read from the table.
    pub fn quantize(&self, r: u8, g: u8, b: u8) -> (index: u8)
        ensures
            index == self.table()[lut_slot(r, g, b)],
            index == palette_index(r, g, b),
            index >= 16,
    {
        proof {
            use_type_invariant(self);
            lemma_palette_index_in_range(r, g, b);
        }
        let slot: usize = (r as usize) * 65536 + (g as usize) * 256 + (b as usize);
        assert(slot == lut_slot(r, g, b));
        self.lut[slot]
    }

    /// The colour that a palette entry shows.
    pub fn ansi256_to_rgb(index: u8) -> (rgb: (u8, u8, u8))
        ensures
            rgb == palette_rgb(index),
    {
        if index < 16 {
            if index == 0 {
                (0, 0, 0)
            } else if index == 1 {
                (128, 0, 0)
            } else if index == 2 {
                (0, 128, 0)
            } else if index == 3 {
                (128, 128, 0)
            } else if index == 4 {
                (0, 0, 128)
            } else if index == 5 {
                (128, 0, 128)
            } else if index == 6 {
                (0, 128, 128)
            } else if index == 7 {
                (192, 192, 192)
            } else if index == 8 {
                (128, 128, 128)
            } else if index == 9 {
                (255, 0, 0)
            } else if index == 10 {
                (0, 255, 0)
            } else if index == 11 {
                (255, 255, 0)
            } else if index == 12 {
                (0, 0, 255)
            } else if index == 13 {
                (255, 0, 255)
            } else if index == 14 {
                (0, 255, 255)
            } else {
                (255, 255, 255)
            }
        } else if index < 232 {
            let i: u8 = index - 16;
            let r: u8 = i / 36;
            let g: u8 = (i / 6) % 6;
            let b: u8 = i % 6;
            let r_val: u8 = if r == 0 {
                0
            } else {
                55 + r * 40
            };
            let g_val: u8 = if g == 0 {
                0
            } else {
                55 + g * 40
            };
            let b_val: u8 = if b == 0 {
                0
            } else {
                55 + b * 40
            };
            (r_val, g_val, b_val)
        } else {
            let gray: u8 = 8 + (index - 232) * 10;
            (gray, gray, gray)
        }
    }
}

} // verus!
