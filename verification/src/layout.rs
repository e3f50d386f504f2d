//! Sizes: how large a picture is made for a terminal, and where a decoded
//! frame lies in the picture.
//!
//! A character cell is about twice as high as it is wide, and a half-block
//! cell shows two pixels, one above the other: pixels are about square, one
//! per column and two per row.

use vstd::prelude::*;

verus! {

/// How a video is made to fit the terminal.
#[derive(Clone, Copy, PartialEq, Eq, Structural, Debug)]
pub enum AspectMode {
    /// The whole picture in its own proportions, with empty margins.
    Fit,
    /// The terminal filled, the picture's edges cut off.
    Fill,
    /// The terminal filled, the picture stretched.
    Stretch,
}

/// Where a scaled frame lies in a picture of the target size.
#[derive(Clone, Copy, PartialEq, Eq, Structural, Debug)]
pub struct Letterbox {
    /// Width that the frame is scaled to.
    pub width: u32,
    /// Height that the frame is scaled to.
    pub height: u32,
    /// Whether the scaled frame is larger than the picture and its middle is
    /// cut out; if not, the frame is centred in the picture.
    pub cropped: bool,
    /// Left edge: of the cut in the scaled frame, or of the frame in the
    /// picture.
    pub x: u32,
    /// Upper edge: of the cut in the scaled frame, or of the frame in the
    /// picture.
    pub y: u32,
}

/// The largest size of the proportions `num : den` (width to height) within
/// a width and a height, rounded down. Without proportions the whole room is
/// taken.
pub open spec fn fit_to_ratio(max_w: u32, max_h: u32, num: u32, den: u32) -> (u32, u32) {
    if num == 0 || den == 0 {
        (max_w, max_h)
    } else if max_w * den > max_h * num {
        ((max_h * num / den as int) as u32, max_h)
    } else {
        (max_w, (max_w * den / num as int) as u32)
    }
}

/// A number made even by taking one off an odd one.
pub open spec fn even_down(n: u32) -> u32 {
    (n - n % 2) as u32
}

/// The size of the cell grid for a wide-screen picture on a terminal: the
/// whole terminal when filling it, else the largest grid of 32 columns to 9
/// rows (16 : 9 in square pixels) less a margin of two columns.
pub open spec fn cinema_size(term_w: u32, term_h: u32, fill: bool) -> (u32, u32) {
    if fill {
        (term_w, term_h)
    } else {
        let fitted = fit_to_ratio(term_w, term_h, 32, 9);
        (
            if fitted.0 >= 2 {
                (fitted.0 - 2) as u32
            } else {
                0u32
            },
            fitted.1,
        )
    }
}

/// The pixel room that a terminal offers: its columns less a margin of two,
/// and two pixel rows for each of its rows.
pub open spec fn pixel_room(term_cols: u16, term_rows: u16) -> (u32, u32) {
    (
        if term_cols >= 2 {
            (term_cols - 2) as u32
        } else {
            0u32
        },
        (term_rows * 2) as u32,
    )
}

/// The picture size for a video on a terminal: the pixel room, held to the
/// video's proportions when fitting, and made even in both directions.
pub open spec fn picture_size(
    term_cols: u16,
    term_rows: u16,
    aspect: AspectMode,
    video_w: u32,
    video_h: u32,
) -> (u32, u32) {
    let room = pixel_room(term_cols, term_rows);
    let size = if aspect is Fit {
        fit_to_ratio(room.0, room.1, video_w, video_h)
    } else {
        room
    };
    (even_down(size.0), even_down(size.1))
}

/// A quotient rounded to the nearest whole number, halves upward.
pub open spec fn rounded_div(a: int, b: int) -> int {
    (2 * a + b) / (2 * b)
}

/// Whether a frame is scaled by the ratio of the widths (and not of the
/// heights): when fitting, if that is the smaller ratio; when filling, if it
/// is the larger one.
pub open spec fn scales_by_width(target_w: u32, target_h: u32, orig_w: u32, orig_h: u32, fill: bool)
    -> bool {
    if fill {
        target_w * orig_h >= target_h * orig_w
    } else {
        target_w * orig_h <= target_h * orig_w
    }
}

/// One and a value's larger.
pub open spec fn at_least_one(n: int) -> int {
    if n < 1 {
        1
    } else {
        n
    }
}

/// The size that a frame is scaled to for a picture of the target size, in
/// its own proportions and rounded to whole pixels, never less than one.
pub open spec fn scaled_size(target_w: u32, target_h: u32, orig_w: u32, orig_h: u32, fill: bool)
    -> (int, int) {
    if scales_by_width(target_w, target_h, orig_w, orig_h, fill) {
        (
            at_least_one(target_w as int),
            at_least_one(rounded_div(target_w * orig_h, orig_w as int)),
        )
    } else {
        (
            at_least_one(rounded_div(target_h * orig_w, orig_h as int)),
            at_least_one(target_h as int),
        )
    }
}

/// Half of what a length is longer than another, nothing if it is not.
pub open spec fn half_excess(long: int, short: int) -> int {
    if long > short {
        (long - short) / 2
    } else {
        0
    }
}

/// The largest width and height that a frame is scaled to.
pub const MAX_SCALED: u32 = 0x7fff_ffff;

/// Where a frame lies in a picture of the target size: scaled in its own
/// proportions, then cut to the picture's middle if it is larger in either
/// direction, centred in the picture if not. None for a frame without
/// pixels, and for one that would have to be scaled beyond the largest size.
pub open spec fn letterbox_of(target_w: u32, target_h: u32, orig_w: u32, orig_h: u32, fill: bool)
    -> Option<Letterbox> {
    if orig_w == 0 || orig_h == 0 {
        None
    } else {
        let size = scaled_size(target_w, target_h, orig_w, orig_h, fill);
        if size.0 > MAX_SCALED || size.1 > MAX_SCALED {
            None
        } else if size.0 > target_w || size.1 > target_h {
            Some(
                Letterbox {
                    width: size.0 as u32,
                    height: size.1 as u32,
                    cropped: true,
                    x: half_excess(size.0, target_w as int) as u32,
                    y: half_excess(size.1, target_h as int) as u32,
                },
            )
        } else {
            Some(
                Letterbox {
                    width: size.0 as u32,
                    height: size.1 as u32,
                    cropped: false,
                    x: half_excess(target_w as int, size.0) as u32,
                    y: half_excess(target_h as int, size.1) as u32,
                },
            )
        }
    }
}

/// A size of given proportions fits the room it was made for.
pub proof fn lemma_fit_stays_inside(max_w: u32, max_h: u32, num: u32, den: u32)
    ensures
        fit_to_ratio(max_w, max_h, num, den).0 <= max_w,
        fit_to_ratio(max_w, max_h, num, den).1 <= max_h,
{
    if num != 0 && den != 0 {
        let w = max_w as int;
        let h = max_h as int;
        let n = num as int;
        let d = den as int;
        if w * d > h * n {
            assert(h * n / d <= w) by (nonlinear_arith)
                requires
                    w * d > h * n,
                    d > 0,
                    h * n >= 0,
            ;
            assert(h * n / d >= 0) by (nonlinear_arith)
                requires
                    d > 0,
                    h * n >= 0,
            ;
        } else {
            assert(w * d / n <= h) by (nonlinear_arith)
                requires
                    w * d <= h * n,
                    n > 0,
                    w * d >= 0,
            ;
            assert(w * d / n >= 0) by (nonlinear_arith)
                requires
                    n > 0,
                    w * d >= 0,
            ;
        }
    }
}

/// The largest size of given proportions within a width and a height.
pub fn fit_size(max_w: u32, max_h: u32, num: u32, den: u32) -> (size: (u32, u32))
    ensures
        size == fit_to_ratio(max_w, max_h, num, den),
        size.0 <= max_w,
        size.1 <= max_h,
{
    proof {
        lemma_fit_stays_inside(max_w, max_h, num, den);
    }
    if num == 0 || den == 0 {
        return (max_w, max_h);
    }
    assert(max_w * den <= 0xffff_ffff * 0xffff_ffff && max_h * num <= 0xffff_ffff * 0xffff_ffff)
        by (nonlinear_arith)
        requires
            max_w <= 0xffff_ffff,
            max_h <= 0xffff_ffff,
            num <= 0xffff_ffff,
            den <= 0xffff_ffff,
    ;
    let across: u64 = max_w as u64 * den as u64;
    let down: u64 = max_h as u64 * num as u64;
    if across > down {
        ((down / den as u64) as u32, max_h)
    } else {
        (max_w, (across / num as u64) as u32)
    }
}

/// The size of the cell grid for a wide-screen picture on a terminal.
pub fn cinema_grid(term_w: u32, term_h: u32, fill: bool) -> (size: (u32, u32))
    ensures
        size == cinema_size(term_w, term_h, fill),
        size.0 <= term_w,
        size.1 <= term_h,
{
    if fill {
        (term_w, term_h)
    } else {
        let (w, h) = fit_size(term_w, term_h, 32, 9);
        let w: u32 = if w >= 2 {
            w - 2
        } else {
            0
        };
        (w, h)
    }
}

/// The picture size for a video on a terminal.
pub fn playback_size(
    term_cols: u16,
    term_rows: u16,
    aspect: AspectMode,
    video_w: u32,
    video_h: u32,
) -> (size: (u32, u32))
    ensures
        size == picture_size(term_cols, term_rows, aspect, video_w, video_h),
        size.0 % 2 == 0,
        size.1 % 2 == 0,
        size.0 + 2 <= term_cols || size.0 == 0,
        size.1 <= term_rows * 2,
{
    let max_w: u32 = if term_cols >= 2 {
        term_cols as u32 - 2
    } else {
        0
    };
    let max_h: u32 = term_rows as u32 * 2;
    let (w, h) = match aspect {
        AspectMode::Fit => fit_size(max_w, max_h, video_w, video_h),
        _ => (max_w, max_h),
    };
    (w - w % 2, h - h % 2)
}

/// Where a frame lies in a picture of the target size.
pub fn letterbox(target_w: u32, target_h: u32, orig_w: u32, orig_h: u32, fill: bool) -> (placed:
    Option<Letterbox>)
    ensures
        placed == letterbox_of(target_w, target_h, orig_w, orig_h, fill),
{
    if orig_w == 0 || orig_h == 0 {
        return None;
    }
    assert(target_w * orig_h <= 0xffff_ffff * 0xffff_ffff && target_h * orig_w <= 0xffff_ffff
        * 0xffff_ffff) by (nonlinear_arith)
        requires
            target_w <= 0xffff_ffff,
            target_h <= 0xffff_ffff,
            orig_w <= 0xffff_ffff,
            orig_h <= 0xffff_ffff,
    ;
    let across: u64 = target_w as u64 * orig_h as u64;
    let down: u64 = target_h as u64 * orig_w as u64;
    let by_width: bool = if fill {
        across >= down
    } else {
        across <= down
    };
    let (w, h): (u128, u128) = if by_width {
        (target_w as u128, (2 * across as u128 + orig_w as u128) / (2 * orig_w as u128))
    } else {
        ((2 * down as u128 + orig_h as u128) / (2 * orig_h as u128), target_h as u128)
    };
    let w: u128 = if w < 1 {
        1
    } else {
        w
    };
    let h: u128 = if h < 1 {
        1
    } else {
        h
    };
    if w > MAX_SCALED as u128 || h > MAX_SCALED as u128 {
        return None;
    }
    let w: u32 = w as u32;
    let h: u32 = h as u32;
    if w > target_w || h > target_h {
        let x: u32 = if w > target_w {
            (w - target_w) / 2
        } else {
            0
        };
        let y: u32 = if h > target_h {
            (h - target_h) / 2
        } else {
            0
        };
        Some(Letterbox { width: w, height: h, cropped: true, x, y })
    } else {
        Some(
            Letterbox {
                width: w,
                height: h,
                cropped: false,
                x: (target_w - w) / 2,
                y: (target_h - h) / 2,
            },
        )
    }
}

} // verus!
