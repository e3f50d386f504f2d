//! The escape sequences that frames are written with, byte for byte.
//!
//! Every sequence is given twice: as a sequence of bytes that contracts speak
//! of, and as a function that appends those bytes to a buffer.

use vstd::prelude::*;
use vstd::utf8::encode_scalar;
use crate::cell::{Color, RgbColor};

verus! {

/// The escape character.
pub const ESC: u8 = 0x1b;

/// Decimal digits of a number, most significant first, without leading
/// zeros.
pub open spec fn decimal(n: nat) -> Seq<u8>
    decreases n,
{
    if n < 10 {
        seq![(48 + n) as u8]
    } else {
        decimal(n / 10).push((48 + n % 10) as u8)
    }
}

/// The two bytes that open a control sequence: `ESC [`.
pub open spec fn csi() -> Seq<u8> {
    seq![ESC, 0x5bu8]
}

/// `ESC[?2026h`: the terminal holds back what follows until the matching
/// end, then shows it at once.
pub open spec fn sync_begin() -> Seq<u8> {
    csi() + seq![0x3fu8, 0x32u8, 0x30u8, 0x32u8, 0x36u8, 0x68u8]
}

/// `ESC[?2026l`: end of a held-back update.
pub open spec fn sync_end() -> Seq<u8> {
    csi() + seq![0x3fu8, 0x32u8, 0x30u8, 0x32u8, 0x36u8, 0x6cu8]
}

/// `ESC[2J`: clear the whole screen.
pub open spec fn clear_screen() -> Seq<u8> {
    csi() + seq![0x32u8, 0x4au8]
}

/// `ESC[0m`: back to the terminal's own colours and style.
pub open spec fn style_reset() -> Seq<u8> {
    csi() + seq![0x30u8, 0x6du8]
}

/// `ESC[{row};{col}H`: move the cursor; rows and columns count from 1.
pub open spec fn cursor_to(row: nat, col: nat) -> Seq<u8> {
    csi() + decimal(row) + seq![0x3bu8] + decimal(col) + seq![0x48u8]
}

/// The three channels of a colour as `R;G;B`.
pub open spec fn rgb_params(c: RgbColor) -> Seq<u8> {
    decimal(c.0 as nat) + seq![0x3bu8] + decimal(c.1 as nat) + seq![0x3bu8] + decimal(c.2 as nat)
}

/// `ESC[38;2;R;G;Bm` or `ESC[38;5;Nm`: set the foreground colour.
pub open spec fn set_fg(c: Color) -> Seq<u8> {
    match c {
        Color::Rgb(rgb) => csi() + seq![0x33u8, 0x38u8, 0x3bu8, 0x32u8, 0x3bu8] + rgb_params(rgb)
            + seq![0x6du8],
        Color::Indexed(n) => csi() + seq![0x33u8, 0x38u8, 0x3bu8, 0x35u8, 0x3bu8] + decimal(
            n as nat,
        ) + seq![0x6du8],
    }
}

/// `ESC[48;2;R;G;Bm` or `ESC[48;5;Nm`: set the background colour.
pub open spec fn set_bg(c: Color) -> Seq<u8> {
    match c {
        Color::Rgb(rgb) => csi() + seq![0x34u8, 0x38u8, 0x3bu8, 0x32u8, 0x3bu8] + rgb_params(rgb)
            + seq![0x6du8],
        Color::Indexed(n) => csi() + seq![0x34u8, 0x38u8, 0x3bu8, 0x35u8, 0x3bu8] + decimal(
            n as nat,
        ) + seq![0x6du8],
    }
}

/// The UTF-8 bytes of a glyph.
pub open spec fn glyph_bytes(c: char) -> Seq<u8> {
    encode_scalar(c as u32)
}

/// What a session opens with: `ESC[?1049h` (enter the alternate screen),
/// `ESC[?25l` (hide the cursor), `ESC[?7l` (no line wrap).
pub open spec fn session_start() -> Seq<u8> {
    csi() + seq![0x3fu8, 0x31u8, 0x30u8, 0x34u8, 0x39u8, 0x68u8] + csi() + seq![
        0x3fu8,
        0x32u8,
        0x35u8,
        0x6cu8,
    ] + csi() + seq![0x3fu8, 0x37u8, 0x6cu8]
}

/// What a session closes with: `ESC[?7h` (line wrap as before), `ESC[?25h`
/// (show the cursor), `ESC[?1049l` (leave the alternate screen).
pub open spec fn session_end() -> Seq<u8> {
    csi() + seq![0x3fu8, 0x37u8, 0x68u8] + csi() + seq![0x3fu8, 0x32u8, 0x35u8, 0x68u8] + csi()
        + seq![0x3fu8, 0x31u8, 0x30u8, 0x34u8, 0x39u8, 0x6cu8]
}

/// A number below 65536 has at most five digits, each of them an ASCII
/// digit.
pub proof fn lemma_decimal_digits(n: nat)
    ensures
        1 <= decimal(n).len(),
        n < 10 ==> decimal(n).len() == 1,
        10 <= n < 100 ==> decimal(n).len() == 2,
        100 <= n < 1000 ==> decimal(n).len() == 3,
        1000 <= n < 10000 ==> decimal(n).len() == 4,
        10000 <= n < 100000 ==> decimal(n).len() == 5,
        forall|i: int| 0 <= i < decimal(n).len() ==> 48 <= #[trigger] decimal(n)[i] <= 57,
    decreases n,
{
    if n >= 10 {
        lemma_decimal_digits(n / 10);
    }
}

/// Appends every byte of a slice.
fn push_all(buffer: &mut Vec<u8>, bytes: &[u8])
    ensures
        final(buffer)@ == old(buffer)@ + bytes@,
{
    let mut i: usize = 0;
    while i < bytes.len()
        invariant
            i <= bytes@.len(),
            buffer@ == old(buffer)@ + bytes@.subrange(0, i as int),
        decreases bytes@.len() - i,
    {
        buffer.push(bytes[i]);
        assert(bytes@.subrange(0, i + 1) =~= bytes@.subrange(0, i as int).push(bytes@[i as int]));
        i = i + 1;
    }
    assert(bytes@.subrange(0, i as int) =~= bytes@);
}

/// Appends the decimal digits of a number below 256.
pub fn write_u8_fast(buffer: &mut Vec<u8>, n: u8)
    ensures
        final(buffer)@ == old(buffer)@ + decimal(n as nat),
{
    proof {
        reveal_with_fuel(decimal, 3);
    }
    if n >= 100 {
        buffer.push(48 + n / 100);
        buffer.push(48 + (n % 100) / 10);
        buffer.push(48 + n % 10);
        assert(buffer@ =~= old(buffer)@ + decimal(n as nat));
    } else if n >= 10 {
        buffer.push(48 + n / 10);
        buffer.push(48 + n % 10);
        assert(buffer@ =~= old(buffer)@ + decimal(n as nat));
    } else {
        buffer.push(48 + n);
        assert(buffer@ =~= old(buffer)@ + decimal(n as nat));
    }
}

/// Appends the decimal digits of a number below 65536.
pub fn write_u16_fast(buffer: &mut Vec<u8>, n: u16)
    ensures
        final(buffer)@ == old(buffer)@ + decimal(n as nat),
    decreases n,
{
    if n >= 10 {
        write_u16_fast(buffer, n / 10);
    }
    buffer.push(48 + (n % 10) as u8);
    assert(buffer@ =~= old(buffer)@ + decimal(n as nat));
}

/// Appends `ESC[?2026h`.
pub fn push_sync_begin(buffer: &mut Vec<u8>)
    ensures
        final(buffer)@ == old(buffer)@ + sync_begin(),
{
    let bytes: [u8; 8] = [ESC, 0x5b, 0x3f, 0x32, 0x30, 0x32, 0x36, 0x68];
    push_all(buffer, bytes.as_slice());
    assert(bytes@ =~= sync_begin());
}

/// Appends `ESC[?2026l`.
pub fn push_sync_end(buffer: &mut Vec<u8>)
    ensures
        final(buffer)@ == old(buffer)@ + sync_end(),
{
    let bytes: [u8; 8] = [ESC, 0x5b, 0x3f, 0x32, 0x30, 0x32, 0x36, 0x6c];
    push_all(buffer, bytes.as_slice());
    assert(bytes@ =~= sync_end());
}

/// Appends `ESC[2J`.
pub fn push_clear_screen(buffer: &mut Vec<u8>)
    ensures
        final(buffer)@ == old(buffer)@ + clear_screen(),
{
    let bytes: [u8; 4] = [ESC, 0x5b, 0x32, 0x4a];
    push_all(buffer, bytes.as_slice());
    assert(bytes@ =~= clear_screen());
}

/// Appends `ESC[0m`.
pub fn push_style_reset(buffer: &mut Vec<u8>)
    ensures
        final(buffer)@ == old(buffer)@ + style_reset(),
{
    let bytes: [u8; 4] = [ESC, 0x5b, 0x30, 0x6d];
    push_all(buffer, bytes.as_slice());
    assert(bytes@ =~= style_reset());
}

/// Appends the sequence that moves the cursor to a row and column, both
/// counted from 1.
pub fn push_cursor_to(buffer: &mut Vec<u8>, row: u16, col: u16)
    ensures
        final(buffer)@ == old(buffer)@ + cursor_to(row as nat, col as nat),
{
    buffer.push(ESC);
    buffer.push(0x5b);
    write_u16_fast(buffer, row);
    buffer.push(0x3b);
    write_u16_fast(buffer, col);
    buffer.push(0x48);
    assert(buffer@ =~= old(buffer)@ + cursor_to(row as nat, col as nat));
}

/// Appends the parameters that select a colour: `2;R;G;B` or `5;N`.
fn push_color_params(buffer: &mut Vec<u8>, c: Color)
    ensures
        final(buffer)@ == old(buffer)@ + (match c {
            Color::Rgb(rgb) => seq![0x32u8, 0x3bu8] + rgb_params(rgb),
            Color::Indexed(n) => seq![0x35u8, 0x3bu8] + decimal(n as nat),
        }),
{
    match c {
        Color::Rgb(rgb) => {
            buffer.push(0x32);
            buffer.push(0x3b);
            write_u8_fast(buffer, rgb.0);
            buffer.push(0x3b);
            write_u8_fast(buffer, rgb.1);
            buffer.push(0x3b);
            write_u8_fast(buffer, rgb.2);
            assert(buffer@ =~= old(buffer)@ + (seq![0x32u8, 0x3bu8] + rgb_params(rgb)));
        },
        Color::Indexed(n) => {
            buffer.push(0x35);
            buffer.push(0x3b);
            write_u8_fast(buffer, n);
            assert(buffer@ =~= old(buffer)@ + (seq![0x35u8, 0x3bu8] + decimal(n as nat)));
        },
    }
}

/// Appends the sequence that sets the foreground colour.
pub fn push_set_fg(buffer: &mut Vec<u8>, c: Color)
    ensures
        final(buffer)@ == old(buffer)@ + set_fg(c),
{
    buffer.push(ESC);
    buffer.push(0x5b);
    buffer.push(0x33);
    buffer.push(0x38);
    buffer.push(0x3b);
    push_color_params(buffer, c);
    buffer.push(0x6d);
    assert(buffer@ =~= old(buffer)@ + set_fg(c));
}

/// Appends the sequence that sets the background colour.
pub fn push_set_bg(buffer: &mut Vec<u8>, c: Color)
    ensures
        final(buffer)@ == old(buffer)@ + set_bg(c),
{
    buffer.push(ESC);
    buffer.push(0x5b);
    buffer.push(0x34);
    buffer.push(0x38);
    buffer.push(0x3b);
    push_color_params(buffer, c);
    buffer.push(0x6d);
    assert(buffer@ =~= old(buffer)@ + set_bg(c));
}

/// Appends the UTF-8 bytes of a glyph.
pub fn push_glyph(buffer: &mut Vec<u8>, c: char)
    ensures
        final(buffer)@ == old(buffer)@ + glyph_bytes(c),
{
    let scalar: u32 = c as u32;
    if scalar <= 0x7f {
        buffer.push((scalar & 0x7f) as u8);
    } else if scalar <= 0x7ff {
        buffer.push(0xc0 | ((scalar >> 6) & 0x1f) as u8);
        buffer.push(0x80 | (scalar & 0x3f) as u8);
    } else if scalar <= 0xffff {
        buffer.push(0xe0 | ((scalar >> 12) & 0x0f) as u8);
        buffer.push(0x80 | ((scalar >> 6) & 0x3f) as u8);
        buffer.push(0x80 | (scalar & 0x3f) as u8);
    } else {
        buffer.push(0xf0 | ((scalar >> 18) & 0x7) as u8);
        buffer.push(0x80 | ((scalar >> 12) & 0x3f) as u8);
        buffer.push(0x80 | ((scalar >> 6) & 0x3f) as u8);
        buffer.push(0x80 | (scalar & 0x3f) as u8);
    }
    assert(buffer@ =~= old(buffer)@ + glyph_bytes(c));
}

/// The bytes that open a session.
pub fn session_start_sequence() -> (bytes: Vec<u8>)
    ensures
        bytes@ == session_start(),
{
    let mut bytes: Vec<u8> = Vec::new();
    let seq: [u8; 19] = [
        ESC, 0x5b, 0x3f, 0x31, 0x30, 0x34, 0x39, 0x68,
        ESC, 0x5b, 0x3f, 0x32, 0x35, 0x6c,
        ESC, 0x5b, 0x3f, 0x37, 0x6c,
    ];
    push_all(&mut bytes, seq.as_slice());
    assert(bytes@ =~= session_start());
    bytes
}

/// The bytes that close a session.
pub fn session_end_sequence() -> (bytes: Vec<u8>)
    ensures
        bytes@ == session_end(),
{
    let mut bytes: Vec<u8> = Vec::new();
    let seq: [u8; 19] = [
        ESC, 0x5b, 0x3f, 0x37, 0x68,
        ESC, 0x5b, 0x3f, 0x32, 0x35, 0x68,
        ESC, 0x5b, 0x3f, 0x31, 0x30, 0x34, 0x39, 0x6c,
    ];
    push_all(&mut bytes, seq.as_slice());
    assert(bytes@ =~= session_end());
    bytes
}

} // verus!
