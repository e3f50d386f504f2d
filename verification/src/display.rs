//! Diffing of cell grids and encoding of the difference as terminal output.
//!
//! A frame is painted over what the screen showed before. A cell is painted
//! again only where it changed by more than a noise threshold, a cursor move
//! is written only where the painted cells are not next to each other, and a
//! colour is set only where it differs from the colour set last. The whole
//! frame stands between the marks of a synchronized update, so that the
//! terminal shows it at once.

use vstd::prelude::*;
use crate::ansi::{
    clear_screen, cursor_to, glyph_bytes, push_clear_screen, push_cursor_to, push_glyph,
    push_set_bg, push_set_fg, push_style_reset, push_sync_begin, push_sync_end,
    session_end_sequence, session_start_sequence, set_bg, set_fg, style_reset, sync_begin,
    sync_end,
};
use crate::cell::{blank_cell, rgb_distance_sq, CellData, Color, RgbColor};
use crate::channel::{offer_bytes, send_bytes, Offer};
use crossbeam_channel::Sender;
use crate::quantizer::{palette_rgb, ColorQuantizer};

verus! {

/// What the terminal is asked to show.
#[derive(Clone, Copy, PartialEq, Eq, Structural, Debug)]
pub enum DisplayMode {
    /// Plain characters without colour, darker or denser by brightness: the
    /// fallback for terminals without colour.
    Ascii,
    /// Coloured glyphs.
    Rgb,
}

/// Squared colour distance up to which a cell counts as unchanged, unless
/// another threshold is set.
pub const DEFAULT_DIFF_THRESHOLD: u32 = 100;

/// What the renderer knows of the screen: the mode, the noise threshold and
/// the cells it painted last.
pub struct Screen {
    /// What the terminal is asked to show.
    pub mode: DisplayMode,
    /// Squared colour distance up to which a cell counts as unchanged.
    pub threshold: int,
    /// The cells as they were painted last. Empty before the first frame.
    pub shown: Seq<CellData>,
}

/// Where a grid lies on the terminal.
pub struct Layout {
    /// Cells in one row of the grid.
    pub width: int,
    /// Terminal column of the grid's first column.
    pub offset_x: int,
    /// Terminal row of the grid's first row.
    pub offset_y: int,
    /// Columns of the terminal.
    pub term_cols: int,
    /// Rows of the terminal.
    pub term_rows: int,
}

/// What the encoder carries from one cell of a frame to the next.
pub struct Pen {
    /// Column and row where the terminal's cursor is known to stand, if it
    /// is known.
    pub at: Option<(int, int)>,
    /// Foreground colour set last in this frame.
    pub fg: Option<Color>,
    /// Background colour set last in this frame.
    pub bg: Option<Color>,
}

/// How one frame is painted.
pub struct Frame {
    /// What the terminal is asked to show.
    pub mode: DisplayMode,
    /// Squared colour distance up to which a cell counts as unchanged.
    pub threshold: int,
    /// Whether every cell is painted, changed or not.
    pub forced: bool,
    /// Where the grid lies on the terminal.
    pub layout: Layout,
}

/// A frame painted up to some cell.
pub struct Painted {
    /// The bytes written for the cells so far.
    pub bytes: Seq<u8>,
    /// What the encoder carries on.
    pub pen: Pen,
    /// The screen's cells with the painted ones replaced.
    pub shown: Seq<CellData>,
}

/// The bytes of a whole frame and the screen after it.
pub struct FrameUpdate {
    /// The bytes to write.
    pub bytes: Seq<u8>,
    /// The screen once they are written.
    pub screen: Screen,
}

/// Margin that centres a grid of the given extent in the room there is. A
/// grid that does not fit starts at the edge.
pub open spec fn centering(extent: int, room: int) -> int {
    if room > extent {
        (room - extent) / 2
    } else {
        0
    }
}

/// Where a grid of `len` cells in rows of `width` lies on a terminal.
pub open spec fn layout_of(len: int, width: int, term_cols: int, term_rows: int) -> Layout {
    Layout {
        width,
        offset_x: centering(width, term_cols),
        offset_y: centering(len / width, term_rows),
        term_cols,
        term_rows,
    }
}

impl Layout {
    /// Terminal column of cell `i`, counted from 0.
    pub open spec fn column(self, i: int) -> int {
        i % self.width + self.offset_x
    }

    /// Terminal row of cell `i`, counted from 0.
    pub open spec fn row(self, i: int) -> int {
        i / self.width + self.offset_y
    }

    /// Whether cell `i` lies on the terminal.
    pub open spec fn shows(self, i: int) -> bool {
        self.column(i) < self.term_cols && self.row(i) < self.term_rows
    }
}

/// Whether a colour changed by more than the threshold. Two 24-bit colours
/// are compared by their squared distance; every other pair is changed unless
/// equal.
pub open spec fn color_changed(old: Color, new: Color, threshold: int) -> bool {
    match (old, new) {
        (Color::Rgb(a), Color::Rgb(b)) => rgb_distance_sq(a, b) > threshold,
        _ => old != new,
    }
}

/// Whether a cell changed: another glyph, or a colour changed by more than
/// the threshold.
pub open spec fn cell_changed(old: CellData, new: CellData, threshold: int) -> bool {
    ||| old.glyph != new.glyph
    ||| color_changed(old.fg, new.fg, threshold)
    ||| color_changed(old.bg, new.bg, threshold)
}

/// The 24-bit colour that a cell colour shows.
pub open spec fn color_rgb(c: Color) -> RgbColor {
    match c {
        Color::Rgb(rgb) => rgb,
        Color::Indexed(n) => RgbColor(palette_rgb(n).0, palette_rgb(n).1, palette_rgb(n).2),
    }
}

/// Perceived brightness of a colour, 0 to 255.
pub open spec fn luminance(c: RgbColor) -> int {
    (c.0 * 299 + c.1 * 587 + c.2 * 114) / 1000
}

/// The characters that stand for brightness in plain mode, darkest first:
/// ` .:-=+*#%@`.
pub open spec fn ascii_ramp() -> Seq<u8> {
    seq![0x20u8, 0x2eu8, 0x3au8, 0x2du8, 0x3du8, 0x2bu8, 0x2au8, 0x23u8, 0x25u8, 0x40u8]
}

/// The character that stands for a colour in plain mode.
pub open spec fn ascii_shade(c: Color) -> u8 {
    ascii_ramp()[luminance(color_rgb(c)) * 9 / 255]
}

/// The cursor move needed before painting at a column and row: none if the
/// cursor stands there already.
pub open spec fn move_bytes(pen: Pen, col: int, row: int) -> Seq<u8> {
    if pen.at == Some((col, row)) {
        Seq::<u8>::empty()
    } else {
        cursor_to((row + 1) as nat, (col + 1) as nat)
    }
}

/// The foreground change needed before painting a cell: none if that colour
/// was set last.
pub open spec fn fg_bytes(pen: Pen, c: Color) -> Seq<u8> {
    if pen.fg == Some(c) {
        Seq::<u8>::empty()
    } else {
        set_fg(c)
    }
}

/// The background change needed before painting a cell: none if that colour
/// was set last.
pub open spec fn bg_bytes(pen: Pen, c: Color) -> Seq<u8> {
    if pen.bg == Some(c) {
        Seq::<u8>::empty()
    } else {
        set_bg(c)
    }
}

/// The bytes that paint a cell once the cursor stands on it.
pub open spec fn ink_bytes(mode: DisplayMode, pen: Pen, cell: CellData) -> Seq<u8> {
    match mode {
        DisplayMode::Rgb => fg_bytes(pen, cell.fg) + bg_bytes(pen, cell.bg) + glyph_bytes(
            cell.glyph,
        ),
        DisplayMode::Ascii => seq![ascii_shade(cell.fg)],
    }
}

/// The pen after painting a cell at a column and row: the cursor stands one
/// column on, and in colour mode the cell's colours are the ones set last.
pub open spec fn pen_after(mode: DisplayMode, pen: Pen, col: int, row: int, cell: CellData)
    -> Pen {
    match mode {
        DisplayMode::Rgb => Pen { at: Some((col + 1, row)), fg: Some(cell.fg), bg: Some(cell.bg) },
        DisplayMode::Ascii => Pen { at: Some((col + 1, row)), fg: pen.fg, bg: pen.bg },
    }
}

/// The pen at the start of a frame: nothing is known.
pub open spec fn fresh_pen() -> Pen {
    Pen { at: None, fg: None, bg: None }
}

impl Frame {
    /// Whether cell `i` is painted: it lies on the terminal, and it changed
    /// or the frame paints everything.
    pub open spec fn paints(self, old: CellData, new: CellData, i: int) -> bool {
        (self.forced || cell_changed(old, new, self.threshold)) && self.layout.shows(i)
    }
}

/// A frame painted one cell further. A cell that is not painted writes
/// nothing and leaves the cursor's place unknown.
pub open spec fn paint_cell(frame: Frame, before: Painted, i: int, cell: CellData) -> Painted {
    if frame.paints(before.shown[i], cell, i) {
        let col = frame.layout.column(i);
        let row = frame.layout.row(i);
        Painted {
            bytes: before.bytes + move_bytes(before.pen, col, row) + ink_bytes(
                frame.mode,
                before.pen,
                cell,
            ),
            pen: pen_after(frame.mode, before.pen, col, row, cell),
            shown: before.shown.update(i, cell),
        }
    } else {
        Painted {
            bytes: before.bytes,
            pen: Pen { at: None, fg: before.pen.fg, bg: before.pen.bg },
            shown: before.shown,
        }
    }
}

/// A frame painted up to, not including, cell `n`, over a screen that showed
/// `shown`.
pub open spec fn paint(frame: Frame, shown: Seq<CellData>, cells: Seq<CellData>, n: nat)
    -> Painted
    decreases n,
{
    if n == 0 {
        Painted { bytes: Seq::<u8>::empty(), pen: fresh_pen(), shown }
    } else {
        paint_cell(frame, paint(frame, shown, cells, (n - 1) as nat), n - 1, cells[n - 1])
    }
}

/// A grid of blank cells.
pub open spec fn blank_grid(len: nat) -> Seq<CellData> {
    Seq::new(len, |i: int| blank_cell())
}

/// Whether a grid has to be painted in full: its length is not that of the
/// grid shown before.
pub open spec fn repaints(screen: Screen, cells: Seq<CellData>) -> bool {
    screen.shown.len() != cells.len()
}

/// How a grid is painted over a screen.
pub open spec fn frame_of(
    screen: Screen,
    cells: Seq<CellData>,
    width: int,
    term_cols: int,
    term_rows: int,
) -> Frame {
    Frame {
        mode: screen.mode,
        threshold: screen.threshold,
        forced: repaints(screen, cells),
        layout: layout_of(cells.len() as int, width, term_cols, term_rows),
    }
}

/// The bytes that bring a screen up to a grid, and the screen after them.
///
/// The bytes are: the start of a synchronized update; a clear of the whole
/// screen if the grid has another length than the one shown before; the
/// painted cells; a style reset; the end of the synchronized update.
pub open spec fn frame_update(
    screen: Screen,
    cells: Seq<CellData>,
    width: int,
    term_cols: int,
    term_rows: int,
) -> FrameUpdate {
    let frame = frame_of(screen, cells, width, term_cols, term_rows);
    let base = if frame.forced {
        blank_grid(cells.len())
    } else {
        screen.shown
    };
    let painted = paint(frame, base, cells, cells.len());
    let clear = if frame.forced {
        clear_screen()
    } else {
        Seq::<u8>::empty()
    };
    FrameUpdate {
        bytes: sync_begin() + clear + painted.bytes + style_reset() + sync_end(),
        screen: Screen { mode: screen.mode, threshold: screen.threshold, shown: painted.shown },
    }
}

/// The bytes of a frame in which no cell is painted: the marks of the
/// synchronized update round a style reset.
pub open spec fn idle_frame() -> Seq<u8> {
    sync_begin() + style_reset() + sync_end()
}

/// What painting leaves on the screen: a painted cell shows the new cell,
/// every other cell what it showed before.
pub proof fn lemma_paint_shown(frame: Frame, shown: Seq<CellData>, cells: Seq<CellData>, n: nat)
    requires
        n <= cells.len(),
        n <= shown.len(),
    ensures
        paint(frame, shown, cells, n).shown.len() == shown.len(),
        forall|j: int|
            0 <= j < shown.len() ==> #[trigger] paint(frame, shown, cells, n).shown[j] == (if j < n
                && frame.paints(shown[j], cells[j], j) {
                cells[j]
            } else {
                shown[j]
            }),
    decreases n,
{
    if n > 0 {
        lemma_paint_shown(frame, shown, cells, (n - 1) as nat);
    }
}

/// Where no cell is painted nothing is written and the screen stays as it
/// is.
pub proof fn lemma_paint_nothing(frame: Frame, shown: Seq<CellData>, cells: Seq<CellData>, n: nat)
    requires
        n <= cells.len(),
        n <= shown.len(),
        forall|j: int| 0 <= j < n ==> !frame.paints(#[trigger] shown[j], cells[j], j),
    ensures
        paint(frame, shown, cells, n).bytes == Seq::<u8>::empty(),
        paint(frame, shown, cells, n).shown == shown,
    decreases n,
{
    if n > 0 {
        lemma_paint_nothing(frame, shown, cells, (n - 1) as nat);
        assert(!frame.paints(shown[n - 1], cells[n - 1], n - 1));
    }
}

/// A frame that paints everything does not look at the threshold.
pub proof fn lemma_forced_paint_ignores_threshold(
    a: Frame,
    b: Frame,
    shown: Seq<CellData>,
    cells: Seq<CellData>,
    n: nat,
)
    requires
        a.forced,
        b.forced,
        a.mode == b.mode,
        a.layout == b.layout,
    ensures
        paint(a, shown, cells, n) == paint(b, shown, cells, n),
    decreases n,
{
    if n > 0 {
        lemma_forced_paint_ignores_threshold(a, b, shown, cells, (n - 1) as nat);
    }
}

/// No cell differs from itself, at any threshold.
pub proof fn lemma_cell_unchanged_from_itself(cell: CellData, threshold: int)
    requires
        threshold >= 0,
    ensures
        !cell_changed(cell, cell, threshold),
{
    match cell.fg {
        Color::Rgb(c) => {
            crate::cell::lemma_distance_zero_iff_equal(c, c);
        },
        Color::Indexed(_) => {},
    }
    match cell.bg {
        Color::Rgb(c) => {
            crate::cell::lemma_distance_zero_iff_equal(c, c);
        },
        Color::Indexed(_) => {},
    }
}

/// Rendering the same grid a second time, on a terminal of the same size,
/// paints no cell: the second frame holds nothing but the marks of the
/// synchronized update and the style reset, and the screen stays as the first
/// frame left it. This holds at a threshold of zero and at every other.
pub proof fn lemma_second_render_is_idle(
    screen: Screen,
    cells: Seq<CellData>,
    width: int,
    term_cols: int,
    term_rows: int,
)
    requires
        screen.threshold >= 0,
    ensures
        ({
            let first = frame_update(screen, cells, width, term_cols, term_rows);
            let second = frame_update(first.screen, cells, width, term_cols, term_rows);
            &&& second.bytes == idle_frame()
            &&& second.screen == first.screen
        }),
{
    let len = cells.len();
    let first_frame = frame_of(screen, cells, width, term_cols, term_rows);
    let base = if first_frame.forced {
        blank_grid(len)
    } else {
        screen.shown
    };
    let first = frame_update(screen, cells, width, term_cols, term_rows);
    lemma_paint_shown(first_frame, base, cells, len);
    let after = first.screen.shown;
    assert(after.len() == len);
    let second_frame = frame_of(first.screen, cells, width, term_cols, term_rows);
    assert(!second_frame.forced);
    assert(second_frame.layout == first_frame.layout);
    assert forall|j: int| 0 <= j < len implies !second_frame.paints(
        #[trigger] after[j],
        cells[j],
        j,
    ) by {
        if second_frame.layout.shows(j) {
            if first_frame.paints(base[j], cells[j], j) {
                assert(after[j] == cells[j]);
                lemma_cell_unchanged_from_itself(cells[j], screen.threshold);
            } else {
                assert(after[j] == base[j]);
            }
        }
    }
    lemma_paint_nothing(second_frame, after, cells, len);
    let second = frame_update(first.screen, cells, width, term_cols, term_rows);
    assert(second.bytes =~= idle_frame());
}

/// A grid whose length is not that of the grid shown before (the first
/// grid of a session, if it has any cell) is painted in full. The frame
/// clears the screen, and every cell that lies on the terminal is painted and
/// shown afterwards. Neither the threshold nor what was shown before has any
/// part in it: two screens in the same mode get the same bytes and show the
/// same cells afterwards.
pub proof fn lemma_new_length_repaints_all(
    screen: Screen,
    other: Screen,
    cells: Seq<CellData>,
    width: int,
    term_cols: int,
    term_rows: int,
)
    requires
        repaints(screen, cells),
        repaints(other, cells),
        screen.mode == other.mode,
    ensures
        ({
            let update = frame_update(screen, cells, width, term_cols, term_rows);
            let layout = layout_of(cells.len() as int, width, term_cols, term_rows);
            &&& (sync_begin() + clear_screen()).is_prefix_of(update.bytes)
            &&& update.screen.shown.len() == cells.len()
            &&& forall|i: int|
                0 <= i < cells.len() ==> #[trigger] update.screen.shown[i] == (if layout.shows(i) {
                    cells[i]
                } else {
                    blank_cell()
                })
            &&& update.bytes == frame_update(other, cells, width, term_cols, term_rows).bytes
            &&& update.screen.shown == frame_update(
                other,
                cells,
                width,
                term_cols,
                term_rows,
            ).screen.shown
        }),
{
    let len = cells.len();
    let frame = frame_of(screen, cells, width, term_cols, term_rows);
    let other_frame = frame_of(other, cells, width, term_cols, term_rows);
    let base = blank_grid(len);
    lemma_paint_shown(frame, base, cells, len);
    lemma_forced_paint_ignores_threshold(frame, other_frame, base, cells, len);
    let update = frame_update(screen, cells, width, term_cols, term_rows);
    let opening = sync_begin() + clear_screen();
    assert(update.bytes.subrange(0, opening.len() as int) =~= opening);
}

/// Whether a colour changed by more than the threshold.
fn color_differs(old: Color, new: Color, threshold: u32) -> (changed: bool)
    ensures
        changed == color_changed(old, new, threshold as int),
{
    match (old, new) {
        (Color::Rgb(a), Color::Rgb(b)) => a.distance_sq(b) > threshold,
        (Color::Indexed(a), Color::Indexed(b)) => a != b,
        _ => true,
    }
}

/// Whether a cell changed by more than the threshold.
fn cell_differs(old: &CellData, new: &CellData, threshold: u32) -> (changed: bool)
    ensures
        changed == cell_changed(*old, *new, threshold as int),
{
    old.glyph != new.glyph || color_differs(old.fg, new.fg, threshold) || color_differs(
        old.bg,
        new.bg,
        threshold,
    )
}

/// The character that stands for a colour in plain mode.
fn shade_of(c: Color) -> (shade: u8)
    ensures
        shade == ascii_shade(c),
{
    let rgb: RgbColor = match c {
        Color::Rgb(rgb) => rgb,
        Color::Indexed(n) => {
            let (r, g, b) = ColorQuantizer::ansi256_to_rgb(n);
            RgbColor(r, g, b)
        },
    };
    let brightness: u32 = (rgb.0 as u32 * 299 + rgb.1 as u32 * 587 + rgb.2 as u32 * 114) / 1000;
    let ramp: [u8; 10] = [0x20, 0x2e, 0x3a, 0x2d, 0x3d, 0x2b, 0x2a, 0x23, 0x25, 0x40];
    assert(ramp@ =~= ascii_ramp());
    ramp[(brightness * 9 / 255) as usize]
}

/// Margin that centres a grid of the given extent in the room there is.
fn margin(extent: usize, room: u16) -> (m: u16)
    ensures
        m == centering(extent as int, room as int),
{
    if room as usize > extent {
        ((room as usize - extent) / 2) as u16
    } else {
        0
    }
}

/// Where a grid lies on the terminal, in machine integers.
struct Placement {
    width: usize,
    offset_x: u16,
    offset_y: u16,
    term_cols: u16,
    term_rows: u16,
}

impl Placement {
    spec fn layout(self) -> Layout {
        Layout {
            width: self.width as int,
            offset_x: self.offset_x as int,
            offset_y: self.offset_y as int,
            term_cols: self.term_cols as int,
            term_rows: self.term_rows as int,
        }
    }

    /// Terminal column and row of cell `i`, if it lies on the terminal.
    fn place(&self, i: usize) -> (at: Option<(u16, u16)>)
        requires
            self.width > 0,
        ensures
            match at {
                Some((col, row)) => self.layout().shows(i as int) && col == self.layout().column(
                    i as int,
                ) && row == self.layout().row(i as int),
                None => !self.layout().shows(i as int),
            },
    {
        let x: usize = i % self.width;
        let y: usize = i / self.width;
        if x >= self.term_cols as usize || y >= self.term_rows as usize {
            return None;
        }
        let col: usize = x + self.offset_x as usize;
        let row: usize = y + self.offset_y as usize;
        if col >= self.term_cols as usize || row >= self.term_rows as usize {
            return None;
        }
        Some((col as u16, row as u16))
    }
}

/// The pen in machine integers.
struct PenState {
    at: Option<(u16, u16)>,
    fg: Option<Color>,
    bg: Option<Color>,
}

impl PenState {
    spec fn pen(self) -> Pen {
        Pen {
            at: match self.at {
                Some((col, row)) => Some((col as int, row as int)),
                None => None,
            },
            fg: self.fg,
            bg: self.bg,
        }
    }

    /// Whether the cursor is known to stand at a column and row.
    fn stands_at(&self, col: u16, row: u16) -> (there: bool)
        ensures
            there == (self.pen().at == Some((col as int, row as int))),
    {
        match self.at {
            Some((c, r)) => c == col && r == row,
            None => false,
        }
    }

    /// Whether a colour is the foreground set last.
    fn has_fg(&self, c: Color) -> (same: bool)
        ensures
            same == (self.pen().fg == Some(c)),
    {
        match self.fg {
            Some(last) => last == c,
            None => false,
        }
    }

    /// Whether a colour is the background set last.
    fn has_bg(&self, c: Color) -> (same: bool)
        ensures
            same == (self.pen().bg == Some(c)),
    {
        match self.bg {
            Some(last) => last == c,
            None => false,
        }
    }
}

/// Writes one cell that has to be painted, at its column and row.
fn write_cell(
    out: &mut Vec<u8>,
    pen: &mut PenState,
    mode: DisplayMode,
    col: u16,
    row: u16,
    cell: &CellData,
)
    requires
        col < 65535,
        row < 65535,
    ensures
        final(out)@ == old(out)@ + move_bytes(old(pen).pen(), col as int, row as int) + ink_bytes(
            mode,
            old(pen).pen(),
            *cell,
        ),
        final(pen).pen() == pen_after(mode, old(pen).pen(), col as int, row as int, *cell),
{
    if !pen.stands_at(col, row) {
        push_cursor_to(out, row + 1, col + 1);
    }
    let ghost moved = out@;
    match mode {
        DisplayMode::Rgb => {
            if !pen.has_fg(cell.fg) {
                push_set_fg(out, cell.fg);
                pen.fg = Some(cell.fg);
            }
            let ghost with_fg = out@;
            if !pen.has_bg(cell.bg) {
                push_set_bg(out, cell.bg);
                pen.bg = Some(cell.bg);
            }
            let ghost with_bg = out@;
            push_glyph(out, cell.glyph);
            assert(out@ =~= moved + ink_bytes(mode, old(pen).pen(), *cell));
        },
        DisplayMode::Ascii => {
            out.push(shade_of(cell.fg));
            assert(out@ =~= moved + ink_bytes(mode, old(pen).pen(), *cell));
        },
    }
    pen.at = Some((col + 1, row));
    assert(out@ =~= old(out)@ + move_bytes(old(pen).pen(), col as int, row as int) + ink_bytes(
        mode,
        old(pen).pen(),
        *cell,
    ));
}

/// The renderer's memory of the screen.
pub struct RenderState {
    /// What the terminal is asked to show.
    pub mode: DisplayMode,
    /// Squared colour distance up to which a cell counts as unchanged.
    pub diff_threshold: u32,
    /// The cells as they were painted last.
    pub previous: Vec<CellData>,
}

impl View for RenderState {
    type V = Screen;

    open spec fn view(&self) -> Screen {
        Screen {
            mode: self.mode,
            threshold: self.diff_threshold as int,
            shown: self.previous@,
        }
    }
}

impl RenderState {
    /// The state before the first frame, with the default threshold.
    pub fn new(mode: DisplayMode) -> (state: Self)
        ensures
            state@ == (Screen {
                mode,
                threshold: DEFAULT_DIFF_THRESHOLD as int,
                shown: Seq::<CellData>::empty(),
            }),
    {
        RenderState { mode, diff_threshold: DEFAULT_DIFF_THRESHOLD, previous: Vec::new() }
    }

    /// The same state with another noise threshold.
    pub fn with_diff_threshold(self, diff_threshold: u32) -> (state: Self)
        ensures
            state@ == (Screen { threshold: diff_threshold as int, ..self@ }),
    {
        RenderState { mode: self.mode, diff_threshold, previous: self.previous }
    }

    /// Appends to `out` the bytes that bring the screen up to the grid, and
    /// remembers what was painted. `width` is the number of cells in a row of
    /// the grid; the terminal's size says where the grid lies and what of it
    /// lies outside.
    pub fn encode_frame(
        &mut self,
        cells: &[CellData],
        width: usize,
        term_cols: u16,
        term_rows: u16,
        out: &mut Vec<u8>,
    )
        requires
            width > 0,
        ensures
            final(self)@ == frame_update(
                old(self)@,
                cells@,
                width as int,
                term_cols as int,
                term_rows as int,
            ).screen,
            final(out)@ == old(out)@ + frame_update(
                old(self)@,
                cells@,
                width as int,
                term_cols as int,
                term_rows as int,
            ).bytes,
    {
        let ghost frame = frame_of(
            self@,
            cells@,
            width as int,
            term_cols as int,
            term_rows as int,
        );
        let len: usize = cells.len();
        push_sync_begin(out);
        let forced: bool = self.previous.len() != len;
        if forced {
            push_clear_screen(out);
            self.previous = vec![CellData::blank(); len];
            assert(self.previous@ =~= blank_grid(len as nat));
        }
        let ghost head = out@;
        let ghost base = self.previous@;
        let placement: Placement = Placement {
            width,
            offset_x: margin(width, term_cols),
            offset_y: margin(len / width, term_rows),
            term_cols,
            term_rows,
        };
        assert(placement.layout() == frame.layout);
        let mode: DisplayMode = self.mode;
        let threshold: u32 = self.diff_threshold;
        let mut pen: PenState = PenState { at: None, fg: None, bg: None };
        let mut i: usize = 0;
        while i < len
            invariant
                i <= len == cells@.len(),
                width > 0,
                placement.width == width,
                placement.layout() == frame.layout,
                frame.mode == mode,
                frame.threshold == threshold as int,
                frame.forced == forced,
                self.mode == mode,
                self.diff_threshold == threshold,
                self.previous@.len() == len,
                base.len() == len,
                out@ == head + paint(frame, base, cells@, i as nat).bytes,
                pen.pen() == paint(frame, base, cells@, i as nat).pen,
                self.previous@ == paint(frame, base, cells@, i as nat).shown,
            decreases len - i,
        {
            let ghost before = paint(frame, base, cells@, i as nat);
            let cell: &CellData = &cells[i];
            let changed: bool = forced || cell_differs(&self.previous[i], cell, threshold);
            let at: Option<(u16, u16)> = if changed {
                placement.place(i)
            } else {
                None
            };
            match at {
                Some((col, row)) => {
                    write_cell(out, &mut pen, mode, col, row, cell);
                    self.previous[i] = *cell;
                    assert(out@ =~= head + paint_cell(frame, before, i as int, *cell).bytes);
                },
                None => {
                    pen.at = None;
                    assert(out@ =~= head + paint_cell(frame, before, i as int, *cell).bytes);
                },
            }
            i = i + 1;
        }
        let ghost painted = out@;
        push_style_reset(out);
        push_sync_end(out);
        assert(out@ =~= old(out)@ + frame_update(
            old(self)@,
            cells@,
            width as int,
            term_cols as int,
            term_rows as int,
        ).bytes);
    }
}

/// Why a frame was not rendered.
#[derive(Clone, Copy, PartialEq, Eq, Structural, Debug)]
pub enum RenderError {
    /// The display was closed before.
    Closed,
    /// The writer no longer reads its queue.
    WriterGone,
}

/// What rendering answers for each outcome of offering a frame to the
/// writer: a frame that the writer had no room for is dropped and is no
/// error; a writer that is gone is one.
pub open spec fn render_result(outcome: Offer) -> Result<(), RenderError> {
    match outcome {
        Offer::Sent => Ok(()),
        Offer::Full => Ok(()),
        Offer::Disconnected => Err(RenderError::WriterGone),
    }
}

/// What rendering answers for an outcome of offering a frame to the writer.
pub fn offer_result(outcome: Offer) -> (r: Result<(), RenderError>)
    ensures
        r == render_result(outcome),
{
    match outcome {
        Offer::Sent => Ok(()),
        Offer::Full => Ok(()),
        Offer::Disconnected => Err(RenderError::WriterGone),
    }
}

/// A terminal size in characters, from what the terminal reported and the
/// size of a character cell in pixels where that is known. A reported width
/// above sixteen cell widths is taken for pixels and divided by the cell
/// width, a reported height above eight cell heights likewise; neither
/// becomes less than one. Without a cell size, or with a cell size of zero,
/// the report stands.
pub open spec fn size_in_chars(reported: (u16, u16), cell: Option<(u16, u16)>) -> (u16, u16) {
    match cell {
        Some((cw, ch)) => (
            if cw > 0 && reported.0 > cw * 16 {
                (reported.0 / cw) as u16
            } else {
                reported.0
            },
            if ch > 0 && reported.1 > ch * 8 {
                (reported.1 / ch) as u16
            } else {
                reported.1
            },
        ),
        None => reported,
    }
}

/// A product held to the largest value of sixteen bits.
pub open spec fn saturating_u16(product: int) -> int {
    if product > u16::MAX {
        u16::MAX as int
    } else {
        product
    }
}

/// A terminal size in characters, from what the terminal reported and the
/// size of a character cell in pixels if both of its sides are known and not
/// zero. A report of at least 32 cell widths by at least 16 cell heights
/// (each product held to sixteen bits) is taken for pixels and divided by the
/// cell size; any other report stands.
pub open spec fn normalized_size(
    raw_cols: u16,
    raw_rows: u16,
    char_width: Option<u16>,
    char_height: Option<u16>,
) -> (u16, u16) {
    match (char_width, char_height) {
        (Some(cw), Some(ch)) => if cw > 0 && ch > 0 && raw_cols >= saturating_u16(cw * 32)
            && raw_rows >= saturating_u16(ch * 16) {
            ((raw_cols / cw) as u16, (raw_rows / ch) as u16)
        } else {
            (raw_cols, raw_rows)
        },
        _ => (raw_cols, raw_rows),
    }
}

/// A terminal size in characters, from what the terminal reported and the
/// size of a character cell in pixels where it is known.
pub fn normalize_terminal_size(
    raw_cols: u16,
    raw_rows: u16,
    char_width: Option<u16>,
    char_height: Option<u16>,
) -> (size: (u16, u16))
    ensures
        size == normalized_size(raw_cols, raw_rows, char_width, char_height),
{
    match (char_width, char_height) {
        (Some(cw), Some(ch)) => {
            let wide: u32 = if cw as u32 * 32 > 65535 {
                65535
            } else {
                cw as u32 * 32
            };
            let tall: u32 = if ch as u32 * 16 > 65535 {
                65535
            } else {
                ch as u32 * 16
            };
            if cw > 0 && ch > 0 && raw_cols as u32 >= wide && raw_rows as u32 >= tall {
                (raw_cols / cw, raw_rows / ch)
            } else {
                (raw_cols, raw_rows)
            }
        },
        _ => (raw_cols, raw_rows),
    }
}

/// Renders grids to a terminal through the queue of a writer.
///
/// The writer is a thread of its own that owns the output stream; the queue
/// to it is short. A frame that finds the queue full is dropped: the screen
/// falls behind rather than the player.
pub struct DisplayManager {
    tx: Sender<Vec<u8>>,
    state: RenderState,
    closed: bool,
}

impl DisplayManager {
    /// What the display knows of the screen.
    pub closed spec fn screen(&self) -> Screen {
        self.state@
    }

    /// Whether the display was closed.
    pub closed spec fn is_closed(&self) -> bool {
        self.closed
    }

    /// Opens a display on the queue of a writer and sends the bytes that
    /// open a session.
    pub fn new(mode: DisplayMode, tx: Sender<Vec<u8>>) -> (display: Self)
        ensures
            !display.is_closed(),
            display.screen() == (Screen {
                mode,
                threshold: DEFAULT_DIFF_THRESHOLD as int,
                shown: Seq::<CellData>::empty(),
            }),
    {
        let _ = send_bytes(&tx, session_start_sequence());
        DisplayManager { tx, state: RenderState::new(mode), closed: false }
    }

    /// Sets the squared colour distance up to which a cell counts as
    /// unchanged.
    pub fn set_diff_threshold(&mut self, diff_threshold: u32)
        ensures
            final(self).is_closed() == old(self).is_closed(),
            final(self).screen() == (Screen {
                threshold: diff_threshold as int,
                ..old(self).screen()
            }),
    {
        self.state.diff_threshold = diff_threshold;
    }

    /// A terminal size in characters, from what the terminal reported and
    /// the size of a character cell in pixels where that is known.
    pub fn terminal_size_chars(reported: (u16, u16), cell: Option<(u16, u16)>) -> (size: (
        u16,
        u16,
    ))
        ensures
            size == size_in_chars(reported, cell),
            reported.0 > 0 ==> size.0 > 0,
            reported.1 > 0 ==> size.1 > 0,
    {
        match cell {
            Some((cw, ch)) => {
                let cols: u16 = if cw > 0 && reported.0 as u32 > cw as u32 * 16 {
                    reported.0 / cw
                } else {
                    reported.0
                };
                let rows: u16 = if ch > 0 && reported.1 as u32 > ch as u32 * 8 {
                    reported.1 / ch
                } else {
                    reported.1
                };
                assert(reported.0 > cw * 16 && cw > 0 ==> reported.0 / cw >= 16) by (nonlinear_arith);
                assert(reported.1 > ch * 8 && ch > 0 ==> reported.1 / ch >= 8) by (nonlinear_arith);
                (cols, rows)
            },
            None => reported,
        }
    }

    /// Renders a grid: encodes what differs from the screen and offers the
    /// bytes to the writer without waiting. `width` is the number of cells in
    /// a row of the grid, the terminal's size is the one in characters.
    ///
    /// The screen is remembered as painted whether or not the writer had
    /// room. A closed display renders nothing.
    pub fn render_diff(
        &mut self,
        cells: &[CellData],
        width: usize,
        term_cols: u16,
        term_rows: u16,
    ) -> (r: Result<(), RenderError>)
        requires
            width > 0,
        ensures
            final(self).is_closed() == old(self).is_closed(),
            old(self).is_closed() ==> r == Err::<(), RenderError>(RenderError::Closed),
            old(self).is_closed() ==> final(self).screen() == old(self).screen(),
            !old(self).is_closed() ==> final(self).screen() == frame_update(
                old(self).screen(),
                cells@,
                width as int,
                term_cols as int,
                term_rows as int,
            ).screen,
            !old(self).is_closed() ==> (exists|outcome: Offer| r == render_result(outcome)),
    {
        if self.closed {
            return Err(RenderError::Closed);
        }
        let mut out: Vec<u8> = Vec::new();
        self.state.encode_frame(cells, width, term_cols, term_rows, &mut out);
        let outcome: Offer = offer_bytes(&self.tx, out);
        offer_result(outcome)
    }

    /// Closes the display: sends the bytes that close a session, once.
    pub fn close(&mut self)
        ensures
            final(self).is_closed(),
            final(self).screen() == old(self).screen(),
    {
        if !self.closed {
            let _ = send_bytes(&self.tx, session_end_sequence());
            self.closed = true;
        }
    }
}

} // verus!
