use term_video::cell::{CellData, Color, RgbColor};
use term_video::processor::{chunk_size, ColorMode, FrameProcessor, GlyphStrategy, Quad, Shape};
use term_video::quantizer::ColorQuantizer;

fn striped_frame() -> Vec<u8> {
    // Layout: row major [ (x=0,y=0), (x=1,y=0), (x=0,y=1), (x=1,y=1), (x=0,y=2), (x=1,y=2), (x=0,y=3), (x=1,y=3) ]
    let mut frame = vec![0u8; 2 * 4 * 3];
    // (0,0) red
    frame[0] = 255; frame[1] = 0; frame[2] = 0;
    // (1,0) red
    frame[3] = 255; frame[4] = 0; frame[5] = 0;
    // (0,1) green
    frame[6] = 0; frame[7] = 255; frame[8] = 0;
    // (1,1) green
    frame[9] = 0; frame[10] = 255; frame[11] = 0;
    // (0,2) blue
    frame[12] = 0; frame[13] = 0; frame[14] = 255;
    // (1,2) blue
    frame[15] = 0; frame[16] = 0; frame[17] = 255;
    // (0,3) yellow
    frame[18] = 255; frame[19] = 255; frame[20] = 0;
    // (1,3) yellow
    frame[21] = 255; frame[22] = 255; frame[23] = 0;
    frame
}

#[test]
fn test_process_frame_half_block() {
    // Width 2, Height 4 => term_height = 2
    let proc = FrameProcessor::new(2, 4);
    let frame = striped_frame();

    let cells = proc.process_frame(&frame);
    assert_eq!(cells.len(), 2 * 2); // term_width * term_height
    // First terminal row cell 0 should be fg=red, bg=green
    assert_eq!(cells[0].fg, Color::Rgb(RgbColor(255, 0, 0)));
    assert_eq!(cells[0].bg, Color::Rgb(RgbColor(0, 255, 0)));
    // Second terminal row cell 0 should be fg=blue, bg=yellow
    assert_eq!(cells[2].fg, Color::Rgb(RgbColor(0, 0, 255)));
    assert_eq!(cells[2].bg, Color::Rgb(RgbColor(255, 255, 0)));
}

#[test]
fn processor_test_process_frame_half_block() {
    // Width 2, Height 4 => term_height = 2
    let proc = FrameProcessor::new(2, 4).with_color_mode(ColorMode::DitheredPalette);
    let frame = striped_frame();

    let cells = proc.process_frame(&frame);
    assert_eq!(cells.len(), 2 * 2); // term_width * term_height

    let expected_red = ColorQuantizer::quantize_rgb(255, 0, 0);
    let expected_green = ColorQuantizer::quantize_rgb(0, 255, 0);
    let expected_blue = ColorQuantizer::quantize_rgb(0, 0, 255);
    let expected_yellow = ColorQuantizer::quantize_rgb(255, 255, 0);

    // First terminal row cell 0 should be fg=red, bg=green
    assert_eq!(cells[0].fg, Color::Indexed(expected_red));
    assert_eq!(cells[0].bg, Color::Indexed(expected_green));
    // Second terminal row cell 0 should be fg=blue, bg=yellow
    assert_eq!(cells[2].fg, Color::Indexed(expected_blue));
    assert_eq!(cells[2].bg, Color::Indexed(expected_yellow));
}

#[test]
fn half_block_cells_are_upper_half_blocks() {
    let proc = FrameProcessor::new(2, 4);
    let cells = proc.process_frame(&striped_frame());
    for c in cells.iter() {
        assert_eq!(c.glyph, '\u{2580}');
    }
    assert_eq!(cells[1], cells[0]);
    assert_eq!(cells[3], cells[2]);
}

#[test]
fn conversion_is_deterministic() {
    let frame: Vec<u8> = (0..(6 * 4 * 3)).map(|i| (i * 37 % 251) as u8).collect();
    for strategy in [GlyphStrategy::HalfBlock, GlyphStrategy::QuadBlock] {
        for mode in [ColorMode::TrueColor, ColorMode::Palette, ColorMode::DitheredPalette] {
            let proc = FrameProcessor::new(6, 4).with_strategy(strategy).with_color_mode(mode);
            let a = proc.process_frame(&frame);
            let b = proc.process_frame(&frame);
            assert_eq!(a, b);
            let expected = match strategy {
                GlyphStrategy::HalfBlock => 6 * 2,
                GlyphStrategy::QuadBlock => 3 * 2,
            };
            assert_eq!(a.len(), expected);
            assert_eq!(proc.checked_cell_count(), Some(expected));
            assert_eq!(proc.cell_count(), expected);
        }
    }
}

#[test]
fn short_buffer_reads_black() {
    let proc = FrameProcessor::new(2, 4);
    // only the first row and a half of the frame
    let mut frame = striped_frame();
    frame.truncate(10);
    let cells = proc.process_frame(&frame);
    assert_eq!(cells.len(), 4);
    assert_eq!(cells[0].fg, Color::Rgb(RgbColor(255, 0, 0)));
    assert_eq!(cells[0].bg, Color::Rgb(RgbColor(0, 255, 0)));
    assert_eq!(cells[1].fg, Color::Rgb(RgbColor(255, 0, 0)));
    // pixel (1,1) starts at byte 9 and is cut off
    assert_eq!(cells[1].bg, Color::Rgb(RgbColor(0, 0, 0)));
    assert_eq!(cells[2].fg, Color::Rgb(RgbColor(0, 0, 0)));
    assert_eq!(cells[3].bg, Color::Rgb(RgbColor(0, 0, 0)));
    let none = proc.process_frame(&[]);
    assert_eq!(none.len(), 4);
    assert_eq!(none[0].fg, Color::Rgb(RgbColor(0, 0, 0)));
}

#[test]
fn short_buffer_reads_black_without_dither() {
    let proc = FrameProcessor::new(2, 4).with_color_mode(ColorMode::DitheredPalette);
    let cells = proc.process_frame(&[]);
    for c in cells.iter() {
        assert_eq!(c.fg, Color::Indexed(16));
        assert_eq!(c.bg, Color::Indexed(16));
    }
}

#[test]
fn long_buffer_is_read_up_to_the_frame() {
    let proc = FrameProcessor::new(2, 4);
    let mut frame = striped_frame();
    let cells = proc.process_frame(&frame);
    frame.extend_from_slice(&[1, 2, 3, 4, 5, 6]);
    assert_eq!(proc.process_frame(&frame), cells);
}

#[test]
fn dither_offsets() {
    // one pixel column, dithered, seen through the palette: use a gray whose
    // ramp step moves with the offset
    // threshold 0 at (0,0): offset -16; threshold 48 at (0,1): offset +8.38
    let proc = FrameProcessor::new(1, 2).with_color_mode(ColorMode::DitheredPalette);
    let frame = vec![100u8, 100, 100, 100, 100, 100];
    let cells = proc.process_frame(&frame);
    assert_eq!(cells.len(), 1);
    assert_eq!(cells[0].fg, Color::Indexed(ColorQuantizer::quantize_rgb(84, 84, 84)));
    assert_eq!(cells[0].bg, Color::Indexed(ColorQuantizer::quantize_rgb(108, 108, 108)));
    // the offset never leaves 0..255
    let dark = vec![3u8, 3, 3, 250, 250, 250];
    let cells = proc.process_frame(&dark);
    assert_eq!(cells[0].fg, Color::Indexed(ColorQuantizer::quantize_rgb(0, 0, 0)));
    assert_eq!(cells[0].bg, Color::Indexed(ColorQuantizer::quantize_rgb(255, 255, 255)));
}

#[test]
fn process_frame_into_fills_or_leaves() {
    let proc = FrameProcessor::new(2, 4);
    let frame = striped_frame();
    let mut cells = vec![CellData::default(); 4];
    proc.process_frame_into(&frame, &mut cells);
    assert_eq!(cells, proc.process_frame(&frame));
    let mut wrong = vec![CellData::default(); 3];
    proc.process_frame_into(&frame, &mut wrong);
    assert_eq!(wrong, vec![CellData::default(); 3]);
}

#[test]
fn ranges_join_to_the_grid() {
    let frame: Vec<u8> = (0..(8 * 6 * 3)).map(|i| (i * 13 % 256) as u8).collect();
    let proc = FrameProcessor::new(8, 6).with_color_mode(ColorMode::Palette);
    let whole = proc.process_frame(&frame);
    let total = proc.cell_count();
    assert_eq!(total, 24);
    let size = chunk_size(total, 5);
    assert_eq!(size, 4);
    let mut joined: Vec<CellData> = Vec::new();
    let mut start = 0;
    while start < total {
        let end = (start + size).min(total);
        joined.extend(proc.process_range(&frame, start, end));
        start = end;
    }
    assert_eq!(joined, whole);
    for i in 0..total {
        assert_eq!(proc.cell(&frame, i), whole[i]);
    }
}

#[test]
fn chunk_sizes() {
    assert_eq!(chunk_size(10001, 8), 2000);
    assert_eq!(chunk_size(10000, 8), 1250);
    assert_eq!(chunk_size(100, 0), 100);
    assert_eq!(chunk_size(3, 8), 1);
    assert_eq!(chunk_size(0, 4), 1);
}

fn rgb(r: u8, g: u8, b: u8) -> RgbColor {
    RgbColor(r, g, b)
}

#[test]
fn quad_shapes() {
    let red = rgb(255, 0, 0);
    let blue = rgb(0, 0, 255);
    let solid = Quad { tl: red, tr: red, bl: red, br: red };
    assert_eq!(solid.nearest_shape(0), Shape::Solid);
    let horizontal = Quad { tl: red, tr: red, bl: blue, br: blue };
    assert_eq!(horizontal.nearest_shape(0), Shape::Horizontal);
    assert_eq!(Shape::Horizontal.error(horizontal), 0);
    assert_eq!(Shape::Horizontal.colors(horizontal), (red, blue));
    let vertical = Quad { tl: red, tr: blue, bl: red, br: blue };
    assert_eq!(vertical.nearest_shape(0), Shape::Vertical);
    assert_eq!(Shape::Vertical.colors(vertical), (red, blue));
    let corner = Quad { tl: blue, tr: red, bl: red, br: red };
    assert_eq!(corner.nearest_shape(0), Shape::UpperLeft);
    assert_eq!(Shape::UpperLeft.colors(corner), (blue, red));
    let corner = Quad { tl: red, tr: blue, bl: red, br: red };
    assert_eq!(corner.nearest_shape(0), Shape::UpperRight);
    let corner = Quad { tl: red, tr: red, bl: blue, br: red };
    assert_eq!(corner.nearest_shape(0), Shape::LowerLeft);
    let corner = Quad { tl: red, tr: red, bl: red, br: blue };
    assert_eq!(corner.nearest_shape(0), Shape::LowerRight);
    assert_eq!(Shape::LowerRight.colors(corner), (blue, red));
    assert_eq!(Shape::LowerRight.glyph(), '\u{25E2}');
}

#[test]
fn quad_errors_and_tolerance() {
    let q = Quad { tl: rgb(10, 0, 0), tr: rgb(12, 0, 0), bl: rgb(10, 0, 0), br: rgb(12, 0, 0) };
    // mean of all four is 11: each pixel is 1 off
    assert_eq!(Shape::Solid.error(q), 4);
    assert_eq!(Shape::Solid.colors(q), (rgb(11, 0, 0), rgb(11, 0, 0)));
    // horizontal halves have mean 11 each as well
    assert_eq!(Shape::Horizontal.error(q), 4);
    assert_eq!(Shape::Vertical.error(q), 0);
    // upper left against the mean of (12, 10, 12) = 11
    assert_eq!(Shape::UpperLeft.error(q), 0 + 1 + 1 + 1);
    assert!(!q.is_uniform(3));
    assert!(q.is_uniform(4));
    assert_eq!(q.nearest_shape(3), Shape::Vertical);
    assert_eq!(q.nearest_shape(4), Shape::Solid);
}

#[test]
fn quad_block_frame() {
    // 4x2 pixels: the left block is red over blue, the right block all green
    let red = [255u8, 0, 0];
    let blue = [0u8, 0, 255];
    let green = [0u8, 255, 0];
    let mut frame: Vec<u8> = Vec::new();
    for p in [red, red, green, green, blue, blue, green, green] {
        frame.extend_from_slice(&p);
    }
    let proc = FrameProcessor::new(4, 2).with_strategy(GlyphStrategy::QuadBlock);
    let cells = proc.process_frame(&frame);
    assert_eq!(cells.len(), 2);
    assert_eq!(
        cells[0],
        CellData {
            glyph: '\u{2580}',
            fg: Color::Rgb(rgb(255, 0, 0)),
            bg: Color::Rgb(rgb(0, 0, 255)),
        }
    );
    assert_eq!(
        cells[1],
        CellData { glyph: ' ', fg: Color::Rgb(rgb(0, 255, 0)), bg: Color::Rgb(rgb(0, 255, 0)) }
    );
    let palette = proc.with_color_mode(ColorMode::Palette).process_frame(&frame);
    assert_eq!(palette[0].fg, Color::Indexed(196));
    assert_eq!(palette[0].bg, Color::Indexed(21));
    assert_eq!(palette[1].bg, Color::Indexed(46));
}

#[test]
fn odd_sizes_drop_the_last_row_and_column() {
    let frame = vec![200u8; 5 * 5 * 3];
    let half = FrameProcessor::new(5, 5);
    assert_eq!(half.process_frame(&frame).len(), 5 * 2);
    let quad = half.with_strategy(GlyphStrategy::QuadBlock);
    assert_eq!(quad.columns(), 2);
    assert_eq!(quad.process_frame(&frame).len(), 2 * 2);
    assert_eq!(FrameProcessor::new(0, 10).process_frame(&frame).len(), 0);
    assert_eq!(FrameProcessor::new(10, 1).process_frame(&frame).len(), 0);
}

#[test]
fn cell_count_that_does_not_fit() {
    let proc = FrameProcessor::new(usize::MAX, 4);
    assert_eq!(proc.checked_cell_count(), None);
}
