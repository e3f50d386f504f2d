use term_video::quantizer::ColorQuantizer;

#[test]
fn test_quantize_black() {
    assert_eq!(ColorQuantizer::quantize_rgb(0, 0, 0), 16);
}

#[test]
fn test_quantize_white() {
    assert_eq!(ColorQuantizer::quantize_rgb(255, 255, 255), 231);
}

#[test]
fn test_quantize_red() {
    let idx = ColorQuantizer::quantize_rgb(255, 0, 0);
    // Should be in red range of color cube
    assert!(idx >= 16 && idx <= 231);
}

#[test]
fn test_roundtrip_consistency() {
    // Test that quantizing is consistent
    let idx1 = ColorQuantizer::quantize_rgb(128, 64, 192);
    let idx2 = ColorQuantizer::quantize_rgb(128, 64, 192);
    assert_eq!(idx1, idx2);
}

#[test]
fn quantize_red_is_the_cube_corner() {
    assert_eq!(ColorQuantizer::quantize_rgb(255, 0, 0), 196);
    assert_eq!(ColorQuantizer::quantize_rgb(0, 255, 0), 46);
    assert_eq!(ColorQuantizer::quantize_rgb(0, 0, 255), 21);
    assert_eq!(ColorQuantizer::quantize_rgb(255, 255, 0), 226);
}

#[test]
fn quantize_cube_buckets() {
    // 128 * 6 / 256 = 3, 64 * 6 / 256 = 1, 192 * 6 / 256 = 4
    assert_eq!(ColorQuantizer::quantize_rgb(128, 64, 192), 16 + 36 * 3 + 6 * 1 + 4);
}

#[test]
fn quantize_gray_ramp() {
    // level 8 is the first step of the ramp, level 238 the last
    assert_eq!(ColorQuantizer::quantize_rgb(8, 8, 8), 232);
    assert_eq!(ColorQuantizer::quantize_rgb(128, 128, 128), 232 + (120 * 24 / 230) as u8);
    assert_eq!(ColorQuantizer::quantize_rgb(128, 128, 128), 244);
    assert_eq!(ColorQuantizer::quantize_rgb(238, 238, 238), 255);
    assert_eq!(ColorQuantizer::quantize_rgb(237, 237, 237), 255);
    assert_eq!(ColorQuantizer::quantize_rgb(7, 7, 7), 16);
    assert_eq!(ColorQuantizer::quantize_rgb(239, 239, 239), 231);
}

#[test]
fn quantize_gray_tolerance_edge() {
    // a gap of 7 is still gray, a gap of 8 is not
    assert_eq!(ColorQuantizer::quantize_rgb(100, 107, 100), 232 + ((102 - 8) * 24 / 230) as u8);
    assert_eq!(ColorQuantizer::quantize_rgb(100, 108, 100), 16 + 36 * 2 + 6 * 2 + 2);
}

#[test]
fn quantize_never_answers_a_standard_color() {
    let mut r: u16 = 0;
    while r < 256 {
        let mut g: u16 = 0;
        while g < 256 {
            let mut b: u16 = 0;
            while b < 256 {
                assert!(ColorQuantizer::quantize_rgb(r as u8, g as u8, b as u8) >= 16);
                b += 5;
            }
            g += 5;
        }
        r += 5;
    }
}

#[test]
fn table_agrees_with_classification() {
    let q = ColorQuantizer::new();
    let lut = ColorQuantizer::build_lut();
    assert_eq!(lut.len(), 256 * 256 * 256);
    assert_eq!(q.quantize(0, 0, 0), 16);
    assert_eq!(q.quantize(255, 255, 255), 231);
    let mut r: u16 = 0;
    while r < 256 {
        let mut g: u16 = 0;
        while g < 256 {
            let mut b: u16 = 0;
            while b < 256 {
                let direct = ColorQuantizer::quantize_rgb(r as u8, g as u8, b as u8);
                assert_eq!(q.quantize(r as u8, g as u8, b as u8), direct);
                assert_eq!(lut[((r as usize) << 16) | ((g as usize) << 8) | (b as usize)], direct);
                assert_eq!(ColorQuantizer::rgb_to_ansi256(r as u8, g as u8, b as u8), direct);
                b += 17;
            }
            g += 17;
        }
        r += 17;
    }
}

#[test]
fn palette_colors() {
    assert_eq!(ColorQuantizer::ansi256_to_rgb(0), (0, 0, 0));
    assert_eq!(ColorQuantizer::ansi256_to_rgb(7), (192, 192, 192));
    assert_eq!(ColorQuantizer::ansi256_to_rgb(9), (255, 0, 0));
    assert_eq!(ColorQuantizer::ansi256_to_rgb(15), (255, 255, 255));
    assert_eq!(ColorQuantizer::ansi256_to_rgb(16), (0, 0, 0));
    assert_eq!(ColorQuantizer::ansi256_to_rgb(196), (255, 0, 0));
    assert_eq!(ColorQuantizer::ansi256_to_rgb(231), (255, 255, 255));
    assert_eq!(ColorQuantizer::ansi256_to_rgb(16 + 36 + 6 * 2 + 3), (95, 135, 175));
    assert_eq!(ColorQuantizer::ansi256_to_rgb(232), (8, 8, 8));
    assert_eq!(ColorQuantizer::ansi256_to_rgb(255), (238, 238, 238));
}
