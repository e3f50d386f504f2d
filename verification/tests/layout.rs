use term_video::layout::{cinema_grid, fit_size, letterbox, playback_size, AspectMode, Letterbox};

#[test]
fn fitting_proportions() {
    // wider than 16:9: limited by the height
    assert_eq!(fit_size(400, 90, 16, 9), (160, 90));
    // narrower: limited by the width
    assert_eq!(fit_size(160, 400, 16, 9), (160, 90));
    assert_eq!(fit_size(100, 100, 16, 9), (100, 56));
    assert_eq!(fit_size(100, 100, 0, 9), (100, 100));
    assert_eq!(fit_size(100, 100, 16, 0), (100, 100));
    assert_eq!(fit_size(u32::MAX, u32::MAX, u32::MAX, 1), (u32::MAX, 1));
    assert_eq!(fit_size(0, 10, 16, 9), (0, 0));
}

#[test]
fn cinema_grids() {
    assert_eq!(cinema_grid(240, 68, true), (240, 68));
    // 240 * 9 = 2160 <= 68 * 32 = 2176: limited by the width
    assert_eq!(cinema_grid(240, 68, false), (238, 67));
    // 300 * 9 > 68 * 32: limited by the height, 68 * 32 / 9 = 241
    assert_eq!(cinema_grid(300, 68, false), (239, 68));
    assert_eq!(cinema_grid(1, 1, false), (0, 0));
    assert_eq!(cinema_grid(32, 9, false), (30, 9));
}

#[test]
fn playback_sizes() {
    // room 238 by 136; 1920:1080 fits by the width: 238 * 1080 / 1920 = 133
    assert_eq!(playback_size(240, 68, AspectMode::Fit, 1920, 1080), (238, 132));
    assert_eq!(playback_size(240, 68, AspectMode::Fill, 1920, 1080), (238, 136));
    assert_eq!(playback_size(241, 68, AspectMode::Stretch, 1920, 1080), (238, 136));
    // a tall video is limited by the height: 136 * 9 / 16 = 76
    assert_eq!(playback_size(240, 68, AspectMode::Fit, 1080, 1920), (76, 136));
    assert_eq!(playback_size(1, 0, AspectMode::Fit, 1920, 1080), (0, 0));
}

#[test]
fn letterboxes() {
    assert_eq!(letterbox(100, 100, 0, 10, false), None);
    // fitting 200 by 100 into 100 by 100: scaled to 100 by 50, centred
    assert_eq!(
        letterbox(100, 100, 200, 100, false),
        Some(Letterbox { width: 100, height: 50, cropped: false, x: 0, y: 25 })
    );
    // filling: scaled to 200 by 100, the middle cut out
    assert_eq!(
        letterbox(100, 100, 200, 100, true),
        Some(Letterbox { width: 200, height: 100, cropped: true, x: 50, y: 0 })
    );
    // rounding to the nearest pixel: 3 * 100 / 7 = 42.86
    assert_eq!(
        letterbox(100, 100, 7, 3, false),
        Some(Letterbox { width: 100, height: 43, cropped: false, x: 0, y: 28 })
    );
    // halves round upward: 1 * 5 / 2 = 2.5
    assert_eq!(
        letterbox(5, 100, 2, 1, false),
        Some(Letterbox { width: 5, height: 3, cropped: false, x: 0, y: 48 })
    );
    // never less than one pixel
    assert_eq!(
        letterbox(10, 10, 1000, 1, false),
        Some(Letterbox { width: 10, height: 1, cropped: false, x: 0, y: 4 })
    );
    // beyond the largest size
    assert_eq!(letterbox(u32::MAX, 1, 1, u32::MAX, true), None);
    assert_eq!(
        letterbox(4, 4, 4, 4, true),
        Some(Letterbox { width: 4, height: 4, cropped: false, x: 0, y: 0 })
    );
}
