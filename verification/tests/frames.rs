use term_video::fps_detector::{find, split_fields, strip_fps, trim, FpsDetector};
use term_video::frame_data::FrameData;
use term_video::frame_manager::{frame_size, parse_header, FrameManager, LoadError, PackedHeader};

fn header_bytes(width: u16, height: u16, count: u32) -> Vec<u8> {
    let mut out = Vec::new();
    out.extend_from_slice(&width.to_le_bytes());
    out.extend_from_slice(&height.to_le_bytes());
    out.extend_from_slice(&count.to_le_bytes());
    out
}

#[test]
fn new_manager_is_empty() {
    let m = FrameManager::new();
    assert_eq!(m.frame_count(), 0);
    assert!(m.get_frame(0).is_none());
}

#[test]
fn headers() {
    let h = parse_header(&[0x09, 0x01, 0x41, 0x00, 0x78, 0x56, 0x34, 0x12, 0xff]);
    assert_eq!(h, PackedHeader { width: 265, height: 65, frame_count: 0x12345678 });
    // 265 * 130 = 34450 pixels, 4307 bytes
    assert_eq!(h.packed_size(), 4307);
}

#[test]
fn unpack_two_frames() {
    // 3 cells wide, 1 cell high: 6 pixels, one byte per frame
    let header = PackedHeader { width: 3, height: 1, frame_count: 2 };
    let packed = [0b1010_0100u8, 0b0111_1111, 0xee];
    let mut m = FrameManager::new();
    assert_eq!(m.unpack_frames(header, &packed), Ok(2));
    assert_eq!(m.frame_count(), 2);
    let w = 255u8;
    let first: Vec<u8> = vec![
        3, 0, 1, 0, w, w, w, 0, 0, 0, w, w, w, 0, 0, 0, 0, 0, 0, w, w, w,
    ];
    assert_eq!(m.get_frame(0), Some(&first));
    let second: Vec<u8> = vec![
        3, 0, 1, 0, 0, 0, 0, w, w, w, w, w, w, w, w, w, w, w, w, w, w, w,
    ];
    assert_eq!(m.get_frame(1), Some(&second));
    assert!(m.get_frame(2).is_none());
    // more frames are held after the ones held before
    assert_eq!(m.unpack_frames(PackedHeader { frame_count: 1, ..header }, &packed), Ok(3));
    assert_eq!(m.get_frame(2), Some(&first));
}

#[test]
fn unpack_missing_bytes() {
    let header = PackedHeader { width: 3, height: 1, frame_count: 4 };
    let mut m = FrameManager::new();
    assert_eq!(m.unpack_frames(header, &[1, 2, 3]), Err(LoadError::Truncated));
    assert_eq!(m.frame_count(), 0);
    assert_eq!(m.unpack_frames(PackedHeader { frame_count: 0, ..header }, &[]), Ok(0));
}

#[test]
fn load_compressed_file() {
    // 16 by 2 cells: 64 pixels, 8 bytes a frame, 3 frames
    let mut packed: Vec<u8> = Vec::new();
    for f in 0..3u8 {
        for i in 0..8u8 {
            packed.push(if i % 2 == 0 { 0xff } else { f });
        }
    }
    let mut file = header_bytes(16, 2, 3);
    file.extend_from_slice(&lz4::block::compress(&packed, None, false).unwrap());
    assert!(file.len() - 8 != packed.len());
    let mut m = FrameManager::new();
    assert_eq!(m.load_frames(&file), Ok(3));
    assert_eq!(m.frame_count(), 3);
    let frame = m.get_frame(2).unwrap();
    assert_eq!(frame.len(), 4 + 64 * 3);
    assert_eq!(&frame[..4], &[16, 0, 2, 0]);
    // first byte 0xff: eight set pixels; second byte 2 = 0b00000010
    assert!(frame[4..4 + 24].iter().all(|&b| b == 255));
    let second: Vec<u8> = frame[4 + 24..4 + 48].to_vec();
    let mut expected = vec![0u8; 24];
    expected[18] = 255;
    expected[19] = 255;
    expected[20] = 255;
    assert_eq!(second, expected);
}

#[test]
fn load_errors() {
    let mut m = FrameManager::new();
    assert_eq!(m.load_frames(&[]), Ok(0));
    assert_eq!(m.load_frames(&[1, 2, 3, 4, 5, 6, 7]), Ok(0));
    // a block that is no LZ4 data
    let mut bad = header_bytes(16, 2, 3);
    bad.extend_from_slice(&[0xf0, 0xff, 0xff, 0xff, 0xff, 0x00]);
    assert_eq!(m.load_frames(&bad), Err(LoadError::Corrupt));
    // a block that holds only one of the three frames
    let mut short = header_bytes(16, 2, 3);
    short.extend_from_slice(&lz4::block::compress(&[7u8; 8], None, false).unwrap());
    assert_eq!(m.load_frames(&short), Err(LoadError::Truncated));
    // 65535 * 131070 pixels a frame, 4 frames: more than a block holds
    let huge = header_bytes(65535, 65535, 4);
    assert_eq!(m.load_frames(&huge), Err(LoadError::TooLarge));
    assert_eq!(m.frame_count(), 0);
}

#[test]
fn frame_data() {
    let f = FrameData::new(vec![0; 24], 2, 4);
    assert_eq!((f.width, f.height, f.buffer.len()), (2, 4, 24));
    assert!(f.is_complete());
    assert!(!FrameData::new(vec![0; 23], 2, 4).is_complete());
    assert!(FrameData::new(vec![], 0, 4).is_complete());
}

#[test]
fn fps_detector() {
    let mut d = FpsDetector::new();
    assert_eq!(d.get_fps_hundredths(), None);
    assert_eq!(d.get_fps_hundredths_or(24), 2400);
    assert_eq!(d.get_fps_hundredths_or(u32::MAX), u32::MAX);
    d.record(2398);
    assert_eq!(d.get_fps_hundredths(), Some(2398));
    assert_eq!(d.get_fps_hundredths_or(24), 2398);
}

#[test]
fn stored_frame_sizes() {
    assert_eq!(frame_size(&[3, 0, 1]), None);
    assert_eq!(frame_size(&[9, 1, 65, 0]), Some((265, 65)));
    let mut m = FrameManager::new();
    let header = PackedHeader { width: 4, height: 300, frame_count: 1 };
    let packed = vec![0x55u8; 300];
    assert_eq!(m.unpack_frames(header, &packed), Ok(1));
    let frame = m.get_frame(0).unwrap();
    assert_eq!(frame_size(frame), Some((4, 300)));
    assert_eq!(frame.len(), 4 + 4 * 600 * 3);
}

fn texts(line: &str) -> Vec<String> {
    FpsDetector::parse_fps_from_line(line.as_bytes())
        .into_iter()
        .map(|t| String::from_utf8(t).unwrap())
        .collect()
}

#[test]
fn rate_fields_of_a_stream_line() {
    let line = "  Stream #0:0(und): Video: h264 (High), yuv420p, 1920x1080, 2500 kb/s, 23.98 fps, 24 tbr";
    assert_eq!(texts(line), vec!["23.98".to_string()]);
    // every field that names a rate, in order
    let two = "Stream #0:0: Video: vp9, 30 fps, 29.97fps ,fps";
    assert_eq!(texts(two), vec!["30".to_string(), "29.97".to_string(), "".to_string()]);
    // the marks may stand anywhere in the line
    assert_eq!(texts("fps Video: Stream #"), vec!["Video: Stream #".to_string()]);
    assert_eq!(texts("x fps fps y, Video:, Stream #"), vec!["x   y".to_string()]);
}

#[test]
fn lines_that_announce_no_video_rate() {
    assert!(texts("Stream #0:1: Audio: aac, 48000 Hz, stereo, 25 fps").is_empty());
    assert!(texts("Stream #0:0: Video: h264, yuv420p").is_empty());
    assert!(texts("Video: h264, 25 fps").is_empty());
    assert!(texts("").is_empty());
}

#[test]
fn text_helpers() {
    assert!(find(b"abc", b""));
    assert!(find(b"", b""));
    assert!(find(b"xxfps", b"fps"));
    assert!(!find(b"xxfp", b"fps"));
    assert!(!find(b"fp", b"fps"));
    assert_eq!(split_fields(b"a,,b,"), vec![b"a".to_vec(), b"".to_vec(), b"b".to_vec(), b"".to_vec()]);
    assert_eq!(split_fields(b""), vec![b"".to_vec()]);
    assert_eq!(strip_fps(b"fpfpsps 1fps"), b"fpps 1".to_vec());
    assert_eq!(trim(b" \t 2 3\r\n"), b"2 3".to_vec());
    assert_eq!(trim(b"   "), b"".to_vec());
}
