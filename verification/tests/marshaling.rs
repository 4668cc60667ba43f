use hwcodec::common::{
    check_planes, decode_callback, encode_callback, DecodeFrame, EncodeFrame, PixelFormat,
    MAX_DATA_NUM,
};

fn ramp(len: usize, start: u8) -> Vec<u8> {
    (0..len).map(|i| start.wrapping_add(i as u8)).collect()
}

#[test]
fn yuv420p_16x16_has_planes_256_64_64() {
    let datas = vec![ramp(256, 1), ramp(64, 7), ramp(64, 9)];
    let linesizes = vec![16, 8, 8];
    let format = PixelFormat::YUV420P.code();
    assert!(check_planes(&datas, &linesizes, format, 16));
    let mut frames: Vec<DecodeFrame> = Vec::new();
    decode_callback(&datas, &linesizes, format, 16, 16, &mut frames, 1);
    assert_eq!(frames.len(), 1);
    let f = &frames[0];
    assert_eq!(f.format, PixelFormat::YUV420P);
    assert_eq!(f.width, 16);
    assert_eq!(f.height, 16);
    assert!(f.key);
    assert_eq!(f.data.len(), 3);
    assert_eq!(f.data[0].len(), 256);
    assert_eq!(f.data[1].len(), 64);
    assert_eq!(f.data[2].len(), 64);
    assert_eq!(f.linesize, vec![16, 8, 8]);
    assert_eq!(f.data[0], datas[0]);
    assert_eq!(f.data[1], datas[1]);
    assert_eq!(f.data[2], datas[2]);
}

#[test]
fn yuv420p_copies_only_the_leading_bytes_of_each_plane() {
    let datas = vec![ramp(300, 0), ramp(100, 50), ramp(90, 100), ramp(5, 0)];
    let linesizes = vec![16, 8, 8, 0, 0, 0, 0, 0];
    assert_eq!(linesizes.len(), MAX_DATA_NUM);
    let format = PixelFormat::YUV420P.code();
    assert!(check_planes(&datas, &linesizes, format, 16));
    let mut frames: Vec<DecodeFrame> = Vec::new();
    decode_callback(&datas, &linesizes, format, 16, 16, &mut frames, 0);
    let f = &frames[0];
    assert!(!f.key);
    assert_eq!(f.data.len(), 3);
    assert_eq!(f.data[0][..], datas[0][..256]);
    assert_eq!(f.data[1][..], datas[1][..64]);
    assert_eq!(f.data[2][..], datas[2][..64]);
    assert_eq!(f.linesize, vec![16, 8, 8]);
}

#[test]
fn nv12_has_two_planes_with_half_height_chroma() {
    let datas = vec![ramp(20 * 6, 3), ramp(20 * 3, 4), ramp(1, 0)];
    let linesizes = vec![20, 20, 999];
    let format = PixelFormat::NV12.code();
    assert!(check_planes(&datas, &linesizes, format, 6));
    let mut frames: Vec<DecodeFrame> = Vec::new();
    decode_callback(&datas, &linesizes, format, 18, 6, &mut frames, 5);
    assert_eq!(frames.len(), 1);
    let f = &frames[0];
    assert_eq!(f.format, PixelFormat::NV12);
    assert_eq!(f.width, 18);
    assert_eq!(f.height, 6);
    assert!(f.key);
    assert_eq!(f.data.len(), 2);
    assert_eq!(f.data[0].len(), 120);
    assert_eq!(f.data[1].len(), 60);
    assert_eq!(f.linesize, vec![20, 20]);
}

#[test]
fn odd_area_chroma_plane_rounds_down() {
    let datas = vec![ramp(15, 0), ramp(7, 0)];
    let linesizes = vec![5, 5];
    let format = PixelFormat::NV12.code();
    assert!(check_planes(&datas, &linesizes, format, 3));
    let mut frames: Vec<DecodeFrame> = Vec::new();
    decode_callback(&datas, &linesizes, format, 5, 3, &mut frames, 0);
    assert_eq!(frames[0].data[0].len(), 15);
    assert_eq!(frames[0].data[1].len(), 7);
}

#[test]
fn unsupported_pixel_format_drops_the_frame() {
    let datas = vec![ramp(4, 0)];
    let linesizes = vec![2];
    let mut frames: Vec<DecodeFrame> = Vec::new();
    assert!(check_planes(&datas, &linesizes, 2, 2));
    decode_callback(&datas, &linesizes, 2, 2, 2, &mut frames, 1);
    assert!(frames.is_empty());
    assert!(check_planes(&datas, &linesizes, -1, 2));
    decode_callback(&datas, &linesizes, -1, 2, 2, &mut frames, 1);
    assert!(frames.is_empty());
}

#[test]
fn dropped_frame_leaves_earlier_frames_alone() {
    let datas = vec![ramp(4, 0), ramp(2, 0)];
    let linesizes = vec![2, 2];
    let mut frames: Vec<DecodeFrame> = Vec::new();
    decode_callback(&datas, &linesizes, PixelFormat::NV12.code(), 2, 2, &mut frames, 1);
    decode_callback(&datas, &linesizes, 77, 2, 2, &mut frames, 1);
    decode_callback(&datas, &linesizes, PixelFormat::NV12.code(), 2, 2, &mut frames, 0);
    assert_eq!(frames.len(), 2);
    assert!(frames[0].key);
    assert!(!frames[1].key);
}

#[test]
fn check_planes_refuses_bad_geometry() {
    let yuv = PixelFormat::YUV420P.code();
    let nv12 = PixelFormat::NV12.code();
    let datas = vec![ramp(256, 0), ramp(64, 0), ramp(64, 0)];
    // a plane too short
    assert!(!check_planes(&datas, &vec![16, 8, 9], yuv, 16));
    assert!(!check_planes(&datas, &vec![17, 8, 8], yuv, 16));
    // too few slots
    assert!(!check_planes(&vec![ramp(256, 0), ramp(64, 0)], &vec![16, 8, 8], yuv, 16));
    assert!(!check_planes(&datas, &vec![16, 8], yuv, 16));
    // negative stride or height
    assert!(!check_planes(&datas, &vec![-16, 8, 8], yuv, 16));
    assert!(!check_planes(&datas, &vec![16, 8, 8], yuv, -1));
    // a byte count beyond the native integer
    assert!(!check_planes(&datas, &vec![i32::MAX, 0], nv12, 2));
    // two planes are enough for the two-plane format
    assert!(check_planes(&vec![ramp(256, 0), ramp(128, 0)], &vec![16, 16], nv12, 16));
    // height zero needs no bytes
    assert!(check_planes(&vec![vec![], vec![], vec![]], &vec![16, 8, 8], yuv, 0));
}

#[test]
fn pixel_format_codes_round_trip() {
    assert_eq!(PixelFormat::from_code(PixelFormat::NV12.code()), Some(PixelFormat::NV12));
    assert_eq!(PixelFormat::from_code(PixelFormat::YUV420P.code()), Some(PixelFormat::YUV420P));
    assert_eq!(PixelFormat::from_code(2), None);
    assert_eq!(PixelFormat::from_code(-1), None);
    assert_eq!(PixelFormat::NV12.planes(), 2);
    assert_eq!(PixelFormat::YUV420P.planes(), 3);
}

#[test]
fn encode_callback_copies_the_packet() {
    let native = vec![9u8, 8, 7, 6, 5];
    let mut frames: Vec<EncodeFrame> = Vec::new();
    encode_callback(&native, 3, 1234, 1, &mut frames);
    encode_callback(&native, 5, -7, 0, &mut frames);
    encode_callback(&native, 0, 0, 0, &mut frames);
    assert_eq!(frames.len(), 3);
    assert_eq!(frames[0].data, vec![9u8, 8, 7]);
    assert_eq!(frames[0].pts, 1234);
    assert_eq!(frames[0].key, 1);
    assert_eq!(frames[1].data, native);
    assert_eq!(frames[1].pts, -7);
    assert_eq!(frames[1].key, 0);
    assert!(frames[2].data.is_empty());
}
