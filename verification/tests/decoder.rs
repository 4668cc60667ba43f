use hwcodec::context::{CodecError, DataFormat, DecodeContext, DecodeDriver, SurfaceFormat, Vendor, API};
use hwcodec::decode::{CreateRequest, DecodeFrame, Decoder, TextureOutput};

fn ctx(driver: DecodeDriver) -> DecodeContext {
    DecodeContext {
        driver,
        data_format: DataFormat::H265,
        api: API::API_DX11,
        output_surface_format: SurfaceFormat::SURFACE_FORMAT_RGBA,
        luid: 64262,
    }
}

fn out(texture: usize, format: i32, key: i32) -> TextureOutput {
    TextureOutput { texture, format, width: 640, height: 480, key }
}

#[test]
fn create_request_carries_the_context() {
    let req: CreateRequest = Decoder::create_request(&ctx(DecodeDriver::AMF));
    assert_eq!(req.calls.vendor, Vendor::AMD);
    assert_eq!(req.luid, 64262);
    assert_eq!(req.api, 0);
    assert_eq!(req.data_format, 1);
    assert_eq!(req.output_surface_format, 1);
}

#[test]
fn null_handle_is_backend_unavailable() {
    assert!(matches!(Decoder::new(ctx(DecodeDriver::CUVID), 0), Err(CodecError::BackendUnavailable)));
}

#[test]
fn fresh_decoder_owns_the_handle_and_has_no_frames() {
    let dec = Decoder::new(ctx(DecodeDriver::MFX), 0xBEEF).unwrap();
    assert_eq!(dec.codec(), 0xBEEF);
    assert_eq!(dec.calls().vendor, Vendor::INTEL);
    assert_eq!(dec.ctx(), ctx(DecodeDriver::MFX));
    assert!(dec.frames().is_empty());
}

#[test]
fn callback_wraps_the_texture() {
    let mut frames: Vec<DecodeFrame> = Vec::new();
    Decoder::callback(0x1000, 0, 1920, 1080, &mut frames, 0);
    Decoder::callback(0x2000, 2, 1280, 720, &mut frames, 3);
    assert_eq!(
        frames,
        vec![
            DecodeFrame {
                surface_format: SurfaceFormat::SURFACE_FORMAT_BGRA,
                width: 1920,
                height: 1080,
                texture: 0x1000,
                key: false,
            },
            DecodeFrame {
                surface_format: SurfaceFormat::SURFACE_FORMAT_NV12,
                width: 1280,
                height: 720,
                texture: 0x2000,
                key: true,
            },
        ]
    );
}

#[test]
fn callback_drops_an_unknown_surface_format() {
    let mut frames: Vec<DecodeFrame> = Vec::new();
    Decoder::callback(0x1000, 3, 1, 1, &mut frames, 1);
    Decoder::callback(0x1000, -5, 1, 1, &mut frames, 1);
    assert!(frames.is_empty());
}

#[test]
fn decode_yields_zero_one_or_many_frames() {
    let mut dec = Decoder::new(ctx(DecodeDriver::AMF), 7).unwrap();
    assert_eq!(dec.decode(0, &vec![]).unwrap().len(), 0);
    let frames = dec.decode(0, &vec![out(1, 0, 1)]).unwrap().clone();
    assert_eq!(frames.len(), 1);
    assert!(frames[0].key);
    let frames = dec.decode(5, &vec![out(2, 0, 0), out(3, 9, 1), out(4, 1, 1)]).unwrap().clone();
    assert_eq!(frames.len(), 2);
    assert_eq!(frames[0].texture, 2);
    assert!(!frames[0].key);
    assert_eq!(frames[1].texture, 4);
    assert_eq!(frames[1].surface_format, SurfaceFormat::SURFACE_FORMAT_RGBA);
    assert!(frames[1].key);
    assert_eq!(dec.frames().len(), 2);
}

#[test]
fn decode_clears_the_frames_of_the_call_before() {
    let mut dec = Decoder::new(ctx(DecodeDriver::AMF), 7).unwrap();
    dec.decode(0, &vec![out(1, 0, 1), out(2, 0, 0)]).unwrap();
    assert_eq!(dec.frames().len(), 2);
    dec.decode(0, &vec![out(3, 0, 0)]).unwrap();
    assert_eq!(dec.frames().len(), 1);
    assert_eq!(dec.frames()[0].texture, 3);
}

#[test]
fn failed_decode_reports_the_native_code_and_leaves_the_decoder_usable() {
    let mut dec = Decoder::new(ctx(DecodeDriver::CUVID), 42).unwrap();
    assert!(matches!(dec.decode(-1, &vec![]), Err(CodecError::ProcessingError(-1))));
    assert!(matches!(dec.decode(i32::MIN, &vec![]), Err(CodecError::ProcessingError(i32::MIN))));
    assert_eq!(dec.codec(), 42);
    assert_eq!(dec.ctx(), ctx(DecodeDriver::CUVID));
    let frames = dec.decode(0, &vec![out(9, 0, 1)]).unwrap();
    assert_eq!(frames.len(), 1);
    assert_eq!(frames[0].texture, 9);
}

#[test]
fn destroy_hands_back_the_handle_once() {
    let mut dec = Decoder::new(ctx(DecodeDriver::AMF), 0xABCD).unwrap();
    let _ = dec.decode(-3, &vec![]);
    let _ = dec.decode(0, &vec![out(1, 0, 1)]);
    let (calls, handle) = dec.destroy();
    assert_eq!(calls.vendor, Vendor::AMD);
    assert_eq!(handle, 0xABCD);
}

#[test]
fn destroy_without_any_decode_is_fine() {
    let dec = Decoder::new(ctx(DecodeDriver::MFX), 1).unwrap();
    assert_eq!(dec.destroy().1, 1);
}

#[test]
fn many_construct_decode_destroy_cycles_release_every_handle() {
    let mut released: usize = 0;
    for handle in 1..=10_000usize {
        let mut dec = Decoder::new(ctx(DecodeDriver::AMF), handle).unwrap();
        let _ = dec.decode(if handle % 3 == 0 { -1 } else { 0 }, &vec![out(handle, 0, 1)]);
        let (_, h) = dec.destroy();
        assert_eq!(h, handle);
        released += 1;
    }
    assert_eq!(released, 10_000);
}
