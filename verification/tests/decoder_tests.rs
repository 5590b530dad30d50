use jxl_rust_decoder::channels::ChannelKind;
use jxl_rust_decoder::decoder::DecoderStage;
use jxl_rust_decoder::decoder::ImageMetadata;
use jxl_rust_decoder::decoder::JxlRustDecoder;
use jxl_rust_decoder::errors::DecoderError;
use jxl_rust_decoder::errors::JxlRustImageInfo;

/// An ICC blob carrying only the color-space signature; enough for the
/// paths that read the signature and never construct a transform.
fn rgb_sig_icc() -> Vec<u8> {
    let mut p = vec![0u8; 20];
    p[16..20].copy_from_slice(b"RGB ");
    p
}

fn rgb_meta(width: u32, height: u32) -> ImageMetadata {
    ImageMetadata {
        width,
        height,
        has_alpha: false,
        orientation_transpose: false,
        is_grayscale: false,
        color_channels: 3,
        extra_channels: vec![],
        icc_profile: rgb_sig_icc(),
    }
}

#[test]
fn fresh_instance_reports_nothing() {
    let d = JxlRustDecoder::new(false);
    assert!(!d.is_frame_ready());
    assert_eq!(d.current_image_info(), None);
    let mut d2 = d;
    let mut out = vec![0u32; 1];
    assert_eq!(d2.decode_frame(&mut out), Err(DecoderError::FrameNotReady));
}

#[test]
fn metadata_only_stub_reports_dimensions() {
    // Feed the 2-byte codestream signature plus one trailing byte in one
    // call; a stub engine then reports a 32 by 32 opaque RGB image.
    let mut d = JxlRustDecoder::new(true);
    let r = d.process_data(&[0xff, 0x0a, 0x00]);
    assert!(matches!(r, Ok((false, h)) if h > 0));
    assert_eq!(d.image_info_complete(rgb_meta(32, 32)), Ok(true));
    assert_eq!(
        d.current_image_info(),
        Some(JxlRustImageInfo { width: 32, height: 32 })
    );
    // Metadata-only success is repeatable.
    assert_eq!(d.process_data(&[0x01, 0x02]), Ok((true, 0)));
}

#[test]
fn image_info_is_idempotent_across_feeds() {
    let mut d = JxlRustDecoder::new(true);
    let _ = d.process_data(&[0xff, 0x0a]);
    assert_eq!(d.image_info_complete(rgb_meta(7, 9)), Ok(true));
    let before = d.current_image_info();
    let _ = d.process_data(&[0xaa, 0xbb, 0xcc]);
    let _ = d.process_data(&[]);
    assert_eq!(d.current_image_info(), before);
    assert_eq!(before, Some(JxlRustImageInfo { width: 7, height: 9 }));
}

#[test]
fn black_frame_decodes_to_opaque_black_pixels() {
    // A completed 2 by 2 all-black opaque RGB frame: extraction writes 4
    // pixels of 0xFF000000.
    let mut d = JxlRustDecoder::new(false);
    d.stage = DecoderStage::Initialized;
    assert_eq!(d.image_info_complete(rgb_meta(2, 2)), Ok(false));
    assert_eq!(d.frame_info_complete(), Ok(()));
    // The zero-initialized color buffer already holds 0.0 floats: all black.
    assert_eq!(d.frame_buffers.as_ref().unwrap().color.len(), 2 * 2 * 3 * 4);
    assert_eq!(d.frame_complete(), Ok(true));
    assert!(d.is_frame_ready());

    // An output buffer shorter than the pixel count: the frame stays ready.
    let mut small = vec![0u32; 3];
    assert_eq!(d.decode_frame(&mut small), Err(DecoderError::BufferTooSmall));
    assert!(d.is_frame_ready());

    let mut out = vec![0xdeadbeefu32; 5];
    assert_eq!(d.decode_frame(&mut out), Ok(4));
    assert_eq!(out, vec![0xff000000, 0xff000000, 0xff000000, 0xff000000, 0xdeadbeef]);
    assert!(!d.is_frame_ready());

    // A second extraction without an intervening frame fails.
    assert_eq!(d.decode_frame(&mut out), Err(DecoderError::FrameNotReady));
}

#[test]
fn extraction_allows_the_next_frame_to_complete() {
    let mut d = JxlRustDecoder::new(false);
    d.stage = DecoderStage::Initialized;
    assert_eq!(d.image_info_complete(rgb_meta(1, 1)), Ok(false));
    let mut out = vec![0u32; 1];
    for _ in 0..3 {
        assert_eq!(d.frame_info_complete(), Ok(()));
        assert_eq!(d.frame_complete(), Ok(true));
        assert_eq!(d.decode_frame(&mut out), Ok(1));
        assert!(!d.is_frame_ready());
    }
}

#[test]
fn unclaimed_frame_blocks_the_next_completion() {
    let mut d = JxlRustDecoder::new(false);
    d.stage = DecoderStage::Initialized;
    assert_eq!(d.image_info_complete(rgb_meta(1, 1)), Ok(false));
    assert_eq!(d.frame_info_complete(), Ok(()));
    assert_eq!(d.frame_complete(), Ok(true));
    assert!(d.is_frame_ready());
    // The next frame may be prepared, but completing it while the previous
    // packed buffer is unclaimed violates the protocol.
    assert_eq!(d.frame_info_complete(), Ok(()));
    assert_eq!(d.frame_complete(), Err(DecoderError::MissingCachedInfo));
    assert_eq!(d.process_data(&[]), Err(DecoderError::MissingCachedInfo));
}

#[test]
fn alpha_promise_without_alpha_channel_is_fatal() {
    let mut d = JxlRustDecoder::new(false);
    d.stage = DecoderStage::Initialized;
    let mut meta = rgb_meta(4, 4);
    meta.has_alpha = true;
    // No extra channel is tagged alpha.
    assert_eq!(d.image_info_complete(meta), Ok(false));
    assert_eq!(
        d.frame_info_complete(),
        Err(DecoderError::AlphaChannelInconsistency)
    );
    // Terminal: every later call reports the same failure.
    assert_eq!(
        d.process_data(&[0x00]),
        Err(DecoderError::AlphaChannelInconsistency)
    );
}

#[test]
fn alpha_frame_takes_alpha_bytes_from_its_plane() {
    let mut d = JxlRustDecoder::new(false);
    d.stage = DecoderStage::Initialized;
    let mut meta = rgb_meta(1, 1);
    meta.has_alpha = true;
    meta.extra_channels = vec![ChannelKind::Other, ChannelKind::Alpha];
    assert_eq!(d.image_info_complete(meta), Ok(false));
    assert_eq!(d.frame_info_complete(), Ok(()));
    {
        let sb = d.frame_buffers.as_mut().unwrap();
        assert_eq!(sb.planes.len(), 1);
        assert_eq!(sb.alpha_pos, Some(0));
        assert_eq!(sb.black_pos, None);
        // color stays black; alpha sample 128.0
        sb.planes[0] = 128.0f32.to_ne_bytes().to_vec();
    }
    assert_eq!(d.frame_complete(), Ok(true));
    let mut out = vec![0u32; 1];
    assert_eq!(d.decode_frame(&mut out), Ok(1));
    assert_eq!(out, vec![0x80000000]);
}

#[test]
fn transposed_orientation_swaps_buffer_layout() {
    let mut d = JxlRustDecoder::new(false);
    d.stage = DecoderStage::Initialized;
    let mut meta = rgb_meta(3, 2);
    meta.orientation_transpose = true;
    assert_eq!(d.image_info_complete(meta), Ok(false));
    assert_eq!(d.frame_info_complete(), Ok(()));
    // Same byte total; layout rows swapped.
    assert_eq!(d.frame_buffers.as_ref().unwrap().color.len(), 3 * 2 * 3 * 4);
    assert_eq!(d.frame_complete(), Ok(true));
    let mut out = vec![0u32; 6];
    assert_eq!(d.decode_frame(&mut out), Ok(6));
}

/// A CMYK profile with an 8-bit A2B0 lookup table mapping everything to
/// black: identity input ramps, zero color lookup table.
fn cmyk_icc_with_black_lut() -> Vec<u8> {
    let tag_off = 144usize;
    let tag_len = 48 + 256 * 4 + 16 * 3 + 256 * 3;
    let total = tag_off + tag_len;
    let mut p = vec![0u8; total];
    p[0..4].copy_from_slice(&(total as u32).to_be_bytes());
    p[12..16].copy_from_slice(b"mntr");
    p[16..20].copy_from_slice(b"CMYK");
    p[20..24].copy_from_slice(b"XYZ ");
    p[128..132].copy_from_slice(&1u32.to_be_bytes());
    p[132..136].copy_from_slice(b"A2B0");
    p[136..140].copy_from_slice(&(tag_off as u32).to_be_bytes());
    p[140..144].copy_from_slice(&(tag_len as u32).to_be_bytes());
    p[tag_off..tag_off + 4].copy_from_slice(b"mft1");
    p[tag_off + 8] = 4;
    p[tag_off + 9] = 3;
    p[tag_off + 10] = 2;
    p[tag_off + 12..tag_off + 16].copy_from_slice(&0x0001_0000u32.to_be_bytes());
    p[tag_off + 28..tag_off + 32].copy_from_slice(&0x0001_0000u32.to_be_bytes());
    p[tag_off + 44..tag_off + 48].copy_from_slice(&0x0001_0000u32.to_be_bytes());
    for c in 0..4 {
        for i in 0..256 {
            p[tag_off + 48 + c * 256 + i] = i as u8;
        }
    }
    p
}

#[test]
fn cmyk_frame_with_black_plane_decodes() {
    let mut d = JxlRustDecoder::new(false);
    d.stage = DecoderStage::Initialized;
    let meta = ImageMetadata {
        width: 1,
        height: 1,
        has_alpha: false,
        orientation_transpose: false,
        is_grayscale: false,
        color_channels: 3,
        extra_channels: vec![ChannelKind::Black],
        icc_profile: cmyk_icc_with_black_lut(),
    };
    assert_eq!(d.image_info_complete(meta), Ok(false));
    assert_eq!(d.frame_info_complete(), Ok(()));
    {
        let sb = d.frame_buffers.as_mut().unwrap();
        assert_eq!(sb.alpha_pos, None);
        assert_eq!(sb.black_pos, Some(0));
        let mut color = Vec::new();
        for v in [120.0f32, 60.0, 30.0] {
            color.extend(v.to_ne_bytes());
        }
        sb.color = color;
        sb.planes[0] = 200.0f32.to_ne_bytes().to_vec();
    }
    assert_eq!(d.frame_complete(), Ok(true));
    let mut out = vec![0u32; 1];
    assert_eq!(d.decode_frame(&mut out), Ok(1));
    assert_eq!(out, vec![0xff000000]);
}

#[test]
fn misplaced_image_info_report_fails_closed() {
    let mut d = JxlRustDecoder::new(false);
    d.stage = DecoderStage::HasImageInfo;
    assert_eq!(d.image_info_complete(rgb_meta(1, 1)), Err(DecoderError::EngineError));
    assert_eq!(d.process_data(&[]), Err(DecoderError::EngineError));
}

#[test]
fn frame_processing_without_cached_info_is_detected() {
    let mut d = JxlRustDecoder::new(false);
    d.stage = DecoderStage::HasFrameInfo;
    assert_eq!(d.frame_complete(), Err(DecoderError::MissingCachedInfo));
}

#[test]
fn initialized_stage_without_engine_fails_closed() {
    let mut d = JxlRustDecoder::new(false);
    d.stage = DecoderStage::Initialized;
    // The signature was never accepted, so no engine exists.
    assert_eq!(d.process_data(&[0x01]), Err(DecoderError::EngineError));
}

/// A complete, valid raw codestream of an 8 by 8 RGB image.
fn tiny_codestream() -> Vec<u8> {
    vec![
        0xff, 0x0a, 0x01, 0xc0, 0x08, 0x81, 0x04, 0x58, 0x00, 0x89, 0x1c, 0x28, 0x17, 0x2a,
        0x02, 0xce, 0x0f, 0x91, 0x33, 0x54, 0x00, 0xce, 0x51, 0x00, 0x00, 0x00, 0x00, 0x00,
        0x00, 0x00, 0x00,
    ]
}

#[test]
fn real_stream_decodes_one_frame() {
    let mut d = JxlRustDecoder::new(false);
    let r = d.process_data(&tiny_codestream());
    assert_eq!(r, Ok((true, 0)));
    assert_eq!(
        d.current_image_info(),
        Some(JxlRustImageInfo { width: 8, height: 8 })
    );
    assert!(d.is_frame_ready());
    let mut out = vec![0u32; 64];
    assert_eq!(d.decode_frame(&mut out), Ok(64));
    for px in &out {
        // opaque pixels; the whole image is one constant color
        assert_eq!(px >> 24, 0xff);
        assert_eq!(*px, out[0]);
    }
}

#[test]
fn real_stream_decodes_fed_one_byte_at_a_time() {
    let mut d = JxlRustDecoder::new(false);
    let bytes = tiny_codestream();
    let mut done = false;
    for b in &bytes {
        match d.process_data(&[*b]) {
            Ok((true, _)) => {
                done = true;
            },
            Ok((false, hint)) => {
                assert!(hint > 0);
            },
            Err(e) => panic!("unexpected failure: {:?}", e),
        }
    }
    if !done {
        // the engine may wait for the call that confirms no more data is coming
        assert_eq!(d.process_data(&[]), Ok((true, 0)));
    }
    assert!(d.is_frame_ready());
    let mut out = vec![0u32; 64];
    assert_eq!(d.decode_frame(&mut out), Ok(64));
}

#[test]
fn zero_bytes_while_waiting_keeps_the_stage() {
    let mut d = JxlRustDecoder::new(false);
    let bytes = tiny_codestream();
    assert!(matches!(d.process_data(&bytes[..6]), Ok((false, h)) if h > 0));
    // Starved polls claim no progress and do not disturb the stream.
    for _ in 0..3 {
        assert!(matches!(d.process_data(&[]), Ok((false, h)) if h > 0));
    }
    assert_eq!(d.process_data(&bytes[6..]), Ok((true, 0)));
    assert!(d.is_frame_ready());
}

#[test]
fn metadata_only_succeeds_on_a_real_stream() {
    let mut d = JxlRustDecoder::new(true);
    assert_eq!(d.process_data(&tiny_codestream()), Ok((true, 0)));
    assert_eq!(
        d.current_image_info(),
        Some(JxlRustImageInfo { width: 8, height: 8 })
    );
    assert!(!d.is_frame_ready());
}

#[test]
fn garbage_after_codestream_signature_does_not_succeed() {
    let mut d = JxlRustDecoder::new(false);
    let mut bytes = vec![0xff, 0x0a];
    bytes.extend(std::iter::repeat(0xff).take(64));
    let r = d.process_data(&bytes);
    assert!(matches!(r, Ok((false, _)) | Err(DecoderError::EngineError)));
}
