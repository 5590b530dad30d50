use jxl_rust_decoder::channels::ChannelKind;
use jxl_rust_decoder::channels::classify_channels;
use jxl_rust_decoder::errors::DecoderError;
use jxl_rust_decoder::pixels::ColorSpace;
use jxl_rust_decoder::pixels::determine_color_space;
use jxl_rust_decoder::pixels::normalize_frame;
use jxl_rust_decoder::pixels::normalize_samples;

/// A minimal ICC profile blob that qcms parses: a sane header with the given
/// color-space signature and a tag table with one irrelevant entry.
fn minimal_icc(space: [u8; 4]) -> Vec<u8> {
    let mut p = vec![0u8; 144];
    p[0..4].copy_from_slice(&144u32.to_be_bytes());
    p[12..16].copy_from_slice(b"mntr");
    p[16..20].copy_from_slice(&space);
    p[20..24].copy_from_slice(b"XYZ ");
    // rendering intent at byte 64 stays 0 (perceptual)
    p[128..132].copy_from_slice(&1u32.to_be_bytes());
    p[132..136].copy_from_slice(b"desc");
    p[136..140].copy_from_slice(&128u32.to_be_bytes());
    p
}

/// Only the color-space signature, too short for qcms to parse.
fn sig_only_icc(space: [u8; 4]) -> Vec<u8> {
    let mut p = vec![0u8; 20];
    p[16..20].copy_from_slice(&space);
    p
}

fn f32_bytes(vals: &[f32]) -> Vec<u8> {
    let mut out = Vec::new();
    for v in vals {
        out.extend(v.to_ne_bytes());
    }
    out
}

#[test]
fn color_space_comes_from_the_signature() {
    assert_eq!(determine_color_space(&sig_only_icc(*b"RGB ")), Ok(ColorSpace::Rgb));
    assert_eq!(determine_color_space(&sig_only_icc(*b"GRAY")), Ok(ColorSpace::Gray));
    assert_eq!(determine_color_space(&sig_only_icc(*b"CMYK")), Ok(ColorSpace::Cmyk));
    assert_eq!(
        determine_color_space(&sig_only_icc(*b"Lab ")),
        Err(DecoderError::UnknownColorSpace)
    );
    assert_eq!(
        determine_color_space(&vec![0u8; 19]),
        Err(DecoderError::ProfileParseFailure)
    );
}

#[test]
fn classifier_finds_first_alpha_and_black() {
    let kinds = vec![
        ChannelKind::Other,
        ChannelKind::Alpha,
        ChannelKind::Black,
        ChannelKind::Alpha,
    ];
    let c = classify_channels(&kinds);
    assert_eq!(c.alpha_index, Some(1));
    assert_eq!(c.black_index, Some(2));
    let none = classify_channels(&vec![]);
    assert_eq!(none.alpha_index, None);
    assert_eq!(none.black_index, None);
}

#[test]
fn grayscale_replicates_into_equal_color_bytes() {
    let out = normalize_samples(&vec![0, 128, 255], None, None, &sig_only_icc(*b"GRAY"), 1, 3)
        .unwrap();
    assert_eq!(out, vec![0xff000000, 0xff808080, 0xffffffff]);
}

#[test]
fn rgb_passes_through_with_alpha_plane() {
    let color = vec![1, 2, 3, 4, 5, 6];
    let alpha = vec![0x80, 0x00];
    let out = normalize_samples(&color, Some(&alpha), None, &sig_only_icc(*b"RGB "), 3, 2)
        .unwrap();
    assert_eq!(out, vec![0x80010203, 0x00040506]);
}

#[test]
fn opaque_frames_pack_alpha_255() {
    let out = normalize_samples(&vec![9, 8, 7], None, None, &sig_only_icc(*b"RGB "), 3, 1)
        .unwrap();
    assert_eq!(out, vec![0xff090807]);
}

#[test]
fn channel_count_mismatch_is_reported() {
    let r = normalize_samples(&vec![0, 0, 0], None, None, &sig_only_icc(*b"GRAY"), 3, 1);
    assert_eq!(r, Err(DecoderError::ChannelCountMismatch));
    let r2 = normalize_samples(&vec![0], None, None, &sig_only_icc(*b"RGB "), 1, 1);
    assert_eq!(r2, Err(DecoderError::ChannelCountMismatch));
}

#[test]
fn cmyk_channel_accounting_round_trip() {
    // With 3 stored channels and a black plane, the channel count is never
    // the complaint; this unparseable profile fails at parsing instead.
    let icc = sig_only_icc(*b"CMYK");
    let black = vec![10u8];
    let r = normalize_samples(&vec![1, 2, 3], None, Some(&black), &icc, 3, 1);
    assert_eq!(r, Err(DecoderError::ProfileParseFailure));
    // Removing the black plane forces the CMYK mismatch error.
    let r2 = normalize_samples(&vec![1, 2, 3], None, None, &icc, 3, 1);
    assert_eq!(r2, Err(DecoderError::CmykChannelMismatch));
    // A stored channel count other than 3 does too.
    let r3 = normalize_samples(&vec![1, 2, 3, 4], None, Some(&black), &icc, 4, 1);
    assert_eq!(r3, Err(DecoderError::CmykChannelMismatch));
}

#[test]
fn cmyk_lut_atob_form_is_declined() {
    // A parseable CMYK profile whose A2B0 tag carries the lutAtoB form,
    // which the color library does not read for CMYK input: transform
    // construction is declined before the library is asked to build one.
    let mut icc = vec![0u8; 148];
    icc[0..4].copy_from_slice(&148u32.to_be_bytes());
    icc[12..16].copy_from_slice(b"mntr");
    icc[16..20].copy_from_slice(b"CMYK");
    icc[20..24].copy_from_slice(b"XYZ ");
    icc[128..132].copy_from_slice(&1u32.to_be_bytes());
    icc[132..136].copy_from_slice(b"A2B0");
    icc[136..140].copy_from_slice(&144u32.to_be_bytes());
    icc[144..148].copy_from_slice(b"mAB ");
    let black = vec![10u8];
    let r = normalize_samples(&vec![1, 2, 3], None, Some(&black), &icc, 3, 1);
    assert_eq!(r, Err(DecoderError::TransformConstructionFailure));
}

#[test]
fn cmyk_without_lookup_table_fails_transform_construction() {
    // This profile parses, but a CMYK-to-sRGB transform needs a lookup
    // table, which it lacks.
    let icc = minimal_icc(*b"CMYK");
    let black = vec![10u8];
    let r = normalize_samples(&vec![1, 2, 3], None, Some(&black), &icc, 3, 1);
    assert_eq!(r, Err(DecoderError::TransformConstructionFailure));
}

/// A CMYK profile with an 8-bit A2B0 lookup table: identity input ramps and
/// an all-zero color lookup table, so every sample set maps to black.
fn cmyk_icc_with_lut() -> Vec<u8> {
    let tag_off = 144usize;
    let tag_len = 48 + 256 * 4 + 16 * 3 + 256 * 3;
    let total = tag_off + tag_len;
    let mut p = vec![0u8; total];
    p[0..4].copy_from_slice(&(total as u32).to_be_bytes());
    p[12..16].copy_from_slice(b"mntr");
    p[16..20].copy_from_slice(b"CMYK");
    p[20..24].copy_from_slice(b"XYZ ");
    p[128..132].copy_from_slice(&1u32.to_be_bytes());
    p[132..136].copy_from_slice(b"A2B0");
    p[136..140].copy_from_slice(&(tag_off as u32).to_be_bytes());
    p[140..144].copy_from_slice(&(tag_len as u32).to_be_bytes());
    p[tag_off..tag_off + 4].copy_from_slice(b"mft1");
    p[tag_off + 8] = 4;  // input channels
    p[tag_off + 9] = 3;  // output channels
    p[tag_off + 10] = 2;  // grid points per dimension
    // identity matrix, s15.16 fixed point
    p[tag_off + 12..tag_off + 16].copy_from_slice(&0x0001_0000u32.to_be_bytes());
    p[tag_off + 28..tag_off + 32].copy_from_slice(&0x0001_0000u32.to_be_bytes());
    p[tag_off + 44..tag_off + 48].copy_from_slice(&0x0001_0000u32.to_be_bytes());
    for c in 0..4 {
        for i in 0..256 {
            p[tag_off + 48 + c * 256 + i] = i as u8;
        }
    }
    // the color lookup table and output tables stay zero: everything maps
    // to black
    p
}

#[test]
fn cmyk_frame_converts_through_the_real_transform() {
    let icc = cmyk_icc_with_lut();
    let black = vec![200u8, 10];
    let color = vec![1, 2, 3, 200, 100, 50];
    let out = normalize_samples(&color, None, Some(&black), &icc, 3, 2).unwrap();
    assert_eq!(out, vec![0xff000000, 0xff000000]);
}

#[test]
fn float_samples_clamp_and_truncate() {
    let icc = sig_only_icc(*b"RGB ");
    let color = f32_bytes(&[0.0, 127.9, 300.0]);
    let out = normalize_frame(&color, None, None, &icc, 3, 1).unwrap();
    assert_eq!(out, vec![0xff007fff]);
}

#[test]
fn special_float_values_hit_the_bounds() {
    let icc = sig_only_icc(*b"GRAY");
    let color = f32_bytes(&[f32::NAN, -5.0, f32::INFINITY, 200.7, -0.0]);
    let out = normalize_frame(&color, None, None, &icc, 1, 5).unwrap();
    assert_eq!(out, vec![0xff000000, 0xff000000, 0xffffffff, 0xffc8c8c8, 0xff000000]);
}

#[test]
fn float_alpha_plane_is_converted_too() {
    let icc = sig_only_icc(*b"GRAY");
    let color = f32_bytes(&[255.0, 255.0]);
    let alpha = f32_bytes(&[64.2, 300.0]);
    let out = normalize_frame(&color, Some(&alpha), None, &icc, 1, 2).unwrap();
    assert_eq!(out, vec![0x40ffffff, 0xffffffff]);
}
