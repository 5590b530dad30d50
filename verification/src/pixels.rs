//! The color-normalization pipeline: turns one frame's 8-bit samples into
//! packed 32-bit pixels.
//!
//! The input color space is determined from the cached ICC profile bytes
//! (gray, RGB or CMYK; anything else is unsupported). Grayscale samples are
//! replicated into the three color bytes, RGB samples pass through, and
//! CMYK frames are assembled from the three stored color channels plus the
//! black sample plane and converted to sRGB by the external profile-driven
//! transform. Each pixel is packed with alpha in the most significant byte,
//! then red, green and blue in descending byte order.

use vstd::prelude::*;

use crate::errors::DecoderError;
use crate::qcms_link::cmyk_srgb_of;
use crate::qcms_link::cmyk_to_srgb;
use crate::qcms_link::cmyk_transform_ok;
use crate::qcms_link::icc_parses;
use crate::qcms_link::icc_profile_parses;
use crate::samples::samples_to_u8;
use crate::samples::u8_samples_of;

verus! {

/// The color spaces this pipeline supports.
#[derive(Clone, Copy, Debug, PartialEq, Eq, Structural)]
pub enum ColorSpace {
    Gray,
    Rgb,
    Cmyk,
}

/// ICC color-space signatures, stored big-endian at bytes 16..20 of a
/// profile.
pub const RGB_SIGNATURE: u32 = 0x52474220;

pub const GRAY_SIGNATURE: u32 = 0x47524159;

pub const CMYK_SIGNATURE: u32 = 0x434d594b;

/// A big-endian 32-bit value assembled from four bytes.
pub open spec fn be_u32(b0: u8, b1: u8, b2: u8, b3: u8) -> u32 {
    ((b0 as u32) << 24u32) | ((b1 as u32) << 16u32) | ((b2 as u32) << 8u32) | (b3 as u32)
}

/// The color space an ICC profile blob names: too short a blob cannot be
/// parsed at all, and a signature other than gray, RGB or CMYK is
/// unsupported.
pub open spec fn color_space_of_icc(icc: Seq<u8>) -> Result<ColorSpace, DecoderError> {
    if icc.len() < 20 {
        Err(DecoderError::ProfileParseFailure)
    } else {
        let sig = be_u32(icc[16], icc[17], icc[18], icc[19]);
        if sig == RGB_SIGNATURE {
            Ok(ColorSpace::Rgb)
        } else if sig == GRAY_SIGNATURE {
            Ok(ColorSpace::Gray)
        } else if sig == CMYK_SIGNATURE {
            Ok(ColorSpace::Cmyk)
        } else {
            Err(DecoderError::UnknownColorSpace)
        }
    }
}

/// Reads the color-space signature out of the cached profile bytes.
pub fn determine_color_space(icc: &Vec<u8>) -> (r: Result<ColorSpace, DecoderError>)
    ensures
        r == color_space_of_icc(icc@),
{
    if icc.len() < 20 {
        return Err(DecoderError::ProfileParseFailure);
    }
    let sig = ((icc[16] as u32) << 24u32) | ((icc[17] as u32) << 16u32) | ((icc[18] as u32)
        << 8u32) | (icc[19] as u32);
    if sig == RGB_SIGNATURE {
        Ok(ColorSpace::Rgb)
    } else if sig == GRAY_SIGNATURE {
        Ok(ColorSpace::Gray)
    } else if sig == CMYK_SIGNATURE {
        Ok(ColorSpace::Cmyk)
    } else {
        Err(DecoderError::UnknownColorSpace)
    }
}

/// The tag signature of the device-to-reference lookup table in an ICC
/// profile, and the two lookup-table tag types the color-management
/// library reads for CMYK input (the 8-bit and 16-bit table forms).
pub const A2B0_TAG: u32 = 0x41324230;

pub const LUT8_TYPE: u32 = 0x6d667431;

pub const LUT16_TYPE: u32 = 0x6d667432;

/// A big-endian 32-bit value read at byte offset `off` of a blob.
pub open spec fn be_at(icc: Seq<u8>, off: int) -> u32 {
    be_u32(icc[off], icc[off + 1], icc[off + 2], icc[off + 3])
}

/// The offset field of the first tag-table entry tagged A2B0, searching
/// from entry `i`; the table starts at byte 132, 12 bytes per entry.
pub open spec fn first_a2b0(icc: Seq<u8>, i: int, count: int) -> Option<int>
    decreases count - i,
{
    if i >= count {
        None
    } else if be_at(icc, 132 + 12 * i) == A2B0_TAG {
        Some(be_at(icc, 136 + 12 * i) as int)
    } else {
        first_a2b0(icc, i + 1, count)
    }
}

/// Whether the profile blob carries the lookup table a CMYK-to-sRGB
/// transform needs: a well-bounded tag table whose first A2B0 entry points
/// at a tag of one of the two table forms the color-management library
/// reads for CMYK input. Without one of those the transform cannot be
/// constructed.
pub open spec fn cmyk_lut_ok(icc: Seq<u8>) -> bool {
    if icc.len() < 132 {
        false
    } else {
        let count = be_at(icc, 128) as int;
        if count > 1024 || 132 + 12 * count > icc.len() {
            false
        } else {
            match first_a2b0(icc, 0, count) {
                None => false,
                Some(off) => 0 <= off && off + 4 <= icc.len() && (be_at(icc, off) == LUT8_TYPE
                    || be_at(icc, off) == LUT16_TYPE),
            }
        }
    }
}

/// Reads a big-endian 32-bit value at byte offset `off`.
fn read_be_u32(icc: &Vec<u8>, off: usize) -> (r: u32)
    requires
        off + 4 <= icc@.len(),
    ensures
        r == be_at(icc@, off as int),
{
    let n = icc.len();
    proof {
        assert(off + 4 <= n);
    }
    ((icc[off] as u32) << 24u32) | ((icc[off + 1] as u32) << 16u32) | ((icc[off + 2] as u32)
        << 8u32) | (icc[off + 3] as u32)
}

/// Scans the profile's tag table for the lookup table a CMYK-to-sRGB
/// transform needs.
pub fn icc_has_cmyk_lut(icc: &Vec<u8>) -> (r: bool)
    ensures
        r == cmyk_lut_ok(icc@),
{
    if icc.len() < 132 {
        return false;
    }
    let count32 = read_be_u32(icc, 128);
    if count32 > 1024 {
        return false;
    }
    let count = count32 as usize;
    if 132 + 12 * count > icc.len() {
        return false;
    }
    let mut i: usize = 0;
    while i < count
        invariant
            i <= count,
            count == be_at(icc@, 128) as int,
            count <= 1024,
            132 + 12 * count <= icc@.len(),
            first_a2b0(icc@, 0, count as int) == first_a2b0(icc@, i as int, count as int),
        decreases count - i,
    {
        let sig = read_be_u32(icc, 132 + 12 * i);
        if sig == A2B0_TAG {
            let off32 = read_be_u32(icc, 136 + 12 * i);
            let off = off32 as usize;
            if off <= icc.len() - 4 {
                let t = read_be_u32(icc, off);
                return t == LUT8_TYPE || t == LUT16_TYPE;
            }
            return false;
        }
        i += 1;
    }
    false
}

/// One packed pixel: alpha in the most significant byte, then red, green
/// and blue in descending byte order.
pub open spec fn pack_px(a: u8, r: u8, g: u8, b: u8) -> u32 {
    ((a as u32) << 24u32) | ((r as u32) << 16u32) | ((g as u32) << 8u32) | (b as u32)
}

/// The alpha byte of a packed pixel.
pub open spec fn px_alpha(p: u32) -> u32 {
    p >> 24u32
}

/// The red byte of a packed pixel.
pub open spec fn px_red(p: u32) -> u32 {
    (p >> 16u32) & 0xff
}

/// The green byte of a packed pixel.
pub open spec fn px_green(p: u32) -> u32 {
    (p >> 8u32) & 0xff
}

/// The blue byte of a packed pixel.
pub open spec fn px_blue(p: u32) -> u32 {
    p & 0xff
}

/// Packing puts each byte where the extraction functions read it.
pub proof fn lemma_pack_px_bytes(a: u8, r: u8, g: u8, b: u8)
    ensures
        px_alpha(pack_px(a, r, g, b)) == a,
        px_red(pack_px(a, r, g, b)) == r,
        px_green(pack_px(a, r, g, b)) == g,
        px_blue(pack_px(a, r, g, b)) == b,
{
    assert((((a as u32) << 24u32) | ((r as u32) << 16u32) | ((g as u32) << 8u32) | (b as u32))
        >> 24u32 == a as u32) by (bit_vector);
    assert(((((a as u32) << 24u32) | ((r as u32) << 16u32) | ((g as u32) << 8u32) | (b as u32))
        >> 16u32) & 0xff == r as u32) by (bit_vector);
    assert(((((a as u32) << 24u32) | ((r as u32) << 16u32) | ((g as u32) << 8u32) | (b as u32))
        >> 8u32) & 0xff == g as u32) by (bit_vector);
    assert((((a as u32) << 24u32) | ((r as u32) << 16u32) | ((g as u32) << 8u32) | (b as u32))
        & 0xff == b as u32) by (bit_vector);
}

/// The view of an optional borrowed sample plane.
pub open spec fn opt_view(a: Option<&Vec<u8>>) -> Option<Seq<u8>> {
    match a {
        Some(v) => Some(v@),
        None => None,
    }
}

/// The alpha byte of pixel `i`: its sample when an alpha plane is present,
/// fully opaque otherwise.
pub open spec fn alpha_byte_at(alpha: Option<Seq<u8>>, i: int) -> u8 {
    match alpha {
        Some(a) => a[i],
        None => 255u8,
    }
}

/// The packed pixels of one-channel (gray) samples: the gray byte
/// replicated into red, green and blue.
pub open spec fn packed_gray(gray: Seq<u8>, alpha: Option<Seq<u8>>, px: nat) -> Seq<u32> {
    Seq::new(px, |i: int| pack_px(alpha_byte_at(alpha, i), gray[i], gray[i], gray[i]))
}

/// The packed pixels of three-channel (RGB) samples.
pub open spec fn packed_rgb(rgb: Seq<u8>, alpha: Option<Seq<u8>>, px: nat) -> Seq<u32> {
    Seq::new(px, |i: int| pack_px(alpha_byte_at(alpha, i), rgb[3 * i], rgb[3 * i + 1], rgb[3 * i + 2]))
}

/// Four-channel CMYK samples assembled from three stored color channels and
/// the black plane: each pixel's black sample is interleaved immediately
/// after its three color samples.
pub open spec fn interleaved_cmyk(color: Seq<u8>, black: Seq<u8>, px: nat) -> Seq<u8> {
    Seq::new(
        4 * px,
        |i: int|
            if i % 4 == 3 {
                black[i / 4]
            } else {
                color[(i / 4) * 3 + i % 4]
            },
    )
}

/// What normalization yields on 8-bit samples. The color space comes from
/// the profile bytes. A CMYK frame must carry exactly 3 stored color
/// channels and a black plane, and goes through the external transform;
/// grayscale and RGB frames must carry 1 and 3 stored channels and are
/// packed directly.
pub open spec fn normalize_spec(
    color: Seq<u8>,
    alpha: Option<Seq<u8>>,
    black: Option<Seq<u8>>,
    icc: Seq<u8>,
    channels: nat,
    px: nat,
) -> Result<Seq<u32>, DecoderError> {
    match color_space_of_icc(icc) {
        Err(e) => Err(e),
        Ok(ColorSpace::Cmyk) => match black {
            None => Err(DecoderError::CmykChannelMismatch),
            Some(k) => if channels != 3 {
                Err(DecoderError::CmykChannelMismatch)
            } else if !icc_parses(icc) {
                Err(DecoderError::ProfileParseFailure)
            } else if !cmyk_lut_ok(icc) || !cmyk_transform_ok(icc) {
                Err(DecoderError::TransformConstructionFailure)
            } else {
                Ok(packed_rgb(cmyk_srgb_of(icc, interleaved_cmyk(color, k, px)), alpha, px))
            },
        },
        Ok(ColorSpace::Gray) => if channels != 1 {
            Err(DecoderError::ChannelCountMismatch)
        } else {
            Ok(packed_gray(color, alpha, px))
        },
        Ok(ColorSpace::Rgb) => if channels != 3 {
            Err(DecoderError::ChannelCountMismatch)
        } else {
            Ok(packed_rgb(color, alpha, px))
        },
    }
}

/// The view of a normalization result.
pub open spec fn result_view(r: Result<Vec<u32>, DecoderError>) -> Result<Seq<u32>, DecoderError> {
    match r {
        Ok(v) => Ok(v@),
        Err(e) => Err(e),
    }
}

/// Interleaves each pixel's black sample immediately after its three stored
/// color samples, yielding four-channel CMYK samples.
fn interleave_cmyk_samples(color: &Vec<u8>, black: &Vec<u8>, px: usize) -> (r: Vec<u8>)
    requires
        color@.len() == 3 * px,
        black@.len() == px,
        4 * px <= usize::MAX,
    ensures
        r@ == interleaved_cmyk(color@, black@, px as nat),
{
    let mut out: Vec<u8> = Vec::with_capacity(4 * px);
    let mut i: usize = 0;
    while i < px
        invariant
            i <= px,
            color@.len() == 3 * px,
            black@.len() == px,
            4 * px <= usize::MAX,
            out@.len() == 4 * i,
            forall|j: int| 0 <= j < 4 * i ==> out@[j] == interleaved_cmyk(color@, black@, px as nat)[j],
        decreases px - i,
    {
        out.push(color[3 * i]);
        out.push(color[3 * i + 1]);
        out.push(color[3 * i + 2]);
        out.push(black[i]);
        proof {
            let s = interleaved_cmyk(color@, black@, px as nat);
            let i0 = i as int;
            assert((4 * i0) / 4 == i0 && (4 * i0) % 4 == 0) by (nonlinear_arith);
            assert((4 * i0 + 1) / 4 == i0 && (4 * i0 + 1) % 4 == 1) by (nonlinear_arith);
            assert((4 * i0 + 2) / 4 == i0 && (4 * i0 + 2) % 4 == 2) by (nonlinear_arith);
            assert((4 * i0 + 3) / 4 == i0 && (4 * i0 + 3) % 4 == 3) by (nonlinear_arith);
            assert(out@[4 * i0] == s[4 * i0]);
            assert(out@[4 * i0 + 1] == s[4 * i0 + 1]);
            assert(out@[4 * i0 + 2] == s[4 * i0 + 2]);
            assert(out@[4 * i0 + 3] == s[4 * i0 + 3]);
        }
        i += 1;
    }
    proof {
        assert(out@ =~= interleaved_cmyk(color@, black@, px as nat));
    }
    out
}

/// Packs one-channel or three-channel 8-bit samples into 32-bit pixels,
/// replicating a gray sample into the three color bytes and taking the
/// alpha byte from the alpha plane when one is present, fully opaque
/// otherwise.
pub fn pack_pixels(samples: &Vec<u8>, channels: usize, alpha: Option<&Vec<u8>>, px: usize) -> (r:
    Vec<u32>)
    requires
        channels == 1 || channels == 3,
        samples@.len() == channels * px,
        alpha is Some ==> alpha.unwrap()@.len() == px,
    ensures
        channels == 1 ==> r@ == packed_gray(samples@, opt_view(alpha), px as nat),
        channels == 3 ==> r@ == packed_rgb(samples@, opt_view(alpha), px as nat),
{
    let mut out: Vec<u32> = Vec::with_capacity(px);
    let mut i: usize = 0;
    while i < px
        invariant
            i <= px,
            channels == 1 || channels == 3,
            samples@.len() == channels * px,
            alpha is Some ==> alpha.unwrap()@.len() == px,
            out@.len() == i,
            channels == 1 ==> forall|j: int|
                0 <= j < i ==> out@[j] == packed_gray(samples@, opt_view(alpha), px as nat)[j],
            channels == 3 ==> forall|j: int|
                0 <= j < i ==> out@[j] == packed_rgb(samples@, opt_view(alpha), px as nat)[j],
        decreases px - i,
    {
        let a: u8 = match alpha {
            Some(plane) => plane[i],
            None => 255,
        };
        let (cr, cg, cb) = if channels == 1 {
            let g = samples[i];
            (g, g, g)
        } else {
            let len0 = samples.len();
            proof {
                assert(len0 == 3 * (px as int)) by (nonlinear_arith)
                    requires
                        channels == 3,
                        (len0 as int) == (channels as int) * (px as int),
                ;
                assert(3 * (i as int) + 3 <= len0);
            }
            (samples[3 * i], samples[3 * i + 1], samples[3 * i + 2])
        };
        let p: u32 = ((a as u32) << 24u32) | ((cr as u32) << 16u32) | ((cg as u32) << 8u32) | (
        cb as u32);
        out.push(p);
        i += 1;
    }
    proof {
        if channels == 1 {
            assert(out@ =~= packed_gray(samples@, opt_view(alpha), px as nat));
        } else {
            assert(out@ =~= packed_rgb(samples@, opt_view(alpha), px as nat));
        }
    }
    out
}

/// Normalizes one frame's 8-bit samples into packed 32-bit pixels, exactly
/// as `normalize_spec` says: the profile decides the color space, CMYK
/// frames are assembled from the stored color channels plus the black plane
/// and converted to sRGB by the external transform, grayscale is
/// replicated, RGB passes through, and each failure is reported as the
/// error `normalize_spec` names.
pub fn normalize_samples(
    color: &Vec<u8>,
    alpha: Option<&Vec<u8>>,
    black: Option<&Vec<u8>>,
    icc: &Vec<u8>,
    channels: usize,
    px: usize,
) -> (r: Result<Vec<u32>, DecoderError>)
    requires
        color@.len() == channels * px,
        alpha is Some ==> alpha.unwrap()@.len() == px,
        black is Some ==> black.unwrap()@.len() == px,
        4 * px <= usize::MAX,
    ensures
        result_view(r) == normalize_spec(
            color@,
            opt_view(alpha),
            opt_view(black),
            icc@,
            channels as nat,
            px as nat,
        ),
{
    let space = match determine_color_space(icc) {
        Ok(s) => s,
        Err(e) => {
            return Err(e);
        },
    };
    match space {
        ColorSpace::Cmyk => {
            let k = match black {
                Some(k) => k,
                None => {
                    return Err(DecoderError::CmykChannelMismatch);
                },
            };
            if channels != 3 {
                return Err(DecoderError::CmykChannelMismatch);
            }
            if !icc_profile_parses(icc) {
                return Err(DecoderError::ProfileParseFailure);
            }
            if !icc_has_cmyk_lut(icc) {
                return Err(DecoderError::TransformConstructionFailure);
            }
            let cmyk = interleave_cmyk_samples(color, k, px);
            let mut rgb: Vec<u8> = vec![0u8; 3 * px];
            proof {
                assert(cmyk@.len() % 4 == 0 && rgb@.len() * 4 == cmyk@.len() * 3)
                    by (nonlinear_arith)
                    requires
                        cmyk@.len() == 4 * px,
                        rgb@.len() == 3 * px,
                ;
            }
            if !cmyk_to_srgb(icc, &cmyk, &mut rgb) {
                return Err(DecoderError::TransformConstructionFailure);
            }
            Ok(pack_pixels(&rgb, 3, alpha, px))
        },
        ColorSpace::Gray => {
            if channels != 1 {
                return Err(DecoderError::ChannelCountMismatch);
            }
            Ok(pack_pixels(color, 1, alpha, px))
        },
        ColorSpace::Rgb => {
            if channels != 3 {
                return Err(DecoderError::ChannelCountMismatch);
            }
            Ok(pack_pixels(color, 3, alpha, px))
        },
    }
}

/// Normalizes one frame straight from the raw float sample buffers the
/// engine filled: every sample is first clamped to [0, 255] and truncated
/// to 8 bits, then the frame is normalized as `normalize_spec` says.
pub fn normalize_frame(
    color_raw: &Vec<u8>,
    alpha_raw: Option<&Vec<u8>>,
    black_raw: Option<&Vec<u8>>,
    icc: &Vec<u8>,
    channels: usize,
    px: usize,
) -> (r: Result<Vec<u32>, DecoderError>)
    requires
        color_raw@.len() == 4 * (channels * px),
        alpha_raw is Some ==> alpha_raw.unwrap()@.len() == 4 * px,
        black_raw is Some ==> black_raw.unwrap()@.len() == 4 * px,
        4 * px <= usize::MAX,
    ensures
        result_view(r) == normalize_spec(
            u8_samples_of(color_raw@),
            match opt_view(alpha_raw) {
                Some(a) => Some(u8_samples_of(a)),
                None => None,
            },
            match opt_view(black_raw) {
                Some(b) => Some(u8_samples_of(b)),
                None => None,
            },
            icc@,
            channels as nat,
            px as nat,
        ),
{
    let color = samples_to_u8(color_raw);
    proof {
        assert(color@.len() == channels * px) by (nonlinear_arith)
            requires
                color@.len() == color_raw@.len() / 4,
                color_raw@.len() == 4 * (channels * px),
        ;
    }
    let alpha: Option<Vec<u8>> = match alpha_raw {
        Some(a) => Some(samples_to_u8(a)),
        None => None,
    };
    let black: Option<Vec<u8>> = match black_raw {
        Some(b) => Some(samples_to_u8(b)),
        None => None,
    };
    let alpha_ref: Option<&Vec<u8>> = match &alpha {
        Some(a) => Some(a),
        None => None,
    };
    let black_ref: Option<&Vec<u8>> = match &black {
        Some(b) => Some(b),
        None => None,
    };
    normalize_samples(&color, alpha_ref, black_ref, icc, channels, px)
}

/// Round-trip channel accounting: a CMYK frame with 3 stored color channels
/// and a present black plane is never rejected for its channel count, and
/// the same frame without the black plane is rejected as a CMYK channel
/// mismatch.
pub proof fn lemma_cmyk_channel_accounting(
    color: Seq<u8>,
    alpha: Option<Seq<u8>>,
    black: Seq<u8>,
    icc: Seq<u8>,
    px: nat,
)
    requires
        color_space_of_icc(icc) == Ok::<ColorSpace, DecoderError>(ColorSpace::Cmyk),
    ensures
        normalize_spec(color, alpha, Some(black), icc, 3, px) != Err::<Seq<u32>, DecoderError>(
            DecoderError::ChannelCountMismatch,
        ),
        normalize_spec(color, alpha, None, icc, 3, px) == Err::<Seq<u32>, DecoderError>(
            DecoderError::CmykChannelMismatch,
        ),
{
}

/// Grayscale frames always pack pixels whose red, green and blue bytes are
/// equal.
pub proof fn lemma_grayscale_packs_equal_rgb(
    color: Seq<u8>,
    alpha: Option<Seq<u8>>,
    black: Option<Seq<u8>>,
    icc: Seq<u8>,
    px: nat,
    out: Seq<u32>,
)
    requires
        normalize_spec(color, alpha, black, icc, 1, px) == Ok::<Seq<u32>, DecoderError>(out),
    ensures
        forall|i: int|
            0 <= i < out.len() ==> px_red(out[i]) == px_green(out[i]) && px_green(out[i])
                == px_blue(out[i]),
{
    assert(out == packed_gray(color, alpha, px));
    assert forall|i: int| 0 <= i < out.len() implies px_red(out[i]) == px_green(out[i]) && px_green(
        out[i],
    ) == px_blue(out[i]) by {
        lemma_pack_px_bytes(alpha_byte_at(alpha, i), color[i], color[i], color[i]);
    }
}

/// Frames without an alpha plane always pack fully opaque pixels: the alpha
/// byte of every packed pixel is 255.
pub proof fn lemma_opaque_packs_alpha_255(
    color: Seq<u8>,
    black: Option<Seq<u8>>,
    icc: Seq<u8>,
    channels: nat,
    px: nat,
    out: Seq<u32>,
)
    requires
        normalize_spec(color, None, black, icc, channels, px) == Ok::<Seq<u32>, DecoderError>(out),
    ensures
        forall|i: int| 0 <= i < out.len() ==> px_alpha(out[i]) == 255,
{
    assert forall|i: int| 0 <= i < out.len() implies px_alpha(out[i]) == 255 by {
        match color_space_of_icc(icc) {
            Ok(ColorSpace::Gray) => {
                assert(out == packed_gray(color, None, px));
                lemma_pack_px_bytes(255u8, color[i], color[i], color[i]);
            },
            Ok(ColorSpace::Rgb) => {
                assert(out == packed_rgb(color, None, px));
                lemma_pack_px_bytes(255u8, color[3 * i], color[3 * i + 1], color[3 * i + 2]);
            },
            Ok(ColorSpace::Cmyk) => {
                let k = black.unwrap();
                let rgb = cmyk_srgb_of(icc, interleaved_cmyk(color, k, px));
                assert(out == packed_rgb(rgb, None, px));
                lemma_pack_px_bytes(255u8, rgb[3 * i], rgb[3 * i + 1], rgb[3 * i + 2]);
            },
            Err(_) => {
                assert(false);
            },
        }
    }
}

} // verus!
