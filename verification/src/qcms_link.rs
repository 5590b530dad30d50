//! The trusted boundary to the external color-management library (qcms):
//! parsing the cached ICC profile bytes and running the profile-driven
//! CMYK-to-sRGB pixel transform.

use vstd::prelude::*;

verus! {

/// Whether the color-management library can parse these ICC profile bytes.
/// Parsing reads only the bytes, so the result is a function of them alone.
pub uninterp spec fn icc_parses(icc: Seq<u8>) -> bool;

/// Whether a transform from the CMYK space described by these profile bytes
/// to 8-bit sRGB with perceptual intent can be constructed. A function of
/// the bytes alone; when the profile does not parse, no transform can be
/// constructed and this is false.
pub uninterp spec fn cmyk_transform_ok(icc: Seq<u8>) -> bool;

/// The sRGB bytes (3 per pixel) that the transform built from these profile
/// bytes produces for the given interleaved 8-bit CMYK samples (4 per
/// pixel). A function of the profile and sample bytes alone.
pub uninterp spec fn cmyk_srgb_of(icc: Seq<u8>, cmyk: Seq<u8>) -> Seq<u8>;

/// Relies on qcms::Profile::new_from_slice (full parse, not curves-only):
/// reports whether the ICC profile bytes parse.
#[verifier::external_body]
pub(crate) fn icc_profile_parses(icc: &Vec<u8>) -> (r: bool)
    ensures
        r == icc_parses(icc@),
{
    qcms::Profile::new_from_slice(icc, false).is_some()
}

/// Relies on qcms::Profile::new_from_slice, qcms::Profile::new_sRGB,
/// qcms::Transform::new_to and qcms::Transform::convert: parses the
/// profile, builds the 8-bit CMYK-to-sRGB transform with perceptual
/// rendering intent and the fixed standard sRGB output profile, and runs it
/// over `cmyk`, writing 3 output bytes per pixel into `rgb`. Succeeds
/// exactly when the profile parses and the transform can be constructed.
/// The caller must have seen an A2B0 tag of one of the two lookup-table
/// forms the library reads for CMYK input in the profile bytes: on a
/// parseable CMYK profile without one, transform construction would trip a
/// debug assertion instead of declining. With the library's ICCv4 support
/// left in its default state, all three outcomes are functions of the byte
/// arguments alone (the CMYK path uses a single scalar lookup-table
/// conversion routine on every machine).
#[verifier::external_body]
pub(crate) fn cmyk_to_srgb(icc: &Vec<u8>, cmyk: &Vec<u8>, rgb: &mut Vec<u8>) -> (r: bool)
    requires
        crate::pixels::cmyk_lut_ok(icc@),
        cmyk@.len() % 4 == 0,
        old(rgb)@.len() * 4 == cmyk@.len() * 3,
    ensures
        r == (icc_parses(icc@) && cmyk_transform_ok(icc@)),
        r ==> final(rgb)@ == cmyk_srgb_of(icc@, cmyk@),
        final(rgb)@.len() == old(rgb)@.len(),
{
    let input = match qcms::Profile::new_from_slice(icc, false) {
        Some(p) => p,
        None => return false,
    };
    let output = qcms::Profile::new_sRGB();
    let (src_ty, dst_ty) = (qcms::DataType::CMYK, qcms::DataType::RGB8);
    let transform = match qcms::Transform::new_to(&input, &output, src_ty, dst_ty, qcms::Intent::Perceptual) {
        Some(t) => t,
        None => return false,
    };
    transform.convert(cmyk, rgb);
    true
}

} // verus!
