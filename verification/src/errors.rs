//! Error vocabulary of the decoder and the status codes reported across the
//! language boundary.

use vstd::prelude::*;

verus! {

/// Every failure the decoder can report. Once the decoder enters its failed
/// state with one of these, the same error is reported by every later call.
#[derive(Clone, Copy, Debug, PartialEq, Eq, Structural)]
pub enum DecoderError {
    /// The leading bytes match neither the raw codestream signature nor the
    /// container signature.
    InvalidSignature,
    /// The opaque engine rejected the bitstream at the image-info, frame-info
    /// or pixel stage, or reported something inconsistent with its protocol.
    EngineError,
    /// An internal invariant was violated: frame processing was attempted
    /// before the image info was cached, or a frame completed while a
    /// previous packed pixel buffer was still unclaimed.
    MissingCachedInfo,
    /// The image info promises an alpha channel but no extra channel was
    /// classified as alpha.
    AlphaChannelInconsistency,
    /// The color profile names a color space other than gray, RGB or CMYK.
    UnknownColorSpace,
    /// The stored channel count does not match the determined color space.
    ChannelCountMismatch,
    /// A CMYK frame arrived without exactly 3 stored color channels plus a
    /// black sample buffer.
    CmykChannelMismatch,
    /// The cached color profile bytes could not be parsed.
    ProfileParseFailure,
    /// The profile-based transform to sRGB could not be constructed.
    TransformConstructionFailure,
    /// The caller-supplied output buffer is smaller than the decoded pixel
    /// count. The frame stays ready; the caller may retry.
    BufferTooSmall,
    /// Extraction was attempted while no frame is ready. The decoder state is
    /// unchanged; the caller may retry later.
    FrameNotReady,
    /// A null or destroyed instance was passed at the language boundary.
    InvalidHandle,
}

/// Status codes reported to a calling runtime.
#[derive(Clone, Copy, Debug, PartialEq, Eq, Structural)]
pub enum JxlRustStatus {
    Success,
    NeedMoreData,
    InvalidData,
    Error,
}

/// Image dimensions reported to a calling runtime.
#[derive(Clone, Copy, Debug, PartialEq, Eq, Structural)]
pub struct JxlRustImageInfo {
    pub width: u32,
    pub height: u32,
}

/// Maps the result of feeding data to the status code reported across the
/// language boundary: completion reports `Ok`, starvation reports
/// `NeedMoreData`, and every error reports `InvalidData`.
pub fn status_of_process(r: &Result<(bool, usize), DecoderError>) -> (s: JxlRustStatus)
    ensures
        s == (match r {
            Ok((true, _)) => JxlRustStatus::Success,
            Ok((false, _)) => JxlRustStatus::NeedMoreData,
            Err(_) => JxlRustStatus::InvalidData,
        }),
{
    match r {
        Ok((true, _)) => JxlRustStatus::Success,
        Ok((false, _)) => JxlRustStatus::NeedMoreData,
        Err(_) => JxlRustStatus::InvalidData,
    }
}

} // verus!
