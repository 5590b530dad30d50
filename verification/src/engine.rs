//! The trusted boundary to the external JPEG XL bitstream engine (jxl): the
//! typestate decoder object, one incremental processing call per stage, and
//! the metadata reads made once the image-info stage completes.
//!
//! Every wrapper states only what holds of every outcome: how much input
//! may have been consumed and that the caller's buffers keep their lengths.
//! What the engine reports is handed to the verified state machine as plain
//! values and checked there.

use vstd::prelude::*;

use crate::channels::ChannelKind;

verus! {

/// An engine object that has consumed no input yet. Opaque: the engine's
/// typestate parameter carries an outside trait bound that cannot be
/// declared here, so the object is held behind this struct instead.
#[verifier::external_body]
pub struct EngineInit {
    inner: jxl::api::JxlDecoder<jxl::api::states::Initialized>,
}

/// An engine object whose image-info stage has completed. Opaque.
#[verifier::external_body]
pub struct EngineInfo {
    inner: jxl::api::JxlDecoder<jxl::api::states::WithImageInfo>,
}

/// An engine object whose frame-info stage has completed. Opaque.
#[verifier::external_body]
pub struct EngineFrame {
    inner: jxl::api::JxlDecoder<jxl::api::states::WithFrameInfo>,
}

/// The engine object in whichever typestate it currently has, or no engine
/// at all (before the signature is accepted, or after a processing call
/// failed).
pub enum EngineSlot {
    Vacant,
    Init(EngineInit),
    Info(EngineInfo),
    Frame(EngineFrame),
}

/// Relies on jxl::api::JxlDecoder::<Initialized>::new with default decoder
/// options: creates a fresh engine that has consumed no input.
#[verifier::external_body]
pub(crate) fn engine_new() -> EngineInit {
    EngineInit {
        inner: jxl::api::JxlDecoder::<jxl::api::states::Initialized>::new(
            jxl::api::JxlDecoderOptions::default(),
        ),
    }
}

/// The outcome of one processing call at the image-info stage: the stage
/// completed, or the engine needs more input (with a size hint) and hands
/// itself back, or the engine rejected the bitstream.
pub enum InfoStep {
    Done(EngineInfo),
    More(EngineInit, usize),
    Rejected,
}

/// The outcome of one processing call at the frame-info stage.
pub enum FrameInfoStep {
    Done(EngineFrame),
    More(EngineInfo, usize),
    Rejected,
}

/// The outcome of one processing call at the pixel stage; completing a
/// frame returns the engine to its image-info state, ready for the next
/// frame.
pub enum FrameStep {
    Done(EngineInfo),
    More(EngineFrame, usize),
    Rejected,
}

/// Relies on jxl::api::JxlDecoder::<Initialized>::process: feeds the bytes
/// of `buf` from position `from` on and reports the outcome together with
/// how many of them the engine left unconsumed.
#[verifier::external_body]
pub(crate) fn engine_process_info(d: EngineInit, buf: &Vec<u8>, from: usize) -> (r: (
    InfoStep,
    usize,
))
    requires
        from <= buf@.len(),
    ensures
        r.1 <= buf@.len() - from,
{
    let mut input: &[u8] = &buf[from..];
    match d.inner.process(&mut input, None) {
        Ok(jxl::api::ProcessingResult::Complete { result }) =>
            (InfoStep::Done(EngineInfo { inner: result }), input.len()),
        Ok(jxl::api::ProcessingResult::NeedsMoreInput { size_hint, fallback }) =>
            (InfoStep::More(EngineInit { inner: fallback }, size_hint), input.len()),
        Err(_) => (InfoStep::Rejected, 0),
    }
}

/// Relies on jxl::api::JxlDecoder::<WithImageInfo>::process: feeds the
/// bytes of `buf` from position `from` on and reports the outcome together
/// with how many of them the engine left unconsumed.
#[verifier::external_body]
pub(crate) fn engine_process_frame_info(d: EngineInfo, buf: &Vec<u8>, from: usize) -> (r: (
    FrameInfoStep,
    usize,
))
    requires
        from <= buf@.len(),
    ensures
        r.1 <= buf@.len() - from,
{
    let mut input: &[u8] = &buf[from..];
    match d.inner.process(&mut input, None) {
        Ok(jxl::api::ProcessingResult::Complete { result }) =>
            (FrameInfoStep::Done(EngineFrame { inner: result }), input.len()),
        Ok(jxl::api::ProcessingResult::NeedsMoreInput { size_hint, fallback }) =>
            (FrameInfoStep::More(EngineInfo { inner: fallback }, size_hint), input.len()),
        Err(_) => (FrameInfoStep::Rejected, 0),
    }
}

/// Relies on jxl::api::JxlDecoder::<WithFrameInfo>::process and
/// jxl::api::JxlOutputBuffer::new: feeds the bytes of `buf` from position
/// `from` on, handing the engine one output view over the color buffer and
/// one over each extra-channel plane, in order. The engine writes through
/// those views, so every buffer keeps its length whatever the outcome. The
/// engine wants each row 4-byte aligned for its 32-bit float samples; the
/// buffers come from the global allocator and the row sizes are multiples
/// of 4, which satisfies that.
#[verifier::external_body]
pub(crate) fn engine_process_frame(
    d: EngineFrame,
    buf: &Vec<u8>,
    from: usize,
    color: &mut Vec<u8>,
    planes: &mut Vec<Vec<u8>>,
    num_rows: usize,
    color_bpr: usize,
    extra_bpr: usize,
) -> (r: (FrameStep, usize))
    requires
        from <= buf@.len(),
        num_rows >= 1,
        old(color)@.len() >= num_rows * color_bpr,
        forall|i: int|
            0 <= i < old(planes)@.len() ==> (#[trigger] old(planes)@[i])@.len() >= num_rows
                * extra_bpr,
    ensures
        r.1 <= buf@.len() - from,
        final(color)@.len() == old(color)@.len(),
        final(planes)@.len() == old(planes)@.len(),
        forall|i: int|
            0 <= i < old(planes)@.len() ==> (#[trigger] final(planes)@[i])@.len() == (old(
                planes,
            )@[i])@.len(),
{
    let mut input: &[u8] = &buf[from..];
    let mut views: Vec<jxl::api::JxlOutputBuffer> = Vec::with_capacity(1 + planes.len());
    views.push(jxl::api::JxlOutputBuffer::new(color, num_rows, color_bpr));
    for p in planes.iter_mut() {
        views.push(jxl::api::JxlOutputBuffer::new(p, num_rows, extra_bpr));
    }
    match d.inner.process(&mut input, &mut views, None) {
        Ok(jxl::api::ProcessingResult::Complete { result }) =>
            (FrameStep::Done(EngineInfo { inner: result }), input.len()),
        Ok(jxl::api::ProcessingResult::NeedsMoreInput { size_hint, fallback }) =>
            (FrameStep::More(EngineFrame { inner: fallback }, size_hint), input.len()),
        Err(_) => (FrameStep::Rejected, 0),
    }
}

/// Relies on jxl::api::JxlDecoder::basic_info: the image dimensions
/// (width, height).
#[verifier::external_body]
pub(crate) fn engine_dims(d: &EngineInfo) -> (usize, usize) {
    d.inner.basic_info().size
}

/// Relies on jxl::api::JxlDecoder::basic_info and
/// Orientation::is_transposing: whether the stored orientation swaps the
/// buffer layout's width and height.
#[verifier::external_body]
pub(crate) fn engine_transpose(d: &EngineInfo) -> bool {
    d.inner.basic_info().orientation.is_transposing()
}

/// Relies on jxl::api::JxlDecoder::basic_info: how many extra channels the
/// image carries.
#[verifier::external_body]
pub(crate) fn engine_extra_channel_count(d: &EngineInfo) -> usize {
    d.inner.basic_info().extra_channels.len()
}

/// Relies on jxl::api::JxlDecoder::basic_info: the kind tag of extra
/// channel `i`, mapped to this crate's channel kinds (alpha and black are
/// the kinds this pipeline reads; everything else is ignored). Out-of-range
/// indexes report an ignored channel.
#[verifier::external_body]
pub(crate) fn engine_extra_channel_kind(d: &EngineInfo, i: usize) -> ChannelKind {
    match d.inner.basic_info().extra_channels.get(i) {
        None => ChannelKind::Other,
        Some(ec) => match ec.ec_type {
            jxl::headers::extra_channels::ExtraChannel::Alpha => ChannelKind::Alpha,
            jxl::headers::extra_channels::ExtraChannel::Black => ChannelKind::Black,
            _ => ChannelKind::Other,
        },
    }
}

/// Relies on jxl::api::JxlDecoder::current_pixel_format and
/// JxlColorType::samples_per_pixel: how many color channels each pixel of
/// the color buffer carries.
#[verifier::external_body]
pub(crate) fn engine_color_channels(d: &EngineInfo) -> usize {
    d.inner.current_pixel_format().color_type.samples_per_pixel()
}

/// Relies on jxl::api::JxlDecoder::current_pixel_format and
/// JxlColorType::is_grayscale: whether the color buffer carries grayscale
/// samples.
#[verifier::external_body]
pub(crate) fn engine_is_grayscale(d: &EngineInfo) -> bool {
    d.inner.current_pixel_format().color_type.is_grayscale()
}

/// Relies on jxl::api::JxlDecoder::output_color_profile and
/// JxlColorProfile::try_as_icc: the image's color profile as ICC bytes,
/// when one can be produced.
#[verifier::external_body]
pub(crate) fn engine_icc(d: &EngineInfo) -> Option<Vec<u8>> {
    match d.inner.output_color_profile().try_as_icc() {
        Some(c) => Some(c.into_owned()),
        None => None,
    }
}

/// Relies on jxl::api::JxlDecoder::current_pixel_format and
/// set_pixel_format: keeps the color format and requests one output plane
/// exactly for each extra channel marked in `keep`, so ignored channels get
/// no buffer. Reports whether the engine accepted the format.
#[verifier::external_body]
pub(crate) fn engine_set_extra_channel_planes(d: &mut EngineInfo, keep: &Vec<bool>) -> bool {
    let mut fmt = d.inner.current_pixel_format().clone();
    let mut formats: Vec<Option<jxl::api::JxlDataFormat>> = Vec::with_capacity(keep.len());
    for k in keep.iter() {
        formats.push(
            if *k {
                Some(jxl::api::JxlDataFormat::F32 { endianness: jxl::api::Endianness::native() })
            } else {
                None
            },
        );
    }
    fmt.extra_channel_format = formats;
    d.inner.set_pixel_format(fmt).is_ok()
}

} // verus!
