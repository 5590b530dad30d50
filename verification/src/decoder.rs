//! The incremental decode state machine.
//!
//! A decoder instance advances through the stages uninitialized,
//! initialized, has-image-info and has-frame-info, with an absorbing failed
//! stage reachable from any of them; completing a frame returns it to
//! has-image-info so further frames of an animated stream can follow. The
//! instance caches the image info, the extra-channel classification and the
//! color profile bytes when the image-info stage completes, sizes and owns
//! the sample buffers of the in-flight frame, and holds the packed pixels
//! of a completed frame until the caller extracts them.
//!
//! Stage transitions driven by the engine are exposed as event functions
//! with exact contracts; `process_data` feeds bytes to the real engine and
//! calls them.

use vstd::prelude::*;

use crate::channels::ChannelClassification;
use crate::channels::ChannelKind;
use crate::channels::classify_channels;
use crate::channels::is_first_of_kind;
use crate::engine::EngineSlot;
use crate::engine::FrameInfoStep;
use crate::engine::FrameStep;
use crate::engine::InfoStep;
use crate::engine::engine_dims;
use crate::engine::engine_color_channels;
use crate::engine::engine_extra_channel_count;
use crate::engine::engine_extra_channel_kind;
use crate::engine::engine_icc;
use crate::engine::engine_is_grayscale;
use crate::engine::engine_new;
use crate::engine::engine_process_frame;
use crate::engine::engine_process_frame_info;
use crate::engine::engine_process_info;
use crate::engine::engine_set_extra_channel_planes;
use crate::engine::engine_transpose;
use crate::errors::DecoderError;
use crate::errors::JxlRustImageInfo;
use crate::pixels::normalize_spec;
use crate::pixels::normalize_frame;
use crate::samples::u8_samples_of;
use crate::signature::SignatureCheck;
use crate::signature::check_signature;
use crate::signature::lemma_need_more_is_positive;
use crate::signature::signature_status;

verus! {

/// The image information cached once the image-info stage completes;
/// immutable for the lifetime of the instance from then on.
#[derive(Clone, Copy, Debug, PartialEq, Eq, Structural)]
pub struct CachedImageInfo {
    pub width: u32,
    pub height: u32,
    pub has_alpha: bool,
    pub orientation_transpose: bool,
    pub is_grayscale: bool,
}

/// Everything the engine reports when the image-info stage completes.
#[derive(Clone, Debug)]
pub struct ImageMetadata {
    pub width: u32,
    pub height: u32,
    pub has_alpha: bool,
    pub orientation_transpose: bool,
    pub is_grayscale: bool,
    /// Stored color channels per pixel, alpha and black not counted.
    pub color_channels: usize,
    /// The ordered extra-channel kind tags.
    pub extra_channels: Vec<ChannelKind>,
    /// The embedded color profile bytes, cached verbatim.
    pub icc_profile: Vec<u8>,
}

/// The sample buffers of one in-flight frame: the color buffer plus one
/// plane for each extra channel this pipeline reads (alpha, black), kept in
/// extra-channel order. `alpha_pos` and `black_pos` say which plane is
/// which.
pub struct SampleBuffers {
    pub color: Vec<u8>,
    pub planes: Vec<Vec<u8>>,
    pub alpha_pos: Option<usize>,
    pub black_pos: Option<usize>,
}

impl SampleBuffers {
    /// The raw alpha plane, when one is kept.
    pub open spec fn alpha_plane(self) -> Option<Seq<u8>> {
        match self.alpha_pos {
            Some(p) => Some(self.planes[p as int]@),
            None => None,
        }
    }

    /// The raw black plane, when one is kept.
    pub open spec fn black_plane(self) -> Option<Seq<u8>> {
        match self.black_pos {
            Some(p) => Some(self.planes[p as int]@),
            None => None,
        }
    }
}

/// The protocol stage of a decoder instance.
#[derive(Clone, Copy, Debug, PartialEq, Eq, Structural)]
pub enum DecoderStage {
    Uninitialized,
    Initialized,
    HasImageInfo,
    HasFrameInfo,
    Failed(DecoderError),
}

/// The cached info a metadata report turns into.
pub open spec fn cached_info_of(meta: ImageMetadata) -> CachedImageInfo {
    CachedImageInfo {
        width: meta.width,
        height: meta.height,
        has_alpha: meta.has_alpha,
        orientation_transpose: meta.orientation_transpose,
        is_grayscale: meta.is_grayscale,
    }
}

/// The buffer-layout width: the stored width, or the stored height when the
/// orientation transposes the layout.
pub open spec fn layout_width(info: CachedImageInfo) -> int {
    if info.orientation_transpose {
        info.height as int
    } else {
        info.width as int
    }
}

/// The buffer-layout height.
pub open spec fn layout_height(info: CachedImageInfo) -> int {
    if info.orientation_transpose {
        info.width as int
    } else {
        info.height as int
    }
}

/// The pixel count of one frame.
pub open spec fn px_of(info: CachedImageInfo) -> int {
    layout_width(info) * layout_height(info)
}

/// Whether the buffer sizes this frame needs fit the machine's word: the
/// pixel count, the plane size (4 bytes per sample), the bytes per pixel of
/// the color buffer, and the color buffer size.
pub open spec fn sizes_fit(info: CachedImageInfo, channels: int) -> bool {
    &&& px_of(info) <= usize::MAX
    &&& px_of(info) * 4 <= usize::MAX
    &&& channels * 4 <= usize::MAX
    &&& px_of(info) * (channels * 4) <= usize::MAX
}

/// Whether one frame's sample buffers agree with the cached image info and
/// classification: the color buffer holds `4 * channels` bytes per pixel,
/// there is exactly one plane of 4 bytes per pixel for the alpha channel
/// (when the image has one) and one for the black channel (when one was
/// classified), and the positions point at distinct planes.
pub open spec fn buffers_consistent(
    sb: SampleBuffers,
    info: CachedImageInfo,
    cls: ChannelClassification,
    channels: int,
) -> bool {
    &&& info.width > 0
    &&& info.height > 0
    &&& sizes_fit(info, channels)
    &&& sb.color@.len() == px_of(info) * (channels * 4)
    &&& (sb.alpha_pos is Some <==> info.has_alpha)
    &&& (sb.black_pos is Some <==> cls.black_index is Some)
    &&& (match sb.alpha_pos {
        Some(p) => p < sb.planes@.len(),
        None => true,
    })
    &&& (match sb.black_pos {
        Some(p) => p < sb.planes@.len(),
        None => true,
    })
    &&& (sb.alpha_pos is Some && sb.black_pos is Some ==> sb.alpha_pos != sb.black_pos)
    &&& sb.planes@.len() == (if info.has_alpha {
        1int
    } else {
        0int
    }) + (if cls.black_index is Some {
        1int
    } else {
        0int
    })
    &&& forall|i: int|
        0 <= i < sb.planes@.len() ==> (#[trigger] sb.planes@[i])@.len() == px_of(info) * 4
}

/// What normalization yields for one frame's buffers: every raw sample is
/// clamped to [0, 255] and truncated, then the frame is normalized.
pub open spec fn normalized_of(sb: SampleBuffers, icc: Seq<u8>, channels: nat, px: nat) -> Result<
    Seq<u32>,
    DecoderError,
> {
    normalize_spec(
        u8_samples_of(sb.color@),
        match sb.alpha_plane() {
            Some(a) => Some(u8_samples_of(a)),
            None => None,
        },
        match sb.black_plane() {
            Some(b) => Some(u8_samples_of(b)),
            None => None,
        },
        icc,
        channels,
        px,
    )
}

/// The at-most-one-unclaimed-frame invariant: whenever a frame is ready for
/// extraction its packed pixels are cached. Readiness arises only from a
/// completed normalization, is cleared by a successful extraction, and at
/// most one packed buffer exists per instance at a time. Every operation of
/// the decoder preserves this.
pub open spec fn unclaimed_frame_consistent(d: JxlRustDecoder) -> bool {
    d.frame_ready ==> d.decoded_pixels is Some
}

/// How far a stage still is from the pixel stage; the driver loop's
/// progress measure.
pub open spec fn stage_rank(s: DecoderStage) -> int {
    match s {
        DecoderStage::Uninitialized => 4,
        DecoderStage::Initialized => 3,
        DecoderStage::HasImageInfo => 2,
        DecoderStage::HasFrameInfo => 1,
        DecoderStage::Failed(_) => 0,
    }
}

/// A decoder instance: one input stream, one image, processed frame by
/// frame.
pub struct JxlRustDecoder {
    pub stage: DecoderStage,
    pub engine: EngineSlot,
    /// Bytes fed but not yet consumed by the engine.
    pub pending: Vec<u8>,
    pub metadata_only: bool,
    pub cached_info: Option<CachedImageInfo>,
    /// Stored color channels per pixel, as reported by the engine.
    pub original_color_channels: usize,
    pub classification: Option<ChannelClassification>,
    /// The source's color profile bytes, cached verbatim.
    pub icc_profile: Option<Vec<u8>>,
    pub frame_buffers: Option<SampleBuffers>,
    pub decoded_pixels: Option<Vec<u32>>,
    pub frame_ready: bool,
}

impl JxlRustDecoder {
    /// Creates a fresh instance. With `metadata_only`, processing stops
    /// with success as soon as the image info is known, without allocating
    /// frame buffers.
    pub fn new(metadata_only: bool) -> (r: JxlRustDecoder)
        ensures
            r.stage == DecoderStage::Uninitialized,
            r.engine is Vacant,
            r.pending@ =~= Seq::<u8>::empty(),
            r.metadata_only == metadata_only,
            r.cached_info is None,
            r.original_color_channels == 3,
            r.classification is None,
            r.icc_profile is None,
            r.frame_buffers is None,
            r.decoded_pixels is None,
            !r.frame_ready,
            unclaimed_frame_consistent(r),
    {
        JxlRustDecoder {
            stage: DecoderStage::Uninitialized,
            engine: EngineSlot::Vacant,
            pending: Vec::new(),
            metadata_only,
            cached_info: None,
            original_color_channels: 3,
            classification: None,
            icc_profile: None,
            frame_buffers: None,
            decoded_pixels: None,
            frame_ready: false,
        }
    }

    /// Whether a completed frame's packed pixels await extraction.
    pub fn is_frame_ready(&self) -> (r: bool)
        ensures
            r == self.frame_ready,
    {
        self.frame_ready
    }

    /// The cached image dimensions, once the image-info stage has
    /// completed.
    pub fn current_image_info(&self) -> (r: Option<JxlRustImageInfo>)
        ensures
            r == (match self.cached_info {
                Some(ci) => Some(JxlRustImageInfo { width: ci.width, height: ci.height }),
                None => None::<JxlRustImageInfo>,
            }),
    {
        match &self.cached_info {
            Some(ci) => Some(JxlRustImageInfo { width: ci.width, height: ci.height }),
            None => None,
        }
    }

    /// The engine completed the image-info stage and reported `meta`: the
    /// image info is cached (it can be cached only once), the extra
    /// channels are classified, and the profile bytes are kept verbatim.
    /// Returns whether processing is done because only metadata was asked
    /// for. In any stage but initialized the report is a protocol violation
    /// and the instance fails closed; once failed, the same error is
    /// reported forever.
    pub fn image_info_complete(&mut self, meta: ImageMetadata) -> (r: Result<bool, DecoderError>)
        ensures
            unclaimed_frame_consistent(*old(self)) ==> unclaimed_frame_consistent(*final(self)),
            old(self).cached_info is Some ==> final(self).cached_info == old(self).cached_info,
            old(self).cached_info is Some ==> final(self).icc_profile == old(self).icc_profile
                && final(self).classification == old(self).classification
                && final(self).original_color_channels == old(self).original_color_channels,
            final(self).metadata_only == old(self).metadata_only,
            final(self).frame_ready == old(self).frame_ready,
            final(self).decoded_pixels == old(self).decoded_pixels,
            final(self).pending == old(self).pending,
            final(self).engine == old(self).engine,
            final(self).frame_buffers == old(self).frame_buffers,
            match old(self).stage {
                DecoderStage::Failed(e) => r == Err::<bool, DecoderError>(e) && *final(self)
                    == *old(self),
                DecoderStage::Initialized => if old(self).cached_info is None {
                    &&& final(self).stage == DecoderStage::HasImageInfo
                    &&& final(self).cached_info == Some(cached_info_of(meta))
                    &&& final(self).original_color_channels == meta.color_channels
                    &&& final(self).icc_profile == Some(meta.icc_profile)
                    &&& final(self).classification is Some
                    &&& is_first_of_kind(
                        meta.extra_channels@,
                        ChannelKind::Alpha,
                        final(self).classification.unwrap().alpha_index,
                    )
                    &&& is_first_of_kind(
                        meta.extra_channels@,
                        ChannelKind::Black,
                        final(self).classification.unwrap().black_index,
                    )
                    &&& r == Ok::<bool, DecoderError>(old(self).metadata_only)
                } else {
                    &&& r == Err::<bool, DecoderError>(DecoderError::EngineError)
                    &&& final(self).stage == DecoderStage::Failed(DecoderError::EngineError)
                },
                _ => {
                    &&& r == Err::<bool, DecoderError>(DecoderError::EngineError)
                    &&& final(self).stage == DecoderStage::Failed(DecoderError::EngineError)
                },
            },
    {
        match self.stage {
            DecoderStage::Failed(e) => {
                return Err(e);
            },
            DecoderStage::Initialized => {},
            _ => {
                self.stage = DecoderStage::Failed(DecoderError::EngineError);
                return Err(DecoderError::EngineError);
            },
        }
        if self.cached_info.is_some() {
            self.stage = DecoderStage::Failed(DecoderError::EngineError);
            return Err(DecoderError::EngineError);
        }
        let cls = classify_channels(&meta.extra_channels);
        self.cached_info = Some(
            CachedImageInfo {
                width: meta.width,
                height: meta.height,
                has_alpha: meta.has_alpha,
                orientation_transpose: meta.orientation_transpose,
                is_grayscale: meta.is_grayscale,
            },
        );
        self.original_color_channels = meta.color_channels;
        self.classification = Some(cls);
        self.icc_profile = Some(meta.icc_profile);
        self.stage = DecoderStage::HasImageInfo;
        Ok(self.metadata_only)
    }

    /// The engine completed the frame-info stage: the sample buffers are
    /// sized from the cached image info and classification (width and
    /// height swapped when the orientation transposes the layout) and
    /// allocated zero-initialized. An image info that promises alpha
    /// without a classified alpha channel is a fatal inconsistency. In any
    /// stage but has-image-info the report is a protocol violation and the
    /// instance fails closed.
    pub fn frame_info_complete(&mut self) -> (r: Result<(), DecoderError>)
        ensures
            unclaimed_frame_consistent(*old(self)) ==> unclaimed_frame_consistent(*final(self)),
            final(self).cached_info == old(self).cached_info,
            final(self).metadata_only == old(self).metadata_only,
            final(self).frame_ready == old(self).frame_ready,
            final(self).decoded_pixels == old(self).decoded_pixels,
            final(self).pending == old(self).pending,
            final(self).engine == old(self).engine,
            final(self).classification == old(self).classification,
            final(self).icc_profile == old(self).icc_profile,
            final(self).original_color_channels == old(self).original_color_channels,
            match old(self).stage {
                DecoderStage::Failed(e) => r == Err::<(), DecoderError>(e) && *final(self) == *old(
                    self,
                ),
                DecoderStage::HasImageInfo => match (old(self).cached_info, old(
                    self,
                ).classification) {
                    (Some(info), Some(cls)) => if info.has_alpha && cls.alpha_index is None {
                        &&& r == Err::<(), DecoderError>(DecoderError::AlphaChannelInconsistency)
                        &&& final(self).stage == DecoderStage::Failed(
                            DecoderError::AlphaChannelInconsistency,
                        )
                        &&& final(self).frame_buffers == old(self).frame_buffers
                    } else if info.width == 0 || info.height == 0 || !sizes_fit(
                        info,
                        old(self).original_color_channels as int,
                    ) {
                        &&& r == Err::<(), DecoderError>(DecoderError::EngineError)
                        &&& final(self).stage == DecoderStage::Failed(DecoderError::EngineError)
                        &&& final(self).frame_buffers == old(self).frame_buffers
                    } else {
                        &&& r == Ok::<(), DecoderError>(())
                        &&& final(self).stage == DecoderStage::HasFrameInfo
                        &&& final(self).frame_buffers is Some
                        &&& buffers_consistent(
                            final(self).frame_buffers.unwrap(),
                            info,
                            cls,
                            old(self).original_color_channels as int,
                        )
                        &&& forall|i: int|
                            0 <= i < final(self).frame_buffers.unwrap().color@.len()
                                ==> final(self).frame_buffers.unwrap().color@[i] == 0
                        &&& forall|i: int, j: int|
                            0 <= i < final(self).frame_buffers.unwrap().planes@.len() && 0 <= j
                                < final(self).frame_buffers.unwrap().planes@[i]@.len()
                                ==> #[trigger] final(self).frame_buffers.unwrap().planes@[i]@[j]
                                == 0
                    },
                    _ => {
                        &&& r == Err::<(), DecoderError>(DecoderError::MissingCachedInfo)
                        &&& final(self).stage == DecoderStage::Failed(
                            DecoderError::MissingCachedInfo,
                        )
                        &&& final(self).frame_buffers == old(self).frame_buffers
                    },
                },
                _ => {
                    &&& r == Err::<(), DecoderError>(DecoderError::EngineError)
                    &&& final(self).stage == DecoderStage::Failed(DecoderError::EngineError)
                    &&& final(self).frame_buffers == old(self).frame_buffers
                },
            },
    {
        match self.stage {
            DecoderStage::Failed(e) => {
                return Err(e);
            },
            DecoderStage::HasImageInfo => {},
            _ => {
                self.stage = DecoderStage::Failed(DecoderError::EngineError);
                return Err(DecoderError::EngineError);
            },
        }
        let info = match &self.cached_info {
            Some(i) => *i,
            None => {
                self.stage = DecoderStage::Failed(DecoderError::MissingCachedInfo);
                return Err(DecoderError::MissingCachedInfo);
            },
        };
        let cls = match &self.classification {
            Some(c) => *c,
            None => {
                self.stage = DecoderStage::Failed(DecoderError::MissingCachedInfo);
                return Err(DecoderError::MissingCachedInfo);
            },
        };
        if info.has_alpha && cls.alpha_index.is_none() {
            self.stage = DecoderStage::Failed(DecoderError::AlphaChannelInconsistency);
            return Err(DecoderError::AlphaChannelInconsistency);
        }
        if info.width == 0 || info.height == 0 {
            self.stage = DecoderStage::Failed(DecoderError::EngineError);
            return Err(DecoderError::EngineError);
        }
        let (lw, lh): (usize, usize) = if info.orientation_transpose {
            (info.height as usize, info.width as usize)
        } else {
            (info.width as usize, info.height as usize)
        };
        let px = match lw.checked_mul(lh) {
            Some(v) => v,
            None => {
                self.stage = DecoderStage::Failed(DecoderError::EngineError);
                return Err(DecoderError::EngineError);
            },
        };
        let plane_bytes = match px.checked_mul(4) {
            Some(v) => v,
            None => {
                self.stage = DecoderStage::Failed(DecoderError::EngineError);
                return Err(DecoderError::EngineError);
            },
        };
        let cpp = match self.original_color_channels.checked_mul(4) {
            Some(v) => v,
            None => {
                self.stage = DecoderStage::Failed(DecoderError::EngineError);
                return Err(DecoderError::EngineError);
            },
        };
        let color_bytes = match px.checked_mul(cpp) {
            Some(v) => v,
            None => {
                self.stage = DecoderStage::Failed(DecoderError::EngineError);
                return Err(DecoderError::EngineError);
            },
        };
        let color = vec![0u8; color_bytes];
        let (alpha_pos, black_pos): (Option<usize>, Option<usize>) = if info.has_alpha {
            match (cls.alpha_index, cls.black_index) {
                (Some(ai), Some(bi)) => if ai < bi {
                    (Some(0), Some(1))
                } else {
                    (Some(1), Some(0))
                },
                (Some(_), None) => (Some(0), None),
                (None, _) => {
                    proof {
                        assert(false);
                    }
                    (None, None)
                },
            }
        } else {
            match cls.black_index {
                Some(_) => (None, Some(0)),
                None => (None, None),
            }
        };
        let mut planes: Vec<Vec<u8>> = Vec::new();
        let n_planes: usize = if info.has_alpha {
            1
        } else {
            0
        } + if black_pos.is_some() {
            1
        } else {
            0
        };
        if n_planes >= 1 {
            planes.push(vec![0u8; plane_bytes]);
        }
        if n_planes == 2 {
            planes.push(vec![0u8; plane_bytes]);
        }
        self.frame_buffers = Some(SampleBuffers { color, planes, alpha_pos, black_pos });
        self.stage = DecoderStage::HasFrameInfo;
        Ok(())
    }

    /// The engine completed the pixel stage for the current frame: the
    /// filled sample buffers are handed to the color-normalization
    /// pipeline, the packed pixels are cached until extracted, the buffers
    /// are released, and the instance returns to has-image-info for the
    /// next frame. Completing a frame while a previous packed buffer is
    /// still unclaimed violates the protocol, as does a buffer set that no
    /// longer agrees with the cached info; either fails closed. A
    /// normalization failure fails the instance with that error.
    pub fn frame_complete(&mut self) -> (r: Result<bool, DecoderError>)
        ensures
            unclaimed_frame_consistent(*old(self)) ==> unclaimed_frame_consistent(*final(self)),
            final(self).cached_info == old(self).cached_info,
            final(self).metadata_only == old(self).metadata_only,
            final(self).pending == old(self).pending,
            final(self).engine == old(self).engine,
            final(self).classification == old(self).classification,
            final(self).icc_profile == old(self).icc_profile,
            final(self).original_color_channels == old(self).original_color_channels,
            match old(self).stage {
                DecoderStage::Failed(e) => r == Err::<bool, DecoderError>(e) && *final(self)
                    == *old(self),
                DecoderStage::HasFrameInfo => if old(self).frame_ready || old(
                    self,
                ).decoded_pixels is Some {
                    &&& r == Err::<bool, DecoderError>(DecoderError::MissingCachedInfo)
                    &&& final(self).stage == DecoderStage::Failed(DecoderError::MissingCachedInfo)
                } else {
                    match (old(self).cached_info, old(self).classification, old(self).icc_profile, old(self).frame_buffers) {
                        (Some(info), Some(cls), Some(icc), Some(sb)) => if !buffers_consistent(
                            sb,
                            info,
                            cls,
                            old(self).original_color_channels as int,
                        ) {
                            &&& r == Err::<bool, DecoderError>(DecoderError::EngineError)
                            &&& final(self).stage == DecoderStage::Failed(DecoderError::EngineError)
                        } else {
                            match normalized_of(
                                sb,
                                icc@,
                                old(self).original_color_channels as nat,
                                px_of(info) as nat,
                            ) {
                                Err(e) => {
                                    &&& r == Err::<bool, DecoderError>(e)
                                    &&& final(self).stage == DecoderStage::Failed(e)
                                    &&& final(self).frame_buffers is None
                                    &&& final(self).frame_ready == old(self).frame_ready
                                    &&& final(self).decoded_pixels == old(self).decoded_pixels
                                },
                                Ok(v) => {
                                    &&& r == Ok::<bool, DecoderError>(true)
                                    &&& final(self).stage == DecoderStage::HasImageInfo
                                    &&& final(self).frame_ready
                                    &&& final(self).decoded_pixels is Some
                                    &&& final(self).decoded_pixels.unwrap()@ == v
                                    &&& final(self).frame_buffers is None
                                },
                            }
                        },
                        _ => {
                            &&& r == Err::<bool, DecoderError>(DecoderError::MissingCachedInfo)
                            &&& final(self).stage == DecoderStage::Failed(
                                DecoderError::MissingCachedInfo,
                            )
                        },
                    }
                },
                _ => {
                    &&& r == Err::<bool, DecoderError>(DecoderError::EngineError)
                    &&& final(self).stage == DecoderStage::Failed(DecoderError::EngineError)
                    &&& final(self).frame_ready == old(self).frame_ready
                    &&& final(self).decoded_pixels == old(self).decoded_pixels
                    &&& final(self).frame_buffers == old(self).frame_buffers
                },
            },
    {
        match self.stage {
            DecoderStage::Failed(e) => {
                return Err(e);
            },
            DecoderStage::HasFrameInfo => {},
            _ => {
                self.stage = DecoderStage::Failed(DecoderError::EngineError);
                return Err(DecoderError::EngineError);
            },
        }
        if self.frame_ready || self.decoded_pixels.is_some() {
            self.stage = DecoderStage::Failed(DecoderError::MissingCachedInfo);
            return Err(DecoderError::MissingCachedInfo);
        }
        let info = match &self.cached_info {
            Some(i) => *i,
            None => {
                self.stage = DecoderStage::Failed(DecoderError::MissingCachedInfo);
                return Err(DecoderError::MissingCachedInfo);
            },
        };
        let cls = match &self.classification {
            Some(c) => *c,
            None => {
                self.stage = DecoderStage::Failed(DecoderError::MissingCachedInfo);
                return Err(DecoderError::MissingCachedInfo);
            },
        };
        if self.icc_profile.is_none() {
            self.stage = DecoderStage::Failed(DecoderError::MissingCachedInfo);
            return Err(DecoderError::MissingCachedInfo);
        }
        let sb = match self.frame_buffers.take() {
            Some(s) => s,
            None => {
                self.stage = DecoderStage::Failed(DecoderError::MissingCachedInfo);
                return Err(DecoderError::MissingCachedInfo);
            },
        };
        // Re-validate the buffer set against the cached info: a mismatch in
        // what was supplied to the engine is fatal.
        if info.width == 0 || info.height == 0 {
            self.stage = DecoderStage::Failed(DecoderError::EngineError);
            return Err(DecoderError::EngineError);
        }
        let (lw, lh): (usize, usize) = if info.orientation_transpose {
            (info.height as usize, info.width as usize)
        } else {
            (info.width as usize, info.height as usize)
        };
        let channels = self.original_color_channels;
        let (px, plane_bytes, color_bytes) = match (
            lw.checked_mul(lh),
            self.original_color_channels.checked_mul(4),
        ) {
            (Some(px), Some(cpp)) => match (px.checked_mul(4), px.checked_mul(cpp)) {
                (Some(pb), Some(cb)) => (px, pb, cb),
                _ => {
                    self.stage = DecoderStage::Failed(DecoderError::EngineError);
                    return Err(DecoderError::EngineError);
                },
            },
            _ => {
                self.stage = DecoderStage::Failed(DecoderError::EngineError);
                return Err(DecoderError::EngineError);
            },
        };
        if sb.color.len() != color_bytes {
            self.stage = DecoderStage::Failed(DecoderError::EngineError);
            return Err(DecoderError::EngineError);
        }
        let a_ok = match sb.alpha_pos {
            Some(p) => info.has_alpha && p < sb.planes.len(),
            None => !info.has_alpha,
        };
        let b_ok = match sb.black_pos {
            Some(p) => cls.black_index.is_some() && p < sb.planes.len(),
            None => cls.black_index.is_none(),
        };
        let distinct = match (sb.alpha_pos, sb.black_pos) {
            (Some(a), Some(b)) => a != b,
            _ => true,
        };
        let n_expected: usize = if info.has_alpha {
            1
        } else {
            0
        } + if cls.black_index.is_some() {
            1
        } else {
            0
        };
        if !(a_ok && b_ok && distinct) || sb.planes.len() != n_expected {
            self.stage = DecoderStage::Failed(DecoderError::EngineError);
            return Err(DecoderError::EngineError);
        }
        let mut k: usize = 0;
        let n_planes = sb.planes.len();
        let mut planes_ok = true;
        while k < n_planes
            invariant
                k <= n_planes,
                n_planes == sb.planes@.len(),
                planes_ok <==> (forall|i: int|
                    0 <= i < k ==> (#[trigger] sb.planes@[i])@.len() == plane_bytes),
            decreases n_planes - k,
        {
            if sb.planes[k].len() != plane_bytes {
                planes_ok = false;
            }
            k += 1;
        }
        if !planes_ok {
            self.stage = DecoderStage::Failed(DecoderError::EngineError);
            return Err(DecoderError::EngineError);
        }
        proof {
            assert((px as int) * ((channels as int) * 4) == 4 * ((channels as int) * (px as int)))
                by (nonlinear_arith);
        }
        let alpha_ref: Option<&Vec<u8>> = match sb.alpha_pos {
            Some(p) => Some(&sb.planes[p]),
            None => None,
        };
        let black_ref: Option<&Vec<u8>> = match sb.black_pos {
            Some(p) => Some(&sb.planes[p]),
            None => None,
        };
        let icc = match &self.icc_profile {
            Some(v) => v,
            None => {
                proof {
                    assert(false);
                }
                return Err(DecoderError::MissingCachedInfo);
            },
        };
        let result = normalize_frame(&sb.color, alpha_ref, black_ref, icc, channels, px);
        match result {
            Err(e) => {
                self.stage = DecoderStage::Failed(e);
                Err(e)
            },
            Ok(pixels) => {
                self.decoded_pixels = Some(pixels);
                self.frame_ready = true;
                self.stage = DecoderStage::HasImageInfo;
                Ok(true)
            },
        }
    }

    /// Feeds newly arrived bytes and advances as far as they allow: the
    /// stream's signature is decided first, then the engine is driven
    /// across the image-info, frame-info and pixel stages, looping
    /// internally while forward progress is possible. Returns
    /// `Ok((true, 0))` when a frame's packed pixels became available (or,
    /// for a metadata-only instance, when the image info is known),
    /// `Ok((false, hint))` with a positive advisory size hint when more
    /// bytes are needed, and an error — thereafter repeated forever — when
    /// the stream or the engine failed. Fed bytes are consumed exactly
    /// once; unconsumed bytes are kept for the next call.
    pub fn process_data(&mut self, data: &[u8]) -> (r: Result<(bool, usize), DecoderError>)
        ensures
            unclaimed_frame_consistent(*old(self)) ==> unclaimed_frame_consistent(*final(self)),
            final(self).metadata_only == old(self).metadata_only,
            old(self).cached_info is Some ==> final(self).cached_info == old(self).cached_info,
            old(self).cached_info is Some ==> final(self).icc_profile == old(self).icc_profile
                && final(self).classification == old(self).classification
                && final(self).original_color_channels == old(self).original_color_channels,
            old(self).pending@.len() == 0 && data@.len() == 0 && !(old(self).stage is Failed)
                ==> final(self).stage == old(self).stage && (r == Ok::<
                (bool, usize),
                DecoderError,
            >((true, 0)) || (r matches Ok((false, h)) && h > 0)),
            match old(self).stage {
                DecoderStage::Failed(e) => r == Err::<(bool, usize), DecoderError>(e)
                    && *final(self) == *old(self),
                _ => true,
            },
            (r matches Ok((false, h)) ==> h > 0),
            (r matches Ok((true, _)) ==> (final(self).frame_ready
                && final(self).decoded_pixels is Some) || final(self).metadata_only),
            match r {
                Err(e) => final(self).stage == DecoderStage::Failed(e),
                _ => true,
            },
            old(self).stage is HasImageInfo && old(self).metadata_only ==> r == Ok::<
                (bool, usize),
                DecoderError,
            >((true, 0)),
            old(self).stage is Uninitialized ==> match signature_status(
                old(self).pending@ + data@,
            ) {
                SignatureCheck::NeedMore(h) => r == Ok::<(bool, usize), DecoderError>((false, h))
                    && final(self).stage is Uninitialized && final(self).pending@ == old(
                    self,
                ).pending@ + data@,
                SignatureCheck::Invalid => r == Err::<(bool, usize), DecoderError>(
                    DecoderError::InvalidSignature,
                ) && final(self).stage == DecoderStage::Failed(DecoderError::InvalidSignature),
                SignatureCheck::Valid => true,
            },
    {
        if let DecoderStage::Failed(e) = self.stage {
            return Err(e);
        }
        let dn = data.len();
        let mut di: usize = 0;
        while di < dn
            invariant
                di <= dn,
                dn == data@.len(),
                self.pending@ == old(self).pending@ + data@.take(di as int),
                self.stage == old(self).stage,
                self.engine == old(self).engine,
                self.metadata_only == old(self).metadata_only,
                self.cached_info == old(self).cached_info,
                self.classification == old(self).classification,
                self.icc_profile == old(self).icc_profile,
                self.original_color_channels == old(self).original_color_channels,
                self.frame_buffers == old(self).frame_buffers,
                self.decoded_pixels == old(self).decoded_pixels,
                self.frame_ready == old(self).frame_ready,
            decreases dn - di,
        {
            self.pending.push(data[di]);
            proof {
                assert(old(self).pending@ + data@.take(di as int + 1) =~= (old(self).pending@
                    + data@.take(di as int)).push(data@[di as int]));
            }
            di += 1;
        }
        proof {
            assert(data@.take(dn as int) =~= data@);
        }
        if let DecoderStage::Uninitialized = self.stage {
            match check_signature(&self.pending) {
                SignatureCheck::NeedMore(h) => {
                    proof {
                        lemma_need_more_is_positive(self.pending@);
                    }
                    return Ok((false, h));
                },
                SignatureCheck::Invalid => {
                    self.stage = DecoderStage::Failed(DecoderError::InvalidSignature);
                    return Err(DecoderError::InvalidSignature);
                },
                SignatureCheck::Valid => {
                    self.engine = EngineSlot::Init(engine_new());
                    self.stage = DecoderStage::Initialized;
                },
            }
        }
        if self.metadata_only {
            if let DecoderStage::HasImageInfo = self.stage {
                return Ok((true, 0));
            }
        }
        if self.pending.len() == 0 {
            // Nothing buffered and nothing new: starved. The engine said it
            // needed more input when it last ran, so report that again
            // without re-polling it.
            return Ok((false, 1));
        }
        let mut used: usize = 0;
        let mut outcome: Result<(bool, usize), DecoderError> = Ok((false, 1));
        loop
            invariant_except_break
                used <= self.pending@.len(),
                self.metadata_only == old(self).metadata_only,
                old(self).cached_info is Some ==> self.cached_info == old(self).cached_info,
                old(self).cached_info is Some ==> self.icc_profile == old(self).icc_profile
                    && self.classification == old(self).classification
                    && self.original_color_channels == old(self).original_color_channels,
                unclaimed_frame_consistent(*old(self)) ==> unclaimed_frame_consistent(*self),
                !(self.stage is Failed),
                !(self.stage is Uninitialized),
                old(self).stage is HasImageInfo && old(self).metadata_only
                    ==> self.stage is HasImageInfo,
            ensures
                self.metadata_only == old(self).metadata_only,
                old(self).cached_info is Some ==> self.cached_info == old(self).cached_info,
                old(self).cached_info is Some ==> self.icc_profile == old(self).icc_profile
                    && self.classification == old(self).classification
                    && self.original_color_channels == old(self).original_color_channels,
                unclaimed_frame_consistent(*old(self)) ==> unclaimed_frame_consistent(*self),
                used <= self.pending@.len(),
                match outcome {
                    Ok((done, h)) => (!done ==> h > 0) && (done ==> (self.frame_ready
                        && self.decoded_pixels is Some) || self.metadata_only),
                    Err(e) => self.stage == DecoderStage::Failed(e),
                },
                old(self).stage is HasImageInfo && old(self).metadata_only ==> outcome == Ok::<
                    (bool, usize),
                    DecoderError,
                >((true, 0)),
            decreases self.pending@.len() - used, stage_rank(self.stage),
        {
            match self.stage {
                DecoderStage::Initialized => {
                    let mut slot = EngineSlot::Vacant;
                    core::mem::swap(&mut slot, &mut self.engine);
                    let d = match slot {
                        EngineSlot::Init(d) => d,
                        _ => {
                            self.stage = DecoderStage::Failed(DecoderError::EngineError);
                            outcome = Err(DecoderError::EngineError);
                            break;
                        },
                    };
                    let (step, remaining) = engine_process_info(d, &self.pending, used);
                    let consumed = self.pending.len() - used - remaining;
                    match step {
                        InfoStep::Done(d2) => {
                            used = used + consumed;
                            let (w, h) = engine_dims(&d2);
                            if w > 0xffff_ffffusize || h > 0xffff_ffffusize {
                                self.stage = DecoderStage::Failed(DecoderError::EngineError);
                                outcome = Err(DecoderError::EngineError);
                                break;
                            }
                            let transpose = engine_transpose(&d2);
                            let grayscale = engine_is_grayscale(&d2);
                            let channels = engine_color_channels(&d2);
                            let count = engine_extra_channel_count(&d2);
                            let mut kinds: Vec<ChannelKind> = Vec::new();
                            let mut ci: usize = 0;
                            while ci < count
                                invariant
                                    ci <= count,
                                decreases count - ci,
                            {
                                kinds.push(engine_extra_channel_kind(&d2, ci));
                                ci += 1;
                            }
                            let cls = classify_channels(&kinds);
                            let has_alpha = cls.alpha_index.is_some();
                            let mut keep: Vec<bool> = Vec::new();
                            let mut ki: usize = 0;
                            while ki < count
                                invariant
                                    ki <= count,
                                decreases count - ki,
                            {
                                let ka = match cls.alpha_index {
                                    Some(a) => a == ki,
                                    None => false,
                                };
                                let kb = match cls.black_index {
                                    Some(b) => b == ki,
                                    None => false,
                                };
                                keep.push(ka || kb);
                                ki += 1;
                            }
                            let icc = match engine_icc(&d2) {
                                Some(v) => v,
                                None => {
                                    self.stage = DecoderStage::Failed(DecoderError::EngineError);
                                    outcome = Err(DecoderError::EngineError);
                                    break;
                                },
                            };
                            let mut d2m = d2;
                            if !engine_set_extra_channel_planes(&mut d2m, &keep) {
                                self.stage = DecoderStage::Failed(DecoderError::EngineError);
                                outcome = Err(DecoderError::EngineError);
                                break;
                            }
                            self.engine = EngineSlot::Info(d2m);
                            let meta = ImageMetadata {
                                width: w as u32,
                                height: h as u32,
                                has_alpha,
                                orientation_transpose: transpose,
                                is_grayscale: grayscale,
                                color_channels: channels,
                                extra_channels: kinds,
                                icc_profile: icc,
                            };
                            match self.image_info_complete(meta) {
                                Ok(done) => {
                                    if done {
                                        outcome = Ok((true, 0));
                                        break;
                                    }
                                },
                                Err(e) => {
                                    outcome = Err(e);
                                    break;
                                },
                            }
                        },
                        InfoStep::More(d2, hint) => {
                            self.engine = EngineSlot::Init(d2);
                            if consumed == 0 {
                                let hh = if hint == 0 {
                                    1
                                } else {
                                    hint
                                };
                                outcome = Ok((false, hh));
                                break;
                            }
                            used = used + consumed;
                        },
                        InfoStep::Rejected => {
                            self.stage = DecoderStage::Failed(DecoderError::EngineError);
                            outcome = Err(DecoderError::EngineError);
                            break;
                        },
                    }
                },
                DecoderStage::HasImageInfo => {
                    if self.metadata_only {
                        outcome = Ok((true, 0));
                        break;
                    }
                    let mut slot = EngineSlot::Vacant;
                    core::mem::swap(&mut slot, &mut self.engine);
                    let d = match slot {
                        EngineSlot::Info(d) => d,
                        _ => {
                            self.stage = DecoderStage::Failed(DecoderError::EngineError);
                            outcome = Err(DecoderError::EngineError);
                            break;
                        },
                    };
                    let (step, remaining) = engine_process_frame_info(d, &self.pending, used);
                    let consumed = self.pending.len() - used - remaining;
                    match step {
                        FrameInfoStep::Done(df) => {
                            self.engine = EngineSlot::Frame(df);
                            used = used + consumed;
                            match self.frame_info_complete() {
                                Ok(()) => {},
                                Err(e) => {
                                    outcome = Err(e);
                                    break;
                                },
                            }
                        },
                        FrameInfoStep::More(d2, hint) => {
                            self.engine = EngineSlot::Info(d2);
                            if consumed == 0 {
                                let hh = if hint == 0 {
                                    1
                                } else {
                                    hint
                                };
                                outcome = Ok((false, hh));
                                break;
                            }
                            used = used + consumed;
                        },
                        FrameInfoStep::Rejected => {
                            self.stage = DecoderStage::Failed(DecoderError::EngineError);
                            outcome = Err(DecoderError::EngineError);
                            break;
                        },
                    }
                },
                DecoderStage::HasFrameInfo => {
                    let mut slot = EngineSlot::Vacant;
                    core::mem::swap(&mut slot, &mut self.engine);
                    let d = match slot {
                        EngineSlot::Frame(d) => d,
                        _ => {
                            self.stage = DecoderStage::Failed(DecoderError::EngineError);
                            outcome = Err(DecoderError::EngineError);
                            break;
                        },
                    };
                    let mut sb = match self.frame_buffers.take() {
                        Some(s) => s,
                        None => {
                            self.stage = DecoderStage::Failed(DecoderError::MissingCachedInfo);
                            outcome = Err(DecoderError::MissingCachedInfo);
                            break;
                        },
                    };
                    let info = match &self.cached_info {
                        Some(i) => *i,
                        None => {
                            self.stage = DecoderStage::Failed(DecoderError::MissingCachedInfo);
                            outcome = Err(DecoderError::MissingCachedInfo);
                            break;
                        },
                    };
                    if info.width == 0 || info.height == 0 {
                        self.stage = DecoderStage::Failed(DecoderError::EngineError);
                        outcome = Err(DecoderError::EngineError);
                        break;
                    }
                    let (lw, lh): (usize, usize) = if info.orientation_transpose {
                        (info.height as usize, info.width as usize)
                    } else {
                        (info.width as usize, info.height as usize)
                    };
                    let sizes = match (lw.checked_mul(lh), self.original_color_channels.checked_mul(
                        4,
                    ), lw.checked_mul(4)) {
                        (Some(px), Some(cpp), Some(ebpr)) => match (
                            px.checked_mul(4),
                            px.checked_mul(cpp),
                            lw.checked_mul(cpp),
                        ) {
                            (Some(pb), Some(cb), Some(cbpr)) => Some((px, cpp, ebpr, pb, cb, cbpr)),
                            _ => None,
                        },
                        _ => None,
                    };
                    let (px, cpp, ebpr, plane_bytes, color_bytes, cbpr) = match sizes {
                        Some(t) => t,
                        None => {
                            self.stage = DecoderStage::Failed(DecoderError::EngineError);
                            outcome = Err(DecoderError::EngineError);
                            break;
                        },
                    };
                    if sb.color.len() != color_bytes {
                        self.stage = DecoderStage::Failed(DecoderError::EngineError);
                        outcome = Err(DecoderError::EngineError);
                        break;
                    }
                    let mut k: usize = 0;
                    let n_planes = sb.planes.len();
                    let mut planes_ok = true;
                    while k < n_planes
                        invariant
                            k <= n_planes,
                            n_planes == sb.planes@.len(),
                            planes_ok <==> (forall|i: int|
                                0 <= i < k ==> (#[trigger] sb.planes@[i])@.len() == plane_bytes),
                        decreases n_planes - k,
                    {
                        if sb.planes[k].len() != plane_bytes {
                            planes_ok = false;
                        }
                        k += 1;
                    }
                    if !planes_ok {
                        self.stage = DecoderStage::Failed(DecoderError::EngineError);
                        outcome = Err(DecoderError::EngineError);
                        break;
                    }
                    proof {
                        assert((lw as int) * (lh as int) * (cpp as int) == (lh as int) * ((lw as int)
                            * (cpp as int))) by (nonlinear_arith);
                        assert((lw as int) * (lh as int) * 4 == (lh as int) * ((lw as int) * 4))
                            by (nonlinear_arith);
                    }
                    let (step, remaining) = engine_process_frame(
                        d,
                        &self.pending,
                        used,
                        &mut sb.color,
                        &mut sb.planes,
                        lh,
                        cbpr,
                        ebpr,
                    );
                    let consumed = self.pending.len() - used - remaining;
                    match step {
                        FrameStep::Done(d2) => {
                            self.engine = EngineSlot::Info(d2);
                            used = used + consumed;
                            self.frame_buffers = Some(sb);
                            match self.frame_complete() {
                                Ok(_) => {
                                    outcome = Ok((true, 0));
                                    break;
                                },
                                Err(e) => {
                                    outcome = Err(e);
                                    break;
                                },
                            }
                        },
                        FrameStep::More(d2, hint) => {
                            self.engine = EngineSlot::Frame(d2);
                            self.frame_buffers = Some(sb);
                            if consumed == 0 {
                                let hh = if hint == 0 {
                                    1
                                } else {
                                    hint
                                };
                                outcome = Ok((false, hh));
                                break;
                            }
                            used = used + consumed;
                        },
                        FrameStep::Rejected => {
                            self.stage = DecoderStage::Failed(DecoderError::EngineError);
                            outcome = Err(DecoderError::EngineError);
                            break;
                        },
                    }
                },
                DecoderStage::Uninitialized | DecoderStage::Failed(_) => {
                    proof {
                        assert(false);
                    }
                    outcome = Err(DecoderError::EngineError);
                    break;
                },
            }
        }
        let tail = self.pending.split_off(used);
        self.pending = tail;
        outcome
    }

    /// Extracts the ready frame's packed pixels into the front of `output`
    /// and resets readiness for the next frame. A failed instance reports
    /// its failure. Without a ready frame nothing changes and the caller
    /// may retry; with an output buffer shorter than the pixel count
    /// nothing changes either — the frame stays ready — and the caller may
    /// retry with a larger buffer.
    pub fn decode_frame(&mut self, output: &mut Vec<u32>) -> (r: Result<usize, DecoderError>)
        ensures
            unclaimed_frame_consistent(*old(self)) ==> unclaimed_frame_consistent(*final(self)),
            final(self).cached_info == old(self).cached_info,
            final(self).stage == old(self).stage,
            final(self).pending == old(self).pending,
            final(self).engine == old(self).engine,
            final(self).icc_profile == old(self).icc_profile,
            final(self).classification == old(self).classification,
            final(self).original_color_channels == old(self).original_color_channels,
            final(self).metadata_only == old(self).metadata_only,
            final(self).frame_buffers == old(self).frame_buffers,
            old(self).stage matches DecoderStage::Failed(e) ==> r == Err::<usize, DecoderError>(e)
                && *final(self) == *old(self) && *final(output) == *old(output),
            !(old(self).stage is Failed) && !old(self).frame_ready ==> r == Err::<
                usize,
                DecoderError,
            >(DecoderError::FrameNotReady) && *final(self) == *old(self) && *final(output) == *old(
                output,
            ),
            !(old(self).stage is Failed) && old(self).frame_ready && old(
                self,
            ).decoded_pixels is None ==> r == Err::<usize, DecoderError>(
                DecoderError::MissingCachedInfo,
            ) && *final(self) == *old(self) && *final(output) == *old(output),
            !(old(self).stage is Failed) && old(self).frame_ready && old(
                self,
            ).decoded_pixels is Some ==> ({
                let pixels = old(self).decoded_pixels.unwrap();
                if old(output)@.len() < pixels@.len() {
                    &&& r == Err::<usize, DecoderError>(DecoderError::BufferTooSmall)
                    &&& *final(self) == *old(self)
                    &&& *final(output) == *old(output)
                } else {
                    &&& r == Ok::<usize, DecoderError>(pixels@.len() as usize)
                    &&& final(output)@ == pixels@ + old(output)@.skip(pixels@.len() as int)
                    &&& !final(self).frame_ready
                    &&& final(self).decoded_pixels is None
                    &&& final(self).frame_buffers == old(self).frame_buffers
                }
            }),
    {
        if let DecoderStage::Failed(e) = self.stage {
            return Err(e);
        }
        if !self.frame_ready {
            return Err(DecoderError::FrameNotReady);
        }
        let pixels = match self.decoded_pixels.take() {
            Some(p) => p,
            None => {
                return Err(DecoderError::MissingCachedInfo);
            },
        };
        let count = pixels.len();
        if output.len() < count {
            self.decoded_pixels = Some(pixels);
            return Err(DecoderError::BufferTooSmall);
        }
        let out_len = output.len();
        let mut merged: Vec<u32> = Vec::with_capacity(out_len);
        let mut i: usize = 0;
        while i < count
            invariant
                i <= count,
                count == pixels@.len(),
                merged@.len() == i,
                forall|j: int| 0 <= j < i ==> merged@[j] == pixels@[j],
            decreases count - i,
        {
            merged.push(pixels[i]);
            i += 1;
        }
        while i < out_len
            invariant
                count <= i <= out_len,
                out_len == output@.len(),
                count == pixels@.len(),
                merged@.len() == i,
                forall|j: int| 0 <= j < count ==> merged@[j] == pixels@[j],
                forall|j: int| count <= j < i ==> merged@[j] == output@[j],
            decreases out_len - i,
        {
            merged.push(output[i]);
            i += 1;
        }
        proof {
            assert(merged@ =~= pixels@ + output@.skip(pixels@.len() as int));
        }
        *output = merged;
        self.frame_ready = false;
        Ok(count)
    }
}

} // verus!
