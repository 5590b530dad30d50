//! Streaming JPEG XL decode adapter.
//!
//! The crate drives an external JPEG XL bitstream engine incrementally,
//! manages the sample buffers that hold decoded channel data, classifies
//! extra channels (alpha, black), and converts finished frames into a
//! single packed 32-bit-per-pixel image, applying a profile-driven color
//! transform when the source color space is CMYK.

pub mod channels;
pub mod decoder;
pub mod engine;
pub mod errors;
pub mod pixels;
pub mod qcms_link;
pub mod samples;
pub mod signature;
