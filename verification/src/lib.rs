//! Capture settings, encoder and decoder protocols, and render-target leasing.
//!
//! The library decides and the embedding adapter acts: an encoder or a decoder says which native
//! call comes next, the adapter makes it and hands the answer back. Native objects, devices and
//! product policy stay with the adapter.

pub mod decoder;
pub mod float_bits;
pub mod rate_control;
pub mod renderer;
pub mod rows;
pub mod settings;
pub mod status;
pub mod stream;
pub mod text;
pub mod vaapi;

pub use decoder::{DecodedFrame, DecoderError};
pub use renderer::{GlesGbmTarget, RendererError};
pub use settings::{LiveTunables, RustCaptureSettings};
pub use stream::{decode_h264_luma, H264StreamDecoder};
pub use vaapi::config::{H264Gop, HostPixelFormat, VaapiHostConfiguration};
pub use vaapi::drm::{DrmPrimeFrame, DrmPrimePlane};
pub use vaapi::encoder::VaapiHostEncoder;
pub use vaapi::error::{VaapiError, VaapiErrorKind};
pub use vaapi::protocol::EncodedPacket;
