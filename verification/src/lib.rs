//! VP8 / VP9 encoding and decoding with libvpx: the information on the codecs
//! offered, the checks of encoder settings and input images, the settings
//! handed to libvpx, and the order in which the encoder's and the decoder's
//! calls may be made.
//!
//! The library decides; the calls into libvpx itself are made by its caller,
//! which hands back what libvpx returned.
pub mod codec_info;
pub mod config;
pub mod controls;
pub mod decoder;
pub mod encoder;
pub mod error;
pub mod image;
pub mod params;

pub use codec_info::{
    supported_codecs, CodecInfo, DecodingInfo, EncodingInfo, EncodingProfiles, VideoCodecType,
    Vp9EncodingProfile,
};
pub use config::{
    ArnrConfig, CodecConfig, ContentType, EncodeOptions, EncoderConfig, EncodingDeadline,
    NonZeroUsize, RateControlMode, ReconfigureParams, Vp8Config, Vp9Config, Vp9Profile,
};
pub use controls::EncoderControl;
pub use decoder::{DecodedFrame, Decoder, DecoderCodec, DecoderConfig, ImageInfo};
pub use encoder::{
    EncodeRequest, EncodedFrame, Encoder, NextFrameStep, PacketKind, PlaneSizes,
};
pub use error::Error;
pub use image::{ImageData, ImageFormat};
pub use params::EncoderCfg;
