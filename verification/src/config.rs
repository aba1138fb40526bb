//! The settings that an encoder is made with, and the parameters that can be
//! changed while it runs.
use vstd::prelude::*;

use crate::image::ImageFormat;

verus! {

/// A count that is never zero (a number of frames or of threads).
#[derive(Debug, Clone, Copy, PartialEq, Eq)]
pub struct NonZeroUsize {
    value: usize,
}

impl NonZeroUsize {
    #[verifier::type_invariant]
    spec fn inv(self) -> bool {
        self.value > 0
    }

    /// The count.
    pub closed spec fn spec_get(self) -> usize {
        self.value
    }

    /// `Some(count)` for a positive `n`, `None` for zero.
    pub fn new(n: usize) -> (r: Option<Self>)
        ensures
            r is Some <==> n > 0,
            r matches Some(c) ==> c.spec_get() == n,
    {
        if n == 0 {
            None
        } else {
            Some(NonZeroUsize { value: n })
        }
    }

    /// The count, which is positive.
    pub fn get(&self) -> (n: usize)
        ensures
            n == self.spec_get(),
            n > 0,
    {
        proof {
            use_type_invariant(*self);
        }
        self.value
    }
}

/// How long libvpx may spend on each frame.
#[derive(Debug, Clone, Copy, PartialEq, Eq, Structural)]
pub enum EncodingDeadline {
    /// Best quality (slowest).
    Best,
    /// Good quality (a balance of quality and speed).
    Good,
    /// Real time (fastest).
    Realtime,
}

/// Rate control mode.
#[derive(Debug, Clone, Copy, PartialEq, Eq, Structural)]
pub enum RateControlMode {
    /// Variable bitrate.
    Vbr,
    /// Constant bitrate.
    Cbr,
    /// Constant quality.
    Cq,
}

/// VP9 profile.
#[derive(Debug, Clone, Copy, PartialEq, Eq, Default, Structural)]
pub enum Vp9Profile {
    /// Profile 0 (8-bit 4:2:0).
    #[default]
    Profile0,
    /// Profile 2 (10/12-bit 4:2:0).
    Profile2,
}

/// VP9-specific settings.
#[derive(Debug, Clone, Default)]
pub struct Vp9Config {
    /// Profile.
    pub profile: Vp9Profile,
    /// Adaptive quantization mode (0-3).
    pub aq_mode: Option<i32>,
    /// Denoiser setting (0-3).
    pub noise_sensitivity: Option<i32>,
    /// Number of tile columns (for parallel processing).
    pub tile_columns: Option<i32>,
    /// Number of tile rows (for parallel processing).
    pub tile_rows: Option<i32>,
    /// Row-based multi-threading.
    pub row_mt: bool,
    /// Frame-parallel decoding.
    pub frame_parallel_decoding: bool,
    /// Content type to tune for.
    pub tune_content: Option<ContentType>,
}

/// VP8-specific settings.
#[derive(Debug, Clone, Default)]
pub struct Vp8Config {
    /// Denoiser setting (0-3).
    pub noise_sensitivity: Option<i32>,
    /// Static threshold.
    pub static_threshold: Option<i32>,
    /// Number of token partitions.
    pub token_partitions: Option<i32>,
    /// Maximum intra-frame bitrate, in percent.
    pub max_intra_bitrate_pct: Option<i32>,
    /// ARNR filter settings.
    pub arnr_config: Option<ArnrConfig>,
}

/// Content type.
#[derive(Debug, Clone, Copy, PartialEq, Eq, Structural)]
pub enum ContentType {
    /// Ordinary video.
    Default,
    /// Screen capture.
    Screen,
}

/// Codec-specific settings of an encoder.
#[derive(Debug, Clone)]
pub enum CodecConfig {
    /// VP8 settings.
    Vp8(Vp8Config),
    /// VP9 settings.
    Vp9(Vp9Config),
}

/// ARNR (alternate reference noise reduction) filter settings.
#[derive(Debug, Clone)]
pub struct ArnrConfig {
    /// Maximum number of frames.
    pub max_frames: i32,
    /// Strength.
    pub strength: i32,
    /// Filter type.
    pub filter_type: i32,
}

/// Options of one `encode` call.
#[derive(Debug, Clone)]
pub struct EncodeOptions {
    /// Force a keyframe.
    pub force_keyframe: bool,
}

/// The settings an encoder is made with.
#[derive(Debug, Clone)]
pub struct EncoderConfig {
    /// Width of the images.
    pub width: usize,
    /// Height of the images.
    pub height: usize,
    /// Format of the input images.
    pub image_format: ImageFormat,
    /// Numerator of the frame rate.
    pub fps_numerator: usize,
    /// Denominator of the frame rate.
    pub fps_denominator: usize,
    /// Target bitrate, in bits per second.
    pub target_bitrate: usize,
    /// Quality parameter handed to libvpx.
    pub min_quantizer: usize,
    /// Quality parameter handed to libvpx.
    pub max_quantizer: usize,
    /// Quality parameter handed to libvpx.
    pub cq_level: usize,
    /// Encoding speed (VP8: 0-16, VP9: 0-9; higher is faster).
    pub cpu_used: Option<usize>,
    /// Encoding deadline.
    pub deadline: EncodingDeadline,
    /// Rate control mode.
    pub rate_control: RateControlMode,
    /// Number of frames to look ahead (`None` disables look-ahead: libvpx is
    /// told to look ahead 0 frames, whatever its default).
    pub lag_in_frames: Option<NonZeroUsize>,
    /// Number of threads (`None` leaves the choice to libvpx).
    pub threads: Option<NonZeroUsize>,
    /// Error resilient mode (for real-time use).
    pub error_resilient: bool,
    /// Keyframe interval, in frames.
    pub keyframe_interval: Option<NonZeroUsize>,
    /// Frame drop threshold (0-100, for real-time use).
    pub frame_drop_threshold: Option<usize>,
    /// Codec-specific settings.
    pub codec: CodecConfig,
}

/// `config` holds the given required settings and the documented defaults for
/// every other one.
pub open spec fn is_default_config(
    config: EncoderConfig,
    width: usize,
    height: usize,
    image_format: ImageFormat,
    codec: CodecConfig,
) -> bool {
    &&& config.width == width
    &&& config.height == height
    &&& config.image_format == image_format
    &&& config.fps_numerator == 30
    &&& config.fps_denominator == 1
    &&& config.target_bitrate == 2_000_000
    &&& config.min_quantizer == 0
    &&& config.max_quantizer == 63
    &&& config.cq_level == 10
    &&& config.cpu_used is None
    &&& config.deadline == EncodingDeadline::Good
    &&& config.rate_control == RateControlMode::Vbr
    &&& config.lag_in_frames is None
    &&& config.threads is None
    &&& !config.error_resilient
    &&& config.keyframe_interval is None
    &&& config.frame_drop_threshold is None
    &&& config.codec == codec
}

impl EncoderConfig {
    /// Makes encoder settings from the required parameters.
    ///
    /// The other settings start as: `fps_numerator` 30, `fps_denominator` 1,
    /// `target_bitrate` 2_000_000, `min_quantizer` 0, `max_quantizer` 63,
    /// `cq_level` 10, `cpu_used` None, `deadline` Good, `rate_control` Vbr,
    /// `lag_in_frames` None, `threads` None, `error_resilient` false,
    /// `keyframe_interval` None, `frame_drop_threshold` None.
    pub fn new(width: usize, height: usize, image_format: ImageFormat, codec: CodecConfig) -> (c:
        Self)
        ensures
            is_default_config(c, width, height, image_format, codec),
    {
        Self {
            width,
            height,
            image_format,
            fps_numerator: 30,
            fps_denominator: 1,
            target_bitrate: 2_000_000,
            min_quantizer: 0,
            max_quantizer: 63,
            cq_level: 10,
            cpu_used: None,
            deadline: EncodingDeadline::Good,
            rate_control: RateControlMode::Vbr,
            lag_in_frames: None,
            threads: None,
            error_resilient: false,
            keyframe_interval: None,
            frame_drop_threshold: None,
            codec,
        }
    }
}

/// The parameters that can be changed while an encoder runs.
///
/// Only these fields can change; a `None` field keeps its current value.
/// `fps_numerator` and `fps_denominator` are given together or not at all.
#[derive(Debug, Clone, Default)]
#[non_exhaustive]
pub struct ReconfigureParams {
    /// Target bitrate, in bits per second: from 1000 to 1_000_000_000.
    pub target_bitrate: Option<usize>,
    /// Numerator of the frame rate.
    pub fps_numerator: Option<usize>,
    /// Denominator of the frame rate.
    pub fps_denominator: Option<usize>,
    /// Minimum quantizer.
    pub min_quantizer: Option<usize>,
    /// Maximum quantizer.
    pub max_quantizer: Option<usize>,
    /// Maximum keyframe distance, in frames.
    pub keyframe_interval: Option<NonZeroUsize>,
}

/// Every field of `params` is `None`: the parameters change nothing.
pub open spec fn params_empty(params: ReconfigureParams) -> bool {
    &&& params.target_bitrate is None
    &&& params.fps_numerator is None
    &&& params.fps_denominator is None
    &&& params.min_quantizer is None
    &&& params.max_quantizer is None
    &&& params.keyframe_interval is None
}

/// The parameters that an encoder's settings hold: every one of them given.
pub open spec fn params_of_config(config: EncoderConfig) -> ReconfigureParams {
    ReconfigureParams {
        target_bitrate: Some(config.target_bitrate),
        fps_numerator: Some(config.fps_numerator),
        fps_denominator: Some(config.fps_denominator),
        min_quantizer: Some(config.min_quantizer),
        max_quantizer: Some(config.max_quantizer),
        keyframe_interval: config.keyframe_interval,
    }
}

impl ReconfigureParams {
    /// The parameters that `config` holds, so that the checks of a change and
    /// those of a new encoder are the same.
    pub fn from_encoder_config(config: &EncoderConfig) -> (p: Self)
        ensures
            p == params_of_config(*config),
    {
        Self {
            target_bitrate: Some(config.target_bitrate),
            fps_numerator: Some(config.fps_numerator),
            fps_denominator: Some(config.fps_denominator),
            min_quantizer: Some(config.min_quantizer),
            max_quantizer: Some(config.max_quantizer),
            keyframe_interval: config.keyframe_interval,
        }
    }

    /// Whether every field is `None`, that is, whether nothing is to change.
    pub fn is_empty(&self) -> (b: bool)
        ensures
            b == params_empty(*self),
    {
        self.target_bitrate.is_none() && self.fps_numerator.is_none()
            && self.fps_denominator.is_none() && self.min_quantizer.is_none()
            && self.max_quantizer.is_none() && self.keyframe_interval.is_none()
    }
}

} // verus!
