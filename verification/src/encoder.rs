//! The encoder: checks of its settings, of its input images and of the order
//! of its calls, and the settings it hands to libvpx.
use vstd::prelude::*;

use crate::config::{
    CodecConfig, EncodeOptions, EncoderConfig, EncodingDeadline, NonZeroUsize, RateControlMode,
    ReconfigureParams, Vp9Profile, params_empty, params_of_config,
};
use crate::controls::{EncoderControl, control_plan, encoder_controls};
use crate::error::{
    invalid_param, Error, CODEC_ERROR, CODEC_INVALID_PARAM, CODEC_MEM_ERROR, CODEC_OK,
};
use crate::image::{ImageData, ImageFormat, format_of};
use crate::params::{
    EncoderCfg, VPX_MAX_QUANTIZER, cfg_wf, merge_reconfigure_params_into_cfg, merged_cfg,
    params_error,
};

verus! {

/// The expected size of each plane of the input images, in bytes.
#[derive(Debug, Clone, Copy, PartialEq, Eq, Structural)]
pub enum PlaneSizes {
    /// Three planes (I420, YV12, I422, I444, I440 and their 16-bit forms).
    ThreePlanes { y_size: usize, u_size: usize, v_size: usize },
    /// Two planes (NV12).
    TwoPlanes { y_size: usize, uv_size: usize },
}

/// Whether the chroma planes of `format` have half as many rows as the luma
/// plane (4:2:0 and 4:4:0 formats) rather than as many (4:2:2 and 4:4:4).
pub open spec fn halves_rows(format: ImageFormat) -> bool {
    match format {
        ImageFormat::I420 | ImageFormat::Yv12 | ImageFormat::Nv12 | ImageFormat::I440
        | ImageFormat::I42016 | ImageFormat::I44016 => true,
        _ => false,
    }
}

/// Number of rows of the chroma planes of `format` for images of `height` rows:
/// half the height rounded up, or the height.
pub open spec fn chroma_rows(format: ImageFormat, height: int) -> int {
    if halves_rows(format) {
        (height + 1) / 2
    } else {
        height
    }
}

/// The plane sizes of images of `format` and `height` rows whose planes have
/// the given strides (bytes a row): rows times stride for every plane.
pub open spec fn expected_plane_sizes(
    format: ImageFormat,
    height: int,
    y_stride: int,
    u_stride: int,
    v_stride: int,
) -> PlaneSizes {
    if format == ImageFormat::Nv12 {
        PlaneSizes::TwoPlanes {
            y_size: (height * y_stride) as usize,
            uv_size: (chroma_rows(format, height) * u_stride) as usize,
        }
    } else {
        PlaneSizes::ThreePlanes {
            y_size: (height * y_stride) as usize,
            u_size: (chroma_rows(format, height) * u_stride) as usize,
            v_size: (chroma_rows(format, height) * v_stride) as usize,
        }
    }
}

/// Whether the plane sizes of `format` fit in `usize`.
pub open spec fn plane_sizes_fit(
    format: ImageFormat,
    height: int,
    y_stride: int,
    u_stride: int,
    v_stride: int,
) -> bool {
    &&& height * y_stride <= usize::MAX
    &&& chroma_rows(format, height) * u_stride <= usize::MAX
    &&& format != ImageFormat::Nv12 ==> chroma_rows(format, height) * v_stride <= usize::MAX
}

/// Half of `n`, rounded up.
fn half_up(n: usize) -> (r: usize)
    ensures
        r == (n + 1) / 2,
{
    n / 2 + n % 2
}

/// The plane sizes of images of `format` and `height` rows whose planes have
/// the given strides.
pub fn plane_sizes_for(
    format: ImageFormat,
    height: usize,
    y_stride: usize,
    u_stride: usize,
    v_stride: usize,
) -> (sizes: PlaneSizes)
    requires
        plane_sizes_fit(format, height as int, y_stride as int, u_stride as int, v_stride as int),
    ensures
        sizes == expected_plane_sizes(
            format,
            height as int,
            y_stride as int,
            u_stride as int,
            v_stride as int,
        ),
{
    let chroma = match format {
        ImageFormat::I420 | ImageFormat::Yv12 | ImageFormat::Nv12 | ImageFormat::I440
        | ImageFormat::I42016 | ImageFormat::I44016 => half_up(height),
        ImageFormat::I422 | ImageFormat::I444 | ImageFormat::I42216 | ImageFormat::I44416 => height,
    };
    match format {
        ImageFormat::Nv12 => PlaneSizes::TwoPlanes {
            y_size: height * y_stride,
            uv_size: chroma * u_stride,
        },
        _ => PlaneSizes::ThreePlanes {
            y_size: height * y_stride,
            u_size: chroma * u_stride,
            v_size: chroma * v_stride,
        },
    }
}

/// The expected plane sizes of each format, written out: the Y plane has
/// rows times stride bytes; NV12's interleaved UV plane and the U and V planes
/// of the 4:2:0 and 4:4:0 formats (8 and 16 bits) have half the rows, rounded
/// up, times their stride; those of the 4:2:2 and 4:4:4 formats have all the
/// rows. Stated where the sizes fit in `usize`, as libvpx's allocated image
/// makes them.
pub proof fn lemma_plane_sizes_by_format(
    format: ImageFormat,
    height: int,
    y_stride: int,
    u_stride: int,
    v_stride: int,
)
    requires
        0 <= height,
        0 <= y_stride,
        0 <= u_stride,
        0 <= v_stride,
        plane_sizes_fit(format, height, y_stride, u_stride, v_stride),
    ensures
        expected_plane_sizes(format, height, y_stride, u_stride, v_stride) == (match format {
            ImageFormat::Nv12 => PlaneSizes::TwoPlanes {
                y_size: (height * y_stride) as usize,
                uv_size: (((height + 1) / 2) * u_stride) as usize,
            },
            ImageFormat::I420 | ImageFormat::Yv12 | ImageFormat::I440 | ImageFormat::I42016
            | ImageFormat::I44016 => PlaneSizes::ThreePlanes {
                y_size: (height * y_stride) as usize,
                u_size: (((height + 1) / 2) * u_stride) as usize,
                v_size: (((height + 1) / 2) * v_stride) as usize,
            },
            _ => PlaneSizes::ThreePlanes {
                y_size: (height * y_stride) as usize,
                u_size: (height * u_stride) as usize,
                v_size: (height * v_stride) as usize,
            },
        }),
{
}

/// The rows of the chroma planes: half the image's rows, rounded up (`rows`
/// with `2 * rows - 1 <= height <= 2 * rows`), for I420, YV12, NV12, I440,
/// I42016 and I44016; all of them for I422, I444, I42216 and I44416.
pub proof fn lemma_chroma_rows_by_format(format: ImageFormat, height: int, rows: int)
    requires
        2 * rows - 1 <= height <= 2 * rows,
    ensures
        format == ImageFormat::I420 ==> chroma_rows(format, height) == rows,
        format == ImageFormat::Yv12 ==> chroma_rows(format, height) == rows,
        format == ImageFormat::Nv12 ==> chroma_rows(format, height) == rows,
        format == ImageFormat::I440 ==> chroma_rows(format, height) == rows,
        format == ImageFormat::I42016 ==> chroma_rows(format, height) == rows,
        format == ImageFormat::I44016 ==> chroma_rows(format, height) == rows,
        format == ImageFormat::I422 ==> chroma_rows(format, height) == height,
        format == ImageFormat::I444 ==> chroma_rows(format, height) == height,
        format == ImageFormat::I42216 ==> chroma_rows(format, height) == height,
        format == ImageFormat::I44416 ==> chroma_rows(format, height) == height,
        expected_plane_sizes(format, height, 1, 1, 1) is TwoPlanes <==> format
            == ImageFormat::Nv12,
{
    assert((height + 1) / 2 == rows);
}

/// Whether the planes of `image` have exactly the sizes `sizes`.
pub open spec fn planes_match(image: ImageData, sizes: PlaneSizes) -> bool {
    match (image, sizes) {
        (ImageData::Nv12 { y, uv }, PlaneSizes::TwoPlanes { y_size, uv_size }) => y@.len()
            == y_size && uv@.len() == uv_size,
        (ImageData::Nv12 { .. }, _) => false,
        (_, PlaneSizes::TwoPlanes { .. }) => false,
        (ImageData::I420 { y, u, v }, PlaneSizes::ThreePlanes { y_size, u_size, v_size })
        | (ImageData::Yv12 { y, u, v }, PlaneSizes::ThreePlanes { y_size, u_size, v_size })
        | (ImageData::I422 { y, u, v }, PlaneSizes::ThreePlanes { y_size, u_size, v_size })
        | (ImageData::I444 { y, u, v }, PlaneSizes::ThreePlanes { y_size, u_size, v_size })
        | (ImageData::I440 { y, u, v }, PlaneSizes::ThreePlanes { y_size, u_size, v_size })
        | (ImageData::I42016 { y, u, v }, PlaneSizes::ThreePlanes { y_size, u_size, v_size })
        | (ImageData::I42216 { y, u, v }, PlaneSizes::ThreePlanes { y_size, u_size, v_size })
        | (ImageData::I44416 { y, u, v }, PlaneSizes::ThreePlanes { y_size, u_size, v_size })
        | (ImageData::I44016 { y, u, v }, PlaneSizes::ThreePlanes { y_size, u_size, v_size }) =>
            y@.len() == y_size && u@.len() == u_size && v@.len() == v_size,
    }
}


/// libvpx's number of a VP9 profile.
pub open spec fn profile_number(profile: Vp9Profile) -> u32 {
    match profile {
        Vp9Profile::Profile0 => 0,
        Vp9Profile::Profile2 => 2,
    }
}

/// A count as the `u32` that libvpx takes.
pub open spec fn count_u32(n: Option<NonZeroUsize>) -> Option<u32> {
    match n {
        Some(c) => Some(c.spec_get() as u32),
        None => None,
    }
}

/// The settings of a new encoder before its bitrate, frame rate, quantizers
/// and keyframe distance are applied (those start at zero and are all set).
pub open spec fn initial_cfg(config: EncoderConfig) -> EncoderCfg {
    EncoderCfg {
        g_w: config.width as u32,
        g_h: config.height as u32,
        g_profile: match config.codec {
            CodecConfig::Vp9(c) => Some(profile_number(c.profile)),
            CodecConfig::Vp8(_) => None,
        },
        rc_target_bitrate: 0,
        g_timebase_num: 0,
        g_timebase_den: 0,
        rc_min_quantizer: 0,
        rc_max_quantizer: 0,
        kf_max_dist: None,
        g_lag_in_frames: match config.lag_in_frames {
            Some(l) => l.spec_get() as u32,
            None => 0,
        },
        g_threads: count_u32(config.threads),
        g_error_resilient: config.error_resilient,
        rc_dropframe_thresh: match config.frame_drop_threshold {
            Some(t) => Some(t as u32),
            None => None,
        },
        rc_end_usage: config.rate_control,
    }
}

/// The libvpx settings of an encoder made with `config`.
pub open spec fn encoder_cfg_of(config: EncoderConfig) -> EncoderCfg {
    merged_cfg(initial_cfg(config), params_of_config(config))
}

/// Why an encoder cannot be made with `config`, if it cannot: the first
/// refusal among the width and the height (each must fit libvpx's `u32`),
/// the checks of the bitrate, frame rate, quantizers and keyframe interval,
/// the CQ level (at most 63), and the look-ahead, thread count and frame
/// drop threshold (each must fit a `u32`).
pub open spec fn encoder_config_error(config: EncoderConfig) -> Option<&'static str> {
    if config.width > u32::MAX {
        Some("width is out of range")
    } else if config.height > u32::MAX {
        Some("height is out of range")
    } else if params_error(initial_cfg(config), params_of_config(config)) is Some {
        params_error(initial_cfg(config), params_of_config(config))
    } else if config.cq_level > VPX_MAX_QUANTIZER {
        Some("cq_level must not exceed 63")
    } else if config.lag_in_frames matches Some(l) && l.spec_get() > u32::MAX {
        Some("lag_in_frames is out of range")
    } else if config.threads matches Some(t) && t.spec_get() > u32::MAX {
        Some("threads is out of range")
    } else if config.frame_drop_threshold matches Some(t) && t > u32::MAX {
        Some("frame_drop_threshold is out of range")
    } else {
        None
    }
}

/// `cfg` holds, field by field, what `config` asks libvpx for: its size; for
/// VP9 the profile number (0 or 2); the bitrate in whole kbps; as time base
/// the duration of one frame (denominator over numerator of the frame rate);
/// the quantizers; the keyframe interval where given; the look-ahead (0 where
/// none is given); the thread count and the frame drop threshold where
/// given; error resilience where enabled; and the rate control mode.
pub open spec fn carries_config(cfg: EncoderCfg, config: EncoderConfig) -> bool {
    &&& cfg.g_w == config.width
    &&& cfg.g_h == config.height
    &&& (config.codec matches CodecConfig::Vp9(c) ==> (c.profile == Vp9Profile::Profile0
        ==> cfg.g_profile == Some(0u32)) && (c.profile == Vp9Profile::Profile2 ==> cfg.g_profile
        == Some(2u32)))
    &&& (config.codec is Vp8 ==> cfg.g_profile is None)
    &&& cfg.rc_target_bitrate * 1000 <= config.target_bitrate < (cfg.rc_target_bitrate + 1) * 1000
    &&& cfg.g_timebase_num == config.fps_denominator
    &&& cfg.g_timebase_den == config.fps_numerator
    &&& cfg.rc_min_quantizer == config.min_quantizer
    &&& cfg.rc_max_quantizer == config.max_quantizer
    &&& (config.keyframe_interval matches Some(k) ==> (cfg.kf_max_dist matches Some(v) && v
        == k.spec_get()))
    &&& (config.keyframe_interval is None ==> cfg.kf_max_dist is None)
    &&& (config.lag_in_frames matches Some(l) ==> cfg.g_lag_in_frames == l.spec_get())
    &&& (config.lag_in_frames is None ==> cfg.g_lag_in_frames == 0)
    &&& (config.threads matches Some(t) ==> (cfg.g_threads matches Some(v) && v == t.spec_get()))
    &&& (config.threads is None ==> cfg.g_threads is None)
    &&& cfg.g_error_resilient == config.error_resilient
    &&& (config.frame_drop_threshold matches Some(t) ==> (cfg.rc_dropframe_thresh matches Some(v)
        && v == t))
    &&& (config.frame_drop_threshold is None ==> cfg.rc_dropframe_thresh is None)
    &&& cfg.rc_end_usage == config.rate_control
}

/// The settings of an encoder that passes the checks carry its config field
/// by field.
pub proof fn lemma_encoder_cfg_carries_config(config: EncoderConfig)
    requires
        encoder_config_error(config) is None,
    ensures
        carries_config(encoder_cfg_of(config), config),
{
}

/// The checks of a new encoder refuse its settings exactly when one of them is
/// out of libvpx's range: width or height beyond `u32`; a bitrate outside
/// 1000..=1_000_000_000 bps; a frame rate part outside 1..=1_000_000_000; a
/// quantizer beyond `u32` or a range other than `min <= max <= 63`; a CQ
/// level above 63; a keyframe interval, look-ahead, thread count or frame
/// drop threshold beyond `u32`.
pub proof fn lemma_encoder_config_accepted_exactly(config: EncoderConfig)
    ensures
        encoder_config_error(config) is None <==> {
            &&& config.width <= u32::MAX
            &&& config.height <= u32::MAX
            &&& 1000 <= config.target_bitrate <= 1_000_000_000
            &&& 1 <= config.fps_numerator <= 1_000_000_000
            &&& 1 <= config.fps_denominator <= 1_000_000_000
            &&& config.min_quantizer <= config.max_quantizer <= 63
            &&& config.cq_level <= 63
            &&& (config.keyframe_interval matches Some(k) ==> k.spec_get() <= u32::MAX)
            &&& (config.lag_in_frames matches Some(l) ==> l.spec_get() <= u32::MAX)
            &&& (config.threads matches Some(t) ==> t.spec_get() <= u32::MAX)
            &&& (config.frame_drop_threshold matches Some(t) ==> t <= u32::MAX)
        },
{
}

/// A count as a `u32`, or `None` where it does not fit.
fn count_to_u32(n: Option<NonZeroUsize>) -> (r: Result<Option<u32>, ()>)
    ensures
        r matches Ok(v) ==> v == count_u32(n) && !(n matches Some(c) && c.spec_get() > u32::MAX),
        r is Err ==> (n matches Some(c) && c.spec_get() > u32::MAX),
{
    match n {
        Some(c) => {
            let v = c.get();
            if v > u32::MAX as usize {
                Err(())
            } else {
                Ok(Some(v as u32))
            }
        },
        None => Ok(None),
    }
}

/// What one `encode` call hands to libvpx's `vpx_codec_encode`, besides the
/// image.
#[derive(Debug, Clone, Copy, PartialEq, Eq)]
pub struct EncodeRequest {
    /// Presentation time stamp: the number of frames encoded before.
    pub pts: usize,
    /// Duration of the frame, in time base units: always one frame.
    pub duration: u64,
    /// Whether a keyframe is forced.
    pub force_keyframe: bool,
    /// The deadline the encoder was made with.
    pub deadline: EncodingDeadline,
}

/// libvpx's flag that forces a keyframe (`VPX_EFLAG_FORCE_KF`).
pub const VPX_EFLAG_FORCE_KF: i64 = 1;

/// libvpx's deadline for the best quality (`VPX_DL_BEST_QUALITY`), in microseconds.
pub const VPX_DL_BEST_QUALITY: u64 = 0;

/// libvpx's deadline for good quality (`VPX_DL_GOOD_QUALITY`), in microseconds.
pub const VPX_DL_GOOD_QUALITY: u64 = 1_000_000;

/// libvpx's deadline for real time (`VPX_DL_REALTIME`), in microseconds; it is
/// also the deadline of the call that signals the end of the input.
pub const VPX_DL_REALTIME: u64 = 1;

/// libvpx's deadline value of `deadline`, in microseconds.
pub open spec fn deadline_usecs(deadline: EncodingDeadline) -> u64 {
    match deadline {
        EncodingDeadline::Best => VPX_DL_BEST_QUALITY,
        EncodingDeadline::Good => VPX_DL_GOOD_QUALITY,
        EncodingDeadline::Realtime => VPX_DL_REALTIME,
    }
}

impl EncodeRequest {
    /// The frame flags for libvpx: `VPX_EFLAG_FORCE_KF` where a keyframe is
    /// forced, else none.
    pub fn flags(&self) -> (f: i64)
        ensures
            f == (if self.force_keyframe {
                VPX_EFLAG_FORCE_KF
            } else {
                0
            }),
    {
        if self.force_keyframe {
            VPX_EFLAG_FORCE_KF
        } else {
            0
        }
    }

    /// The deadline for libvpx, in microseconds.
    pub fn deadline_usecs(&self) -> (d: u64)
        ensures
            d == deadline_usecs(self.deadline),
    {
        deadline_value(self.deadline)
    }
}

/// libvpx's deadline value of `deadline`, in microseconds: the one mapping
/// that the encoding of images and the signal of the end of the input share.
pub fn deadline_value(deadline: EncodingDeadline) -> (d: u64)
    ensures
        d == deadline_usecs(deadline),
{
    match deadline {
        EncodingDeadline::Best => VPX_DL_BEST_QUALITY,
        EncodingDeadline::Good => VPX_DL_GOOD_QUALITY,
        EncodingDeadline::Realtime => VPX_DL_REALTIME,
    }
}

/// What the `vpx_codec_encode` call that signals the end of the input
/// carries, besides the absent image.
#[derive(Debug, Clone, Copy, PartialEq, Eq)]
pub struct FlushRequest {
    /// Presentation time stamp: -1.
    pub pts: i64,
    /// Duration: 0.
    pub duration: u64,
    /// Frame flags: none.
    pub flags: i64,
    /// The encoder's deadline, in microseconds, mapped as for images.
    pub deadline_usecs: u64,
}

/// What a packet that libvpx hands out holds.
#[derive(Debug, Clone, Copy, PartialEq, Eq, Structural)]
pub enum PacketKind {
    /// An encoded frame (`VPX_CODEC_CX_FRAME_PKT`).
    Frame,
    /// Anything else (statistics and the like).
    Other,
}

/// What `next_frame` does with the packet that libvpx handed out.
#[derive(Debug, Clone, Copy, PartialEq, Eq, Structural)]
pub enum NextFrameStep {
    /// The packet is an encoded frame: hand it out.
    Frame,
    /// The packet is not a frame: ask libvpx for the next one.
    Skip,
    /// libvpx has no packet left.
    Done,
}

/// A VP8 / VP9 encoder: the state that decides what is handed to libvpx.
///
/// The encoder keeps the libvpx settings that it was made or last
/// reconfigured with, whether encoded packets are still to be taken out,
/// the number of frames encoded, the deadline and input image format, and
/// the expected plane sizes of the input images.
pub struct Encoder {
    cfg: EncoderCfg,
    controls: Vec<EncoderControl>,
    // How many of the controls libvpx has accepted, in order.
    controls_sent: usize,
    // Whether libvpx refused a control: then no later one is sent.
    control_refused: bool,
    iter_active: bool,
    // Whether every packet of the last encode or flush has been taken out;
    // from then on `next_frame` reports none without asking libvpx, which
    // would hand the same packets out again.
    drained: bool,
    frame_count: usize,
    deadline: EncodingDeadline,
    image_format: ImageFormat,
    plane_sizes: Option<PlaneSizes>,
}

impl Encoder {
    #[verifier::type_invariant]
    spec fn inv(self) -> bool {
        &&& cfg_wf(self.cfg)
        &&& self.drained ==> !self.iter_active
        &&& self.controls_sent <= self.controls@.len()
        &&& self.plane_sizes matches Some(ps) ==> (ps is TwoPlanes <==> self.image_format
            == ImageFormat::Nv12)
    }

    /// The libvpx settings in force.
    pub closed spec fn spec_cfg(&self) -> EncoderCfg {
        self.cfg
    }

    /// The codec controls to send once libvpx's encoder is made.
    pub closed spec fn spec_controls(&self) -> Seq<EncoderControl> {
        self.controls@
    }

    /// How many of the controls libvpx has accepted, in order.
    pub closed spec fn spec_controls_sent(&self) -> nat {
        self.controls_sent as nat
    }

    /// Whether libvpx refused a control.
    pub closed spec fn spec_control_refused(&self) -> bool {
        self.control_refused
    }

    /// The control to send next: none once libvpx refused one or once all
    /// were accepted, else the first that was not sent.
    pub open spec fn spec_next_control(&self) -> Option<EncoderControl> {
        if self.spec_control_refused() || self.spec_controls_sent() >= self.spec_controls().len() {
            None
        } else {
            Some(self.spec_controls()[self.spec_controls_sent() as int])
        }
    }

    /// Whether libvpx may still hold encoded packets that were not taken out
    /// (its packet iterator is not at its start).
    pub closed spec fn spec_iter_active(&self) -> bool {
        self.iter_active
    }

    /// Whether every packet of the last encode or flush has been taken out
    /// (and no image was encoded since).
    pub closed spec fn spec_drained(&self) -> bool {
        self.drained
    }

    /// Number of frames encoded.
    pub closed spec fn spec_frame_count(&self) -> usize {
        self.frame_count
    }

    /// The deadline of every encode call.
    pub closed spec fn spec_deadline(&self) -> EncodingDeadline {
        self.deadline
    }

    /// The format of the input images.
    pub closed spec fn spec_image_format(&self) -> ImageFormat {
        self.image_format
    }

    /// The expected plane sizes of the input images, once libvpx's image is
    /// allocated.
    pub closed spec fn spec_plane_sizes(&self) -> Option<PlaneSizes> {
        self.plane_sizes
    }

    /// Makes an encoder with the given settings, or says why they are refused.
    ///
    /// Every refusal is an error with code `CODEC_INVALID_PARAM`, reported by
    /// `shiguredo_libvpx::Encoder::new`. On success the encoder holds the
    /// libvpx settings of `config` (which libvpx takes without clipping), the
    /// codec controls that `config` asks for, no frame encoded and no packet
    /// pending; the plane sizes are set once libvpx's image is allocated
    /// (`set_image_strides`).
    pub fn new(config: EncoderConfig) -> (res: Result<Self, Error>)
        ensures
            res is Ok <==> encoder_config_error(config) is None,
            res matches Ok(e) ==> {
                &&& e.spec_cfg() == encoder_cfg_of(config)
                &&& carries_config(e.spec_cfg(), config)
                &&& cfg_wf(e.spec_cfg())
                &&& e.spec_controls() == control_plan(config)
                &&& !e.spec_iter_active()
                &&& e.spec_drained()
                &&& e.spec_controls_sent() == 0
                &&& !e.spec_control_refused()
                &&& e.spec_frame_count() == 0
                &&& e.spec_deadline() == config.deadline
                &&& e.spec_image_format() == config.image_format
                &&& e.spec_plane_sizes() is None
            },
            res matches Err(e) ==> {
                &&& e.spec_reason() == encoder_config_error(config)
                &&& e.spec_code() == CODEC_INVALID_PARAM
                &&& e.spec_function() == "shiguredo_libvpx::Encoder::new"
                &&& e.spec_detail() is None
            },
    {
        if config.width > u32::MAX as usize {
            return Err(invalid_param("shiguredo_libvpx::Encoder::new", "width is out of range"));
        }
        if config.height > u32::MAX as usize {
            return Err(invalid_param("shiguredo_libvpx::Encoder::new", "height is out of range"));
        }
        let g_profile = match &config.codec {
            CodecConfig::Vp9(vp9_config) => Some(
                match vp9_config.profile {
                    Vp9Profile::Profile0 => 0u32,
                    Vp9Profile::Profile2 => 2u32,
                },
            ),
            CodecConfig::Vp8(_) => None,
        };
        let initial = EncoderCfg {
            g_w: config.width as u32,
            g_h: config.height as u32,
            g_profile,
            rc_target_bitrate: 0,
            g_timebase_num: 0,
            g_timebase_den: 0,
            rc_min_quantizer: 0,
            rc_max_quantizer: 0,
            kf_max_dist: None,
            g_lag_in_frames: 0,
            g_threads: None,
            g_error_resilient: false,
            rc_dropframe_thresh: None,
            rc_end_usage: RateControlMode::Vbr,
        };
        let params = ReconfigureParams::from_encoder_config(&config);
        let mut cfg = match merge_reconfigure_params_into_cfg(
            &initial,
            &params,
            "shiguredo_libvpx::Encoder::new",
        ) {
            Ok(c) => c,
            Err(e) => {
                assert(params_error(initial, params) == params_error(initial_cfg(config), params));
                return Err(e);
            },
        };
        assert(params_error(initial, params) == params_error(initial_cfg(config), params));

        if config.cq_level > VPX_MAX_QUANTIZER as usize {
            return Err(
                invalid_param("shiguredo_libvpx::Encoder::new", "cq_level must not exceed 63"),
            );
        }

        cfg.g_lag_in_frames = match count_to_u32(config.lag_in_frames) {
            // No look-ahead unless one is asked for.
            Ok(Some(v)) => v,
            Ok(None) => 0,
            Err(()) => {
                return Err(
                    invalid_param(
                        "shiguredo_libvpx::Encoder::new",
                        "lag_in_frames is out of range",
                    ),
                );
            },
        };
        cfg.g_threads = match count_to_u32(config.threads) {
            Ok(v) => v,
            Err(()) => {
                return Err(
                    invalid_param("shiguredo_libvpx::Encoder::new", "threads is out of range"),
                );
            },
        };
        if config.error_resilient {
            cfg.g_error_resilient = true;
        }
        if let Some(threshold) = config.frame_drop_threshold {
            if threshold > u32::MAX as usize {
                return Err(
                    invalid_param(
                        "shiguredo_libvpx::Encoder::new",
                        "frame_drop_threshold is out of range",
                    ),
                );
            }
            cfg.rc_dropframe_thresh = Some(threshold as u32);
        }
        cfg.rc_end_usage = config.rate_control;

        let controls = encoder_controls(&config);
        assert(cfg == encoder_cfg_of(config));
        proof {
            lemma_encoder_cfg_carries_config(config);
        }
        Ok(Encoder {
            cfg,
            controls,
            controls_sent: 0,
            control_refused: false,
            iter_active: false,
            drained: true,
            frame_count: 0,
            deadline: config.deadline,
            image_format: config.image_format,
            plane_sizes: None,
        })
    }

    /// Refuses a call while libvpx may still hold encoded packets that were
    /// not taken out: once `next_frame` has handed out a packet, it must be
    /// called until it reports that none is left.
    pub fn ensure_iter_drained(&self, function: &'static str) -> (res: Result<(), Error>)
        ensures
            res is Ok <==> !self.spec_iter_active(),
            res matches Err(e) ==> {
                &&& e.spec_code() == CODEC_ERROR
                &&& e.spec_function() == function
                &&& e.spec_reason() == Some(
                    "still need to call shiguredo_libvpx::Encoder::next_frame()",
                )
                &&& e.spec_detail() is None
            },
    {
        if self.iter_active {
            return Err(
                Error::with_reason(
                    CODEC_ERROR,
                    function,
                    "still need to call shiguredo_libvpx::Encoder::next_frame()",
                ),
            );
        }
        Ok(())
    }

    /// Records the strides of libvpx's image buffer (allocated with the
    /// encoder's format and size), from which the expected plane sizes of the
    /// input images follow.
    pub fn set_image_strides(&mut self, y_stride: usize, u_stride: usize, v_stride: usize)
        requires
            plane_sizes_fit(
                old(self).spec_image_format(),
                old(self).spec_cfg().g_h as int,
                y_stride as int,
                u_stride as int,
                v_stride as int,
            ),
        ensures
            final(self).spec_plane_sizes() == Some(
                expected_plane_sizes(
                    old(self).spec_image_format(),
                    old(self).spec_cfg().g_h as int,
                    y_stride as int,
                    u_stride as int,
                    v_stride as int,
                ),
            ),
            final(self).spec_cfg() == old(self).spec_cfg(),
            final(self).spec_controls() == old(self).spec_controls(),
            final(self).spec_controls_sent() == old(self).spec_controls_sent(),
            final(self).spec_control_refused() == old(self).spec_control_refused(),
            final(self).spec_iter_active() == old(self).spec_iter_active(),
            final(self).spec_drained() == old(self).spec_drained(),
            final(self).spec_frame_count() == old(self).spec_frame_count(),
            final(self).spec_deadline() == old(self).spec_deadline(),
            final(self).spec_image_format() == old(self).spec_image_format(),
    {
        proof {
            use_type_invariant(&*self);
        }
        let sizes = plane_sizes_for(
            self.image_format,
            self.cfg.g_h as usize,
            y_stride,
            u_stride,
            v_stride,
        );
        self.plane_sizes = Some(sizes);
    }

    /// Checks an image before it is handed to libvpx, and says what the
    /// `vpx_codec_encode` call is to carry.
    ///
    /// Refused, in this order: while encoded packets are still to be taken
    /// out; an image whose format is not the encoder's ("image format
    /// mismatch"); an image whose planes do not have the expected sizes
    /// ("invalid plane sizes"). Otherwise the frame gets the number of frames
    /// encoded before as its time stamp, a duration of one frame, the
    /// encoder's deadline, and a forced keyframe where the options ask for it.
    pub fn encode(&self, image: &ImageData, options: &EncodeOptions) -> (res: Result<
        EncodeRequest,
        Error,
    >)
        requires
            self.spec_plane_sizes() is Some,
        ensures
            res is Ok <==> {
                &&& !self.spec_iter_active()
                &&& format_of(*image) == self.spec_image_format()
                &&& planes_match(*image, self.spec_plane_sizes().unwrap())
            },
            res matches Ok(r) ==> {
                &&& r.pts == self.spec_frame_count()
                &&& r.duration == 1
                &&& r.force_keyframe == options.force_keyframe
                &&& r.deadline == self.spec_deadline()
            },
            res matches Err(e) ==> {
                &&& e.spec_function() == "shiguredo_libvpx::Encoder::encode"
                &&& e.spec_detail() is None
                &&& if self.spec_iter_active() {
                    &&& e.spec_code() == CODEC_ERROR
                    &&& e.spec_reason() == Some(
                        "still need to call shiguredo_libvpx::Encoder::next_frame()",
                    )
                } else if format_of(*image) != self.spec_image_format() {
                    &&& e.spec_code() == CODEC_INVALID_PARAM
                    &&& e.spec_reason() == Some("image format mismatch")
                } else {
                    &&& e.spec_code() == CODEC_INVALID_PARAM
                    &&& e.spec_reason() == Some("invalid plane sizes")
                }
            },
    {
        proof {
            use_type_invariant(self);
        }
        self.ensure_iter_drained("shiguredo_libvpx::Encoder::encode")?;

        if image.format() != self.image_format {
            return Err(invalid_param("shiguredo_libvpx::Encoder::encode", "image format mismatch"));
        }

        let sizes_ok = match self.plane_sizes {
            Some(PlaneSizes::ThreePlanes { y_size, u_size, v_size }) => match image {
                ImageData::I420 { y, u, v }
                | ImageData::Yv12 { y, u, v }
                | ImageData::I422 { y, u, v }
                | ImageData::I444 { y, u, v }
                | ImageData::I440 { y, u, v }
                | ImageData::I42016 { y, u, v }
                | ImageData::I42216 { y, u, v }
                | ImageData::I44416 { y, u, v }
                | ImageData::I44016 { y, u, v } => y.len() == y_size && u.len() == u_size && v.len()
                    == v_size,
                ImageData::Nv12 { .. } => false,
            },
            Some(PlaneSizes::TwoPlanes { y_size, uv_size }) => match image {
                ImageData::Nv12 { y, uv } => y.len() == y_size && uv.len() == uv_size,
                _ => false,
            },
            None => false,
        };
        if !sizes_ok {
            return Err(invalid_param("shiguredo_libvpx::Encoder::encode", "invalid plane sizes"));
        }

        Ok(
            EncodeRequest {
                pts: self.frame_count,
                duration: 1,
                force_keyframe: options.force_keyframe,
                deadline: self.deadline,
            },
        )
    }

    /// Takes in libvpx's status code of the `vpx_codec_encode` call of an
    /// image: on success one more frame is counted as encoded and its packets
    /// are to be taken out; on failure nothing changes.
    pub fn complete_encode(&mut self, code: u32, detail: Option<String>) -> (res: Result<
        (),
        Error,
    >)
        requires
            old(self).spec_frame_count() < usize::MAX,
        ensures
            res is Ok <==> code == CODEC_OK,
            final(self).spec_frame_count() == (if code == CODEC_OK {
                old(self).spec_frame_count() + 1
            } else {
                old(self).spec_frame_count() as int
            }),
            res matches Err(e) ==> {
                &&& e.spec_code() == code
                &&& e.spec_function() == "vpx_codec_encode"
                &&& e.spec_reason() is None
                &&& e.spec_detail() == detail
            },
            final(self).spec_cfg() == old(self).spec_cfg(),
            final(self).spec_controls() == old(self).spec_controls(),
            final(self).spec_controls_sent() == old(self).spec_controls_sent(),
            final(self).spec_control_refused() == old(self).spec_control_refused(),
            final(self).spec_drained() == (old(self).spec_drained() && code != CODEC_OK),
            final(self).spec_iter_active() == old(self).spec_iter_active(),
            final(self).spec_deadline() == old(self).spec_deadline(),
            final(self).spec_image_format() == old(self).spec_image_format(),
            final(self).spec_plane_sizes() == old(self).spec_plane_sizes(),
    {
        proof {
            use_type_invariant(&*self);
        }
        Error::check(code, "vpx_codec_encode", detail)?;
        self.frame_count = self.frame_count + 1;
        self.drained = false;
        Ok(())
    }

    /// Checks that the end of the input may be signalled to libvpx now, and
    /// says what that call carries: refused while encoded packets are still
    /// to be taken out; otherwise no image, time stamp -1, duration 0, no
    /// flags, and the encoder's own deadline, mapped as for images.
    pub fn finish(&self) -> (res: Result<FlushRequest, Error>)
        ensures
            res is Ok <==> !self.spec_iter_active(),
            res matches Ok(r) ==> {
                &&& r.pts == -1
                &&& r.duration == 0
                &&& r.flags == 0
                &&& r.deadline_usecs == deadline_usecs(self.spec_deadline())
            },
            res matches Err(e) ==> {
                &&& e.spec_code() == CODEC_ERROR
                &&& e.spec_function() == "shiguredo_libvpx::Encoder::finish"
                &&& e.spec_reason() == Some(
                    "still need to call shiguredo_libvpx::Encoder::next_frame()",
                )
                &&& e.spec_detail() is None
            },
    {
        self.ensure_iter_drained("shiguredo_libvpx::Encoder::finish")?;
        Ok(FlushRequest { pts: -1, duration: 0, flags: 0, deadline_usecs: deadline_value(self.deadline) })
    }

    /// Takes in libvpx's status code of the `vpx_codec_encode` call that
    /// signals the end of the input: on success the remaining packets are to
    /// be taken out; on failure nothing changes.
    pub fn complete_finish(&mut self, code: u32, detail: Option<String>) -> (res: Result<
        (),
        Error,
    >)
        ensures
            res is Ok <==> code == CODEC_OK,
            final(self).spec_drained() == (old(self).spec_drained() && code != CODEC_OK),
            res matches Err(e) ==> {
                &&& e.spec_code() == code
                &&& e.spec_function() == "vpx_codec_encode"
                &&& e.spec_reason() is None
                &&& e.spec_detail() == detail
            },
            final(self).spec_cfg() == old(self).spec_cfg(),
            final(self).spec_controls() == old(self).spec_controls(),
            final(self).spec_controls_sent() == old(self).spec_controls_sent(),
            final(self).spec_control_refused() == old(self).spec_control_refused(),
            final(self).spec_iter_active() == old(self).spec_iter_active(),
            final(self).spec_frame_count() == old(self).spec_frame_count(),
            final(self).spec_deadline() == old(self).spec_deadline(),
            final(self).spec_image_format() == old(self).spec_image_format(),
            final(self).spec_plane_sizes() == old(self).spec_plane_sizes(),
    {
        proof {
            use_type_invariant(&*self);
        }
        Error::check(code, "vpx_codec_encode", detail)?;
        self.drained = false;
        Ok(())
    }

    /// Takes in what libvpx's `vpx_codec_get_cx_data` handed out: `packet` is
    /// `None` where it handed out nothing, and `iter_active` says whether its
    /// packet iterator was left away from its start.
    ///
    /// Once the packets are drained, no packet is ever handed out again until
    /// an image is encoded or the end of the input signalled: the step is
    /// `Done` whatever libvpx handed out, and nothing changes (libvpx is then
    /// not to be asked at all: see `drained`). Otherwise, with no packet left
    /// the iterator is reset and the packets are drained; a frame packet is
    /// handed out; any other packet is skipped.
    pub fn next_frame(&mut self, packet: Option<PacketKind>, iter_active: bool) -> (step:
        NextFrameStep)
        ensures
            old(self).spec_drained() ==> step == NextFrameStep::Done
                && !final(self).spec_iter_active() && final(self).spec_drained(),
            !old(self).spec_drained() ==> {
                &&& step == (match packet {
                    None => NextFrameStep::Done,
                    Some(PacketKind::Frame) => NextFrameStep::Frame,
                    Some(PacketKind::Other) => NextFrameStep::Skip,
                })
                &&& final(self).spec_iter_active() == (packet is Some && iter_active)
                &&& final(self).spec_drained() == packet is None
            },
            final(self).spec_cfg() == old(self).spec_cfg(),
            final(self).spec_controls() == old(self).spec_controls(),
            final(self).spec_controls_sent() == old(self).spec_controls_sent(),
            final(self).spec_control_refused() == old(self).spec_control_refused(),
            final(self).spec_frame_count() == old(self).spec_frame_count(),
            final(self).spec_deadline() == old(self).spec_deadline(),
            final(self).spec_image_format() == old(self).spec_image_format(),
            final(self).spec_plane_sizes() == old(self).spec_plane_sizes(),
    {
        proof {
            use_type_invariant(&*self);
        }
        if self.drained {
            return NextFrameStep::Done;
        }
        match packet {
            None => {
                self.iter_active = false;
                self.drained = true;
                NextFrameStep::Done
            },
            Some(kind) => {
                self.iter_active = iter_active;
                match kind {
                    PacketKind::Frame => NextFrameStep::Frame,
                    PacketKind::Other => NextFrameStep::Skip,
                }
            },
        }
    }

    /// Decides what a reconfiguration hands to libvpx.
    ///
    /// Refused while encoded packets are still to be taken out. Parameters
    /// that change nothing succeed with `None`: libvpx is not called. Other
    /// parameters go through the same checks as those of a new encoder, with
    /// the quantizer range checked as it stands after the change; on success
    /// the result holds the new libvpx settings, which take effect only once
    /// libvpx accepts them (`commit_reconfigure`). The encoder itself never
    /// changes here.
    pub fn reconfigure(&self, params: &ReconfigureParams) -> (res: Result<
        Option<EncoderCfg>,
        Error,
    >)
        ensures
            res is Ok <==> !self.spec_iter_active() && (params_empty(*params) || params_error(
                self.spec_cfg(),
                *params,
            ) is None),
            res matches Ok(r) ==> {
                &&& r is None <==> params_empty(*params)
                &&& r matches Some(c) ==> c == merged_cfg(self.spec_cfg(), *params) && cfg_wf(c)
                    && crate::params::applies_params(self.spec_cfg(), *params, c)
            },
            res matches Err(e) ==> {
                &&& e.spec_function() == "shiguredo_libvpx::Encoder::reconfigure"
                &&& e.spec_detail() is None
                &&& if self.spec_iter_active() {
                    &&& e.spec_code() == CODEC_ERROR
                    &&& e.spec_reason() == Some(
                        "still need to call shiguredo_libvpx::Encoder::next_frame()",
                    )
                } else {
                    &&& e.spec_code() == CODEC_INVALID_PARAM
                    &&& e.spec_reason() == params_error(self.spec_cfg(), *params)
                }
            },
    {
        proof {
            use_type_invariant(self);
        }
        self.ensure_iter_drained("shiguredo_libvpx::Encoder::reconfigure")?;
        if params.is_empty() {
            return Ok(None);
        }
        let new_cfg = merge_reconfigure_params_into_cfg(
            &self.cfg,
            params,
            "shiguredo_libvpx::Encoder::reconfigure",
        )?;
        proof {
            crate::params::lemma_merge_keeps_wf(self.cfg, *params);
            crate::params::lemma_merge_changes_only_given_fields(self.cfg, *params);
        }
        Ok(Some(new_cfg))
    }

    /// Takes in libvpx's status code of `vpx_codec_enc_config_set` with the
    /// settings that `reconfigure` decided on: they take effect on success;
    /// on failure the settings stay as they were.
    pub fn commit_reconfigure(&mut self, new_cfg: EncoderCfg, code: u32, detail: Option<String>) -> (res:
        Result<(), Error>)
        requires
            cfg_wf(new_cfg),
        ensures
            res is Ok <==> code == CODEC_OK,
            final(self).spec_cfg() == (if code == CODEC_OK {
                new_cfg
            } else {
                old(self).spec_cfg()
            }),
            res matches Err(e) ==> {
                &&& e.spec_code() == code
                &&& e.spec_function() == "vpx_codec_enc_config_set"
                &&& e.spec_reason() is None
                &&& e.spec_detail() == detail
            },
            final(self).spec_controls() == old(self).spec_controls(),
            final(self).spec_controls_sent() == old(self).spec_controls_sent(),
            final(self).spec_control_refused() == old(self).spec_control_refused(),
            final(self).spec_iter_active() == old(self).spec_iter_active(),
            final(self).spec_drained() == old(self).spec_drained(),
            final(self).spec_frame_count() == old(self).spec_frame_count(),
            final(self).spec_deadline() == old(self).spec_deadline(),
            final(self).spec_image_format() == old(self).spec_image_format(),
            final(self).spec_plane_sizes() == old(self).spec_plane_sizes(),
    {
        proof {
            use_type_invariant(&*self);
        }
        Error::check(code, "vpx_codec_enc_config_set", detail)?;
        self.cfg = new_cfg;
        Ok(())
    }

    /// The libvpx settings in force.
    pub fn cfg(&self) -> (c: &EncoderCfg)
        ensures
            *c == self.spec_cfg(),
            cfg_wf(*c),
    {
        proof {
            use_type_invariant(self);
        }
        &self.cfg
    }

    /// The codec control to send next, once libvpx's encoder is made: the
    /// first one not yet accepted, or none once all were accepted or libvpx
    /// refused one.
    pub fn next_control(&self) -> (c: Option<EncoderControl>)
        ensures
            c == self.spec_next_control(),
    {
        proof {
            use_type_invariant(self);
        }
        if self.control_refused || self.controls_sent >= self.controls.len() {
            None
        } else {
            Some(self.controls[self.controls_sent])
        }
    }

    /// Takes in libvpx's status code of `vpx_codec_control_` with the control
    /// that `next_control` gave. Accepted, the control counts as sent and the
    /// next one comes back (none once all are sent). Refused, the error names
    /// `vpx_codec_control_` with the code and the detail of the context, and
    /// no later control is ever handed out.
    pub fn complete_control(&mut self, code: u32, detail: Option<String>) -> (res: Result<
        Option<EncoderControl>,
        Error,
    >)
        requires
            old(self).spec_next_control() is Some,
        ensures
            res is Ok <==> code == CODEC_OK,
            res matches Ok(next) ==> {
                &&& final(self).spec_controls_sent() == old(self).spec_controls_sent() + 1
                &&& !final(self).spec_control_refused()
                &&& next == final(self).spec_next_control()
            },
            res matches Err(e) ==> {
                &&& e.spec_code() == code
                &&& e.spec_function() == "vpx_codec_control_"
                &&& e.spec_reason() is None
                &&& e.spec_detail() == detail
                &&& final(self).spec_control_refused()
                &&& final(self).spec_controls_sent() == old(self).spec_controls_sent()
                &&& final(self).spec_next_control() is None
            },
            final(self).spec_cfg() == old(self).spec_cfg(),
            final(self).spec_controls() == old(self).spec_controls(),
            final(self).spec_iter_active() == old(self).spec_iter_active(),
            final(self).spec_drained() == old(self).spec_drained(),
            final(self).spec_frame_count() == old(self).spec_frame_count(),
            final(self).spec_deadline() == old(self).spec_deadline(),
            final(self).spec_image_format() == old(self).spec_image_format(),
            final(self).spec_plane_sizes() == old(self).spec_plane_sizes(),
    {
        proof {
            use_type_invariant(&*self);
        }
        if let Err(e) = Error::check(code, "vpx_codec_control_", detail) {
            self.control_refused = true;
            return Err(e);
        }
        let planned = self.controls.len();
        assert(self.controls_sent < planned);
        self.controls_sent = self.controls_sent + 1;
        Ok(self.next_control())
    }

    /// The codec controls to send, in order, once libvpx's encoder is made.
    pub fn controls(&self) -> (c: &Vec<EncoderControl>)
        ensures
            c@ == self.spec_controls(),
    {
        &self.controls
    }

    /// Whether encoded packets may still be waiting to be taken out.
    pub fn iter_active(&self) -> (b: bool)
        ensures
            b == self.spec_iter_active(),
    {
        self.iter_active
    }

    /// Whether every packet of the last encode or flush has been taken out:
    /// then `next_frame` reports none, and libvpx is not to be asked for
    /// packets, for it would hand the same ones out again.
    pub fn drained(&self) -> (b: bool)
        ensures
            b == self.spec_drained(),
    {
        self.drained
    }

    /// Number of frames encoded.
    pub fn frame_count(&self) -> (n: usize)
        ensures
            n == self.spec_frame_count(),
    {
        self.frame_count
    }

    /// The format of the input images.
    pub fn image_format(&self) -> (f: ImageFormat)
        ensures
            f == self.spec_image_format(),
    {
        self.image_format
    }

    /// The expected plane sizes of the input images, once known.
    pub fn plane_sizes(&self) -> (p: Option<PlaneSizes>)
        ensures
            p == self.spec_plane_sizes(),
    {
        self.plane_sizes
    }
}

/// Turns the outcome of `vpx_img_alloc` for the encoder's image buffer into a
/// result: an allocation failure is an error with code `CODEC_MEM_ERROR`,
/// reported by `vpx_img_alloc`, with reason "image allocation failed".
pub fn image_allocation(allocated: bool) -> (res: Result<(), Error>)
    ensures
        res is Ok <==> allocated,
        res matches Err(e) ==> {
            &&& e.spec_code() == CODEC_MEM_ERROR
            &&& e.spec_function() == "vpx_img_alloc"
            &&& e.spec_reason() == Some("image allocation failed")
            &&& e.spec_detail() is None
        },
{
    if allocated {
        Ok(())
    } else {
        Err(Error::with_reason(CODEC_MEM_ERROR, "vpx_img_alloc", "image allocation failed"))
    }
}

/// libvpx's flag of a keyframe packet (`VPX_FRAME_IS_KEY`).
pub const VPX_FRAME_IS_KEY: u32 = 1;

/// An encoded frame: its compressed data and what libvpx says of it.
pub struct EncodedFrame<'a> {
    data: &'a [u8],
    width: u32,
    height: u32,
    flags: u32,
}

impl<'a> EncodedFrame<'a> {
    /// The compressed data.
    pub closed spec fn spec_data(&self) -> Seq<u8> {
        self.data@
    }

    /// libvpx's width of the frame (first spatial layer).
    pub closed spec fn spec_width(&self) -> u32 {
        self.width
    }

    /// libvpx's height of the frame (first spatial layer).
    pub closed spec fn spec_height(&self) -> u32 {
        self.height
    }

    /// libvpx's frame flags.
    pub closed spec fn spec_flags(&self) -> u32 {
        self.flags
    }

    /// An encoded frame with the data, size and flags of a libvpx frame packet.
    pub fn new(data: &'a [u8], width: u32, height: u32, flags: u32) -> (f: Self)
        ensures
            f.spec_data() == data@,
            f.spec_width() == width,
            f.spec_height() == height,
            f.spec_flags() == flags,
    {
        EncodedFrame { data, width, height, flags }
    }

    /// The compressed data.
    pub fn data(&self) -> (d: &'a [u8])
        ensures
            d@ == self.spec_data(),
    {
        self.data
    }

    /// The width of the frame, truncated to 16 bits.
    pub fn width(&self) -> (w: u16)
        ensures
            w == self.spec_width() as u16,
    {
        self.width as u16
    }

    /// The height of the frame, truncated to 16 bits.
    pub fn height(&self) -> (h: u16)
        ensures
            h == self.spec_height() as u16,
    {
        self.height as u16
    }

    /// Whether the frame is a keyframe (its `VPX_FRAME_IS_KEY` flag is set).
    pub fn is_keyframe(&self) -> (b: bool)
        ensures
            b == (self.spec_flags() & VPX_FRAME_IS_KEY != 0),
    {
        (self.flags & VPX_FRAME_IS_KEY) != 0
    }
}

/// Reconfiguring a new encoder with the parameters of its own settings
/// passes the checks and changes nothing: a new encoder and a
/// reconfiguration apply the same checks the same way.
pub proof fn lemma_new_settings_reapply(config: EncoderConfig)
    requires
        encoder_config_error(config) is None,
    ensures
        params_error(encoder_cfg_of(config), params_of_config(config)) is None,
        merged_cfg(encoder_cfg_of(config), params_of_config(config)) == encoder_cfg_of(config),
{
    crate::params::lemma_merge_idempotent(initial_cfg(config), params_of_config(config));
}

/// An image matches the expected plane sizes exactly when each of its planes
/// has the size expected of that plane: Y, U and V for the three-plane
/// formats, Y and interleaved UV for NV12; a three-plane image never matches
/// two-plane sizes, nor NV12 data three-plane sizes.
pub proof fn lemma_planes_match_sizes(
    y: &[u8],
    u: &[u8],
    v: &[u8],
    y_size: usize,
    u_size: usize,
    v_size: usize,
)
    ensures
        planes_match(ImageData::I420 { y, u, v }, PlaneSizes::ThreePlanes { y_size, u_size, v_size })
            <==> (y@.len() == y_size && u@.len() == u_size && v@.len() == v_size),
        !planes_match(ImageData::I420 { y, u, v }, PlaneSizes::TwoPlanes { y_size, uv_size: u_size }),
        planes_match(ImageData::Yv12 { y, u, v }, PlaneSizes::ThreePlanes { y_size, u_size, v_size })
            <==> (y@.len() == y_size && u@.len() == u_size && v@.len() == v_size),
        !planes_match(ImageData::Yv12 { y, u, v }, PlaneSizes::TwoPlanes { y_size, uv_size: u_size }),
        planes_match(ImageData::I422 { y, u, v }, PlaneSizes::ThreePlanes { y_size, u_size, v_size })
            <==> (y@.len() == y_size && u@.len() == u_size && v@.len() == v_size),
        !planes_match(ImageData::I422 { y, u, v }, PlaneSizes::TwoPlanes { y_size, uv_size: u_size }),
        planes_match(ImageData::I444 { y, u, v }, PlaneSizes::ThreePlanes { y_size, u_size, v_size })
            <==> (y@.len() == y_size && u@.len() == u_size && v@.len() == v_size),
        !planes_match(ImageData::I444 { y, u, v }, PlaneSizes::TwoPlanes { y_size, uv_size: u_size }),
        planes_match(ImageData::I440 { y, u, v }, PlaneSizes::ThreePlanes { y_size, u_size, v_size })
            <==> (y@.len() == y_size && u@.len() == u_size && v@.len() == v_size),
        !planes_match(ImageData::I440 { y, u, v }, PlaneSizes::TwoPlanes { y_size, uv_size: u_size }),
        planes_match(ImageData::I42016 { y, u, v }, PlaneSizes::ThreePlanes { y_size, u_size, v_size })
            <==> (y@.len() == y_size && u@.len() == u_size && v@.len() == v_size),
        !planes_match(ImageData::I42016 { y, u, v }, PlaneSizes::TwoPlanes { y_size, uv_size: u_size }),
        planes_match(ImageData::I42216 { y, u, v }, PlaneSizes::ThreePlanes { y_size, u_size, v_size })
            <==> (y@.len() == y_size && u@.len() == u_size && v@.len() == v_size),
        !planes_match(ImageData::I42216 { y, u, v }, PlaneSizes::TwoPlanes { y_size, uv_size: u_size }),
        planes_match(ImageData::I44416 { y, u, v }, PlaneSizes::ThreePlanes { y_size, u_size, v_size })
            <==> (y@.len() == y_size && u@.len() == u_size && v@.len() == v_size),
        !planes_match(ImageData::I44416 { y, u, v }, PlaneSizes::TwoPlanes { y_size, uv_size: u_size }),
        planes_match(ImageData::I44016 { y, u, v }, PlaneSizes::ThreePlanes { y_size, u_size, v_size })
            <==> (y@.len() == y_size && u@.len() == u_size && v@.len() == v_size),
        !planes_match(ImageData::I44016 { y, u, v }, PlaneSizes::TwoPlanes { y_size, uv_size: u_size }),
        planes_match(ImageData::Nv12 { y, uv: u }, PlaneSizes::TwoPlanes { y_size, uv_size: u_size })
            <==> (y@.len() == y_size && u@.len() == u_size),
        !planes_match(ImageData::Nv12 { y, uv: u }, PlaneSizes::ThreePlanes { y_size, u_size, v_size }),
{
}

/// libvpx's deadlines: 0 (best quality), 1_000_000 microseconds (good
/// quality), 1 microsecond (real time).
pub proof fn lemma_deadline_values()
    ensures
        deadline_usecs(EncodingDeadline::Best) == 0,
        deadline_usecs(EncodingDeadline::Good) == 1_000_000,
        deadline_usecs(EncodingDeadline::Realtime) == 1,
{
}

/// The reason of refused encoder settings names the first setting out of
/// range: the width, the height, then the bitrate, frame rate and quantizers
/// (as a change of them would be refused), the CQ level, the look-ahead, the
/// thread count and the frame drop threshold.
pub proof fn lemma_encoder_config_error_reasons(config: EncoderConfig)
    ensures
        config.width > u32::MAX ==> encoder_config_error(config) == Some("width is out of range"),
        config.width <= u32::MAX && config.height > u32::MAX ==> encoder_config_error(config)
            == Some("height is out of range"),
        config.width <= u32::MAX && config.height <= u32::MAX && params_error(
            initial_cfg(config),
            params_of_config(config),
        ) is Some ==> encoder_config_error(config) == params_error(
            initial_cfg(config),
            params_of_config(config),
        ),
        config.width <= u32::MAX && config.height <= u32::MAX && params_error(
            initial_cfg(config),
            params_of_config(config),
        ) is None && config.cq_level > 63 ==> encoder_config_error(config) == Some(
            "cq_level must not exceed 63",
        ),
        config.width <= u32::MAX && config.height <= u32::MAX && params_error(
            initial_cfg(config),
            params_of_config(config),
        ) is None && config.cq_level <= 63 && (config.lag_in_frames matches Some(l)
            && l.spec_get() > u32::MAX) ==> encoder_config_error(config) == Some(
            "lag_in_frames is out of range",
        ),
        config.width <= u32::MAX && config.height <= u32::MAX && params_error(
            initial_cfg(config),
            params_of_config(config),
        ) is None && config.cq_level <= 63 && !(config.lag_in_frames matches Some(l)
            && l.spec_get() > u32::MAX) && (config.threads matches Some(t) && t.spec_get()
            > u32::MAX) ==> encoder_config_error(config) == Some("threads is out of range"),
        config.width <= u32::MAX && config.height <= u32::MAX && params_error(
            initial_cfg(config),
            params_of_config(config),
        ) is None && config.cq_level <= 63 && !(config.lag_in_frames matches Some(l)
            && l.spec_get() > u32::MAX) && !(config.threads matches Some(t) && t.spec_get()
            > u32::MAX) && (config.frame_drop_threshold matches Some(t) && t > u32::MAX)
            ==> encoder_config_error(config) == Some("frame_drop_threshold is out of range"),
{
}

} // verus!
