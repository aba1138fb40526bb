//! The encoder settings that this library hands to libvpx, and the checks
//! that every change of them goes through.
use vstd::prelude::*;

use crate::config::{NonZeroUsize, RateControlMode, ReconfigureParams};
use crate::error::{invalid_param, Error, CODEC_INVALID_PARAM};

verus! {

/// Upper bound of libvpx's `g_timebase.num` and `g_timebase.den`
/// (`RANGE_CHECK(cfg, g_timebase.{num,den}, 1, 1000000000)` in libvpx's
/// `validate_config()`).
pub const VPX_MAX_TIMEBASE: usize = 1_000_000_000;

/// Upper bound of libvpx's `rc_max_quantizer` (63).
pub const VPX_MAX_QUANTIZER: u32 = 63;

/// Upper bound of libvpx's `rc_target_bitrate`, in kbps; libvpx silently
/// clips larger values.
pub const VPX_MAX_TARGET_BITRATE_KBPS: u32 = 1_000_000;

/// `VPX_MAX_TARGET_BITRATE_KBPS` in bits per second. Bitrates are given in
/// bps and divided by 1000, so larger bps values are refused before the
/// division could hide them.
pub const VPX_MAX_TARGET_BITRATE_BPS: usize = 1_000_000_000;

/// The fields of libvpx's `vpx_codec_enc_cfg` that this library sets.
///
/// A field in an `Option` is one that is set only in some cases: `None`
/// there leaves libvpx's default value in place.
#[derive(Debug, Clone, Copy, PartialEq, Eq)]
pub struct EncoderCfg {
    /// `g_w`: width of the images.
    pub g_w: u32,
    /// `g_h`: height of the images.
    pub g_h: u32,
    /// `g_profile`: the bitstream profile.
    pub g_profile: Option<u32>,
    /// `rc_target_bitrate`: the target bitrate, in kbps.
    pub rc_target_bitrate: u32,
    /// `g_timebase.num`: numerator of the duration of one frame, in seconds.
    pub g_timebase_num: i32,
    /// `g_timebase.den`: denominator of the duration of one frame, in seconds.
    pub g_timebase_den: i32,
    /// `rc_min_quantizer`.
    pub rc_min_quantizer: u32,
    /// `rc_max_quantizer`.
    pub rc_max_quantizer: u32,
    /// `kf_max_dist`: the maximum distance between keyframes.
    pub kf_max_dist: Option<u32>,
    /// `g_lag_in_frames`: the number of frames to look ahead (0: none).
    pub g_lag_in_frames: u32,
    /// `g_threads`.
    pub g_threads: Option<u32>,
    /// `g_error_resilient`: set to 1 where `true`.
    pub g_error_resilient: bool,
    /// `rc_dropframe_thresh`.
    pub rc_dropframe_thresh: Option<u32>,
    /// `rc_end_usage`: the rate control mode.
    pub rc_end_usage: RateControlMode,
}

/// Settings that libvpx takes without clipping anything: a bitrate of 1 to
/// 1_000_000 kbps, a time base whose both parts lie in 1..=1_000_000_000, and
/// `rc_min_quantizer <= rc_max_quantizer <= 63`.
pub open spec fn cfg_wf(cfg: EncoderCfg) -> bool {
    &&& 1 <= cfg.rc_target_bitrate <= VPX_MAX_TARGET_BITRATE_KBPS
    &&& 1 <= cfg.g_timebase_num <= VPX_MAX_TIMEBASE
    &&& 1 <= cfg.g_timebase_den <= VPX_MAX_TIMEBASE
    &&& cfg.rc_min_quantizer <= cfg.rc_max_quantizer <= VPX_MAX_QUANTIZER
}

/// Why a target bitrate, given in bps, is refused, if it is.
pub open spec fn bitrate_error(target_bitrate: Option<usize>) -> Option<&'static str> {
    match target_bitrate {
        Some(bps) => if bps > VPX_MAX_TARGET_BITRATE_BPS {
            Some("target_bitrate exceeds libvpx maximum (1_000_000_000 bps)")
        } else if bps < 1000 {
            Some("target_bitrate must be at least 1000 bps (libvpx kbps resolution)")
        } else {
            None
        },
        None => None,
    }
}

/// Why a frame rate is refused, if it is.
pub open spec fn fps_error(num: Option<usize>, den: Option<usize>) -> Option<&'static str> {
    match (num, den) {
        (Some(n), Some(d)) => if n == 0 {
            Some("fps_numerator must be non-zero")
        } else if d == 0 {
            Some("fps_denominator must be non-zero")
        } else if n > VPX_MAX_TIMEBASE {
            Some("fps_numerator exceeds libvpx maximum (1_000_000_000)")
        } else if d > VPX_MAX_TIMEBASE {
            Some("fps_denominator exceeds libvpx maximum (1_000_000_000)")
        } else {
            None
        },
        (None, None) => None,
        _ => Some("fps_numerator and fps_denominator must be set together"),
    }
}

/// The minimum quantizer after the change: the given one, else the current one.
pub open spec fn next_min_quantizer(cfg: EncoderCfg, params: ReconfigureParams) -> int {
    match params.min_quantizer {
        Some(q) => q as int,
        None => cfg.rc_min_quantizer as int,
    }
}

/// The maximum quantizer after the change: the given one, else the current one.
pub open spec fn next_max_quantizer(cfg: EncoderCfg, params: ReconfigureParams) -> int {
    match params.max_quantizer {
        Some(q) => q as int,
        None => cfg.rc_max_quantizer as int,
    }
}

/// Why a quantizer range is refused, if it is. The range is checked as it
/// stands after the change: a quantizer that is not given keeps its current
/// value and is checked against the other.
pub open spec fn quantizer_error(cfg: EncoderCfg, params: ReconfigureParams) -> Option<
    &'static str,
> {
    if params.min_quantizer matches Some(q) && q > u32::MAX {
        Some("min_quantizer is out of range")
    } else if params.max_quantizer matches Some(q) && q > u32::MAX {
        Some("max_quantizer is out of range")
    } else if next_max_quantizer(cfg, params) > VPX_MAX_QUANTIZER {
        Some("max_quantizer must not exceed 63")
    } else if next_min_quantizer(cfg, params) > next_max_quantizer(cfg, params) {
        Some("min_quantizer must not exceed max_quantizer")
    } else {
        None
    }
}

/// Why a keyframe interval is refused, if it is.
pub open spec fn keyframe_error(interval: Option<NonZeroUsize>) -> Option<&'static str> {
    if interval matches Some(k) && k.spec_get() > u32::MAX {
        Some("keyframe_interval is out of range")
    } else {
        None
    }
}

/// Why `params` cannot be applied to `cfg`, if they cannot: the first of the
/// checks of the bitrate, the frame rate, the quantizer range and the
/// keyframe interval, in that order, that refuses them.
pub open spec fn params_error(cfg: EncoderCfg, params: ReconfigureParams) -> Option<&'static str> {
    if bitrate_error(params.target_bitrate) is Some {
        bitrate_error(params.target_bitrate)
    } else if fps_error(params.fps_numerator, params.fps_denominator) is Some {
        fps_error(params.fps_numerator, params.fps_denominator)
    } else if quantizer_error(cfg, params) is Some {
        quantizer_error(cfg, params)
    } else {
        keyframe_error(params.keyframe_interval)
    }
}

/// `cfg` with every field that `params` gives replaced: the bitrate in kbps
/// (bps / 1000), the time base as the inverse of the frame rate
/// (denominator / numerator), the quantizers and the keyframe distance.
pub open spec fn merged_cfg(cfg: EncoderCfg, params: ReconfigureParams) -> EncoderCfg {
    EncoderCfg {
        rc_target_bitrate: match params.target_bitrate {
            Some(bps) => (bps / 1000) as u32,
            None => cfg.rc_target_bitrate,
        },
        g_timebase_num: match (params.fps_numerator, params.fps_denominator) {
            (Some(_), Some(d)) => d as i32,
            _ => cfg.g_timebase_num,
        },
        g_timebase_den: match (params.fps_numerator, params.fps_denominator) {
            (Some(n), Some(_)) => n as i32,
            _ => cfg.g_timebase_den,
        },
        rc_min_quantizer: match params.min_quantizer {
            Some(q) => q as u32,
            None => cfg.rc_min_quantizer,
        },
        rc_max_quantizer: match params.max_quantizer {
            Some(q) => q as u32,
            None => cfg.rc_max_quantizer,
        },
        kf_max_dist: match params.keyframe_interval {
            Some(k) => Some(k.spec_get() as u32),
            None => cfg.kf_max_dist,
        },
        ..cfg
    }
}

/// Checks `params` and applies them to `cfg`.
///
/// Shared by the making of an encoder and by its reconfiguration; `function`
/// names the caller in the error. Every value that libvpx would silently clip
/// is refused with `CODEC_INVALID_PARAM`. The quantizer range is checked as
/// it stands after the change, so a minimum given alone is checked against
/// the current maximum.
pub fn merge_reconfigure_params_into_cfg(
    cfg: &EncoderCfg,
    params: &ReconfigureParams,
    function: &'static str,
) -> (res: Result<EncoderCfg, Error>)
    ensures
        res matches Ok(c) ==> params_error(*cfg, *params) is None && c == merged_cfg(*cfg, *params)
            && applies_params(*cfg, *params, c),
        res matches Err(e) ==> {
            &&& params_error(*cfg, *params) is Some
            &&& e.spec_reason() == params_error(*cfg, *params)
            &&& e.spec_code() == CODEC_INVALID_PARAM
            &&& e.spec_function() == function
            &&& e.spec_detail() is None
        },
{
    let mut new_cfg = *cfg;

    if let Some(target_bitrate) = params.target_bitrate {
        if target_bitrate > VPX_MAX_TARGET_BITRATE_BPS {
            return Err(
                invalid_param(function, "target_bitrate exceeds libvpx maximum (1_000_000_000 bps)"),
            );
        }
        let kbps = target_bitrate / 1000;
        if kbps == 0 {
            return Err(
                invalid_param(
                    function,
                    "target_bitrate must be at least 1000 bps (libvpx kbps resolution)",
                ),
            );
        }
        new_cfg.rc_target_bitrate = kbps as u32;
    }

    match (params.fps_numerator, params.fps_denominator) {
        (Some(num), Some(den)) => {
            if num == 0 {
                return Err(invalid_param(function, "fps_numerator must be non-zero"));
            }
            if den == 0 {
                return Err(invalid_param(function, "fps_denominator must be non-zero"));
            }
            if num > VPX_MAX_TIMEBASE {
                return Err(
                    invalid_param(function, "fps_numerator exceeds libvpx maximum (1_000_000_000)"),
                );
            }
            if den > VPX_MAX_TIMEBASE {
                return Err(
                    invalid_param(
                        function,
                        "fps_denominator exceeds libvpx maximum (1_000_000_000)",
                    ),
                );
            }
            // The time base is the duration of one frame, in seconds.
            new_cfg.g_timebase_num = den as i32;
            new_cfg.g_timebase_den = num as i32;
        },
        (None, None) => {},
        _ => {
            return Err(
                invalid_param(function, "fps_numerator and fps_denominator must be set together"),
            );
        },
    }

    if let Some(min_quantizer) = params.min_quantizer {
        if min_quantizer > u32::MAX as usize {
            return Err(invalid_param(function, "min_quantizer is out of range"));
        }
        new_cfg.rc_min_quantizer = min_quantizer as u32;
    }

    if let Some(max_quantizer) = params.max_quantizer {
        if max_quantizer > u32::MAX as usize {
            return Err(invalid_param(function, "max_quantizer is out of range"));
        }
        new_cfg.rc_max_quantizer = max_quantizer as u32;
    }

    if new_cfg.rc_max_quantizer > VPX_MAX_QUANTIZER {
        return Err(invalid_param(function, "max_quantizer must not exceed 63"));
    }

    if new_cfg.rc_min_quantizer > new_cfg.rc_max_quantizer {
        return Err(invalid_param(function, "min_quantizer must not exceed max_quantizer"));
    }

    if let Some(kf_interval) = params.keyframe_interval {
        let k = kf_interval.get();
        if k > u32::MAX as usize {
            return Err(invalid_param(function, "keyframe_interval is out of range"));
        }
        new_cfg.kf_max_dist = Some(k as u32);
    }

    proof {
        lemma_merge_changes_only_given_fields(*cfg, *params);
    }
    Ok(new_cfg)
}

/// A change that passes the checks keeps the settings well formed: a
/// bitrate of 1 to 1_000_000 kbps, a time base within libvpx's range, and
/// `min_quantizer <= max_quantizer <= 63`.
pub proof fn lemma_merge_keeps_wf(cfg: EncoderCfg, params: ReconfigureParams)
    requires
        cfg_wf(cfg),
        params_error(cfg, params) is None,
    ensures
        cfg_wf(merged_cfg(cfg, params)),
{
}

/// Applying the same change twice is the same as applying it once: the
/// second application passes the checks and changes nothing more.
pub proof fn lemma_merge_idempotent(cfg: EncoderCfg, params: ReconfigureParams)
    requires
        params_error(cfg, params) is None,
    ensures
        params_error(merged_cfg(cfg, params), params) is None,
        merged_cfg(merged_cfg(cfg, params), params) == merged_cfg(cfg, params),
{
}

/// Parameters with no field given pass the checks of well-formed settings and
/// change nothing.
pub proof fn lemma_empty_params_change_nothing(cfg: EncoderCfg, params: ReconfigureParams)
    requires
        cfg_wf(cfg),
        crate::config::params_empty(params),
    ensures
        params_error(cfg, params) is None,
        merged_cfg(cfg, params) == cfg,
{
}

/// A bitrate given in bps is taken exactly when it lies in
/// 1000..=1_000_000_000, and is then set in whole kbps (bps / 1000), within
/// libvpx's 1..=1_000_000 kbps, so that libvpx never clips it.
pub proof fn lemma_bitrate_in_kbps(cfg: EncoderCfg, params: ReconfigureParams, bps: usize)
    requires
        params.target_bitrate == Some(bps),
    ensures
        bitrate_error(params.target_bitrate) is None <==> 1000 <= bps <= VPX_MAX_TARGET_BITRATE_BPS,
        params_error(cfg, params) is None ==> {
            &&& merged_cfg(cfg, params).rc_target_bitrate == bps / 1000
            &&& 1 <= merged_cfg(cfg, params).rc_target_bitrate <= VPX_MAX_TARGET_BITRATE_KBPS
        },
{
}

/// A frame rate is taken exactly when its numerator and denominator are both
/// given and both lie in 1..=1_000_000_000; the time base is then its inverse
/// (the duration of one frame): `g_timebase = fps_denominator / fps_numerator`.
pub proof fn lemma_frame_rate_sets_inverse_timebase(
    cfg: EncoderCfg,
    params: ReconfigureParams,
    num: usize,
    den: usize,
)
    requires
        params.fps_numerator == Some(num),
        params.fps_denominator == Some(den),
    ensures
        fps_error(params.fps_numerator, params.fps_denominator) is None <==> (1 <= num
            <= VPX_MAX_TIMEBASE && 1 <= den <= VPX_MAX_TIMEBASE),
        params_error(cfg, params) is None ==> {
            &&& merged_cfg(cfg, params).g_timebase_num == den
            &&& merged_cfg(cfg, params).g_timebase_den == num
        },
{
}

/// A minimum quantizer given alone is checked against the current maximum:
/// with nothing else to refuse, the change passes exactly when the new
/// minimum does not exceed the maximum in force.
pub proof fn lemma_min_alone_checked_against_current_max(
    cfg: EncoderCfg,
    params: ReconfigureParams,
    min: usize,
)
    requires
        cfg_wf(cfg),
        params.min_quantizer == Some(min),
        params.max_quantizer is None,
        bitrate_error(params.target_bitrate) is None,
        fps_error(params.fps_numerator, params.fps_denominator) is None,
        keyframe_error(params.keyframe_interval) is None,
    ensures
        params_error(cfg, params) is None <==> min <= cfg.rc_max_quantizer,
        cfg.rc_max_quantizer < min <= u32::MAX ==> params_error(cfg, params) == Some(
            "min_quantizer must not exceed max_quantizer",
        ),
{
}

/// `new` is `old` with exactly the fields that `params` gives changed: a
/// field not given keeps its value; a given bitrate becomes whole kbps, a
/// given frame rate becomes its inverse as time base, given quantizers and
/// keyframe interval are taken as they are; the fields outside the
/// parameters (size, profile, look-ahead, threads, error resilience, frame
/// dropping, rate control) never change.
pub open spec fn applies_params(old: EncoderCfg, params: ReconfigureParams, new: EncoderCfg) -> bool {
    &&& (params.target_bitrate is None ==> new.rc_target_bitrate == old.rc_target_bitrate)
    &&& (params.target_bitrate matches Some(b) ==> new.rc_target_bitrate * 1000 <= b < (
    new.rc_target_bitrate + 1) * 1000)
    &&& (params.fps_numerator is None ==> new.g_timebase_den == old.g_timebase_den
        && new.g_timebase_num == old.g_timebase_num)
    &&& (params.fps_numerator matches Some(n) ==> new.g_timebase_den == n)
    &&& (params.fps_denominator matches Some(d) ==> new.g_timebase_num == d)
    &&& (params.min_quantizer is None ==> new.rc_min_quantizer == old.rc_min_quantizer)
    &&& (params.min_quantizer matches Some(q) ==> new.rc_min_quantizer == q)
    &&& (params.max_quantizer is None ==> new.rc_max_quantizer == old.rc_max_quantizer)
    &&& (params.max_quantizer matches Some(q) ==> new.rc_max_quantizer == q)
    &&& (params.keyframe_interval is None ==> new.kf_max_dist == old.kf_max_dist)
    &&& (params.keyframe_interval matches Some(k) ==> (new.kf_max_dist matches Some(v) && v
        == k.spec_get()))
    &&& new.g_w == old.g_w
    &&& new.g_h == old.g_h
    &&& new.g_profile == old.g_profile
    &&& new.g_lag_in_frames == old.g_lag_in_frames
    &&& new.g_threads == old.g_threads
    &&& new.g_error_resilient == old.g_error_resilient
    &&& new.rc_dropframe_thresh == old.rc_dropframe_thresh
    &&& new.rc_end_usage == old.rc_end_usage
}

/// A change that passes the checks changes exactly the fields it gives.
pub proof fn lemma_merge_changes_only_given_fields(cfg: EncoderCfg, params: ReconfigureParams)
    requires
        params_error(cfg, params) is None,
    ensures
        applies_params(cfg, params, merged_cfg(cfg, params)),
{
}

/// The checks of a change refuse it exactly when a given value is out of
/// libvpx's range: a bitrate outside 1000..=1_000_000_000 bps; only one part
/// of the frame rate, or a part outside 1..=1_000_000_000; a quantizer beyond
/// `u32`; a quantizer range, as it stands after the change (a quantizer not
/// given keeps its value), other than `min <= max <= 63`; a keyframe
/// interval beyond `u32`.
pub proof fn lemma_params_accepted_exactly(cfg: EncoderCfg, params: ReconfigureParams)
    ensures
        params_error(cfg, params) is None <==> {
            &&& (params.target_bitrate matches Some(b) ==> 1000 <= b <= 1_000_000_000)
            &&& (params.fps_numerator is Some <==> params.fps_denominator is Some)
            &&& (params.fps_numerator matches Some(n) ==> 1 <= n <= 1_000_000_000)
            &&& (params.fps_denominator matches Some(d) ==> 1 <= d <= 1_000_000_000)
            &&& (params.min_quantizer matches Some(q) ==> q <= u32::MAX)
            &&& (params.max_quantizer matches Some(q) ==> q <= 63)
            &&& (params.max_quantizer is None ==> cfg.rc_max_quantizer <= 63)
            &&& (match (params.min_quantizer, params.max_quantizer) {
                (Some(lo), Some(hi)) => lo <= hi,
                (Some(lo), None) => lo <= cfg.rc_max_quantizer,
                (None, Some(hi)) => cfg.rc_min_quantizer <= hi,
                (None, None) => cfg.rc_min_quantizer <= cfg.rc_max_quantizer,
            })
            &&& (params.keyframe_interval matches Some(k) ==> k.spec_get() <= u32::MAX)
        },
{
}

/// The bitrate, where given, lies in 1000..=1_000_000_000 bps.
pub open spec fn bitrate_in_range(params: ReconfigureParams) -> bool {
    params.target_bitrate matches Some(b) ==> 1000 <= b <= 1_000_000_000
}

/// The frame rate is given whole or not at all, each part in
/// 1..=1_000_000_000.
pub open spec fn frame_rate_in_range(params: ReconfigureParams) -> bool {
    &&& (params.fps_numerator is Some <==> params.fps_denominator is Some)
    &&& (params.fps_numerator matches Some(n) ==> 1 <= n <= 1_000_000_000)
    &&& (params.fps_denominator matches Some(d) ==> 1 <= d <= 1_000_000_000)
}

/// The quantizers given fit in `u32`.
pub open spec fn quantizers_fit(params: ReconfigureParams) -> bool {
    &&& (params.min_quantizer matches Some(q) ==> q <= u32::MAX)
    &&& (params.max_quantizer matches Some(q) ==> q <= u32::MAX)
}

/// The reason of a refused change names the first setting out of range, in
/// the order bitrate, frame rate, quantizers, keyframe interval.
pub proof fn lemma_params_error_reasons(cfg: EncoderCfg, params: ReconfigureParams)
    ensures
        params.target_bitrate matches Some(b) && b > 1_000_000_000 ==> params_error(cfg, params)
            == Some("target_bitrate exceeds libvpx maximum (1_000_000_000 bps)"),
        params.target_bitrate matches Some(b) && b < 1000 ==> params_error(cfg, params) == Some(
            "target_bitrate must be at least 1000 bps (libvpx kbps resolution)",
        ),
        bitrate_in_range(params) && (params.fps_numerator is Some != params.fps_denominator is Some)
            ==> params_error(cfg, params) == Some(
            "fps_numerator and fps_denominator must be set together",
        ),
        bitrate_in_range(params) && params.fps_numerator == Some(0usize)
            && params.fps_denominator is Some ==> params_error(cfg, params) == Some(
            "fps_numerator must be non-zero",
        ),
        bitrate_in_range(params) && (params.fps_numerator matches Some(n) && n != 0)
            && params.fps_denominator == Some(0usize) ==> params_error(cfg, params) == Some(
            "fps_denominator must be non-zero",
        ),
        bitrate_in_range(params) && (params.fps_numerator matches Some(n) && n > 1_000_000_000)
            && (params.fps_denominator matches Some(d) && d != 0) ==> params_error(cfg, params)
            == Some("fps_numerator exceeds libvpx maximum (1_000_000_000)"),
        bitrate_in_range(params) && (params.fps_numerator matches Some(n) && 1 <= n
            <= 1_000_000_000) && (params.fps_denominator matches Some(d) && d > 1_000_000_000)
            ==> params_error(cfg, params) == Some(
            "fps_denominator exceeds libvpx maximum (1_000_000_000)",
        ),
        bitrate_in_range(params) && frame_rate_in_range(params) && (params.min_quantizer matches Some(
            q,
        ) && q > u32::MAX) ==> params_error(cfg, params) == Some("min_quantizer is out of range"),
        bitrate_in_range(params) && frame_rate_in_range(params) && !(params.min_quantizer matches Some(
            q,
        ) && q > u32::MAX) && (params.max_quantizer matches Some(q) && q > u32::MAX)
            ==> params_error(cfg, params) == Some("max_quantizer is out of range"),
        bitrate_in_range(params) && frame_rate_in_range(params) && quantizers_fit(params)
            && next_max_quantizer(cfg, params) > 63 ==> params_error(cfg, params) == Some(
            "max_quantizer must not exceed 63",
        ),
        bitrate_in_range(params) && frame_rate_in_range(params) && quantizers_fit(params)
            && next_max_quantizer(cfg, params) <= 63 && next_min_quantizer(cfg, params)
            > next_max_quantizer(cfg, params) ==> params_error(cfg, params) == Some(
            "min_quantizer must not exceed max_quantizer",
        ),
        bitrate_in_range(params) && frame_rate_in_range(params) && quantizers_fit(params)
            && next_min_quantizer(cfg, params) <= next_max_quantizer(cfg, params) <= 63
            && (params.keyframe_interval matches Some(k) && k.spec_get() > u32::MAX)
            ==> params_error(cfg, params) == Some("keyframe_interval is out of range"),
{
}

} // verus!
