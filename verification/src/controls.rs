//! The codec controls (`vpx_codec_control_` calls) that an encoder's settings
//! ask for, in the order in which they are sent.
use vstd::prelude::*;

use crate::config::{ArnrConfig, CodecConfig, ContentType, EncoderConfig, Vp8Config, Vp9Config};

verus! {

/// One codec control and the value it is sent with.
#[derive(Debug, Clone, Copy, PartialEq, Eq, Structural)]
pub enum EncoderControl {
    /// `VP8E_SET_CQ_LEVEL` (used by VP8 and VP9).
    CqLevel(u32),
    /// `VP8E_SET_CPUUSED` (used by VP8 and VP9).
    CpuUsed(usize),
    /// `VP9E_SET_AQ_MODE`.
    Vp9AqMode(i32),
    /// `VP9E_SET_NOISE_SENSITIVITY`.
    Vp9NoiseSensitivity(i32),
    /// `VP9E_SET_TILE_COLUMNS`.
    Vp9TileColumns(i32),
    /// `VP9E_SET_TILE_ROWS`.
    Vp9TileRows(i32),
    /// `VP9E_SET_ROW_MT`.
    Vp9RowMt(i32),
    /// `VP9E_SET_FRAME_PARALLEL_DECODING`.
    Vp9FrameParallelDecoding(i32),
    /// `VP9E_SET_TUNE_CONTENT`.
    Vp9TuneContent(ContentType),
    /// `VP8E_SET_NOISE_SENSITIVITY`.
    Vp8NoiseSensitivity(i32),
    /// `VP8E_SET_STATIC_THRESHOLD`.
    Vp8StaticThreshold(i32),
    /// `VP8E_SET_TOKEN_PARTITIONS`.
    Vp8TokenPartitions(i32),
    /// `VP8E_SET_MAX_INTRA_BITRATE_PCT`.
    Vp8MaxIntraBitratePct(i32),
    /// `VP8E_SET_ENABLEAUTOALTREF`.
    Vp8EnableAutoAltRef(i32),
    /// `VP8E_SET_ARNR_MAXFRAMES`.
    Vp8ArnrMaxFrames(i32),
    /// `VP8E_SET_ARNR_STRENGTH`.
    Vp8ArnrStrength(i32),
    /// `VP8E_SET_ARNR_TYPE`.
    Vp8ArnrType(i32),
}

/// The one control `c` where `o` holds a value, else nothing.
pub open spec fn control_if(o: Option<i32>, c: spec_fn(i32) -> EncoderControl) -> Seq<
    EncoderControl,
> {
    match o {
        Some(v) => seq![c(v)],
        None => seq![],
    }
}

/// The controls of the VP9 settings: adaptive quantization, denoiser, tile
/// columns, tile rows (each where given), row multi-threading and
/// frame-parallel decoding (each where enabled, with value 1), and the
/// content type (where given).
pub open spec fn vp9_plan(c: Vp9Config) -> Seq<EncoderControl> {
    control_if(c.aq_mode, |v| EncoderControl::Vp9AqMode(v))
        + control_if(c.noise_sensitivity, |v| EncoderControl::Vp9NoiseSensitivity(v))
        + control_if(c.tile_columns, |v| EncoderControl::Vp9TileColumns(v))
        + control_if(c.tile_rows, |v| EncoderControl::Vp9TileRows(v))
        + (if c.row_mt { seq![EncoderControl::Vp9RowMt(1)] } else { seq![] })
        + (if c.frame_parallel_decoding {
        seq![EncoderControl::Vp9FrameParallelDecoding(1)]
    } else {
        seq![]
    }) + (match c.tune_content {
        Some(t) => seq![EncoderControl::Vp9TuneContent(t)],
        None => seq![],
    })
}

/// The controls of the ARNR filter settings: enable the automatic alternate
/// reference frame, then the maximum frame count, the strength and the type.
pub open spec fn arnr_plan(c: ArnrConfig) -> Seq<EncoderControl> {
    seq![
        EncoderControl::Vp8EnableAutoAltRef(1),
        EncoderControl::Vp8ArnrMaxFrames(c.max_frames),
        EncoderControl::Vp8ArnrStrength(c.strength),
        EncoderControl::Vp8ArnrType(c.filter_type),
    ]
}

/// The controls of the VP8 settings: denoiser, static threshold, token
/// partitions, maximum intra bitrate (each where given), then the ARNR
/// filter (where given).
pub open spec fn vp8_plan(c: Vp8Config) -> Seq<EncoderControl> {
    control_if(c.noise_sensitivity, |v| EncoderControl::Vp8NoiseSensitivity(v))
        + control_if(c.static_threshold, |v| EncoderControl::Vp8StaticThreshold(v))
        + control_if(c.token_partitions, |v| EncoderControl::Vp8TokenPartitions(v))
        + control_if(c.max_intra_bitrate_pct, |v| EncoderControl::Vp8MaxIntraBitratePct(v))
        + (match c.arnr_config {
        Some(a) => arnr_plan(a),
        None => seq![],
    })
}

/// All controls of an encoder's settings: the CQ level, the CPU usage (where
/// given), then the codec's own.
pub open spec fn control_plan(config: EncoderConfig) -> Seq<EncoderControl> {
    seq![EncoderControl::CqLevel(config.cq_level as u32)] + (match config.cpu_used {
        Some(n) => seq![EncoderControl::CpuUsed(n)],
        None => seq![],
    }) + (match config.codec {
        CodecConfig::Vp8(c) => vp8_plan(c),
        CodecConfig::Vp9(c) => vp9_plan(c),
    })
}

/// The controls that the VP9 settings ask for, in order.
#[verifier::rlimit(40)]
pub fn configure_vp9(vp9_config: &Vp9Config) -> (controls: Vec<EncoderControl>)
    ensures
        controls@ == vp9_plan(*vp9_config),
{
    let mut controls: Vec<EncoderControl> = Vec::new();
    let ghost c = *vp9_config;
    if let Some(aq_mode) = vp9_config.aq_mode {
        controls.push(EncoderControl::Vp9AqMode(aq_mode));
    }
    assert(controls@ =~= control_if(c.aq_mode, |v| EncoderControl::Vp9AqMode(v)));
    let ghost s1 = controls@;
    if let Some(noise_sensitivity) = vp9_config.noise_sensitivity {
        controls.push(EncoderControl::Vp9NoiseSensitivity(noise_sensitivity));
    }
    assert(controls@ =~= s1 + control_if(
        c.noise_sensitivity,
        |v| EncoderControl::Vp9NoiseSensitivity(v),
    ));
    let ghost s2 = controls@;
    if let Some(tile_columns) = vp9_config.tile_columns {
        controls.push(EncoderControl::Vp9TileColumns(tile_columns));
    }
    assert(controls@ =~= s2 + control_if(c.tile_columns, |v| EncoderControl::Vp9TileColumns(v)));
    let ghost s3 = controls@;
    if let Some(tile_rows) = vp9_config.tile_rows {
        controls.push(EncoderControl::Vp9TileRows(tile_rows));
    }
    assert(controls@ =~= s3 + control_if(c.tile_rows, |v| EncoderControl::Vp9TileRows(v)));
    let ghost s4 = controls@;
    if vp9_config.row_mt {
        controls.push(EncoderControl::Vp9RowMt(1));
    }
    assert(controls@ =~= s4 + (if c.row_mt {
        seq![EncoderControl::Vp9RowMt(1)]
    } else {
        seq![]
    }));
    let ghost s5 = controls@;
    if vp9_config.frame_parallel_decoding {
        controls.push(EncoderControl::Vp9FrameParallelDecoding(1));
    }
    assert(controls@ =~= s5 + (if c.frame_parallel_decoding {
        seq![EncoderControl::Vp9FrameParallelDecoding(1)]
    } else {
        seq![]
    }));
    let ghost s6 = controls@;
    if let Some(tune_content) = vp9_config.tune_content {
        controls.push(EncoderControl::Vp9TuneContent(tune_content));
    }
    assert(controls@ =~= s6 + (match c.tune_content {
        Some(t) => seq![EncoderControl::Vp9TuneContent(t)],
        None => seq![],
    }));
    controls
}

/// The controls that the ARNR filter settings ask for, in order.
pub fn configure_vp8_arnr(arnr_config: &ArnrConfig) -> (controls: Vec<EncoderControl>)
    ensures
        controls@ == arnr_plan(*arnr_config),
{
    let mut controls: Vec<EncoderControl> = Vec::new();
    controls.push(EncoderControl::Vp8EnableAutoAltRef(1));
    controls.push(EncoderControl::Vp8ArnrMaxFrames(arnr_config.max_frames));
    controls.push(EncoderControl::Vp8ArnrStrength(arnr_config.strength));
    controls.push(EncoderControl::Vp8ArnrType(arnr_config.filter_type));
    assert(controls@ =~= arnr_plan(*arnr_config));
    controls
}

/// The controls that the VP8 settings ask for, in order.
pub fn configure_vp8(vp8_config: &Vp8Config) -> (controls: Vec<EncoderControl>)
    ensures
        controls@ == vp8_plan(*vp8_config),
{
    let mut controls: Vec<EncoderControl> = Vec::new();
    let ghost c = *vp8_config;
    if let Some(noise_sensitivity) = vp8_config.noise_sensitivity {
        controls.push(EncoderControl::Vp8NoiseSensitivity(noise_sensitivity));
    }
    assert(controls@ =~= control_if(
        c.noise_sensitivity,
        |v| EncoderControl::Vp8NoiseSensitivity(v),
    ));
    let ghost s1 = controls@;
    if let Some(static_threshold) = vp8_config.static_threshold {
        controls.push(EncoderControl::Vp8StaticThreshold(static_threshold));
    }
    assert(controls@ =~= s1 + control_if(
        c.static_threshold,
        |v| EncoderControl::Vp8StaticThreshold(v),
    ));
    let ghost s2 = controls@;
    if let Some(token_partitions) = vp8_config.token_partitions {
        controls.push(EncoderControl::Vp8TokenPartitions(token_partitions));
    }
    assert(controls@ =~= s2 + control_if(
        c.token_partitions,
        |v| EncoderControl::Vp8TokenPartitions(v),
    ));
    let ghost s3 = controls@;
    if let Some(max_intra_bitrate_pct) = vp8_config.max_intra_bitrate_pct {
        controls.push(EncoderControl::Vp8MaxIntraBitratePct(max_intra_bitrate_pct));
    }
    assert(controls@ =~= s3 + control_if(
        c.max_intra_bitrate_pct,
        |v| EncoderControl::Vp8MaxIntraBitratePct(v),
    ));
    let ghost s4 = controls@;
    if let Some(arnr_config) = &vp8_config.arnr_config {
        let mut arnr = configure_vp8_arnr(arnr_config);
        controls.append(&mut arnr);
    }
    assert(controls@ =~= s4 + (match c.arnr_config {
        Some(a) => arnr_plan(a),
        None => seq![],
    }));
    controls
}

/// The controls that an encoder's settings ask for, in order: the CQ level,
/// the CPU usage where given, then the codec's own.
pub fn encoder_controls(config: &EncoderConfig) -> (controls: Vec<EncoderControl>)
    requires
        config.cq_level <= 63,
    ensures
        controls@ == control_plan(*config),
{
    let mut controls: Vec<EncoderControl> = Vec::new();
    controls.push(EncoderControl::CqLevel(config.cq_level as u32));
    let ghost s1 = controls@;
    if let Some(cpu_used) = config.cpu_used {
        controls.push(EncoderControl::CpuUsed(cpu_used));
    }
    assert(controls@ =~= s1 + (match config.cpu_used {
        Some(n) => seq![EncoderControl::CpuUsed(n)],
        None => seq![],
    }));
    let ghost s2 = controls@;
    let mut codec_controls = match &config.codec {
        CodecConfig::Vp8(vp8_config) => configure_vp8(vp8_config),
        CodecConfig::Vp9(vp9_config) => configure_vp9(vp9_config),
    };
    controls.append(&mut codec_controls);
    assert(controls@ =~= control_plan(*config));
    controls
}

/// `ctl` is a VP9 control that `c` asks for, sent with the value `c` gives:
/// each control is named after its setting.
pub open spec fn vp9_asks(c: Vp9Config, ctl: EncoderControl) -> bool {
    match ctl {
        EncoderControl::Vp9AqMode(v) => c.aq_mode == Some(v),
        EncoderControl::Vp9NoiseSensitivity(v) => c.noise_sensitivity == Some(v),
        EncoderControl::Vp9TileColumns(v) => c.tile_columns == Some(v),
        EncoderControl::Vp9TileRows(v) => c.tile_rows == Some(v),
        EncoderControl::Vp9RowMt(v) => c.row_mt && v == 1,
        EncoderControl::Vp9FrameParallelDecoding(v) => c.frame_parallel_decoding && v == 1,
        EncoderControl::Vp9TuneContent(t) => c.tune_content == Some(t),
        _ => false,
    }
}

/// 1 where `b` holds, else 0.
pub open spec fn one_if(b: bool) -> int {
    if b {
        1
    } else {
        0
    }
}

/// Every control of `a + b` has property `p` where those of `a` and `b` have it.
proof fn lemma_all_concat(
    a: Seq<EncoderControl>,
    b: Seq<EncoderControl>,
    p: spec_fn(EncoderControl) -> bool,
)
    requires
        forall|i: int| 0 <= i < a.len() ==> p(#[trigger] a[i]),
        forall|i: int| 0 <= i < b.len() ==> p(#[trigger] b[i]),
    ensures
        forall|i: int| 0 <= i < (a + b).len() ==> p(#[trigger] (a + b)[i]),
{
    assert forall|i: int| 0 <= i < (a + b).len() implies p(#[trigger] (a + b)[i]) by {
        if i < a.len() {
            assert((a + b)[i] == a[i]);
        } else {
            assert((a + b)[i] == b[i - a.len()]);
        }
    }
}

/// A control of `a` or of `b` is a control of `a + b`.
proof fn lemma_contains_concat(a: Seq<EncoderControl>, b: Seq<EncoderControl>, x: EncoderControl)
    ensures
        a.contains(x) ==> (a + b).contains(x),
        b.contains(x) ==> (a + b).contains(x),
{
    if a.contains(x) {
        let i = choose|i: int| 0 <= i < a.len() && a[i] == x;
        assert((a + b)[i] == x);
    }
    if b.contains(x) {
        let j = choose|j: int| 0 <= j < b.len() && b[j] == x;
        assert((a + b)[a.len() + j] == x);
    }
}

/// The VP9 controls are exactly those the settings ask for: every control
/// sent is named after a setting that is given (or enabled) and carries its
/// value (1 for a switch); every setting given is sent; and nothing is sent
/// twice (one control per setting given).
pub proof fn lemma_vp9_controls_are_the_settings(c: Vp9Config)
    ensures
        forall|i: int| 0 <= i < vp9_plan(c).len() ==> vp9_asks(c, #[trigger] vp9_plan(c)[i]),
        c.aq_mode matches Some(v) ==> vp9_plan(c).contains(EncoderControl::Vp9AqMode(v)),
        c.noise_sensitivity matches Some(v) ==> vp9_plan(c).contains(
            EncoderControl::Vp9NoiseSensitivity(v),
        ),
        c.tile_columns matches Some(v) ==> vp9_plan(c).contains(EncoderControl::Vp9TileColumns(v)),
        c.tile_rows matches Some(v) ==> vp9_plan(c).contains(EncoderControl::Vp9TileRows(v)),
        c.row_mt ==> vp9_plan(c).contains(EncoderControl::Vp9RowMt(1)),
        c.frame_parallel_decoding ==> vp9_plan(c).contains(
            EncoderControl::Vp9FrameParallelDecoding(1),
        ),
        c.tune_content matches Some(t) ==> vp9_plan(c).contains(EncoderControl::Vp9TuneContent(t)),
        vp9_plan(c).len() == one_if(c.aq_mode is Some) + one_if(c.noise_sensitivity is Some)
            + one_if(c.tile_columns is Some) + one_if(c.tile_rows is Some) + one_if(c.row_mt)
            + one_if(c.frame_parallel_decoding) + one_if(c.tune_content is Some),
{
    let p = |ctl: EncoderControl| vp9_asks(c, ctl);
    let s1 = control_if(c.aq_mode, |v| EncoderControl::Vp9AqMode(v));
    let s2 = control_if(c.noise_sensitivity, |v| EncoderControl::Vp9NoiseSensitivity(v));
    let s3 = control_if(c.tile_columns, |v| EncoderControl::Vp9TileColumns(v));
    let s4 = control_if(c.tile_rows, |v| EncoderControl::Vp9TileRows(v));
    let s5: Seq<EncoderControl> = if c.row_mt {
        seq![EncoderControl::Vp9RowMt(1)]
    } else {
        seq![]
    };
    let s6: Seq<EncoderControl> = if c.frame_parallel_decoding {
        seq![EncoderControl::Vp9FrameParallelDecoding(1)]
    } else {
        seq![]
    };
    let s7: Seq<EncoderControl> = match c.tune_content {
        Some(t) => seq![EncoderControl::Vp9TuneContent(t)],
        None => seq![],
    };
    assert(vp9_plan(c) == s1 + s2 + s3 + s4 + s5 + s6 + s7);
    assert(forall|i: int| 0 <= i < s1.len() ==> p(#[trigger] s1[i]));
    assert(forall|i: int| 0 <= i < s2.len() ==> p(#[trigger] s2[i]));
    assert(forall|i: int| 0 <= i < s3.len() ==> p(#[trigger] s3[i]));
    assert(forall|i: int| 0 <= i < s4.len() ==> p(#[trigger] s4[i]));
    assert(forall|i: int| 0 <= i < s5.len() ==> p(#[trigger] s5[i]));
    assert(forall|i: int| 0 <= i < s6.len() ==> p(#[trigger] s6[i]));
    assert(forall|i: int| 0 <= i < s7.len() ==> p(#[trigger] s7[i]));
    lemma_all_concat(s1, s2, p);
    lemma_all_concat(s1 + s2, s3, p);
    lemma_all_concat(s1 + s2 + s3, s4, p);
    lemma_all_concat(s1 + s2 + s3 + s4, s5, p);
    lemma_all_concat(s1 + s2 + s3 + s4 + s5, s6, p);
    lemma_all_concat(s1 + s2 + s3 + s4 + s5 + s6, s7, p);
    assert forall|x: EncoderControl|
        s1.contains(x) || s2.contains(x) || s3.contains(x) || s4.contains(x) || s5.contains(x)
            || s6.contains(x) || s7.contains(x) implies #[trigger] vp9_plan(c).contains(x) by {
        lemma_contains_concat(s1, s2, x);
        lemma_contains_concat(s1 + s2, s3, x);
        lemma_contains_concat(s1 + s2 + s3, s4, x);
        lemma_contains_concat(s1 + s2 + s3 + s4, s5, x);
        lemma_contains_concat(s1 + s2 + s3 + s4 + s5, s6, x);
        lemma_contains_concat(s1 + s2 + s3 + s4 + s5 + s6, s7, x);
    }
    if let Some(v) = c.aq_mode {
        assert(s1[0] == EncoderControl::Vp9AqMode(v));
    }
    if let Some(v) = c.noise_sensitivity {
        assert(s2[0] == EncoderControl::Vp9NoiseSensitivity(v));
    }
    if let Some(v) = c.tile_columns {
        assert(s3[0] == EncoderControl::Vp9TileColumns(v));
    }
    if let Some(v) = c.tile_rows {
        assert(s4[0] == EncoderControl::Vp9TileRows(v));
    }
    if c.row_mt {
        assert(s5[0] == EncoderControl::Vp9RowMt(1));
    }
    if c.frame_parallel_decoding {
        assert(s6[0] == EncoderControl::Vp9FrameParallelDecoding(1));
    }
    if let Some(t) = c.tune_content {
        assert(s7[0] == EncoderControl::Vp9TuneContent(t));
    }
}

/// `ctl` is a VP8 control that `c` asks for, sent with the value `c` gives:
/// each control is named after its setting, and the ARNR controls (enable,
/// then maximum frames, strength and type) come with ARNR settings.
pub open spec fn vp8_asks(c: Vp8Config, ctl: EncoderControl) -> bool {
    match ctl {
        EncoderControl::Vp8NoiseSensitivity(v) => c.noise_sensitivity == Some(v),
        EncoderControl::Vp8StaticThreshold(v) => c.static_threshold == Some(v),
        EncoderControl::Vp8TokenPartitions(v) => c.token_partitions == Some(v),
        EncoderControl::Vp8MaxIntraBitratePct(v) => c.max_intra_bitrate_pct == Some(v),
        EncoderControl::Vp8EnableAutoAltRef(v) => c.arnr_config is Some && v == 1,
        EncoderControl::Vp8ArnrMaxFrames(v) => c.arnr_config matches Some(a) && a.max_frames == v,
        EncoderControl::Vp8ArnrStrength(v) => c.arnr_config matches Some(a) && a.strength == v,
        EncoderControl::Vp8ArnrType(v) => c.arnr_config matches Some(a) && a.filter_type == v,
        _ => false,
    }
}

/// The ARNR controls are exactly four, in order: enable the automatic
/// alternate reference frame, then the maximum frame count, the strength and
/// the filter type, each with its setting's value.
pub proof fn lemma_arnr_controls_are_the_settings(a: ArnrConfig)
    ensures
        arnr_plan(a).len() == 4,
        arnr_plan(a)[0] == EncoderControl::Vp8EnableAutoAltRef(1),
        arnr_plan(a)[1] == EncoderControl::Vp8ArnrMaxFrames(a.max_frames),
        arnr_plan(a)[2] == EncoderControl::Vp8ArnrStrength(a.strength),
        arnr_plan(a)[3] == EncoderControl::Vp8ArnrType(a.filter_type),
{
}

/// The VP8 controls are exactly those the settings ask for: every control
/// sent is named after a setting that is given and carries its value; every
/// setting given is sent (with ARNR settings, the four ARNR controls); and
/// nothing is sent twice.
pub proof fn lemma_vp8_controls_are_the_settings(c: Vp8Config)
    ensures
        forall|i: int| 0 <= i < vp8_plan(c).len() ==> vp8_asks(c, #[trigger] vp8_plan(c)[i]),
        c.noise_sensitivity matches Some(v) ==> vp8_plan(c).contains(
            EncoderControl::Vp8NoiseSensitivity(v),
        ),
        c.static_threshold matches Some(v) ==> vp8_plan(c).contains(
            EncoderControl::Vp8StaticThreshold(v),
        ),
        c.token_partitions matches Some(v) ==> vp8_plan(c).contains(
            EncoderControl::Vp8TokenPartitions(v),
        ),
        c.max_intra_bitrate_pct matches Some(v) ==> vp8_plan(c).contains(
            EncoderControl::Vp8MaxIntraBitratePct(v),
        ),
        c.arnr_config matches Some(a) ==> {
            &&& vp8_plan(c).contains(EncoderControl::Vp8EnableAutoAltRef(1))
            &&& vp8_plan(c).contains(EncoderControl::Vp8ArnrMaxFrames(a.max_frames))
            &&& vp8_plan(c).contains(EncoderControl::Vp8ArnrStrength(a.strength))
            &&& vp8_plan(c).contains(EncoderControl::Vp8ArnrType(a.filter_type))
        },
        vp8_plan(c).len() == one_if(c.noise_sensitivity is Some) + one_if(
            c.static_threshold is Some,
        ) + one_if(c.token_partitions is Some) + one_if(c.max_intra_bitrate_pct is Some) + 4
            * one_if(c.arnr_config is Some),
{
    let p = |ctl: EncoderControl| vp8_asks(c, ctl);
    let s1 = control_if(c.noise_sensitivity, |v| EncoderControl::Vp8NoiseSensitivity(v));
    let s2 = control_if(c.static_threshold, |v| EncoderControl::Vp8StaticThreshold(v));
    let s3 = control_if(c.token_partitions, |v| EncoderControl::Vp8TokenPartitions(v));
    let s4 = control_if(c.max_intra_bitrate_pct, |v| EncoderControl::Vp8MaxIntraBitratePct(v));
    let s5: Seq<EncoderControl> = match c.arnr_config {
        Some(a) => arnr_plan(a),
        None => seq![],
    };
    assert(vp8_plan(c) == s1 + s2 + s3 + s4 + s5);
    assert(forall|i: int| 0 <= i < s1.len() ==> p(#[trigger] s1[i]));
    assert(forall|i: int| 0 <= i < s2.len() ==> p(#[trigger] s2[i]));
    assert(forall|i: int| 0 <= i < s3.len() ==> p(#[trigger] s3[i]));
    assert(forall|i: int| 0 <= i < s4.len() ==> p(#[trigger] s4[i]));
    if let Some(a) = c.arnr_config {
        lemma_arnr_controls_are_the_settings(a);
        assert(s5[0] == EncoderControl::Vp8EnableAutoAltRef(1));
        assert(s5[1] == EncoderControl::Vp8ArnrMaxFrames(a.max_frames));
        assert(s5[2] == EncoderControl::Vp8ArnrStrength(a.strength));
        assert(s5[3] == EncoderControl::Vp8ArnrType(a.filter_type));
    }
    assert(forall|i: int| 0 <= i < s5.len() ==> p(#[trigger] s5[i]));
    lemma_all_concat(s1, s2, p);
    lemma_all_concat(s1 + s2, s3, p);
    lemma_all_concat(s1 + s2 + s3, s4, p);
    lemma_all_concat(s1 + s2 + s3 + s4, s5, p);
    assert forall|x: EncoderControl|
        s1.contains(x) || s2.contains(x) || s3.contains(x) || s4.contains(x)
            || s5.contains(x) implies #[trigger] vp8_plan(c).contains(x) by {
        lemma_contains_concat(s1, s2, x);
        lemma_contains_concat(s1 + s2, s3, x);
        lemma_contains_concat(s1 + s2 + s3, s4, x);
        lemma_contains_concat(s1 + s2 + s3 + s4, s5, x);
    }
    if let Some(v) = c.noise_sensitivity {
        assert(s1[0] == EncoderControl::Vp8NoiseSensitivity(v));
    }
    if let Some(v) = c.static_threshold {
        assert(s2[0] == EncoderControl::Vp8StaticThreshold(v));
    }
    if let Some(v) = c.token_partitions {
        assert(s3[0] == EncoderControl::Vp8TokenPartitions(v));
    }
    if let Some(v) = c.max_intra_bitrate_pct {
        assert(s4[0] == EncoderControl::Vp8MaxIntraBitratePct(v));
    }
    if let Some(a) = c.arnr_config {
        assert(s5.contains(EncoderControl::Vp8EnableAutoAltRef(1)));
        assert(s5.contains(EncoderControl::Vp8ArnrMaxFrames(a.max_frames)));
        assert(s5.contains(EncoderControl::Vp8ArnrStrength(a.strength)));
        assert(s5.contains(EncoderControl::Vp8ArnrType(a.filter_type)));
    }
}

/// `ctl` is a control that `config` asks for: the CQ level, the CPU usage
/// where given, or one that its codec's settings ask for.
pub open spec fn config_asks(config: EncoderConfig, ctl: EncoderControl) -> bool {
    match ctl {
        EncoderControl::CqLevel(v) => v == config.cq_level,
        EncoderControl::CpuUsed(n) => config.cpu_used == Some(n),
        _ => match config.codec {
            CodecConfig::Vp8(c) => vp8_asks(c, ctl),
            CodecConfig::Vp9(c) => vp9_asks(c, ctl),
        },
    }
}

/// The controls of an encoder are exactly those its settings ask for: the
/// CQ level first, the CPU usage where given, and every control of its
/// codec's settings; each control sent is one the settings ask for.
pub proof fn lemma_controls_are_the_settings(config: EncoderConfig)
    requires
        config.cq_level <= 63,
    ensures
        control_plan(config).len() >= 1,
        control_plan(config)[0] == EncoderControl::CqLevel(config.cq_level as u32),
        forall|i: int|
            0 <= i < control_plan(config).len() ==> config_asks(
                config,
                #[trigger] control_plan(config)[i],
            ),
        config.cpu_used matches Some(n) ==> control_plan(config).contains(
            EncoderControl::CpuUsed(n),
        ),
        config.codec matches CodecConfig::Vp9(c) ==> forall|x: EncoderControl|
            #[trigger] vp9_plan(c).contains(x) ==> control_plan(config).contains(x),
        config.codec matches CodecConfig::Vp8(c) ==> forall|x: EncoderControl|
            #[trigger] vp8_plan(c).contains(x) ==> control_plan(config).contains(x),
{
    let p = |ctl: EncoderControl| config_asks(config, ctl);
    let s1 = seq![EncoderControl::CqLevel(config.cq_level as u32)];
    let s2: Seq<EncoderControl> = match config.cpu_used {
        Some(n) => seq![EncoderControl::CpuUsed(n)],
        None => seq![],
    };
    let s3: Seq<EncoderControl> = match config.codec {
        CodecConfig::Vp8(c) => vp8_plan(c),
        CodecConfig::Vp9(c) => vp9_plan(c),
    };
    assert(control_plan(config) == s1 + s2 + s3);
    assert((s1 + s2 + s3)[0] == s1[0]);
    assert(forall|i: int| 0 <= i < s1.len() ==> p(#[trigger] s1[i]));
    assert(forall|i: int| 0 <= i < s2.len() ==> p(#[trigger] s2[i]));
    match config.codec {
        CodecConfig::Vp8(c) => {
            lemma_vp8_controls_are_the_settings(c);
        },
        CodecConfig::Vp9(c) => {
            lemma_vp9_controls_are_the_settings(c);
        },
    }
    assert forall|i: int| 0 <= i < s3.len() implies p(#[trigger] s3[i]) by {
        match config.codec {
            CodecConfig::Vp8(c) => {
                assert(vp8_asks(c, vp8_plan(c)[i]));
            },
            CodecConfig::Vp9(c) => {
                assert(vp9_asks(c, vp9_plan(c)[i]));
            },
        }
    }
    lemma_all_concat(s1, s2, p);
    lemma_all_concat(s1 + s2, s3, p);
    assert forall|x: EncoderControl|
        s1.contains(x) || s2.contains(x) || s3.contains(x) implies #[trigger] control_plan(
        config,
    ).contains(x) by {
        lemma_contains_concat(s1, s2, x);
        lemma_contains_concat(s1 + s2, s3, x);
    }
    if let Some(n) = config.cpu_used {
        assert(s2[0] == EncoderControl::CpuUsed(n));
    }
}

} // verus!
