use shiguredo_libvpx::encoder::image_allocation;
use shiguredo_libvpx::error::{invalid_param, Error, CODEC_ERROR, CODEC_INVALID_PARAM, CODEC_MEM_ERROR, CODEC_OK};
use shiguredo_libvpx::params::merge_reconfigure_params_into_cfg;
use shiguredo_libvpx::{
    ArnrConfig, CodecConfig, ContentType, EncodeOptions, EncodedFrame, Encoder, EncoderConfig,
    EncoderControl, EncodingDeadline, ImageData, ImageFormat, NextFrameStep, NonZeroUsize,
    PacketKind, PlaneSizes, RateControlMode, ReconfigureParams, Vp8Config, Vp9Config, Vp9Profile,
};

fn vp9_config(width: usize, height: usize, format: ImageFormat) -> EncoderConfig {
    EncoderConfig::new(width, height, format, CodecConfig::Vp9(Vp9Config::default()))
}

#[test]
fn encoder_config_new_uses_documented_defaults() {
    let c = vp9_config(640, 480, ImageFormat::Nv12);
    assert_eq!((c.width, c.height, c.image_format), (640, 480, ImageFormat::Nv12));
    assert_eq!((c.fps_numerator, c.fps_denominator), (30, 1));
    assert_eq!(c.target_bitrate, 2_000_000);
    assert_eq!((c.min_quantizer, c.max_quantizer, c.cq_level), (0, 63, 10));
    assert_eq!(c.cpu_used, None);
    assert_eq!(c.deadline, EncodingDeadline::Good);
    assert_eq!(c.rate_control, RateControlMode::Vbr);
    assert!(c.lag_in_frames.is_none() && c.threads.is_none() && c.keyframe_interval.is_none());
    assert!(!c.error_resilient);
    assert_eq!(c.frame_drop_threshold, None);
}

#[test]
fn non_zero_usize_refuses_zero() {
    assert!(NonZeroUsize::new(0).is_none());
    assert_eq!(NonZeroUsize::new(7).unwrap().get(), 7);
}

#[test]
fn new_encoder_cfg_from_config() {
    let mut c = EncoderConfig::new(
        320,
        240,
        ImageFormat::I42016,
        CodecConfig::Vp9(Vp9Config {
            profile: Vp9Profile::Profile2,
            ..Vp9Config::default()
        }),
    );
    c.fps_numerator = 25;
    c.fps_denominator = 2;
    c.target_bitrate = 1_234_567;
    c.min_quantizer = 4;
    c.max_quantizer = 50;
    c.lag_in_frames = NonZeroUsize::new(16);
    c.threads = NonZeroUsize::new(4);
    c.error_resilient = true;
    c.frame_drop_threshold = Some(30);
    c.rate_control = RateControlMode::Cbr;
    c.deadline = EncodingDeadline::Realtime;
    let encoder = Encoder::new(c).unwrap();
    let cfg = encoder.cfg();
    assert_eq!((cfg.g_w, cfg.g_h), (320, 240));
    assert_eq!(cfg.g_profile, Some(2));
    assert_eq!(cfg.rc_target_bitrate, 1234);
    assert_eq!((cfg.g_timebase_num, cfg.g_timebase_den), (2, 25));
    assert_eq!((cfg.rc_min_quantizer, cfg.rc_max_quantizer), (4, 50));
    assert_eq!(cfg.kf_max_dist, None);
    assert_eq!(cfg.g_lag_in_frames, 16);
    assert_eq!(cfg.g_threads, Some(4));
    assert!(cfg.g_error_resilient);
    assert_eq!(cfg.rc_dropframe_thresh, Some(30));
    assert_eq!(cfg.rc_end_usage, RateControlMode::Cbr);
    assert_eq!(encoder.frame_count(), 0);
    assert!(!encoder.iter_active());
    assert_eq!(encoder.image_format(), ImageFormat::I42016);
    assert_eq!(encoder.plane_sizes(), None);

    let vp8 = Encoder::new(EncoderConfig::new(
        16,
        16,
        ImageFormat::I420,
        CodecConfig::Vp8(Vp8Config::default()),
    ))
    .unwrap();
    assert_eq!(vp8.cfg().g_profile, None);
    assert!(!vp8.cfg().g_error_resilient);
}

#[test]
fn look_ahead_is_disabled_unless_asked_for() {
    // VP8 and VP9 alike: no look-ahead, whatever libvpx's default
    let vp9 = Encoder::new(vp9_config(64, 64, ImageFormat::I420)).unwrap();
    assert_eq!(vp9.cfg().g_lag_in_frames, 0);
    let vp8 = Encoder::new(EncoderConfig::new(
        64,
        64,
        ImageFormat::I420,
        CodecConfig::Vp8(Vp8Config::default()),
    ))
    .unwrap();
    assert_eq!(vp8.cfg().g_lag_in_frames, 0);
}

#[test]
fn new_encoder_error_fields() {
    let mut c = vp9_config(64, 64, ImageFormat::I420);
    c.cq_level = 64;
    let err = Encoder::new(c).err().unwrap();
    assert_eq!(err.code(), CODEC_INVALID_PARAM);
    assert_eq!(err.function(), "shiguredo_libvpx::Encoder::new");
    assert!(err.detail().is_none());
}

#[test]
fn new_encoder_refuses_counts_beyond_u32() {
    let Some(big) = (u32::MAX as usize).checked_add(1) else {
        return;
    };
    let cases: Vec<(fn(&mut EncoderConfig, usize), &str)> = vec![
        (|c, n| c.lag_in_frames = NonZeroUsize::new(n), "lag_in_frames is out of range"),
        (|c, n| c.threads = NonZeroUsize::new(n), "threads is out of range"),
        (|c, n| c.frame_drop_threshold = Some(n), "frame_drop_threshold is out of range"),
        (|c, n| c.keyframe_interval = NonZeroUsize::new(n), "keyframe_interval is out of range"),
        (|c, n| c.max_quantizer = n, "max_quantizer is out of range"),
    ];
    for (mutate, reason) in cases {
        let mut c = vp9_config(64, 64, ImageFormat::I420);
        mutate(&mut c, big);
        assert_eq!(Encoder::new(c).err().unwrap().reason(None), Some(reason));
    }
}

#[test]
fn controls_follow_settings_in_order() {
    let mut c = EncoderConfig::new(
        64,
        64,
        ImageFormat::I420,
        CodecConfig::Vp9(Vp9Config {
            profile: Vp9Profile::Profile0,
            aq_mode: Some(3),
            noise_sensitivity: None,
            tile_columns: Some(2),
            tile_rows: None,
            row_mt: true,
            frame_parallel_decoding: false,
            tune_content: Some(ContentType::Screen),
        }),
    );
    c.cq_level = 20;
    c.cpu_used = Some(8);
    let encoder = Encoder::new(c).unwrap();
    assert_eq!(
        encoder.controls(),
        &vec![
            EncoderControl::CqLevel(20),
            EncoderControl::CpuUsed(8),
            EncoderControl::Vp9AqMode(3),
            EncoderControl::Vp9TileColumns(2),
            EncoderControl::Vp9RowMt(1),
            EncoderControl::Vp9TuneContent(ContentType::Screen),
        ]
    );

    let c = EncoderConfig::new(
        64,
        64,
        ImageFormat::I420,
        CodecConfig::Vp8(Vp8Config {
            noise_sensitivity: Some(1),
            static_threshold: None,
            token_partitions: Some(2),
            max_intra_bitrate_pct: None,
            arnr_config: Some(ArnrConfig {
                max_frames: 7,
                strength: 5,
                filter_type: 3,
            }),
        }),
    );
    let encoder = Encoder::new(c).unwrap();
    assert_eq!(
        encoder.controls(),
        &vec![
            EncoderControl::CqLevel(10),
            EncoderControl::Vp8NoiseSensitivity(1),
            EncoderControl::Vp8TokenPartitions(2),
            EncoderControl::Vp8EnableAutoAltRef(1),
            EncoderControl::Vp8ArnrMaxFrames(7),
            EncoderControl::Vp8ArnrStrength(5),
            EncoderControl::Vp8ArnrType(3),
        ]
    );
}

#[test]
fn plane_sizes_follow_format_and_odd_height() {
    let cases = [
        (ImageFormat::I420, PlaneSizes::ThreePlanes { y_size: 70, u_size: 16, v_size: 16 }),
        (ImageFormat::Yv12, PlaneSizes::ThreePlanes { y_size: 70, u_size: 16, v_size: 16 }),
        (ImageFormat::Nv12, PlaneSizes::TwoPlanes { y_size: 70, uv_size: 16 }),
        (ImageFormat::I422, PlaneSizes::ThreePlanes { y_size: 70, u_size: 28, v_size: 28 }),
        (ImageFormat::I444, PlaneSizes::ThreePlanes { y_size: 70, u_size: 28, v_size: 28 }),
        (ImageFormat::I440, PlaneSizes::ThreePlanes { y_size: 70, u_size: 16, v_size: 16 }),
        (ImageFormat::I42016, PlaneSizes::ThreePlanes { y_size: 70, u_size: 16, v_size: 16 }),
        (ImageFormat::I42216, PlaneSizes::ThreePlanes { y_size: 70, u_size: 28, v_size: 28 }),
        (ImageFormat::I44416, PlaneSizes::ThreePlanes { y_size: 70, u_size: 28, v_size: 28 }),
        (ImageFormat::I44016, PlaneSizes::ThreePlanes { y_size: 70, u_size: 16, v_size: 16 }),
    ];
    for (format, expected) in cases {
        // 7 rows: chroma planes of halved formats have 4 rows
        let mut encoder = Encoder::new(vp9_config(10, 7, format)).unwrap();
        encoder.set_image_strides(10, 4, 4);
        assert_eq!(encoder.plane_sizes(), Some(expected), "{format:?}");
    }
}

fn ready_i420(width: usize, height: usize) -> Encoder {
    let mut encoder = Encoder::new(vp9_config(width, height, ImageFormat::I420)).unwrap();
    encoder.set_image_strides(width, width / 2, width / 2);
    encoder
}

#[test]
fn encode_checks_image_then_counts_frames() {
    let mut encoder = ready_i420(8, 8);
    let (y, u, v) = (vec![0u8; 64], vec![0u8; 16], vec![0u8; 16]);
    let image = ImageData::I420 { y: &y, u: &u, v: &v };

    let req = encoder
        .encode(&image, &EncodeOptions { force_keyframe: true })
        .unwrap();
    assert_eq!(req.pts, 0);
    assert_eq!(req.duration, 1);
    assert!(req.force_keyframe);
    assert_eq!(req.flags(), 1);
    assert_eq!(req.deadline, EncodingDeadline::Good);
    assert_eq!(req.deadline_usecs(), 1_000_000);

    // a failed libvpx call counts no frame
    let err = encoder.complete_encode(CODEC_MEM_ERROR, None).err().unwrap();
    assert_eq!(err.function(), "vpx_codec_encode");
    assert_eq!(encoder.frame_count(), 0);

    encoder.complete_encode(CODEC_OK, None).unwrap();
    let req = encoder
        .encode(&image, &EncodeOptions { force_keyframe: false })
        .unwrap();
    assert_eq!(req.pts, 1);
    assert_eq!(req.flags(), 0);

    let short = vec![0u8; 15];
    let err = encoder
        .encode(&ImageData::I420 { y: &y, u: &short, v: &v }, &EncodeOptions { force_keyframe: false })
        .err()
        .unwrap();
    assert_eq!(err.code(), CODEC_INVALID_PARAM);
    assert_eq!(err.function(), "shiguredo_libvpx::Encoder::encode");
    assert_eq!(err.reason(None), Some("invalid plane sizes"));

    let err = encoder
        .encode(&ImageData::Yv12 { y: &y, u: &u, v: &v }, &EncodeOptions { force_keyframe: false })
        .err()
        .unwrap();
    assert_eq!(err.reason(None), Some("image format mismatch"));
}

#[test]
fn calls_wait_until_packets_are_drained() {
    let mut encoder = ready_i420(8, 8);
    let (y, u, v) = (vec![0u8; 64], vec![0u8; 16], vec![0u8; 16]);
    let image = ImageData::I420 { y: &y, u: &u, v: &v };
    encoder.encode(&image, &EncodeOptions { force_keyframe: false }).unwrap();
    encoder.complete_encode(CODEC_OK, None).unwrap();

    assert_eq!(encoder.next_frame(Some(PacketKind::Other), true), NextFrameStep::Skip);
    assert_eq!(encoder.next_frame(Some(PacketKind::Frame), true), NextFrameStep::Frame);
    assert!(encoder.iter_active());

    let undrained = Some("still need to call shiguredo_libvpx::Encoder::next_frame()");
    let err = encoder.encode(&image, &EncodeOptions { force_keyframe: false }).err().unwrap();
    assert_eq!((err.code(), err.reason(None)), (CODEC_ERROR, undrained));
    let err = encoder.finish().err().unwrap();
    assert_eq!(err.function(), "shiguredo_libvpx::Encoder::finish");
    assert_eq!(err.reason(None), undrained);
    let err = encoder.reconfigure(&ReconfigureParams::default()).err().unwrap();
    assert_eq!(err.function(), "shiguredo_libvpx::Encoder::reconfigure");
    assert_eq!(err.reason(None), undrained);

    assert_eq!(encoder.next_frame(None, true), NextFrameStep::Done);
    assert!(!encoder.iter_active());
    assert!(encoder.finish().is_ok());
    assert!(encoder.encode(&image, &EncodeOptions { force_keyframe: false }).is_ok());
}

#[test]
fn libvpx_refusal_of_new_settings_keeps_old_ones() {
    let mut encoder = ready_i420(8, 8);
    let before = *encoder.cfg();
    let mut params = ReconfigureParams::default();
    params.target_bitrate = Some(3_000_000);
    let new_cfg = encoder.reconfigure(&params).unwrap().unwrap();
    assert_eq!(new_cfg.rc_target_bitrate, 3000);
    let err = encoder
        .commit_reconfigure(new_cfg, CODEC_INVALID_PARAM, Some("bad".to_string()))
        .err()
        .unwrap();
    assert_eq!(err.function(), "vpx_codec_enc_config_set");
    assert_eq!(*encoder.cfg(), before);
    encoder.commit_reconfigure(new_cfg, CODEC_OK, None).unwrap();
    assert_eq!(encoder.cfg().rc_target_bitrate, 3000);
}

#[test]
fn reapplying_own_settings_changes_nothing() {
    let mut c = vp9_config(64, 48, ImageFormat::I420);
    c.keyframe_interval = NonZeroUsize::new(90);
    c.target_bitrate = 777_777;
    let params = ReconfigureParams::from_encoder_config(&c);
    let encoder = Encoder::new(c).unwrap();
    let again = encoder.reconfigure(&params).unwrap().unwrap();
    assert_eq!(again, *encoder.cfg());
}

#[test]
fn merging_twice_is_merging_once() {
    let encoder = ready_i420(8, 8);
    let mut params = ReconfigureParams::default();
    params.max_quantizer = Some(40);
    params.fps_numerator = Some(24000);
    params.fps_denominator = Some(1001);
    let once = merge_reconfigure_params_into_cfg(encoder.cfg(), &params, "f").unwrap();
    let twice = merge_reconfigure_params_into_cfg(&once, &params, "f").unwrap();
    assert_eq!(once, twice);
    assert_eq!((once.g_timebase_num, once.g_timebase_den), (1001, 24000));
}

#[test]
fn bitrate_is_kept_in_whole_kbps() {
    let encoder = ready_i420(8, 8);
    let mut params = ReconfigureParams::default();
    params.target_bitrate = Some(1_999);
    assert_eq!(encoder.reconfigure(&params).unwrap().unwrap().rc_target_bitrate, 1);
    params.target_bitrate = Some(1_000_000_000);
    assert_eq!(encoder.reconfigure(&params).unwrap().unwrap().rc_target_bitrate, 1_000_000);
}

#[test]
fn empty_params_hand_nothing_to_libvpx() {
    let encoder = ready_i420(8, 8);
    assert!(ReconfigureParams::default().is_empty());
    assert_eq!(encoder.reconfigure(&ReconfigureParams::default()).unwrap(), None);
    let mut p = ReconfigureParams::default();
    p.keyframe_interval = NonZeroUsize::new(1);
    assert!(!p.is_empty());
}

#[test]
fn encoded_frame_reports_libvpx_packet() {
    let data = [1u8, 2, 3];
    let frame = EncodedFrame::new(&data, 65_536 + 640, 480, 0x1);
    assert_eq!(frame.data(), &data[..]);
    assert_eq!(frame.width(), 640);
    assert_eq!(frame.height(), 480);
    assert!(frame.is_keyframe());
    assert!(!EncodedFrame::new(&data, 1, 1, 0x10).is_keyframe());
}

#[test]
fn error_constructors() {
    assert!(Error::check(CODEC_OK, "f", None).is_ok());
    let e = Error::check(CODEC_MEM_ERROR, "f", Some("d".to_string())).err().unwrap();
    assert_eq!((e.code(), e.function(), e.own_reason()), (CODEC_MEM_ERROR, "f", None));
    assert_eq!(e.detail().map(|s| s.as_str()), Some("d"));
    let e = Error::with_reason(CODEC_ERROR, "g", "why");
    assert_eq!((e.code(), e.function(), e.reason(None)), (CODEC_ERROR, "g", Some("why")));
    assert!(e.detail().is_none());
    let e = invalid_param("h", "bad");
    assert_eq!((e.code(), e.reason(None)), (CODEC_INVALID_PARAM, Some("bad")));
}

#[test]
fn image_data_format_names_its_variant() {
    let p = [0u8; 1];
    assert_eq!(ImageData::Nv12 { y: &p, uv: &p }.format(), ImageFormat::Nv12);
    assert_eq!(ImageData::I44016 { y: &p, u: &p, v: &p }.format(), ImageFormat::I44016);
    assert_eq!(ImageData::Yv12 { y: &p, u: &p, v: &p }.format(), ImageFormat::Yv12);
}

#[test]
fn drained_packets_are_never_handed_out_again() {
    let mut encoder = ready_i420(8, 8);
    // before any encode there is nothing to take out
    assert!(encoder.drained());
    assert_eq!(encoder.next_frame(Some(PacketKind::Frame), true), NextFrameStep::Done);

    let (y, u, v) = (vec![0u8; 64], vec![0u8; 16], vec![0u8; 16]);
    let image = ImageData::I420 { y: &y, u: &u, v: &v };
    encoder.encode(&image, &EncodeOptions { force_keyframe: false }).unwrap();
    encoder.complete_encode(CODEC_OK, None).unwrap();
    assert!(!encoder.drained());
    assert_eq!(encoder.next_frame(Some(PacketKind::Frame), true), NextFrameStep::Frame);
    assert_eq!(encoder.next_frame(None, false), NextFrameStep::Done);
    assert!(encoder.drained());
    // libvpx, asked again, would replay the first packet: it is not handed out
    assert_eq!(encoder.next_frame(Some(PacketKind::Frame), true), NextFrameStep::Done);
    assert!(!encoder.iter_active());

    // a failed flush leaves the packets drained; a successful one does not
    encoder.finish().unwrap();
    assert!(encoder.complete_finish(CODEC_MEM_ERROR, None).is_err());
    assert!(encoder.drained());
    encoder.complete_finish(CODEC_OK, None).unwrap();
    assert!(!encoder.drained());
    assert_eq!(encoder.next_frame(Some(PacketKind::Frame), true), NextFrameStep::Frame);
    assert_eq!(encoder.next_frame(None, false), NextFrameStep::Done);
    assert_eq!(encoder.next_frame(None, false), NextFrameStep::Done);

    // a failed encode leaves them drained too
    encoder.encode(&image, &EncodeOptions { force_keyframe: false }).unwrap();
    assert!(encoder.complete_encode(CODEC_MEM_ERROR, None).is_err());
    assert_eq!(encoder.next_frame(Some(PacketKind::Frame), true), NextFrameStep::Done);
}

#[test]
fn flush_uses_the_encoders_deadline() {
    for (deadline, usecs) in [
        (EncodingDeadline::Best, 0u64),
        (EncodingDeadline::Good, 1_000_000),
        (EncodingDeadline::Realtime, 1),
    ] {
        let mut c = vp9_config(8, 8, ImageFormat::I420);
        c.deadline = deadline;
        let mut encoder = Encoder::new(c).unwrap();
        encoder.set_image_strides(8, 4, 4);
        let flush = encoder.finish().unwrap();
        assert_eq!((flush.pts, flush.duration, flush.flags), (-1, 0, 0));
        assert_eq!(flush.deadline_usecs, usecs);
        let (y, u, v) = (vec![0u8; 64], vec![0u8; 16], vec![0u8; 16]);
        let request = encoder
            .encode(&ImageData::I420 { y: &y, u: &u, v: &v }, &EncodeOptions { force_keyframe: false })
            .unwrap();
        assert_eq!(request.deadline_usecs(), usecs);
    }
}

#[test]
fn error_message_text() {
    let e = invalid_param("shiguredo_libvpx::Encoder::new", "cq_level must not exceed 63");
    assert_eq!(
        e.message(Some("Invalid parameter")),
        "shiguredo_libvpx::Encoder::new() failed: code=8, reason=cq_level must not exceed 63"
    );
    let e = Error::check(CODEC_MEM_ERROR, "vpx_codec_encode", Some("no memory".to_string()))
        .err()
        .unwrap();
    assert_eq!(
        e.message(Some("Memory allocation error")),
        "vpx_codec_encode() failed: code=2, reason=Memory allocation error, detail=no memory"
    );
    assert_eq!(e.message(None), "vpx_codec_encode() failed: code=2, detail=no memory");
    let e = Error::check(1234567, "f", None).err().unwrap();
    assert_eq!(e.message(None), "f() failed: code=1234567");
}

#[test]
fn controls_are_sent_in_order_until_one_is_refused() {
    let mut c = vp9_config(64, 64, ImageFormat::I420);
    c.cpu_used = Some(6);
    let mut encoder = Encoder::new(c).unwrap();
    assert_eq!(encoder.next_control(), Some(EncoderControl::CqLevel(10)));
    assert_eq!(
        encoder.complete_control(CODEC_OK, None).unwrap(),
        Some(EncoderControl::CpuUsed(6))
    );
    assert_eq!(encoder.complete_control(CODEC_OK, None).unwrap(), None);
    assert_eq!(encoder.next_control(), None);

    let mut c = vp9_config(64, 64, ImageFormat::I420);
    c.cpu_used = Some(6);
    let mut encoder = Encoder::new(c).unwrap();
    let err = encoder
        .complete_control(CODEC_INVALID_PARAM, Some("bad cpu".to_string()))
        .err()
        .unwrap();
    assert_eq!(err.code(), CODEC_INVALID_PARAM);
    assert_eq!(err.function(), "vpx_codec_control_");
    assert_eq!(err.own_reason(), None);
    assert_eq!(err.detail().map(|d| d.as_str()), Some("bad cpu"));
    // nothing is sent after a refused control
    assert_eq!(encoder.next_control(), None);
}

#[test]
fn image_allocation_failure_is_reported() {
    assert!(image_allocation(true).is_ok());
    let err = image_allocation(false).err().unwrap();
    assert_eq!(err.code(), CODEC_MEM_ERROR);
    assert_eq!(err.function(), "vpx_img_alloc");
    assert_eq!(err.reason(None), Some("image allocation failed"));
}
