use shiguredo_libvpx::error::{CODEC_ERROR, CODEC_INVALID_PARAM, CODEC_OK};
use shiguredo_libvpx::{
    CodecConfig, EncodeOptions, Encoder, EncoderConfig, ImageData, ImageFormat, NextFrameStep,
    NonZeroUsize, PacketKind, ReconfigureParams, Vp8Config, Vp9Config,
};

fn vp8_encoder_config(image_format: ImageFormat) -> EncoderConfig {
    let mut config = EncoderConfig::new(
        128,
        128,
        image_format,
        CodecConfig::Vp8(Vp8Config::default()),
    );
    config.target_bitrate = 1_000_000;
    config.min_quantizer = 1;
    config.max_quantizer = 1;
    config.cq_level = 1;
    config
}

fn vp9_encoder_config(image_format: ImageFormat) -> EncoderConfig {
    let mut config = EncoderConfig::new(
        128,
        128,
        image_format,
        CodecConfig::Vp9(Vp9Config::default()),
    );
    config.target_bitrate = 1_000_000;
    config.min_quantizer = 1;
    config.max_quantizer = 1;
    config.cq_level = 1;
    config
}

/// An encoder whose image buffer has the strides that libvpx gives an
/// 8-bit image allocated with alignment 1.
fn ready_encoder(config: EncoderConfig) -> Encoder {
    let width = config.width;
    let format = config.image_format;
    let mut encoder = Encoder::new(config).expect("failed to create");
    let chroma = width.div_ceil(2);
    match format {
        ImageFormat::Nv12 => encoder.set_image_strides(width, chroma * 2, chroma * 2),
        _ => encoder.set_image_strides(width, chroma, chroma),
    }
    encoder
}

fn black_i420(width: usize, height: usize) -> (Vec<u8>, Vec<u8>, Vec<u8>) {
    let size = width * height;
    (vec![0; size], vec![0; size / 4], vec![0; size / 4])
}

/// Checks an I420 image and reports libvpx's success with it.
fn encode_i420(encoder: &mut Encoder, y: &[u8], u: &[u8], v: &[u8]) {
    encoder
        .encode(
            &ImageData::I420 { y, u, v },
            &EncodeOptions {
                force_keyframe: false,
            },
        )
        .expect("failed to encode");
    encoder.complete_encode(CODEC_OK, None).expect("failed to encode");
}

/// Takes out one frame packet, then reports that none is left.
fn drain_frames(encoder: &mut Encoder) {
    assert_eq!(encoder.next_frame(Some(PacketKind::Frame), true), NextFrameStep::Frame);
    assert_eq!(encoder.next_frame(None, true), NextFrameStep::Done);
}

/// Reconfigures and reports libvpx's success with the new settings.
fn reconfigure(encoder: &mut Encoder, params: &ReconfigureParams) -> Result<(), shiguredo_libvpx::Error> {
    match encoder.reconfigure(params)? {
        Some(cfg) => encoder.commit_reconfigure(cfg, CODEC_OK, None),
        None => Ok(()),
    }
}

#[test]
fn init_vp8_encoder() {
    // OK
    let config = vp8_encoder_config(ImageFormat::I420);
    assert!(Encoder::new(config).is_ok());

    // NG
    let mut config = vp8_encoder_config(ImageFormat::I420);
    config.fps_denominator = 0;
    assert!(Encoder::new(config).is_err());
}

#[test]
fn init_vp9_encoder() {
    // OK
    let config = vp9_encoder_config(ImageFormat::I420);
    assert!(Encoder::new(config).is_ok());

    // NG
    let mut config = vp9_encoder_config(ImageFormat::I420);
    config.fps_denominator = 0;
    assert!(Encoder::new(config).is_err());
}

#[test]
fn encode_format_mismatch() {
    // An NV12 image handed to an I420 encoder
    let config = vp9_encoder_config(ImageFormat::I420);
    let size = config.width * config.height;
    let encoder = ready_encoder(config);

    let y = vec![0; size];
    let uv = vec![0; size / 2];

    let result = encoder.encode(
        &ImageData::Nv12 { y: &y, uv: &uv },
        &EncodeOptions {
            force_keyframe: false,
        },
    );
    assert!(result.is_err());

    // An I420 image handed to an NV12 encoder
    let config = vp9_encoder_config(ImageFormat::Nv12);
    let size = config.width * config.height;
    let encoder = ready_encoder(config);

    let y = vec![0; size];
    let u = vec![0; size / 4];
    let v = vec![0; size / 4];

    let result = encoder.encode(
        &ImageData::I420 {
            y: &y,
            u: &u,
            v: &v,
        },
        &EncodeOptions {
            force_keyframe: false,
        },
    );
    assert!(result.is_err());
}

fn run_reconfigure_changes_basic_fields(config: EncoderConfig) {
    let (y, u, v) = black_i420(config.width, config.height);
    let mut encoder = ready_encoder(config);

    encode_i420(&mut encoder, &y, &u, &v);
    drain_frames(&mut encoder);

    let mut params = ReconfigureParams::default();
    params.target_bitrate = Some(500_000);
    params.fps_numerator = Some(60);
    params.fps_denominator = Some(1);
    params.keyframe_interval = NonZeroUsize::new(60);
    reconfigure(&mut encoder, &params).expect("failed to reconfigure");

    assert_eq!(encoder.cfg().rc_target_bitrate, 500);
    assert_eq!((encoder.cfg().g_timebase_num, encoder.cfg().g_timebase_den), (1, 60));
    assert_eq!(encoder.cfg().kf_max_dist, Some(60));

    encode_i420(&mut encoder, &y, &u, &v);
    drain_frames(&mut encoder);

    encoder.finish().expect("failed to finish");
    encoder.complete_finish(CODEC_OK, None).expect("failed to finish");
    drain_frames(&mut encoder);
}

#[test]
fn reconfigure_vp9_changes_bitrate_fps_keyframe_interval() {
    run_reconfigure_changes_basic_fields(vp9_encoder_config(ImageFormat::I420));
}

#[test]
fn reconfigure_vp8_changes_bitrate_fps_keyframe_interval() {
    run_reconfigure_changes_basic_fields(vp8_encoder_config(ImageFormat::I420));
}

#[test]
fn reconfigure_partial_min_quantizer_uses_current_max() {
    let mut config = vp9_encoder_config(ImageFormat::I420);
    config.min_quantizer = 0;
    config.max_quantizer = 10;
    let mut encoder = Encoder::new(config).expect("failed to create");
    assert_eq!(encoder.cfg().rc_max_quantizer, 10);

    let mut params = ReconfigureParams::default();
    params.min_quantizer = Some(20);
    let err = reconfigure(&mut encoder, &params)
        .expect_err("partial reconfigure must be rejected when min > current max");
    assert_eq!(
        err.reason(None),
        Some("min_quantizer must not exceed max_quantizer")
    );

    assert_eq!(encoder.cfg().rc_min_quantizer, 0);
    assert_eq!(encoder.cfg().rc_max_quantizer, 10);

    let mut params = ReconfigureParams::default();
    params.min_quantizer = Some(20);
    params.max_quantizer = Some(40);
    reconfigure(&mut encoder, &params).expect("failed to reconfigure");
    assert_eq!(encoder.cfg().rc_min_quantizer, 20);
    assert_eq!(encoder.cfg().rc_max_quantizer, 40);
}

#[test]
fn reconfigure_while_iter_active_is_rejected() {
    let config = vp8_encoder_config(ImageFormat::I420);
    let (y, u, v) = black_i420(config.width, config.height);
    let mut encoder = ready_encoder(config);

    encode_i420(&mut encoder, &y, &u, &v);
    assert_eq!(
        encoder.next_frame(Some(PacketKind::Frame), true),
        NextFrameStep::Frame,
        "VP8 should produce a frame after encode"
    );

    let mut params = ReconfigureParams::default();
    params.target_bitrate = Some(1_000_000);
    let err = reconfigure(&mut encoder, &params)
        .expect_err("reconfigure must fail when iter is active");
    assert_eq!(
        err.reason(None),
        Some("still need to call shiguredo_libvpx::Encoder::next_frame()")
    );

    assert_eq!(encoder.next_frame(None, true), NextFrameStep::Done);
}

#[test]
fn reconfigure_rejects_invalid_params() {
    fn params(f: fn(&mut ReconfigureParams)) -> ReconfigureParams {
        let mut p = ReconfigureParams::default();
        f(&mut p);
        p
    }
    let cases: Vec<(&'static str, ReconfigureParams, &'static str)> = vec![
        (
            "target_bitrate=0",
            params(|p| p.target_bitrate = Some(0)),
            "target_bitrate must be at least 1000 bps (libvpx kbps resolution)",
        ),
        (
            "target_bitrate=999",
            params(|p| p.target_bitrate = Some(999)),
            "target_bitrate must be at least 1000 bps (libvpx kbps resolution)",
        ),
        (
            "target_bitrate=1_000_000_001",
            params(|p| p.target_bitrate = Some(1_000_000_001)),
            "target_bitrate exceeds libvpx maximum (1_000_000_000 bps)",
        ),
        (
            "target_bitrate=2_000_000_000",
            params(|p| p.target_bitrate = Some(2_000_000_000)),
            "target_bitrate exceeds libvpx maximum (1_000_000_000 bps)",
        ),
        (
            "target_bitrate=usize::MAX",
            params(|p| p.target_bitrate = Some(usize::MAX)),
            "target_bitrate exceeds libvpx maximum (1_000_000_000 bps)",
        ),
        (
            "fps_numerator only",
            params(|p| p.fps_numerator = Some(60)),
            "fps_numerator and fps_denominator must be set together",
        ),
        (
            "fps_denominator only",
            params(|p| p.fps_denominator = Some(1)),
            "fps_numerator and fps_denominator must be set together",
        ),
        (
            "fps_numerator=0",
            params(|p| {
                p.fps_numerator = Some(0);
                p.fps_denominator = Some(1);
            }),
            "fps_numerator must be non-zero",
        ),
        (
            "fps_denominator=0",
            params(|p| {
                p.fps_numerator = Some(30);
                p.fps_denominator = Some(0);
            }),
            "fps_denominator must be non-zero",
        ),
        (
            "fps_numerator=1_000_000_001",
            params(|p| {
                p.fps_numerator = Some(1_000_000_001);
                p.fps_denominator = Some(1);
            }),
            "fps_numerator exceeds libvpx maximum (1_000_000_000)",
        ),
        (
            "fps_denominator=1_000_000_001",
            params(|p| {
                p.fps_numerator = Some(30);
                p.fps_denominator = Some(1_000_000_001);
            }),
            "fps_denominator exceeds libvpx maximum (1_000_000_000)",
        ),
        (
            "fps_numerator=usize::MAX",
            params(|p| {
                p.fps_numerator = Some(usize::MAX);
                p.fps_denominator = Some(1);
            }),
            "fps_numerator exceeds libvpx maximum (1_000_000_000)",
        ),
        (
            "min_quantizer=usize::MAX",
            params(|p| p.min_quantizer = Some(usize::MAX)),
            "min_quantizer is out of range",
        ),
        (
            "min > max",
            params(|p| {
                p.min_quantizer = Some(50);
                p.max_quantizer = Some(10);
            }),
            "min_quantizer must not exceed max_quantizer",
        ),
        (
            "max_quantizer=64",
            params(|p| p.max_quantizer = Some(64)),
            "max_quantizer must not exceed 63",
        ),
    ];

    for (case_id, params, expected_reason) in cases {
        let mut encoder =
            Encoder::new(vp9_encoder_config(ImageFormat::I420)).expect("failed to create");
        let err = reconfigure(&mut encoder, &params)
            .err()
            .unwrap_or_else(|| panic!("case [{case_id}]: reconfigure must fail"));
        assert_eq!(
            err.reason(None),
            Some(expected_reason),
            "case [{case_id}]: expected reason mismatch",
        );
    }
}

#[test]
fn reconfigure_accepts_boundary_values() {
    {
        let mut encoder =
            Encoder::new(vp9_encoder_config(ImageFormat::I420)).expect("failed to create");
        let mut params = ReconfigureParams::default();
        params.target_bitrate = Some(1000);
        reconfigure(&mut encoder, &params).expect("target_bitrate=1000 must succeed");
        assert_eq!(encoder.cfg().rc_target_bitrate, 1);
    }

    {
        let mut encoder =
            Encoder::new(vp9_encoder_config(ImageFormat::I420)).expect("failed to create");
        let mut params = ReconfigureParams::default();
        params.target_bitrate = Some(1_000_000_000);
        reconfigure(&mut encoder, &params).expect("target_bitrate=1_000_000_000 must succeed");
        assert_eq!(encoder.cfg().rc_target_bitrate, 1_000_000);
    }

    {
        let mut encoder =
            Encoder::new(vp9_encoder_config(ImageFormat::I420)).expect("failed to create");
        let mut params = ReconfigureParams::default();
        params.fps_numerator = Some(1_000_000_000);
        params.fps_denominator = Some(1);
        reconfigure(&mut encoder, &params).expect("fps_numerator=1_000_000_000 must succeed");
        assert_eq!(
            (encoder.cfg().g_timebase_num, encoder.cfg().g_timebase_den),
            (1, 1_000_000_000)
        );
    }

    {
        let mut config = vp9_encoder_config(ImageFormat::I420);
        config.min_quantizer = 0;
        config.max_quantizer = 63;
        let mut encoder = Encoder::new(config).expect("failed to create");
        let mut params = ReconfigureParams::default();
        params.min_quantizer = Some(0);
        params.max_quantizer = Some(63);
        reconfigure(&mut encoder, &params).expect("min=0,max=63 must succeed");
        assert_eq!(encoder.cfg().rc_min_quantizer, 0);
        assert_eq!(encoder.cfg().rc_max_quantizer, 63);

        let mut params = ReconfigureParams::default();
        params.min_quantizer = Some(30);
        params.max_quantizer = Some(30);
        reconfigure(&mut encoder, &params).expect("min==max must succeed");
        assert_eq!(encoder.cfg().rc_min_quantizer, 30);
        assert_eq!(encoder.cfg().rc_max_quantizer, 30);
    }
}

#[test]
fn reconfigure_failure_rolls_back_internal_state() {
    let mut config = vp9_encoder_config(ImageFormat::I420);
    config.target_bitrate = 5_000_000;
    config.min_quantizer = 0;
    config.max_quantizer = 63;
    let mut encoder = Encoder::new(config).expect("failed to create");

    let before_bitrate = encoder.cfg().rc_target_bitrate;
    let before_min = encoder.cfg().rc_min_quantizer;
    let before_max = encoder.cfg().rc_max_quantizer;

    let mut params = ReconfigureParams::default();
    params.target_bitrate = Some(1_000_000);
    params.min_quantizer = Some(50);
    params.max_quantizer = Some(10);
    let err = reconfigure(&mut encoder, &params).expect_err("must fail by min > max");
    assert_eq!(
        err.reason(None),
        Some("min_quantizer must not exceed max_quantizer")
    );

    assert_eq!(encoder.cfg().rc_target_bitrate, before_bitrate);
    assert_eq!(encoder.cfg().rc_min_quantizer, before_min);
    assert_eq!(encoder.cfg().rc_max_quantizer, before_max);
}

#[test]
fn reconfigure_all_none_is_noop_and_does_not_invoke_libvpx() {
    let config = vp9_encoder_config(ImageFormat::I420);
    let (y, u, v) = black_i420(config.width, config.height);
    let mut encoder = ready_encoder(config);

    let before = *encoder.cfg();

    // `None` means that nothing is handed to libvpx
    let planned = encoder
        .reconfigure(&ReconfigureParams::default())
        .expect("all-None reconfigure must succeed");
    assert!(planned.is_none());

    assert_eq!(encoder.cfg().rc_target_bitrate, before.rc_target_bitrate);
    assert_eq!(
        (encoder.cfg().g_timebase_num, encoder.cfg().g_timebase_den),
        (before.g_timebase_num, before.g_timebase_den)
    );
    assert_eq!(encoder.cfg().rc_min_quantizer, before.rc_min_quantizer);
    assert_eq!(encoder.cfg().rc_max_quantizer, before.rc_max_quantizer);
    assert_eq!(encoder.cfg().kf_max_dist, before.kf_max_dist);

    encode_i420(&mut encoder, &y, &u, &v);
    drain_frames(&mut encoder);
}

#[test]
fn encoder_new_rejects_invalid_params() {
    type Mutate = fn(&mut EncoderConfig);
    let cases: Vec<(&'static str, Mutate, &'static str)> = vec![
        (
            "target_bitrate=999",
            |c| c.target_bitrate = 999,
            "target_bitrate must be at least 1000 bps (libvpx kbps resolution)",
        ),
        (
            "target_bitrate=1_000_000_001",
            |c| c.target_bitrate = 1_000_000_001,
            "target_bitrate exceeds libvpx maximum (1_000_000_000 bps)",
        ),
        (
            "width=usize::MAX",
            |c| c.width = usize::MAX,
            "width is out of range",
        ),
        (
            "height=usize::MAX",
            |c| c.height = usize::MAX,
            "height is out of range",
        ),
        (
            "fps_denominator=0",
            |c| c.fps_denominator = 0,
            "fps_denominator must be non-zero",
        ),
        (
            "fps_numerator=0",
            |c| c.fps_numerator = 0,
            "fps_numerator must be non-zero",
        ),
        (
            "min > max",
            |c| {
                c.min_quantizer = 50;
                c.max_quantizer = 10;
            },
            "min_quantizer must not exceed max_quantizer",
        ),
        (
            "max_quantizer=64",
            |c| c.max_quantizer = 64,
            "max_quantizer must not exceed 63",
        ),
        (
            "cq_level=64",
            |c| c.cq_level = 64,
            "cq_level must not exceed 63",
        ),
    ];

    for (case_id, mutate, expected_reason) in cases {
        let mut config = vp9_encoder_config(ImageFormat::I420);
        mutate(&mut config);
        let err = Encoder::new(config)
            .err()
            .unwrap_or_else(|| panic!("case [{case_id}]: Encoder::new must fail"));
        assert_eq!(
            err.reason(None),
            Some(expected_reason),
            "case [{case_id}]: expected reason mismatch",
        );
    }
}
