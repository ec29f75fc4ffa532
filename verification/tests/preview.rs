use mondrian_media::decoder::backend::{HwAccelBackend, HwAccelDeviceSelector, Platform};
use mondrian_media::decoder::range::{DecodedVideoRange, MediaRangeInterpretation, MediaSignalRange};
use mondrian_media::decoder::surface::DecodedVideoMatrix;
use mondrian_media::info::color::ColorSpace;
use mondrian_media::path::MediaPath;
use mondrian_media::preview::access::{
    pts_distance_to_frames, PreviewDecodeAccessPolicy, SeekAnchors,
};
use mondrian_media::preview::diagnostics::{
    duration_us, PreviewDecodeDiagnostics, PreviewDecodeExecutionPath, PreviewDecodeStageDurations,
};
use mondrian_media::preview::request::{
    resolve_preview_execution_fingerprint, verify_preview_source_revision, ExpectedRevision,
    PreviewDecodeRequest, PreviewSourceColorContract, RevisionAuthority, SourceRevisionFault,
};
use mondrian_media::preview::temporal::{
    temporal_selection_is_approximate, DecodedTemporalExtent, PreviewTemporalExtentSource,
};
use mondrian_media::preview::threading::{
    apply_preview_codec_threading_policy, cap_preview_decode_threading_config,
    preview_decode_threading_config, preview_decode_threading_config_for_codec,
    PreviewDecodeCpuBudget, PreviewDecodeThreadingConfig, PreviewDecodeThreadingKind,
};
use mondrian_media::preview::timing::{
    check_source_target, decoded_frame_pts, duration_to_time_base_ticks,
    ffmpeg_source_time_arg, receive_decoded_video_frame, seek_numerator, seek_time_text,
    source_sample_to_stream_pts, source_sample_to_time_base_ticks, trace_enabled,
    DecodedVideoReceive, DecoderAnswer, SeekProjection, NO_TIMESTAMP,
};
use mondrian_media::preview::vocabulary::{
    preview_hardware_extra_frames, PreviewDecodeAccessMode, PreviewDecodeAdaptiveHints,
    PreviewDecodePath, PreviewDecodeSeekStrategy, PreviewHardwareDecodeBlocker,
    PreviewHardwareDecodeRequest, PreviewPlaybackDirection, PreviewScrubAdaptiveClass,
    PreviewSeekIndexSource,
};
use mondrian_media::text::{
    contains, parse_unsigned, push_fixed_decimal, push_list, push_signed_decimal,
    same_text_ignoring_case, to_lower_string, trim_string,
};

fn scrub() -> PreviewDecodeAccessPolicy {
    PreviewDecodeAccessPolicy::for_access_mode(PreviewDecodeAccessMode::ScrubCursor)
}

fn hints(scrub_class: PreviewScrubAdaptiveClass) -> PreviewDecodeAdaptiveHints {
    PreviewDecodeAdaptiveHints {
        scrub_class,
        playback_direction: PreviewPlaybackDirection::Forward,
    }
}

#[test]
fn access_modes_have_their_policies() {
    let playback =
        PreviewDecodeAccessPolicy::for_access_mode(PreviewDecodeAccessMode::PlaybackCursor);
    assert_eq!(playback.forward_reuse_frame_window, 48);
    assert!(playback.use_playback_ring);
    assert_eq!(scrub().seek_strategy, PreviewDecodeSeekStrategy::BoundedAnyFrame);
    assert_eq!(scrub().forward_decode_budget_frames, 240);
    assert!(scrub().keyframe_only);
    assert_eq!(playback.decode_target_pts(77), 77);
    assert!(playback.forward_decode_budget_exhausted(1800));
    assert!(!playback.forward_decode_budget_exhausted(1799));
    assert!(playback.can_continue_forward(0, 48, 1, false));
    assert!(!playback.can_continue_forward(0, 49, 1, false));
    assert!(!playback.can_continue_forward(5, 5, 1, false));
    assert!(!playback.can_continue_forward(0, 1, 1, true));
}

#[test]
fn adapting_only_narrows_scrubbing() {
    let hot = scrub().apply_adaptive_hints(hints(PreviewScrubAdaptiveClass::HotRegion));
    assert_eq!(hot.forward_decode_budget_frames, 72);
    assert_eq!(hot.any_seek_window_ms, 250);
    let slow = scrub().apply_adaptive_hints(hints(PreviewScrubAdaptiveClass::SlowLatency));
    assert_eq!((slow.forward_decode_budget_frames, slow.any_seek_window_ms), (48, 180));
    let unknown = SeekAnchors { source: PreviewSeekIndexSource::Absent, before: None, after: None };
    let adapted = scrub().adapt_for_request(
        unknown,
        100,
        1,
        hints(PreviewScrubAdaptiveClass::Normal),
    );
    assert_eq!(adapted.forward_decode_budget_frames, 96);
    let probed = SeekAnchors {
        source: PreviewSeekIndexSource::ProbeBacked,
        before: Some(0),
        after: Some(180),
    };
    let adapted =
        scrub().adapt_for_request(probed, 170, 1, hints(PreviewScrubAdaptiveClass::Normal));
    assert_eq!(adapted.forward_decode_budget_frames, 186);
    let still =
        PreviewDecodeAccessPolicy::for_access_mode(PreviewDecodeAccessMode::RandomAccessStillFrame);
    assert_eq!(
        still.adapt_for_request(probed, 170, 1, hints(PreviewScrubAdaptiveClass::Recovery)),
        still
    );
    assert_eq!(pts_distance_to_frames(7, 3), 3);
    assert_eq!(pts_distance_to_frames(-7, 3), 0);
    assert_eq!(pts_distance_to_frames(7, 0), 7);
}

#[test]
fn extents_end_where_the_next_frame_begins() {
    let frame = DecodedTemporalExtent::from_duration(100, 40);
    assert_eq!(frame.end_pts(), Some(140));
    assert!(frame.covers(100) && frame.covers(139) && !frame.covers(140));
    assert_eq!(frame.distance_to(150), 50);
    let shorter = frame.with_successor(120);
    assert_eq!(shorter.end_pts(), Some(120));
    assert_eq!(shorter.source, PreviewTemporalExtentSource::SuccessorBoundary);
    let point = DecodedTemporalExtent::point(5);
    assert!(point.covers(5) && !point.covers(6));
    assert!(!temporal_selection_is_approximate(139, Some(frame)));
    assert!(temporal_selection_is_approximate(140, Some(frame)));
    assert!(!temporal_selection_is_approximate(140, None));
}

#[test]
fn machines_keep_threads_for_interaction() {
    let small = PreviewDecodeCpuBudget::for_available_parallelism(0);
    assert_eq!((small.available_parallelism, small.decoder_threads_per_worker), (1, 1));
    let large = PreviewDecodeCpuBudget::for_available_parallelism(32);
    assert_eq!(large.reserved_interactive_threads, 2);
    assert_eq!(large.preview_worker_count, 3);
    assert_eq!(large.decoder_threads_per_worker, 10);
    assert_eq!(large.max_decoder_threads_per_worker, 12);
    let config = preview_decode_threading_config(
        PreviewDecodeAccessMode::PlaybackCursor,
        1920 * 1080,
        Some("slice"),
        Some("99"),
        large,
    );
    assert_eq!(
        config,
        PreviewDecodeThreadingConfig { kind: PreviewDecodeThreadingKind::Slice, count: 12 }
    );
    assert_eq!(cap_preview_decode_threading_config(config, Some(4)).count, 4);
    assert_eq!(cap_preview_decode_threading_config(config, None), config);
    assert_eq!(
        apply_preview_codec_threading_policy(true, config).kind,
        PreviewDecodeThreadingKind::Absent
    );
    let in_worker = |codec_is_exr: bool| {
        preview_decode_threading_config_for_codec(
            codec_is_exr,
            PreviewDecodeAccessMode::ScrubCursor,
            1920 * 1080,
            Some(7),
            None,
            Some("many"),
            large,
        )
    };
    assert_eq!(
        in_worker(false),
        PreviewDecodeThreadingConfig { kind: PreviewDecodeThreadingKind::Frame, count: 7 }
    );
    assert_eq!(
        in_worker(true),
        PreviewDecodeThreadingConfig { kind: PreviewDecodeThreadingKind::Absent, count: 1 }
    );
    assert_eq!(PreviewDecodeThreadingKind::Frame.as_str(), "Frame");
    assert_eq!(PreviewDecodeThreadingKind::from_env("sideways"), None);
}

#[test]
fn no_setting_exceeds_the_budget() {
    for parallelism in [0, 1, 2, 5, 8, 64, usize::MAX] {
        let budget = PreviewDecodeCpuBudget::for_available_parallelism(parallelism);
        for count in [None, Some("0"), Some("1"), Some("4096"), Some("-3"), Some("")] {
            let config = preview_decode_threading_config(
                PreviewDecodeAccessMode::ScrubCursor,
                3840 * 2160,
                Some("frame"),
                count,
                budget,
            );
            assert!(config.count >= 1);
            assert!(config.count <= budget.max_decoder_threads_per_worker);
        }
    }
}

#[test]
fn fresh_diagnostics_prove_software_decoding() {
    let diagnostics = PreviewDecodeDiagnostics::new(PreviewDecodePath::InProcessFfmpegCpuRgba);
    assert_eq!(diagnostics.execution_path(), PreviewDecodeExecutionPath::SoftwareCpu);
    assert_eq!(diagnostics.temporal_selection(), None);
    let probed = diagnostics.with_hw_accel_probe(&HwAccelBackend::probe(Platform::Linux));
    assert_eq!(probed.execution_path(), PreviewDecodeExecutionPath::SoftwareCpu);
    assert_eq!(
        PreviewHardwareDecodeBlocker::from_probe(&HwAccelBackend::probe(Platform::Linux)),
        PreviewHardwareDecodeBlocker::TextureResidencyNotConnected
    );
    let selected = diagnostics
        .with_temporal_selection(105, Some(DecodedTemporalExtent::from_duration(100, 40)))
        .with_elapsed(1234);
    let selection = selected.temporal_selection().expect("a selection");
    assert_eq!((selection.requested_pts, selection.selected_pts), (105, 100));
    assert!(!selection.temporal_approximation);
    assert_eq!(
        DecodedTemporalExtent::from_diagnostics(selected),
        Some(DecodedTemporalExtent::from_duration(100, 40))
    );
    for extent in [
        DecodedTemporalExtent::point(7),
        DecodedTemporalExtent::from_duration(-5, 3).with_successor(9),
    ] {
        assert_eq!(
            DecodedTemporalExtent::from_diagnostics(
                diagnostics.with_temporal_selection(1, Some(extent))
            ),
            Some(extent)
        );
    }
    assert_eq!(
        DecodedTemporalExtent::from_diagnostics(diagnostics.with_temporal_selection(1, None)),
        None
    );
    assert_eq!(selected.elapsed_us, 1234);
    assert!(PreviewDecodeDiagnostics::playback_ring_hit(1).cache_hit);
    assert_eq!(duration_us(u128::MAX), u64::MAX);
    let mut total = PreviewDecodeStageDurations::default();
    total.accumulate(PreviewDecodeStageDurations { seek_us: u64::MAX, ..total });
    total.accumulate(PreviewDecodeStageDurations { seek_us: 5, ..PreviewDecodeStageDurations::default() });
    assert_eq!(total.seek_us, u64::MAX);
}

#[test]
fn requests_carry_their_color_contract() {
    let color = PreviewSourceColorContract::from_interpretation(
        ColorSpace::Rec709,
        MediaRangeInterpretation::Override { range: MediaSignalRange::Full },
        DecodedVideoRange::Limited,
    )
    .with_yuv_matrix_fallback(DecodedVideoMatrix::Bt709);
    assert_eq!(color.color_space(), Some(ColorSpace::Rec709));
    assert_eq!(color.yuv_matrix_fallback, Some(DecodedVideoMatrix::Bt709));
    assert!(!color.is_data_texture());
    assert!(PreviewSourceColorContract::data_texture(color.range).is_data_texture());
    assert!(!color.is_scene_linear(&[ColorSpace::LinearRec709]));
    let linear =
        PreviewSourceColorContract::automatic(ColorSpace::LinearRec709, DecodedVideoRange::Full);
    assert!(linear.is_scene_linear(&[ColorSpace::LinearRec709]));
    let path = MediaPath::from_component(b"clip.mov".to_vec());
    let request: PreviewDecodeRequest<'_, i64, u8, u64, u8> = PreviewDecodeRequest::new(
        &path,
        42,
        PreviewDecodeAccessMode::PlaybackCursor,
        color,
        1,
    );
    let request = request
        .with_video_stream_index(2)
        .with_max_size(Some(640), None)
        .with_fingerprint(9)
        .with_hardware_decode_request(PreviewHardwareDecodeRequest::RequireGpuResident)
        .with_hardware_decode_device_selector(Some(HwAccelDeviceSelector::D3D12VaAdapterIndex(0)));
    assert_eq!(request.path.bytes, b"clip.mov");
    assert_eq!(request.video_stream_index, Some(2));
    assert_eq!((request.max_width, request.max_height), (Some(640), None));
    assert_eq!(request.fingerprint, Some(9));
    assert!(request.hardware_decode_request.requires_gpu_residency());
    assert!(PreviewHardwareDecodeRequest::PreferGpuResident.prefers_gpu_residency());
    assert_eq!(preview_hardware_extra_frames(PreviewHardwareDecodeRequest::Auto), 0);
}

#[test]
fn revisions_decide_whether_a_source_may_be_read() {
    let whole = ExpectedRevision { complete: true, unchanged: true };
    assert_eq!(verify_preview_source_revision(whole), Ok(()));
    assert_eq!(
        verify_preview_source_revision(ExpectedRevision { unchanged: false, ..whole }),
        Err(SourceRevisionFault::Changed)
    );
    assert_eq!(
        resolve_preview_execution_fingerprint(
            Some(ExpectedRevision { complete: false, unchanged: true }),
            true
        ),
        Err(SourceRevisionFault::RequestIncomplete)
    );
    assert_eq!(
        resolve_preview_execution_fingerprint(Some(whole), false),
        Ok(RevisionAuthority::Request)
    );
    assert_eq!(
        resolve_preview_execution_fingerprint(None, true),
        Ok(RevisionAuthority::File)
    );
    assert_eq!(
        resolve_preview_execution_fingerprint(None, false),
        Err(SourceRevisionFault::FileIncomplete)
    );
}

#[test]
fn source_times_are_projected_with_care() {
    assert_eq!(check_source_target("1/2s", false, 1, 25), Ok(()));
    assert_eq!(
        check_source_target("-1s", true, 1, 25),
        Err("negative media source target is invalid: -1s".to_owned())
    );
    assert_eq!(
        check_source_target("1s", false, 0, -25),
        Err("invalid FFmpeg time base 0/-25 for source target 1s".to_owned())
    );
    assert_eq!(source_sample_to_time_base_ticks("1s", false, 1, 25, Ok(25)), Ok(25));
    assert_eq!(
        source_sample_to_time_base_ticks("-1s", true, 0, 25, Ok(25)),
        Err("negative media source target is invalid: -1s".to_owned())
    );
    assert_eq!(
        source_sample_to_time_base_ticks("1s", false, 1, 25, Ok(-1)),
        Err("media source target precedes origin: 1s".to_owned())
    );
    assert_eq!(
        source_sample_to_time_base_ticks("1s", false, 1, 25, Err("too far".to_owned())),
        Err("source target cannot project to FFmpeg PTS: too far".to_owned())
    );
    assert_eq!(source_sample_to_stream_pts("1s", false, 1, 25, Ok(25), 100), Ok(125));
    assert_eq!(
        source_sample_to_stream_pts("1s", false, 1, -25, Ok(25), 100),
        Err("invalid FFmpeg time base 1/-25 for source target 1s".to_owned())
    );
    assert_eq!(
        source_sample_to_stream_pts("1s", false, 1, 25, Ok(1), i64::MAX),
        Err(format!(
            "source target PTS overflow: target=1s stream_time_base=1/25 start_pts={}",
            i64::MAX
        ))
    );
    assert_eq!(duration_to_time_base_ticks("2s", false, 1, 25, Ok(50)), Ok(50));
    assert!(duration_to_time_base_ticks("2s", true, 1, 25, Ok(50)).is_err());
    assert_eq!(seek_numerator("1s", false, 3, 25, Ok(7)), Ok(21));
    assert_eq!(
        seek_numerator("1s", false, 2, 25, Ok(i64::MAX)),
        Err("source seek time overflow: 1s".to_owned())
    );
    assert_eq!(seek_time_text(12_000_034), "12.000034");
    assert_eq!(
        ffmpeg_source_time_arg(SeekProjection::Micros(12_000_034)),
        Ok("12.000034".to_owned())
    );
    assert_eq!(
        ffmpeg_source_time_arg(SeekProjection::Invalid("zero".to_owned())),
        Err("invalid source seek time: zero".to_owned())
    );
    assert_eq!(
        ffmpeg_source_time_arg(SeekProjection::Unprojected("wide".to_owned())),
        Err("source seek time cannot project to microseconds: wide".to_owned())
    );
}

#[test]
fn decoder_answers_are_told_apart() {
    assert_eq!(decoded_frame_pts(Some(4), 9), Some(4));
    assert_eq!(decoded_frame_pts(None, 9), Some(9));
    assert_eq!(decoded_frame_pts(None, NO_TIMESTAMP), None);
    assert_eq!(
        receive_decoded_video_frame(DecoderAnswer::Frame { pts: None, best_effort: 3 }),
        Ok(DecodedVideoReceive::Frame { pts: Some(3) })
    );
    assert_eq!(
        receive_decoded_video_frame(DecoderAnswer::Again),
        Ok(DecodedVideoReceive::NeedInput)
    );
    assert_eq!(
        receive_decoded_video_frame(DecoderAnswer::Eof),
        Ok(DecodedVideoReceive::EndOfStream)
    );
    assert!(receive_decoded_video_frame(DecoderAnswer::Error("broken".to_owned())).is_err());
    assert!(trace_enabled(Some("1")));
    assert!(!trace_enabled(None));
}

#[test]
fn texts_are_compared_by_character() {
    let mut out = String::new();
    push_signed_decimal(&mut out, -30);
    push_fixed_decimal(&mut out, 7, 3);
    push_list(&mut out, &vec![1, 20]);
    assert_eq!(out, "-30007[1, 20]");
    assert_eq!(trim_string("\u{a0}x y \n"), "x y");
    assert_eq!(to_lower_string("ÄBc"), "Äbc");
    assert!(same_text_ignoring_case("SLog3", "slOG3"));
    assert!(contains("s-gamut3", "gamut") && !contains("log", "slog"));
    assert_eq!(parse_unsigned("+12"), Some(12));
    assert_eq!(parse_unsigned("18446744073709551616"), None);
    assert_eq!(parse_unsigned(" 1"), None);
}
