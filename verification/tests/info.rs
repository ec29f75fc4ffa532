use mondrian_media::camera_raw::dng::{
    CameraRawAdapter, CameraRawCfaPattern, CameraRawMetadata,
};
use mondrian_media::camera_raw::tiff::Endian;
use mondrian_media::info::color::{
    ColorSpace, DetectedColorInterpretation, IccColorProfileHint, IccColorSpaceMapping,
    VideoColorDetectionMethod, VideoColorInterpretationConfidence,
    VideoColorInterpretationEvidence, VideoColorInterpretationWarning, VideoColorMetadata,
    VideoColorMetadataDeclaration, VideoColorMetadataHint, VideoColorMetadataHintAuthority,
    VideoColorMetadataHintScope, VideoColorSpaceSource, VideoColorTag,
};
use mondrian_media::info::detection::{
    detect_color_space_from_metadata, icc_profile_evidence, interpret_video_color_metadata,
    metadata_hint_evidence, ColorAuthorities, UnresolvedCicpMetadata,
    VideoColorMetadataDeclarationResolution,
};
use mondrian_media::info::diagnostics::{
    DecodedVideoRange, DiagnosticTexts, VideoColorDiagnostic, VideoColorDiagnosticIssueAggregate,
    VideoColorDiagnosticIssueSummary,
};
use mondrian_media::info::hdr::{
    collect_frame_hdr_metadata_summaries, icc_color_profile_hint, map_hdr_side_data_kind,
    merge_hdr_metadata, parse_hdr_metadata_payload_for_kind, summarize_hdr_side_data,
    video_stream_needs_frame_hdr_probe, VideoContentLightMetadata, VideoHdrChromaticity,
    VideoHdrMetadataPayload, VideoHdrMetadataSummary, VideoHdrRational, VideoHdrSideDataKind,
    VideoIccProfileMetadata, VideoMasteringDisplayMetadata, CONTENT_LIGHT_BYTES,
    MASTERING_DISPLAY_BYTES,
};
use mondrian_media::info::hints::{
    metadata_hint_scope_priority, normalize_metadata_hint_text, order_hints,
    parse_video_color_metadata_hint,
};
use mondrian_media::info::probe::{
    assemble_probe_snapshot, collect_color_metadata_hints, describe_audio_stream,
    describe_video_stream, first_frame_step, media_probe_slow_threshold_ms,
    proven_pixel_format, stream_color_hints, AudioDecoderReport, AudioStreamReport,
    FirstFrameStep, PictureProbe, PictureProbeStep,
    ReceiveOutcome, VideoDecoderReport, VideoStreamReport, MAX_PROBE_PACKETS,
};
use mondrian_media::info::stream::{
    canonicalize_frame_rate, duration_from_stream_ticks, exact_signal_layout_from_ffmpeg_mask,
    map_audio_codec, map_channel_layout, map_pixel_format, map_rational, map_video_codec,
    map_video_codec_profile, normalized_stream_metadata, AudioChannelLayout, AudioChannelPosition,
    AudioCodec, ChannelLayout, PixelFormat, Rational, VideoCodec, VideoCodecProfile,
};

/// The code and the name of a tag, as decoders report them.
type Tag = (i32, Option<&'static str>);

struct Primaries;

#[allow(non_upper_case_globals)]
impl Primaries {
    const BT709: Tag = (1, Some("bt709"));
    const Unspecified: Tag = (2, None);
    const BT470BG: Tag = (5, Some("bt470bg"));
    const SMPTE170M: Tag = (6, Some("smpte170m"));
    const BT2020: Tag = (9, Some("bt2020"));
    const SMPTE432: Tag = (12, Some("smpte432"));
}

struct TransferCharacteristic;

#[allow(non_upper_case_globals)]
impl TransferCharacteristic {
    const BT709: Tag = (1, Some("bt709"));
    const Unspecified: Tag = (2, None);
    const GAMMA28: Tag = (5, Some("bt470bg"));
    const SMPTE170M: Tag = (6, Some("smpte170m"));
    const SMPTE2084: Tag = (16, Some("smpte2084"));
    const ARIB_STD_B67: Tag = (18, Some("arib-std-b67"));
}

struct Space;

#[allow(non_upper_case_globals)]
impl Space {
    const RGB: Tag = (0, Some("gbr"));
    const BT709: Tag = (1, Some("bt709"));
    const Unspecified: Tag = (2, None);
    const BT470BG: Tag = (5, Some("bt470bg"));
    const SMPTE170M: Tag = (6, Some("smpte170m"));
    const BT2020NCL: Tag = (9, Some("bt2020nc"));
}

fn capture_color_metadata(primaries: Tag, transfer: Tag, matrix: Tag) -> VideoColorMetadata {
    let tag = |(code, name): Tag| VideoColorTag::from_code(code, name.map(str::to_owned));
    VideoColorMetadata {
        primaries: tag(primaries),
        transfer: tag(transfer),
        matrix: tag(matrix),
    }
}

/// What tags and declarations stand for, for the tags that these tests use.
fn authorities(
    metadata: &VideoColorMetadata,
    hints: &[VideoColorMetadataHint],
) -> ColorAuthorities {
    let exact_cicp = match (metadata.primaries.code, metadata.transfer.code) {
        (1, 1) => Some(ColorSpace::Rec709),
        (5, 5) => Some(ColorSpace::Rec601Pal),
        (6, 6) => Some(ColorSpace::Rec601Ntsc),
        (9, 16) => Some(ColorSpace::Rec2100Pq),
        (9, 18) => Some(ColorSpace::Rec2100Hlg),
        _ => None,
    };
    let hinted_cicp = match (
        metadata.primaries.code,
        metadata.transfer.code,
        metadata.matrix.code,
    ) {
        (2, 2, 1) => Some(ColorSpace::Rec709),
        _ => exact_cicp,
    };
    let mut declarations = VideoColorMetadataDeclarationResolution::Undeclared;
    for scope in [
        VideoColorMetadataHintScope::Stream,
        VideoColorMetadataHintScope::Container,
        VideoColorMetadataHintScope::FileName,
    ] {
        let named: Vec<ColorSpace> = hints
            .iter()
            .filter(|hint| hint.scope == scope && hint.is_executable_declaration())
            .map(|hint| hint.detected_color_space)
            .collect();
        if let Some(first) = named.first() {
            declarations = if named.iter().all(|space| space == first) {
                VideoColorMetadataDeclarationResolution::Unique { scope, color_space: *first }
            } else {
                VideoColorMetadataDeclarationResolution::Conflicting { disputed: scope }
            };
            break;
        }
    }
    ColorAuthorities { exact_cicp, hinted_cicp, declarations }
}

fn detect(
    metadata: &VideoColorMetadata,
    hints: &[VideoColorMetadataHint],
    icc_profile: Option<&IccColorProfileHint>,
) -> DetectedColorInterpretation {
    detect_color_space_from_metadata(metadata, hints, icc_profile, authorities(metadata, hints))
}

fn interpret(
    metadata: &VideoColorMetadata,
    hints: &[VideoColorMetadataHint],
) -> DetectedColorInterpretation {
    interpret_video_color_metadata(metadata, hints, authorities(metadata, hints))
}

fn detect_color_space(primaries: Tag, transfer: Tag, matrix: Tag) -> DetectedColorInterpretation {
    detect(&capture_color_metadata(primaries, transfer, matrix), &[], None)
}

fn speakers(positions: &[AudioChannelPosition]) -> AudioChannelLayout {
    AudioChannelLayout::Speakers(positions.to_vec())
}

#[test]
fn detect_color_space_marks_hdr_transfer_metadata() {
    let pq = detect_color_space(
        Primaries::BT2020,
        TransferCharacteristic::SMPTE2084,
        Space::BT2020NCL,
    );
    assert_eq!(pq.candidate_color_space, Some(ColorSpace::Rec2100Pq));
    assert_eq!(pq.confidence, VideoColorInterpretationConfidence::High);
    assert_eq!(pq.source, VideoColorSpaceSource::Metadata);
    assert_eq!(pq.method, VideoColorDetectionMethod::CicpTags);
    assert!(matches!(
        pq.evidence.first(),
        Some(VideoColorInterpretationEvidence::ExactCicpTags {
            detected_color_space: ColorSpace::Rec2100Pq,
            ..
        })
    ));

    let hlg = detect_color_space(
        Primaries::BT2020,
        TransferCharacteristic::ARIB_STD_B67,
        Space::BT2020NCL,
    );
    assert_eq!(hlg.candidate_color_space, Some(ColorSpace::Rec2100Hlg));
    assert_eq!(hlg.confidence, VideoColorInterpretationConfidence::High);
    assert_eq!(hlg.source, VideoColorSpaceSource::Metadata);
    assert_eq!(hlg.method, VideoColorDetectionMethod::CicpTags);
}

#[test]
fn unsupported_cicp_combination_remains_unknown_with_raw_evidence() {
    let metadata = capture_color_metadata(
        Primaries::SMPTE432,
        TransferCharacteristic::SMPTE2084,
        Space::RGB,
    );
    let detection =
        detect(&metadata, &[], None);

    assert_eq!(detection.candidate_color_space, None);
    assert_eq!(
        detection.confidence,
        VideoColorInterpretationConfidence::Absent
    );
    assert_eq!(detection.source, VideoColorSpaceSource::UnsupportedMetadata);
    assert_eq!(
        detection.method,
        VideoColorDetectionMethod::UnsupportedCicpTags
    );
    assert!(matches!(
        detection.evidence.first(),
        Some(VideoColorInterpretationEvidence::UnsupportedCicpTags {
            primaries,
            transfer,
            matrix,
        }) if primaries.name.as_deref() == Some("smpte432")
            && transfer.name.as_deref() == Some("smpte2084")
            && matrix.name.as_deref().is_some_and(|name| name == "gbr" || name == "rgb")
    ));
    assert!(detection
        .warnings
        .contains(&VideoColorInterpretationWarning::UnsupportedCicpTags));
    assert!(!detection.warnings.iter().any(|warning| matches!(
        warning,
        VideoColorInterpretationWarning::PartialCicpTags { .. }
    )));

    let diagnostic = VideoColorDiagnostic {
        color_range: DecodedVideoRange::Full,
        executable: None,
        interpretation: detection,
        metadata: Some(metadata),
        metadata_hints: Vec::new(),
        hdr_metadata: Vec::new(),
    };
    let summary = diagnostic.issue_summary();
    assert_eq!(summary.missing_cicp_tags, 0);
    assert_eq!(summary.unsupported_cicp_tags, 1);

    let mut aggregate = VideoColorDiagnosticIssueAggregate::default();
    aggregate.observe(&diagnostic);
    assert_eq!(aggregate.method_missing_metadata, 0);
    assert_eq!(aggregate.method_unsupported_cicp_tags, 1);
    assert_eq!(aggregate.missing_cicp_tags, 0);
    assert_eq!(aggregate.unsupported_cicp_tags, 1);
}

#[test]
fn declared_camera_metadata_preserves_unsupported_cicp_as_a_warning() {
    let metadata = capture_color_metadata(
        Primaries::SMPTE432,
        TransferCharacteristic::SMPTE2084,
        Space::RGB,
    );
    let hint = parse_video_color_metadata_hint(
        VideoColorMetadataHintScope::Stream,
        "camera_profile",
        "ARRI LogC4 / AWG4",
    )
    .expect("declared camera profile");

    let detection = interpret(&metadata, std::slice::from_ref(&hint));

    assert_eq!(
        detection.candidate_color_space,
        Some(ColorSpace::ArriLogC4WideGamut4)
    );
    assert_eq!(detection.source, VideoColorSpaceSource::Metadata);
    assert_eq!(detection.method, VideoColorDetectionMethod::MetadataHint);
    assert!(detection
        .warnings
        .contains(&VideoColorInterpretationWarning::UnsupportedCicpTags));
    assert!(detection.evidence.iter().any(|evidence| matches!(
        evidence,
        VideoColorInterpretationEvidence::UnsupportedCicpTags { .. }
    )));
}

#[test]
fn detect_color_space_does_not_invent_srgb_from_rgb_sampling() {
    let detection = detect_color_space(
        Primaries::BT709,
        TransferCharacteristic::Unspecified,
        Space::RGB,
    );

    assert_eq!(detection.candidate_color_space, None);
    assert_eq!(
        detection.confidence,
        VideoColorInterpretationConfidence::Absent
    );
    assert_eq!(detection.source, VideoColorSpaceSource::UnsupportedMetadata);
    assert_eq!(
        detection.method,
        VideoColorDetectionMethod::UnsupportedCicpTags
    );
    assert!(detection
        .warnings
        .contains(&VideoColorInterpretationWarning::UnsupportedCicpTags));
}

#[test]
fn detect_color_space_uses_rgb_sampling_without_losing_rec709_colorimetry() {
    let detection =
        detect_color_space(Primaries::BT709, TransferCharacteristic::BT709, Space::RGB);

    assert_eq!(detection.candidate_color_space, Some(ColorSpace::Rec709));
    assert_eq!(detection.source, VideoColorSpaceSource::Metadata);
    assert_eq!(detection.method, VideoColorDetectionMethod::CicpTags);
}

#[test]
fn detect_color_space_recognizes_exact_pal_and_ntsc_rec601_tags() {
    let pal = detect_color_space(
        Primaries::BT470BG,
        TransferCharacteristic::GAMMA28,
        Space::BT470BG,
    );
    assert_eq!(pal.candidate_color_space, Some(ColorSpace::Rec601Pal));
    assert_eq!(pal.confidence, VideoColorInterpretationConfidence::High);

    let ntsc = detect_color_space(
        Primaries::SMPTE170M,
        TransferCharacteristic::SMPTE170M,
        Space::SMPTE170M,
    );
    assert_eq!(ntsc.candidate_color_space, Some(ColorSpace::Rec601Ntsc));
    assert_eq!(ntsc.confidence, VideoColorInterpretationConfidence::High);
}

#[test]
fn detect_color_space_uses_matrix_metadata_when_primaries_are_missing() {
    let detection = detect_color_space(
        Primaries::Unspecified,
        TransferCharacteristic::Unspecified,
        Space::BT709,
    );

    assert_eq!(detection.candidate_color_space, Some(ColorSpace::Rec709));
    assert_eq!(
        detection.confidence,
        VideoColorInterpretationConfidence::Medium
    );
    assert_eq!(detection.source, VideoColorSpaceSource::Metadata);
    assert_eq!(detection.method, VideoColorDetectionMethod::CicpTags);
    assert!(matches!(
        detection.evidence.first(),
        Some(VideoColorInterpretationEvidence::PartialCicpTags {
            detected_color_space: ColorSpace::Rec709,
            ..
        })
    ));
}

#[test]
fn explicit_supported_yuv_matrix_is_independent_of_rgb_colorimetry() {
    let detection = detect_color_space(
        Primaries::BT709,
        TransferCharacteristic::BT709,
        Space::BT2020NCL,
    );

    assert_eq!(detection.candidate_color_space, Some(ColorSpace::Rec709));
}

#[test]
fn detect_color_space_does_not_claim_missing_metadata_as_rec709() {
    let detection = detect_color_space(
        Primaries::Unspecified,
        TransferCharacteristic::Unspecified,
        Space::Unspecified,
    );

    assert_eq!(detection.candidate_color_space, None);
    assert_eq!(
        detection.confidence,
        VideoColorInterpretationConfidence::Absent
    );
    assert_eq!(detection.source, VideoColorSpaceSource::MissingMetadata);
    assert_eq!(detection.method, VideoColorDetectionMethod::MissingMetadata);
    assert!(detection.warnings.contains(&VideoColorInterpretationWarning::MissingCicpTags));
}

#[test]
fn detect_color_space_uses_icc_profile_when_cicp_is_missing() {
    let metadata = capture_color_metadata(
        Primaries::Unspecified,
        TransferCharacteristic::Unspecified,
        Space::Unspecified,
    );
    let icc_profile = IccColorProfileHint {
        mapping: IccColorSpaceMapping::Mapped { color_space: ColorSpace::DisplayP3 },
        profile_name: Some("Display P3".to_owned()),
    };

    let detection = detect(&metadata, &[], Some(&icc_profile));

    assert_eq!(detection.candidate_color_space, Some(ColorSpace::DisplayP3));
    assert_eq!(
        detection.confidence,
        VideoColorInterpretationConfidence::Medium
    );
    assert_eq!(detection.source, VideoColorSpaceSource::Metadata);
    assert_eq!(detection.method, VideoColorDetectionMethod::IccProfile);
    assert!(
        detection.evidence.contains(&VideoColorInterpretationEvidence::IccProfile {
            mapped_color_space: Some(ColorSpace::DisplayP3),
            profile_name: Some("Display P3".to_owned()),
        })
    );
    assert!(detection.warnings.contains(&VideoColorInterpretationWarning::MissingCicpTags));
}

#[test]
fn icc_profile_keeps_conflicting_descriptive_hint_as_ignored_evidence() {
    let metadata = capture_color_metadata(
        Primaries::Unspecified,
        TransferCharacteristic::Unspecified,
        Space::Unspecified,
    );
    let hint = VideoColorMetadataHint {
        scope: VideoColorMetadataHintScope::Container,
        key: "comment".to_string(),
        value: "converted from Apple Log".to_string(),
        detected_color_space: ColorSpace::AppleLogBt2020,
        authority: VideoColorMetadataHintAuthority::DiagnosticSuggestion,
    };
    let icc_profile = IccColorProfileHint {
        mapping: IccColorSpaceMapping::Mapped { color_space: ColorSpace::DisplayP3 },
        profile_name: Some("Display P3".to_owned()),
    };

    let detection = detect(&metadata, std::slice::from_ref(&hint), Some(&icc_profile));

    assert_eq!(detection.candidate_color_space, Some(ColorSpace::DisplayP3));
    assert_eq!(detection.method, VideoColorDetectionMethod::IccProfile);
    assert!(detection.evidence.contains(&metadata_hint_evidence(&hint)));
    assert!(detection.warnings.contains(
        &VideoColorInterpretationWarning::LowerPriorityMetadataHints {
            selected_method: VideoColorDetectionMethod::IccProfile,
            selected_color_space: ColorSpace::DisplayP3,
            ignored: vec![hint],
        }
    ));
}

#[test]
fn unmapped_icc_profile_never_becomes_implicit_rec709() {
    let metadata = capture_color_metadata(
        Primaries::Unspecified,
        TransferCharacteristic::Unspecified,
        Space::Unspecified,
    );
    let icc_profile = IccColorProfileHint {
        mapping: IccColorSpaceMapping::Unmapped {
            profile_color_space: "RGB".to_owned(),
            reason: "generic RGB profile has no managed mapping".to_owned(),
        },
        profile_name: Some("Generic Monitor Profile".to_owned()),
    };

    let detection = detect(&metadata, &[], Some(&icc_profile));

    assert_eq!(detection.candidate_color_space, None);
    assert_eq!(
        detection.confidence,
        VideoColorInterpretationConfidence::Absent
    );
    assert_eq!(detection.method, VideoColorDetectionMethod::MissingMetadata);
    assert!(
        detection.evidence.contains(&VideoColorInterpretationEvidence::IccProfile {
            mapped_color_space: None,
            profile_name: Some("Generic Monitor Profile".to_owned()),
        })
    );
    assert!(detection.warnings.iter().any(|warning| matches!(
        warning,
        VideoColorInterpretationWarning::IccProfileUnmapped { profile_name, reason }
            if profile_name.as_deref() == Some("Generic Monitor Profile")
                && reason.contains("no managed mapping")
    )));

    let diagnostic = VideoColorDiagnostic {
        color_range: DecodedVideoRange::Unknown,
        executable: None,
        interpretation: detection,
        metadata: Some(metadata),
        metadata_hints: Vec::new(),
        hdr_metadata: vec![VideoHdrMetadataSummary {
            kind: VideoHdrSideDataKind::IccProfile,
            payload_size: 128,
            payload: None,
        }],
    };
    let summary = diagnostic.issue_summary();
    assert_eq!(summary.icc_profile_unmapped, 1);
    assert!(summary.has_icc_profile);
    assert!(summary.has_user_visible_warnings);
}

#[test]
fn unmapped_icc_does_not_hide_complete_low_confidence_metadata_hint() {
    let metadata = capture_color_metadata(
        Primaries::Unspecified,
        TransferCharacteristic::Unspecified,
        Space::Unspecified,
    );
    let hint = VideoColorMetadataHint {
        scope: VideoColorMetadataHintScope::FileName,
        key: "filename".to_owned(),
        value: "A001_Sony_S-Log3_S-Gamut3.Cine.mov".to_owned(),
        detected_color_space: ColorSpace::SonySLog3SGamut3Cine,
        authority: VideoColorMetadataHintAuthority::DiagnosticSuggestion,
    };
    let icc_profile = IccColorProfileHint {
        mapping: IccColorSpaceMapping::Unmapped {
            profile_color_space: "RGB".to_owned(),
            reason: "unknown primaries".to_owned(),
        },
        profile_name: Some("Unknown RGB".to_owned()),
    };

    let detection = detect(&metadata, std::slice::from_ref(&hint), Some(&icc_profile));

    assert_eq!(
        detection.candidate_color_space,
        Some(ColorSpace::SonySLog3SGamut3Cine)
    );
    assert_eq!(
        detection.confidence,
        VideoColorInterpretationConfidence::Low
    );
    assert!(detection.evidence.contains(&icc_profile_evidence(&icc_profile)));
    assert!(detection.warnings.iter().any(|warning| matches!(
        warning,
        VideoColorInterpretationWarning::IccProfileUnmapped { .. }
    )));
}

#[test]
fn detect_color_space_reports_icc_cicp_mismatch_without_changing_cicp_decision() {
    let metadata = capture_color_metadata(
        Primaries::BT709,
        TransferCharacteristic::BT709,
        Space::BT709,
    );
    let icc_profile = IccColorProfileHint {
        mapping: IccColorSpaceMapping::Mapped { color_space: ColorSpace::DisplayP3 },
        profile_name: Some("Display P3".to_owned()),
    };

    let detection = detect(&metadata, &[], Some(&icc_profile));

    assert_eq!(detection.candidate_color_space, Some(ColorSpace::Rec709));
    assert_eq!(
        detection.confidence,
        VideoColorInterpretationConfidence::High
    );
    assert_eq!(detection.method, VideoColorDetectionMethod::CicpTags);
    assert!(
        detection.evidence.contains(&VideoColorInterpretationEvidence::IccProfile {
            mapped_color_space: Some(ColorSpace::DisplayP3),
            profile_name: Some("Display P3".to_owned()),
        })
    );
    assert!(
        detection.warnings.contains(&VideoColorInterpretationWarning::IccCicpMismatch {
            icc_color_space: ColorSpace::DisplayP3,
            cicp_color_space: ColorSpace::Rec709,
        })
    );
}

#[test]
fn metadata_hint_identifies_camera_log_spaces() {
    let slog3 = parse_video_color_metadata_hint(
        VideoColorMetadataHintScope::Stream,
        "com.sony.colorProfile",
        "S-Log3 / S-Gamut3.Cine",
    )
    .expect("slog3 metadata hint");
    assert_eq!(slog3.detected_color_space, ColorSpace::SonySLog3SGamut3Cine);
    assert!(slog3.is_executable_declaration());

    let apple_log = parse_video_color_metadata_hint(
        VideoColorMetadataHintScope::Container,
        "com.apple.proapps.cameraLog",
        "Apple Log",
    )
    .expect("apple log metadata hint");
    assert_eq!(apple_log.detected_color_space, ColorSpace::AppleLogBt2020);
    assert!(apple_log.is_executable_declaration());

    let logc4 = parse_video_color_metadata_hint(
        VideoColorMetadataHintScope::Stream,
        "camera_profile",
        "ARRI LogC4",
    )
    .expect("arri logc4 metadata hint");
    assert_eq!(logc4.detected_color_space, ColorSpace::ArriLogC4WideGamut4);
    assert_eq!(
        logc4.authority,
        VideoColorMetadataHintAuthority::DiagnosticSuggestion,
        "a generic dictionary key has no acquisition-source semantics"
    );
}

#[test]
fn arbitrary_key_with_declaration_suffix_stays_diagnostic_only() {
    let metadata = capture_color_metadata(
        Primaries::Unspecified,
        TransferCharacteristic::Unspecified,
        Space::Unspecified,
    );
    let hint = parse_video_color_metadata_hint(
        VideoColorMetadataHintScope::Stream,
        "not_a_color_space",
        "S-Log3 / S-Gamut3.Cine",
    )
    .expect("recognized value remains visible as a diagnostic candidate");

    assert_eq!(
        hint.authority,
        VideoColorMetadataHintAuthority::DiagnosticSuggestion
    );
    let detection = interpret(&metadata, std::slice::from_ref(&hint));
    assert_eq!(
        detection.candidate_color_space,
        Some(ColorSpace::SonySLog3SGamut3Cine)
    );
}

#[test]
fn namespaced_camera_profile_is_an_explicit_high_confidence_declaration() {
    let metadata = capture_color_metadata(
        Primaries::BT709,
        TransferCharacteristic::BT709,
        Space::BT709,
    );
    let hint = parse_video_color_metadata_hint(
        VideoColorMetadataHintScope::Stream,
        "com.sony.colorProfile",
        "S-Log3 / S-Gamut3.Cine",
    )
    .expect("complete Sony color profile declaration");

    let detection = interpret(&metadata, std::slice::from_ref(&hint));

    assert_eq!(
        detection.candidate_color_space,
        Some(ColorSpace::SonySLog3SGamut3Cine)
    );
    assert_eq!(
        detection.confidence,
        VideoColorInterpretationConfidence::High
    );
    assert!(detection.warnings.contains(
        &VideoColorInterpretationWarning::MetadataHintOverridesCicpTags {
            selected: hint,
            cicp_color_space: ColorSpace::Rec709,
            cicp_metadata: metadata,
        }
    ));
}

#[test]
fn metadata_hint_identifies_scene_linear_aces_and_slog2_sources() {
    for (key, value, expected) in [
        ("oiio:ColorSpace", "ACES2065-1", ColorSpace::Aces2065_1),
        ("ocio:ColorSpace", "ACEScg", ColorSpace::AcesCg),
        ("ocio:ColorSpace", "ACEScct", ColorSpace::AcesCct),
        (
            "ocio:ColorSpace",
            "Linear Rec.2020",
            ColorSpace::LinearRec2020,
        ),
        (
            "camera_profile",
            "Sony S-Log2 / S-Gamut",
            ColorSpace::SonySLog2SGamut,
        ),
    ] {
        let hint =
            parse_video_color_metadata_hint(VideoColorMetadataHintScope::Stream, key, value)
                .unwrap_or_else(|| panic!("missing metadata hint for {key}={value}"));
        assert_eq!(hint.detected_color_space, expected);
    }
}

#[test]
fn declared_metadata_parser_covers_every_supported_camera_log_gamut_pair() {
    let cases = [
        ("Apple Log", ColorSpace::AppleLogBt2020),
        ("Sony S-Log2 / S-Gamut", ColorSpace::SonySLog2SGamut),
        ("Sony S-Log3 / S-Gamut3", ColorSpace::SonySLog3SGamut3),
        (
            "Sony S-Log3 / S-Gamut3.Cine",
            ColorSpace::SonySLog3SGamut3Cine,
        ),
        ("ARRI LogC3 / AWG3", ColorSpace::ArriLogC3WideGamut3),
        ("ARRI LogC4 / AWG4", ColorSpace::ArriLogC4WideGamut4),
        (
            "Canon Log2 / Cinema Gamut D55",
            ColorSpace::CanonLog2CinemaGamutD55,
        ),
        (
            "Canon Log3 / Cinema Gamut D55",
            ColorSpace::CanonLog3CinemaGamutD55,
        ),
        ("Panasonic V-Log / V-Gamut", ColorSpace::PanasonicVLogVGamut),
        (
            "RED Log3G10 / REDWideGamutRGB",
            ColorSpace::RedLog3G10WideGamutRgb,
        ),
        (
            "Blackmagic Film / Wide Gamut Gen 5",
            ColorSpace::BlackmagicFilmWideGamutGen5,
        ),
        ("DJI D-Log / D-Gamut", ColorSpace::DjiDLogDGamut),
        (
            "DaVinci Intermediate / Wide Gamut",
            ColorSpace::DavinciIntermediateWideGamut,
        ),
    ];

    for (value, expected) in cases {
        let hint = parse_video_color_metadata_hint(
            VideoColorMetadataHintScope::Stream,
            "camera_profile",
            value,
        )
        .unwrap_or_else(|| panic!("supported metadata declaration was not parsed: {value}"));
        assert_eq!(hint.detected_color_space, expected, "value={value}");
    }
}

#[test]
fn complete_filename_pair_is_only_a_low_confidence_fallback() {
    let metadata = capture_color_metadata(
        Primaries::Unspecified,
        TransferCharacteristic::Unspecified,
        Space::Unspecified,
    );
    let hint = parse_video_color_metadata_hint(
        VideoColorMetadataHintScope::FileName,
        "filename",
        "A001_Sony_S-Log3_S-Gamut3.Cine.mov",
    )
    .expect("complete filename pair should be preserved as evidence");

    let detection = interpret(&metadata, std::slice::from_ref(&hint));

    assert_eq!(
        detection.candidate_color_space,
        Some(ColorSpace::SonySLog3SGamut3Cine)
    );
    assert_eq!(
        detection.confidence,
        VideoColorInterpretationConfidence::Low
    );
    assert!(detection.warnings.contains(
        &VideoColorInterpretationWarning::DescriptiveMetadataHintInference { selected: hint }
    ));
}

#[test]
fn metadata_hint_ignores_ambiguous_log_words() {
    assert_eq!(
        parse_video_color_metadata_hint(
            VideoColorMetadataHintScope::Container,
            "log",
            "enabled"
        ),
        None
    );
    assert_eq!(
        parse_video_color_metadata_hint(
            VideoColorMetadataHintScope::Stream,
            "camera_profile",
            "S-Log3",
        ),
        None
    );
    assert_eq!(
        parse_video_color_metadata_hint(
            VideoColorMetadataHintScope::FileName,
            "filename",
            "clip-Sony-Slog3.mov",
        ),
        None
    );
    assert_eq!(
        parse_video_color_metadata_hint(
            VideoColorMetadataHintScope::FileName,
            "filename",
            "clip-RED-Log3G10.mov",
        ),
        None
    );
}

#[test]
fn exact_vendor_declaration_overrides_cicp_delivery_tags_for_camera_log() {
    let metadata = capture_color_metadata(
        Primaries::BT709,
        TransferCharacteristic::BT709,
        Space::BT709,
    );
    let hint = parse_video_color_metadata_hint(
        VideoColorMetadataHintScope::Stream,
        "com.sony.colorProfile",
        "S-Log3 / S-Gamut3.Cine",
    )
    .expect("Sony declaration");

    let detection = detect(&metadata, std::slice::from_ref(&hint), None);

    assert_eq!(
        detection.candidate_color_space,
        Some(ColorSpace::SonySLog3SGamut3Cine)
    );
    assert_eq!(
        detection.confidence,
        VideoColorInterpretationConfidence::High
    );
    assert_eq!(detection.source, VideoColorSpaceSource::Metadata);
    assert_eq!(detection.method, VideoColorDetectionMethod::MetadataHint);
    assert!(matches!(
        detection.evidence.first(),
        Some(VideoColorInterpretationEvidence::MetadataHint {
            detected_color_space: ColorSpace::SonySLog3SGamut3Cine,
            ..
        })
    ));
    assert!(detection.warnings.contains(
        &VideoColorInterpretationWarning::MetadataHintOverridesCicpTags {
            selected: hint,
            cicp_color_space: ColorSpace::Rec709,
            cicp_metadata: metadata
        }
    ));
}

#[test]
fn descriptive_metadata_text_cannot_override_exact_cicp_tags() {
    let metadata = capture_color_metadata(
        Primaries::BT709,
        TransferCharacteristic::BT709,
        Space::BT709,
    );
    let hint = VideoColorMetadataHint {
        scope: VideoColorMetadataHintScope::Container,
        key: "comment".to_string(),
        value: "graded from S-Log3 / S-Gamut3.Cine".to_string(),
        detected_color_space: ColorSpace::SonySLog3SGamut3Cine,
        authority: VideoColorMetadataHintAuthority::DiagnosticSuggestion,
    };

    let detection = interpret(&metadata, std::slice::from_ref(&hint));

    assert_eq!(detection.candidate_color_space, Some(ColorSpace::Rec709));
    assert_eq!(
        detection.confidence,
        VideoColorInterpretationConfidence::High
    );
    assert_eq!(detection.method, VideoColorDetectionMethod::CicpTags);
    assert!(detection.evidence.contains(&metadata_hint_evidence(&hint)));
    assert!(detection.warnings.contains(
        &VideoColorInterpretationWarning::LowerPriorityMetadataHints {
            selected_method: VideoColorDetectionMethod::CicpTags,
            selected_color_space: ColorSpace::Rec709,
            ignored: vec![hint.clone()],
        }
    ));
    let diagnostic = VideoColorDiagnostic {
        color_range: DecodedVideoRange::Unknown,
        executable: None,
        interpretation: detection.clone(),
        metadata: Some(metadata),
        metadata_hints: vec![hint],
        hdr_metadata: Vec::new(),
    };
    let summary = diagnostic.issue_summary();
    assert_eq!(summary.lower_priority_metadata_hints, 1);
    assert_eq!(summary.ignored_lower_priority_metadata_hints, 1);
}

#[test]
fn descriptive_metadata_text_is_a_diagnosed_low_confidence_fallback() {
    let metadata = capture_color_metadata(
        Primaries::Unspecified,
        TransferCharacteristic::Unspecified,
        Space::Unspecified,
    );
    let hint = VideoColorMetadataHint {
        scope: VideoColorMetadataHintScope::Container,
        key: "comment".to_string(),
        value: "source is S-Log3 / S-Gamut3.Cine".to_string(),
        detected_color_space: ColorSpace::SonySLog3SGamut3Cine,
        authority: VideoColorMetadataHintAuthority::DiagnosticSuggestion,
    };

    let detection = interpret(&metadata, std::slice::from_ref(&hint));

    assert_eq!(
        detection.candidate_color_space,
        Some(ColorSpace::SonySLog3SGamut3Cine)
    );
    assert_eq!(
        detection.confidence,
        VideoColorInterpretationConfidence::Low
    );
    assert_eq!(detection.method, VideoColorDetectionMethod::MetadataHint);
    assert!(detection.warnings.contains(
        &VideoColorInterpretationWarning::DescriptiveMetadataHintInference { selected: hint }
    ));
}

#[test]
fn explicit_metadata_declaration_wins_independent_of_dictionary_order() {
    let metadata = capture_color_metadata(
        Primaries::Unspecified,
        TransferCharacteristic::Unspecified,
        Space::Unspecified,
    );
    let descriptive = VideoColorMetadataHint {
        scope: VideoColorMetadataHintScope::Stream,
        key: "comment".to_string(),
        value: "converted from S-Log3 / S-Gamut3.Cine".to_string(),
        detected_color_space: ColorSpace::SonySLog3SGamut3Cine,
        authority: VideoColorMetadataHintAuthority::DiagnosticSuggestion,
    };
    let declared = parse_video_color_metadata_hint(
        VideoColorMetadataHintScope::Stream,
        "com.sony.colorProfile",
        "S-Log3 / S-Gamut3.Cine",
    )
    .expect("Sony declaration");

    let forward = interpret(&metadata, &[descriptive.clone(), declared.clone()]);
    let reverse = interpret(&metadata, &[declared.clone(), descriptive.clone()]);

    assert_eq!(
        forward, reverse,
        "probe interpretation must not depend on metadata dictionary order"
    );
    assert_eq!(
        forward.candidate_color_space,
        Some(ColorSpace::SonySLog3SGamut3Cine)
    );
    assert_eq!(forward.confidence, VideoColorInterpretationConfidence::High);
    assert!(
        !forward.warnings.iter().any(|warning| matches!(
            warning,
            VideoColorInterpretationWarning::MultipleMetadataHints { .. }
        )),
        "a corroborating diagnostic comment is evidence, not an ambiguity"
    );
}

#[test]
fn stream_declaration_has_stable_priority_over_container_declaration() {
    let metadata = capture_color_metadata(
        Primaries::Unspecified,
        TransferCharacteristic::Unspecified,
        Space::Unspecified,
    );
    let container = VideoColorMetadataHint {
        scope: VideoColorMetadataHintScope::Container,
        key: "camera_profile".to_string(),
        value: "Apple Log".to_string(),
        detected_color_space: ColorSpace::AppleLogBt2020,
        authority: VideoColorMetadataHintAuthority::SourceDeclaration(
            VideoColorMetadataDeclaration::SourceColorSpace,
        ),
    };
    let stream = VideoColorMetadataHint {
        scope: VideoColorMetadataHintScope::Stream,
        key: "camera_profile".to_string(),
        value: "ARRI LogC4".to_string(),
        detected_color_space: ColorSpace::ArriLogC4WideGamut4,
        authority: VideoColorMetadataHintAuthority::SourceDeclaration(
            VideoColorMetadataDeclaration::SourceColorSpace,
        ),
    };

    let detection = interpret(&metadata, &[container.clone(), stream.clone()]);

    assert_eq!(
        detection.candidate_color_space,
        Some(ColorSpace::ArriLogC4WideGamut4)
    );
    assert!(detection.warnings.contains(
        &VideoColorInterpretationWarning::MultipleMetadataHints {
            selected: stream,
            ignored: vec![container],
        }
    ));
}

#[test]
fn conflicting_stream_declarations_are_diagnostic_only_in_any_probe_order() {
    let metadata = capture_color_metadata(
        Primaries::BT709,
        TransferCharacteristic::BT709,
        Space::BT709,
    );
    let sony = parse_video_color_metadata_hint(
        VideoColorMetadataHintScope::Stream,
        "com.sony.colorProfile",
        "S-Log3 / S-Gamut3.Cine",
    )
    .expect("Sony declaration");
    let apple = parse_video_color_metadata_hint(
        VideoColorMetadataHintScope::Stream,
        "com.apple.proapps.cameraLog",
        "Apple Log",
    )
    .expect("Apple declaration");

    let forward_hints = vec![sony.clone(), apple.clone()];
    let reverse_hints = vec![apple.clone(), sony.clone()];
    let forward =
        interpret(&metadata, &forward_hints);
    let reverse =
        interpret(&metadata, &reverse_hints);
    assert_eq!(
        forward.candidate_color_space, reverse.candidate_color_space,
        "even the diagnostic representative must not depend on dictionary order"
    );

    for detection in [forward, reverse] {
        assert_eq!(
            detection.confidence,
            VideoColorInterpretationConfidence::Medium
        );
        assert!(detection.evidence.contains(&metadata_hint_evidence(&sony)));
        assert!(detection.evidence.contains(&metadata_hint_evidence(&apple)));
        assert!(detection.warnings.iter().any(|warning| matches!(
            warning,
            VideoColorInterpretationWarning::MultipleMetadataHints { .. }
        )));
    }
}

#[test]
fn agreeing_stream_declarations_merge_and_override_container_scope() {
    let metadata = capture_color_metadata(
        Primaries::BT709,
        TransferCharacteristic::BT709,
        Space::BT709,
    );
    let sony = parse_video_color_metadata_hint(
        VideoColorMetadataHintScope::Stream,
        "com.sony.colorProfile",
        "S-Log3 / S-Gamut3.Cine",
    )
    .expect("Sony declaration");
    let apple = parse_video_color_metadata_hint(
        VideoColorMetadataHintScope::Container,
        "com.apple.proapps.cameraLog",
        "Apple Log",
    )
    .expect("Apple declaration");
    let hints = vec![apple, sony.clone(), sony];

    let detection = interpret(&metadata, &hints);
    assert_eq!(
        detection.candidate_color_space,
        Some(ColorSpace::SonySLog3SGamut3Cine)
    );
    assert_eq!(
        detection.confidence,
        VideoColorInterpretationConfidence::High
    );
}

#[test]
fn multiple_metadata_hints_keep_selected_and_ignored_evidence() {
    let metadata = capture_color_metadata(
        Primaries::Unspecified,
        TransferCharacteristic::Unspecified,
        Space::Unspecified,
    );
    let hints = vec![
        parse_video_color_metadata_hint(
            VideoColorMetadataHintScope::Stream,
            "com.sony.colorProfile",
            "S-Log3 / S-Gamut3.Cine",
        )
        .expect("Sony declaration"),
        parse_video_color_metadata_hint(
            VideoColorMetadataHintScope::Container,
            "com.apple.proapps.cameraLog",
            "Apple Log",
        )
        .expect("Apple declaration"),
    ];

    let detection =
        detect(&metadata, &hints, None);

    assert_eq!(
        detection.candidate_color_space,
        Some(ColorSpace::SonySLog3SGamut3Cine)
    );
    assert_eq!(detection.evidence.len(), 2);
    assert!(detection.warnings.contains(
        &VideoColorInterpretationWarning::MultipleMetadataHints {
            selected: hints[0].clone(),
            ignored: vec![hints[1].clone()],
        }
    ));
}

#[test]
fn video_color_diagnostic_issue_summary_counts_structured_warnings_and_hdr() {
    let metadata = capture_color_metadata(
        Primaries::BT709,
        TransferCharacteristic::BT709,
        Space::BT709,
    );
    let hints = vec![
        parse_video_color_metadata_hint(
            VideoColorMetadataHintScope::Stream,
            "com.sony.colorProfile",
            "S-Log3 / S-Gamut3.Cine",
        )
        .expect("Sony declaration"),
        parse_video_color_metadata_hint(
            VideoColorMetadataHintScope::Container,
            "com.apple.proapps.cameraLog",
            "Apple Log",
        )
        .expect("Apple declaration"),
    ];
    let interpretation =
        detect(&metadata, &hints, None);
    let diagnostic = VideoColorDiagnostic {
        color_range: DecodedVideoRange::Limited,
        executable: Some(ColorSpace::SonySLog3SGamut3Cine),
        interpretation,
        metadata: Some(metadata),
        metadata_hints: hints,
        hdr_metadata: vec![
            VideoHdrMetadataSummary {
                kind: VideoHdrSideDataKind::MasteringDisplayMetadata,
                payload_size: 88,
                payload: None,
            },
            VideoHdrMetadataSummary {
                kind: VideoHdrSideDataKind::ContentLightLevel,
                payload_size: 8,
                payload: None,
            },
            VideoHdrMetadataSummary {
                kind: VideoHdrSideDataKind::IccProfile,
                payload_size: 128,
                payload: None,
            },
        ],
    };

    assert_eq!(
        diagnostic.issue_summary(),
        VideoColorDiagnosticIssueSummary {
            executable_color_space: Some(ColorSpace::SonySLog3SGamut3Cine),
            confidence: VideoColorInterpretationConfidence::High,
            source: VideoColorSpaceSource::Metadata,
            method: VideoColorDetectionMethod::MetadataHint,
            has_raw_cicp_metadata: true,
            metadata_hint_count: 2,
            evidence_count: 2,
            warning_count: 2,
            multiple_metadata_hints: 1,
            ignored_metadata_hints: 1,
            metadata_hint_overrides_cicp_tags: 1,
            lower_priority_metadata_hints: 0,
            ignored_lower_priority_metadata_hints: 0,
            partial_cicp_tags: 0,
            missing_cicp_tags: 0,
            unsupported_cicp_tags: 0,
            decoder_unavailable: 0,
            hdr_side_data_count: 3,
            has_mastering_display_metadata: true,
            has_content_light_metadata: true,
            has_dynamic_hdr10_plus: false,
            has_dolby_vision_config: false,
            has_icc_profile: true,
            icc_cicp_mismatch: 0,
            icc_profile_unmapped: 0,
            has_user_visible_warnings: true,
        }
    );
}

#[test]
fn video_color_diagnostic_issue_summary_reports_missing_and_decoder_unavailable() {
    let missing_interpretation = detect_color_space(
        Primaries::Unspecified,
        TransferCharacteristic::Unspecified,
        Space::Unspecified,
    );
    let missing_diagnostic = VideoColorDiagnostic {
        color_range: DecodedVideoRange::Unknown,
        executable: None,
        interpretation: missing_interpretation,
        metadata: None,
        metadata_hints: Vec::new(),
        hdr_metadata: Vec::new(),
    };
    let missing_summary = missing_diagnostic.issue_summary();

    assert_eq!(missing_summary.executable_color_space, None);
    assert_eq!(
        missing_summary.confidence,
        VideoColorInterpretationConfidence::Absent
    );
    assert!(!missing_summary.has_raw_cicp_metadata);
    assert_eq!(missing_summary.missing_cicp_tags, 1);
    assert_eq!(missing_summary.unsupported_cicp_tags, 0);
    assert_eq!(missing_summary.decoder_unavailable, 0);
    assert!(missing_summary.has_user_visible_warnings);

    let unavailable_interpretation = DetectedColorInterpretation::decoder_unavailable();
    let unavailable_diagnostic = VideoColorDiagnostic {
        color_range: DecodedVideoRange::Unknown,
        executable: None,
        interpretation: unavailable_interpretation,
        metadata: None,
        metadata_hints: Vec::new(),
        hdr_metadata: Vec::new(),
    };
    let unavailable_summary = unavailable_diagnostic.issue_summary();

    assert_eq!(
        unavailable_summary.method,
        VideoColorDetectionMethod::DecoderUnavailable
    );
    assert_eq!(unavailable_summary.decoder_unavailable, 1);
    assert_eq!(unavailable_summary.missing_cicp_tags, 0);
    assert_eq!(unavailable_summary.unsupported_cicp_tags, 0);
    assert!(unavailable_summary.has_user_visible_warnings);
}

#[test]
fn video_color_diagnostic_issue_aggregate_accumulates_machine_readable_totals() {
    let metadata = capture_color_metadata(
        Primaries::BT709,
        TransferCharacteristic::BT709,
        Space::BT709,
    );
    let hints = vec![
        parse_video_color_metadata_hint(
            VideoColorMetadataHintScope::Stream,
            "com.sony.colorProfile",
            "S-Log3 / S-Gamut3.Cine",
        )
        .expect("Sony declaration"),
        parse_video_color_metadata_hint(
            VideoColorMetadataHintScope::Container,
            "com.apple.proapps.cameraLog",
            "Apple Log",
        )
        .expect("Apple declaration"),
    ];
    let metadata_interpretation =
        detect(&metadata, &hints, None);
    let metadata_diagnostic = VideoColorDiagnostic {
        color_range: DecodedVideoRange::Limited,
        executable: Some(ColorSpace::SonySLog3SGamut3Cine),
        interpretation: metadata_interpretation,
        metadata: Some(metadata),
        metadata_hints: hints,
        hdr_metadata: vec![
            VideoHdrMetadataSummary {
                kind: VideoHdrSideDataKind::MasteringDisplayMetadata,
                payload_size: 88,
                payload: None,
            },
            VideoHdrMetadataSummary {
                kind: VideoHdrSideDataKind::ContentLightLevel,
                payload_size: 8,
                payload: None,
            },
        ],
    };
    let unavailable_interpretation = DetectedColorInterpretation::decoder_unavailable();
    let unavailable_diagnostic = VideoColorDiagnostic {
        color_range: DecodedVideoRange::Unknown,
        executable: None,
        interpretation: unavailable_interpretation,
        metadata: None,
        metadata_hints: Vec::new(),
        hdr_metadata: vec![VideoHdrMetadataSummary {
            kind: VideoHdrSideDataKind::IccProfile,
            payload_size: 128,
            payload: None,
        }],
    };

    let aggregate = VideoColorDiagnosticIssueAggregate::from_diagnostics(&[
        metadata_diagnostic,
        unavailable_diagnostic,
    ]);

    assert_eq!(
        aggregate,
        VideoColorDiagnosticIssueAggregate {
            diagnostics: 2,
            diagnostics_with_executable_color_space: 1,
            diagnostics_with_warnings: 2,
            diagnostics_with_raw_cicp_metadata: 1,
            diagnostics_with_metadata_hints: 1,
            diagnostics_with_hdr_metadata: 2,
            method_metadata_hint: 1,
            method_icc_profile: 0,
            method_cicp_tags: 0,
            method_missing_metadata: 0,
            method_unsupported_cicp_tags: 0,
            method_decoder_unavailable: 1,
            confidence_high: 1,
            confidence_medium: 0,
            confidence_low: 0,
            confidence_none: 1,
            metadata_hint_count: 2,
            evidence_count: 3,
            warning_count: 3,
            multiple_metadata_hints: 1,
            ignored_metadata_hints: 1,
            metadata_hint_overrides_cicp_tags: 1,
            lower_priority_metadata_hints: 0,
            ignored_lower_priority_metadata_hints: 0,
            partial_cicp_tags: 0,
            missing_cicp_tags: 0,
            unsupported_cicp_tags: 0,
            decoder_unavailable: 1,
            hdr_side_data_count: 3,
            diagnostics_with_mastering_display_metadata: 1,
            diagnostics_with_content_light_metadata: 1,
            diagnostics_with_dynamic_hdr10_plus: 0,
            diagnostics_with_dolby_vision_config: 0,
            diagnostics_with_icc_profile: 1,
            diagnostics_with_icc_cicp_mismatch: 0,
            diagnostics_with_icc_profile_unmapped: 0,
        }
    );
}

#[test]
fn capture_color_metadata_preserves_raw_cicp_tags() {
    let metadata = capture_color_metadata(
        Primaries::BT2020,
        TransferCharacteristic::SMPTE2084,
        Space::BT2020NCL,
    );

    assert!(metadata.primaries.specified);
    assert!(metadata.transfer.specified);
    assert!(metadata.matrix.specified);
    assert_eq!(metadata.primaries.name.as_deref(), Some("bt2020"));
    assert_eq!(metadata.transfer.name.as_deref(), Some("smpte2084"));
    assert_eq!(metadata.matrix.name.as_deref(), Some("bt2020nc"));
}

#[test]
fn capture_color_metadata_marks_unspecified_tags() {
    let metadata = capture_color_metadata(
        Primaries::Unspecified,
        TransferCharacteristic::Unspecified,
        Space::Unspecified,
    );

    assert!(!metadata.primaries.specified);
    assert!(!metadata.transfer.specified);
    assert!(!metadata.matrix.specified);
    assert_eq!(metadata.primaries.name, None);
    assert_eq!(metadata.transfer.name, None);
    assert_eq!(metadata.matrix.name, None);
}

#[test]
fn audio_stream_metadata_normalization_does_not_invent_missing_labels() {
    assert_eq!(
        normalized_stream_metadata(Some("  eng ")),
        Some("eng".to_owned())
    );
    assert_eq!(normalized_stream_metadata(Some("  ")), None);
    assert_eq!(normalized_stream_metadata(None), None);
}

#[test]
fn complete_colorimetry_requires_explicit_supported_matrix_for_yuv() {
    let metadata = capture_color_metadata(
        Primaries::BT709,
        TransferCharacteristic::BT709,
        Space::Unspecified,
    );
    let detection = detect(&metadata, &[], None);

    assert_eq!(detection.candidate_color_space, Some(ColorSpace::Rec709));
    assert_eq!(detection.method, VideoColorDetectionMethod::CicpTags);
}

#[test]
fn picture_probe_proves_one_frame_when_png_metadata_omits_count() {
    let mut probe = PictureProbe::new();
    assert_eq!(probe.on_packet(), PictureProbeStep::Receive);
    assert_eq!(probe.on_receive(ReceiveOutcome::Frame), PictureProbeStep::Receive);
    assert_eq!(probe.on_receive(ReceiveOutcome::NeedsInput), PictureProbeStep::Feed);
    assert_eq!(probe.on_flush(), PictureProbeStep::Receive);
    assert_eq!(
        probe.on_receive(ReceiveOutcome::EndOfStream),
        PictureProbeStep::Decided { single: true }
    );
}

#[test]
fn picture_probe_rejects_a_two_frame_gif() {
    let mut probe = PictureProbe::new();
    assert_eq!(probe.on_packet(), PictureProbeStep::Receive);
    assert_eq!(probe.on_receive(ReceiveOutcome::Frame), PictureProbeStep::Receive);
    assert_eq!(
        probe.on_receive(ReceiveOutcome::Frame),
        PictureProbeStep::Decided { single: false }
    );
}

#[test]
fn picture_probes_are_bounded() {
    let mut probe = PictureProbe::new();
    for _ in 0..MAX_PROBE_PACKETS {
        assert_eq!(probe.on_packet(), PictureProbeStep::Receive);
        assert_eq!(probe.on_receive(ReceiveOutcome::NeedsInput), PictureProbeStep::Feed);
    }
    assert_eq!(probe.on_packet(), PictureProbeStep::TooManyPackets);
    let mut failing = PictureProbe::new();
    assert_eq!(failing.on_receive(ReceiveOutcome::Failed), PictureProbeStep::DecoderFailed);
    let mut flushed = PictureProbe::new();
    assert_eq!(flushed.on_flush(), PictureProbeStep::Receive);
    assert_eq!(flushed.on_receive(ReceiveOutcome::NeedsInput), PictureProbeStep::InputAfterEnd);
    assert_eq!(first_frame_step(0, true), FirstFrameStep::Found);
    assert_eq!(first_frame_step(0, false), FirstFrameStep::Feed);
    assert_eq!(first_frame_step(usize::MAX, false), FirstFrameStep::GiveUp);
    assert_eq!(
        PictureProbeStep::TooManyPackets.failure("").as_deref(),
        Some("picture probe exceeded 512 target packets")
    );
    assert_eq!(
        PictureProbeStep::InputAfterEnd.failure("").as_deref(),
        Some("picture decoder requested input after EOF")
    );
    assert_eq!(
        PictureProbeStep::DecoderFailed.failure("bad data").as_deref(),
        Some("receive picture frame: bad data")
    );
    assert_eq!(PictureProbeStep::Feed.failure("bad data"), None);
    assert_eq!(
        FirstFrameStep::GiveUp.failure().as_deref(),
        Some("no decoded frame after 512 packets")
    );
    assert_eq!(FirstFrameStep::Found.failure(), None);
}

#[test]
fn probe_mapping_keeps_unknown_frame_rate_and_pixel_format_unproven() {
    assert_eq!(map_rational(0, 0), (Rational { num: 0, den: 1 }, false));
    assert_eq!(map_pixel_format("None"), None);
}

#[test]
fn stream_duration_uses_stream_time_base_and_fails_closed() {
    assert_eq!(
        duration_from_stream_ticks(86_400_000, 1, 48_000),
        Some(30 * 60 * 1_000_000_000)
    );
    assert_eq!(duration_from_stream_ticks(0, 1, 48_000), None);
    assert_eq!(duration_from_stream_ticks(1, 0, 1), None);
}

#[test]
fn probe_mapping_canonicalizes_container_quantization_near_nominal_rate() {
    assert_eq!(
        map_rational(19_200_000, 800_791),
        (Rational { num: 24_000, den: 1_001 }, true)
    );
    assert_eq!(
        map_rational(24_01, 100),
        (Rational { num: 24_01, den: 100 }, true),
        "a rate outside the quantization tolerance must remain exact"
    );
    assert_eq!(
        canonicalize_frame_rate(Rational { num: 25, den: 1 }),
        Rational { num: 25, den: 1 }
    );
}

#[test]
fn probe_mapping_preserves_exact_h264_high_and_hevc_main10_profiles() {
    assert_eq!(map_video_codec_profile("H264(High)"), VideoCodecProfile::H264High);
    assert_eq!(map_video_codec_profile("HEVC(Main10)"), VideoCodecProfile::HevcMain10);
    assert_eq!(map_video_codec_profile("Unknown"), VideoCodecProfile::Unknown);
}

#[test]
fn codecs_are_mapped_by_identifier() {
    assert_eq!(map_video_codec("HEVC"), VideoCodec::H265);
    assert_eq!(map_video_codec("THEORA"), VideoCodec::Other("THEORA".to_owned()));
    assert_eq!(map_audio_codec("PCM_S24LE"), AudioCodec::Pcm { bit_depth: 24 });
    assert_eq!(map_audio_codec("AC3"), AudioCodec::Other("AC3".to_owned()));
    assert_eq!(map_pixel_format("YUV420P10LE"), Some(PixelFormat::Yuv420p10le));
}

#[test]
fn video_color_diagnostic_summary_includes_warning_context() {
    let metadata = capture_color_metadata(
        Primaries::BT709,
        TransferCharacteristic::BT709,
        Space::BT709,
    );
    let hint = parse_video_color_metadata_hint(
        VideoColorMetadataHintScope::Stream,
        "com.sony.colorProfile",
        "S-Log3 / S-Gamut3.Cine",
    )
    .expect("Sony declaration");
    let interpretation = detect(&metadata, std::slice::from_ref(&hint), None);
    assert_eq!(interpretation.warnings.len(), 1);
    let diagnostic = VideoColorDiagnostic {
        color_range: DecodedVideoRange::Limited,
        executable: Some(ColorSpace::SonySLog3SGamut3Cine),
        interpretation,
        metadata: Some(metadata),
        metadata_hints: vec![hint],
        hdr_metadata: Vec::new(),
    };
    let hint_text = "Stream:SourceDeclaration(SonyColorProfile):com.sony.colorProfile=S-Log3 / S-Gamut3.Cine->SonySLog3SGamut3Cine";

    let summary = diagnostic.summary(&DiagnosticTexts {
        metadata: Some("primaries=bt709".to_owned()),
        hints: vec![hint_text.to_owned()],
        hdr: Vec::new(),
        warnings: vec![format!("hint_overrides_cicp({hint_text},cicp=Rec709)")],
    });

    assert!(summary.contains("hint_overrides_cicp"));
    assert!(summary.contains(hint_text));
    assert!(summary.contains("cicp=Rec709"));
    assert!(summary.contains("primaries=bt709"));
    assert!(summary.ends_with(",hdr=none"));
}

#[test]
fn video_color_diagnostic_summary_includes_source_detection_and_raw_tags() {
    let metadata = capture_color_metadata(
        Primaries::BT2020,
        TransferCharacteristic::SMPTE2084,
        Space::BT2020NCL,
    );
    let diagnostic = VideoColorDiagnostic {
        color_range: DecodedVideoRange::Limited,
        executable: Some(ColorSpace::Rec2100Pq),
        interpretation: detect(&metadata, &[], None),
        metadata: Some(metadata),
        metadata_hints: vec![VideoColorMetadataHint {
            scope: VideoColorMetadataHintScope::Stream,
            key: "camera_profile".to_string(),
            value: "S-Log3 / S-Gamut3.Cine".to_string(),
            detected_color_space: ColorSpace::SonySLog3SGamut3Cine,
            authority: VideoColorMetadataHintAuthority::SourceDeclaration(
                VideoColorMetadataDeclaration::SourceColorSpace,
            ),
        }],
        hdr_metadata: vec![VideoHdrMetadataSummary {
            kind: VideoHdrSideDataKind::MasteringDisplayMetadata,
            payload_size: 88,
            payload: Some(VideoHdrMetadataPayload::MasteringDisplay(
                VideoMasteringDisplayMetadata { primaries: None, luminance: None },
            )),
        }],
    };

    let summary = diagnostic.summary(&DiagnosticTexts {
        metadata: Some("primaries=bt2020,transfer=smpte2084,matrix=bt2020nc".to_owned()),
        hints: vec!["camera_profile=S-Log3 / S-Gamut3.Cine".to_owned()],
        hdr: vec!["MasteringDisplayMetadata(bytes=88,payload=master_display)".to_owned()],
        warnings: Vec::new(),
    });

    assert!(summary.contains("source=Metadata"));
    assert!(summary.contains("method=CicpTags"));
    assert!(summary.contains("candidate=Rec2100Pq"));
    assert!(summary.contains("executable=Rec2100Pq"));
    assert!(summary.contains("range=Limited"));
    assert!(summary.contains("confidence=High"));
    assert!(summary.contains("overridable=true"));
    assert!(summary.contains("primaries=bt2020"));
    assert!(summary.contains("transfer=smpte2084"));
    assert!(summary.contains("matrix=bt2020nc"));
    assert!(summary.contains("camera_profile=S-Log3 / S-Gamut3.Cine"));
    assert!(summary.contains("MasteringDisplayMetadata(bytes=88,payload=master_display"));
}

#[test]
fn hdr_side_data_kind_mapping_identifies_static_and_dynamic_hdr_metadata() {
    assert_eq!(
        map_hdr_side_data_kind("MasteringDisplayMetadata"),
        Some(VideoHdrSideDataKind::MasteringDisplayMetadata)
    );
    assert_eq!(
        map_hdr_side_data_kind("ContentLightLevel"),
        Some(VideoHdrSideDataKind::ContentLightLevel)
    );
    assert_eq!(
        map_hdr_side_data_kind("DYNAMIC_HDR10_PLUS"),
        Some(VideoHdrSideDataKind::DynamicHdr10Plus)
    );
    assert_eq!(map_hdr_side_data_kind("Palette"), None);
}

fn bytes_of(values: &[i32]) -> Vec<u8> {
    values.iter().flat_map(|value| value.to_le_bytes()).collect()
}

fn mastering_payload() -> Vec<u8> {
    bytes_of(&[
        34_000, 50_000, 16_000, 50_000, 13_250, 50_000, 34_500, 50_000, 7_500, 50_000, 3_000,
        50_000, 15_635, 50_000, 16_450, 50_000, 1, 10_000, 1000, 1, 1, 1,
    ])
}

/// The notation of x265 for a mastering display.
fn to_x265_master_display(metadata: &VideoMasteringDisplayMetadata) -> Option<String> {
    let primaries = metadata.primaries?;
    let luminance = metadata.luminance?;
    let scaled = |value: VideoHdrRational, unit: i64| {
        i64::from(value.num) * unit / i64::from(value.den)
    };
    let point = |point: VideoHdrChromaticity| {
        format!("({},{})", scaled(point.x, 50_000), scaled(point.y, 50_000))
    };
    Some(format!(
        "G{}B{}R{}WP{}L({},{})",
        point(primaries.green),
        point(primaries.blue),
        point(primaries.red),
        point(primaries.white_point),
        scaled(luminance.max, 10_000),
        scaled(luminance.min, 10_000)
    ))
}

#[test]
fn hdr_mastering_display_payload_parses_and_formats_x265_metadata() {
    let payload = parse_hdr_metadata_payload_for_kind(
        VideoHdrSideDataKind::MasteringDisplayMetadata,
        &mastering_payload(),
        Endian::Little,
    )
    .expect("valid mastering display payload");

    let VideoHdrMetadataPayload::MasteringDisplay(metadata) = payload else {
        panic!("expected mastering display payload");
    };
    assert_eq!(
        to_x265_master_display(&metadata).as_deref(),
        Some("G(13250,34500)B(7500,3000)R(34000,16000)WP(15635,16450)L(10000000,1)")
    );
}

#[test]
fn hdr_content_light_payload_parses_and_formats_x265_metadata() {
    let payload = parse_hdr_metadata_payload_for_kind(
        VideoHdrSideDataKind::ContentLightLevel,
        &bytes_of(&[1000, 400]),
        Endian::Little,
    )
    .expect("valid content light payload");

    let VideoHdrMetadataPayload::ContentLightLevel(metadata) = payload else {
        panic!("expected content light payload");
    };
    assert_eq!(
        format!(
            "{},{}",
            metadata.max_content_light_level, metadata.max_frame_average_light_level
        ),
        "1000,400"
    );
}

#[test]
fn undersized_hdr_payload_is_not_parsed() {
    assert_eq!(
        parse_hdr_metadata_payload_for_kind(
            VideoHdrSideDataKind::MasteringDisplayMetadata,
            &[0; 8],
            Endian::Little
        ),
        None
    );
    assert_eq!(
        parse_hdr_metadata_payload_for_kind(
            VideoHdrSideDataKind::ContentLightLevel,
            &[0; 4],
            Endian::Little
        ),
        None
    );
}

#[test]
fn hdr_payload_abi_mirrors_ffmpeg_side_data_layout() {
    assert_eq!(MASTERING_DISPLAY_BYTES, 88);
    assert_eq!(CONTENT_LIGHT_BYTES, 8);
}

#[test]
fn media_probe_reads_static_hdr_metadata_from_first_decoded_frame() {
    let mut video = describe_video_stream(video_report());
    assert!(video_stream_needs_frame_hdr_probe(true, &video.hdr_metadata));
    video.apply_frame_hdr(collect_frame_hdr_metadata_summaries(
        Some(&mastering_payload()),
        Some(&bytes_of(&[1000, 400])),
        None,
        Endian::Little,
    ));
    assert!(!video_stream_needs_frame_hdr_probe(false, &video.hdr_metadata));
    let mastering = video
        .hdr_metadata
        .iter()
        .find(|summary| summary.kind == VideoHdrSideDataKind::MasteringDisplayMetadata)
        .and_then(|summary| summary.payload.as_ref());
    let content_light = video
        .hdr_metadata
        .iter()
        .find(|summary| summary.kind == VideoHdrSideDataKind::ContentLightLevel)
        .and_then(|summary| summary.payload.as_ref());

    assert!(matches!(
        mastering,
        Some(VideoHdrMetadataPayload::MasteringDisplay(_))
    ));
    assert!(matches!(
        content_light,
        Some(VideoHdrMetadataPayload::ContentLightLevel(_))
    ));
}

#[test]
fn frame_records_fill_in_what_the_stream_lacks() {
    let empty = VideoHdrMetadataSummary {
        kind: VideoHdrSideDataKind::ContentLightLevel,
        payload_size: 0,
        payload: None,
    };
    let full = summarize_hdr_side_data(
        VideoHdrSideDataKind::ContentLightLevel,
        &bytes_of(&[7, 5]),
        Endian::Little,
        None,
    );
    assert_eq!(
        full.payload,
        Some(VideoHdrMetadataPayload::ContentLightLevel(VideoContentLightMetadata {
            max_content_light_level: 7,
            max_frame_average_light_level: 5
        }))
    );
    let mut records = vec![empty.clone()];
    merge_hdr_metadata(&mut records, vec![full.clone()]);
    assert_eq!(records, vec![full.clone()]);
    merge_hdr_metadata(&mut records, vec![empty]);
    assert_eq!(records, vec![full]);
    let icc = summarize_hdr_side_data(
        VideoHdrSideDataKind::IccProfile,
        &[1, 2, 3],
        Endian::Little,
        Some(VideoIccProfileMetadata {
            name: "Display P3".to_owned(),
            mapping: IccColorSpaceMapping::Mapped { color_space: ColorSpace::DisplayP3 },
        }),
    );
    records.push(icc);
    let hint = icc_color_profile_hint(&records).expect("a profile");
    assert_eq!(hint.profile_name.as_deref(), Some("Display P3"));
    assert_eq!(hint.mapping.color_space(), Some(ColorSpace::DisplayP3));
}

#[test]
fn audio_layout_probe_preserves_standard_and_custom_speaker_semantics() {
    let front = [
        AudioChannelPosition::FrontLeft,
        AudioChannelPosition::FrontRight,
        AudioChannelPosition::FrontCenter,
    ];
    let with = |rest: &[AudioChannelPosition]| speakers(&[&front[..], rest].concat());
    assert_eq!(
        map_channel_layout(false, true, 0x60f, 6),
        ChannelLayout::Exact(with(&[
            AudioChannelPosition::LowFrequencyEffects,
            AudioChannelPosition::SideLeft,
            AudioChannelPosition::SideRight
        ]))
    );
    assert_eq!(
        map_channel_layout(false, true, 0x3f, 6),
        ChannelLayout::Exact(with(&[
            AudioChannelPosition::LowFrequencyEffects,
            AudioChannelPosition::BackLeft,
            AudioChannelPosition::BackRight
        ]))
    );
    assert_eq!(
        map_channel_layout(false, true, 0x707, 6),
        ChannelLayout::Exact(with(&[
            AudioChannelPosition::BackCenter,
            AudioChannelPosition::SideLeft,
            AudioChannelPosition::SideRight
        ]))
    );
    assert_eq!(
        exact_signal_layout_from_ffmpeg_mask((1_u64 << 0) | (1_u64 << 63), 2),
        None
    );
    assert_eq!(
        exact_signal_layout_from_ffmpeg_mask(1_u64 << 2, 1),
        Some(AudioChannelLayout::Mono)
    );
    assert_eq!(
        map_channel_layout(false, false, 0x3f, 6),
        ChannelLayout::Unsupported(6)
    );
}

#[test]
fn pcm_wave_without_a_channel_mask_remains_explicitly_unspecified() {
    assert_eq!(map_channel_layout(true, true, 0, 1), ChannelLayout::Unspecified(1));
}

#[test]
fn hints_are_ordered_by_scope_and_text() {
    assert!(
        metadata_hint_scope_priority(VideoColorMetadataHintScope::Stream)
            < metadata_hint_scope_priority(VideoColorMetadataHintScope::Container)
    );
    assert_eq!(normalize_metadata_hint_text("S-Log3 / S-Gamut3.Cine"), "slog3sgamut3cine");
    let fields = vec![
        ("encoder".to_owned(), "Lavf".to_owned()),
        ("com.sony.colorProfile".to_owned(), "S-Log3 / S-Gamut3.Cine".to_owned()),
    ];
    let stream = collect_color_metadata_hints(VideoColorMetadataHintScope::Stream, &fields);
    assert_eq!(stream.len(), 1);
    let container = collect_color_metadata_hints(VideoColorMetadataHintScope::Container, &fields);
    let all = stream_color_hints(&stream, &container, &None);
    assert_eq!(all.len(), 2);
    let reversed: Vec<_> = all.iter().rev().cloned().collect();
    assert_eq!(order_hints(&all), order_hints(&reversed));
}

#[test]
fn unresolved_tags_are_missing_or_unsupported() {
    let silent = capture_color_metadata(
        Primaries::Unspecified,
        TransferCharacteristic::Unspecified,
        Space::Unspecified,
    );
    assert_eq!(
        UnresolvedCicpMetadata::from_metadata(&silent),
        UnresolvedCicpMetadata::Missing
    );
    let odd = capture_color_metadata(
        Primaries::SMPTE432,
        TransferCharacteristic::Unspecified,
        Space::Unspecified,
    );
    assert_eq!(
        UnresolvedCicpMetadata::from_metadata(&odd),
        UnresolvedCicpMetadata::Unsupported
    );
}

fn video_report() -> VideoStreamReport {
    let metadata = capture_color_metadata(
        Primaries::BT2020,
        TransferCharacteristic::SMPTE2084,
        Space::BT2020NCL,
    );
    let authorities = authorities(&metadata, &[]);
    VideoStreamReport {
        index: 0,
        codec: VideoCodec::H265,
        duration_ticks: 15_360,
        time_base: (1, 12_800),
        average_frame_rate: (25, 1),
        frames: 30,
        hints: Vec::new(),
        hdr_metadata: Vec::new(),
        decoder: Some(VideoDecoderReport {
            width: 16,
            height: 16,
            pixel_format: Some(PixelFormat::Yuv420p10le),
            bit_depth: 10,
            has_alpha: false,
            color_range: DecodedVideoRange::Limited,
            metadata,
            profile: VideoCodecProfile::HevcMain10,
            authorities,
        }),
        camera_raw: None,
    }
}

#[test]
fn probe_preserves_primary_video_stream_duration() {
    let video = describe_video_stream(video_report());
    assert_eq!(video.duration_nanos, Some(1_200 * 1_000_000));
    assert_eq!(video.frame_rate, Rational { num: 25, den: 1 });
    assert!(video.frame_rate_proven && video.pixel_format_proven);
    assert_eq!(video.total_frames, Some(30));
    assert_eq!(
        video.color_interpretation.candidate_color_space,
        Some(ColorSpace::Rec2100Pq)
    );
    let snapshot = assemble_probe_snapshot(
        1_200_000,
        Some(99),
        "mov,mp4".to_owned(),
        vec![video],
        Vec::new(),
    );
    assert!(snapshot.has_video && !snapshot.has_audio);
    assert_eq!(snapshot.duration_micros, 1_200_000);
    assert_eq!(snapshot.file_size, 99);
    let diagnostic = VideoColorDiagnostic::from_stream(
        snapshot.video_streams.into_iter().next().expect("video stream"),
        Some(ColorSpace::Rec2100Pq),
    );
    assert_eq!(diagnostic.executable_color_space(), Some(ColorSpace::Rec2100Pq));
}

fn rggb_facts() -> CameraRawMetadata {
    CameraRawMetadata {
        adapter: CameraRawAdapter::Dng,
        cfa_pattern: CameraRawCfaPattern::Rggb,
        width: 8,
        height: 8,
        bit_depth: 16,
        compression: 1,
        camera_make: Some("Mondrian".to_owned()),
        camera_model: None,
        has_color_matrix: true,
        has_as_shot_neutral: true,
    }
}

#[test]
fn camera_raw_streams_are_linear_and_hold_one_picture() {
    let facts = rggb_facts();
    let video = describe_video_stream(VideoStreamReport {
        frames: 0,
        camera_raw: Some(facts.clone()),
        ..video_report()
    });
    assert_eq!(video.pixel_format, PixelFormat::BayerRggb16le);
    assert!(video.pixel_format_proven && !video.has_alpha);
    assert_eq!(video.bit_depth, 16);
    assert_eq!(video.total_frames, Some(1));
    assert_eq!(video.camera_raw.as_ref(), Some(&facts));
    assert_eq!(video.executable_color_space(None), Some(ColorSpace::LinearRec709));
    let diagnostic = VideoColorDiagnostic::from_stream(video, Some(ColorSpace::Rec2100Pq));
    assert_eq!(diagnostic.executable_color_space(), Some(ColorSpace::LinearRec709));

    let unopened = describe_video_stream(VideoStreamReport {
        decoder: None,
        camera_raw: Some(facts),
        ..video_report()
    });
    assert_eq!(unopened.pixel_format, PixelFormat::BayerRggb16le);
    assert!(unopened.pixel_format_proven);

    let other = CameraRawMetadata {
        cfa_pattern: CameraRawCfaPattern::Bggr,
        ..rggb_facts()
    };
    assert_eq!(
        proven_pixel_format(&Some(other), Some(PixelFormat::Rgb24)),
        Some(PixelFormat::Rgb24)
    );
    assert_eq!(map_pixel_format("BAYER_RGGB16LE"), Some(PixelFormat::BayerRggb16le));
    let plain = describe_video_stream(video_report());
    assert_eq!(plain.executable_color_space(None), None);
}

#[test]
fn icc_issues_count_diagnostics() {
    let empty = VideoColorDiagnosticIssueAggregate::default();
    let summary = VideoColorDiagnostic::from_stream(describe_video_stream(video_report()), None)
        .issue_summary();
    let doubtful = VideoColorDiagnosticIssueSummary {
        icc_cicp_mismatch: 2,
        icc_profile_unmapped: 2,
        ..summary
    };
    let mut totals = empty;
    totals.observe_summary(doubtful);
    assert_eq!(totals.diagnostics_with_icc_cicp_mismatch, 1);
    assert_eq!(totals.diagnostics_with_icc_profile_unmapped, 1);
    totals.observe_summary(summary);
    totals.observe_summary(doubtful);
    assert_eq!(totals.diagnostics, 3);
    assert_eq!(totals.diagnostics_with_icc_cicp_mismatch, 2);
    assert_eq!(totals.diagnostics_with_icc_profile_unmapped, 2);
}

#[test]
fn streams_without_a_decoder_stay_unproven() {
    let video = describe_video_stream(VideoStreamReport { decoder: None, ..video_report() });
    assert!(!video.pixel_format_proven);
    assert_eq!(
        video.color_interpretation.method,
        VideoColorDetectionMethod::DecoderUnavailable
    );
    let audio = describe_audio_stream(AudioStreamReport {
        index: 1,
        id: 5,
        language: Some(" eng ".to_owned()),
        title: None,
        is_default: true,
        codec: AudioCodec::Aac,
        duration_ticks: 48_000,
        time_base: (1, 48_000),
        decoder: Some(AudioDecoderReport {
            sample_rate: 48_000,
            channels: 1,
            channel_layout: ChannelLayout::Exact(AudioChannelLayout::Mono),
        }),
    });
    assert_eq!(audio.language.as_deref(), Some("eng"));
    assert_eq!(audio.duration_nanos, Some(1_000_000_000));
    assert_eq!(audio.sample_rate, 48_000);
}

#[test]
fn slow_probe_thresholds_have_a_floor() {
    assert_eq!(media_probe_slow_threshold_ms(None), 120);
    assert_eq!(media_probe_slow_threshold_ms(Some("9")), 120);
    assert_eq!(media_probe_slow_threshold_ms(Some("10")), 10);
    assert_eq!(media_probe_slow_threshold_ms(Some("fast")), 120);
}
