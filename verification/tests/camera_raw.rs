use mondrian_media::camera_raw::bayer::{
    cfa_color, cfa_pattern_from_pixel, reconstruction, unpack_bayer, BayerPixelFormat,
    CameraRawDebayerQuality, CfaColor, Reconstruction, ShortBayerRow,
};
use mondrian_media::camera_raw::decode::{
    admit_raw_source, advance_raw_frame, check_decoded_pattern, check_raw_intent,
    choose_picture_stream, developed_contract, RawDecodeError, RawFrameEvent, RawFramePhase,
};
use mondrian_media::camera_raw::dng::{
    check_dng_size, has_dng_extension, parse_dng, probe_camera_raw_metadata, CameraRawAdapter,
    CameraRawCfaPattern, DngError, DngRational, MAX_DNG_BYTES, TAG_AS_SHOT_NEUTRAL,
    TAG_BITS_PER_SAMPLE, TAG_CFA_PATTERN, TAG_CFA_REPEAT_PATTERN_DIM, TAG_COLOR_MATRIX_1,
    TAG_COMPRESSION, TAG_DNG_VERSION, TAG_MAKE, TAG_MODEL,
};
use mondrian_media::camera_raw::tiff::{
    parse_ifd_graph, Endian, TiffError, TAG_IMAGE_HEIGHT, TAG_IMAGE_WIDTH,
};
use mondrian_media::decoder::range::{DecodedVideoRange, DecodedVideoRangeContract};
use mondrian_media::info::color::ColorSpace;
use mondrian_media::info::probe::{describe_video_stream, VideoStreamReport};
use mondrian_media::info::stream::{PixelFormat, VideoCodec};
use mondrian_media::preview::vocabulary::PreviewDecodePath;

const TEST_DNG_WIDTH: u32 = 8;
const TEST_DNG_HEIGHT: u32 = 8;
const ENTRY_COUNT: usize = 24;
const IFD_OFFSET: u32 = 8;
const IFD_BYTES: usize = 2 + ENTRY_COUNT * 12 + 4;

fn synthetic_uncompressed_dng() -> Vec<u8> {
    let payload_base = usize::try_from(IFD_OFFSET).expect("IFD offset") + IFD_BYTES;
    let mut payload = Vec::new();
    let mut append_payload = |bytes: &[u8]| {
        if payload.len() % 2 != 0 {
            payload.push(0);
        }
        let offset = payload_base + payload.len();
        payload.extend_from_slice(bytes);
        u32::try_from(offset).expect("small synthetic DNG offset")
    };

    let make = b"Mondrian\0";
    let model = b"Synthetic DNG\0";
    let make_offset = append_payload(make);
    let model_offset = append_payload(model);
    let mut matrix = Vec::with_capacity(9 * 8);
    for value in [1_i32, 0, 0, 0, 1, 0, 0, 0, 1] {
        matrix.extend_from_slice(&value.to_le_bytes());
        matrix.extend_from_slice(&1_i32.to_le_bytes());
    }
    let matrix_offset = append_payload(&matrix);
    let mut neutral = Vec::with_capacity(3 * 8);
    for _ in 0..3 {
        neutral.extend_from_slice(&1_u32.to_le_bytes());
        neutral.extend_from_slice(&1_u32.to_le_bytes());
    }
    let neutral_offset = append_payload(&neutral);
    if payload.len() % 2 != 0 {
        payload.push(0);
    }
    let strip_offset = u32::try_from(payload_base + payload.len()).expect("pixel offset");
    let strip_bytes = TEST_DNG_WIDTH * TEST_DNG_HEIGHT * 2;

    let short = |value: u16| {
        let [a, b] = value.to_le_bytes();
        [a, b, 0, 0]
    };
    let long = |value: u32| value.to_le_bytes();
    let mut entries = vec![
        (254_u16, 4_u16, 1_u32, long(0)),
        (TAG_IMAGE_WIDTH, 4, 1, long(TEST_DNG_WIDTH)),
        (TAG_IMAGE_HEIGHT, 4, 1, long(TEST_DNG_HEIGHT)),
        (TAG_BITS_PER_SAMPLE, 3, 1, short(16)),
        (TAG_COMPRESSION, 3, 1, short(1)),
        (262, 3, 1, short(32_803)),
        (
            TAG_MAKE,
            2,
            u32::try_from(make.len()).expect("make length"),
            long(make_offset),
        ),
        (
            TAG_MODEL,
            2,
            u32::try_from(model.len()).expect("model length"),
            long(model_offset),
        ),
        (273, 4, 1, long(strip_offset)),
        (274, 3, 1, short(1)),
        (277, 3, 1, short(1)),
        (278, 4, 1, long(TEST_DNG_HEIGHT)),
        (279, 4, 1, long(strip_bytes)),
        (284, 3, 1, short(1)),
        (TAG_CFA_REPEAT_PATTERN_DIM, 3, 2, [2, 0, 2, 0]),
        (TAG_CFA_PATTERN, 1, 4, [0, 1, 1, 2]),
        (TAG_DNG_VERSION, 1, 4, [1, 4, 0, 0]),
        (50_707, 1, 4, [1, 1, 0, 0]),
        (
            50_708,
            2,
            u32::try_from(model.len()).expect("model length"),
            long(model_offset),
        ),
        (50_714, 3, 1, short(0)),
        (50_717, 4, 1, long(65_535)),
        (TAG_COLOR_MATRIX_1, 10, 9, long(matrix_offset)),
        (TAG_AS_SHOT_NEUTRAL, 5, 3, long(neutral_offset)),
        (50_778, 3, 1, short(21)),
    ];
    assert_eq!(entries.len(), ENTRY_COUNT);
    entries.sort_unstable_by_key(|entry| entry.0);

    let mut dng =
        Vec::with_capacity(usize::try_from(strip_offset + strip_bytes).expect("size"));
    dng.extend_from_slice(b"II");
    dng.extend_from_slice(&42_u16.to_le_bytes());
    dng.extend_from_slice(&IFD_OFFSET.to_le_bytes());
    dng.extend_from_slice(&u16::try_from(entries.len()).expect("entry count").to_le_bytes());
    for (tag, field_type, count, value) in entries {
        dng.extend_from_slice(&tag.to_le_bytes());
        dng.extend_from_slice(&field_type.to_le_bytes());
        dng.extend_from_slice(&count.to_le_bytes());
        dng.extend_from_slice(&value);
    }
    dng.extend_from_slice(&0_u32.to_le_bytes());
    dng.extend_from_slice(&payload);
    assert_eq!(
        dng.len(),
        usize::try_from(strip_offset).expect("strip offset")
    );
    for y in 0..TEST_DNG_HEIGHT {
        for x in 0..TEST_DNG_WIDTH {
            let sample = match cfa_color(CameraRawCfaPattern::Rggb, x as usize, y as usize) {
                CfaColor::Red => 12_000_u16,
                CfaColor::Green => 16_000,
                CfaColor::Blue => 20_000,
            };
            dng.extend_from_slice(&sample.to_le_bytes());
        }
    }
    dng
}

/// Floating-point reading of what reconstructs each channel.
fn demosaic(
    mosaic: &[f32],
    width: usize,
    height: usize,
    pattern: CameraRawCfaPattern,
    quality: CameraRawDebayerQuality,
) -> Vec<f32> {
    let mut rgba = Vec::new();
    for y in 0..height {
        for x in 0..width {
            for wanted in [CfaColor::Red, CfaColor::Green, CfaColor::Blue] {
                rgba.push(match reconstruction(width, height, x, y, pattern, quality, wanted) {
                    Reconstruction::Sample(at) => mosaic[at],
                    Reconstruction::Mean(taps) => {
                        taps.iter().map(|&at| mosaic[at]).sum::<f32>() / taps.len() as f32
                    }
                    Reconstruction::Gradient { horizontal, vertical } => {
                        let (a, b) = horizontal.or(vertical).expect("one direction");
                        (mosaic[a] + mosaic[b]) * 0.5
                    }
                });
            }
            rgba.push(1.0);
        }
    }
    rgba
}

#[test]
fn debayer_uniform_cfa_preserves_uniform_channels() {
    let mosaic = vec![0.25; 16];
    let rgba = demosaic(
        &mosaic,
        4,
        4,
        CameraRawCfaPattern::Rggb,
        CameraRawDebayerQuality::EdgeAware,
    );
    assert!(rgba.chunks_exact(4).all(|pixel| {
        (pixel[0] - 0.25).abs() < f32::EPSILON
            && (pixel[1] - 0.25).abs() < f32::EPSILON
            && (pixel[2] - 0.25).abs() < f32::EPSILON
            && pixel[3] == 1.0
    }));
}

#[test]
fn synthetic_dng_probe_is_typed() {
    let bytes = synthetic_uncompressed_dng();
    let metadata = probe_camera_raw_metadata(&bytes)
        .expect("probe DNG")
        .expect("camera RAW metadata");
    assert_eq!(metadata.adapter, CameraRawAdapter::Dng);
    assert_eq!(metadata.cfa_pattern, CameraRawCfaPattern::Rggb);
    assert_eq!(
        (metadata.width, metadata.height),
        (TEST_DNG_WIDTH, TEST_DNG_HEIGHT)
    );
    assert_eq!(metadata.bit_depth, 16);
    assert!(metadata.has_color_matrix);
    assert!(metadata.has_as_shot_neutral);
    assert_eq!(metadata.camera_make.as_deref(), Some("Mondrian"));
    assert_eq!(metadata.camera_model.as_deref(), Some("Synthetic DNG"));
    let parsed = parse_dng(&bytes).expect("parse DNG").expect("camera RAW");
    assert_eq!(
        parsed.as_shot_neutral,
        Some([DngRational { numerator: 1, denominator: 1 }; 3])
    );
    let matrix = parsed.color_matrix.expect("a matrix");
    assert_eq!(matrix[4], DngRational { numerator: 1, denominator: 1 });
    assert_eq!(matrix[5], DngRational { numerator: 0, denominator: 1 });

    let video = describe_video_stream(VideoStreamReport {
        index: 0,
        codec: VideoCodec::Other("TIFF".to_owned()),
        duration_ticks: 0,
        time_base: (1, 25),
        average_frame_rate: (25, 1),
        frames: 0,
        hints: Vec::new(),
        hdr_metadata: Vec::new(),
        decoder: None,
        camera_raw: Some(metadata.clone()),
    });
    assert_eq!(video.total_frames, Some(1));
    assert_eq!(video.pixel_format, PixelFormat::BayerRggb16le);
    assert_eq!(
        video.executable_color_space(None),
        Some(ColorSpace::LinearRec709)
    );
    assert_eq!(video.camera_raw.as_ref(), Some(&metadata));

    let developed = developed_contract(1_500);
    assert_eq!(
        developed.diagnostics.path,
        PreviewDecodePath::InProcessCameraRawDng
    );
    assert_eq!(developed.diagnostics.elapsed_us, 1_500);
    assert_eq!(
        developed.source.color_space(),
        Some(ColorSpace::LinearRec709)
    );
    assert_eq!(
        developed.source.range,
        DecodedVideoRangeContract::Automatic { probed_range: DecodedVideoRange::Full }
    );
}

/// The synthetic file with the value of one entry replaced.
fn with_value(tag: u16, field_type: Option<u16>, value: [u8; 4]) -> Vec<u8> {
    let mut bytes = synthetic_uncompressed_dng();
    let base = IFD_OFFSET as usize + 2;
    for i in 0..ENTRY_COUNT {
        let at = base + i * 12;
        if u16::from_le_bytes([bytes[at], bytes[at + 1]]) == tag {
            if let Some(field_type) = field_type {
                bytes[at + 2..at + 4].copy_from_slice(&field_type.to_le_bytes());
            }
            bytes[at + 8..at + 12].copy_from_slice(&value);
        }
    }
    bytes
}

#[test]
fn broken_files_are_told_apart() {
    assert!(matches!(parse_dng(b"PNG"), Ok(None)));
    assert!(matches!(parse_dng(b"II*\0\x08\0\0\0"), Err(DngError::Tiff(_))));
    let swapped = with_value(TAG_CFA_PATTERN, None, [2, 1, 1, 0]);
    let parsed = parse_dng(&swapped).expect("parse DNG").expect("camera RAW");
    assert_eq!(parsed.metadata.cfa_pattern, CameraRawCfaPattern::Bggr);
    let strange = parse_dng(&with_value(TAG_CFA_PATTERN, None, [0, 0, 1, 2]));
    assert!(matches!(strange, Err(DngError::UnsupportedCfaPattern(_))));
    let large = parse_dng(&with_value(TAG_CFA_REPEAT_PATTERN_DIM, None, [4, 0, 4, 0]));
    assert!(matches!(large, Err(DngError::UnsupportedCfaDimensions)));
    let flat = parse_dng(&with_value(TAG_IMAGE_HEIGHT, None, [0; 4]));
    assert!(matches!(flat, Err(DngError::EmptyExtent)));
    let plain = parse_dng(&with_value(TAG_DNG_VERSION, Some(1), [1, 4, 0, 0]));
    assert!(matches!(plain, Ok(Some(_))));
    for error in [
        DngError::TooLarge,
        DngError::NoCfaDirectory,
        DngError::UnsupportedCfaDimensions,
        DngError::UnsupportedCfaPattern(vec![0, 0, 1, 2]),
        DngError::MissingWidth,
        DngError::MissingHeight,
        DngError::EmptyExtent,
        DngError::InvalidBitDepth,
        DngError::Tiff(TiffError::ZeroDenominator),
    ] {
        assert!(!error.reason().is_empty());
    }
}

#[test]
fn oversized_files_are_refused() {
    assert!(check_dng_size(MAX_DNG_BYTES).is_ok());
    assert!(matches!(check_dng_size(MAX_DNG_BYTES + 1), Err(DngError::TooLarge)));
    assert!(has_dng_extension(Some("DNG")));
    assert!(!has_dng_extension(Some("tif")));
    assert!(!has_dng_extension(None));
}

#[test]
fn directories_outside_the_file_are_refused() {
    assert!(matches!(
        parse_ifd_graph(&[0; 8], Endian::Little, 100),
        Err(TiffError::CountOutsideFile)
    ));
    let mut one = vec![0u8; 8];
    one.extend_from_slice(&[1, 0]);
    assert!(matches!(
        parse_ifd_graph(&one, Endian::Little, 8),
        Err(TiffError::EntriesOutsideFile)
    ));
}

#[test]
fn mosaics_are_unpacked_by_row() {
    assert_eq!(
        cfa_pattern_from_pixel(BayerPixelFormat::Gbrg16le),
        CameraRawCfaPattern::Gbrg
    );
    assert_eq!(
        unpack_bayer(&[1, 2, 9, 3, 4, 9], 3, 2, 2, BayerPixelFormat::Rggb8),
        Ok(vec![1, 2, 3, 4])
    );
    assert_eq!(
        unpack_bayer(&[1, 2, 3, 4], 4, 2, 1, BayerPixelFormat::Rggb16le),
        Ok(vec![0x0201, 0x0403])
    );
    assert_eq!(
        unpack_bayer(&[1, 2, 3], 2, 2, 2, BayerPixelFormat::Rggb8),
        Err(ShortBayerRow { row: 1, wide: false })
    );
}

#[test]
fn raw_sources_are_admitted_in_order() {
    assert!(check_raw_intent(1, 1, Ok(())).is_ok());
    assert!(matches!(
        check_raw_intent(2, 1, Ok(())),
        Err(RawDecodeError::UnsupportedAlgorithm(2))
    ));
    assert!(matches!(
        check_raw_intent(1, 1, Err("exposure".to_owned())),
        Err(RawDecodeError::InvalidInterpretation(text)) if text == "exposure"
    ));
    let parsed = || parse_dng(&synthetic_uncompressed_dng()).expect("parse DNG");
    assert!(admit_raw_source(parsed(), CameraRawAdapter::Dng, false).is_ok());
    assert!(matches!(
        admit_raw_source(None, CameraRawAdapter::Dng, false),
        Err(RawDecodeError::NotDng)
    ));
    assert!(matches!(
        admit_raw_source(parsed(), CameraRawAdapter::CinemaDng, false),
        Err(RawDecodeError::AdapterMismatch { .. })
    ));
    assert!(matches!(
        admit_raw_source(parsed(), CameraRawAdapter::Dng, true),
        Err(RawDecodeError::Cancelled)
    ));
    assert_eq!(choose_picture_stream(None, 2, None).ok(), None);
    assert_eq!(choose_picture_stream(Some(0), 2, Some(1)).ok(), Some(0));
    assert_eq!(choose_picture_stream(Some(5), 2, Some(1)).ok(), Some(1));
    assert!(matches!(
        check_decoded_pattern(None, "RGB24", CameraRawCfaPattern::Rggb),
        Err(RawDecodeError::NotBayer(format)) if format == "RGB24"
    ));
    assert!(matches!(
        check_decoded_pattern(
            Some(CameraRawCfaPattern::Bggr),
            "BAYER_BGGR8",
            CameraRawCfaPattern::Rggb
        ),
        Err(RawDecodeError::CfaMismatch { .. })
    ));
}

#[test]
fn raw_frames_are_drained_after_the_last_packet() {
    let reading = advance_raw_frame(
        RawFramePhase::Reading,
        RawFrameEvent::Packet { stream: 3, canceled: false, sent: true },
        0,
    );
    assert_eq!(reading, RawFramePhase::Reading);
    let receiving = advance_raw_frame(
        reading,
        RawFrameEvent::Packet { stream: 0, canceled: false, sent: true },
        0,
    );
    assert_eq!(receiving, RawFramePhase::Receiving);
    let again = advance_raw_frame(receiving, RawFrameEvent::Received { picture: false }, 0);
    assert_eq!(again, RawFramePhase::Reading);
    let draining = advance_raw_frame(again, RawFrameEvent::EndOfPackets { sent: true }, 0);
    assert_eq!(draining, RawFramePhase::Draining);
    assert_eq!(
        advance_raw_frame(draining, RawFrameEvent::Received { picture: true }, 0),
        RawFramePhase::Done
    );
    assert_eq!(
        advance_raw_frame(
            RawFramePhase::Reading,
            RawFrameEvent::Packet { stream: 0, canceled: true, sent: true },
            0
        ),
        RawFramePhase::Cancelled
    );
}

#[test]
fn raw_failures_have_reasons() {
    for (error, reason) in [
        (
            RawDecodeError::UnsupportedAlgorithm(7),
            Some("unsupported camera RAW algorithm version 7"),
        ),
        (RawDecodeError::InvalidInterpretation("exposure".to_owned()), Some("exposure")),
        (
            RawDecodeError::NotDng,
            Some("camera RAW execution intent selected a non-DNG source"),
        ),
        (
            RawDecodeError::AdapterMismatch {
                probe: CameraRawAdapter::Dng,
                execution: CameraRawAdapter::CinemaDng,
            },
            Some("camera RAW Adapter mismatch: probe=Dng execution=CinemaDng"),
        ),
        (
            RawDecodeError::MissingColorMetadata,
            Some("DNG execution requires ColorMatrix and AsShotNeutral metadata"),
        ),
        (RawDecodeError::Cancelled, None),
        (
            RawDecodeError::NoPictureStream,
            Some("DNG source has no decodable picture stream"),
        ),
        (RawDecodeError::Refused("eof".to_owned()), Some("eof")),
        (
            RawDecodeError::NoFrame("eof".to_owned()),
            Some("DNG decoder produced no Bayer frame: eof"),
        ),
        (
            RawDecodeError::NotBayer("RGB24".to_owned()),
            Some("DNG decoder returned non-Bayer pixel format RGB24"),
        ),
        (
            RawDecodeError::ShortRow(ShortBayerRow { row: 3, wide: true }),
            Some("DNG Bayer16 row 3 is shorter than declared"),
        ),
        (
            RawDecodeError::CfaMismatch {
                probe: CameraRawCfaPattern::Rggb,
                decoder: CameraRawCfaPattern::Grbg,
            },
            Some("DNG CFA probe/decode mismatch: probe=Rggb decoder=Grbg"),
        ),
    ] {
        assert_eq!(error.reason().as_deref(), reason);
    }
}
