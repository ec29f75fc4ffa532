//! Probing a file: what its streams are, from what a demuxer and its decoders
//! report, and the decisions of the probes that decode frames.

use super::color::{
    unavailable_verdict, ColorSpace, DetectedColorInterpretation, VideoColorMetadata, VideoColorMetadataHint,
    VideoColorMetadataHintScope,
};
use super::detection::{color_verdict, detect_color_space_from_metadata, ColorAuthorities};
use super::diagnostics::{DecodedVideoRange, VideoColorDiagnostic};
use super::hdr::{
    embedded_profile, icc_color_profile_hint, merge_hdr_metadata, merged, VideoHdrMetadataSummary,
};
use super::hints::{
    hint_authority, named_color_space, normalized, order_hints, ordered,
    parse_video_color_metadata_hint,
};
use crate::camera_raw::dng::{CameraRawCfaPattern, CameraRawMetadata};
use super::stream::{
    canonical_from, duration_from_stream_ticks, map_rational, nanos_of_ticks,
    normalized_stream_metadata, AudioCodec, ChannelLayout, PixelFormat, Rational, VideoCodec,
    VideoCodecProfile,
};
use crate::text::{decimal, parse_unsigned, push_decimal, trim, unsigned_of};
use vstd::prelude::*;
use vstd::string::*;

verus! {

/// Whether a hint is what a metadata field of a scope says.
pub open spec fn hint_of(
    hint: VideoColorMetadataHint,
    scope: VideoColorMetadataHintScope,
    field: (String, String),
) -> bool {
    &&& named_color_space(normalized(field.0@ + " "@ + field.1@)) == Some(
        hint.detected_color_space,
    )
    &&& hint.scope == scope
    &&& hint.key@ == field.0@
    &&& hint.value@ == field.1@
    &&& hint.authority == hint_authority(scope, field.0@)
}

/// Whether a metadata field names a colour identity.
pub open spec fn is_hint(field: (String, String)) -> bool {
    named_color_space(normalized(field.0@ + " "@ + field.1@)) is Some
}

/// Whether `hints` are, in order, what the first `n` fields of a scope say.
pub open spec fn hints_of(
    hints: Seq<VideoColorMetadataHint>,
    scope: VideoColorMetadataHintScope,
    fields: Seq<(String, String)>,
    n: nat,
) -> bool
    decreases n,
{
    if n == 0 {
        hints.len() == 0
    } else if is_hint(fields[n - 1]) {
        &&& hints.len() > 0
        &&& hint_of(hints.last(), scope, fields[n - 1])
        &&& hints_of(hints.drop_last(), scope, fields, (n - 1) as nat)
    } else {
        hints_of(hints, scope, fields, (n - 1) as nat)
    }
}

/// The hints among the metadata fields of a stream or container, in their order.
pub fn collect_color_metadata_hints(
    scope: VideoColorMetadataHintScope,
    fields: &Vec<(String, String)>,
) -> (hints: Vec<VideoColorMetadataHint>)
    ensures
        hints_of(hints@, scope, fields@, fields@.len()),
{
    let mut hints: Vec<VideoColorMetadataHint> = Vec::new();
    let mut i: usize = 0;
    while i < fields.len()
        invariant
            i <= fields.len(),
            hints_of(hints@, scope, fields@, i as nat),
        decreases fields.len() - i,
    {
        let ghost before = hints@;
        match parse_video_color_metadata_hint(scope, fields[i].0.as_str(), fields[i].1.as_str()) {
            Some(hint) => {
                hints.push(hint);
                assert(hints@.drop_last() =~= before);
            },
            None => {},
        }
        i = i + 1;
    }
    hints
}

fn append_hints(out: &mut Vec<VideoColorMetadataHint>, more: &Vec<VideoColorMetadataHint>)
    ensures
        final(out)@ == old(out)@ + more@,
{
    let ghost start = out@;
    let mut i: usize = 0;
    assert(out@ =~= start + more@.take(0));
    while i < more.len()
        invariant
            i <= more.len(),
            out@ == start + more@.take(i as int),
        decreases more.len() - i,
    {
        out.push(more[i].duplicate());
        assert(out@ =~= start + more@.take(i + 1));
        i = i + 1;
    }
    assert(more@.take(more@.len() as int) =~= more@);
}

/// An optional hint as a list.
pub open spec fn optional_hint(hint: Option<VideoColorMetadataHint>) -> Seq<
    VideoColorMetadataHint,
> {
    match hint {
        Some(hint) => seq![hint],
        None => seq![],
    }
}

/// All hints that bear on a stream, in diagnostic order: its own, those of the
/// container and that of the file name.
pub fn stream_color_hints(
    stream: &Vec<VideoColorMetadataHint>,
    container: &Vec<VideoColorMetadataHint>,
    file_name: &Option<VideoColorMetadataHint>,
) -> (hints: Vec<VideoColorMetadataHint>)
    ensures
        hints@ == ordered(stream@ + container@ + optional_hint(*file_name)),
{
    let mut all: Vec<VideoColorMetadataHint> = Vec::new();
    append_hints(&mut all, stream);
    append_hints(&mut all, container);
    match file_name {
        Some(hint) => {
            all.push(hint.duplicate());
        },
        None => {},
    }
    assert(all@ =~= stream@ + container@ + optional_hint(*file_name));
    order_hints(all.as_slice())
}

/// What the decoder of a video stream reports.
#[derive(Debug)]
pub struct VideoDecoderReport {
    pub width: u32,
    pub height: u32,
    /// The pixel format, where it is known exactly.
    pub pixel_format: Option<PixelFormat>,
    /// Bits per sample of the pixel format in effect.
    pub bit_depth: u8,
    /// Whether the pixel format in effect has an alpha channel.
    pub has_alpha: bool,
    pub color_range: DecodedVideoRange,
    pub metadata: VideoColorMetadata,
    pub profile: VideoCodecProfile,
    /// What the tags and declarations of the stream stand for.
    pub authorities: ColorAuthorities,
}

/// What a demuxer reports of a video stream.
#[derive(Debug)]
pub struct VideoStreamReport {
    pub index: u32,
    pub codec: VideoCodec,
    pub duration_ticks: i64,
    pub time_base: (i32, i32),
    pub average_frame_rate: (i32, i32),
    pub frames: i64,
    /// Hints in diagnostic order.
    pub hints: Vec<VideoColorMetadataHint>,
    pub hdr_metadata: Vec<VideoHdrMetadataSummary>,
    /// What the decoder says, where one could be opened.
    pub decoder: Option<VideoDecoderReport>,
    /// The camera RAW facts of the file, where it is one.
    pub camera_raw: Option<CameraRawMetadata>,
}

/// A probed video stream.
#[derive(Debug)]
pub struct VideoStreamInfo {
    pub index: u32,
    pub codec: VideoCodec,
    pub duration_nanos: Option<u64>,
    pub codec_profile: VideoCodecProfile,
    pub width: u32,
    pub height: u32,
    pub frame_rate: Rational,
    pub frame_rate_proven: bool,
    pub pixel_format: PixelFormat,
    pub pixel_format_proven: bool,
    pub color_range: DecodedVideoRange,
    pub color_interpretation: DetectedColorInterpretation,
    pub color_metadata: Option<VideoColorMetadata>,
    pub color_metadata_hints: Vec<VideoColorMetadataHint>,
    pub hdr_metadata: Vec<VideoHdrMetadataSummary>,
    pub bit_depth: u8,
    pub has_alpha: bool,
    pub avg_bitrate: u64,
    pub total_frames: Option<u64>,
    /// The camera RAW facts of the file, where it is one.
    pub camera_raw: Option<CameraRawMetadata>,
}

impl VideoStreamInfo {
    /// The identity that may drive pixels: camera RAW is developed to linear Rec.709,
    /// whatever its metadata come to; any other stream has the identity derived from
    /// its metadata.
    pub open spec fn executable_identity(self, derived: Option<ColorSpace>) -> Option<
        ColorSpace,
    > {
        if self.camera_raw is Some {
            Some(ColorSpace::LinearRec709)
        } else {
            derived
        }
    }

    /// The identity that may drive pixels, where the metadata come to `derived`.
    pub fn executable_color_space(&self, derived: Option<ColorSpace>) -> (r: Option<ColorSpace>)
        ensures
            r == self.executable_identity(derived),
            self.camera_raw is Some ==> r == Some(ColorSpace::LinearRec709),
            self.camera_raw is None ==> r == derived,
    {
        if self.camera_raw.is_some() {
            Some(ColorSpace::LinearRec709)
        } else {
            derived
        }
    }
}

/// The pixel format of a camera RAW mosaic, where it has a name. A mosaic of more than
/// eight bits is held in sixteen.
pub open spec fn mosaic_format(raw: Option<CameraRawMetadata>) -> Option<PixelFormat> {
    match raw {
        Some(facts) => if facts.cfa_pattern == CameraRawCfaPattern::Rggb && facts.bit_depth > 8 {
            Some(PixelFormat::BayerRggb16le)
        } else {
            None
        },
        None => None,
    }
}

/// The pixel format that is proven of a stream: that of its mosaic, or else the one
/// that its decoder reports.
pub open spec fn proven_format(
    raw: Option<CameraRawMetadata>,
    reported: Option<PixelFormat>,
) -> Option<PixelFormat> {
    match mosaic_format(raw) {
        Some(format) => Some(format),
        None => reported,
    }
}

/// The pixel format that is proven of a stream.
pub fn proven_pixel_format(
    raw: &Option<CameraRawMetadata>,
    reported: Option<PixelFormat>,
) -> (r: Option<PixelFormat>)
    ensures
        r == proven_format(*raw, reported),
{
    match raw {
        Some(facts) => if facts.cfa_pattern == CameraRawCfaPattern::Rggb && facts.bit_depth > 8 {
            Some(PixelFormat::BayerRggb16le)
        } else {
            reported
        },
        None => reported,
    }
}

/// The frame count that a container declares, where it declares one.
pub open spec fn declared_frames(frames: i64) -> Option<u64> {
    if frames > 0 {
        Some(frames as u64)
    } else {
        None
    }
}

/// The pixel format that the decoder of a stream reports, where one could be opened.
pub open spec fn reported_format(report: VideoStreamReport) -> Option<PixelFormat> {
    match report.decoder {
        Some(decoder) => decoder.pixel_format,
        None => None,
    }
}

/// Whether an interpretation is what the report of a stream comes to.
pub open spec fn interprets(
    interpretation: DetectedColorInterpretation,
    report: VideoStreamReport,
) -> bool {
    match report.decoder {
        Some(decoder) => interpretation@ == color_verdict(
            decoder.metadata,
            report.hints@,
            match embedded_profile(report.hdr_metadata@, 0) {
                Some(profile) => Some(&profile),
                None => None,
            },
            decoder.authorities,
        ),
        None => interpretation@ == unavailable_verdict(),
    }
}

/// The frame count of a stream: a camera RAW file holds one picture, any other as many
/// as its container declares.
pub open spec fn known_frames(report: VideoStreamReport) -> Option<u64> {
    if report.camera_raw is Some {
        Some(1)
    } else {
        declared_frames(report.frames)
    }
}

/// Whether a probed stream says what was reported of it. Where no decoder could be
/// opened, extent, range and tags stay unknown, and so does the format unless the file
/// is camera RAW.
pub open spec fn describes(info: VideoStreamInfo, report: VideoStreamReport) -> bool {
    &&& info.index == report.index
    &&& info.codec == report.codec
    &&& info.duration_nanos == nanos_of_ticks(
        report.duration_ticks,
        report.time_base.0,
        report.time_base.1,
    )
    &&& if report.average_frame_rate.0 <= 0 || report.average_frame_rate.1 <= 0 {
        info.frame_rate == (Rational { num: 0, den: 1 }) && !info.frame_rate_proven
    } else {
        info.frame_rate == canonical_from(
            Rational {
                num: report.average_frame_rate.0 as i64,
                den: report.average_frame_rate.1 as i64,
            },
            0,
        ) && info.frame_rate_proven
    }
    &&& info.color_metadata_hints@ == report.hints@
    &&& info.hdr_metadata@ == report.hdr_metadata@
    &&& info.avg_bitrate == 0
    &&& info.total_frames == known_frames(report)
    &&& info.camera_raw == report.camera_raw
    &&& report.camera_raw is Some ==> forall|derived: Option<ColorSpace>|
        #[trigger] info.executable_identity(derived) == Some(ColorSpace::LinearRec709)
    &&& interprets(info.color_interpretation, report)
    &&& match proven_format(report.camera_raw, reported_format(report)) {
        Some(format) => info.pixel_format == format && info.pixel_format_proven,
        None => info.pixel_format == PixelFormat::Yuv420p && !info.pixel_format_proven,
    }
    &&& mosaic_format(report.camera_raw) is Some ==> info.bit_depth == 16 && !info.has_alpha
    &&& match report.decoder {
        Some(decoder) => {
            &&& info.codec_profile == decoder.profile
            &&& info.width == decoder.width
            &&& info.height == decoder.height
            &&& info.color_range == decoder.color_range
            &&& info.color_metadata == Some(decoder.metadata)
            &&& mosaic_format(report.camera_raw) is None ==> info.bit_depth == decoder.bit_depth
                && info.has_alpha == decoder.has_alpha
        },
        None => {
            &&& info.codec_profile == VideoCodecProfile::Unknown
            &&& info.width == 0
            &&& info.height == 0
            &&& info.color_range == DecodedVideoRange::Unknown
            &&& info.color_metadata is None
            &&& mosaic_format(report.camera_raw) is None ==> info.bit_depth == 8
            &&& !info.has_alpha
        },
    }
}

/// Describes a video stream from what was reported of it.
pub fn describe_video_stream(report: VideoStreamReport) -> (info: VideoStreamInfo)
    ensures
        describes(info, report),
        info.index == report.index,
        info.codec == report.codec,
        report.decoder matches Some(decoder) ==> {
            &&& info.width == decoder.width && info.height == decoder.height
            &&& info.color_range == decoder.color_range
            &&& info.codec_profile == decoder.profile
            &&& info.color_metadata == Some(decoder.metadata)
            &&& report.camera_raw is None && decoder.pixel_format is Some
                ==> Some(info.pixel_format)
                == decoder.pixel_format && info.pixel_format_proven
            &&& report.camera_raw is None ==> info.bit_depth == decoder.bit_depth && info.has_alpha
                == decoder.has_alpha
            &&& decoder.pixel_format is None && report.camera_raw is None
                ==> !info.pixel_format_proven
        },
        report.decoder is None ==> info.width == 0 && info.height == 0
            && info.color_range is Unknown
            && info.color_interpretation.candidate_color_space is None
            && info.color_interpretation.confidence is Absent,
        report.decoder is None && report.camera_raw is None ==> !info.pixel_format_proven,
        report.camera_raw matches Some(raw) ==> {
            &&& info.total_frames == Some(1u64)
            &&& raw.cfa_pattern is Rggb && raw.bit_depth > 8 ==> info.pixel_format is BayerRggb16le
                && info.pixel_format_proven && info.bit_depth == 16 && !info.has_alpha
            &&& !(raw.cfa_pattern is Rggb) || raw.bit_depth <= 8 ==> !(
            info.pixel_format is BayerRggb16le) || (report.decoder matches Some(decoder)
                && decoder.pixel_format == Some(PixelFormat::BayerRggb16le))
        },
        report.camera_raw is None ==> (info.total_frames is Some <==> report.frames > 0),
        report.camera_raw is None ==> (info.total_frames matches Some(frames) ==> frames
            == report.frames),
        info.frame_rate_proven <==> report.average_frame_rate.0 > 0 && report.average_frame_rate.1
            > 0,
{
    let duration_nanos = duration_from_stream_ticks(
        report.duration_ticks,
        report.time_base.0,
        report.time_base.1,
    );
    let (frame_rate, frame_rate_proven) = map_rational(
        report.average_frame_rate.0,
        report.average_frame_rate.1,
    );
    let total_frames: Option<u64> = if report.camera_raw.is_some() {
        Some(1)
    } else if report.frames > 0 {
        Some(report.frames as u64)
    } else {
        None
    };
    let mosaic = proven_pixel_format(&report.camera_raw, None);
    match report.decoder {
        Some(decoder) => {
            let profile = icc_color_profile_hint(report.hdr_metadata.as_slice());
            let color_interpretation = detect_color_space_from_metadata(
                &decoder.metadata,
                report.hints.as_slice(),
                profile.as_ref(),
                decoder.authorities,
            );
            let (pixel_format, pixel_format_proven) = match proven_pixel_format(
                &report.camera_raw,
                decoder.pixel_format,
            ) {
                Some(format) => (format, true),
                None => (PixelFormat::Yuv420p, false),
            };
            let (bit_depth, has_alpha): (u8, bool) = if mosaic.is_some() {
                (16, false)
            } else {
                (decoder.bit_depth, decoder.has_alpha)
            };
            VideoStreamInfo {
                index: report.index,
                codec: report.codec,
                duration_nanos,
                codec_profile: decoder.profile,
                width: decoder.width,
                height: decoder.height,
                frame_rate,
                frame_rate_proven,
                pixel_format,
                pixel_format_proven,
                color_range: decoder.color_range,
                color_interpretation,
                color_metadata: Some(decoder.metadata),
                color_metadata_hints: report.hints,
                hdr_metadata: report.hdr_metadata,
                bit_depth,
                has_alpha,
                avg_bitrate: 0,
                total_frames,
                camera_raw: report.camera_raw,
            }
        },
        None => {
            let (pixel_format, pixel_format_proven, bit_depth): (PixelFormat, bool, u8) =
                match mosaic {
                Some(format) => (format, true, 16),
                None => (PixelFormat::Yuv420p, false, 8),
            };
            VideoStreamInfo {
                index: report.index,
                codec: report.codec,
                duration_nanos,
                codec_profile: VideoCodecProfile::Unknown,
                width: 0,
                height: 0,
                frame_rate,
                frame_rate_proven,
                pixel_format,
                pixel_format_proven,
                color_range: DecodedVideoRange::Unknown,
                color_interpretation: DetectedColorInterpretation::decoder_unavailable(),
                color_metadata: None,
                color_metadata_hints: report.hints,
                hdr_metadata: report.hdr_metadata,
                bit_depth,
                has_alpha: false,
                avg_bitrate: 0,
                total_frames,
                camera_raw: report.camera_raw,
            }
        },
    }
}

impl VideoColorDiagnostic {
    /// The colour diagnostic of a probed stream, whose metadata come to the identity
    /// `derived`.
    pub fn from_stream(stream: VideoStreamInfo, derived: Option<ColorSpace>) -> (r:
        VideoColorDiagnostic)
        ensures
            r.color_range == stream.color_range,
            r.executable == stream.executable_identity(derived),
            r.interpretation == stream.color_interpretation,
            r.metadata == stream.color_metadata,
            r.metadata_hints == stream.color_metadata_hints,
            r.hdr_metadata == stream.hdr_metadata,
    {
        let executable = stream.executable_color_space(derived);
        VideoColorDiagnostic {
            color_range: stream.color_range,
            executable,
            interpretation: stream.color_interpretation,
            metadata: stream.color_metadata,
            metadata_hints: stream.color_metadata_hints,
            hdr_metadata: stream.hdr_metadata,
        }
    }
}

/// What the decoder of an audio stream reports.
#[derive(Debug)]
pub struct AudioDecoderReport {
    pub sample_rate: u32,
    pub channels: u8,
    pub channel_layout: ChannelLayout,
}

/// A probed audio stream.
#[derive(Debug)]
pub struct AudioStreamInfo {
    pub index: u32,
    pub stream_id: Option<i32>,
    pub language: Option<String>,
    pub title: Option<String>,
    pub is_default: bool,
    pub codec: AudioCodec,
    pub duration_nanos: Option<u64>,
    pub sample_rate: u32,
    pub channels: u8,
    pub channel_layout: ChannelLayout,
    pub bit_depth: u16,
    pub avg_bitrate: u64,
}

/// What a demuxer reports of an audio stream.
#[derive(Debug)]
pub struct AudioStreamReport {
    pub index: u32,
    pub id: i32,
    pub language: Option<String>,
    pub title: Option<String>,
    pub is_default: bool,
    pub codec: AudioCodec,
    pub duration_ticks: i64,
    pub time_base: (i32, i32),
    pub decoder: Option<AudioDecoderReport>,
}

/// Whether a label is what a metadata field says once white space is trimmed.
pub open spec fn is_label(label: Option<String>, field: Option<String>) -> bool {
    match field {
        Some(text) => if trim(text@).len() == 0 {
            label is None
        } else {
            label matches Some(found) && found@ == trim(text@)
        },
        None => label is None,
    }
}

fn label_of(field: &Option<String>) -> (r: Option<String>)
    ensures
        is_label(r, *field),
{
    match field {
        Some(text) => normalized_stream_metadata(Some(text.as_str())),
        None => None,
    }
}

/// Describes an audio stream from what was reported of it.
pub fn describe_audio_stream(report: AudioStreamReport) -> (info: AudioStreamInfo)
    ensures
        info.index == report.index,
        info.stream_id == (if report.id >= 0 {
            Some(report.id)
        } else {
            None
        }),
        is_label(info.language, report.language),
        is_label(info.title, report.title),
        info.is_default == report.is_default,
        info.codec == report.codec,
        info.duration_nanos == nanos_of_ticks(
            report.duration_ticks,
            report.time_base.0,
            report.time_base.1,
        ),
        info.bit_depth == 16,
        info.avg_bitrate == 0,
        match report.decoder {
            Some(decoder) => info.sample_rate == decoder.sample_rate && info.channels
                == decoder.channels && info.channel_layout == decoder.channel_layout,
            None => info.sample_rate == 0 && info.channels == 0 && info.channel_layout
                == ChannelLayout::Unspecified(0),
        },
{
    let language = label_of(&report.language);
    let title = label_of(&report.title);
    let stream_id: Option<i32> = if report.id >= 0 {
        Some(report.id)
    } else {
        None
    };
    let duration_nanos = duration_from_stream_ticks(
        report.duration_ticks,
        report.time_base.0,
        report.time_base.1,
    );
    let (sample_rate, channels, channel_layout): (u32, u8, ChannelLayout) = match report.decoder {
        Some(decoder) => (decoder.sample_rate, decoder.channels, decoder.channel_layout),
        None => (0, 0, ChannelLayout::Unspecified(0)),
    };
    AudioStreamInfo {
        index: report.index,
        stream_id,
        language,
        title,
        is_default: report.is_default,
        codec: report.codec,
        duration_nanos,
        sample_rate,
        channels,
        channel_layout,
        bit_depth: 16,
        avg_bitrate: 0,
    }
}

/// A probed file.
#[derive(Debug)]
pub struct MediaProbeSnapshot {
    pub duration_micros: u64,
    pub file_size: u64,
    pub container: String,
    pub has_video: bool,
    pub has_audio: bool,
    pub video_streams: Vec<VideoStreamInfo>,
    pub audio_streams: Vec<AudioStreamInfo>,
}

/// Puts the streams of a probed file together.
pub fn assemble_probe_snapshot(
    duration_micros: i64,
    file_size: Option<u64>,
    container: String,
    video_streams: Vec<VideoStreamInfo>,
    audio_streams: Vec<AudioStreamInfo>,
) -> (r: MediaProbeSnapshot)
    ensures
        r.duration_micros == (if duration_micros > 0 {
            duration_micros as u64
        } else {
            0
        }),
        r.file_size == file_size.unwrap_or(0),
        r.container == container,
        r.has_video == (video_streams@.len() > 0),
        r.has_audio == (audio_streams@.len() > 0),
        r.video_streams == video_streams,
        r.audio_streams == audio_streams,
{
    let duration: u64 = if duration_micros > 0 {
        duration_micros as u64
    } else {
        0
    };
    MediaProbeSnapshot {
        duration_micros: duration,
        file_size: file_size.unwrap_or(0),
        container,
        has_video: video_streams.len() > 0,
        has_audio: audio_streams.len() > 0,
        video_streams,
        audio_streams,
    }
}

impl VideoStreamInfo {
    /// Records what the decoding of a picture file proved: exactly one frame, more
    /// or fewer, or nothing. A frame count that the container declared stands.
    pub fn apply_picture_proof(&mut self, single: Option<bool>)
        ensures
            *final(self) == (VideoStreamInfo {
                total_frames: if old(self).total_frames is None && single == Some(true) {
                    Some(1)
                } else {
                    old(self).total_frames
                },
                ..*old(self)
            }),
            old(self).total_frames is Some ==> *final(self) == *old(self),
            single != Some(true) ==> *final(self) == *old(self),
            old(self).total_frames is None && single == Some(true) ==> final(self).total_frames
                == Some(1u64),
    {
        if self.total_frames.is_none() {
            match single {
                Some(true) => {
                    self.total_frames = Some(1);
                },
                _ => {},
            }
        }
    }

    /// Records the side data of the first decoded frame.
    pub fn apply_frame_hdr(&mut self, frame_metadata: Vec<VideoHdrMetadataSummary>)
        ensures
            final(self).hdr_metadata@ == merged(
                old(self).hdr_metadata@,
                frame_metadata@,
                frame_metadata@.len(),
            ),
            *final(self) == (VideoStreamInfo {
                hdr_metadata: final(self).hdr_metadata,
                ..*old(self)
            }),
    {
        merge_hdr_metadata(&mut self.hdr_metadata, frame_metadata);
    }
}

/// Most packets of a stream that a frame probe sends.
pub const MAX_PROBE_PACKETS: usize = 512;

/// Answer of a decoder that was asked for a frame.
#[derive(Debug, Clone, Copy, PartialEq, Eq, Structural)]
pub enum ReceiveOutcome {
    Frame,
    NeedsInput,
    EndOfStream,
    Failed,
}

/// What a picture probe does next.
#[derive(Debug, Clone, Copy, PartialEq, Eq, Structural)]
pub enum PictureProbeStep {
    /// Ask the decoder for a frame.
    Receive,
    /// Send the next packet, or signal the end where there is none.
    Feed,
    /// It is known whether there is exactly one frame.
    Decided { single: bool },
    /// Too many packets were sent.
    TooManyPackets,
    /// The decoder wanted more after the end.
    InputAfterEnd,
    /// The decoder failed.
    DecoderFailed,
}

/// The reason of a step that ends a picture probe without an answer. `cause` is how the
/// decoder puts its own failure.
pub open spec fn picture_probe_failure(step: PictureProbeStep, cause: Seq<char>) -> Option<Seq<char>> {
    match step {
        PictureProbeStep::TooManyPackets => Some(
            "picture probe exceeded "@ + decimal(MAX_PROBE_PACKETS as nat) + " target packets"@,
        ),
        PictureProbeStep::InputAfterEnd => Some("picture decoder requested input after EOF"@),
        PictureProbeStep::DecoderFailed => Some("receive picture frame: "@ + cause),
        _ => None,
    }
}

impl PictureProbeStep {
    /// The reason of a step that ends a picture probe without an answer.
    pub fn failure(self, cause: &str) -> (r: Option<String>)
        ensures
            match r {
                Some(text) => picture_probe_failure(self, cause@) == Some(text@),
                None => picture_probe_failure(self, cause@) is None,
            },
    {
        match self {
            PictureProbeStep::TooManyPackets => {
                let mut text = "picture probe exceeded ".to_owned();
                push_decimal(&mut text, MAX_PROBE_PACKETS as u64);
                text.append(" target packets");
                Some(text)
            },
            PictureProbeStep::InputAfterEnd => Some(
                "picture decoder requested input after EOF".to_owned(),
            ),
            PictureProbeStep::DecoderFailed => {
                let mut text = "receive picture frame: ".to_owned();
                text.append(cause);
                Some(text)
            },
            _ => None,
        }
    }
}

/// A probe that tells whether a picture file holds exactly one frame.
#[derive(Debug, Clone, Copy, PartialEq, Eq, Structural)]
pub struct PictureProbe {
    pub frame_count: usize,
    pub packet_count: usize,
    pub flushed: bool,
}

impl PictureProbe {
    /// Within the bounds of the probe.
    pub open spec fn wf(&self) -> bool {
        self.frame_count <= 2 && self.packet_count <= MAX_PROBE_PACKETS + 1
    }

    /// A probe that saw nothing.
    pub fn new() -> (r: PictureProbe)
        ensures
            r.wf(),
            r == (PictureProbe { frame_count: 0, packet_count: 0, flushed: false }),
    {
        PictureProbe { frame_count: 0, packet_count: 0, flushed: false }
    }

    /// A packet of the stream is about to be sent.
    pub fn on_packet(&mut self) -> (step: PictureProbeStep)
        requires
            old(self).wf(),
            old(self).packet_count <= MAX_PROBE_PACKETS,
        ensures
            final(self).wf(),
            *final(self) == (PictureProbe {
                packet_count: (old(self).packet_count + 1) as usize,
                ..*old(self)
            }),
            step == (if final(self).packet_count > MAX_PROBE_PACKETS {
                PictureProbeStep::TooManyPackets
            } else {
                PictureProbeStep::Receive
            }),
            step is TooManyPackets <==> old(self).packet_count >= 512,
    {
        self.packet_count = self.packet_count + 1;
        if self.packet_count > MAX_PROBE_PACKETS {
            PictureProbeStep::TooManyPackets
        } else {
            PictureProbeStep::Receive
        }
    }

    /// The end was signalled to the decoder.
    pub fn on_flush(&mut self) -> (step: PictureProbeStep)
        requires
            old(self).wf(),
        ensures
            final(self).wf(),
            *final(self) == (PictureProbe { flushed: true, ..*old(self) }),
            step == PictureProbeStep::Receive,
    {
        self.flushed = true;
        PictureProbeStep::Receive
    }

    /// The decoder answered.
    pub fn on_receive(&mut self, outcome: ReceiveOutcome) -> (step: PictureProbeStep)
        requires
            old(self).wf(),
            old(self).frame_count < 2,
        ensures
            final(self).wf(),
            *final(self) == (PictureProbe {
                frame_count: if outcome == ReceiveOutcome::Frame {
                    (old(self).frame_count + 1) as usize
                } else {
                    old(self).frame_count
                },
                ..*old(self)
            }),
            step == (match outcome {
                ReceiveOutcome::Frame => if old(self).frame_count == 1 {
                    PictureProbeStep::Decided { single: false }
                } else {
                    PictureProbeStep::Receive
                },
                ReceiveOutcome::NeedsInput => if old(self).flushed {
                    PictureProbeStep::InputAfterEnd
                } else {
                    PictureProbeStep::Feed
                },
                ReceiveOutcome::EndOfStream => PictureProbeStep::Decided {
                    single: old(self).frame_count == 1,
                },
                ReceiveOutcome::Failed => PictureProbeStep::DecoderFailed,
            }),
            (step matches PictureProbeStep::Decided { single } && single)
                <==> outcome is EndOfStream && final(self).frame_count == 1,
            final(self).frame_count >= 2 ==> (step matches PictureProbeStep::Decided { single }
                && !single),
            outcome is EndOfStream ==> step is Decided,
            outcome is Failed <==> step is DecoderFailed,
            step is Feed ==> !final(self).flushed && outcome is NeedsInput,
    {
        match outcome {
            ReceiveOutcome::Frame => {
                self.frame_count = self.frame_count + 1;
                if self.frame_count >= 2 {
                    PictureProbeStep::Decided { single: false }
                } else {
                    PictureProbeStep::Receive
                }
            },
            ReceiveOutcome::NeedsInput => if self.flushed {
                PictureProbeStep::InputAfterEnd
            } else {
                PictureProbeStep::Feed
            },
            ReceiveOutcome::EndOfStream => PictureProbeStep::Decided {
                single: self.frame_count == 1,
            },
            ReceiveOutcome::Failed => PictureProbeStep::DecoderFailed,
        }
    }
}

/// What the search for a first frame does next.
#[derive(Debug, Clone, Copy, PartialEq, Eq, Structural)]
pub enum FirstFrameStep {
    /// The frame is there.
    Found,
    /// Send the next packet, or signal the end where there is none.
    Feed,
    /// No frame after too many packets.
    GiveUp,
}

impl FirstFrameStep {
    /// The reason of a search that was given up.
    pub fn failure(self) -> (r: Option<String>)
        ensures
            match r {
                Some(text) => self is GiveUp && text@ == "no decoded frame after "@ + decimal(
                    MAX_PROBE_PACKETS as nat,
                ) + " packets"@,
                None => !(self is GiveUp),
            },
    {
        match self {
            FirstFrameStep::GiveUp => {
                let mut text = "no decoded frame after ".to_owned();
                push_decimal(&mut text, MAX_PROBE_PACKETS as u64);
                text.append(" packets");
                Some(text)
            },
            _ => None,
        }
    }
}

/// Decides after a packet of the stream was sent and the decoder was asked;
/// `packets` counts those sent, this one among them.
pub fn first_frame_step(packets: usize, received: bool) -> (step: FirstFrameStep)
    ensures
        step == (if received {
            FirstFrameStep::Found
        } else if packets >= MAX_PROBE_PACKETS {
            FirstFrameStep::GiveUp
        } else {
            FirstFrameStep::Feed
        }),
        step is Found <==> received,
        step is GiveUp <==> !received && packets >= 512,
{
    if received {
        FirstFrameStep::Found
    } else if packets >= MAX_PROBE_PACKETS {
        FirstFrameStep::GiveUp
    } else {
        FirstFrameStep::Feed
    }
}

/// Milliseconds after which a probe counts as slow: what the setting says, where
/// that is a number of at least ten.
pub fn media_probe_slow_threshold_ms(setting: Option<&str>) -> (r: u64)
    ensures
        r == (match setting {
            Some(text) => match unsigned_of(text@) {
                Some(value) => if value >= 10 {
                    value
                } else {
                    120
                },
                None => 120,
            },
            None => 120,
        }),
        r >= 10,
{
    match setting {
        Some(text) => match parse_unsigned(text) {
            Some(value) if value >= 10 => value,
            _ => 120,
        },
        None => 120,
    }
}

/// The hints of a stream or container are exactly what its fields say: a field that names an
/// identity gives a hint with its key, its value and its scope, and no hint comes from
/// anywhere else.
pub proof fn hints_come_from_fields(
    hints: Seq<VideoColorMetadataHint>,
    scope: VideoColorMetadataHintScope,
    fields: Seq<(String, String)>,
    n: nat,
    i: int,
    k: int,
)
    requires
        n <= fields.len(),
        hints_of(hints, scope, fields, n),
    ensures
        hints.len() <= n,
        0 <= i < n && is_hint(fields[i]) ==> exists|m: int|
            0 <= m < hints.len() && (#[trigger] hints[m]).key@ == fields[i].0@ && hints[m].value@
                == fields[i].1@ && hints[m].scope == scope,
        0 <= k < hints.len() ==> exists|j: int|
            0 <= j < n && hints[k].key@ == (#[trigger] fields[j]).0@ && hints[k].value@
                == fields[j].1@ && hints[k].scope == scope && is_hint(fields[j]),
    decreases n,
{
    if n > 0 {
        if is_hint(fields[n - 1]) {
            let front = hints.drop_last();
            hints_come_from_fields(front, scope, fields, (n - 1) as nat, i, k);
            if 0 <= i < n && is_hint(fields[i]) {
                if i == n - 1 {
                    assert(hints[hints.len() - 1].key@ == fields[i].0@);
                } else {
                    let m = choose|m: int|
                        0 <= m < front.len() && (#[trigger] front[m]).key@ == fields[i].0@
                            && front[m].value@ == fields[i].1@ && front[m].scope == scope;
                    assert(hints[m] == front[m]);
                }
            }
            if 0 <= k < front.len() {
                assert(hints[k] == front[k]);
                let j = choose|j: int|
                    0 <= j < n - 1 && front[k].key@ == (#[trigger] fields[j]).0@ && front[k].value@
                        == fields[j].1@ && front[k].scope == scope && is_hint(fields[j]);
                assert(hints[k].key@ == fields[j].0@);
            }
            if k == front.len() {
                assert(hints[k].key@ == fields[n - 1].0@);
            }
        } else {
            hints_come_from_fields(hints, scope, fields, (n - 1) as nat, i, k);
        }
    }
}

} // verus!
