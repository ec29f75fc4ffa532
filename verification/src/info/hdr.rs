//! HDR side data of streams and frames.

use super::color::{IccColorProfileHint, IccColorSpaceMapping};
use crate::camera_raw::tiff::{i32_of, u32_of, Endian};
use crate::text::same_text;
use vstd::prelude::*;

verus! {

/// Kinds of side data that bear on HDR.
#[derive(Debug, Clone, Copy, PartialEq, Eq, Structural)]
pub enum VideoHdrSideDataKind {
    MasteringDisplayMetadata,
    ContentLightLevel,
    DynamicHdr10Plus,
    DolbyVisionConfig,
    IccProfile,
}

/// A rational number as side data carries it.
#[derive(Debug, Clone, Copy, PartialEq, Eq, Structural)]
pub struct VideoHdrRational {
    pub num: i32,
    pub den: i32,
}

/// A chromaticity coordinate.
#[derive(Debug, Clone, Copy, PartialEq, Eq, Structural)]
pub struct VideoHdrChromaticity {
    pub x: VideoHdrRational,
    pub y: VideoHdrRational,
}

/// Primaries and white point of a mastering display.
#[derive(Debug, Clone, Copy, PartialEq, Eq, Structural)]
pub struct VideoMasteringDisplayPrimaries {
    pub red: VideoHdrChromaticity,
    pub green: VideoHdrChromaticity,
    pub blue: VideoHdrChromaticity,
    pub white_point: VideoHdrChromaticity,
}

/// Luminance range of a mastering display.
#[derive(Debug, Clone, Copy, PartialEq, Eq, Structural)]
pub struct VideoMasteringDisplayLuminance {
    pub min: VideoHdrRational,
    pub max: VideoHdrRational,
}

/// What is known of a mastering display.
#[derive(Debug, Clone, Copy, PartialEq, Eq, Structural)]
pub struct VideoMasteringDisplayMetadata {
    pub primaries: Option<VideoMasteringDisplayPrimaries>,
    pub luminance: Option<VideoMasteringDisplayLuminance>,
}

/// Light levels of the content.
#[derive(Debug, Clone, Copy, PartialEq, Eq, Structural)]
pub struct VideoContentLightMetadata {
    pub max_content_light_level: u32,
    pub max_frame_average_light_level: u32,
}

/// An embedded ICC profile.
#[derive(Debug, Clone, PartialEq, Eq)]
pub struct VideoIccProfileMetadata {
    pub name: String,
    pub mapping: IccColorSpaceMapping,
}

/// Side data that was understood.
#[derive(Debug, Clone, PartialEq, Eq)]
pub enum VideoHdrMetadataPayload {
    MasteringDisplay(VideoMasteringDisplayMetadata),
    ContentLightLevel(VideoContentLightMetadata),
    IccProfile(VideoIccProfileMetadata),
}

/// One record of side data.
#[derive(Debug, Clone, PartialEq, Eq)]
pub struct VideoHdrMetadataSummary {
    pub kind: VideoHdrSideDataKind,
    pub payload_size: usize,
    pub payload: Option<VideoHdrMetadataPayload>,
}

/// Bytes of a mastering display record: ten rationals and two flags.
pub const MASTERING_DISPLAY_BYTES: usize = 88;

/// Bytes of a content light record: two numbers.
pub const CONTENT_LIGHT_BYTES: usize = 8;

/// The rational in the eight bytes from `at` on.
pub open spec fn rational_in(data: Seq<u8>, order: Endian, at: int) -> VideoHdrRational {
    VideoHdrRational {
        num: i32_of(order, data.subrange(at, at + 4)) as i32,
        den: i32_of(order, data.subrange(at + 4, at + 8)) as i32,
    }
}

/// The chromaticity in the sixteen bytes from `at` on.
pub open spec fn chromaticity_in(data: Seq<u8>, order: Endian, at: int) -> VideoHdrChromaticity {
    VideoHdrChromaticity { x: rational_in(data, order, at), y: rational_in(data, order, at + 8) }
}

/// What a mastering display record says: three primaries, white point, smallest
/// and largest luminance, and two flags that tell which of them count.
pub open spec fn mastering_display(data: Seq<u8>, order: Endian) -> Option<
    VideoMasteringDisplayMetadata,
> {
    if data.len() < MASTERING_DISPLAY_BYTES {
        None
    } else {
        Some(
            VideoMasteringDisplayMetadata {
                primaries: if i32_of(order, data.subrange(80, 84)) != 0 {
                    Some(
                        VideoMasteringDisplayPrimaries {
                            red: chromaticity_in(data, order, 0),
                            green: chromaticity_in(data, order, 16),
                            blue: chromaticity_in(data, order, 32),
                            white_point: chromaticity_in(data, order, 48),
                        },
                    )
                } else {
                    None
                },
                luminance: if i32_of(order, data.subrange(84, 88)) != 0 {
                    Some(
                        VideoMasteringDisplayLuminance {
                            min: rational_in(data, order, 64),
                            max: rational_in(data, order, 72),
                        },
                    )
                } else {
                    None
                },
            },
        )
    }
}

fn read_i32(data: &[u8], order: Endian, at: usize) -> (r: i32)
    requires
        at + 4 <= data@.len(),
    ensures
        r == i32_of(order, data@.subrange(at as int, at + 4)),
{
    let len: usize = data.len();
    assert(at + 4 <= len);
    let quad = [data[at], data[at + 1], data[at + 2], data[at + 3]];
    assert(quad@ =~= data@.subrange(at as int, at + 4));
    order.i32(quad)
}

fn read_rational(data: &[u8], order: Endian, at: usize) -> (r: VideoHdrRational)
    requires
        at + 8 <= data@.len(),
    ensures
        r == rational_in(data@, order, at as int),
{
    let len: usize = data.len();
    assert(at + 8 <= len);
    VideoHdrRational { num: read_i32(data, order, at), den: read_i32(data, order, at + 4) }
}

fn read_chromaticity(data: &[u8], order: Endian, at: usize) -> (r: VideoHdrChromaticity)
    requires
        at + 16 <= data@.len(),
    ensures
        r == chromaticity_in(data@, order, at as int),
{
    let len: usize = data.len();
    assert(at + 16 <= len);
    VideoHdrChromaticity {
        x: read_rational(data, order, at),
        y: read_rational(data, order, at + 8),
    }
}

/// Reads a mastering display record in the byte order of the machine.
pub fn parse_mastering_display_payload(data: &[u8], order: Endian) -> (r: Option<
    VideoMasteringDisplayMetadata,
>)
    ensures
        r == mastering_display(data@, order),
{
    if data.len() < MASTERING_DISPLAY_BYTES {
        return None;
    }
    let primaries = if read_i32(data, order, 80) != 0 {
        Some(
            VideoMasteringDisplayPrimaries {
                red: read_chromaticity(data, order, 0),
                green: read_chromaticity(data, order, 16),
                blue: read_chromaticity(data, order, 32),
                white_point: read_chromaticity(data, order, 48),
            },
        )
    } else {
        None
    };
    let luminance = if read_i32(data, order, 84) != 0 {
        Some(
            VideoMasteringDisplayLuminance {
                min: read_rational(data, order, 64),
                max: read_rational(data, order, 72),
            },
        )
    } else {
        None
    };
    Some(VideoMasteringDisplayMetadata { primaries, luminance })
}

/// What a content light record says.
pub open spec fn content_light(data: Seq<u8>, order: Endian) -> Option<VideoContentLightMetadata> {
    if data.len() < CONTENT_LIGHT_BYTES {
        None
    } else {
        Some(
            VideoContentLightMetadata {
                max_content_light_level: u32_of(order, data.subrange(0, 4)) as u32,
                max_frame_average_light_level: u32_of(order, data.subrange(4, 8)) as u32,
            },
        )
    }
}

/// Reads a content light record in the byte order of the machine.
pub fn parse_content_light_payload(data: &[u8], order: Endian) -> (r: Option<
    VideoContentLightMetadata,
>)
    ensures
        r == content_light(data@, order),
{
    if data.len() < CONTENT_LIGHT_BYTES {
        return None;
    }
    let level = [data[0], data[1], data[2], data[3]];
    let average = [data[4], data[5], data[6], data[7]];
    assert(level@ =~= data@.subrange(0, 4));
    assert(average@ =~= data@.subrange(4, 8));
    Some(
        VideoContentLightMetadata {
            max_content_light_level: order.u32(level),
            max_frame_average_light_level: order.u32(average),
        },
    )
}

/// What side data of a kind says, apart from ICC profiles.
pub open spec fn payload_for_kind(kind: VideoHdrSideDataKind, data: Seq<u8>, order: Endian) ->
    Option<VideoHdrMetadataPayload> {
    match kind {
        VideoHdrSideDataKind::MasteringDisplayMetadata => match mastering_display(data, order) {
            Some(metadata) => Some(VideoHdrMetadataPayload::MasteringDisplay(metadata)),
            None => None,
        },
        VideoHdrSideDataKind::ContentLightLevel => match content_light(data, order) {
            Some(metadata) => Some(VideoHdrMetadataPayload::ContentLightLevel(metadata)),
            None => None,
        },
        _ => None,
    }
}

/// Reads side data of a kind, apart from ICC profiles.
pub fn parse_hdr_metadata_payload_for_kind(
    kind: VideoHdrSideDataKind,
    data: &[u8],
    order: Endian,
) -> (r: Option<VideoHdrMetadataPayload>)
    ensures
        r == payload_for_kind(kind, data@, order),
{
    match kind {
        VideoHdrSideDataKind::MasteringDisplayMetadata => match parse_mastering_display_payload(
            data,
            order,
        ) {
            Some(metadata) => Some(VideoHdrMetadataPayload::MasteringDisplay(metadata)),
            None => None,
        },
        VideoHdrSideDataKind::ContentLightLevel => match parse_content_light_payload(data, order) {
            Some(metadata) => Some(VideoHdrMetadataPayload::ContentLightLevel(metadata)),
            None => None,
        },
        VideoHdrSideDataKind::DynamicHdr10Plus
        | VideoHdrSideDataKind::DolbyVisionConfig
        | VideoHdrSideDataKind::IccProfile => None,
    }
}

/// The kind that the name of packet side data stands for, where it bears on HDR.
pub open spec fn named_hdr_kind(name: Seq<char>) -> Option<VideoHdrSideDataKind> {
    if name == "MasteringDisplayMetadata"@ {
        Some(VideoHdrSideDataKind::MasteringDisplayMetadata)
    } else if name == "ContentLightLevel"@ {
        Some(VideoHdrSideDataKind::ContentLightLevel)
    } else if name == "DYNAMIC_HDR10_PLUS"@ {
        Some(VideoHdrSideDataKind::DynamicHdr10Plus)
    } else if name == "DOVI_CONF"@ {
        Some(VideoHdrSideDataKind::DolbyVisionConfig)
    } else if name == "ICC_PROFILE"@ {
        Some(VideoHdrSideDataKind::IccProfile)
    } else {
        None
    }
}

/// The kind that the name of packet side data stands for, where it bears on HDR.
pub fn map_hdr_side_data_kind(name: &str) -> (r: Option<VideoHdrSideDataKind>)
    ensures
        r == named_hdr_kind(name@),
{
    if same_text(name, "MasteringDisplayMetadata") {
        Some(VideoHdrSideDataKind::MasteringDisplayMetadata)
    } else if same_text(name, "ContentLightLevel") {
        Some(VideoHdrSideDataKind::ContentLightLevel)
    } else if same_text(name, "DYNAMIC_HDR10_PLUS") {
        Some(VideoHdrSideDataKind::DynamicHdr10Plus)
    } else if same_text(name, "DOVI_CONF") {
        Some(VideoHdrSideDataKind::DolbyVisionConfig)
    } else if same_text(name, "ICC_PROFILE") {
        Some(VideoHdrSideDataKind::IccProfile)
    } else {
        None
    }
}

/// Reads one record of stream side data; an ICC profile comes parsed.
pub fn summarize_hdr_side_data(
    kind: VideoHdrSideDataKind,
    data: &[u8],
    order: Endian,
    icc: Option<VideoIccProfileMetadata>,
) -> (r: VideoHdrMetadataSummary)
    ensures
        r.kind == kind,
        r.payload_size == data@.len(),
        r.payload == (if kind == VideoHdrSideDataKind::IccProfile {
            match icc {
                Some(profile) => Some(VideoHdrMetadataPayload::IccProfile(profile)),
                None => None,
            }
        } else {
            payload_for_kind(kind, data@, order)
        }),
        kind is IccProfile && icc is Some ==> (r.payload matches Some(
            VideoHdrMetadataPayload::IccProfile(profile),
        ) && icc == Some(profile)),
        !(kind is IccProfile) ==> !(r.payload matches Some(VideoHdrMetadataPayload::IccProfile(_))),
{
    let payload = if kind == VideoHdrSideDataKind::IccProfile {
        match icc {
            Some(profile) => Some(VideoHdrMetadataPayload::IccProfile(profile)),
            None => None,
        }
    } else {
        parse_hdr_metadata_payload_for_kind(kind, data, order)
    };
    VideoHdrMetadataSummary { kind, payload_size: data.len(), payload }
}

/// A record of frame side data, where the frame has it.
pub open spec fn frame_record(
    kind: VideoHdrSideDataKind,
    data: Option<Seq<u8>>,
    order: Endian,
) -> Seq<VideoHdrMetadataSummary> {
    match data {
        Some(bytes) => seq![
            VideoHdrMetadataSummary {
                kind,
                payload_size: bytes.len() as usize,
                payload: payload_for_kind(kind, bytes, order),
            },
        ],
        None => seq![],
    }
}

/// The bytes of side data, where there is any.
pub open spec fn side_data_view(data: Option<&[u8]>) -> Option<Seq<u8>> {
    match data {
        Some(bytes) => Some(bytes@),
        None => None,
    }
}

fn push_frame_record(
    records: &mut Vec<VideoHdrMetadataSummary>,
    kind: VideoHdrSideDataKind,
    data: Option<&[u8]>,
    order: Endian,
)
    ensures
        final(records)@ == old(records)@ + frame_record(kind, side_data_view(data), order),
{
    match data {
        Some(bytes) => {
            let payload = parse_hdr_metadata_payload_for_kind(kind, bytes, order);
            let record = VideoHdrMetadataSummary { kind, payload_size: bytes.len(), payload };
            records.push(record);
            assert(records@ =~= old(records)@ + frame_record(kind, side_data_view(data), order));
        },
        None => {
            assert(records@ =~= old(records)@ + frame_record(kind, side_data_view(data), order));
        },
    }
}

/// Reads the side data of a decoded frame. Frames have three kinds of it that bear on
/// HDR.
pub fn collect_frame_hdr_metadata_summaries(
    mastering_display: Option<&[u8]>,
    content_light: Option<&[u8]>,
    dynamic_hdr_plus: Option<&[u8]>,
    order: Endian,
) -> (records: Vec<VideoHdrMetadataSummary>)
    ensures
        records@ == frame_record(
            VideoHdrSideDataKind::MasteringDisplayMetadata,
            side_data_view(mastering_display),
            order,
        ) + frame_record(
            VideoHdrSideDataKind::ContentLightLevel,
            side_data_view(content_light),
            order,
        ) + frame_record(
            VideoHdrSideDataKind::DynamicHdr10Plus,
            side_data_view(dynamic_hdr_plus),
            order,
        ),
        has_kind(records@, VideoHdrSideDataKind::MasteringDisplayMetadata)
            <==> mastering_display is Some,
        has_kind(records@, VideoHdrSideDataKind::ContentLightLevel) <==> content_light is Some,
        has_kind(records@, VideoHdrSideDataKind::DynamicHdr10Plus) <==> dynamic_hdr_plus is Some,
{
    let mut records: Vec<VideoHdrMetadataSummary> = Vec::new();
    push_frame_record(
        &mut records,
        VideoHdrSideDataKind::MasteringDisplayMetadata,
        mastering_display,
        order,
    );
    push_frame_record(
        &mut records,
        VideoHdrSideDataKind::ContentLightLevel,
        content_light,
        order,
    );
    push_frame_record(
        &mut records,
        VideoHdrSideDataKind::DynamicHdr10Plus,
        dynamic_hdr_plus,
        order,
    );
    proof {
        let n: int = if mastering_display is Some {
            1
        } else {
            0
        };
        let m: int = if content_light is Some {
            n + 1
        } else {
            n
        };
        if mastering_display is Some {
            assert(records@[0].kind is MasteringDisplayMetadata);
        }
        if content_light is Some {
            assert(records@[n].kind is ContentLightLevel);
        }
        if dynamic_hdr_plus is Some {
            assert(records@[m].kind is DynamicHdr10Plus);
        }
    }
    records
}

/// Index of the first record of a kind from `from` on.
pub open spec fn first_of_kind(
    records: Seq<VideoHdrMetadataSummary>,
    kind: VideoHdrSideDataKind,
    from: nat,
) -> Option<nat>
    decreases records.len() - from,
{
    if from >= records.len() {
        None
    } else if records[from as int].kind == kind {
        Some(from)
    } else {
        first_of_kind(records, kind, from + 1)
    }
}

/// Records with one more: it joins them where its kind is new, and takes the
/// place of the one of its kind where only it was understood.
pub open spec fn with_record(
    records: Seq<VideoHdrMetadataSummary>,
    candidate: VideoHdrMetadataSummary,
) -> Seq<VideoHdrMetadataSummary> {
    match first_of_kind(records, candidate.kind, 0) {
        None => records.push(candidate),
        Some(at) => if records[at as int].payload is None && candidate.payload is Some {
            records.update(at as int, candidate)
        } else {
            records
        },
    }
}

/// Stream records with the first `n` frame records merged in.
pub open spec fn merged(
    stream: Seq<VideoHdrMetadataSummary>,
    frame: Seq<VideoHdrMetadataSummary>,
    n: nat,
) -> Seq<VideoHdrMetadataSummary>
    decreases n,
{
    if n == 0 {
        stream
    } else {
        with_record(merged(stream, frame, (n - 1) as nat), frame[n - 1])
    }
}

proof fn lemma_first_of_kind(
    records: Seq<VideoHdrMetadataSummary>,
    kind: VideoHdrSideDataKind,
    from: nat,
)
    ensures
        match first_of_kind(records, kind, from) {
            Some(at) => from <= at < records.len() && records[at as int].kind == kind,
            None => forall|i: int| from <= i < records.len() ==> (#[trigger] records[i]).kind
                != kind,
        },
    decreases records.len() - from,
{
    if from < records.len() && records[from as int].kind != kind {
        lemma_first_of_kind(records, kind, from + 1);
    }
}

/// Merging adds to what the stream said and contradicts none of it: records keep
/// their places and kinds, and those that were understood stay as they are.
pub proof fn merging_keeps_stream_records(
    stream: Seq<VideoHdrMetadataSummary>,
    frame: Seq<VideoHdrMetadataSummary>,
    n: nat,
)
    requires
        n <= frame.len(),
    ensures
        merged(stream, frame, n).len() >= stream.len(),
        forall|i: int|
            0 <= i < stream.len() ==> (#[trigger] merged(stream, frame, n)[i]).kind
                == stream[i].kind,
        forall|i: int|
            0 <= i < stream.len() && stream[i].payload is Some ==> #[trigger] merged(
                stream,
                frame,
                n,
            )[i] == stream[i],
    decreases n,
{
    if n > 0 {
        merging_keeps_stream_records(stream, frame, (n - 1) as nat);
        let before = merged(stream, frame, (n - 1) as nat);
        lemma_first_of_kind(before, frame[n - 1].kind, 0);
    }
}

/// Merges what a decoded frame says into what the stream said.
pub fn merge_hdr_metadata(
    stream_metadata: &mut Vec<VideoHdrMetadataSummary>,
    frame_metadata: Vec<VideoHdrMetadataSummary>,
)
    ensures
        final(stream_metadata)@ == merged(
            old(stream_metadata)@,
            frame_metadata@,
            frame_metadata@.len(),
        ),
{
    let ghost start = stream_metadata@;
    let ghost all = frame_metadata@;
    let mut rest = frame_metadata;
    let ghost mut n: nat = 0;
    assert(all.skip(0) =~= all);
    while rest.len() > 0
        invariant
            n <= all.len(),
            rest@ == all.skip(n as int),
            stream_metadata@ == merged(start, all, n),
        decreases rest.len(),
    {
        let candidate = rest.remove(0);
        assert(candidate == all[n as int]);
        assert(rest@ =~= all.skip((n + 1) as int));
        let ghost records = stream_metadata@;
        let mut at: usize = 0;
        while at < stream_metadata.len() && stream_metadata[at].kind != candidate.kind
            invariant
                stream_metadata@ == records,
                at <= stream_metadata.len(),
                first_of_kind(records, candidate.kind, 0) == first_of_kind(
                    records,
                    candidate.kind,
                    at as nat,
                ),
            decreases stream_metadata.len() - at,
        {
            at = at + 1;
        }
        if at < stream_metadata.len() {
            if stream_metadata[at].payload.is_none() && candidate.payload.is_some() {
                stream_metadata[at] = candidate;
            }
        } else {
            stream_metadata.push(candidate);
        }
        proof {
            n = n + 1;
        }
    }
    assert(n == all.len());
}

/// The first embedded profile among the records from `from` on.
pub open spec fn embedded_profile(records: Seq<VideoHdrMetadataSummary>, from: nat) -> Option<
    IccColorProfileHint,
>
    decreases records.len() - from,
{
    if from >= records.len() {
        None
    } else {
        match records[from as int].payload {
            Some(VideoHdrMetadataPayload::IccProfile(profile)) => Some(
                IccColorProfileHint {
                    mapping: profile.mapping,
                    profile_name: Some(profile.name),
                },
            ),
            _ => embedded_profile(records, from + 1),
        }
    }
}

fn duplicate_mapping(mapping: &IccColorSpaceMapping) -> (r: IccColorSpaceMapping)
    ensures
        r == *mapping,
{
    match mapping {
        IccColorSpaceMapping::Mapped { color_space } => IccColorSpaceMapping::Mapped {
            color_space: *color_space,
        },
        IccColorSpaceMapping::Unmapped { profile_color_space, reason } =>
            IccColorSpaceMapping::Unmapped {
                profile_color_space: profile_color_space.clone(),
                reason: reason.clone(),
            },
    }
}

/// The first embedded ICC profile of a stream.
pub fn icc_color_profile_hint(hdr_metadata: &[VideoHdrMetadataSummary]) -> (r: Option<
    IccColorProfileHint,
>)
    ensures
        r == embedded_profile(hdr_metadata@, 0),
{
    let mut i: usize = 0;
    while i < hdr_metadata.len()
        invariant
            i <= hdr_metadata.len(),
            embedded_profile(hdr_metadata@, 0) == embedded_profile(hdr_metadata@, i as nat),
        decreases hdr_metadata.len() - i,
    {
        match &hdr_metadata[i].payload {
            Some(VideoHdrMetadataPayload::IccProfile(profile)) => {
                return Some(
                    IccColorProfileHint {
                        mapping: duplicate_mapping(&profile.mapping),
                        profile_name: Some(profile.name.clone()),
                    },
                );
            },
            _ => {},
        }
        i = i + 1;
    }
    None
}

/// Whether any record has a kind.
pub open spec fn has_kind(
    records: Seq<VideoHdrMetadataSummary>,
    kind: VideoHdrSideDataKind,
) -> bool {
    exists|i: int| 0 <= i < records.len() && (#[trigger] records[i]).kind == kind
}

/// Tests whether any record has a kind.
pub fn any_of_kind(records: &[VideoHdrMetadataSummary], kind: VideoHdrSideDataKind) -> (r: bool)
    ensures
        r == has_kind(records@, kind),
{
    let mut i: usize = 0;
    while i < records.len()
        invariant
            i <= records.len(),
            forall|j: int| 0 <= j < i ==> (#[trigger] records@[j]).kind != kind,
        decreases records.len() - i,
    {
        if records[i].kind == kind {
            return true;
        }
        i = i + 1;
    }
    false
}

/// Whether the first frame of a stream is decoded for its HDR side data: streams
/// with an HDR identity or with dynamic metadata.
pub fn video_stream_needs_frame_hdr_probe(
    hdr_identity: bool,
    hdr_metadata: &[VideoHdrMetadataSummary],
) -> (r: bool)
    ensures
        r == (hdr_identity || has_kind(hdr_metadata@, VideoHdrSideDataKind::DynamicHdr10Plus)
            || has_kind(hdr_metadata@, VideoHdrSideDataKind::DolbyVisionConfig)),
{
    hdr_identity || any_of_kind(hdr_metadata, VideoHdrSideDataKind::DynamicHdr10Plus)
        || any_of_kind(hdr_metadata, VideoHdrSideDataKind::DolbyVisionConfig)
}

/// The `i`-th group of four bytes of a record, as a signed number.
pub open spec fn word(data: Seq<u8>, order: Endian, i: int) -> int {
    i32_of(order, data.subrange(4 * i, 4 * i + 4))
}

/// A mastering display record is a row of numbers in fixed places: numerators before
/// denominators, x before y, red, green, blue and white, then the smallest and the largest
/// luminance, and at last two flags. A flag that is zero takes away what it speaks of, and
/// nothing else; only a record that is too short says nothing at all.
pub proof fn mastering_records_are_read_in_place(data: Seq<u8>, order: Endian)
    ensures
        mastering_display(data, order) is Some <==> data.len() >= 88,
        mastering_display(data, order) matches Some(display) ==> {
            &&& display.primaries is Some <==> word(data, order, 20) != 0
            &&& display.luminance is Some <==> word(data, order, 21) != 0
            &&& display.primaries matches Some(p) ==> {
                &&& p.red.x.num == word(data, order, 0) && p.red.x.den == word(data, order, 1)
                &&& p.red.y.num == word(data, order, 2) && p.red.y.den == word(data, order, 3)
                &&& p.green.x.num == word(data, order, 4) && p.green.x.den == word(data, order, 5)
                &&& p.green.y.num == word(data, order, 6) && p.green.y.den == word(data, order, 7)
                &&& p.blue.x.num == word(data, order, 8) && p.blue.x.den == word(data, order, 9)
                &&& p.blue.y.num == word(data, order, 10) && p.blue.y.den == word(data, order, 11)
                &&& p.white_point.x.num == word(data, order, 12) && p.white_point.x.den == word(
                    data,
                    order,
                    13,
                )
                &&& p.white_point.y.num == word(data, order, 14) && p.white_point.y.den == word(
                    data,
                    order,
                    15,
                )
            }
            &&& display.luminance matches Some(l) ==> {
                &&& l.min.num == word(data, order, 16) && l.min.den == word(data, order, 17)
                &&& l.max.num == word(data, order, 18) && l.max.den == word(data, order, 19)
            }
        },
{
}

/// A content light record holds the largest light level of a pixel, and then that of a
/// frame on the average, both unsigned.
pub proof fn light_records_are_read_in_place(data: Seq<u8>, order: Endian)
    ensures
        content_light(data, order) is Some <==> data.len() >= 8,
        content_light(data, order) matches Some(light) ==> {
            &&& light.max_content_light_level == u32_of(order, data.subrange(0, 4))
            &&& light.max_frame_average_light_level == u32_of(order, data.subrange(4, 8))
        },
{
}

/// A record is only read as what its kind says it is.
pub proof fn payloads_fit_their_kinds(kind: VideoHdrSideDataKind, data: Seq<u8>, order: Endian)
    ensures
        payload_for_kind(kind, data, order) matches Some(payload) ==> {
            &&& payload is MasteringDisplay <==> kind is MasteringDisplayMetadata
            &&& payload is ContentLightLevel <==> kind is ContentLightLevel
            &&& !(payload is IccProfile)
        },
        kind is MasteringDisplayMetadata && data.len() >= 88 ==> payload_for_kind(
            kind,
            data,
            order,
        ) is Some,
        kind is ContentLightLevel && data.len() >= 8 ==> payload_for_kind(kind, data, order)
            is Some,
        kind is DynamicHdr10Plus || kind is DolbyVisionConfig ==> payload_for_kind(
            kind,
            data,
            order,
        ) is None,
{
}

/// The name of packet side data of a kind.
pub open spec fn kind_name(kind: VideoHdrSideDataKind) -> Seq<char> {
    match kind {
        VideoHdrSideDataKind::MasteringDisplayMetadata => "MasteringDisplayMetadata"@,
        VideoHdrSideDataKind::ContentLightLevel => "ContentLightLevel"@,
        VideoHdrSideDataKind::DynamicHdr10Plus => "DYNAMIC_HDR10_PLUS"@,
        VideoHdrSideDataKind::DolbyVisionConfig => "DOVI_CONF"@,
        VideoHdrSideDataKind::IccProfile => "ICC_PROFILE"@,
    }
}

/// A kind is found by its name and by no other text.
pub proof fn kinds_have_one_name(name: Seq<char>, kind: VideoHdrSideDataKind)
    ensures
        named_hdr_kind(name) == Some(kind) <==> name == kind_name(kind),
{
    reveal_strlit("MasteringDisplayMetadata");
    reveal_strlit("ContentLightLevel");
    reveal_strlit("DYNAMIC_HDR10_PLUS");
    reveal_strlit("DOVI_CONF");
    reveal_strlit("ICC_PROFILE");
    assert("MasteringDisplayMetadata"@.len() == 24);
    assert("ContentLightLevel"@.len() == 17);
    assert("DYNAMIC_HDR10_PLUS"@.len() == 18);
    assert("DOVI_CONF"@.len() == 9);
    assert("ICC_PROFILE"@.len() == 11);
}

/// Whether the first record of a kind was understood.
pub open spec fn understood(records: Seq<VideoHdrMetadataSummary>, kind: VideoHdrSideDataKind) -> bool {
    first_of_kind(records, kind, 0) matches Some(at) && records[at as int].payload is Some
}

proof fn lemma_first_kept(
    before: Seq<VideoHdrMetadataSummary>,
    out: Seq<VideoHdrMetadataSummary>,
    kind: VideoHdrSideDataKind,
    from: nat,
)
    requires
        before.len() <= out.len(),
        forall|i: int| 0 <= i < before.len() ==> (#[trigger] out[i]).kind == before[i].kind,
    ensures
        first_of_kind(before, kind, from) is Some ==> first_of_kind(out, kind, from)
            == first_of_kind(before, kind, from),
        first_of_kind(before, kind, from) is None && from <= before.len() < out.len()
            && out[before.len() as int].kind == kind ==> first_of_kind(out, kind, from) == Some(
            before.len(),
        ),
    decreases before.len() - from,
{
    if from < before.len() {
        assert(out[from as int].kind == before[from as int].kind);
        lemma_first_kept(before, out, kind, from + 1);
    }
}

proof fn lemma_with_record(
    records: Seq<VideoHdrMetadataSummary>,
    candidate: VideoHdrMetadataSummary,
    kind: VideoHdrSideDataKind,
)
    ensures
        first_of_kind(records, kind, 0) is Some ==> first_of_kind(
            with_record(records, candidate),
            kind,
            0,
        ) is Some,
        first_of_kind(with_record(records, candidate), candidate.kind, 0) is Some,
        understood(records, kind) ==> understood(with_record(records, candidate), kind),
        candidate.payload is Some ==> understood(with_record(records, candidate), candidate.kind),
        with_record(records, candidate).len() == records.len() + (if first_of_kind(
            records,
            candidate.kind,
            0,
        ) is None {
            1int
        } else {
            0
        }),
{
    lemma_first_of_kind(records, candidate.kind, 0);
    lemma_first_of_kind(records, kind, 0);
    let out = with_record(records, candidate);
    assert(forall|i: int|
        0 <= i < records.len() ==> (#[trigger] out[i]).kind == records[i].kind);
    lemma_first_kept(records, out, kind, 0);
    lemma_first_kept(records, out, candidate.kind, 0);
}

/// Nothing that a frame says is lost: every kind that it has is among the merged records,
/// and understood wherever the frame or the stream understood it. No kind comes in twice:
/// there are as many new records as kinds that the stream did not have.
pub proof fn merging_loses_no_frame_record(
    stream: Seq<VideoHdrMetadataSummary>,
    frame: Seq<VideoHdrMetadataSummary>,
    n: nat,
    k: int,
)
    requires
        0 <= k < n <= frame.len(),
    ensures
        first_of_kind(merged(stream, frame, n), frame[k].kind, 0) is Some,
        frame[k].payload is Some ==> understood(merged(stream, frame, n), frame[k].kind),
        merged(stream, frame, n).len() == merged(stream, frame, (n - 1) as nat).len() + (
        if first_of_kind(merged(stream, frame, (n - 1) as nat), frame[n - 1].kind, 0) is None {
            1int
        } else {
            0
        }),
    decreases n,
{
    let before = merged(stream, frame, (n - 1) as nat);
    lemma_with_record(before, frame[n - 1], frame[k].kind);
    if k < n - 1 {
        merging_loses_no_frame_record(stream, frame, (n - 1) as nat, k);
    }
}

/// What the stream understood stays understood.
pub proof fn merging_keeps_what_was_understood(
    stream: Seq<VideoHdrMetadataSummary>,
    frame: Seq<VideoHdrMetadataSummary>,
    n: nat,
    kind: VideoHdrSideDataKind,
)
    requires
        n <= frame.len(),
        understood(stream, kind),
    ensures
        understood(merged(stream, frame, n), kind),
    decreases n,
{
    if n > 0 {
        merging_keeps_what_was_understood(stream, frame, (n - 1) as nat, kind);
        lemma_with_record(merged(stream, frame, (n - 1) as nat), frame[n - 1], kind);
    }
}

/// The profile of a stream is the first one that its records hold, with its mapping and its
/// name as they are; there is none exactly where no record holds one.
pub proof fn the_first_profile_counts(records: Seq<VideoHdrMetadataSummary>, from: nat)
    ensures
        match embedded_profile(records, from) {
            Some(hint) => exists|i: int|
                from <= i < records.len() && holds_profile(#[trigger] records[i], hint) && forall|
                    j: int,
                |
                    from <= j < i ==> !holds_any_profile(#[trigger] records[j]),
            None => forall|j: int|
                from <= j < records.len() ==> !holds_any_profile(#[trigger] records[j]),
        },
    decreases records.len() - from,
{
    if from < records.len() {
        if holds_any_profile(records[from as int]) {
            assert(holds_profile(
                records[from as int],
                embedded_profile(records, from).unwrap(),
            ));
        } else {
            the_first_profile_counts(records, from + 1);
        }
    }
}

/// Whether a record holds a profile.
pub open spec fn holds_any_profile(record: VideoHdrMetadataSummary) -> bool {
    record.payload matches Some(VideoHdrMetadataPayload::IccProfile(_))
}

/// Whether a record holds the profile that a hint speaks of.
pub open spec fn holds_profile(record: VideoHdrMetadataSummary, hint: IccColorProfileHint) -> bool {
    record.payload matches Some(VideoHdrMetadataPayload::IccProfile(profile)) && hint.mapping
        == profile.mapping && hint.profile_name == Some(profile.name)
}

/// One more record changes nothing where its kind was understood before. Where it was not,
/// the record is taken if it is understood, or if nothing of its kind is there.
pub proof fn understood_records_are_preferred(
    records: Seq<VideoHdrMetadataSummary>,
    candidate: VideoHdrMetadataSummary,
)
    ensures
        understood(records, candidate.kind) ==> with_record(records, candidate) == records,
        candidate.payload is Some ==> understood(with_record(records, candidate), candidate.kind),
        first_of_kind(records, candidate.kind, 0) is None ==> with_record(records, candidate)
            == records.push(candidate),
        with_record(records, candidate).len() <= records.len() + 1,
{
    lemma_with_record(records, candidate, candidate.kind);
}

} // verus!
