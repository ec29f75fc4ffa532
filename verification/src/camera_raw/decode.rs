//! Decisions around the decoding of one camera RAW picture.

use super::bayer::ShortBayerRow;
use super::dng::{CameraRawAdapter, CameraRawCfaPattern, ParsedDng};
use crate::decoder::range::{DecodedVideoRange, DecodedVideoRangeContract};
use crate::info::color::ColorSpace;
use crate::preview::diagnostics::{counted_us, fresh_diagnostics, PreviewDecodeDiagnostics};
use crate::preview::request::{PreviewSourceColorContract, PreviewSourceSampleIdentity};
use crate::preview::vocabulary::PreviewDecodePath;
use crate::text::{decimal, push_decimal};
use vstd::prelude::*;
use vstd::string::*;

verus! {

/// Why a camera RAW picture is not decoded.
#[derive(Debug)]
pub enum RawDecodeError {
    /// The development algorithm has another version.
    UnsupportedAlgorithm(u32),
    /// The development settings are out of range.
    InvalidInterpretation(String),
    /// The source is no DNG.
    NotDng,
    /// The source meets another contract than the one asked for.
    AdapterMismatch { probe: CameraRawAdapter, execution: CameraRawAdapter },
    /// Colour matrix or neutral colour is missing.
    MissingColorMetadata,
    /// The caller gave up.
    Cancelled,
    /// There is no stream with a picture.
    NoPictureStream,
    /// A library refused the source or a packet, in its own words.
    Refused(String),
    /// The decoder has no picture at the end, for the reason it gives.
    NoFrame(String),
    /// The decoder returned a plane of the named format, which is no Bayer plane.
    NotBayer(String),
    /// The decoder returned a plane that does not hold all of its rows.
    ShortRow(ShortBayerRow),
    /// The decoder found another colour filter than the probe.
    CfaMismatch { probe: CameraRawCfaPattern, decoder: CameraRawCfaPattern },
}

/// The name of an adapter.
pub open spec fn adapter_name(adapter: CameraRawAdapter) -> Seq<char> {
    match adapter {
        CameraRawAdapter::Dng => "Dng"@,
        CameraRawAdapter::CinemaDng => "CinemaDng"@,
    }
}

/// The name of a colour filter.
pub open spec fn pattern_name(pattern: CameraRawCfaPattern) -> Seq<char> {
    match pattern {
        CameraRawCfaPattern::Rggb => "Rggb"@,
        CameraRawCfaPattern::Bggr => "Bggr"@,
        CameraRawCfaPattern::Gbrg => "Gbrg"@,
        CameraRawCfaPattern::Grbg => "Grbg"@,
    }
}

fn adapter_str(adapter: CameraRawAdapter) -> (name: &'static str)
    ensures
        name@ == adapter_name(adapter),
{
    match adapter {
        CameraRawAdapter::Dng => "Dng",
        CameraRawAdapter::CinemaDng => "CinemaDng",
    }
}

fn pattern_str(pattern: CameraRawCfaPattern) -> (name: &'static str)
    ensures
        name@ == pattern_name(pattern),
{
    match pattern {
        CameraRawCfaPattern::Rggb => "Rggb",
        CameraRawCfaPattern::Bggr => "Bggr",
        CameraRawCfaPattern::Gbrg => "Gbrg",
        CameraRawCfaPattern::Grbg => "Grbg",
    }
}

impl RawDecodeError {
    /// The reason of a failure. Where the caller gave up there is none.
    pub open spec fn spec_reason(&self) -> Option<Seq<char>> {
        match *self {
            RawDecodeError::UnsupportedAlgorithm(version) => Some(
                "unsupported camera RAW algorithm version "@ + decimal(version as nat),
            ),
            RawDecodeError::InvalidInterpretation(reason) => Some(reason@),
            RawDecodeError::NotDng => Some(
                "camera RAW execution intent selected a non-DNG source"@,
            ),
            RawDecodeError::AdapterMismatch { probe, execution } => Some(
                "camera RAW Adapter mismatch: probe="@ + adapter_name(probe) + " execution="@
                    + adapter_name(execution),
            ),
            RawDecodeError::MissingColorMetadata => Some(
                "DNG execution requires ColorMatrix and AsShotNeutral metadata"@,
            ),
            RawDecodeError::Cancelled => None,
            RawDecodeError::NoPictureStream => Some("DNG source has no decodable picture stream"@),
            RawDecodeError::Refused(reason) => Some(reason@),
            RawDecodeError::NoFrame(cause) => Some(
                "DNG decoder produced no Bayer frame: "@ + cause@,
            ),
            RawDecodeError::NotBayer(format) => Some(
                "DNG decoder returned non-Bayer pixel format "@ + format@,
            ),
            RawDecodeError::ShortRow(short) => Some(
                (if short.wide {
                    "DNG Bayer16 row "@
                } else {
                    "DNG Bayer row "@
                }) + decimal(short.row as nat) + " is shorter than declared"@,
            ),
            RawDecodeError::CfaMismatch { probe, decoder } => Some(
                "DNG CFA probe/decode mismatch: probe="@ + pattern_name(probe) + " decoder="@
                    + pattern_name(decoder),
            ),
        }
    }

    /// The reason of this failure. Where the caller gave up there is none.
    pub fn reason(&self) -> (r: Option<String>)
        ensures
            match r {
                Some(text) => self.spec_reason() == Some(text@),
                None => self.spec_reason() is None,
            },
    {
        match self {
            RawDecodeError::UnsupportedAlgorithm(version) => {
                let mut text = "unsupported camera RAW algorithm version ".to_owned();
                push_decimal(&mut text, *version as u64);
                Some(text)
            },
            RawDecodeError::InvalidInterpretation(reason) => Some(reason.as_str().to_owned()),
            RawDecodeError::NotDng => Some(
                "camera RAW execution intent selected a non-DNG source".to_owned(),
            ),
            RawDecodeError::AdapterMismatch { probe, execution } => {
                let mut text = "camera RAW Adapter mismatch: probe=".to_owned();
                text.append(adapter_str(*probe));
                text.append(" execution=");
                text.append(adapter_str(*execution));
                Some(text)
            },
            RawDecodeError::MissingColorMetadata => Some(
                "DNG execution requires ColorMatrix and AsShotNeutral metadata".to_owned(),
            ),
            RawDecodeError::Cancelled => None,
            RawDecodeError::NoPictureStream => Some(
                "DNG source has no decodable picture stream".to_owned(),
            ),
            RawDecodeError::Refused(reason) => Some(reason.as_str().to_owned()),
            RawDecodeError::NoFrame(cause) => {
                let mut text = "DNG decoder produced no Bayer frame: ".to_owned();
                text.append(cause.as_str());
                Some(text)
            },
            RawDecodeError::NotBayer(format) => {
                let mut text = "DNG decoder returned non-Bayer pixel format ".to_owned();
                text.append(format.as_str());
                Some(text)
            },
            RawDecodeError::ShortRow(short) => {
                let mut text = if short.wide {
                    "DNG Bayer16 row ".to_owned()
                } else {
                    "DNG Bayer row ".to_owned()
                };
                push_decimal(&mut text, short.row as u64);
                text.append(" is shorter than declared");
                Some(text)
            },
            RawDecodeError::CfaMismatch { probe, decoder } => {
                let mut text = "DNG CFA probe/decode mismatch: probe=".to_owned();
                text.append(pattern_str(*probe));
                text.append(" decoder=");
                text.append(pattern_str(*decoder));
                Some(text)
            },
        }
    }
}

/// Checks a request for development before its source is opened.
pub fn check_raw_intent(version: u32, supported: u32, validation: Result<(), String>) -> (r: Result<
    (),
    RawDecodeError,
>)
    ensures
        match r {
            Ok(_) => version == supported && validation is Ok,
            Err(RawDecodeError::UnsupportedAlgorithm(seen)) => version != supported && seen
                == version,
            Err(RawDecodeError::InvalidInterpretation(reason)) => version == supported
                && validation == Err::<(), String>(reason),
            Err(_) => false,
        },
        r is Ok <==> version == supported && validation is Ok,
{
    if version != supported {
        return Err(RawDecodeError::UnsupportedAlgorithm(version));
    }
    match validation {
        Ok(_) => Ok(()),
        Err(reason) => Err(RawDecodeError::InvalidInterpretation(reason)),
    }
}

/// Whether a DNG can be developed: it says how its colours are meant.
pub open spec fn developable(parsed: ParsedDng) -> bool {
    parsed.metadata.has_color_matrix && parsed.metadata.has_as_shot_neutral
}

/// Admits a probed source to development.
pub fn admit_raw_source(
    parsed: Option<ParsedDng>,
    adapter: CameraRawAdapter,
    canceled: bool,
) -> (r: Result<ParsedDng, RawDecodeError>)
    ensures
        match parsed {
            None => r matches Err(RawDecodeError::NotDng),
            Some(source) => if source.metadata.adapter != adapter {
                r matches Err(RawDecodeError::AdapterMismatch { probe, execution }) && probe
                    == source.metadata.adapter && execution == adapter
            } else if !developable(source) {
                r matches Err(RawDecodeError::MissingColorMetadata)
            } else if canceled {
                r matches Err(RawDecodeError::Cancelled)
            } else {
                r == Ok::<ParsedDng, RawDecodeError>(source)
            },
        },
        r matches Ok(source) ==> parsed == Some(source) && source.metadata.adapter == adapter
            && source.metadata.has_color_matrix && source.metadata.has_as_shot_neutral && !canceled,
{
    match parsed {
        None => Err(RawDecodeError::NotDng),
        Some(source) => {
            if source.metadata.adapter != adapter {
                return Err(
                    RawDecodeError::AdapterMismatch {
                        probe: source.metadata.adapter,
                        execution: adapter,
                    },
                );
            }
            if !source.metadata.has_color_matrix || !source.metadata.has_as_shot_neutral {
                return Err(RawDecodeError::MissingColorMetadata);
            }
            if canceled {
                return Err(RawDecodeError::Cancelled);
            }
            Ok(source)
        },
    }
}

/// The picture stream to decode: the requested one where it exists, else the best.
pub fn choose_picture_stream(
    requested: Option<u32>,
    stream_count: usize,
    best: Option<usize>,
) -> (r: Result<usize, RawDecodeError>)
    ensures
        match (requested, best) {
            (Some(index), _) if (index as int) < stream_count => r == Ok::<usize, RawDecodeError>(
                index as usize,
            ),
            (_, Some(index)) => r == Ok::<usize, RawDecodeError>(index),
            (_, None) => r matches Err(error) && error is NoPictureStream,
        },
        requested is Some && requested->0 < stream_count ==> r is Ok && r->Ok_0 == requested->0,
        r is Err <==> best is None && !(requested is Some && requested->0 < stream_count),
        requested is None && best is Some ==> r is Ok && Some(r->Ok_0) == best,
{
    match requested {
        Some(index) if (index as usize) < stream_count => Ok(index as usize),
        _ => match best {
            Some(index) => Ok(index),
            None => Err(RawDecodeError::NoPictureStream),
        },
    }
}

/// Where the search for the first decoded picture stands.
#[derive(Debug, Clone, Copy, PartialEq, Eq, Structural)]
pub enum RawFramePhase {
    /// Packets are read; the next one is wanted.
    Reading,
    /// A packet was sent; the decoder is asked for a picture.
    Receiving,
    /// The end was signalled; the decoder is asked for a last picture.
    Draining,
    /// A picture was received.
    Done,
    /// The caller gave up.
    Cancelled,
    /// The decoder refused its input or has no picture.
    Failed,
}

/// What happened during the search for the first decoded picture.
#[derive(Debug, Clone, Copy, PartialEq, Eq, Structural)]
pub enum RawFrameEvent {
    /// A packet of a stream was read.
    Packet { stream: usize, canceled: bool, sent: bool },
    /// There are no more packets.
    EndOfPackets { sent: bool },
    /// The decoder answered whether it has a picture.
    Received { picture: bool },
}

/// The search after an event.
pub open spec fn raw_frame_phase_after(
    phase: RawFramePhase,
    event: RawFrameEvent,
    wanted: usize,
) -> RawFramePhase {
    match (phase, event) {
        (RawFramePhase::Reading, RawFrameEvent::Packet { stream, canceled, sent }) => if canceled {
            RawFramePhase::Cancelled
        } else if stream != wanted {
            RawFramePhase::Reading
        } else if sent {
            RawFramePhase::Receiving
        } else {
            RawFramePhase::Failed
        },
        (RawFramePhase::Reading, RawFrameEvent::EndOfPackets { sent }) => if sent {
            RawFramePhase::Draining
        } else {
            RawFramePhase::Failed
        },
        (RawFramePhase::Receiving, RawFrameEvent::Received { picture }) => if picture {
            RawFramePhase::Done
        } else {
            RawFramePhase::Reading
        },
        (RawFramePhase::Draining, RawFrameEvent::Received { picture }) => if picture {
            RawFramePhase::Done
        } else {
            RawFramePhase::Failed
        },
        _ => phase,
    }
}

/// Moves the search for the first decoded picture on. Of packets of other streams
/// and of canceled reads only the cancellation counts; nothing is sent for them.
pub fn advance_raw_frame(phase: RawFramePhase, event: RawFrameEvent, wanted: usize) -> (r:
    RawFramePhase)
    ensures
        r == raw_frame_phase_after(phase, event, wanted),
{
    match (phase, event) {
        (RawFramePhase::Reading, RawFrameEvent::Packet { stream, canceled, sent }) => if canceled {
            RawFramePhase::Cancelled
        } else if stream != wanted {
            RawFramePhase::Reading
        } else if sent {
            RawFramePhase::Receiving
        } else {
            RawFramePhase::Failed
        },
        (RawFramePhase::Reading, RawFrameEvent::EndOfPackets { sent }) => if sent {
            RawFramePhase::Draining
        } else {
            RawFramePhase::Failed
        },
        (RawFramePhase::Receiving, RawFrameEvent::Received { picture }) => if picture {
            RawFramePhase::Done
        } else {
            RawFramePhase::Reading
        },
        (RawFramePhase::Draining, RawFrameEvent::Received { picture }) => if picture {
            RawFramePhase::Done
        } else {
            RawFramePhase::Failed
        },
        _ => phase,
    }
}

/// Holds the colour filter of the decoded plane, whose format has a name, against that of
/// the probe.
pub fn check_decoded_pattern(
    decoder: Option<CameraRawCfaPattern>,
    format: &str,
    probe: CameraRawCfaPattern,
) -> (r: Result<CameraRawCfaPattern, RawDecodeError>)
    ensures
        match decoder {
            None => r matches Err(RawDecodeError::NotBayer(name)) && name@ == format@,
            Some(pattern) => if pattern == probe {
                r == Ok::<CameraRawCfaPattern, RawDecodeError>(pattern)
            } else {
                r matches Err(RawDecodeError::CfaMismatch { probe: p, decoder: d }) && p == probe
                    && d == pattern
            },
        },
        r is Ok <==> decoder == Some(probe),
        r is Ok ==> r->Ok_0 == probe,
{
    match decoder {
        None => Err(RawDecodeError::NotBayer(format.to_owned())),
        Some(pattern) => if pattern == probe {
            Ok(pattern)
        } else {
            Err(RawDecodeError::CfaMismatch { probe, decoder: pattern })
        },
    }
}

/// What is known of a developed picture besides its samples.
#[derive(Debug, Clone, Copy, PartialEq, Eq, Structural)]
pub struct DevelopedContract {
    pub source: PreviewSourceColorContract,
    pub diagnostics: PreviewDecodeDiagnostics,
}

/// What is known of a picture that took so long to develop: it is linear Rec.709 in full
/// range, unless a frame says otherwise, and came by way of the camera RAW adapter.
pub fn developed_contract(elapsed_micros: u128) -> (r: DevelopedContract)
    ensures
        r.source == (PreviewSourceColorContract {
            identity: PreviewSourceSampleIdentity::ColorManaged(ColorSpace::LinearRec709),
            range: DecodedVideoRangeContract::Automatic { probed_range: DecodedVideoRange::Full },
            yuv_matrix_fallback: None,
        }),
        r.diagnostics == (PreviewDecodeDiagnostics {
            elapsed_us: counted_us(elapsed_micros),
            ..fresh_diagnostics(PreviewDecodePath::InProcessCameraRawDng)
        }),
{
    let range = DecodedVideoRangeContract::Automatic { probed_range: DecodedVideoRange::Full };
    DevelopedContract {
        source: PreviewSourceColorContract::new(ColorSpace::LinearRec709, range),
        diagnostics: PreviewDecodeDiagnostics::new(
            PreviewDecodePath::InProcessCameraRawDng,
        ).with_elapsed(elapsed_micros),
    }
}

/// The search for a picture ends only for a reason: with a picture when the decoder has
/// one, in failure when it refused its input or was drained without one, and canceled when
/// the caller gave up. Packets of other streams never count, and what has ended stays so.
pub proof fn searches_end_for_a_reason(phase: RawFramePhase, event: RawFrameEvent, wanted: usize)
    ensures
        ({
            let next = raw_frame_phase_after(phase, event, wanted);
            &&& next is Done && !(phase is Done) <==> (phase is Receiving || phase is Draining)
                && event == (RawFrameEvent::Received { picture: true })
            &&& next is Cancelled && !(phase is Cancelled) <==> phase is Reading && (
            event matches RawFrameEvent::Packet { canceled, .. } && canceled)
            &&& phase is Done || phase is Cancelled || phase is Failed ==> next == phase
            &&& phase is Reading && (event matches RawFrameEvent::Packet { stream, canceled, .. }
                && stream != wanted && !canceled) ==> next is Reading
            &&& phase is Reading && (event matches RawFrameEvent::Packet {
                stream,
                canceled,
                sent,
            } && stream == wanted && !canceled && sent) ==> next is Receiving
            &&& phase is Draining && event == (RawFrameEvent::Received { picture: false })
                ==> next is Failed
            &&& phase is Receiving && event == (RawFrameEvent::Received { picture: false })
                ==> next is Reading
            &&& next is Draining && !(phase is Draining) <==> phase is Reading && event == (
            RawFrameEvent::EndOfPackets { sent: true })
        }),
{
}

/// The name of an adapter says which it is.
pub proof fn adapters_are_named_after_themselves(adapter: CameraRawAdapter)
    ensures
        adapter is Dng ==> adapter_name(adapter) == "Dng"@,
        adapter is CinemaDng ==> adapter_name(adapter) == "CinemaDng"@,
{
}

} // verus!
