//! Quantization range and sampling of decoded frames.

use crate::decoder::surface::{DecodedVideoChromaLocation, DecodedVideoMatrix};
use vstd::prelude::*;

pub use crate::info::diagnostics::DecodedVideoRange;

verus! {

/// Signal range that a user can impose on media.
#[derive(Debug, Clone, Copy, PartialEq, Eq, Structural)]
pub enum MediaSignalRange {
    Limited,
    Full,
}

/// How the range of media is interpreted.
#[derive(Debug, Clone, Copy, PartialEq, Eq, Structural)]
pub enum MediaRangeInterpretation {
    /// As its metadata says.
    Auto,
    /// As the user says.
    Override { range: MediaSignalRange },
}

/// Range contract of frame decode. An explicit fact of a frame comes before what probing
/// found; a user's override comes before both, even where the frame repeats a wrong tag.
#[derive(Debug, Clone, Copy, PartialEq, Eq, Hash, Structural)]
pub enum DecodedVideoRangeContract {
    /// Frame metadata, or else the latest stream probe.
    Automatic { probed_range: DecodedVideoRange },
    OverrideLimited,
    OverrideFull,
}

/// The range of a frame under a contract.
pub open spec fn frame_range(
    contract: DecodedVideoRangeContract,
    reported: DecodedVideoRange,
) -> DecodedVideoRange {
    match contract {
        DecodedVideoRangeContract::Automatic { probed_range } => if reported is Unknown {
            probed_range
        } else {
            reported
        },
        DecodedVideoRangeContract::OverrideLimited => DecodedVideoRange::Limited,
        DecodedVideoRangeContract::OverrideFull => DecodedVideoRange::Full,
    }
}

/// The contract of an interpretation and a probed range.
pub open spec fn contract_of(
    interpretation: MediaRangeInterpretation,
    probed_range: DecodedVideoRange,
) -> DecodedVideoRangeContract {
    match interpretation {
        MediaRangeInterpretation::Auto => DecodedVideoRangeContract::Automatic { probed_range },
        MediaRangeInterpretation::Override { range } => match range {
            MediaSignalRange::Limited => DecodedVideoRangeContract::OverrideLimited,
            MediaSignalRange::Full => DecodedVideoRangeContract::OverrideFull,
        },
    }
}

impl DecodedVideoRangeContract {
    /// The contract of an asset's interpretation and what probing found.
    pub fn from_interpretation(
        interpretation: MediaRangeInterpretation,
        probed_range: DecodedVideoRange,
    ) -> (r: DecodedVideoRangeContract)
        ensures
            r == contract_of(interpretation, probed_range),
    {
        match interpretation {
            MediaRangeInterpretation::Auto => {
                DecodedVideoRangeContract::Automatic { probed_range }
            },
            MediaRangeInterpretation::Override { range } => match range {
                MediaSignalRange::Limited => DecodedVideoRangeContract::OverrideLimited,
                MediaSignalRange::Full => DecodedVideoRangeContract::OverrideFull,
            },
        }
    }

    /// The range to apply to a frame.
    pub fn resolve_for_frame(self, reported: DecodedVideoRange) -> (r: DecodedVideoRange)
        ensures
            r == frame_range(self, reported),
    {
        match self {
            DecodedVideoRangeContract::Automatic { probed_range } => match reported {
                DecodedVideoRange::Unknown => probed_range,
                DecodedVideoRange::Limited => DecodedVideoRange::Limited,
                DecodedVideoRange::Full => DecodedVideoRange::Full,
            },
            DecodedVideoRangeContract::OverrideLimited => DecodedVideoRange::Limited,
            DecodedVideoRangeContract::OverrideFull => DecodedVideoRange::Full,
        }
    }

    /// The range before a frame was decoded.
    pub fn baseline(self) -> (r: DecodedVideoRange)
        ensures
            r == frame_range(self, DecodedVideoRange::Unknown),
    {
        self.resolve_for_frame(DecodedVideoRange::Unknown)
    }
}

/// The range of an asset: the user's override, or else what was detected.
pub fn resolve_decoded_video_range(
    interpretation: MediaRangeInterpretation,
    detected: DecodedVideoRange,
) -> (r: DecodedVideoRange)
    ensures
        r == (match interpretation {
            MediaRangeInterpretation::Auto => detected,
            MediaRangeInterpretation::Override { range: MediaSignalRange::Limited } => {
                DecodedVideoRange::Limited
            },
            MediaRangeInterpretation::Override { range: MediaSignalRange::Full } => {
                DecodedVideoRange::Full
            },
        }),
        r == frame_range(contract_of(interpretation, detected), DecodedVideoRange::Unknown),
{
    DecodedVideoRangeContract::from_interpretation(interpretation, detected).baseline()
}

/// Range tags of a decoder.
#[derive(Debug, Clone, Copy, PartialEq, Eq, Structural)]
pub enum DecoderRangeTag {
    Unspecified,
    Mpeg,
    Jpeg,
}

/// The range that a decoder's tag stands for.
pub fn decoded_video_range_from_ffmpeg(tag: DecoderRangeTag) -> (r: DecodedVideoRange)
    ensures
        r == (match tag {
            DecoderRangeTag::Unspecified => DecodedVideoRange::Unknown,
            DecoderRangeTag::Mpeg => DecodedVideoRange::Limited,
            DecoderRangeTag::Jpeg => DecodedVideoRange::Full,
        }),
        r is Limited <==> tag is Mpeg,
        r is Full <==> tag is Jpeg,
{
    match tag {
        DecoderRangeTag::Mpeg => DecodedVideoRange::Limited,
        DecoderRangeTag::Jpeg => DecodedVideoRange::Full,
        DecoderRangeTag::Unspecified => DecodedVideoRange::Unknown,
    }
}

/// Sampling facts of a decoded frame, as the decoder reports them.
#[derive(Debug, Clone, Copy, PartialEq, Eq, Hash, Structural)]
pub struct DecodedVideoSampling {
    pub matrix: DecodedVideoMatrix,
    pub range: DecodedVideoRange,
    pub chroma_location: DecodedVideoChromaLocation,
    /// Effective coded bits; zero where they are unknown.
    pub bit_depth: u8,
}

impl Default for DecodedVideoSampling {
    fn default() -> (r: DecodedVideoSampling)
        ensures
            r.matrix is Unknown,
            r.range is Unknown,
            r.chroma_location is Unknown,
            r.bit_depth == 0,
    {
        DecodedVideoSampling {
            matrix: DecodedVideoMatrix::Unknown,
            range: DecodedVideoRange::Unknown,
            chroma_location: DecodedVideoChromaLocation::Unknown,
            bit_depth: 0,
        }
    }
}

/// An override decides alone; without one, a frame's own tag wins over the probe, and an
/// untagged frame gets what was probed.
pub proof fn overrides_are_final(
    range: MediaSignalRange,
    probed: DecodedVideoRange,
    other: DecodedVideoRange,
    reported: DecodedVideoRange,
)
    ensures
        frame_range(contract_of(MediaRangeInterpretation::Override { range }, probed), reported)
            == frame_range(
            contract_of(MediaRangeInterpretation::Override { range }, other),
            DecodedVideoRange::Unknown,
        ),
        !(reported is Unknown) ==> frame_range(
            contract_of(MediaRangeInterpretation::Auto, probed),
            reported,
        ) == reported,
        frame_range(
            contract_of(MediaRangeInterpretation::Auto, probed),
            DecodedVideoRange::Unknown,
        ) == probed,
{
}

/// A user who says limited gets limited and one who says full gets full, whatever was probed
/// or reported; without a user nothing is made up: a range comes from the frame, or else
/// from the probe.
pub proof fn ranges_are_what_was_said(probed: DecodedVideoRange, reported: DecodedVideoRange)
    ensures
        frame_range(
            contract_of(
                MediaRangeInterpretation::Override { range: MediaSignalRange::Limited },
                probed,
            ),
            reported,
        ) is Limited,
        frame_range(
            contract_of(
                MediaRangeInterpretation::Override { range: MediaSignalRange::Full },
                probed,
            ),
            reported,
        ) is Full,
        frame_range(contract_of(MediaRangeInterpretation::Auto, probed), reported) is Unknown
            <==> probed is Unknown && reported is Unknown,
        frame_range(contract_of(MediaRangeInterpretation::Auto, probed), reported) == reported
            || frame_range(contract_of(MediaRangeInterpretation::Auto, probed), reported) == probed,
{
}

} // verus!
