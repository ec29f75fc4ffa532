//! Colour facts of a video stream: tags, hints, evidence, warnings and the
//! interpretation that is drawn from them.

use vstd::prelude::*;

verus! {

/// Colour identities that pixels can have.
#[derive(Debug, Clone, Copy, PartialEq, Eq, Structural)]
pub enum ColorSpace {
    Rec601Ntsc,
    Rec601Pal,
    Rec709,
    Rec2020,
    Rec2100Pq,
    Rec2100Hlg,
    DisplayP3,
    LinearRec709,
    LinearRec2020,
    LinearP3D65,
    Aces2065_1,
    AcesCg,
    AcesCct,
    AppleLogBt2020,
    SonySLog2SGamut,
    SonySLog3SGamut3,
    SonySLog3SGamut3Cine,
    ArriLogC3WideGamut3,
    ArriLogC4WideGamut4,
    CanonLog2CinemaGamutD55,
    CanonLog3CinemaGamutD55,
    PanasonicVLogVGamut,
    RedLog3G10WideGamutRgb,
    BlackmagicFilmWideGamutGen5,
    DjiDLogDGamut,
    DavinciIntermediateWideGamut,
}

impl ColorSpace {
    /// Position of the identity in its declaration; breaks ties between hints.
    pub open spec fn spec_rank(self) -> nat {
        match self {
            ColorSpace::Rec601Ntsc => 0,
            ColorSpace::Rec601Pal => 1,
            ColorSpace::Rec709 => 2,
            ColorSpace::Rec2020 => 3,
            ColorSpace::Rec2100Pq => 4,
            ColorSpace::Rec2100Hlg => 5,
            ColorSpace::DisplayP3 => 6,
            ColorSpace::LinearRec709 => 7,
            ColorSpace::LinearRec2020 => 8,
            ColorSpace::LinearP3D65 => 9,
            ColorSpace::Aces2065_1 => 10,
            ColorSpace::AcesCg => 11,
            ColorSpace::AcesCct => 12,
            ColorSpace::AppleLogBt2020 => 13,
            ColorSpace::SonySLog2SGamut => 14,
            ColorSpace::SonySLog3SGamut3 => 15,
            ColorSpace::SonySLog3SGamut3Cine => 16,
            ColorSpace::ArriLogC3WideGamut3 => 17,
            ColorSpace::ArriLogC4WideGamut4 => 18,
            ColorSpace::CanonLog2CinemaGamutD55 => 19,
            ColorSpace::CanonLog3CinemaGamutD55 => 20,
            ColorSpace::PanasonicVLogVGamut => 21,
            ColorSpace::RedLog3G10WideGamutRgb => 22,
            ColorSpace::BlackmagicFilmWideGamutGen5 => 23,
            ColorSpace::DjiDLogDGamut => 24,
            ColorSpace::DavinciIntermediateWideGamut => 25,
        }
    }

    /// Position of the identity in its declaration.
    pub fn rank(self) -> (r: u8)
        ensures
            r == self.spec_rank(),
    {
        match self {
            ColorSpace::Rec601Ntsc => 0,
            ColorSpace::Rec601Pal => 1,
            ColorSpace::Rec709 => 2,
            ColorSpace::Rec2020 => 3,
            ColorSpace::Rec2100Pq => 4,
            ColorSpace::Rec2100Hlg => 5,
            ColorSpace::DisplayP3 => 6,
            ColorSpace::LinearRec709 => 7,
            ColorSpace::LinearRec2020 => 8,
            ColorSpace::LinearP3D65 => 9,
            ColorSpace::Aces2065_1 => 10,
            ColorSpace::AcesCg => 11,
            ColorSpace::AcesCct => 12,
            ColorSpace::AppleLogBt2020 => 13,
            ColorSpace::SonySLog2SGamut => 14,
            ColorSpace::SonySLog3SGamut3 => 15,
            ColorSpace::SonySLog3SGamut3Cine => 16,
            ColorSpace::ArriLogC3WideGamut3 => 17,
            ColorSpace::ArriLogC4WideGamut4 => 18,
            ColorSpace::CanonLog2CinemaGamutD55 => 19,
            ColorSpace::CanonLog3CinemaGamutD55 => 20,
            ColorSpace::PanasonicVLogVGamut => 21,
            ColorSpace::RedLog3G10WideGamutRgb => 22,
            ColorSpace::BlackmagicFilmWideGamutGen5 => 23,
            ColorSpace::DjiDLogDGamut => 24,
            ColorSpace::DavinciIntermediateWideGamut => 25,
        }
    }

    /// Name of the identity in diagnostics.
    pub open spec fn spec_name(self) -> Seq<char> {
        match self {
            ColorSpace::Rec601Ntsc => "Rec601Ntsc"@,
            ColorSpace::Rec601Pal => "Rec601Pal"@,
            ColorSpace::Rec709 => "Rec709"@,
            ColorSpace::Rec2020 => "Rec2020"@,
            ColorSpace::Rec2100Pq => "Rec2100Pq"@,
            ColorSpace::Rec2100Hlg => "Rec2100Hlg"@,
            ColorSpace::DisplayP3 => "DisplayP3"@,
            ColorSpace::LinearRec709 => "LinearRec709"@,
            ColorSpace::LinearRec2020 => "LinearRec2020"@,
            ColorSpace::LinearP3D65 => "LinearP3D65"@,
            ColorSpace::Aces2065_1 => "Aces2065_1"@,
            ColorSpace::AcesCg => "AcesCg"@,
            ColorSpace::AcesCct => "AcesCct"@,
            ColorSpace::AppleLogBt2020 => "AppleLogBt2020"@,
            ColorSpace::SonySLog2SGamut => "SonySLog2SGamut"@,
            ColorSpace::SonySLog3SGamut3 => "SonySLog3SGamut3"@,
            ColorSpace::SonySLog3SGamut3Cine => "SonySLog3SGamut3Cine"@,
            ColorSpace::ArriLogC3WideGamut3 => "ArriLogC3WideGamut3"@,
            ColorSpace::ArriLogC4WideGamut4 => "ArriLogC4WideGamut4"@,
            ColorSpace::CanonLog2CinemaGamutD55 => "CanonLog2CinemaGamutD55"@,
            ColorSpace::CanonLog3CinemaGamutD55 => "CanonLog3CinemaGamutD55"@,
            ColorSpace::PanasonicVLogVGamut => "PanasonicVLogVGamut"@,
            ColorSpace::RedLog3G10WideGamutRgb => "RedLog3G10WideGamutRgb"@,
            ColorSpace::BlackmagicFilmWideGamutGen5 => "BlackmagicFilmWideGamutGen5"@,
            ColorSpace::DjiDLogDGamut => "DjiDLogDGamut"@,
            ColorSpace::DavinciIntermediateWideGamut => "DavinciIntermediateWideGamut"@,
        }
    }

    /// Name of the identity in diagnostics.
    pub fn name(self) -> (r: &'static str)
        ensures
            r@ == self.spec_name(),
    {
        match self {
            ColorSpace::Rec601Ntsc => "Rec601Ntsc",
            ColorSpace::Rec601Pal => "Rec601Pal",
            ColorSpace::Rec709 => "Rec709",
            ColorSpace::Rec2020 => "Rec2020",
            ColorSpace::Rec2100Pq => "Rec2100Pq",
            ColorSpace::Rec2100Hlg => "Rec2100Hlg",
            ColorSpace::DisplayP3 => "DisplayP3",
            ColorSpace::LinearRec709 => "LinearRec709",
            ColorSpace::LinearRec2020 => "LinearRec2020",
            ColorSpace::LinearP3D65 => "LinearP3D65",
            ColorSpace::Aces2065_1 => "Aces2065_1",
            ColorSpace::AcesCg => "AcesCg",
            ColorSpace::AcesCct => "AcesCct",
            ColorSpace::AppleLogBt2020 => "AppleLogBt2020",
            ColorSpace::SonySLog2SGamut => "SonySLog2SGamut",
            ColorSpace::SonySLog3SGamut3 => "SonySLog3SGamut3",
            ColorSpace::SonySLog3SGamut3Cine => "SonySLog3SGamut3Cine",
            ColorSpace::ArriLogC3WideGamut3 => "ArriLogC3WideGamut3",
            ColorSpace::ArriLogC4WideGamut4 => "ArriLogC4WideGamut4",
            ColorSpace::CanonLog2CinemaGamutD55 => "CanonLog2CinemaGamutD55",
            ColorSpace::CanonLog3CinemaGamutD55 => "CanonLog3CinemaGamutD55",
            ColorSpace::PanasonicVLogVGamut => "PanasonicVLogVGamut",
            ColorSpace::RedLog3G10WideGamutRgb => "RedLog3G10WideGamutRgb",
            ColorSpace::BlackmagicFilmWideGamutGen5 => "BlackmagicFilmWideGamutGen5",
            ColorSpace::DjiDLogDGamut => "DjiDLogDGamut",
            ColorSpace::DavinciIntermediateWideGamut => "DavinciIntermediateWideGamut",
        }
    }
}

/// Confidence of an automatic interpretation.
#[derive(Debug, Clone, Copy, PartialEq, Eq, Structural)]
pub enum VideoColorInterpretationConfidence {
    High,
    Medium,
    Low,
    /// Nothing was concluded.
    Absent,
}

/// State of the metadata that an interpretation rests on.
#[derive(Debug, Clone, Copy, PartialEq, Eq, Structural)]
pub enum VideoColorSpaceSource {
    Metadata,
    MissingMetadata,
    UnsupportedMetadata,
    DecoderUnavailable,
}

/// How an interpretation was reached.
#[derive(Debug, Clone, Copy, PartialEq, Eq, Structural)]
pub enum VideoColorDetectionMethod {
    MetadataHint,
    IccProfile,
    CicpTags,
    MissingMetadata,
    UnsupportedCicpTags,
    DecoderUnavailable,
}

/// Where a hint was found. Streams speak before containers, containers before
/// file names.
#[derive(Debug, Clone, Copy, PartialEq, Eq, Structural)]
pub enum VideoColorMetadataHintScope {
    Stream,
    Container,
    FileName,
}

/// Fields whose meaning is fixed by the one who writes them.
#[derive(Debug, Clone, Copy, PartialEq, Eq, Structural)]
pub enum VideoColorMetadataDeclaration {
    SourceColorSpace,
    SonyColorProfile,
    AppleProAppsCameraLog,
}

/// What a hint may be used for.
#[derive(Debug, Clone, Copy, PartialEq, Eq, Structural)]
pub enum VideoColorMetadataHintAuthority {
    /// It declares what the source is.
    SourceDeclaration(VideoColorMetadataDeclaration),
    /// It is free text and only suggests something.
    DiagnosticSuggestion,
}

/// A metadata field that names a colour identity.
#[derive(Debug, Clone, PartialEq, Eq)]
pub struct VideoColorMetadataHint {
    pub scope: VideoColorMetadataHintScope,
    pub key: String,
    pub value: String,
    pub detected_color_space: ColorSpace,
    pub authority: VideoColorMetadataHintAuthority,
}

/// What a hint says, as text.
#[verifier::ext_equal]
pub struct HintText {
    pub scope: VideoColorMetadataHintScope,
    pub key: Seq<char>,
    pub value: Seq<char>,
    pub detected_color_space: ColorSpace,
    pub authority: VideoColorMetadataHintAuthority,
}

impl View for VideoColorMetadataHint {
    type V = HintText;

    open spec fn view(&self) -> HintText {
        HintText {
            scope: self.scope,
            key: self.key@,
            value: self.value@,
            detected_color_space: self.detected_color_space,
            authority: self.authority,
        }
    }
}

/// What the hints of a list say.
pub open spec fn texts(hints: Seq<VideoColorMetadataHint>) -> Seq<HintText> {
    Seq::new(hints.len(), |i: int| hints[i]@)
}

/// One tag of a stream: its code, its name and whether it says anything.
#[derive(Debug, Clone, PartialEq, Eq)]
pub struct VideoColorTag {
    pub code: i32,
    pub name: Option<String>,
    pub specified: bool,
}

/// The three colour tags of a stream.
#[derive(Debug, Clone, PartialEq, Eq)]
pub struct VideoColorMetadata {
    pub primaries: VideoColorTag,
    pub transfer: VideoColorTag,
    pub matrix: VideoColorTag,
}

/// What an embedded ICC profile maps to.
#[derive(Debug, Clone, PartialEq, Eq)]
pub enum IccColorSpaceMapping {
    Mapped { color_space: ColorSpace },
    Unmapped { profile_color_space: String, reason: String },
}

impl IccColorSpaceMapping {
    /// The identity that the profile maps to.
    pub open spec fn spec_color_space(self) -> Option<ColorSpace> {
        match self {
            IccColorSpaceMapping::Mapped { color_space } => Some(color_space),
            IccColorSpaceMapping::Unmapped { .. } => None,
        }
    }

    /// The identity that the profile maps to.
    pub fn color_space(&self) -> (r: Option<ColorSpace>)
        ensures
            r == self.spec_color_space(),
            r is Some <==> *self is Mapped,
            *self matches IccColorSpaceMapping::Mapped { color_space } ==> r == Some(color_space),
    {
        match self {
            IccColorSpaceMapping::Mapped { color_space } => Some(*color_space),
            IccColorSpaceMapping::Unmapped { .. } => None,
        }
    }
}

/// An embedded ICC profile.
#[derive(Debug, Clone, PartialEq, Eq)]
pub struct IccColorProfileHint {
    pub mapping: IccColorSpaceMapping,
    pub profile_name: Option<String>,
}

/// A fact that an interpretation rests on or passed over.
#[derive(Debug, Clone, PartialEq, Eq)]
pub enum VideoColorInterpretationEvidence {
    MetadataHint {
        scope: VideoColorMetadataHintScope,
        key: String,
        value: String,
        detected_color_space: ColorSpace,
        authority: VideoColorMetadataHintAuthority,
    },
    ExactCicpTags {
        primaries: VideoColorTag,
        transfer: VideoColorTag,
        matrix: VideoColorTag,
        detected_color_space: ColorSpace,
    },
    PartialCicpTags {
        primaries: VideoColorTag,
        transfer: VideoColorTag,
        matrix: VideoColorTag,
        detected_color_space: ColorSpace,
    },
    UnsupportedCicpTags {
        primaries: VideoColorTag,
        transfer: VideoColorTag,
        matrix: VideoColorTag,
    },
    IccProfile { mapped_color_space: Option<ColorSpace>, profile_name: Option<String> },
    DecoderUnavailable,
}

/// A doubt about an interpretation.
#[derive(Debug, Clone, PartialEq, Eq)]
pub enum VideoColorInterpretationWarning {
    MultipleMetadataHints {
        selected: VideoColorMetadataHint,
        ignored: Vec<VideoColorMetadataHint>,
    },
    MetadataHintOverridesCicpTags {
        selected: VideoColorMetadataHint,
        cicp_color_space: ColorSpace,
        cicp_metadata: VideoColorMetadata,
    },
    DescriptiveMetadataHintInference { selected: VideoColorMetadataHint },
    LowerPriorityMetadataHints {
        selected_method: VideoColorDetectionMethod,
        selected_color_space: ColorSpace,
        ignored: Vec<VideoColorMetadataHint>,
    },
    PartialCicpTags { detected_color_space: ColorSpace },
    MissingCicpTags,
    UnsupportedCicpTags,
    DecoderUnavailable,
    IccCicpMismatch { icc_color_space: ColorSpace, cicp_color_space: ColorSpace },
    IccProfileUnmapped { profile_name: Option<String>, reason: String },
}

/// Mathematical counterpart of [`VideoColorInterpretationWarning`].
#[verifier::ext_equal]
pub enum ColorDoubt {
    MultipleMetadataHints {
        selected: VideoColorMetadataHint,
        ignored: Seq<VideoColorMetadataHint>,
    },
    MetadataHintOverridesCicpTags {
        selected: VideoColorMetadataHint,
        cicp_color_space: ColorSpace,
        cicp_metadata: VideoColorMetadata,
    },
    DescriptiveMetadataHintInference { selected: VideoColorMetadataHint },
    LowerPriorityMetadataHints {
        selected_method: VideoColorDetectionMethod,
        selected_color_space: ColorSpace,
        ignored: Seq<VideoColorMetadataHint>,
    },
    PartialCicpTags { detected_color_space: ColorSpace },
    MissingCicpTags,
    UnsupportedCicpTags,
    DecoderUnavailable,
    IccCicpMismatch { icc_color_space: ColorSpace, cicp_color_space: ColorSpace },
    IccProfileUnmapped { profile_name: Option<String>, reason: String },
}

impl View for VideoColorInterpretationWarning {
    type V = ColorDoubt;

    open spec fn view(&self) -> ColorDoubt {
        match *self {
            VideoColorInterpretationWarning::MultipleMetadataHints { selected, ignored } =>
                ColorDoubt::MultipleMetadataHints { selected, ignored: ignored@ },
            VideoColorInterpretationWarning::MetadataHintOverridesCicpTags {
                selected,
                cicp_color_space,
                cicp_metadata,
            } => ColorDoubt::MetadataHintOverridesCicpTags {
                selected,
                cicp_color_space,
                cicp_metadata,
            },
            VideoColorInterpretationWarning::DescriptiveMetadataHintInference { selected } =>
                ColorDoubt::DescriptiveMetadataHintInference { selected },
            VideoColorInterpretationWarning::LowerPriorityMetadataHints {
                selected_method,
                selected_color_space,
                ignored,
            } => ColorDoubt::LowerPriorityMetadataHints {
                selected_method,
                selected_color_space,
                ignored: ignored@,
            },
            VideoColorInterpretationWarning::PartialCicpTags { detected_color_space } =>
                ColorDoubt::PartialCicpTags { detected_color_space },
            VideoColorInterpretationWarning::MissingCicpTags => ColorDoubt::MissingCicpTags,
            VideoColorInterpretationWarning::UnsupportedCicpTags =>
                ColorDoubt::UnsupportedCicpTags,
            VideoColorInterpretationWarning::DecoderUnavailable => ColorDoubt::DecoderUnavailable,
            VideoColorInterpretationWarning::IccCicpMismatch { icc_color_space, cicp_color_space } =>
                ColorDoubt::IccCicpMismatch { icc_color_space, cicp_color_space },
            VideoColorInterpretationWarning::IccProfileUnmapped { profile_name, reason } =>
                ColorDoubt::IccProfileUnmapped { profile_name, reason },
        }
    }
}

/// What was made of the colour metadata of a stream.
#[derive(Debug, Clone, PartialEq, Eq)]
pub struct DetectedColorInterpretation {
    pub candidate_color_space: Option<ColorSpace>,
    pub confidence: VideoColorInterpretationConfidence,
    pub source: VideoColorSpaceSource,
    pub method: VideoColorDetectionMethod,
    pub evidence: Vec<VideoColorInterpretationEvidence>,
    pub warnings: Vec<VideoColorInterpretationWarning>,
    pub user_overridable: bool,
}

/// Mathematical counterpart of [`DetectedColorInterpretation`].
#[verifier::ext_equal]
pub struct ColorVerdict {
    pub candidate: Option<ColorSpace>,
    pub confidence: VideoColorInterpretationConfidence,
    pub source: VideoColorSpaceSource,
    pub method: VideoColorDetectionMethod,
    pub evidence: Seq<VideoColorInterpretationEvidence>,
    pub warnings: Seq<ColorDoubt>,
    pub user_overridable: bool,
}

/// The doubts of a list of warnings.
pub open spec fn doubts(warnings: Seq<VideoColorInterpretationWarning>) -> Seq<ColorDoubt> {
    Seq::new(warnings.len(), |i: int| warnings[i]@)
}

impl View for DetectedColorInterpretation {
    type V = ColorVerdict;

    open spec fn view(&self) -> ColorVerdict {
        ColorVerdict {
            candidate: self.candidate_color_space,
            confidence: self.confidence,
            source: self.source,
            method: self.method,
            evidence: self.evidence@,
            warnings: doubts(self.warnings@),
            user_overridable: self.user_overridable,
        }
    }
}

/// A copy of an optional string.
pub fn duplicate_text(text: &Option<String>) -> (r: Option<String>)
    ensures
        r == *text,
{
    match text {
        Some(text) => Some(text.clone()),
        None => None,
    }
}

impl VideoColorMetadataHint {
    /// A copy of the hint.
    pub fn duplicate(&self) -> (r: VideoColorMetadataHint)
        ensures
            r == *self,
    {
        VideoColorMetadataHint {
            scope: self.scope,
            key: self.key.clone(),
            value: self.value.clone(),
            detected_color_space: self.detected_color_space,
            authority: self.authority,
        }
    }

    /// Whether the hint may name the identity that drives pixels.
    pub open spec fn spec_is_executable_declaration(self) -> bool {
        self.authority is SourceDeclaration
    }

    /// Whether the hint may name the identity that drives pixels: only fields
    /// that declare their source do, never free text.
    pub fn is_executable_declaration(&self) -> (r: bool)
        ensures
            r == self.spec_is_executable_declaration(),
            r <==> !(self.authority is DiagnosticSuggestion),
    {
        match self.authority {
            VideoColorMetadataHintAuthority::SourceDeclaration(_) => true,
            VideoColorMetadataHintAuthority::DiagnosticSuggestion => false,
        }
    }
}

/// The code of a tag that says nothing, the same for primaries, transfer and matrix.
pub const UNSPECIFIED_TAG_CODE: i32 = 2;

impl VideoColorTag {
    /// A tag as a decoder reports it.
    pub fn from_code(code: i32, name: Option<String>) -> (r: VideoColorTag)
        ensures
            r.code == code,
            r.name == name,
            r.specified == (code != UNSPECIFIED_TAG_CODE),
            code == 2 ==> !r.specified,
            code != 2 ==> r.specified,
    {
        VideoColorTag { code, name, specified: code != UNSPECIFIED_TAG_CODE }
    }

    /// A copy of the tag.
    pub fn duplicate(&self) -> (r: VideoColorTag)
        ensures
            r == *self,
    {
        VideoColorTag {
            code: self.code,
            name: duplicate_text(&self.name),
            specified: self.specified,
        }
    }
}

impl VideoColorMetadata {
    /// A copy of the tags.
    pub fn duplicate(&self) -> (r: VideoColorMetadata)
        ensures
            r == *self,
    {
        VideoColorMetadata {
            primaries: self.primaries.duplicate(),
            transfer: self.transfer.duplicate(),
            matrix: self.matrix.duplicate(),
        }
    }
}

/// The verdict on a stream that no decoder could be opened for.
pub open spec fn unavailable_verdict() -> ColorVerdict {
    ColorVerdict {
        candidate: None,
        confidence: VideoColorInterpretationConfidence::Absent,
        source: VideoColorSpaceSource::DecoderUnavailable,
        method: VideoColorDetectionMethod::DecoderUnavailable,
        evidence: seq![VideoColorInterpretationEvidence::DecoderUnavailable],
        warnings: seq![ColorDoubt::DecoderUnavailable],
        user_overridable: true,
    }
}

impl DetectedColorInterpretation {
    /// The interpretation of a stream that no decoder could be opened for.
    pub fn decoder_unavailable() -> (r: DetectedColorInterpretation)
        ensures
            r@ == unavailable_verdict(),
    {
        let mut evidence: Vec<VideoColorInterpretationEvidence> = Vec::new();
        evidence.push(VideoColorInterpretationEvidence::DecoderUnavailable);
        let mut warnings: Vec<VideoColorInterpretationWarning> = Vec::new();
        warnings.push(VideoColorInterpretationWarning::DecoderUnavailable);
        DetectedColorInterpretation {
            candidate_color_space: None,
            confidence: VideoColorInterpretationConfidence::Absent,
            source: VideoColorSpaceSource::DecoderUnavailable,
            method: VideoColorDetectionMethod::DecoderUnavailable,
            evidence,
            warnings,
            user_overridable: true,
        }
    }
}

/// The name of a colour identity says which it is.
pub proof fn identities_are_named_after_themselves(space: ColorSpace)
    ensures
        space is Rec601Ntsc ==> space.spec_name() == "Rec601Ntsc"@,
        space is Rec601Pal ==> space.spec_name() == "Rec601Pal"@,
        space is Rec709 ==> space.spec_name() == "Rec709"@,
        space is Rec2020 ==> space.spec_name() == "Rec2020"@,
        space is Rec2100Pq ==> space.spec_name() == "Rec2100Pq"@,
        space is Rec2100Hlg ==> space.spec_name() == "Rec2100Hlg"@,
        space is DisplayP3 ==> space.spec_name() == "DisplayP3"@,
        space is LinearRec709 ==> space.spec_name() == "LinearRec709"@,
        space is LinearRec2020 ==> space.spec_name() == "LinearRec2020"@,
        space is LinearP3D65 ==> space.spec_name() == "LinearP3D65"@,
        space is Aces2065_1 ==> space.spec_name() == "Aces2065_1"@,
        space is AcesCg ==> space.spec_name() == "AcesCg"@,
        space is AcesCct ==> space.spec_name() == "AcesCct"@,
        space is AppleLogBt2020 ==> space.spec_name() == "AppleLogBt2020"@,
        space is SonySLog2SGamut ==> space.spec_name() == "SonySLog2SGamut"@,
        space is SonySLog3SGamut3 ==> space.spec_name() == "SonySLog3SGamut3"@,
        space is SonySLog3SGamut3Cine ==> space.spec_name() == "SonySLog3SGamut3Cine"@,
        space is ArriLogC3WideGamut3 ==> space.spec_name() == "ArriLogC3WideGamut3"@,
        space is ArriLogC4WideGamut4 ==> space.spec_name() == "ArriLogC4WideGamut4"@,
        space is CanonLog2CinemaGamutD55 ==> space.spec_name() == "CanonLog2CinemaGamutD55"@,
        space is CanonLog3CinemaGamutD55 ==> space.spec_name() == "CanonLog3CinemaGamutD55"@,
        space is PanasonicVLogVGamut ==> space.spec_name() == "PanasonicVLogVGamut"@,
        space is RedLog3G10WideGamutRgb ==> space.spec_name() == "RedLog3G10WideGamutRgb"@,
        space is BlackmagicFilmWideGamutGen5 ==> space.spec_name() == "BlackmagicFilmWideGamutGen5"@,
        space is DjiDLogDGamut ==> space.spec_name() == "DjiDLogDGamut"@,
        space is DavinciIntermediateWideGamut ==> space.spec_name() == "DavinciIntermediateWideGamut"@,
{
}

} // verus!
