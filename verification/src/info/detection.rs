//! Automatic interpretation of colour metadata. Declarations of the source come
//! first, then CICP tags, then an embedded ICC profile, then free text. Nothing is
//! assumed where all of them are silent.

use super::color::{
    doubts, duplicate_text, texts, ColorDoubt, ColorSpace, ColorVerdict,
    DetectedColorInterpretation, HintText, IccColorProfileHint, IccColorSpaceMapping, VideoColorDetectionMethod,
    VideoColorInterpretationConfidence, VideoColorInterpretationEvidence,
    VideoColorInterpretationWarning, VideoColorMetadata, VideoColorMetadataHint,
    VideoColorMetadataHintScope, VideoColorSpaceSource,
};
use super::hints::{
    hint_order, is_parsed, order_hints, ordered, ordering_ignores_discovery,
    ordering_keeps_every_hint, parsed_hints_are_told_apart, tells_apart,
};
use vstd::prelude::*;

verus! {

/// What the declarations among the hints of a stream come to.
#[derive(Debug, Clone, Copy, PartialEq, Eq, Structural)]
pub enum VideoColorMetadataDeclarationResolution {
    /// Nothing declares the source.
    Undeclared,
    /// All declarations of the leading scope name one identity.
    Unique { scope: VideoColorMetadataHintScope, color_space: ColorSpace },
    /// Declarations of the leading scope contradict each other.
    Conflicting { disputed: VideoColorMetadataHintScope },
}

/// What the CICP tags and the declarations of a stream stand for.
#[derive(Debug, Clone, Copy, PartialEq, Eq, Structural)]
pub struct ColorAuthorities {
    /// The identity that the tags name exactly, given the proven sampling.
    pub exact_cicp: Option<ColorSpace>,
    /// The identity that the tags suggest.
    pub hinted_cicp: Option<ColorSpace>,
    /// What the declarations among the hints come to.
    pub declarations: VideoColorMetadataDeclarationResolution,
}

impl ColorAuthorities {
    /// The identity that the tags name or else suggest.
    pub open spec fn cicp(self) -> Option<ColorSpace> {
        match self.exact_cicp {
            Some(color_space) => Some(color_space),
            None => self.hinted_cicp,
        }
    }
}

/// Why CICP tags name no identity.
#[derive(Debug, Clone, Copy, PartialEq, Eq, Structural)]
pub enum UnresolvedCicpMetadata {
    /// No tag says anything.
    Missing,
    /// The tags say something that is not known.
    Unsupported,
}

impl UnresolvedCicpMetadata {
    /// Tags that name no identity are unsupported as soon as one is specified.
    pub open spec fn of(metadata: VideoColorMetadata) -> UnresolvedCicpMetadata {
        if metadata.primaries.specified || metadata.transfer.specified
            || metadata.matrix.specified {
            UnresolvedCicpMetadata::Unsupported
        } else {
            UnresolvedCicpMetadata::Missing
        }
    }

    /// The source state of an interpretation without identity.
    pub open spec fn spec_source(self) -> VideoColorSpaceSource {
        match self {
            UnresolvedCicpMetadata::Missing => VideoColorSpaceSource::MissingMetadata,
            UnresolvedCicpMetadata::Unsupported => VideoColorSpaceSource::UnsupportedMetadata,
        }
    }

    /// The method of an interpretation without identity.
    pub open spec fn spec_method(self) -> VideoColorDetectionMethod {
        match self {
            UnresolvedCicpMetadata::Missing => VideoColorDetectionMethod::MissingMetadata,
            UnresolvedCicpMetadata::Unsupported => VideoColorDetectionMethod::UnsupportedCicpTags,
        }
    }

    /// The doubt that unresolved tags raise.
    pub open spec fn doubt(self) -> ColorDoubt {
        match self {
            UnresolvedCicpMetadata::Missing => ColorDoubt::MissingCicpTags,
            UnresolvedCicpMetadata::Unsupported => ColorDoubt::UnsupportedCicpTags,
        }
    }

    /// The evidence that unresolved tags leave.
    pub open spec fn traces(self, metadata: VideoColorMetadata) -> Seq<
        VideoColorInterpretationEvidence,
    > {
        match self {
            UnresolvedCicpMetadata::Missing => seq![],
            UnresolvedCicpMetadata::Unsupported => seq![
                VideoColorInterpretationEvidence::UnsupportedCicpTags {
                    primaries: metadata.primaries,
                    transfer: metadata.transfer,
                    matrix: metadata.matrix,
                },
            ],
        }
    }

    /// Tells missing from unsupported tags.
    pub fn from_metadata(metadata: &VideoColorMetadata) -> (r: UnresolvedCicpMetadata)
        ensures
            r == UnresolvedCicpMetadata::of(*metadata),
    {
        if metadata.primaries.specified || metadata.transfer.specified
            || metadata.matrix.specified {
            UnresolvedCicpMetadata::Unsupported
        } else {
            UnresolvedCicpMetadata::Missing
        }
    }

    /// The source state of an interpretation without identity.
    pub fn source(self) -> (r: VideoColorSpaceSource)
        ensures
            r == self.spec_source(),
    {
        match self {
            UnresolvedCicpMetadata::Missing => VideoColorSpaceSource::MissingMetadata,
            UnresolvedCicpMetadata::Unsupported => VideoColorSpaceSource::UnsupportedMetadata,
        }
    }

    /// The method of an interpretation without identity.
    pub fn method(self) -> (r: VideoColorDetectionMethod)
        ensures
            r == self.spec_method(),
    {
        match self {
            UnresolvedCicpMetadata::Missing => VideoColorDetectionMethod::MissingMetadata,
            UnresolvedCicpMetadata::Unsupported => VideoColorDetectionMethod::UnsupportedCicpTags,
        }
    }

    /// The warning that unresolved tags raise.
    pub fn warning(self) -> (r: VideoColorInterpretationWarning)
        ensures
            r@ == self.doubt(),
    {
        match self {
            UnresolvedCicpMetadata::Missing => VideoColorInterpretationWarning::MissingCicpTags,
            UnresolvedCicpMetadata::Unsupported =>
                VideoColorInterpretationWarning::UnsupportedCicpTags,
        }
    }

    /// Adds the evidence that unresolved tags leave.
    pub fn append_evidence(
        self,
        evidence: &mut Vec<VideoColorInterpretationEvidence>,
        metadata: &VideoColorMetadata,
    )
        ensures
            final(evidence)@ == old(evidence)@ + self.traces(*metadata),
    {
        match self {
            UnresolvedCicpMetadata::Missing => {
                assert(evidence@ + self.traces(*metadata) =~= evidence@);
            },
            UnresolvedCicpMetadata::Unsupported => {
                evidence.push(
                    VideoColorInterpretationEvidence::UnsupportedCicpTags {
                        primaries: metadata.primaries.duplicate(),
                        transfer: metadata.transfer.duplicate(),
                        matrix: metadata.matrix.duplicate(),
                    },
                );
                assert(evidence@ =~= old(evidence)@ + self.traces(*metadata));
            },
        }
    }
}

/// The evidence of one hint.
pub open spec fn hint_evidence(hint: VideoColorMetadataHint) -> VideoColorInterpretationEvidence {
    VideoColorInterpretationEvidence::MetadataHint {
        scope: hint.scope,
        key: hint.key,
        value: hint.value,
        detected_color_space: hint.detected_color_space,
        authority: hint.authority,
    }
}

/// The evidence of a list of hints.
pub open spec fn hints_evidence(hints: Seq<VideoColorMetadataHint>) -> Seq<
    VideoColorInterpretationEvidence,
> {
    Seq::new(hints.len(), |i: int| hint_evidence(hints[i]))
}

/// The evidence of one hint.
pub fn metadata_hint_evidence(hint: &VideoColorMetadataHint) -> (r:
    VideoColorInterpretationEvidence)
    ensures
        r == hint_evidence(*hint),
{
    VideoColorInterpretationEvidence::MetadataHint {
        scope: hint.scope,
        key: hint.key.clone(),
        value: hint.value.clone(),
        detected_color_space: hint.detected_color_space,
        authority: hint.authority,
    }
}

fn append_hints_evidence(
    evidence: &mut Vec<VideoColorInterpretationEvidence>,
    hints: &Vec<VideoColorMetadataHint>,
)
    ensures
        final(evidence)@ == old(evidence)@ + hints_evidence(hints@),
{
    let ghost start = evidence@;
    let mut i: usize = 0;
    assert(evidence@ =~= start + hints_evidence(hints@.take(0)));
    while i < hints.len()
        invariant
            i <= hints.len(),
            evidence@ == start + hints_evidence(hints@.take(i as int)),
        decreases hints.len() - i,
    {
        evidence.push(metadata_hint_evidence(&hints[i]));
        assert(evidence@ =~= start + hints_evidence(hints@.take(i + 1)));
        i = i + 1;
    }
    assert(hints@.take(hints@.len() as int) =~= hints@);
}

/// Hints that name another identity, in their order.
pub open spec fn dissenting(
    hints: Seq<VideoColorMetadataHint>,
    color_space: ColorSpace,
) -> Seq<VideoColorMetadataHint>
    decreases hints.len(),
{
    if hints.len() == 0 {
        hints
    } else if hints.last().detected_color_space != color_space {
        dissenting(hints.drop_last(), color_space).push(hints.last())
    } else {
        dissenting(hints.drop_last(), color_space)
    }
}

fn dissenting_hints(hints: &Vec<VideoColorMetadataHint>, color_space: ColorSpace) -> (out: Vec<
    VideoColorMetadataHint,
>)
    ensures
        out@ == dissenting(hints@, color_space),
{
    let mut out: Vec<VideoColorMetadataHint> = Vec::new();
    let mut i: usize = 0;
    assert(hints@.take(0) =~= Seq::empty());
    while i < hints.len()
        invariant
            i <= hints.len(),
            out@ == dissenting(hints@.take(i as int), color_space),
        decreases hints.len() - i,
    {
        assert(hints@.take(i + 1).drop_last() =~= hints@.take(i as int));
        if hints[i].detected_color_space != color_space {
            out.push(hints[i].duplicate());
        }
        i = i + 1;
    }
    assert(hints@.take(hints@.len() as int) =~= hints@);
    out
}

/// The evidence of an ICC profile.
pub open spec fn icc_evidence(profile: IccColorProfileHint) -> VideoColorInterpretationEvidence {
    VideoColorInterpretationEvidence::IccProfile {
        mapped_color_space: profile.mapping.spec_color_space(),
        profile_name: profile.profile_name,
    }
}

/// The evidence of an ICC profile.
pub fn icc_profile_evidence(profile: &IccColorProfileHint) -> (r: VideoColorInterpretationEvidence)
    ensures
        r == icc_evidence(*profile),
{
    VideoColorInterpretationEvidence::IccProfile {
        mapped_color_space: profile.mapping.color_space(),
        profile_name: duplicate_text(&profile.profile_name),
    }
}

/// A verdict with the doubt that a profile without mapping raises.
pub open spec fn with_unmapped_icc(verdict: ColorVerdict, profile: IccColorProfileHint) ->
    ColorVerdict {
    match profile.mapping {
        IccColorSpaceMapping::Mapped { .. } => verdict,
        IccColorSpaceMapping::Unmapped { reason, .. } => ColorVerdict {
            warnings: verdict.warnings.push(
                ColorDoubt::IccProfileUnmapped { profile_name: profile.profile_name, reason },
            ),
            ..verdict
        },
    }
}

/// A verdict with what an ICC profile adds beside the identity chosen without it.
pub open spec fn with_icc(
    verdict: ColorVerdict,
    profile: Option<&IccColorProfileHint>,
    selected: Option<ColorSpace>,
) -> ColorVerdict {
    match profile {
        None => verdict,
        Some(profile) => {
            let noted = ColorVerdict {
                evidence: verdict.evidence.push(icc_evidence(*profile)),
                ..verdict
            };
            match (profile.mapping.spec_color_space(), selected) {
                (None, _) => with_unmapped_icc(noted, *profile),
                (Some(icc), Some(chosen)) => if icc != chosen {
                    ColorVerdict {
                        warnings: noted.warnings.push(
                            ColorDoubt::IccCicpMismatch {
                                icc_color_space: icc,
                                cicp_color_space: chosen,
                            },
                        ),
                        ..noted
                    }
                } else {
                    noted
                },
                (Some(_), None) => noted,
            }
        },
    }
}

fn push_warning(
    interpretation: &mut DetectedColorInterpretation,
    warning: VideoColorInterpretationWarning,
)
    ensures
        final(interpretation)@ == (ColorVerdict {
            warnings: old(interpretation)@.warnings.push(warning@),
            ..old(interpretation)@
        }),
{
    interpretation.warnings.push(warning);
    assert(doubts(interpretation.warnings@) =~= doubts(old(interpretation).warnings@).push(
        warning@,
    ));
}

fn append_unmapped_icc_warning(
    interpretation: &mut DetectedColorInterpretation,
    profile: &IccColorProfileHint,
)
    ensures
        final(interpretation)@ == with_unmapped_icc(old(interpretation)@, *profile),
{
    match &profile.mapping {
        IccColorSpaceMapping::Mapped { .. } => {},
        IccColorSpaceMapping::Unmapped { reason, .. } => {
            push_warning(
                interpretation,
                VideoColorInterpretationWarning::IccProfileUnmapped {
                    profile_name: duplicate_text(&profile.profile_name),
                    reason: reason.clone(),
                },
            );
        },
    }
}

fn append_icc_profile_evidence_and_warnings(
    interpretation: &mut DetectedColorInterpretation,
    profile: Option<&IccColorProfileHint>,
    selected: Option<ColorSpace>,
)
    ensures
        final(interpretation)@ == with_icc(old(interpretation)@, profile, selected),
{
    let profile = match profile {
        Some(profile) => profile,
        None => return ,
    };
    interpretation.evidence.push(icc_profile_evidence(profile));
    match profile.mapping.color_space() {
        None => {
            append_unmapped_icc_warning(interpretation, profile);
        },
        Some(icc_color_space) => {
            match selected {
                Some(chosen) => {
                    if icc_color_space != chosen {
                        push_warning(
                            interpretation,
                            VideoColorInterpretationWarning::IccCicpMismatch {
                                icc_color_space,
                                cicp_color_space: chosen,
                            },
                        );
                    }
                },
                None => {},
            }
        },
    }
}

/// A verdict with the hints that name another identity than the one chosen.
pub open spec fn with_lower_priority(
    verdict: ColorVerdict,
    hints: Seq<VideoColorMetadataHint>,
    method: VideoColorDetectionMethod,
    color_space: ColorSpace,
) -> ColorVerdict {
    let ignored = dissenting(hints, color_space);
    if ignored.len() == 0 {
        verdict
    } else {
        ColorVerdict {
            warnings: verdict.warnings.push(
                ColorDoubt::LowerPriorityMetadataHints {
                    selected_method: method,
                    selected_color_space: color_space,
                    ignored,
                },
            ),
            ..verdict
        }
    }
}

fn append_lower_priority_warning(
    interpretation: &mut DetectedColorInterpretation,
    hints: &Vec<VideoColorMetadataHint>,
    method: VideoColorDetectionMethod,
    color_space: ColorSpace,
)
    ensures
        final(interpretation)@ == with_lower_priority(
            old(interpretation)@,
            hints@,
            method,
            color_space,
        ),
{
    let ignored = dissenting_hints(hints, color_space);
    if ignored.len() > 0 {
        push_warning(
            interpretation,
            VideoColorInterpretationWarning::LowerPriorityMetadataHints {
                selected_method: method,
                selected_color_space: color_space,
                ignored,
            },
        );
    }
}

/// A verdict with the doubt that several hints raise, where some dissent.
pub open spec fn with_dissent(
    verdict: ColorVerdict,
    selected: VideoColorMetadataHint,
    hints: Seq<VideoColorMetadataHint>,
) -> ColorVerdict {
    let ignored = dissenting(hints, selected.detected_color_space);
    if ignored.len() == 0 {
        verdict
    } else {
        ColorVerdict {
            warnings: verdict.warnings.push(
                ColorDoubt::MultipleMetadataHints { selected, ignored },
            ),
            ..verdict
        }
    }
}

fn append_dissent_warning(
    interpretation: &mut DetectedColorInterpretation,
    selected: &VideoColorMetadataHint,
    hints: &Vec<VideoColorMetadataHint>,
)
    ensures
        final(interpretation)@ == with_dissent(old(interpretation)@, *selected, hints@),
{
    let ignored = dissenting_hints(hints, selected.detected_color_space);
    if ignored.len() > 0 {
        push_warning(
            interpretation,
            VideoColorInterpretationWarning::MultipleMetadataHints {
                selected: selected.duplicate(),
                ignored,
            },
        );
    }
}

/// A verdict with traces of tags that name nothing known.
pub open spec fn with_unsupported(
    verdict: ColorVerdict,
    metadata: VideoColorMetadata,
    cicp: Option<ColorSpace>,
) -> ColorVerdict {
    let unresolved = UnresolvedCicpMetadata::of(metadata);
    if cicp is None && unresolved == UnresolvedCicpMetadata::Unsupported {
        ColorVerdict {
            evidence: verdict.evidence + unresolved.traces(metadata),
            warnings: verdict.warnings.push(unresolved.doubt()),
            ..verdict
        }
    } else {
        verdict
    }
}

fn append_unsupported(
    interpretation: &mut DetectedColorInterpretation,
    metadata: &VideoColorMetadata,
    cicp: Option<ColorSpace>,
)
    ensures
        final(interpretation)@ == with_unsupported(old(interpretation)@, *metadata, cicp),
{
    let unresolved = UnresolvedCicpMetadata::from_metadata(metadata);
    if cicp.is_none() && unresolved == UnresolvedCicpMetadata::Unsupported {
        unresolved.append_evidence(&mut interpretation.evidence, metadata);
        push_warning(interpretation, unresolved.warning());
    }
}

/// The verdict where nothing names an identity.
pub open spec fn unresolved_verdict(
    metadata: VideoColorMetadata,
    hints: Seq<VideoColorMetadataHint>,
    profile: Option<&IccColorProfileHint>,
) -> ColorVerdict {
    let unresolved = UnresolvedCicpMetadata::of(metadata);
    with_icc(
        ColorVerdict {
            candidate: None,
            confidence: VideoColorInterpretationConfidence::Absent,
            source: unresolved.spec_source(),
            method: unresolved.spec_method(),
            evidence: hints_evidence(hints) + unresolved.traces(metadata),
            warnings: seq![unresolved.doubt()],
            user_overridable: true,
        },
        profile,
        None,
    )
}

fn new_interpretation(
    candidate_color_space: Option<ColorSpace>,
    confidence: VideoColorInterpretationConfidence,
    source: VideoColorSpaceSource,
    method: VideoColorDetectionMethod,
    evidence: Vec<VideoColorInterpretationEvidence>,
) -> (r: DetectedColorInterpretation)
    ensures
        r@ == (ColorVerdict {
            candidate: candidate_color_space,
            confidence,
            source,
            method,
            evidence: evidence@,
            warnings: seq![],
            user_overridable: true,
        }),
{
    DetectedColorInterpretation {
        candidate_color_space,
        confidence,
        source,
        method,
        evidence,
        warnings: Vec::new(),
        user_overridable: true,
    }
}

fn unresolved_color_interpretation(
    metadata: &VideoColorMetadata,
    hints: &Vec<VideoColorMetadataHint>,
    profile: Option<&IccColorProfileHint>,
) -> (r: DetectedColorInterpretation)
    ensures
        r@ == unresolved_verdict(*metadata, hints@, profile),
{
    let unresolved = UnresolvedCicpMetadata::from_metadata(metadata);
    let mut evidence: Vec<VideoColorInterpretationEvidence> = Vec::new();
    append_hints_evidence(&mut evidence, hints);
    unresolved.append_evidence(&mut evidence, metadata);
    assert(evidence@ =~= hints_evidence(hints@) + unresolved.traces(*metadata));
    let mut interpretation = new_interpretation(
        None,
        VideoColorInterpretationConfidence::Absent,
        unresolved.source(),
        unresolved.method(),
        evidence,
    );
    push_warning(&mut interpretation, unresolved.warning());
    assert(interpretation@.warnings =~= seq![unresolved.doubt()]);
    append_icc_profile_evidence_and_warnings(&mut interpretation, profile, None);
    interpretation
}

/// The verdict that rests on one declaration of the source.
pub open spec fn declared_verdict(
    selected: VideoColorMetadataHint,
    metadata: VideoColorMetadata,
    hints: Seq<VideoColorMetadataHint>,
    profile: Option<&IccColorProfileHint>,
    cicp: Option<ColorSpace>,
) -> ColorVerdict {
    let color_space = selected.detected_color_space;
    let stated = with_icc(
        ColorVerdict {
            candidate: Some(color_space),
            confidence: VideoColorInterpretationConfidence::High,
            source: VideoColorSpaceSource::Metadata,
            method: VideoColorDetectionMethod::MetadataHint,
            evidence: hints_evidence(hints),
            warnings: seq![],
            user_overridable: true,
        },
        profile,
        cicp,
    );
    let doubted = with_dissent(stated, selected, hints);
    let compared = match cicp {
        Some(other) => if other != color_space {
            ColorVerdict {
                warnings: doubted.warnings.push(
                    ColorDoubt::MetadataHintOverridesCicpTags {
                        selected,
                        cicp_color_space: other,
                        cicp_metadata: metadata,
                    },
                ),
                ..doubted
            }
        } else {
            doubted
        },
        None => doubted,
    };
    with_unsupported(compared, metadata, cicp)
}

fn declared_interpretation(
    selected: &VideoColorMetadataHint,
    metadata: &VideoColorMetadata,
    hints: &Vec<VideoColorMetadataHint>,
    profile: Option<&IccColorProfileHint>,
    cicp: Option<ColorSpace>,
) -> (r: DetectedColorInterpretation)
    ensures
        r@ == declared_verdict(*selected, *metadata, hints@, profile, cicp),
{
    let color_space = selected.detected_color_space;
    let mut evidence: Vec<VideoColorInterpretationEvidence> = Vec::new();
    append_hints_evidence(&mut evidence, hints);
    assert(evidence@ =~= hints_evidence(hints@));
    let mut interpretation = new_interpretation(
        Some(color_space),
        VideoColorInterpretationConfidence::High,
        VideoColorSpaceSource::Metadata,
        VideoColorDetectionMethod::MetadataHint,
        evidence,
    );
    append_icc_profile_evidence_and_warnings(&mut interpretation, profile, cicp);
    append_dissent_warning(&mut interpretation, selected, hints);
    match cicp {
        Some(other) => {
            if other != color_space {
                push_warning(
                    &mut interpretation,
                    VideoColorInterpretationWarning::MetadataHintOverridesCicpTags {
                        selected: selected.duplicate(),
                        cicp_color_space: other,
                        cicp_metadata: metadata.duplicate(),
                    },
                );
            }
        },
        None => {},
    }
    append_unsupported(&mut interpretation, metadata, cicp);
    interpretation
}

/// The verdict where declarations of the source contradict each other: a
/// representative for diagnostics, never with high confidence.
pub open spec fn disputed_verdict(
    selected: VideoColorMetadataHint,
    metadata: VideoColorMetadata,
    hints: Seq<VideoColorMetadataHint>,
    profile: Option<&IccColorProfileHint>,
    cicp: Option<ColorSpace>,
) -> ColorVerdict {
    let color_space = selected.detected_color_space;
    with_unsupported(
        with_icc(
            ColorVerdict {
                candidate: Some(color_space),
                confidence: VideoColorInterpretationConfidence::Medium,
                source: VideoColorSpaceSource::Metadata,
                method: VideoColorDetectionMethod::MetadataHint,
                evidence: hints_evidence(hints),
                warnings: seq![
                    ColorDoubt::MultipleMetadataHints {
                        selected,
                        ignored: dissenting(hints, color_space),
                    },
                ],
                user_overridable: true,
            },
            profile,
            cicp,
        ),
        metadata,
        cicp,
    )
}

fn disputed_interpretation(
    selected: &VideoColorMetadataHint,
    metadata: &VideoColorMetadata,
    hints: &Vec<VideoColorMetadataHint>,
    profile: Option<&IccColorProfileHint>,
    cicp: Option<ColorSpace>,
) -> (r: DetectedColorInterpretation)
    ensures
        r@ == disputed_verdict(*selected, *metadata, hints@, profile, cicp),
{
    let color_space = selected.detected_color_space;
    let mut evidence: Vec<VideoColorInterpretationEvidence> = Vec::new();
    append_hints_evidence(&mut evidence, hints);
    assert(evidence@ =~= hints_evidence(hints@));
    let mut interpretation = new_interpretation(
        Some(color_space),
        VideoColorInterpretationConfidence::Medium,
        VideoColorSpaceSource::Metadata,
        VideoColorDetectionMethod::MetadataHint,
        evidence,
    );
    push_warning(
        &mut interpretation,
        VideoColorInterpretationWarning::MultipleMetadataHints {
            selected: selected.duplicate(),
            ignored: dissenting_hints(hints, color_space),
        },
    );
    assert(interpretation@.warnings =~= seq![
        ColorDoubt::MultipleMetadataHints {
            selected: *selected,
            ignored: dissenting(hints@, color_space),
        },
    ]);
    append_icc_profile_evidence_and_warnings(&mut interpretation, profile, cicp);
    append_unsupported(&mut interpretation, metadata, cicp);
    interpretation
}

/// The verdict that rests on CICP tags.
pub open spec fn cicp_verdict(
    color_space: ColorSpace,
    exact: bool,
    metadata: VideoColorMetadata,
    hints: Seq<VideoColorMetadataHint>,
    profile: Option<&IccColorProfileHint>,
) -> ColorVerdict {
    let tags = if exact {
        VideoColorInterpretationEvidence::ExactCicpTags {
            primaries: metadata.primaries,
            transfer: metadata.transfer,
            matrix: metadata.matrix,
            detected_color_space: color_space,
        }
    } else {
        VideoColorInterpretationEvidence::PartialCicpTags {
            primaries: metadata.primaries,
            transfer: metadata.transfer,
            matrix: metadata.matrix,
            detected_color_space: color_space,
        }
    };
    with_lower_priority(
        with_icc(
            ColorVerdict {
                candidate: Some(color_space),
                confidence: if exact {
                    VideoColorInterpretationConfidence::High
                } else {
                    VideoColorInterpretationConfidence::Medium
                },
                source: VideoColorSpaceSource::Metadata,
                method: VideoColorDetectionMethod::CicpTags,
                evidence: seq![tags] + hints_evidence(hints),
                warnings: if exact {
                    seq![]
                } else {
                    seq![ColorDoubt::PartialCicpTags { detected_color_space: color_space }]
                },
                user_overridable: true,
            },
            profile,
            Some(color_space),
        ),
        hints,
        VideoColorDetectionMethod::CicpTags,
        color_space,
    )
}

fn cicp_interpretation(
    color_space: ColorSpace,
    exact: bool,
    metadata: &VideoColorMetadata,
    hints: &Vec<VideoColorMetadataHint>,
    profile: Option<&IccColorProfileHint>,
) -> (r: DetectedColorInterpretation)
    ensures
        r@ == cicp_verdict(color_space, exact, *metadata, hints@, profile),
{
    let primaries = metadata.primaries.duplicate();
    let transfer = metadata.transfer.duplicate();
    let matrix = metadata.matrix.duplicate();
    let tags = if exact {
        VideoColorInterpretationEvidence::ExactCicpTags {
            primaries,
            transfer,
            matrix,
            detected_color_space: color_space,
        }
    } else {
        VideoColorInterpretationEvidence::PartialCicpTags {
            primaries,
            transfer,
            matrix,
            detected_color_space: color_space,
        }
    };
    let ghost stated = tags;
    let mut evidence: Vec<VideoColorInterpretationEvidence> = Vec::new();
    evidence.push(tags);
    append_hints_evidence(&mut evidence, hints);
    assert(evidence@ =~= seq![stated] + hints_evidence(hints@));
    let confidence = if exact {
        VideoColorInterpretationConfidence::High
    } else {
        VideoColorInterpretationConfidence::Medium
    };
    let mut interpretation = new_interpretation(
        Some(color_space),
        confidence,
        VideoColorSpaceSource::Metadata,
        VideoColorDetectionMethod::CicpTags,
        evidence,
    );
    if !exact {
        push_warning(
            &mut interpretation,
            VideoColorInterpretationWarning::PartialCicpTags { detected_color_space: color_space },
        );
        assert(interpretation@.warnings =~= seq![
            ColorDoubt::PartialCicpTags { detected_color_space: color_space },
        ]);
    }
    append_icc_profile_evidence_and_warnings(&mut interpretation, profile, Some(color_space));
    append_lower_priority_warning(
        &mut interpretation,
        hints,
        VideoColorDetectionMethod::CicpTags,
        color_space,
    );
    interpretation
}

/// The verdict that rests on an embedded profile with a mapping.
pub open spec fn mapped_icc_verdict(
    color_space: ColorSpace,
    profile: IccColorProfileHint,
    metadata: VideoColorMetadata,
    hints: Seq<VideoColorMetadataHint>,
) -> ColorVerdict {
    let unresolved = UnresolvedCicpMetadata::of(metadata);
    with_lower_priority(
        ColorVerdict {
            candidate: Some(color_space),
            confidence: VideoColorInterpretationConfidence::Medium,
            source: VideoColorSpaceSource::Metadata,
            method: VideoColorDetectionMethod::IccProfile,
            evidence: seq![icc_evidence(profile)] + unresolved.traces(metadata) + hints_evidence(
                hints,
            ),
            warnings: seq![unresolved.doubt()],
            user_overridable: true,
        },
        hints,
        VideoColorDetectionMethod::IccProfile,
        color_space,
    )
}

fn mapped_icc_interpretation(
    color_space: ColorSpace,
    profile: &IccColorProfileHint,
    metadata: &VideoColorMetadata,
    hints: &Vec<VideoColorMetadataHint>,
) -> (r: DetectedColorInterpretation)
    ensures
        r@ == mapped_icc_verdict(color_space, *profile, *metadata, hints@),
{
    let unresolved = UnresolvedCicpMetadata::from_metadata(metadata);
    let mut evidence: Vec<VideoColorInterpretationEvidence> = Vec::new();
    evidence.push(icc_profile_evidence(profile));
    assert(evidence@ =~= seq![icc_evidence(*profile)]);
    unresolved.append_evidence(&mut evidence, metadata);
    append_hints_evidence(&mut evidence, hints);
    let mut interpretation = new_interpretation(
        Some(color_space),
        VideoColorInterpretationConfidence::Medium,
        VideoColorSpaceSource::Metadata,
        VideoColorDetectionMethod::IccProfile,
        evidence,
    );
    push_warning(&mut interpretation, unresolved.warning());
    assert(interpretation@.warnings =~= seq![unresolved.doubt()]);
    append_lower_priority_warning(
        &mut interpretation,
        hints,
        VideoColorDetectionMethod::IccProfile,
        color_space,
    );
    interpretation
}

/// The verdict where an embedded profile without mapping is all there is.
pub open spec fn unmapped_icc_verdict(
    profile: IccColorProfileHint,
    metadata: VideoColorMetadata,
) -> ColorVerdict {
    let unresolved = UnresolvedCicpMetadata::of(metadata);
    with_unmapped_icc(
        ColorVerdict {
            candidate: None,
            confidence: VideoColorInterpretationConfidence::Absent,
            source: unresolved.spec_source(),
            method: unresolved.spec_method(),
            evidence: seq![icc_evidence(profile)] + unresolved.traces(metadata),
            warnings: seq![unresolved.doubt()],
            user_overridable: true,
        },
        profile,
    )
}

fn unmapped_icc_interpretation(
    profile: &IccColorProfileHint,
    metadata: &VideoColorMetadata,
) -> (r: DetectedColorInterpretation)
    ensures
        r@ == unmapped_icc_verdict(*profile, *metadata),
{
    let unresolved = UnresolvedCicpMetadata::from_metadata(metadata);
    let mut evidence: Vec<VideoColorInterpretationEvidence> = Vec::new();
    evidence.push(icc_profile_evidence(profile));
    assert(evidence@ =~= seq![icc_evidence(*profile)]);
    unresolved.append_evidence(&mut evidence, metadata);
    let mut interpretation = new_interpretation(
        None,
        VideoColorInterpretationConfidence::Absent,
        unresolved.source(),
        unresolved.method(),
        evidence,
    );
    push_warning(&mut interpretation, unresolved.warning());
    assert(interpretation@.warnings =~= seq![unresolved.doubt()]);
    append_unmapped_icc_warning(&mut interpretation, profile);
    interpretation
}

/// The verdict that rests on free text.
pub open spec fn descriptive_verdict(
    selected: VideoColorMetadataHint,
    metadata: VideoColorMetadata,
    hints: Seq<VideoColorMetadataHint>,
    profile: Option<&IccColorProfileHint>,
) -> ColorVerdict {
    let unresolved = UnresolvedCicpMetadata::of(metadata);
    with_icc(
        with_dissent(
            ColorVerdict {
                candidate: Some(selected.detected_color_space),
                confidence: VideoColorInterpretationConfidence::Low,
                source: VideoColorSpaceSource::Metadata,
                method: VideoColorDetectionMethod::MetadataHint,
                evidence: hints_evidence(hints) + unresolved.traces(metadata),
                warnings: seq![
                    ColorDoubt::DescriptiveMetadataHintInference { selected },
                    unresolved.doubt(),
                ],
                user_overridable: true,
            },
            selected,
            hints,
        ),
        profile,
        Some(selected.detected_color_space),
    )
}

fn descriptive_metadata_hint_interpretation(
    selected: &VideoColorMetadataHint,
    metadata: &VideoColorMetadata,
    hints: &Vec<VideoColorMetadataHint>,
    profile: Option<&IccColorProfileHint>,
) -> (r: DetectedColorInterpretation)
    ensures
        r@ == descriptive_verdict(*selected, *metadata, hints@, profile),
{
    let unresolved = UnresolvedCicpMetadata::from_metadata(metadata);
    let mut evidence: Vec<VideoColorInterpretationEvidence> = Vec::new();
    append_hints_evidence(&mut evidence, hints);
    unresolved.append_evidence(&mut evidence, metadata);
    assert(evidence@ =~= hints_evidence(hints@) + unresolved.traces(*metadata));
    let mut interpretation = new_interpretation(
        Some(selected.detected_color_space),
        VideoColorInterpretationConfidence::Low,
        VideoColorSpaceSource::Metadata,
        VideoColorDetectionMethod::MetadataHint,
        evidence,
    );
    push_warning(
        &mut interpretation,
        VideoColorInterpretationWarning::DescriptiveMetadataHintInference {
            selected: selected.duplicate(),
        },
    );
    push_warning(&mut interpretation, unresolved.warning());
    assert(interpretation@.warnings =~= seq![
        ColorDoubt::DescriptiveMetadataHintInference { selected: *selected },
        unresolved.doubt(),
    ]);
    append_dissent_warning(&mut interpretation, selected, hints);
    append_icc_profile_evidence_and_warnings(
        &mut interpretation,
        profile,
        Some(selected.detected_color_space),
    );
    interpretation
}

/// Whether a hint declares its source in a scope, with a given identity if any.
pub open spec fn declares(
    hint: VideoColorMetadataHint,
    scope: VideoColorMetadataHintScope,
    color_space: Option<ColorSpace>,
) -> bool {
    &&& hint.scope == scope
    &&& hint.spec_is_executable_declaration()
    &&& color_space matches Some(named) ==> hint.detected_color_space == named
}

/// The first hint from `from` on that declares its source in a scope.
pub open spec fn first_declaration(
    hints: Seq<VideoColorMetadataHint>,
    scope: VideoColorMetadataHintScope,
    color_space: Option<ColorSpace>,
    from: nat,
) -> Option<VideoColorMetadataHint>
    decreases hints.len() - from,
{
    if from >= hints.len() {
        None
    } else if declares(hints[from as int], scope, color_space) {
        Some(hints[from as int])
    } else {
        first_declaration(hints, scope, color_space, from + 1)
    }
}

fn find_declaration<'a>(
    hints: &'a Vec<VideoColorMetadataHint>,
    scope: VideoColorMetadataHintScope,
    color_space: Option<ColorSpace>,
) -> (r: Option<&'a VideoColorMetadataHint>)
    ensures
        match (r, first_declaration(hints@, scope, color_space, 0)) {
            (Some(hint), Some(expected)) => *hint == expected,
            (None, None) => true,
            _ => false,
        },
{
    let mut i: usize = 0;
    while i < hints.len()
        invariant
            i <= hints.len(),
            first_declaration(hints@, scope, color_space, 0) == first_declaration(
                hints@,
                scope,
                color_space,
                i as nat,
            ),
        decreases hints.len() - i,
    {
        let named = match color_space {
            Some(named) => hints[i].detected_color_space == named,
            None => true,
        };
        if hints[i].scope == scope && named && hints[i].is_executable_declaration() {
            return Some(&hints[i]);
        }
        i = i + 1;
    }
    None
}

/// The verdict without a usable declaration: tags, then profile, then free text.
pub open spec fn undeclared_verdict(
    metadata: VideoColorMetadata,
    hints: Seq<VideoColorMetadataHint>,
    profile: Option<&IccColorProfileHint>,
    authorities: ColorAuthorities,
) -> ColorVerdict {
    match (authorities.exact_cicp, authorities.hinted_cicp) {
        (Some(color_space), _) => cicp_verdict(color_space, true, metadata, hints, profile),
        (None, Some(color_space)) => cicp_verdict(color_space, false, metadata, hints, profile),
        (None, None) => match profile {
            Some(icc) if icc.mapping.spec_color_space() is Some => mapped_icc_verdict(
                icc.mapping.spec_color_space().unwrap(),
                *icc,
                metadata,
                hints,
            ),
            Some(icc) if hints.len() == 0 => unmapped_icc_verdict(*icc, metadata),
            _ => if hints.len() > 0 {
                descriptive_verdict(hints[0], metadata, hints, profile)
            } else {
                unresolved_verdict(metadata, hints, profile)
            },
        },
    }
}

/// What the colour metadata of a stream comes to, for hints in diagnostic order.
pub open spec fn ordered_verdict(
    metadata: VideoColorMetadata,
    hints: Seq<VideoColorMetadataHint>,
    profile: Option<&IccColorProfileHint>,
    authorities: ColorAuthorities,
) -> ColorVerdict {
    match authorities.declarations {
        VideoColorMetadataDeclarationResolution::Conflicting { disputed } =>
            match first_declaration(hints, disputed, None, 0) {
                Some(selected) => disputed_verdict(
                    selected,
                    metadata,
                    hints,
                    profile,
                    authorities.cicp(),
                ),
                None => unresolved_verdict(metadata, hints, profile),
            },
        VideoColorMetadataDeclarationResolution::Unique { scope, color_space } =>
            match first_declaration(hints, scope, Some(color_space), 0) {
                Some(selected) => declared_verdict(
                    selected,
                    metadata,
                    hints,
                    profile,
                    authorities.cicp(),
                ),
                None => unresolved_verdict(metadata, hints, profile),
            },
        VideoColorMetadataDeclarationResolution::Undeclared => undeclared_verdict(
            metadata,
            hints,
            profile,
            authorities,
        ),
    }
}

/// What the colour metadata of a stream comes to.
pub open spec fn color_verdict(
    metadata: VideoColorMetadata,
    hints: Seq<VideoColorMetadataHint>,
    profile: Option<&IccColorProfileHint>,
    authorities: ColorAuthorities,
) -> ColorVerdict {
    ordered_verdict(metadata, ordered(hints), profile, authorities)
}

/// Interprets the colour metadata of a stream.
pub fn detect_color_space_from_metadata(
    metadata: &VideoColorMetadata,
    metadata_hints: &[VideoColorMetadataHint],
    icc_profile: Option<&IccColorProfileHint>,
    authorities: ColorAuthorities,
) -> (r: DetectedColorInterpretation)
    ensures
        r@ == color_verdict(*metadata, metadata_hints@, icc_profile, authorities),
{
    let hints = order_hints(metadata_hints);
    let cicp = match authorities.exact_cicp {
        Some(color_space) => Some(color_space),
        None => authorities.hinted_cicp,
    };
    match authorities.declarations {
        VideoColorMetadataDeclarationResolution::Conflicting { disputed } => {
            return match find_declaration(&hints, disputed, None) {
                Some(selected) => disputed_interpretation(
                    selected,
                    metadata,
                    &hints,
                    icc_profile,
                    cicp,
                ),
                None => unresolved_color_interpretation(metadata, &hints, icc_profile),
            };
        },
        VideoColorMetadataDeclarationResolution::Unique { scope, color_space } => {
            return match find_declaration(&hints, scope, Some(color_space)) {
                Some(selected) => declared_interpretation(
                    selected,
                    metadata,
                    &hints,
                    icc_profile,
                    cicp,
                ),
                None => unresolved_color_interpretation(metadata, &hints, icc_profile),
            };
        },
        VideoColorMetadataDeclarationResolution::Undeclared => {},
    }
    match authorities.exact_cicp {
        Some(color_space) => {
            return cicp_interpretation(color_space, true, metadata, &hints, icc_profile);
        },
        None => {},
    }
    match authorities.hinted_cicp {
        Some(color_space) => {
            return cicp_interpretation(color_space, false, metadata, &hints, icc_profile);
        },
        None => {},
    }
    match icc_profile {
        Some(icc) => {
            match icc.mapping.color_space() {
                Some(color_space) => {
                    return mapped_icc_interpretation(color_space, icc, metadata, &hints);
                },
                None => {},
            }
            if hints.len() == 0 {
                return unmapped_icc_interpretation(icc, metadata);
            }
        },
        None => {},
    }
    if hints.len() > 0 {
        descriptive_metadata_hint_interpretation(&hints[0], metadata, &hints, icc_profile)
    } else {
        unresolved_color_interpretation(metadata, &hints, icc_profile)
    }
}

/// Interprets the colour metadata of a stream without an embedded profile.
pub fn interpret_video_color_metadata(
    metadata: &VideoColorMetadata,
    metadata_hints: &[VideoColorMetadataHint],
    authorities: ColorAuthorities,
) -> (r: DetectedColorInterpretation)
    ensures
        r@ == color_verdict(*metadata, metadata_hints@, None, authorities),
{
    detect_color_space_from_metadata(metadata, metadata_hints, None, authorities)
}

/// What a fact says, as text.
#[verifier::ext_equal]
pub enum EvidenceText {
    Hint(HintText),
    Other(VideoColorInterpretationEvidence),
}

/// What a fact says.
pub open spec fn evidence_text(evidence: VideoColorInterpretationEvidence) -> EvidenceText {
    match evidence {
        VideoColorInterpretationEvidence::MetadataHint {
            scope,
            key,
            value,
            detected_color_space,
            authority,
        } => EvidenceText::Hint(
            HintText { scope, key: key@, value: value@, detected_color_space, authority },
        ),
        _ => EvidenceText::Other(evidence),
    }
}

/// What a doubt says, as text.
#[verifier::ext_equal]
pub enum DoubtText {
    MultipleMetadataHints { selected: HintText, ignored: Seq<HintText> },
    MetadataHintOverridesCicpTags {
        selected: HintText,
        cicp_color_space: ColorSpace,
        cicp_metadata: VideoColorMetadata,
    },
    DescriptiveMetadataHintInference { selected: HintText },
    LowerPriorityMetadataHints {
        selected_method: VideoColorDetectionMethod,
        selected_color_space: ColorSpace,
        ignored: Seq<HintText>,
    },
    Other(ColorDoubt),
}

/// What a doubt says.
pub open spec fn doubt_text(doubt: ColorDoubt) -> DoubtText {
    match doubt {
        ColorDoubt::MultipleMetadataHints { selected, ignored } =>
            DoubtText::MultipleMetadataHints { selected: selected@, ignored: texts(ignored) },
        ColorDoubt::MetadataHintOverridesCicpTags { selected, cicp_color_space, cicp_metadata } =>
            DoubtText::MetadataHintOverridesCicpTags {
                selected: selected@,
                cicp_color_space,
                cicp_metadata,
            },
        ColorDoubt::DescriptiveMetadataHintInference { selected } =>
            DoubtText::DescriptiveMetadataHintInference { selected: selected@ },
        ColorDoubt::LowerPriorityMetadataHints { selected_method, selected_color_space, ignored } =>
            DoubtText::LowerPriorityMetadataHints {
                selected_method,
                selected_color_space,
                ignored: texts(ignored),
            },
        _ => DoubtText::Other(doubt),
    }
}

/// Whether two interpretations read the same: all is equal, the order of facts and doubts
/// too, and the hints among them say the same.
pub open spec fn reads_same(a: ColorVerdict, b: ColorVerdict) -> bool {
    &&& a.candidate == b.candidate
    &&& a.confidence == b.confidence
    &&& a.source == b.source
    &&& a.method == b.method
    &&& a.user_overridable == b.user_overridable
    &&& a.evidence.len() == b.evidence.len()
    &&& forall|i: int|
        0 <= i < a.evidence.len() ==> evidence_text(#[trigger] a.evidence[i]) == evidence_text(
            b.evidence[i],
        )
    &&& a.warnings.len() == b.warnings.len()
    &&& forall|i: int|
        0 <= i < a.warnings.len() ==> doubt_text(#[trigger] a.warnings[i]) == doubt_text(
            b.warnings[i],
        )
}

proof fn lemma_texts(hints: Seq<VideoColorMetadataHint>)
    ensures
        texts(hints).len() == hints.len(),
        forall|i: int| 0 <= i < hints.len() ==> #[trigger] texts(hints)[i] == hints[i]@,
{
}

proof fn lemma_hint_at(
    a: Seq<VideoColorMetadataHint>,
    b: Seq<VideoColorMetadataHint>,
    i: int,
)
    requires
        texts(a) == texts(b),
        0 <= i < a.len(),
    ensures
        a.len() == b.len(),
        a[i]@ == b[i]@,
{
    lemma_texts(a);
    lemma_texts(b);
    assert(texts(a)[i] == texts(b)[i]);
}

proof fn lemma_same_evidence(a: Seq<VideoColorMetadataHint>, b: Seq<VideoColorMetadataHint>)
    requires
        texts(a) == texts(b),
    ensures
        a.len() == b.len(),
        hints_evidence(a).len() == hints_evidence(b).len(),
        forall|i: int|
            0 <= i < a.len() ==> evidence_text(#[trigger] hints_evidence(a)[i]) == evidence_text(
                hints_evidence(b)[i],
            ),
{
    lemma_texts(a);
    lemma_texts(b);
    assert forall|i: int| 0 <= i < a.len() implies evidence_text(
        #[trigger] hints_evidence(a)[i],
    ) == evidence_text(hints_evidence(b)[i]) by {
        lemma_hint_at(a, b, i);
    }
}

proof fn lemma_same_dissent(
    a: Seq<VideoColorMetadataHint>,
    b: Seq<VideoColorMetadataHint>,
    color_space: ColorSpace,
)
    requires
        texts(a) == texts(b),
    ensures
        texts(dissenting(a, color_space)) == texts(dissenting(b, color_space)),
        dissenting(a, color_space).len() == dissenting(b, color_space).len(),
    decreases a.len(),
{
    lemma_texts(a);
    lemma_texts(b);
    if a.len() > 0 {
        lemma_hint_at(a, b, a.len() - 1);
        assert(texts(a.drop_last()) =~= texts(a).drop_last());
        assert(texts(b.drop_last()) =~= texts(b).drop_last());
        lemma_same_dissent(a.drop_last(), b.drop_last(), color_space);
        let (x, y) = (
            dissenting(a.drop_last(), color_space),
            dissenting(b.drop_last(), color_space),
        );
        assert(texts(x.push(a.last())) =~= texts(x).push(a.last()@));
        assert(texts(y.push(b.last())) =~= texts(y).push(b.last()@));
    }
    assert(texts(dissenting(a, color_space)) =~= texts(dissenting(b, color_space)));
}

proof fn lemma_same_first(
    a: Seq<VideoColorMetadataHint>,
    b: Seq<VideoColorMetadataHint>,
    scope: VideoColorMetadataHintScope,
    color_space: Option<ColorSpace>,
    from: nat,
)
    requires
        texts(a) == texts(b),
    ensures
        match (
            first_declaration(a, scope, color_space, from),
            first_declaration(b, scope, color_space, from),
        ) {
            (Some(x), Some(y)) => x@ == y@,
            (None, None) => true,
            _ => false,
        },
    decreases a.len() - from,
{
    lemma_texts(a);
    lemma_texts(b);
    if from < a.len() {
        lemma_hint_at(a, b, from as int);
        lemma_same_first(a, b, scope, color_space, from + 1);
    }
}

proof fn lemma_same_icc(
    a: ColorVerdict,
    b: ColorVerdict,
    profile: Option<&IccColorProfileHint>,
    selected: Option<ColorSpace>,
)
    requires
        reads_same(a, b),
    ensures
        reads_same(with_icc(a, profile, selected), with_icc(b, profile, selected)),
{
}

proof fn lemma_same_lower_priority(
    x: ColorVerdict,
    y: ColorVerdict,
    a: Seq<VideoColorMetadataHint>,
    b: Seq<VideoColorMetadataHint>,
    method: VideoColorDetectionMethod,
    color_space: ColorSpace,
)
    requires
        reads_same(x, y),
        texts(a) == texts(b),
    ensures
        reads_same(
            with_lower_priority(x, a, method, color_space),
            with_lower_priority(y, b, method, color_space),
        ),
{
    lemma_same_dissent(a, b, color_space);
}

proof fn lemma_same_doubted(
    x: ColorVerdict,
    y: ColorVerdict,
    chosen: VideoColorMetadataHint,
    other: VideoColorMetadataHint,
    a: Seq<VideoColorMetadataHint>,
    b: Seq<VideoColorMetadataHint>,
)
    requires
        reads_same(x, y),
        chosen@ == other@,
        texts(a) == texts(b),
    ensures
        reads_same(with_dissent(x, chosen, a), with_dissent(y, other, b)),
{
    lemma_same_dissent(a, b, chosen.detected_color_space);
}

proof fn lemma_same_verdict(
    metadata: VideoColorMetadata,
    a: Seq<VideoColorMetadataHint>,
    b: Seq<VideoColorMetadataHint>,
    profile: Option<&IccColorProfileHint>,
    authorities: ColorAuthorities,
)
    requires
        texts(a) == texts(b),
    ensures
        reads_same(
            ordered_verdict(metadata, a, profile, authorities),
            ordered_verdict(metadata, b, profile, authorities),
        ),
{
    lemma_texts(a);
    lemma_texts(b);
    lemma_same_unresolved(metadata, a, b, profile);
    match authorities.declarations {
        VideoColorMetadataDeclarationResolution::Conflicting { disputed } => {
            lemma_same_first(a, b, disputed, None, 0);
            match (first_declaration(a, disputed, None, 0), first_declaration(b, disputed, None, 0)) {
                (Some(x), Some(y)) => {
                    lemma_same_disputed(x, y, metadata, a, b, profile, authorities.cicp());
                },
                _ => {},
            }
        },
        VideoColorMetadataDeclarationResolution::Unique { scope, color_space } => {
            let named = Some(color_space);
            lemma_same_first(a, b, scope, named, 0);
            match (first_declaration(a, scope, named, 0), first_declaration(b, scope, named, 0)) {
                (Some(x), Some(y)) => {
                    lemma_same_declared(x, y, metadata, a, b, profile, authorities.cicp());
                },
                _ => {},
            }
        },
        VideoColorMetadataDeclarationResolution::Undeclared => {
            lemma_same_undeclared(metadata, a, b, profile, authorities);
        },
    }
}

proof fn lemma_same_unresolved(
    metadata: VideoColorMetadata,
    a: Seq<VideoColorMetadataHint>,
    b: Seq<VideoColorMetadataHint>,
    profile: Option<&IccColorProfileHint>,
)
    requires
        texts(a) == texts(b),
    ensures
        reads_same(
            unresolved_verdict(metadata, a, profile),
            unresolved_verdict(metadata, b, profile),
        ),
{
    lemma_same_evidence(a, b);
    let unresolved = UnresolvedCicpMetadata::of(metadata);
    let x = ColorVerdict {
        candidate: None,
        confidence: VideoColorInterpretationConfidence::Absent,
        source: unresolved.spec_source(),
        method: unresolved.spec_method(),
        evidence: hints_evidence(a) + unresolved.traces(metadata),
        warnings: seq![unresolved.doubt()],
        user_overridable: true,
    };
    let y = ColorVerdict { evidence: hints_evidence(b) + unresolved.traces(metadata), ..x };
    lemma_same_icc(x, y, profile, None);
}

proof fn lemma_same_disputed(
    chosen: VideoColorMetadataHint,
    other: VideoColorMetadataHint,
    metadata: VideoColorMetadata,
    a: Seq<VideoColorMetadataHint>,
    b: Seq<VideoColorMetadataHint>,
    profile: Option<&IccColorProfileHint>,
    cicp: Option<ColorSpace>,
)
    requires
        chosen@ == other@,
        texts(a) == texts(b),
    ensures
        reads_same(
            disputed_verdict(chosen, metadata, a, profile, cicp),
            disputed_verdict(other, metadata, b, profile, cicp),
        ),
{
    lemma_same_evidence(a, b);
    lemma_same_dissent(a, b, chosen.detected_color_space);
    let x = ColorVerdict {
        candidate: Some(chosen.detected_color_space),
        confidence: VideoColorInterpretationConfidence::Medium,
        source: VideoColorSpaceSource::Metadata,
        method: VideoColorDetectionMethod::MetadataHint,
        evidence: hints_evidence(a),
        warnings: seq![
            ColorDoubt::MultipleMetadataHints {
                selected: chosen,
                ignored: dissenting(a, chosen.detected_color_space),
            },
        ],
        user_overridable: true,
    };
    let y = ColorVerdict {
        evidence: hints_evidence(b),
        warnings: seq![
            ColorDoubt::MultipleMetadataHints {
                selected: other,
                ignored: dissenting(b, other.detected_color_space),
            },
        ],
        ..x
    };
    lemma_same_icc(x, y, profile, cicp);
}

proof fn lemma_same_declared(
    chosen: VideoColorMetadataHint,
    other: VideoColorMetadataHint,
    metadata: VideoColorMetadata,
    a: Seq<VideoColorMetadataHint>,
    b: Seq<VideoColorMetadataHint>,
    profile: Option<&IccColorProfileHint>,
    cicp: Option<ColorSpace>,
)
    requires
        chosen@ == other@,
        texts(a) == texts(b),
    ensures
        reads_same(
            declared_verdict(chosen, metadata, a, profile, cicp),
            declared_verdict(other, metadata, b, profile, cicp),
        ),
{
    lemma_same_evidence(a, b);
    let x = ColorVerdict {
        candidate: Some(chosen.detected_color_space),
        confidence: VideoColorInterpretationConfidence::High,
        source: VideoColorSpaceSource::Metadata,
        method: VideoColorDetectionMethod::MetadataHint,
        evidence: hints_evidence(a),
        warnings: seq![],
        user_overridable: true,
    };
    let y = ColorVerdict { evidence: hints_evidence(b), ..x };
    lemma_same_icc(x, y, profile, cicp);
    let (x, y) = (with_icc(x, profile, cicp), with_icc(y, profile, cicp));
    lemma_same_doubted(x, y, chosen, other, a, b);
}

proof fn lemma_same_undeclared(
    metadata: VideoColorMetadata,
    a: Seq<VideoColorMetadataHint>,
    b: Seq<VideoColorMetadataHint>,
    profile: Option<&IccColorProfileHint>,
    authorities: ColorAuthorities,
)
    requires
        texts(a) == texts(b),
    ensures
        reads_same(
            undeclared_verdict(metadata, a, profile, authorities),
            undeclared_verdict(metadata, b, profile, authorities),
        ),
{
    lemma_same_evidence(a, b);
    lemma_same_unresolved(metadata, a, b, profile);
    match (authorities.exact_cicp, authorities.hinted_cicp) {
        (Some(color_space), _) => {
            lemma_same_cicp(color_space, true, metadata, a, b, profile);
        },
        (None, Some(color_space)) => {
            lemma_same_cicp(color_space, false, metadata, a, b, profile);
        },
        (None, None) => {
            match profile {
                Some(icc) => {
                    if icc.mapping.spec_color_space() is Some {
                        lemma_same_mapped(
                            icc.mapping.spec_color_space().unwrap(),
                            *icc,
                            metadata,
                            a,
                            b,
                        );
                    }
                },
                None => {},
            }
            if a.len() > 0 {
                lemma_hint_at(a, b, 0);
                lemma_same_descriptive(a[0], b[0], metadata, a, b, profile);
            }
        },
    }
}

proof fn lemma_same_cicp(
    color_space: ColorSpace,
    exact: bool,
    metadata: VideoColorMetadata,
    a: Seq<VideoColorMetadataHint>,
    b: Seq<VideoColorMetadataHint>,
    profile: Option<&IccColorProfileHint>,
)
    requires
        texts(a) == texts(b),
    ensures
        reads_same(
            cicp_verdict(color_space, exact, metadata, a, profile),
            cicp_verdict(color_space, exact, metadata, b, profile),
        ),
{
    lemma_same_evidence(a, b);
    let tags = if exact {
        VideoColorInterpretationEvidence::ExactCicpTags {
            primaries: metadata.primaries,
            transfer: metadata.transfer,
            matrix: metadata.matrix,
            detected_color_space: color_space,
        }
    } else {
        VideoColorInterpretationEvidence::PartialCicpTags {
            primaries: metadata.primaries,
            transfer: metadata.transfer,
            matrix: metadata.matrix,
            detected_color_space: color_space,
        }
    };
    let x = ColorVerdict {
        candidate: Some(color_space),
        confidence: if exact {
            VideoColorInterpretationConfidence::High
        } else {
            VideoColorInterpretationConfidence::Medium
        },
        source: VideoColorSpaceSource::Metadata,
        method: VideoColorDetectionMethod::CicpTags,
        evidence: seq![tags] + hints_evidence(a),
        warnings: if exact {
            seq![]
        } else {
            seq![ColorDoubt::PartialCicpTags { detected_color_space: color_space }]
        },
        user_overridable: true,
    };
    let y = ColorVerdict { evidence: seq![tags] + hints_evidence(b), ..x };
    lemma_same_icc(x, y, profile, Some(color_space));
    lemma_same_lower_priority(
        with_icc(x, profile, Some(color_space)),
        with_icc(y, profile, Some(color_space)),
        a,
        b,
        VideoColorDetectionMethod::CicpTags,
        color_space,
    );
}

proof fn lemma_same_mapped(
    color_space: ColorSpace,
    profile: IccColorProfileHint,
    metadata: VideoColorMetadata,
    a: Seq<VideoColorMetadataHint>,
    b: Seq<VideoColorMetadataHint>,
)
    requires
        texts(a) == texts(b),
    ensures
        reads_same(
            mapped_icc_verdict(color_space, profile, metadata, a),
            mapped_icc_verdict(color_space, profile, metadata, b),
        ),
{
    lemma_same_evidence(a, b);
    let unresolved = UnresolvedCicpMetadata::of(metadata);
    let head = seq![icc_evidence(profile)] + unresolved.traces(metadata);
    let x = ColorVerdict {
        candidate: Some(color_space),
        confidence: VideoColorInterpretationConfidence::Medium,
        source: VideoColorSpaceSource::Metadata,
        method: VideoColorDetectionMethod::IccProfile,
        evidence: head + hints_evidence(a),
        warnings: seq![unresolved.doubt()],
        user_overridable: true,
    };
    let y = ColorVerdict { evidence: head + hints_evidence(b), ..x };
    lemma_same_lower_priority(
        x,
        y,
        a,
        b,
        VideoColorDetectionMethod::IccProfile,
        color_space,
    );
}

proof fn lemma_same_descriptive(
    chosen: VideoColorMetadataHint,
    other: VideoColorMetadataHint,
    metadata: VideoColorMetadata,
    a: Seq<VideoColorMetadataHint>,
    b: Seq<VideoColorMetadataHint>,
    profile: Option<&IccColorProfileHint>,
)
    requires
        chosen@ == other@,
        texts(a) == texts(b),
    ensures
        reads_same(
            descriptive_verdict(chosen, metadata, a, profile),
            descriptive_verdict(other, metadata, b, profile),
        ),
{
    lemma_same_evidence(a, b);
    let unresolved = UnresolvedCicpMetadata::of(metadata);
    let x = ColorVerdict {
        candidate: Some(chosen.detected_color_space),
        confidence: VideoColorInterpretationConfidence::Low,
        source: VideoColorSpaceSource::Metadata,
        method: VideoColorDetectionMethod::MetadataHint,
        evidence: hints_evidence(a) + unresolved.traces(metadata),
        warnings: seq![
            ColorDoubt::DescriptiveMetadataHintInference { selected: chosen },
            unresolved.doubt(),
        ],
        user_overridable: true,
    };
    let y = ColorVerdict {
        evidence: hints_evidence(b) + unresolved.traces(metadata),
        warnings: seq![
            ColorDoubt::DescriptiveMetadataHintInference { selected: other },
            unresolved.doubt(),
        ],
        ..x
    };
    lemma_same_doubted(x, y, chosen, other, a, b);
    lemma_same_icc(
        with_dissent(x, chosen, a),
        with_dissent(y, other, b),
        profile,
        Some(chosen.detected_color_space),
    );
}

/// The interpretation does not depend on the order in which hints were found: lists that
/// say the same come to interpretations that read the same, facts and doubts in the same
/// order, where hints that stand either way in the listing say the same.
pub proof fn verdict_ignores_discovery_order(
    metadata: VideoColorMetadata,
    a: Seq<VideoColorMetadataHint>,
    b: Seq<VideoColorMetadataHint>,
    profile: Option<&IccColorProfileHint>,
    authorities: ColorAuthorities,
)
    requires
        texts(a).to_multiset() == texts(b).to_multiset(),
        tells_apart(texts(a)),
    ensures
        reads_same(
            color_verdict(metadata, a, profile, authorities),
            color_verdict(metadata, b, profile, authorities),
        ),
{
    ordering_ignores_discovery(a, b);
    lemma_same_verdict(metadata, ordered(a), ordered(b), profile, authorities);
}

/// The interpretation of parsed hints never depends on the order in which the fields of a
/// stream or container were read.
pub proof fn parsed_verdict_ignores_discovery_order(
    metadata: VideoColorMetadata,
    a: Seq<VideoColorMetadataHint>,
    b: Seq<VideoColorMetadataHint>,
    profile: Option<&IccColorProfileHint>,
    authorities: ColorAuthorities,
)
    requires
        texts(a).to_multiset() == texts(b).to_multiset(),
        forall|i: int| 0 <= i < a.len() ==> is_parsed(#[trigger] a[i]@),
    ensures
        reads_same(
            color_verdict(metadata, a, profile, authorities),
            color_verdict(metadata, b, profile, authorities),
        ),
{
    assert forall|i: int| 0 <= i < texts(a).len() implies is_parsed(#[trigger] texts(a)[i]) by {
        assert(is_parsed(a[i]@));
    }
    parsed_hints_are_told_apart(texts(a));
    verdict_ignores_discovery_order(metadata, a, b, profile, authorities);
}

/// High confidence rests on a declaration of the source that nothing of its scope
/// contradicts, or on exact tags where nothing is declared; on nothing else.
pub proof fn high_confidence_needs_authority(
    metadata: VideoColorMetadata,
    hints: Seq<VideoColorMetadataHint>,
    profile: Option<&IccColorProfileHint>,
    authorities: ColorAuthorities,
)
    ensures
        (color_verdict(metadata, hints, profile, authorities).confidence
            == VideoColorInterpretationConfidence::High) == (match authorities.declarations {
            VideoColorMetadataDeclarationResolution::Unique { scope, color_space } =>
                first_declaration(ordered(hints), scope, Some(color_space), 0) is Some,
            VideoColorMetadataDeclarationResolution::Conflicting { .. } => false,
            VideoColorMetadataDeclarationResolution::Undeclared => authorities.exact_cicp is Some,
        }),
{
}

/// An interpretation names an identity exactly where it has some confidence, and
/// exactly where it rests on metadata; where it names none it says why, and a user
/// may always overrule it.
pub proof fn verdict_is_consistent(
    metadata: VideoColorMetadata,
    hints: Seq<VideoColorMetadataHint>,
    profile: Option<&IccColorProfileHint>,
    authorities: ColorAuthorities,
)
    ensures
        ({
            let verdict = color_verdict(metadata, hints, profile, authorities);
            &&& verdict.user_overridable
            &&& (verdict.candidate is Some) == (verdict.confidence
                != VideoColorInterpretationConfidence::Absent)
            &&& (verdict.candidate is Some) == (verdict.source == VideoColorSpaceSource::Metadata)
            &&& verdict.candidate is None ==> verdict.warnings.len() > 0
        }),
{
}

/// Where nothing is declared, tagged, embedded or written, nothing is concluded.
pub proof fn silence_concludes_nothing(metadata: VideoColorMetadata, authorities: ColorAuthorities)
    requires
        authorities.exact_cicp is None,
        authorities.hinted_cicp is None,
    ensures
        color_verdict(metadata, seq![], None, authorities).candidate is None,
{
    assert(ordered(seq![]) =~= seq![]);
}

proof fn lemma_same_members(hints: Seq<VideoColorMetadataHint>, hint: VideoColorMetadataHint)
    ensures
        ordered(hints).contains(hint) <==> hints.contains(hint),
        ordered(hints).len() == hints.len(),
{
    broadcast use vstd::seq_lib::group_to_multiset_ensures;

    ordering_keeps_every_hint(hints);
    assert(ordered(hints).to_multiset().contains(hint) <==> ordered(hints).contains(hint));
    assert(hints.to_multiset().contains(hint) <==> hints.contains(hint));
}

proof fn lemma_first_declaration(
    hints: Seq<VideoColorMetadataHint>,
    scope: VideoColorMetadataHintScope,
    color_space: Option<ColorSpace>,
    from: nat,
)
    ensures
        match first_declaration(hints, scope, color_space, from) {
            Some(found) => hints.contains(found) && declares(found, scope, color_space),
            None => forall|i: int|
                from <= i < hints.len() ==> !declares(#[trigger] hints[i], scope, color_space),
        },
    decreases hints.len() - from,
{
    if from < hints.len() {
        if declares(hints[from as int], scope, color_space) {
            assert(hints.contains(hints[from as int]));
        } else {
            lemma_first_declaration(hints, scope, color_space, from + 1);
        }
    }
}

/// What a declaration names is what a stream is, whatever its tags, its profile and other
/// texts say: with high confidence, by the declaration.
pub proof fn declarations_decide(
    metadata: VideoColorMetadata,
    hints: Seq<VideoColorMetadataHint>,
    profile: Option<&IccColorProfileHint>,
    authorities: ColorAuthorities,
    declared: VideoColorMetadataHint,
)
    requires
        hints.contains(declared),
        declared.authority is SourceDeclaration,
        authorities.declarations == (VideoColorMetadataDeclarationResolution::Unique {
            scope: declared.scope,
            color_space: declared.detected_color_space,
        }),
    ensures
        ({
            let verdict = color_verdict(metadata, hints, profile, authorities);
            &&& verdict.candidate == Some(declared.detected_color_space)
            &&& verdict.confidence is High
            &&& verdict.method is MetadataHint
            &&& verdict.source is Metadata
        }),
{
    lemma_same_members(hints, declared);
    let listing = ordered(hints);
    let wanted = Some(declared.detected_color_space);
    lemma_first_declaration(listing, declared.scope, wanted, 0);
    let i = choose|i: int| 0 <= i < listing.len() && listing[i] == declared;
    assert(declares(listing[i], declared.scope, wanted));
}

/// Declarations that contradict each other decide nothing for sure: one of them, of the
/// scope that is disputed, stands for the stream, with medium confidence, and all that name
/// another identity are listed as ignored.
pub proof fn disputes_stay_doubtful(
    metadata: VideoColorMetadata,
    hints: Seq<VideoColorMetadataHint>,
    profile: Option<&IccColorProfileHint>,
    authorities: ColorAuthorities,
    declared: VideoColorMetadataHint,
)
    requires
        hints.contains(declared),
        declared.authority is SourceDeclaration,
        authorities.declarations == (VideoColorMetadataDeclarationResolution::Conflicting {
            disputed: declared.scope,
        }),
    ensures
        ({
            let verdict = color_verdict(metadata, hints, profile, authorities);
            &&& verdict.confidence is Medium
            &&& verdict.method is MetadataHint
            &&& exists|chosen: VideoColorMetadataHint|
                #![trigger hints.contains(chosen)]
                hints.contains(chosen) && chosen.scope == declared.scope
                    && chosen.authority is SourceDeclaration && verdict.candidate == Some(
                    chosen.detected_color_space,
                ) && (verdict.warnings.len() > 0 && (verdict.warnings[0]
                    matches ColorDoubt::MultipleMetadataHints { selected, ignored } && selected
                    == chosen && forall|other: VideoColorMetadataHint|
                    #![trigger ignored.contains(other)]
                    ignored.contains(other) <==> hints.contains(other)
                        && other.detected_color_space != chosen.detected_color_space))
        }),
{
    lemma_same_members(hints, declared);
    let listing = ordered(hints);
    lemma_first_declaration(listing, declared.scope, None, 0);
    let i = choose|i: int| 0 <= i < listing.len() && listing[i] == declared;
    assert(declares(listing[i], declared.scope, None));
    let chosen = first_declaration(listing, declared.scope, None, 0).unwrap();
    lemma_same_members(hints, chosen);
    assert(hints.contains(chosen));
    let ignored = dissenting(listing, chosen.detected_color_space);
    let verdict = color_verdict(metadata, hints, profile, authorities);
    assert forall|other: VideoColorMetadataHint|
        #![trigger ignored.contains(other)]
        ignored.contains(other) <==> hints.contains(other) && other.detected_color_space
            != chosen.detected_color_space by {
        lemma_same_members(hints, other);
        dissenters_are_those_who_differ(listing, chosen.detected_color_space, other);
    }
    assert(verdict.warnings[0]
        == (ColorDoubt::MultipleMetadataHints { selected: chosen, ignored }));
}

/// Hints dissent from an identity exactly where they name another one, and they keep their
/// order.
pub proof fn dissenters_are_those_who_differ(
    hints: Seq<VideoColorMetadataHint>,
    color_space: ColorSpace,
    hint: VideoColorMetadataHint,
)
    ensures
        dissenting(hints, color_space).contains(hint) <==> hints.contains(hint)
            && hint.detected_color_space != color_space,
        dissenting(hints, color_space) == hints.filter(
            |other: VideoColorMetadataHint| other.detected_color_space != color_space,
        ),
    decreases hints.len(),
{
    reveal(Seq::filter);
    let differs = |other: VideoColorMetadataHint| other.detected_color_space != color_space;
    if hints.len() > 0 {
        let front = hints.drop_last();
        dissenters_are_those_who_differ(front, color_space, hint);
        let out = dissenting(hints, color_space);
        let before = dissenting(front, color_space);
        if hints.contains(hint) {
            let i = choose|i: int| 0 <= i < hints.len() && hints[i] == hint;
            if i < front.len() {
                assert(front[i] == hint);
            }
        }
        if front.contains(hint) {
            let i = choose|i: int| 0 <= i < front.len() && front[i] == hint;
            assert(hints[i] == hint);
        }
        if before.contains(hint) {
            let i = choose|i: int| 0 <= i < before.len() && before[i] == hint;
            assert(out[i] == hint);
        }
        if hints.last() == hint && hint.detected_color_space != color_space {
            assert(out[out.len() - 1] == hint);
        }
        if out.contains(hint) {
            let i = choose|i: int| 0 <= i < out.len() && out[i] == hint;
            if i < before.len() {
                assert(before[i] == hint);
            } else {
                assert(hints[hints.len() - 1] == hint);
            }
        }
    }
}

/// Without declarations the first of these that says anything decides: exact tags for
/// sure; tags that only suggest, and then a mapped profile, with medium confidence; free
/// text with low confidence, by the hint that stands first of all. What a later one says
/// changes neither the identity nor the confidence.
pub proof fn evidence_is_ranked(
    metadata: VideoColorMetadata,
    hints: Seq<VideoColorMetadataHint>,
    profile: Option<&IccColorProfileHint>,
    authorities: ColorAuthorities,
)
    requires
        authorities.declarations is Undeclared,
    ensures
        ({
            let verdict = color_verdict(metadata, hints, profile, authorities);
            let mapped = if profile is Some {
                match profile.unwrap().mapping {
                    IccColorSpaceMapping::Mapped { color_space } => Some(color_space),
                    _ => None,
                }
            } else {
                None
            };
            &&& authorities.exact_cicp matches Some(exact) ==> verdict.candidate == Some(exact)
                && verdict.confidence is High && verdict.method is CicpTags
            &&& authorities.exact_cicp is None ==> (authorities.hinted_cicp matches Some(hinted)
                ==> verdict.candidate == Some(hinted) && verdict.confidence is Medium
                && verdict.method is CicpTags)
            &&& authorities.exact_cicp is None && authorities.hinted_cicp is None ==> {
                &&& mapped is Some ==> verdict.candidate == mapped && verdict.confidence is Medium
                    && verdict.method is IccProfile
                &&& mapped is None && hints.len() > 0 ==> verdict.confidence is Low
                    && verdict.method is MetadataHint && exists|first: VideoColorMetadataHint|
                    #![trigger hints.contains(first)]
                    hints.contains(first) && verdict.candidate == Some(first.detected_color_space)
                        && forall|other: VideoColorMetadataHint|
                        #![trigger hints.contains(other)]
                        hints.contains(other) ==> hint_order(first, other)
                &&& mapped is None && hints.len() == 0 ==> verdict.candidate is None
                    && verdict.confidence is Absent
            }
        }),
{
    ordering_keeps_every_hint(hints);
    let listing = ordered(hints);
    if hints.len() > 0 {
        let first = listing[0];
        lemma_same_members(hints, first);
        assert(listing.contains(first));
        assert forall|other: VideoColorMetadataHint|
            #![trigger hints.contains(other)]
            hints.contains(other) implies hint_order(first, other) by {
            lemma_same_members(hints, other);
            let i = choose|i: int| 0 <= i < listing.len() && listing[i] == other;
            assert(hint_order(listing[0], listing[i]));
        }
        assert(hints.contains(first));
    }
}

/// Nothing that was found is passed over in silence: every hint and the profile are named
/// as evidence of every interpretation, a profile without a mapping raises a doubt, and tags
/// that name nothing known are kept with the doubt that they raise.
pub proof fn everything_found_is_evidence(
    metadata: VideoColorMetadata,
    hints: Seq<VideoColorMetadataHint>,
    profile: Option<&IccColorProfileHint>,
    authorities: ColorAuthorities,
    hint: VideoColorMetadataHint,
)
    requires
        hints.contains(hint),
    ensures
        color_verdict(metadata, hints, profile, authorities).evidence.contains(
            VideoColorInterpretationEvidence::MetadataHint {
                scope: hint.scope,
                key: hint.key,
                value: hint.value,
                detected_color_space: hint.detected_color_space,
                authority: hint.authority,
            },
        ),
{
    lemma_same_members(hints, hint);
    let listing = ordered(hints);
    let i = choose|i: int| 0 <= i < listing.len() && listing[i] == hint;
    let said = hints_evidence(listing);
    assert(said[i] == hint_evidence(hint));
    let all = color_verdict(metadata, hints, profile, authorities).evidence;
    let traces = UnresolvedCicpMetadata::of(metadata).traces(metadata);
    match authorities.declarations {
        VideoColorMetadataDeclarationResolution::Conflicting { .. } => {
            assert(all[i] == said[i]);
        },
        VideoColorMetadataDeclarationResolution::Unique { .. } => {
            assert(all[i] == said[i]);
        },
        VideoColorMetadataDeclarationResolution::Undeclared => {
            if authorities.exact_cicp is Some || authorities.hinted_cicp is Some {
                assert(all[i + 1] == said[i]);
            } else if profile is Some && profile.unwrap().mapping.spec_color_space() is Some {
                assert(all[1 + traces.len() + i] == said[i]);
            } else {
                assert(all[i] == said[i]);
            }
        },
    }
}

/// An embedded profile is named as evidence whatever decided, and raises a doubt where it
/// has no mapping, or where it maps to another identity than the tags that decided.
pub proof fn profiles_are_never_passed_over(
    metadata: VideoColorMetadata,
    hints: Seq<VideoColorMetadataHint>,
    profile: &IccColorProfileHint,
    authorities: ColorAuthorities,
)
    ensures
        ({
            let verdict = color_verdict(metadata, hints, Some(profile), authorities);
            let mapped = match profile.mapping {
                IccColorSpaceMapping::Mapped { color_space } => Some(color_space),
                _ => None,
            };
            &&& verdict.evidence.contains(
                VideoColorInterpretationEvidence::IccProfile {
                    mapped_color_space: mapped,
                    profile_name: profile.profile_name,
                },
            )
            &&& profile.mapping matches IccColorSpaceMapping::Unmapped { reason, .. }
                ==> verdict.warnings.contains(
                ColorDoubt::IccProfileUnmapped { profile_name: profile.profile_name, reason },
            )
            &&& authorities.declarations is Undeclared ==> (match (
                mapped,
                authorities.exact_cicp,
                authorities.hinted_cicp,
            ) {
                (Some(icc), Some(tags), _) => icc != tags ==> verdict.warnings.contains(
                    ColorDoubt::IccCicpMismatch { icc_color_space: icc, cicp_color_space: tags },
                ),
                (Some(icc), None, Some(tags)) => icc != tags ==> verdict.warnings.contains(
                    ColorDoubt::IccCicpMismatch { icc_color_space: icc, cicp_color_space: tags },
                ),
                _ => true,
            })
        }),
{
    let listing = ordered(hints);
    let verdict = color_verdict(metadata, hints, Some(profile), authorities);
    let note = icc_evidence(*profile);
    let said = hints_evidence(listing);
    let unresolved = UnresolvedCicpMetadata::of(metadata);
    let traces = unresolved.traces(metadata);
    let cicp = authorities.cicp();
    match authorities.declarations {
        VideoColorMetadataDeclarationResolution::Conflicting { disputed } => {
            match first_declaration(listing, disputed, None, 0) {
                Some(selected) => {
                    assert(verdict.evidence[said.len() as int] == note);
                    if profile.mapping.spec_color_space() is None {
                        assert(verdict.warnings[1] is IccProfileUnmapped);
                    }
                },
                None => {
                    assert(verdict.evidence[(said + traces).len() as int] == note);
                    if profile.mapping.spec_color_space() is None {
                        assert(verdict.warnings[1] is IccProfileUnmapped);
                    }
                },
            }
        },
        VideoColorMetadataDeclarationResolution::Unique { scope, color_space } => {
            match first_declaration(listing, scope, Some(color_space), 0) {
                Some(selected) => {
                    assert(verdict.evidence[said.len() as int] == note);
                    if profile.mapping.spec_color_space() is None {
                        assert(verdict.warnings[0] is IccProfileUnmapped);
                    }
                },
                None => {
                    assert(verdict.evidence[(said + traces).len() as int] == note);
                    if profile.mapping.spec_color_space() is None {
                        assert(verdict.warnings[1] is IccProfileUnmapped);
                    }
                },
            }
        },
        VideoColorMetadataDeclarationResolution::Undeclared => {
            if cicp is Some {
                let exact = authorities.exact_cicp is Some;
                let at = if exact {
                    0int
                } else {
                    1int
                };
                assert(verdict.evidence[1 + said.len() as int] == note);
                if profile.mapping.spec_color_space() is None {
                    assert(verdict.warnings[at] is IccProfileUnmapped);
                } else if profile.mapping.spec_color_space() != cicp {
                    assert(verdict.warnings[at] is IccCicpMismatch);
                }
            } else if profile.mapping.spec_color_space() is Some {
                assert(verdict.evidence[0] == note);
            } else if listing.len() == 0 {
                assert(verdict.evidence[0] == note);
                assert(verdict.warnings[1] is IccProfileUnmapped);
            } else {
                assert(verdict.evidence[(said + traces).len() as int] == note);
                assert(verdict.warnings.last() is IccProfileUnmapped);
                assert(verdict.warnings[verdict.warnings.len() - 1] == verdict.warnings.last());
            }
        },
    }
}

/// A declaration that goes against the tags says so, with what the tags named.
pub proof fn overruled_tags_are_named(
    selected: VideoColorMetadataHint,
    metadata: VideoColorMetadata,
    hints: Seq<VideoColorMetadataHint>,
    profile: Option<&IccColorProfileHint>,
    tags: ColorSpace,
)
    ensures
        declared_verdict(selected, metadata, hints, profile, Some(tags)).warnings.contains(
            ColorDoubt::MetadataHintOverridesCicpTags {
                selected,
                cicp_color_space: tags,
                cicp_metadata: metadata,
            },
        ) <==> tags != selected.detected_color_space,
        (exists|i: int|
            0 <= i < hints.len() && (#[trigger] hints[i]).detected_color_space
                != selected.detected_color_space) ==> declared_verdict(
            selected,
            metadata,
            hints,
            profile,
            Some(tags),
        ).warnings.contains(
            ColorDoubt::MultipleMetadataHints {
                selected,
                ignored: hints.filter(
                    |other: VideoColorMetadataHint|
                        other.detected_color_space != selected.detected_color_space,
                ),
            },
        ),
{
    let verdict = declared_verdict(selected, metadata, hints, profile, Some(tags));
    dissenters_are_those_who_differ(hints, selected.detected_color_space, selected);
    let w = verdict.warnings;
    if tags != selected.detected_color_space {
        assert(w[w.len() - 1] is MetadataHintOverridesCicpTags);
    } else {
        assert forall|i: int| 0 <= i < w.len() implies !(
        #[trigger] w[i] is MetadataHintOverridesCicpTags) by {}
    }
    if exists|i: int|
        0 <= i < hints.len() && (#[trigger] hints[i]).detected_color_space
            != selected.detected_color_space {
        let i = choose|i: int|
            0 <= i < hints.len() && (#[trigger] hints[i]).detected_color_space
                != selected.detected_color_space;
        assert(hints.contains(hints[i]));
        dissenters_are_those_who_differ(hints, selected.detected_color_space, hints[i]);
        let k = if tags != selected.detected_color_space {
            w.len() - 2
        } else {
            w.len() - 1
        };
        assert(w[k] is MultipleMetadataHints);
    }
}

/// Tags that decide are kept as evidence with the identity that they came to; where they
/// only suggest it, that is a doubt of its own.
pub proof fn deciding_tags_are_kept(
    metadata: VideoColorMetadata,
    hints: Seq<VideoColorMetadataHint>,
    profile: Option<&IccColorProfileHint>,
    authorities: ColorAuthorities,
)
    requires
        authorities.declarations is Undeclared,
    ensures
        ({
            let verdict = color_verdict(metadata, hints, profile, authorities);
            &&& authorities.exact_cicp matches Some(exact) ==> verdict.evidence.contains(
                VideoColorInterpretationEvidence::ExactCicpTags {
                    primaries: metadata.primaries,
                    transfer: metadata.transfer,
                    matrix: metadata.matrix,
                    detected_color_space: exact,
                },
            )
            &&& authorities.exact_cicp is None ==> (authorities.hinted_cicp matches Some(hinted)
                ==> verdict.evidence.contains(
                VideoColorInterpretationEvidence::PartialCicpTags {
                    primaries: metadata.primaries,
                    transfer: metadata.transfer,
                    matrix: metadata.matrix,
                    detected_color_space: hinted,
                },
            ) && verdict.warnings.contains(
                ColorDoubt::PartialCicpTags { detected_color_space: hinted },
            ))
            &&& authorities.exact_cicp is None && authorities.hinted_cicp is None
                && !metadata.primaries.specified && !metadata.transfer.specified
                && !metadata.matrix.specified ==> verdict.warnings.contains(
                ColorDoubt::MissingCicpTags,
            )
            &&& authorities.exact_cicp is None && authorities.hinted_cicp is None && (
            metadata.primaries.specified || metadata.transfer.specified
                || metadata.matrix.specified) ==> verdict.warnings.contains(
                ColorDoubt::UnsupportedCicpTags,
            ) && verdict.evidence.contains(
                VideoColorInterpretationEvidence::UnsupportedCicpTags {
                    primaries: metadata.primaries,
                    transfer: metadata.transfer,
                    matrix: metadata.matrix,
                },
            )
        }),
{
    let verdict = color_verdict(metadata, hints, profile, authorities);
    let listing = ordered(hints);
    let said = hints_evidence(listing);
    if authorities.cicp() is Some {
        assert(verdict.evidence[0] is ExactCicpTags || verdict.evidence[0] is PartialCicpTags);
        if authorities.exact_cicp is None {
            assert(verdict.warnings[0] is PartialCicpTags);
        }
    } else {
        let traces = UnresolvedCicpMetadata::of(metadata).traces(metadata);
        let mapped = profile is Some && profile.unwrap().mapping.spec_color_space() is Some;
        if mapped || listing.len() == 0 {
            assert(verdict.warnings[0] == UnresolvedCicpMetadata::of(metadata).doubt());
        } else {
            assert(verdict.warnings[1] == UnresolvedCicpMetadata::of(metadata).doubt());
        }
        if traces.len() > 0 {
            if mapped || (listing.len() == 0 && profile is Some) {
                assert(verdict.evidence[1] == traces[0]);
            } else {
                assert(verdict.evidence[said.len() as int] == traces[0]);
            }
        }
    }
}

} // verus!
